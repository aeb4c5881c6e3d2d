//! Date handling, meetup creation and calendar export for a community's
//! chat bot.
//!
//! The crate turns the wall-clock strings that an organiser types into
//! instants in the community's time zone, decides step by step what is to be
//! done to create a meetup, and maps scheduled events to an iCalendar file.
//! Time-zone rules, time formatting and the iCalendar objects come from
//! `chrono`, `chrono-tz` and `ics`; everything that decides what is handed
//! to them, and what is made of their answers, is verified.

pub mod civil;
pub mod text;
pub mod grammar;
pub mod zone;
pub mod normalize;
pub mod draft;
pub mod announce;
pub mod creation;
pub mod stamp;
pub mod ical;
pub mod export;
