[package]
name = "meetup_events"
version = "0.1.0"
edition = "2021"
publish = false

[dependencies]
anyhow = "1"
chrono = "0.4"
chrono-tz = "0.10"
ics = "0.5"
poise = "0.6"
