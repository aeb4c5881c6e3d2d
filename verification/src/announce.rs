//! The announcement of a new meetup and the channel it goes to.

use crate::text::{decimal, decimal_text};
use std::collections::HashMap;
use vstd::prelude::*;
use vstd::string::StringExecFns;

verus! {

/// Where the pages of scheduled events live; ends in a slash.
pub const EVENT_URL: &'static str = "https://discord.com/events/";

/// What stands between the link and the organiser in an announcement.
pub const ANNOUNCEMENT_JOINER: &'static str = " mit ";

/// The announcement of a meetup: its name as a link to the event's page,
/// then the joiner and the organiser.
///
/// The page of an event is [`EVENT_URL`], the guild, a slash and the event;
/// the base already ends in a slash, so none is put before the guild.
pub open spec fn announcement_text(
    name: Seq<char>,
    guild_id: nat,
    event_id: nat,
    author: Seq<char>,
) -> Seq<char> {
    "["@ + name + "]("@ + EVENT_URL@ + decimal_text(guild_id) + "/"@ + decimal_text(event_id)
        + ")"@ + ANNOUNCEMENT_JOINER@ + author
}

/// Writes the announcement of a meetup; `author` is the organiser as the
/// platform mentions them.
pub fn announcement(name: &str, guild_id: u64, event_id: u64, author: &str) -> (r: String)
    ensures
        r@ == announcement_text(name@, guild_id as nat, event_id as nat, author@),
{
    let mut r = String::from_str("[");
    r.append(name);
    r.append("](");
    r.append(EVENT_URL);
    r.append(decimal(guild_id).as_str());
    r.append("/");
    r.append(decimal(event_id).as_str());
    r.append(")");
    r.append(ANNOUNCEMENT_JOINER);
    r.append(author);
    assert(r@ =~= announcement_text(name@, guild_id as nat, event_id as nat, author@));
    r
}

/// The channel in which a guild's meetups are announced, if one is set.
pub open spec fn channel_for(channels: Map<u64, u64>, guild_id: u64) -> Option<u64> {
    if channels.contains_key(guild_id) {
        Some(channels[guild_id])
    } else {
        None
    }
}

/// Looks up the channel in which a guild's meetups are announced.
pub fn announcement_channel(channels: &HashMap<u64, u64>, guild_id: u64) -> (r: Option<u64>)
    ensures
        r == channel_for(channels@, guild_id),
{
    broadcast use vstd::std_specs::hash::group_hash_axioms;

    match channels.get(&guild_id) {
        Some(channel) => Some(*channel),
        None => None,
    }
}

} // verus!
