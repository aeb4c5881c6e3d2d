//! Creating a meetup, step by step.
//!
//! Creating a meetup takes several calls to the chat platform, each of which
//! may fail.  The caller makes the calls; [`step`] decides, from the stage
//! reached and the platform's reply, what is to be done next.  The steps
//! come in one order, and the first failure ends the run: what was done
//! before it stays done.

use crate::announce::{announcement, announcement_channel, announcement_text, channel_for};
use crate::draft::{draft, drafted, EventDraft};
use crate::normalize::NormalizeError;
use crate::text::{clone_text, decimal, decimal_text, text_of};
use vstd::string::StringExecFns;
use std::collections::HashMap;
use vstd::prelude::*;

verus! {

/// First reaction under an announcement: thumbs up.
pub const REACTION_YES: char = '\u{1F44D}';

/// Second reaction under an announcement: a white question mark.
pub const REACTION_MAYBE: char = '\u{2754}';

/// What the organiser asked for, and who and where they are.
#[derive(Clone, Debug, PartialEq, Eq)]
pub struct CreateRequest {
    pub guild_id: u64,
    pub author_id: u64,
    /// The organiser as the platform mentions them.
    pub author_mention: String,
    pub name: String,
    pub location: String,
    pub start: String,
    pub end: Option<String>,
}

/// What a [`CreateRequest`] holds.
pub struct CreateRequestView {
    pub guild_id: u64,
    pub author_id: u64,
    pub author_mention: Seq<char>,
    pub name: Seq<char>,
    pub location: Seq<char>,
    pub start: Seq<char>,
    pub end: Option<Seq<char>>,
}

impl View for CreateRequest {
    type V = CreateRequestView;

    open spec fn view(&self) -> CreateRequestView {
        CreateRequestView {
            guild_id: self.guild_id,
            author_id: self.author_id,
            author_mention: self.author_mention@,
            name: self.name@,
            location: self.location@,
            start: self.start@,
            end: text_of(self.end),
        }
    }
}

/// Why a meetup was not created, or not to the end.
#[derive(Clone, Copy, Debug, PartialEq, Eq, Structural)]
pub enum CreateError {
    /// The typed dates cannot be used.
    Dates(NormalizeError),
    /// No announcement channel is set for the guild.
    Config(u64),
    /// The platform reported a failure, or replied out of turn.
    Platform,
}

impl CreateError {
    /// The sentence shown to the organiser.
    pub open spec fn message_text(&self) -> Seq<char> {
        match *self {
            CreateError::Dates(e) => e.message_text(),
            CreateError::Config(guild_id) => "No announcement channel configured for guild "@
                + decimal_text(guild_id as nat),
            CreateError::Platform => "The platform reported a failure"@,
        }
    }

    /// The sentence shown to the organiser.
    pub fn message(&self) -> (r: String)
        ensures
            r@ == self.message_text(),
    {
        match *self {
            CreateError::Dates(e) => String::from_str(e.message()),
            CreateError::Config(guild_id) => {
                let mut r = String::from_str("No announcement channel configured for guild ");
                r.append(decimal(guild_id).as_str());
                r
            },
            CreateError::Platform => String::from_str("The platform reported a failure"),
        }
    }
}

/// How far the creation of a meetup has come: the call whose reply is
/// awaited.
#[derive(Clone, Copy, Debug, PartialEq, Eq, Structural)]
pub enum Stage {
    Start,
    Deferring,
    CreatingEvent,
    Announcing { channel_id: u64 },
    ReactingFirst { channel_id: u64, message_id: u64 },
    ReactingSecond { channel_id: u64, message_id: u64 },
    OpeningThread,
    AddingMember,
    Finished,
}

/// What the platform answered to the last call.
#[derive(Clone, Copy, Debug, PartialEq, Eq, Structural)]
pub enum Reply {
    /// Nothing was called yet.
    Begin,
    Deferred,
    EventCreated { guild_id: u64, event_id: u64 },
    Announced { message_id: u64 },
    Reacted,
    ThreadOpened { thread_id: u64 },
    MemberAdded,
    /// The call failed.
    Failed,
}

/// What the caller is to do next.
#[derive(Clone, Debug, PartialEq, Eq)]
pub enum Action {
    /// Tell the platform that the answer will take a while.
    Defer,
    /// Create a scheduled event of the external kind.
    CreateEvent { guild_id: u64, name: String, location: String, draft: EventDraft },
    /// Post the announcement.
    Announce { channel_id: u64, text: String },
    /// React to the announcement.
    React { channel_id: u64, message_id: u64, emoji: char },
    /// Open the discussion thread under the announcement.
    OpenThread { channel_id: u64, message_id: u64, title: String },
    /// Add the organiser to the thread.
    AddThreadMember { thread_id: u64, user_id: u64 },
    /// Tell the organiser that all is done.
    Done,
    /// Tell the organiser what went wrong, and stop.
    Fail(CreateError),
}

/// What an [`Action`] holds.
pub enum ActionView {
    Defer,
    CreateEvent { guild_id: u64, name: Seq<char>, location: Seq<char>, draft: EventDraft },
    Announce { channel_id: u64, text: Seq<char> },
    React { channel_id: u64, message_id: u64, emoji: char },
    OpenThread { channel_id: u64, message_id: u64, title: Seq<char> },
    AddThreadMember { thread_id: u64, user_id: u64 },
    Done,
    Fail(CreateError),
}

impl View for Action {
    type V = ActionView;

    open spec fn view(&self) -> ActionView {
        match *self {
            Action::Defer => ActionView::Defer,
            Action::CreateEvent { guild_id, name, location, draft } => ActionView::CreateEvent {
                guild_id,
                name: name@,
                location: location@,
                draft,
            },
            Action::Announce { channel_id, text } => ActionView::Announce {
                channel_id,
                text: text@,
            },
            Action::React { channel_id, message_id, emoji } => ActionView::React {
                channel_id,
                message_id,
                emoji,
            },
            Action::OpenThread { channel_id, message_id, title } => ActionView::OpenThread {
                channel_id,
                message_id,
                title: title@,
            },
            Action::AddThreadMember { thread_id, user_id } => ActionView::AddThreadMember {
                thread_id,
                user_id,
            },
            Action::Done => ActionView::Done,
            Action::Fail(e) => ActionView::Fail(e),
        }
    }
}

/// The run ends here with a failure of the platform.
pub open spec fn platform_failure() -> (Stage, ActionView) {
    (Stage::Finished, ActionView::Fail(CreateError::Platform))
}

/// What follows the acknowledgement: the event is created from the typed
/// dates, or the run ends with what is wrong with them.
pub open spec fn after_deferral(request: CreateRequestView) -> (Stage, ActionView) {
    match drafted(request.start, request.end) {
        Ok(draft) => (
            Stage::CreatingEvent,
            ActionView::CreateEvent {
                guild_id: request.guild_id,
                name: request.name,
                location: request.location,
                draft,
            },
        ),
        Err(e) => (Stage::Finished, ActionView::Fail(CreateError::Dates(e))),
    }
}

/// What follows the creation of the event: it is announced in the guild's
/// channel, or the run ends because the guild has none.
pub open spec fn after_creation(
    request: CreateRequestView,
    channels: Map<u64, u64>,
    guild_id: u64,
    event_id: u64,
) -> (Stage, ActionView) {
    match channel_for(channels, request.guild_id) {
        Some(channel_id) => (
            Stage::Announcing { channel_id },
            ActionView::Announce {
                channel_id,
                text: announcement_text(
                    request.name,
                    guild_id as nat,
                    event_id as nat,
                    request.author_mention,
                ),
            },
        ),
        None => (Stage::Finished, ActionView::Fail(CreateError::Config(request.guild_id))),
    }
}

/// The next stage and what to do, from the stage reached and the reply to
/// the call of that stage.  A failed call, and a reply that is not the one
/// the stage awaits, end the run.
pub open spec fn step_spec(
    request: CreateRequestView,
    channels: Map<u64, u64>,
    stage: Stage,
    reply: Reply,
) -> (Stage, ActionView) {
    match (stage, reply) {
        (Stage::Start, Reply::Begin) => (Stage::Deferring, ActionView::Defer),
        (Stage::Deferring, Reply::Deferred) => after_deferral(request),
        (Stage::CreatingEvent, Reply::EventCreated { guild_id, event_id }) => after_creation(
            request,
            channels,
            guild_id,
            event_id,
        ),
        (Stage::Announcing { channel_id }, Reply::Announced { message_id }) => (
            Stage::ReactingFirst { channel_id, message_id },
            ActionView::React { channel_id, message_id, emoji: REACTION_YES },
        ),
        (Stage::ReactingFirst { channel_id, message_id }, Reply::Reacted) => (
            Stage::ReactingSecond { channel_id, message_id },
            ActionView::React { channel_id, message_id, emoji: REACTION_MAYBE },
        ),
        (Stage::ReactingSecond { channel_id, message_id }, Reply::Reacted) => (
            Stage::OpeningThread,
            ActionView::OpenThread { channel_id, message_id, title: request.name },
        ),
        (Stage::OpeningThread, Reply::ThreadOpened { thread_id }) => (
            Stage::AddingMember,
            ActionView::AddThreadMember { thread_id, user_id: request.author_id },
        ),
        (Stage::AddingMember, Reply::MemberAdded) => (Stage::Finished, ActionView::Done),
        _ => platform_failure(),
    }
}

/// Decides what is to be done next; see [`step_spec`].
///
/// The caller starts at [`Stage::Start`] with [`Reply::Begin`], does what the
/// action says, and comes back with the new stage and the platform's reply,
/// until the action is [`Action::Done`] or [`Action::Fail`].
pub fn step(
    request: &CreateRequest,
    channels: &HashMap<u64, u64>,
    stage: Stage,
    reply: Reply,
) -> (r: (Stage, Action))
    ensures
        (r.0, r.1@) == step_spec(request@, channels@, stage, reply),
{
    match (stage, reply) {
        (Stage::Start, Reply::Begin) => (Stage::Deferring, Action::Defer),
        (Stage::Deferring, Reply::Deferred) => {
            match draft(request.start.clone(), clone_text(&request.end)) {
                Ok(draft) => (
                    Stage::CreatingEvent,
                    Action::CreateEvent {
                        guild_id: request.guild_id,
                        name: request.name.clone(),
                        location: request.location.clone(),
                        draft,
                    },
                ),
                Err(e) => (Stage::Finished, Action::Fail(CreateError::Dates(e))),
            }
        },
        (Stage::CreatingEvent, Reply::EventCreated { guild_id, event_id }) => {
            match announcement_channel(channels, request.guild_id) {
                Some(channel_id) => (
                    Stage::Announcing { channel_id },
                    Action::Announce {
                        channel_id,
                        text: announcement(
                            request.name.as_str(),
                            guild_id,
                            event_id,
                            request.author_mention.as_str(),
                        ),
                    },
                ),
                None => (Stage::Finished, Action::Fail(CreateError::Config(request.guild_id))),
            }
        },
        (Stage::Announcing { channel_id }, Reply::Announced { message_id }) => (
            Stage::ReactingFirst { channel_id, message_id },
            Action::React { channel_id, message_id, emoji: REACTION_YES },
        ),
        (Stage::ReactingFirst { channel_id, message_id }, Reply::Reacted) => (
            Stage::ReactingSecond { channel_id, message_id },
            Action::React { channel_id, message_id, emoji: REACTION_MAYBE },
        ),
        (Stage::ReactingSecond { channel_id, message_id }, Reply::Reacted) => (
            Stage::OpeningThread,
            Action::OpenThread { channel_id, message_id, title: request.name.clone() },
        ),
        (Stage::OpeningThread, Reply::ThreadOpened { thread_id }) => (
            Stage::AddingMember,
            Action::AddThreadMember { thread_id, user_id: request.author_id },
        ),
        (Stage::AddingMember, Reply::MemberAdded) => (Stage::Finished, Action::Done),
        _ => (Stage::Finished, Action::Fail(CreateError::Platform)),
    }
}

/// The place of a stage in a run.
pub open spec fn stage_rank(stage: Stage) -> nat {
    match stage {
        Stage::Start => 0,
        Stage::Deferring => 1,
        Stage::CreatingEvent => 2,
        Stage::Announcing { .. } => 3,
        Stage::ReactingFirst { .. } => 4,
        Stage::ReactingSecond { .. } => 5,
        Stage::OpeningThread => 6,
        Stage::AddingMember => 7,
        Stage::Finished => 8,
    }
}

/// The action is the call whose reply the stage awaits; at the end, the
/// word to the organiser.
pub open spec fn is_call_of(action: ActionView, stage: Stage) -> bool {
    match stage {
        Stage::Start => false,
        Stage::Deferring => action is Defer,
        Stage::CreatingEvent => action is CreateEvent,
        Stage::Announcing { channel_id } => action matches ActionView::Announce {
            channel_id: c,
            ..
        } && c == channel_id,
        Stage::ReactingFirst { channel_id, message_id } => action == (ActionView::React {
            channel_id,
            message_id,
            emoji: REACTION_YES,
        }),
        Stage::ReactingSecond { channel_id, message_id } => action == (ActionView::React {
            channel_id,
            message_id,
            emoji: REACTION_MAYBE,
        }),
        Stage::OpeningThread => action is OpenThread,
        Stage::AddingMember => action is AddThreadMember,
        Stage::Finished => action is Done || action is Fail,
    }
}

/// Each step moves to the stage that follows, or ends the run, and asks for
/// the call of the stage it moves to.  So the calls of a run are made in one
/// order: acknowledgement, event, announcement, first reaction, second
/// reaction, thread, thread member; and a run takes at most eight steps.
pub proof fn lemma_steps_follow_the_order(
    request: CreateRequestView,
    channels: Map<u64, u64>,
    stage: Stage,
    reply: Reply,
)
    ensures
        ({
            let (next, action) = step_spec(request, channels, stage, reply);
            &&& next is Finished || stage_rank(next) == stage_rank(stage) + 1
            &&& is_call_of(action, next)
            &&& action is Done ==> stage is AddingMember && reply is MemberAdded
        }),
{
}

/// A failed call ends the run at once, whatever the stage, and nothing
/// follows the end.
pub proof fn lemma_failure_ends_the_run(
    request: CreateRequestView,
    channels: Map<u64, u64>,
    stage: Stage,
    reply: Reply,
)
    requires
        reply is Failed || stage is Finished,
    ensures
        step_spec(request, channels, stage, reply) == platform_failure(),
{
}

/// The event is created only from dates that make a draft, and then from
/// that draft; otherwise the organiser is told what is wrong with them and
/// nothing is created.
pub proof fn lemma_event_needs_a_draft(request: CreateRequestView, channels: Map<u64, u64>)
    ensures
        ({
            let (next, action) = step_spec(request, channels, Stage::Deferring, Reply::Deferred);
            match drafted(request.start, request.end) {
                Ok(draft) => draft.is_valid() && action == (ActionView::CreateEvent {
                    guild_id: request.guild_id,
                    name: request.name,
                    location: request.location,
                    draft,
                }),
                Err(e) => next is Finished && action == ActionView::Fail(CreateError::Dates(e)),
            }
        }),
{
}

} // verus!
