//! Delivery of one webhook message into the configured room.
//!
//! Each request runs the same four steps: parse the room alias, resolve it to a
//! room id on the homeserver, look the joined room up in the session's cache,
//! and send the text. The decisions are taken here; the caller performs each
//! action that needs the session and reports what came of it as an event.
use crate::ids::{parse_room_alias, room_alias_valid};
use crate::message::{outbound_text, InboundMessage};
use matrix_sdk::ruma::{OwnedRoomAliasId, OwnedRoomId};
use vstd::prelude::*;
use vstd::string::*;

verus! {

/// HTTP status of a delivered message and of the health probes that succeed.
pub const STATUS_OK: u16 = 200;

/// HTTP status of a webhook whose form lacks a field.
pub const STATUS_UNPROCESSABLE: u16 = 422;

/// HTTP status of every failed delivery.
pub const STATUS_SERVER_ERROR: u16 = 500;

/// HTTP status of the readiness probe while the session is not ready.
pub const STATUS_UNAVAILABLE: u16 = 503;

/// The step at which a delivery failed; callers of the webhook see only a server error.
#[derive(PartialEq, Eq, Structural, Clone, Copy, Debug)]
pub enum DeliveryError {
    AliasParse,
    AliasResolution,
    RoomNotFound,
    Send,
}

/// The line logged for each failed step.
pub open spec fn delivery_error_text(e: DeliveryError) -> Seq<char> {
    match e {
        DeliveryError::AliasParse => "failed to parse room alias"@,
        DeliveryError::AliasResolution => "failed to resolve room alias"@,
        DeliveryError::RoomNotFound => "room not found"@,
        DeliveryError::Send => "failed to send message to room"@,
    }
}

impl DeliveryError {
    /// A line for the operator's log.
    pub fn describe(&self) -> (r: String)
        ensures
            r@ == delivery_error_text(*self),
    {
        match self {
            DeliveryError::AliasParse => String::from_str("failed to parse room alias"),
            DeliveryError::AliasResolution => String::from_str("failed to resolve room alias"),
            DeliveryError::RoomNotFound => String::from_str("room not found"),
            DeliveryError::Send => String::from_str("failed to send message to room"),
        }
    }
}

/// Where one delivery stands.
pub enum DeliveryState {
    /// The form lacked a field; nothing was attempted.
    Rejected,
    /// The alias was sent off for resolution; `body` is the text to post.
    Resolving { body: String },
    /// The room id is being looked up among the joined rooms.
    LookingUp { body: String },
    /// The text was handed to the room.
    Sending,
    /// The delivery is over.
    Finished { outcome: Result<(), DeliveryError> },
}

/// What the caller does next.
pub enum DeliveryAction {
    /// Ask the homeserver for the room id of this alias.
    ResolveAlias { alias: OwnedRoomAliasId },
    /// Find the joined room of this id in the session.
    LookUpRoom { room: OwnedRoomId },
    /// Send this plain text into the room found.
    Send { body: String },
    /// Answer the webhook with this status; the delivery is over.
    Respond { status: u16 },
}

/// What came of the last action.
pub enum DeliveryEvent {
    AliasResolved { room: Option<OwnedRoomId> },
    RoomLookedUp { found: bool },
    SendCompleted { ok: bool },
}

/// The status the webhook is answered with for a finished delivery.
pub open spec fn status_of(outcome: Result<(), DeliveryError>) -> u16 {
    match outcome {
        Ok(()) => STATUS_OK,
        Err(_) => STATUS_SERVER_ERROR,
    }
}

pub fn response_status(outcome: Result<(), DeliveryError>) -> (r: u16)
    ensures
        r == status_of(outcome),
{
    match outcome {
        Ok(()) => STATUS_OK,
        Err(_) => STATUS_SERVER_ERROR,
    }
}

/// Whether `state` waits for an event of the kind of `event`.
pub open spec fn awaits(state: DeliveryState, event: DeliveryEvent) -> bool {
    match (state, event) {
        (DeliveryState::Resolving { .. }, DeliveryEvent::AliasResolved { .. }) => true,
        (DeliveryState::LookingUp { .. }, DeliveryEvent::RoomLookedUp { .. }) => true,
        (DeliveryState::Sending, DeliveryEvent::SendCompleted { .. }) => true,
        _ => false,
    }
}

/// The end of a delivery that failed with `e`.
pub open spec fn failed(e: DeliveryError) -> (DeliveryState, DeliveryAction) {
    (
        DeliveryState::Finished { outcome: Err(e) },
        DeliveryAction::Respond { status: STATUS_SERVER_ERROR },
    )
}

/// The next state and action after `event`, for a state that awaits it.
pub open spec fn next(state: DeliveryState, event: DeliveryEvent) -> (DeliveryState, DeliveryAction) {
    match (state, event) {
        (DeliveryState::Resolving { body }, DeliveryEvent::AliasResolved { room }) => match room {
            Some(room) => (DeliveryState::LookingUp { body }, DeliveryAction::LookUpRoom { room }),
            None => failed(DeliveryError::AliasResolution),
        },
        (DeliveryState::LookingUp { body }, DeliveryEvent::RoomLookedUp { found }) => if found {
            (DeliveryState::Sending, DeliveryAction::Send { body })
        } else {
            failed(DeliveryError::RoomNotFound)
        },
        (DeliveryState::Sending, DeliveryEvent::SendCompleted { ok }) => if ok {
            (
                DeliveryState::Finished { outcome: Ok(()) },
                DeliveryAction::Respond { status: STATUS_OK },
            )
        } else {
            failed(DeliveryError::Send)
        },
        (state, _) => (state, DeliveryAction::Respond { status: STATUS_SERVER_ERROR }),
    }
}

impl DeliveryState {
    /// Whether this state waits for `event`; a caller checks this before `step`.
    pub fn accepts(&self, event: &DeliveryEvent) -> (r: bool)
        ensures
            r == awaits(*self, *event),
    {
        match (self, event) {
            (DeliveryState::Resolving { .. }, DeliveryEvent::AliasResolved { .. }) => true,
            (DeliveryState::LookingUp { .. }, DeliveryEvent::RoomLookedUp { .. }) => true,
            (DeliveryState::Sending, DeliveryEvent::SendCompleted { .. }) => true,
            _ => false,
        }
    }

    /// Whether the delivery is over.
    pub fn is_finished(&self) -> (r: bool)
        ensures
            r == (*self is Finished || *self is Rejected),
    {
        match self {
            DeliveryState::Finished { .. } | DeliveryState::Rejected => true,
            _ => false,
        }
    }
}

/// Takes one step of the delivery on what came of the last action.
pub fn step(state: DeliveryState, event: DeliveryEvent) -> (r: (DeliveryState, DeliveryAction))
    requires
        awaits(state, event),
    ensures
        r == next(state, event),
{
    match (state, event) {
        (DeliveryState::Resolving { body }, DeliveryEvent::AliasResolved { room }) => match room {
            Some(room) => (DeliveryState::LookingUp { body }, DeliveryAction::LookUpRoom { room }),
            None => fail(DeliveryError::AliasResolution),
        },
        (DeliveryState::LookingUp { body }, DeliveryEvent::RoomLookedUp { found }) => if found {
            (DeliveryState::Sending, DeliveryAction::Send { body })
        } else {
            fail(DeliveryError::RoomNotFound)
        },
        (DeliveryState::Sending, DeliveryEvent::SendCompleted { ok }) => if ok {
            (
                DeliveryState::Finished { outcome: Ok(()) },
                DeliveryAction::Respond { status: response_status(Ok(())) },
            )
        } else {
            fail(DeliveryError::Send)
        },
        (state, _) => (state, DeliveryAction::Respond { status: STATUS_SERVER_ERROR }),
    }
}

fn fail(e: DeliveryError) -> (r: (DeliveryState, DeliveryAction))
    ensures
        r == failed(e),
{
    (DeliveryState::Finished { outcome: Err(e) }, DeliveryAction::Respond { status: response_status(Err(e)) })
}

/// Starts the delivery of `msg` into the room of alias `room_alias`: an alias
/// that does not parse ends it at once, else the alias is sent off for resolution.
pub fn start_delivery(room_alias: &str, msg: &InboundMessage) -> (r: (DeliveryState, DeliveryAction))
    ensures
        !room_alias_valid(room_alias@) ==> r == failed(DeliveryError::AliasParse),
        room_alias_valid(room_alias@) ==> r.1 is ResolveAlias && (r.0 matches DeliveryState::Resolving { body } && body@ == msg.outbound()),
{
    match parse_room_alias(room_alias) {
        Ok(alias) => (DeliveryState::Resolving { body: msg.compose_body() }, DeliveryAction::ResolveAlias { alias }),
        Err(_) => fail(DeliveryError::AliasParse),
    }
}

/// Starts the handling of a webhook whose form gave these fields. A form that
/// lacks a field is refused with a client error and no action on the session.
pub fn receive(room_alias: &str, from: Option<String>, to: Option<String>, body: Option<String>) -> (r: (DeliveryState, DeliveryAction))
    ensures
        (from is None || to is None || body is None) ==> (r.0 is Rejected && r.1 == DeliveryAction::Respond { status: STATUS_UNPROCESSABLE }),
        (from is Some && to is Some && body is Some && !room_alias_valid(room_alias@)) ==> r == failed(DeliveryError::AliasParse),
        (from is Some && to is Some && body is Some && room_alias_valid(room_alias@)) ==> r.1 is ResolveAlias && (r.0 matches DeliveryState::Resolving { body: text } && text@ == outbound_text(from->Some_0@, to->Some_0@, body->Some_0@)),
{
    match (from, to, body) {
        (Some(from), Some(to), Some(body)) => start_delivery(room_alias, &InboundMessage::new(from, to, body)),
        _ => (DeliveryState::Rejected, DeliveryAction::Respond { status: STATUS_UNPROCESSABLE }),
    }
}

/// Once the alias parsed, a room that resolves, is joined and takes the send
/// receives exactly the text `FROM: <from>\nTO: <to>\n\n<body>` of the message,
/// and the webhook is answered with success.
pub proof fn lemma_delivered_text(msg: InboundMessage, state: DeliveryState, room: OwnedRoomId)
    requires
        state matches DeliveryState::Resolving { body } && body@ == msg.outbound(),
    ensures
        ({
            let e1 = DeliveryEvent::AliasResolved { room: Some(room) };
            let (s1, a1) = next(state, e1);
            let e2 = DeliveryEvent::RoomLookedUp { found: true };
            let (s2, a2) = next(s1, e2);
            let e3 = DeliveryEvent::SendCompleted { ok: true };
            let (s3, a3) = next(s2, e3);
            &&& awaits(state, e1) && awaits(s1, e2) && awaits(s2, e3)
            &&& a1 == DeliveryAction::LookUpRoom { room }
            &&& a2 matches DeliveryAction::Send { body } && body@ == outbound_text(msg.from@, msg.to@, msg.body@)
            &&& s3 == DeliveryState::Finished { outcome: Ok(()) }
            &&& a3 == DeliveryAction::Respond { status: STATUS_OK }
        }),
{
}

/// Each step of the delivery can fail on its own: a resolution that finds no
/// room, a room that is not joined, a send that is refused. Each failure ends
/// the delivery with a server error and leaves nothing waiting; the session
/// has no part in it.
pub proof fn lemma_failures_are_server_errors(body: String, e: DeliveryError, event: DeliveryEvent)
    ensures
        next(DeliveryState::Resolving { body }, DeliveryEvent::AliasResolved { room: None })
            == failed(DeliveryError::AliasResolution),
        next(DeliveryState::LookingUp { body }, DeliveryEvent::RoomLookedUp { found: false })
            == failed(DeliveryError::RoomNotFound),
        next(DeliveryState::Sending, DeliveryEvent::SendCompleted { ok: false })
            == failed(DeliveryError::Send),
        failed(e).1 == (DeliveryAction::Respond { status: STATUS_SERVER_ERROR }),
        status_of(Err(e)) == STATUS_SERVER_ERROR,
        !awaits(failed(e).0, event),
{
}

} // verus!
