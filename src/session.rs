//! The session with the homeserver: login once, then sync until the sync ends,
//! and the health probes that report on it.
use crate::config::Config;
use crate::delivery::{STATUS_OK, STATUS_UNAVAILABLE};
use crate::ids::{parse_user_id, user_id_valid};
use matrix_sdk::ruma::OwnedUserId;
use vstd::prelude::*;

verus! {

/// Where the session stands in its life.
#[derive(PartialEq, Eq, Structural, Clone, Copy, Debug)]
pub enum SessionPhase {
    Unauthenticated,
    Authenticating,
    Syncing,
    Terminated,
}

/// Why the session ended; each of these ends the whole process.
#[derive(PartialEq, Eq, Structural, Clone, Copy, Debug)]
pub enum SessionError {
    UserIdParse,
    Authentication,
    Sync,
}

/// What the caller does next with the session.
pub enum SessionAction {
    /// Log in as this user with the configured password.
    Login { user: OwnedUserId },
    /// Run the continuous sync until it returns.
    RunSync,
    /// The session is over, with the error that ended it, if any.
    Stop { error: Option<SessionError> },
}

/// What came of the last action.
#[derive(PartialEq, Eq, Structural, Clone, Copy, Debug)]
pub enum SessionEvent {
    LoginFinished { ok: bool },
    SyncFinished { ok: bool },
}

/// The session has logged in and its sync has not returned.
pub open spec fn ready(phase: SessionPhase) -> bool {
    phase == SessionPhase::Syncing
}

pub open spec fn session_awaits(phase: SessionPhase, event: SessionEvent) -> bool {
    match (phase, event) {
        (SessionPhase::Authenticating, SessionEvent::LoginFinished { .. }) => true,
        (SessionPhase::Syncing, SessionEvent::SyncFinished { .. }) => true,
        _ => false,
    }
}

/// The next phase and action after `event`, for a phase that awaits it.
pub open spec fn session_next(phase: SessionPhase, event: SessionEvent) -> (SessionPhase, SessionAction) {
    match event {
        SessionEvent::LoginFinished { ok } => if ok {
            (SessionPhase::Syncing, SessionAction::RunSync)
        } else {
            (SessionPhase::Terminated, SessionAction::Stop { error: Some(SessionError::Authentication) })
        },
        SessionEvent::SyncFinished { ok } => if ok {
            (SessionPhase::Terminated, SessionAction::Stop { error: None })
        } else {
            (SessionPhase::Terminated, SessionAction::Stop { error: Some(SessionError::Sync) })
        },
    }
}

impl SessionPhase {
    /// Whether the session is ready to deliver messages.
    pub fn is_ready(&self) -> (r: bool)
        ensures
            r == ready(*self),
    {
        *self == SessionPhase::Syncing
    }

    /// Whether this phase waits for `event`; a caller checks this before `session_step`.
    pub fn accepts(&self, event: SessionEvent) -> (r: bool)
        ensures
            r == session_awaits(*self, event),
    {
        match (self, event) {
            (SessionPhase::Authenticating, SessionEvent::LoginFinished { .. }) => true,
            (SessionPhase::Syncing, SessionEvent::SyncFinished { .. }) => true,
            _ => false,
        }
    }
}

/// The user id to log in as, whose server part names the homeserver.
pub fn homeserver_user(cfg: &Config) -> (r: Result<OwnedUserId, SessionError>)
    ensures
        r is Ok <==> user_id_valid(cfg.matrix_user_id@),
        r is Err ==> r == Err::<OwnedUserId, SessionError>(SessionError::UserIdParse),
{
    match parse_user_id(cfg.matrix_user_id.as_str()) {
        Ok(user) => Ok(user),
        Err(_) => Err(SessionError::UserIdParse),
    }
}

/// Starts the session of an unauthenticated client: log in, or stop at once
/// when the configured user id does not parse.
pub fn start_session(cfg: &Config) -> (r: (SessionPhase, SessionAction))
    ensures
        user_id_valid(cfg.matrix_user_id@) ==> (r.0 == SessionPhase::Authenticating && (r.1 is Login)),
        !user_id_valid(cfg.matrix_user_id@) ==> (r.0 == SessionPhase::Terminated && r.1 == (SessionAction::Stop { error: Some(SessionError::UserIdParse) })),
        !ready(r.0),
{
    match homeserver_user(cfg) {
        Ok(user) => (SessionPhase::Authenticating, SessionAction::Login { user }),
        Err(e) => (SessionPhase::Terminated, SessionAction::Stop { error: Some(e) }),
    }
}

/// Takes one step of the session on what came of the last action.
pub fn session_step(phase: SessionPhase, event: SessionEvent) -> (r: (SessionPhase, SessionAction))
    requires
        session_awaits(phase, event),
    ensures
        r == session_next(phase, event),
{
    match event {
        SessionEvent::LoginFinished { ok } => if ok {
            (SessionPhase::Syncing, SessionAction::RunSync)
        } else {
            (SessionPhase::Terminated, SessionAction::Stop { error: Some(SessionError::Authentication) })
        },
        SessionEvent::SyncFinished { ok } => if ok {
            (SessionPhase::Terminated, SessionAction::Stop { error: None })
        } else {
            (SessionPhase::Terminated, SessionAction::Stop { error: Some(SessionError::Sync) })
        },
    }
}

/// Status of the startup probe: the process runs, whatever the session's phase.
pub fn startup_status() -> (r: u16)
    ensures
        r == STATUS_OK,
{
    STATUS_OK
}

/// Status of the liveness probe: the process runs, whatever the session's phase.
pub fn liveness_status() -> (r: u16)
    ensures
        r == STATUS_OK,
{
    STATUS_OK
}

/// Status of the readiness probe, read afresh from the session's phase.
pub fn readiness_status(phase: SessionPhase) -> (r: u16)
    ensures
        ready(phase) ==> r == STATUS_OK,
        !ready(phase) ==> r == STATUS_UNAVAILABLE,
{
    if phase.is_ready() {
        STATUS_OK
    } else {
        STATUS_UNAVAILABLE
    }
}

/// Readiness is off before and during login, turns on only on a login that
/// succeeded, and turns off only when the sync returns; an ended session never
/// takes another step.
pub proof fn lemma_readiness_follows_login(phase: SessionPhase, event: SessionEvent)
    requires
        session_awaits(phase, event),
    ensures
        !ready(SessionPhase::Unauthenticated),
        !ready(SessionPhase::Authenticating),
        ready(session_next(phase, event).0) <==> (phase == SessionPhase::Authenticating && event
            == (SessionEvent::LoginFinished { ok: true })),
        ready(phase) ==> !ready(session_next(phase, event).0) && (event is SyncFinished),
        !session_awaits(SessionPhase::Terminated, event),
        !session_awaits(SessionPhase::Unauthenticated, event),
{
}

} // verus!
