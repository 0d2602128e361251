//! Chat-protocol identifiers: the room alias messages go to and the bot's user id.
//!
//! Their grammar and checks are those of the chat library's identifier module;
//! this module names what its parsers accept and hands the parsed values on.
use matrix_sdk::ruma::{IdParseError, OwnedRoomAliasId, OwnedRoomId, OwnedUserId, RoomAliasId, UserId};
use vstd::prelude::*;

verus! {

#[verifier::external_type_specification]
#[verifier::external_body]
pub struct ExOwnedRoomAliasId(OwnedRoomAliasId);

#[verifier::external_type_specification]
#[verifier::external_body]
pub struct ExOwnedRoomId(OwnedRoomId);

#[verifier::external_type_specification]
#[verifier::external_body]
pub struct ExOwnedUserId(OwnedUserId);

#[verifier::external_type_specification]
#[verifier::external_body]
pub struct ExIdParseError(IdParseError);

/// Whether the chat library accepts the text as a room alias (`#local:server`).
pub uninterp spec fn room_alias_valid(s: Seq<char>) -> bool;

/// Whether the chat library accepts the text as a user id (`@local:server`).
pub uninterp spec fn user_id_valid(s: Seq<char>) -> bool;

/// Relies on `RoomAliasId::parse`: it succeeds exactly on the texts it validates,
/// and it refuses a text that does not start with `#`.
#[verifier::external_body]
pub(crate) fn parse_room_alias(s: &str) -> (r: Result<OwnedRoomAliasId, IdParseError>)
    ensures
        r is Ok <==> room_alias_valid(s@),
        (s@.len() == 0 || s@[0] != '#') ==> r is Err,
{
    RoomAliasId::parse(s)
}

/// Relies on `UserId::parse`: it succeeds exactly on the texts it validates,
/// and it refuses a text that does not start with `@`.
#[verifier::external_body]
pub(crate) fn parse_user_id(s: &str) -> (r: Result<OwnedUserId, IdParseError>)
    ensures
        r is Ok <==> user_id_valid(s@),
        (s@.len() == 0 || s@[0] != '@') ==> r is Err,
{
    UserId::parse(s)
}

} // verus!
