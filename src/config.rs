//! Settings of the relay, given as the values that the environment held.
use vstd::prelude::*;
use vstd::string::*;

verus! {

/// The bot account, its password and the alias of the room that messages go to.
pub struct Config {
    pub matrix_user_id: String,
    pub matrix_password: String,
    pub matrix_room_id: String,
}

/// The setting that was absent.
#[derive(PartialEq, Eq, Structural, Clone, Copy, Debug)]
pub enum ConfigError {
    MissingUserId,
    MissingPassword,
    MissingRoomId,
}

/// The line logged for each missing setting.
pub open spec fn config_error_text(e: ConfigError) -> Seq<char> {
    match e {
        ConfigError::MissingUserId => "failed to get user id"@,
        ConfigError::MissingPassword => "failed to get password"@,
        ConfigError::MissingRoomId => "failed to get room id"@,
    }
}

impl ConfigError {
    /// A line for the operator's log.
    pub fn message(&self) -> (r: String)
        ensures
            r@ == config_error_text(*self),
    {
        match self {
            ConfigError::MissingUserId => String::from_str("failed to get user id"),
            ConfigError::MissingPassword => String::from_str("failed to get password"),
            ConfigError::MissingRoomId => String::from_str("failed to get room id"),
        }
    }
}

impl Config {
    /// Builds the settings from the three values looked up, in the order user id,
    /// password, room; the first one absent is the error.
    pub fn create(user_id: Option<String>, password: Option<String>, room_id: Option<String>) -> (r:
        Result<Config, ConfigError>)
        ensures
            user_id is None ==> r == Err::<Config, ConfigError>(ConfigError::MissingUserId),
            user_id is Some && password is None ==> r == Err::<Config, ConfigError>(
                ConfigError::MissingPassword,
            ),
            user_id is Some && password is Some && room_id is None ==> r == Err::<
                Config,
                ConfigError,
            >(ConfigError::MissingRoomId),
            r is Ok <==> (user_id is Some && password is Some && room_id is Some),
            r is Ok ==> r->Ok_0.matrix_user_id == user_id->Some_0 && r->Ok_0.matrix_password
                == password->Some_0 && r->Ok_0.matrix_room_id == room_id->Some_0,
    {
        let matrix_user_id = match user_id {
            Some(v) => v,
            None => return Err(ConfigError::MissingUserId),
        };
        let matrix_password = match password {
            Some(v) => v,
            None => return Err(ConfigError::MissingPassword),
        };
        let matrix_room_id = match room_id {
            Some(v) => v,
            None => return Err(ConfigError::MissingRoomId),
        };
        Ok(Config { matrix_user_id, matrix_password, matrix_room_id })
    }
}

} // verus!
