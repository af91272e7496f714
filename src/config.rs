//! Start-up settings and their checks.
use vstd::prelude::*;
use crate::text::join2;

verus! {

/// Where the process finds its files and the hub.
#[derive(Clone, Debug)]
pub struct EnvPaths {
    pub options: String,
    pub database: String,
    pub migrations: String,
    pub ha_url: String,
    pub ha_token: String,
}

/// A setting that cannot be used.
#[derive(Clone, Copy, Debug, PartialEq, Eq, Structural)]
pub enum ConfigError {
    /// No access token for the hub.
    MissingHubToken,
    /// No token for the messaging platform.
    MissingBotToken,
    /// The owner's user id is zero.
    MissingRootUser,
}

impl EnvPaths {
    /// Accepts the paths when the hub's access token is set.
    pub fn validate(self) -> (r: Result<EnvPaths, ConfigError>)
        ensures
            self.ha_token@.len() == 0 <==> r == Err::<EnvPaths, ConfigError>(
                ConfigError::MissingHubToken,
            ),
            self.ha_token@.len() > 0 ==> (r matches Ok(p) && p == self),
    {
        if self.ha_token.unicode_len() == 0 {
            Err(ConfigError::MissingHubToken)
        } else {
            Ok(self)
        }
    }

    /// The database URL: `sqlite://` and the database path.
    pub fn db_url(&self) -> (r: String)
        ensures
            r@ == "sqlite://"@ + self.database@,
    {
        join2("sqlite://", self.database.as_str())
    }
}

/// The settings file's content.
#[derive(Clone, Debug)]
pub struct AppOptions {
    pub bot_token: String,
    /// The owner's user id on the messaging platform.
    pub root_user: u64,
}

impl AppOptions {
    /// Accepts the options when the bot token is set and the owner is known.
    pub fn validate(self) -> (r: Result<AppOptions, ConfigError>)
        ensures
            self.bot_token@.len() == 0 ==> r == Err::<AppOptions, ConfigError>(
                ConfigError::MissingBotToken,
            ),
            self.bot_token@.len() > 0 && self.root_user == 0 ==> r == Err::<AppOptions, ConfigError>(
                ConfigError::MissingRootUser,
            ),
            self.bot_token@.len() > 0 && self.root_user != 0 ==> (r matches Ok(o) && o == self),
    {
        if self.bot_token.unicode_len() == 0 {
            Err(ConfigError::MissingBotToken)
        } else if self.root_user == 0 {
            Err(ConfigError::MissingRootUser)
        } else {
            Ok(self)
        }
    }
}

} // verus!
