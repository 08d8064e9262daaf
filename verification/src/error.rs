//! What can go wrong while a guild's configuration is obtained.

use crate::ids::GuildId;
use crate::text::{decimal, decimal_string};
use vstd::prelude::*;
use vstd::string::*;

verus! {

/// Why a guild's configuration could not be obtained.
#[derive(Debug, Clone, Copy, PartialEq, Eq, Structural)]
pub enum GuildConfigError {
    /// The guild is not known, so its defaults cannot be made.
    GuildCacheFailed(GuildId),
    /// The guild's file could not be read, or its defaults could not be
    /// stored.
    Io,
    /// The load was told of something it was not waiting for.
    OutOfTurn,
}

impl GuildConfigError {
    /// The words that describe the error.
    pub open spec fn spec_message(self) -> Seq<char> {
        match self {
            GuildConfigError::GuildCacheFailed(guild_id) => "Failed to fetch guild "@ + decimal(
                guild_id as nat,
            ) + " from cache"@,
            GuildConfigError::Io => "Failed to read or store the guild's configuration"@,
            GuildConfigError::OutOfTurn => "The load was not waiting for this"@,
        }
    }

    /// Describes the error in words.
    pub fn message(&self) -> (text: String)
        ensures
            text@ == self.spec_message(),
    {
        match self {
            GuildConfigError::GuildCacheFailed(guild_id) => {
                let mut text = String::from_str("Failed to fetch guild ");
                let digits = decimal_string(*guild_id);
                text.append(digits.as_str());
                text.append(" from cache");
                text
            },
            GuildConfigError::Io => String::from_str(
                "Failed to read or store the guild's configuration",
            ),
            GuildConfigError::OutOfTurn => String::from_str("The load was not waiting for this"),
        }
    }
}

} // verus!
