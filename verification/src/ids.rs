//! Identifiers, as the chat platform hands them out.

use vstd::prelude::*;

verus! {

/// Identifier of a guild.
pub type GuildId = u64;

/// Identifier of a channel.
pub type ChannelId = u64;

/// Identifier of a role.
pub type RoleId = u64;

/// Identifier of a message.
pub type MessageId = u64;

/// Identifier of a user.
pub type UserId = u64;

} // verus!
