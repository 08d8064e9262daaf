//! How the chat platform writes a reference to a channel, a role or a user
//! inside a message.

use crate::ids::{ChannelId, RoleId, UserId};
use crate::text::{decimal, join, joined};
use serenity::model::id::ChannelId as PlatformChannelId;
use serenity::model::id::RoleId as PlatformRoleId;
use serenity::model::id::UserId as PlatformUserId;
use serenity::model::mention::Mentionable;
use vstd::prelude::*;

verus! {

/// The text that refers to the channel `channel`.
pub open spec fn channel_mention_text(channel: ChannelId) -> Seq<char> {
    "<#"@ + decimal(channel as nat) + ">"@
}

/// The text that refers to the role `role`.
pub open spec fn role_mention_text(role: RoleId) -> Seq<char> {
    "<@&"@ + decimal(role as nat) + ">"@
}

/// The text that refers to the user `user`.
pub open spec fn user_mention_text(user: UserId) -> Seq<char> {
    "<@"@ + decimal(user as nat) + ">"@
}

/// Calls serenity's `ChannelId::mention` and writes the mention out with its
/// `Display`. Trusted: the text is `<#`, the id in decimal, `>`.
#[verifier::external_body]
pub(crate) fn channel_mention(channel: ChannelId) -> (text: String)
    ensures
        text@ == channel_mention_text(channel),
{
    PlatformChannelId(channel).mention().to_string()
}

/// Calls serenity's `RoleId::mention` and writes the mention out with its
/// `Display`. Trusted: the text is `<@&`, the id in decimal, `>`.
#[verifier::external_body]
pub(crate) fn role_mention(role: RoleId) -> (text: String)
    ensures
        text@ == role_mention_text(role),
{
    PlatformRoleId(role).mention().to_string()
}

/// Calls serenity's `UserId::mention` and writes the mention out with its
/// `Display`. Trusted: the text is `<@`, the id in decimal, `>`.
#[verifier::external_body]
pub(crate) fn user_mention(user: UserId) -> (text: String)
    ensures
        text@ == user_mention_text(user),
{
    PlatformUserId(user).mention().to_string()
}

/// The mentions of `channels`, one per line.
pub open spec fn channel_lines(channels: Seq<ChannelId>) -> Seq<char> {
    joined(Seq::new(channels.len(), |i: int| channel_mention_text(channels[i])), "\n"@)
}

/// Writes the mentions of `channels`, one per line.
pub fn channel_mention_lines(channels: &Vec<ChannelId>) -> (text: String)
    ensures
        text@ == channel_lines(channels@),
{
    let mut mentions: Vec<String> = Vec::new();
    let mut i: usize = 0;
    while i < channels.len()
        invariant
            i <= channels.len(),
            mentions.len() == i,
            forall|a: int|
                0 <= a < i ==> (#[trigger] mentions@[a])@ == channel_mention_text(channels@[a]),
        decreases channels.len() - i,
    {
        mentions.push(channel_mention(channels[i]));
        i += 1;
    }
    assert(mentions.deep_view() =~= Seq::new(
        channels@.len(),
        |i: int| channel_mention_text(channels@[i]),
    ));
    join(&mentions, "\n")
}

} // verus!
