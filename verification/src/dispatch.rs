//! What is decided around every command: whether it may run, and what is
//! shown when it has failed.

use crate::command_filter::{CommandFilter, CommandFilterView};
use crate::embed::{Color, Embed, EmbedView};
use crate::ids::{ChannelId, GuildId};
use vstd::prelude::*;
use vstd::string::*;

verus! {

/// The color of the embed that reports a failed command.
pub const ERROR_EMBED_COLOR: Color = (255, 15, 15);

/// Whether a command may run in `channel`, given its filter as far as it
/// could be obtained: the filter decides, and without a filter the command
/// runs.
pub open spec fn spec_may_run(filter: Option<CommandFilterView>, channel: ChannelId) -> bool {
    match filter {
        Some(filter) => filter.verdict(channel) is Ok,
        None => true,
    }
}

/// Decides whether a command may run in `channel`, given its filter as far as
/// it could be obtained.
pub fn may_run(filter: Option<&CommandFilter>, channel: ChannelId) -> (run: bool)
    ensures
        run == spec_may_run(
            match filter {
                Some(filter) => Some(filter@),
                None => None,
            },
            channel,
        ),
{
    match filter {
        Some(filter) => filter.can_run(channel).is_ok(),
        None => true,
    }
}

/// How the mentions in a text are made harmless before the bot repeats the
/// text.
#[derive(Debug, Clone, Copy, PartialEq, Eq, Structural)]
pub struct ContentSafeSettings {
    /// Whether mentions of channels are replaced by the channels' names.
    pub clean_channel: bool,
    /// Whether mentions of roles are replaced by the roles' names.
    pub clean_role: bool,
    /// The guild by whose nicknames users are named.
    pub display_as_member_from: Option<GuildId>,
}

/// The settings for a message that was written in the guild `guild_id`, or
/// outside any guild: channels are never replaced; in a guild users are named
/// as its members, and outside of one roles are not replaced either.
pub fn content_safe_settings(guild_id: Option<GuildId>) -> (settings: ContentSafeSettings)
    ensures
        settings == (ContentSafeSettings {
            clean_channel: false,
            clean_role: guild_id is Some,
            display_as_member_from: guild_id,
        }),
{
    match guild_id {
        Some(guild_id) => ContentSafeSettings {
            clean_channel: false,
            clean_role: true,
            display_as_member_from: Some(guild_id),
        },
        None => ContentSafeSettings {
            clean_channel: false,
            clean_role: false,
            display_as_member_from: None,
        },
    }
}

/// The embed that reports that the command `command_name` has failed for the
/// reason `why`.
pub open spec fn error_embed(command_name: Seq<char>, why: Seq<char>) -> EmbedView {
    EmbedView {
        color: Some(ERROR_EMBED_COLOR),
        title: Some("Error executing a command"@),
        description: Some(
            "Error occured while running command `"@ + command_name + "`:\n"@ + why,
        ),
        footer: Some(
            "Please contact bot author on github/gitlab/discord, see `source` command"@,
        ),
        ..EmbedView::empty()
    }
}

/// The embed that reports that the command `command_name` has failed for the
/// reason `why`.
pub fn command_error_embed(command_name: &str, why: &str) -> (embed: Embed)
    ensures
        embed@ == error_embed(command_name@, why@),
{
    let mut description = String::from_str("Error occured while running command `");
    description.append(command_name);
    description.append("`:\n");
    description.append(why);
    let mut embed = Embed::new();
    embed.color = Some(ERROR_EMBED_COLOR);
    embed.title = Some(String::from_str("Error executing a command"));
    embed.description = Some(description);
    embed.footer = Some(
        String::from_str(
            "Please contact bot author on github/gitlab/discord, see `source` command",
        ),
    );
    embed
}

} // verus!
