//! A guild's configuration in words, for showing it to the guild's
//! administrators.

use crate::command_filter::{CommandDisability, CommandFilter, CommandFilterView};
use crate::embed::{Embed, EmbedView};
use crate::guild_config::{GuildConfig, GuildConfigView};
use crate::ids::RoleId;
use crate::info_channel::{InfoChannelData, InfoChannelType, InfoChannels};
use crate::mention::{
    channel_lines, channel_mention, channel_mention_lines, channel_mention_text, role_mention,
    role_mention_text,
};
use crate::text::{decimal, decimal_string, join, joined};
use vstd::prelude::*;
use vstd::string::*;

verus! {

/// How a switch is shown.
pub open spec fn switch_text(enabled: bool) -> Seq<char> {
    if enabled {
        "Enabled"@
    } else {
        "Disabled"@
    }
}

/// How the default roles are shown: the roles' mentions, or `None`.
pub open spec fn roles_text(roles: Seq<RoleId>) -> Seq<char> {
    if roles.len() == 0 {
        "None"@
    } else {
        joined(Seq::new(roles.len(), |i: int| role_mention_text(roles[i])), ", "@)
    }
}

/// How one info channel is shown.
pub open spec fn info_channel_text(ic_type: InfoChannelType, data: InfoChannelData) -> Seq<char> {
    "**`"@ + ic_type.name() + "`:**\n"@ + switch_text(data.enabled) + "\nChannel: "@
        + channel_mention_text(data.channel_id)
}

/// How the info channels are shown: welcome, log, mod-list.
pub open spec fn info_channels_text(channels: InfoChannels) -> Seq<char> {
    joined(
        seq![
            info_channel_text(InfoChannelType::Welcome, channels.welcome),
            info_channel_text(InfoChannelType::Log, channels.log),
            info_channel_text(InfoChannelType::ModList, channels.mod_list),
        ],
        "\n\n"@,
    )
}

/// How the rule of a filter is shown.
pub open spec fn rule_text(filter: CommandFilterView) -> Seq<char> {
    match filter.filter_type {
        CommandDisability::Unrestricted => "Enabled in all channels"@,
        CommandDisability::Global => "Disabled in all channels"@,
        CommandDisability::Blacklisted => "Disabled"@ + " in:\n"@ + channel_lines(filter.channels),
        CommandDisability::Whitelisted => "Enabled"@ + " in:\n"@ + channel_lines(filter.channels),
    }
}

/// How the filter of one command is shown.
pub open spec fn filter_text(name: Seq<char>, filter: CommandFilterView) -> Seq<char> {
    "**`"@ + name + "`:**\n"@ + rule_text(filter)
}

/// How the command filters are shown, in their own order.
pub open spec fn filters_text(filters: Seq<(Seq<char>, CommandFilterView)>) -> Seq<char> {
    joined(Seq::new(filters.len(), |i: int| filter_text(filters[i].0, filters[i].1)), "\n\n"@)
}

/// The embed that shows a configuration: the guild in the title, then the
/// link lookup, the default roles, the info channels and the command filters,
/// each in a field of its own.
pub open spec fn config_embed(config: GuildConfigView) -> EmbedView {
    (EmbedView {
        title: Some("Config for guild "@ + decimal(config.guild_id as nat)),
        ..EmbedView::empty()
    }).with_field(
        "Message link lookup"@,
        switch_text(config.message_link_lookup),
        false,
    ).with_field("Default roles"@, roles_text(config.default_roles), false).with_field(
        "Info channels"@,
        info_channels_text(config.info_channels),
        false,
    ).with_field("Command filters"@, filters_text(config.command_filters), false)
}

fn switch_string(enabled: bool) -> (text: String)
    ensures
        text@ == switch_text(enabled),
{
    if enabled {
        String::from_str("Enabled")
    } else {
        String::from_str("Disabled")
    }
}

fn roles_string(roles: &Vec<RoleId>) -> (text: String)
    ensures
        text@ == roles_text(roles@),
{
    if roles.len() == 0 {
        return String::from_str("None");
    }
    let mut mentions: Vec<String> = Vec::new();
    let mut i: usize = 0;
    while i < roles.len()
        invariant
            i <= roles.len(),
            mentions.len() == i,
            forall|a: int|
                0 <= a < i ==> (#[trigger] mentions@[a])@ == role_mention_text(roles@[a]),
        decreases roles.len() - i,
    {
        mentions.push(role_mention(roles[i]));
        i += 1;
    }
    assert(mentions.deep_view() =~= Seq::new(
        roles@.len(),
        |i: int| role_mention_text(roles@[i]),
    ));
    join(&mentions, ", ")
}

fn info_channel_string(ic_type: InfoChannelType, data: InfoChannelData) -> (text: String)
    ensures
        text@ == info_channel_text(ic_type, data),
{
    let mut text = String::from_str("**`");
    text.append(ic_type.as_ref());
    text.append("`:**\n");
    text.append(switch_string(data.enabled).as_str());
    text.append("\nChannel: ");
    text.append(channel_mention(data.channel_id).as_str());
    text
}

fn info_channels_string(channels: InfoChannels) -> (text: String)
    ensures
        text@ == info_channels_text(channels),
{
    let mut parts: Vec<String> = Vec::new();
    parts.push(info_channel_string(InfoChannelType::Welcome, channels.welcome));
    parts.push(info_channel_string(InfoChannelType::Log, channels.log));
    parts.push(info_channel_string(InfoChannelType::ModList, channels.mod_list));
    assert(parts.deep_view() =~= seq![
        info_channel_text(InfoChannelType::Welcome, channels.welcome),
        info_channel_text(InfoChannelType::Log, channels.log),
        info_channel_text(InfoChannelType::ModList, channels.mod_list),
    ]);
    join(&parts, "\n\n")
}

fn rule_string(filter: &CommandFilter) -> (text: String)
    ensures
        text@ == rule_text(filter@),
{
    match filter.filter_type() {
        CommandDisability::Unrestricted => String::from_str("Enabled in all channels"),
        CommandDisability::Global => String::from_str("Disabled in all channels"),
        CommandDisability::Blacklisted => {
            let mut text = String::from_str("Disabled");
            text.append(" in:\n");
            text.append(channel_mention_lines(filter.filter_list()).as_str());
            text
        },
        CommandDisability::Whitelisted => {
            let mut text = String::from_str("Enabled");
            text.append(" in:\n");
            text.append(channel_mention_lines(filter.filter_list()).as_str());
            text
        },
    }
}

fn filters_string(filters: &Vec<(String, CommandFilter)>) -> (text: String)
    ensures
        text@ == filters_text(filters.deep_view()),
{
    let mut parts: Vec<String> = Vec::new();
    let mut i: usize = 0;
    while i < filters.len()
        invariant
            i <= filters.len(),
            parts.len() == i,
            forall|a: int|
                0 <= a < i ==> (#[trigger] parts@[a])@ == filter_text(
                    filters@[a].0@,
                    filters@[a].1@,
                ),
        decreases filters.len() - i,
    {
        let mut text = String::from_str("**`");
        text.append(filters[i].0.as_str());
        text.append("`:**\n");
        text.append(rule_string(&filters[i].1).as_str());
        parts.push(text);
        i += 1;
    }
    assert(parts.deep_view() =~= Seq::new(
        filters.deep_view().len(),
        |i: int| filter_text(filters.deep_view()[i].0, filters.deep_view()[i].1),
    ));
    join(&parts, "\n\n")
}

impl GuildConfig {
    /// The embed that shows this configuration.
    pub fn display_embed(&self) -> (embed: Embed)
        ensures
            embed@ == config_embed(self@),
    {
        let mut title = String::from_str("Config for guild ");
        title.append(decimal_string(self.guild_id()).as_str());
        let mut embed = Embed::new();
        embed.title = Some(title);
        embed.field(
            String::from_str("Message link lookup"),
            switch_string(self.message_link_lookup()),
            false,
        );
        embed.field(String::from_str("Default roles"), roles_string(self.default_roles()), false);
        embed.field(
            String::from_str("Info channels"),
            info_channels_string(self.info_channels()),
            false,
        );
        embed.field(
            String::from_str("Command filters"),
            filters_string(self.command_filters()),
            false,
        );
        embed
    }
}

} // verus!
