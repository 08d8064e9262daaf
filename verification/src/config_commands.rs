//! The commands by which a guild's administrators change its configuration:
//! what each one asks of the configuration, and what it answers.

use crate::command_filter::{CommandDisability, EditCommandFilter, EditCommandFilterView};
use crate::document::{GuildConfigData, GuildConfigDataView};
use crate::guild_config::{EditGuildConfig, EditGuildConfigView, GuildConfig, GuildConfigView};
use crate::ids::{ChannelId, RoleId};
use crate::info_channel::{EditInfoChannel, EditInfoChannels, InfoChannelType};
use crate::mention::{
    channel_lines, channel_mention, channel_mention_lines, channel_mention_text,
};
use crate::text::{decimal, decimal_string};
use vstd::prelude::*;
use vstd::string::*;

verus! {

/// A command that changes a guild's configuration, with what it was given.
#[derive(Debug, Clone, PartialEq, Eq)]
pub enum ConfigCommand {
    /// Let a command run everywhere.
    EnableCommand(String),
    /// Let a command run nowhere.
    DisableCommand(String),
    /// Let a command run in these channels only.
    WhitelistCommand(String, Vec<ChannelId>),
    /// Let a command run everywhere but in these channels.
    BlacklistCommand(String, Vec<ChannelId>),
    /// Switch an info channel on.
    EnableInfoChannel(InfoChannelType),
    /// Switch an info channel off.
    DisableInfoChannel(InfoChannelType),
    /// Put an info channel into this channel.
    SetInfoChannel(InfoChannelType, ChannelId),
    /// Give these roles to new members.
    DefaultRoles(Vec<RoleId>),
    /// Switch the lookup of links to messages as this word says.
    MessageLinkLookup(String),
}

/// Mathematical value of a [`ConfigCommand`].
pub ghost enum ConfigCommandView {
    EnableCommand(Seq<char>),
    DisableCommand(Seq<char>),
    WhitelistCommand(Seq<char>, Seq<ChannelId>),
    BlacklistCommand(Seq<char>, Seq<ChannelId>),
    EnableInfoChannel(InfoChannelType),
    DisableInfoChannel(InfoChannelType),
    SetInfoChannel(InfoChannelType, ChannelId),
    DefaultRoles(Seq<RoleId>),
    MessageLinkLookup(Seq<char>),
}

impl View for ConfigCommand {
    type V = ConfigCommandView;

    open spec fn view(&self) -> ConfigCommandView {
        match self {
            ConfigCommand::EnableCommand(name) => ConfigCommandView::EnableCommand(name@),
            ConfigCommand::DisableCommand(name) => ConfigCommandView::DisableCommand(name@),
            ConfigCommand::WhitelistCommand(name, channels) => ConfigCommandView::WhitelistCommand(
                name@,
                channels@,
            ),
            ConfigCommand::BlacklistCommand(name, channels) => ConfigCommandView::BlacklistCommand(
                name@,
                channels@,
            ),
            ConfigCommand::EnableInfoChannel(ic_type) => ConfigCommandView::EnableInfoChannel(
                *ic_type,
            ),
            ConfigCommand::DisableInfoChannel(ic_type) => ConfigCommandView::DisableInfoChannel(
                *ic_type,
            ),
            ConfigCommand::SetInfoChannel(ic_type, channel) => ConfigCommandView::SetInfoChannel(
                *ic_type,
                *channel,
            ),
            ConfigCommand::DefaultRoles(roles) => ConfigCommandView::DefaultRoles(roles@),
            ConfigCommand::MessageLinkLookup(term) => ConfigCommandView::MessageLinkLookup(term@),
        }
    }
}

/// That a configuration command could not be carried out.
#[derive(Debug, Clone, PartialEq, Eq)]
pub enum ServerConfigurationError {
    /// The word says neither `enable` nor `disable`.
    InvalidActionTerm(String),
}

/// Mathematical value of a [`ServerConfigurationError`].
pub ghost enum ServerConfigurationErrorView {
    InvalidActionTerm(Seq<char>),
}

impl View for ServerConfigurationError {
    type V = ServerConfigurationErrorView;

    open spec fn view(&self) -> ServerConfigurationErrorView {
        match self {
            ServerConfigurationError::InvalidActionTerm(term) => {
                ServerConfigurationErrorView::InvalidActionTerm(term@)
            },
        }
    }
}

impl ServerConfigurationError {
    /// Describes the error in words.
    pub fn message(&self) -> (text: String)
        ensures
            self@ matches ServerConfigurationErrorView::InvalidActionTerm(term) && text@
                == "Invalid action term: `"@ + term + "`"@,
    {
        match self {
            ServerConfigurationError::InvalidActionTerm(term) => {
                let mut text = String::from_str("Invalid action term: `");
                text.append(term.as_str());
                text.append("`");
                text
            },
        }
    }
}

/// What a configuration command that was carried out leaves to do.
#[derive(Debug, Clone, PartialEq, Eq)]
pub struct ConfigOutcome {
    /// The document to store, where the configuration has to be stored.
    pub store: Option<GuildConfigData>,
    /// What to answer once the document is stored, where there is an answer.
    pub reply: Option<String>,
}

/// Mathematical value of a [`ConfigOutcome`].
pub ghost struct ConfigOutcomeView {
    pub store: Option<GuildConfigDataView>,
    pub reply: Option<Seq<char>>,
}

impl View for ConfigOutcome {
    type V = ConfigOutcomeView;

    open spec fn view(&self) -> ConfigOutcomeView {
        ConfigOutcomeView {
            store: match self.store {
                Some(data) => Some(data@),
                None => None,
            },
            reply: self.reply.deep_view(),
        }
    }
}

/// The request to give the filter of a command the kind `filter_type`, and
/// the channels `channels` where there are any to give.
pub open spec fn filter_request(
    filter_type: CommandDisability,
    channels: Option<Seq<ChannelId>>,
) -> EditCommandFilterView {
    EditCommandFilterView { filter_type: Some(filter_type), channels }
}

/// The request to make the change `edit` to the info channel `ic_type`.
pub open spec fn info_channel_request(
    ic_type: InfoChannelType,
    edit: EditInfoChannel,
) -> EditGuildConfigView {
    EditGuildConfigView {
        default_roles: None,
        info_channels: (EditInfoChannels { welcome: None, log: None, mod_list: None }).spec_with(
            ic_type,
            edit,
        ),
    }
}

impl ConfigCommandView {
    /// Whether the command can be carried out: the word of a link lookup
    /// command has to be `enable` or `disable`.
    pub open spec fn valid(self) -> bool {
        self matches ConfigCommandView::MessageLinkLookup(term) ==> term == "enable"@ || term
            == "disable"@
    }

    /// The configuration that the command leaves, where it can be carried
    /// out.
    pub open spec fn result(self, config: GuildConfigView) -> GuildConfigView {
        match self {
            ConfigCommandView::EnableCommand(name) => config.with_filter(
                name,
                filter_request(CommandDisability::Unrestricted, None).apply(config.filter(name)),
            ),
            ConfigCommandView::DisableCommand(name) => config.with_filter(
                name,
                filter_request(CommandDisability::Global, None).apply(config.filter(name)),
            ),
            ConfigCommandView::WhitelistCommand(name, channels) => config.with_filter(
                name,
                filter_request(CommandDisability::Whitelisted, Some(channels)).apply(
                    config.filter(name),
                ),
            ),
            ConfigCommandView::BlacklistCommand(name, channels) => config.with_filter(
                name,
                filter_request(CommandDisability::Blacklisted, Some(channels)).apply(
                    config.filter(name),
                ),
            ),
            ConfigCommandView::EnableInfoChannel(ic_type) => info_channel_request(
                ic_type,
                EditInfoChannel { state: Some(true), channel: None },
            ).apply(config),
            ConfigCommandView::DisableInfoChannel(ic_type) => info_channel_request(
                ic_type,
                EditInfoChannel { state: Some(false), channel: None },
            ).apply(config),
            ConfigCommandView::SetInfoChannel(ic_type, channel) => info_channel_request(
                ic_type,
                EditInfoChannel { state: None, channel: Some(channel) },
            ).apply(config),
            ConfigCommandView::DefaultRoles(roles) => (EditGuildConfigView {
                default_roles: Some(roles),
                info_channels: EditInfoChannels { welcome: None, log: None, mod_list: None },
            }).apply(config),
            ConfigCommandView::MessageLinkLookup(term) => GuildConfigView {
                message_link_lookup: term == "enable"@,
                ..config
            },
        }
    }

    /// Whether the configuration is stored after the command: after every
    /// one but the switch of the link lookup.
    pub open spec fn stores(self) -> bool {
        !(self is MessageLinkLookup)
    }

    /// What the command answers; the switch of the link lookup answers
    /// nothing.
    pub open spec fn reply(self) -> Option<Seq<char>> {
        match self {
            ConfigCommandView::EnableCommand(name) => Some("Enabled command `"@ + name + "`"@),
            ConfigCommandView::DisableCommand(name) => Some("Disabled command `"@ + name + "`"@),
            ConfigCommandView::WhitelistCommand(name, channels) => Some(
                "Set filtering for command `"@ + name + "` to whitelist:\n"@ + channel_lines(
                    channels,
                ),
            ),
            ConfigCommandView::BlacklistCommand(name, channels) => Some(
                "Set filtering for command `"@ + name + "` to blacklist:\n"@ + channel_lines(
                    channels,
                ),
            ),
            ConfigCommandView::EnableInfoChannel(ic_type) => Some(
                "Successfully enabled `"@ + ic_type.name() + "` info channel."@,
            ),
            ConfigCommandView::DisableInfoChannel(ic_type) => Some(
                "Successfully disabled `"@ + ic_type.name() + "` info channel."@,
            ),
            ConfigCommandView::SetInfoChannel(ic_type, channel) => Some(
                "Channel for `"@ + ic_type.name() + "` is set to "@ + channel_mention_text(
                    channel,
                ),
            ),
            ConfigCommandView::DefaultRoles(roles) => Some(
                "Default roles ("@ + decimal(roles.len()) + ") set"@,
            ),
            ConfigCommandView::MessageLinkLookup(_) => None,
        }
    }
}

fn filter_reply(head: &str, name: &str, tail: &str) -> (text: String)
    ensures
        text@ == head@ + name@ + tail@,
{
    let mut text = String::from_str(head);
    text.append(name);
    text.append(tail);
    text
}

/// Carries out `command` on `config`, all at once. The outcome holds the
/// document to store and the answer to give; a link lookup command with
/// another word than `enable` or `disable` is refused and changes nothing.
pub fn run_config_command(config: &mut GuildConfig, command: ConfigCommand) -> (r: Result<
    ConfigOutcome,
    ServerConfigurationError,
>)
    requires
        old(config).wf(),
    ensures
        final(config).wf(),
        match r {
            Ok(outcome) => {
                &&& command@.valid()
                &&& final(config)@ == command@.result(old(config)@)
                &&& outcome@.reply == command@.reply()
                &&& outcome@.store == if command@.stores() {
                    Some(final(config)@.data())
                } else {
                    None
                }
            },
            Err(error) => {
                &&& final(config)@ == old(config)@
                &&& command@ matches ConfigCommandView::MessageLinkLookup(term)
                &&& !command@.valid()
                &&& error@ == ServerConfigurationErrorView::InvalidActionTerm(term)
            },
        },
{
    match command {
        ConfigCommand::EnableCommand(name) => {
            let mut request = EditCommandFilter::default();
            request.enable();
            let store = config.edit_command_filter(name.as_str(), request);
            let reply = filter_reply("Enabled command `", name.as_str(), "`");
            Ok(ConfigOutcome { store, reply: Some(reply) })
        },
        ConfigCommand::DisableCommand(name) => {
            let mut request = EditCommandFilter::default();
            request.disable();
            let store = config.edit_command_filter(name.as_str(), request);
            let reply = filter_reply("Disabled command `", name.as_str(), "`");
            Ok(ConfigOutcome { store, reply: Some(reply) })
        },
        ConfigCommand::WhitelistCommand(name, channels) => {
            let mut reply = filter_reply(
                "Set filtering for command `",
                name.as_str(),
                "` to whitelist:\n",
            );
            reply.append(channel_mention_lines(&channels).as_str());
            let mut request = EditCommandFilter::default();
            request.filter_type(CommandDisability::Whitelisted).channels(channels);
            let store = config.edit_command_filter(name.as_str(), request);
            Ok(ConfigOutcome { store, reply: Some(reply) })
        },
        ConfigCommand::BlacklistCommand(name, channels) => {
            let mut reply = filter_reply(
                "Set filtering for command `",
                name.as_str(),
                "` to blacklist:\n",
            );
            reply.append(channel_mention_lines(&channels).as_str());
            let mut request = EditCommandFilter::default();
            request.filter_type(CommandDisability::Blacklisted).channels(channels);
            let store = config.edit_command_filter(name.as_str(), request);
            Ok(ConfigOutcome { store, reply: Some(reply) })
        },
        ConfigCommand::EnableInfoChannel(ic_type) => {
            let mut edit = EditInfoChannel::default();
            edit.state(true);
            let mut request = EditGuildConfig::default();
            request.info_channel(ic_type, edit);
            let store = config.edit(request);
            Ok(
                ConfigOutcome {
                    store,
                    reply: Some(
                        filter_reply("Successfully enabled `", ic_type.as_ref(), "` info channel."),
                    ),
                },
            )
        },
        ConfigCommand::DisableInfoChannel(ic_type) => {
            let mut edit = EditInfoChannel::default();
            edit.state(false);
            let mut request = EditGuildConfig::default();
            request.info_channel(ic_type, edit);
            let store = config.edit(request);
            Ok(
                ConfigOutcome {
                    store,
                    reply: Some(
                        filter_reply(
                            "Successfully disabled `",
                            ic_type.as_ref(),
                            "` info channel.",
                        ),
                    ),
                },
            )
        },
        ConfigCommand::SetInfoChannel(ic_type, channel) => {
            let mut edit = EditInfoChannel::default();
            edit.channel(channel);
            let mut request = EditGuildConfig::default();
            request.info_channel(ic_type, edit);
            let store = config.edit(request);
            let mut reply = filter_reply("Channel for `", ic_type.as_ref(), "` is set to ");
            reply.append(channel_mention(channel).as_str());
            Ok(ConfigOutcome { store, reply: Some(reply) })
        },
        ConfigCommand::DefaultRoles(roles) => {
            let mut reply = String::from_str("Default roles (");
            reply.append(decimal_string(roles.len() as u64).as_str());
            reply.append(") set");
            let mut request = EditGuildConfig::default();
            request.default_roles(roles);
            let store = config.edit(request);
            Ok(ConfigOutcome { store, reply: Some(reply) })
        },
        ConfigCommand::MessageLinkLookup(term) => {
            if term == String::from_str("enable") {
                config.set_message_link_lookup(true);
                Ok(ConfigOutcome { store: None, reply: None })
            } else if term == String::from_str("disable") {
                proof {
                    reveal_strlit("enable");
                    reveal_strlit("disable");
                    assert("enable"@.len() != "disable"@.len());
                }
                config.set_message_link_lookup(false);
                Ok(ConfigOutcome { store: None, reply: None })
            } else {
                Err(ServerConfigurationError::InvalidActionTerm(term))
            }
        },
    }
}

} // verus!
