use motorchik::command_filter::{CommandDisability, EditCommandFilter};
use motorchik::embed::{Embed, EmbedField};
use motorchik::guild_config::{EditGuildConfig, GuildConfig};
use motorchik::info_channel::EditInfoChannel;

fn field(name: &str, value: &str) -> EmbedField {
    EmbedField { name: name.to_string(), value: value.to_string(), inline: false }
}

#[test]
fn fresh_configuration_is_shown() {
    let embed = GuildConfig::new(42, Some(7)).display_embed();
    assert_eq!(
        Embed {
            author: None,
            title: Some("Config for guild 42".to_string()),
            description: None,
            url: None,
            color: None,
            fields: vec![
                field("Message link lookup", "Enabled"),
                field("Default roles", "None"),
                field(
                    "Info channels",
                    "**`welcome`:**\nDisabled\nChannel: <#7>\n\n**`log`:**\nDisabled\nChannel: <#7>\n\n**`mod-list`:**\nDisabled\nChannel: <#7>"
                ),
                field("Command filters", ""),
            ],
            timestamp: None,
            footer: None,
            thumbnail: None,
        },
        embed
    );
}

#[test]
fn settled_configuration_is_shown() {
    let mut config = GuildConfig::new(381752949846409216, None);
    let mut request = EditGuildConfig::default();
    request
        .default_roles(vec![10, 546748910765604875])
        .log_info_channel(EditInfoChannel { state: Some(true), channel: Some(99) });
    config.edit(request);
    config.set_message_link_lookup(false);
    let mut ban = EditCommandFilter::default();
    ban.filter_type(CommandDisability::Whitelisted).channels(vec![1, 2]);
    config.edit_command_filter("ban", ban);
    let mut kick = EditCommandFilter::default();
    kick.disable();
    config.edit_command_filter("kick", kick);
    let mut rickroll = EditCommandFilter::default();
    rickroll.filter_type(CommandDisability::Blacklisted).channels(vec![3]);
    config.edit_command_filter("rickroll", rickroll);
    config.get_command_filter("ping");
    let mut nowhere = EditCommandFilter::default();
    nowhere.filter_type(CommandDisability::Whitelisted);
    config.edit_command_filter("say", nowhere);

    let embed = config.display_embed();
    assert_eq!(Some("Config for guild 381752949846409216".to_string()), embed.title);
    assert_eq!(
        vec![
            field("Message link lookup", "Disabled"),
            field("Default roles", "<@&10>, <@&546748910765604875>"),
            field(
                "Info channels",
                "**`welcome`:**\nDisabled\nChannel: <#0>\n\n**`log`:**\nEnabled\nChannel: <#99>\n\n**`mod-list`:**\nDisabled\nChannel: <#0>"
            ),
            field(
                "Command filters",
                "**`ban`:**\nEnabled in:\n<#1>\n<#2>\n\n**`kick`:**\nDisabled in all channels\n\n**`rickroll`:**\nDisabled in:\n<#3>\n\n**`ping`:**\nEnabled in all channels\n\n**`say`:**\nEnabled in:\n"
            ),
        ],
        embed.fields
    );
}

#[test]
fn embed_fields_keep_their_order() {
    let mut embed = Embed::new();
    assert!(embed.fields.is_empty());
    assert_eq!(None, embed.title);
    embed.field("a".to_string(), "1".to_string(), true);
    embed.field("b".to_string(), "2".to_string(), false);
    assert_eq!(
        vec![
            EmbedField { name: "a".to_string(), value: "1".to_string(), inline: true },
            EmbedField { name: "b".to_string(), value: "2".to_string(), inline: false },
        ],
        embed.fields
    );
}
