use motorchik::command_filter::CommandDisability;
use motorchik::config_commands::{
    run_config_command, ConfigCommand, ConfigOutcome, ServerConfigurationError,
};
use motorchik::document::CommandFilterData;
use motorchik::guild_config::GuildConfig;
use motorchik::info_channel::{InfoChannelData, InfoChannelType};

fn fresh() -> GuildConfig {
    let mut config = GuildConfig::new(1, Some(10));
    config.set_mod_list_messages(vec![("a".to_string(), 1)]);
    config
}

fn run(config: &mut GuildConfig, command: ConfigCommand) -> ConfigOutcome {
    let outcome = run_config_command(config, command).unwrap();
    assert_eq!(Some(config.to_data()), outcome.store);
    outcome
}

#[test]
fn enable_and_disable_command() {
    let mut config = fresh();
    let outcome = run(&mut config, ConfigCommand::DisableCommand("rickroll".to_string()));
    assert_eq!(Some("Disabled command `rickroll`".to_string()), outcome.reply);
    assert_eq!(Err(CommandDisability::Global), config.get_command_filter("rickroll").can_run(5));

    let outcome = run(&mut config, ConfigCommand::EnableCommand("rickroll".to_string()));
    assert_eq!(Some("Enabled command `rickroll`".to_string()), outcome.reply);
    assert_eq!(Ok(CommandDisability::Unrestricted), config.get_command_filter("rickroll").can_run(5));
}

#[test]
fn whitelist_and_blacklist_command() {
    let mut config = fresh();
    let outcome = run(&mut config, ConfigCommand::WhitelistCommand("ping".to_string(), vec![4, 5]));
    assert_eq!(
        Some("Set filtering for command `ping` to whitelist:\n<#4>\n<#5>".to_string()),
        outcome.reply
    );
    assert_eq!(
        vec![("ping".to_string(), CommandFilterData { filter_type: 3, channels: vec![4, 5] })],
        outcome.store.unwrap().command_filters
    );

    let outcome = run(&mut config, ConfigCommand::BlacklistCommand("ping".to_string(), vec![]));
    assert_eq!(Some("Set filtering for command `ping` to blacklist:\n".to_string()), outcome.reply);
    assert_eq!(
        vec![("ping".to_string(), CommandFilterData { filter_type: 2, channels: vec![] })],
        outcome.store.unwrap().command_filters
    );
}

#[test]
fn info_channel_commands() {
    let mut config = fresh();
    let outcome = run(&mut config, ConfigCommand::EnableInfoChannel(InfoChannelType::Welcome));
    assert_eq!(Some("Successfully enabled `welcome` info channel.".to_string()), outcome.reply);
    assert_eq!(
        InfoChannelData { channel_id: 10, enabled: true },
        config.info_channels_data(InfoChannelType::Welcome)
    );
    assert_eq!(1, config.mod_list_messages().len());

    let outcome = run(&mut config, ConfigCommand::SetInfoChannel(InfoChannelType::Log, 77));
    assert_eq!(Some("Channel for `log` is set to <#77>".to_string()), outcome.reply);
    assert_eq!(
        InfoChannelData { channel_id: 77, enabled: false },
        config.info_channels_data(InfoChannelType::Log)
    );
    assert_eq!(1, config.mod_list_messages().len());

    let outcome = run(&mut config, ConfigCommand::DisableInfoChannel(InfoChannelType::ModList));
    assert_eq!(Some("Successfully disabled `mod-list` info channel.".to_string()), outcome.reply);
    assert_eq!(
        InfoChannelData { channel_id: 10, enabled: false },
        config.info_channels_data(InfoChannelType::ModList)
    );
    assert!(config.mod_list_messages().is_empty());
}

#[test]
fn default_roles_command() {
    let mut config = fresh();
    let outcome = run(&mut config, ConfigCommand::DefaultRoles(vec![3, 4, 5]));
    assert_eq!(Some("Default roles (3) set".to_string()), outcome.reply);
    assert_eq!(&vec![3, 4, 5], config.default_roles());
    let outcome = run(&mut config, ConfigCommand::DefaultRoles(vec![]));
    assert_eq!(Some("Default roles (0) set".to_string()), outcome.reply);
    assert!(config.default_roles().is_empty());
}

#[test]
fn message_link_lookup_command_stores_and_answers_nothing() {
    let mut config = fresh();
    let outcome =
        run_config_command(&mut config, ConfigCommand::MessageLinkLookup("disable".to_string()));
    assert_eq!(Ok(ConfigOutcome { store: None, reply: None }), outcome);
    assert!(!config.message_link_lookup());
    let outcome =
        run_config_command(&mut config, ConfigCommand::MessageLinkLookup("enable".to_string()));
    assert_eq!(Ok(ConfigOutcome { store: None, reply: None }), outcome);
    assert!(config.message_link_lookup());
}

#[test]
fn message_link_lookup_command_refuses_other_words() {
    for term in ["", "Enable", "on", "enabled", "disable "] {
        let mut config = fresh();
        let before = config.to_data();
        let error =
            run_config_command(&mut config, ConfigCommand::MessageLinkLookup(term.to_string()))
                .unwrap_err();
        assert_eq!(ServerConfigurationError::InvalidActionTerm(term.to_string()), error);
        assert_eq!(format!("Invalid action term: `{}`", term), error.message());
        assert_eq!(before, config.to_data());
    }
}
