use motorchik::command_filter::{CommandDisability, EditCommandFilter};
use motorchik::document::{CommandFilterData, DataError, GuildConfigData};
use motorchik::guild_config::{guild_file_name, EditGuildConfig, GuildConfig};
use motorchik::info_channel::{EditInfoChannel, InfoChannelData, InfoChannelType};

const G1: u64 = 381752949846409216;
const C1: u64 = 100;
const C2: u64 = 200;
const C3: u64 = 300;
const R1: u64 = 900;

const ALL_TYPES: [InfoChannelType; 3] =
    [InfoChannelType::Welcome, InfoChannelType::Log, InfoChannelType::ModList];

fn fresh_document(channel: u64) -> GuildConfigData {
    let data = InfoChannelData { channel_id: channel, enabled: false };
    GuildConfigData {
        mod_list_messages: vec![],
        message_link_lookup: true,
        default_roles: vec![],
        info_channels: vec![
            ("welcome".to_string(), data),
            ("log".to_string(), data),
            ("mod-list".to_string(), data),
        ],
        command_filters: vec![],
    }
}

fn sample_config() -> GuildConfig {
    let mut config = GuildConfig::new(G1, Some(C1));
    let mut roles = EditGuildConfig::default();
    roles.default_roles(vec![R1, 901]);
    roles.log_info_channel(EditInfoChannel { state: Some(true), channel: Some(C2) });
    config.edit(roles);
    let mut ban = EditCommandFilter::default();
    ban.filter_type(CommandDisability::Whitelisted).channels(vec![C2, C3]);
    config.edit_command_filter("ban", ban);
    let mut kick = EditCommandFilter::default();
    kick.disable();
    config.edit_command_filter("kick", kick);
    config.set_mod_list_messages(vec![("PlutoniumEnergy".to_string(), 5), ("ReactorDansen".to_string(), 6)]);
    config.set_message_link_lookup(false);
    config
}

#[test]
fn file_name_is_made_of_the_guild_id() {
    assert_eq!("guild_381752949846409216.json", guild_file_name(G1));
    assert_eq!("guild_0.json", guild_file_name(0));
    assert_eq!("guild_18446744073709551615.json", guild_file_name(u64::MAX));
    assert_eq!("guild_381752949846409216.json", GuildConfig::new(G1, None).file_name());
}

#[test]
fn new_guild_gets_defaults() {
    let config = GuildConfig::new(G1, Some(C1));
    assert_eq!(G1, config.guild_id());
    assert!(config.default_roles().is_empty());
    for ic_type in ALL_TYPES {
        assert_eq!(
            InfoChannelData { channel_id: C1, enabled: false },
            config.info_channels_data(ic_type)
        );
    }
    assert!(config.mod_list_messages().is_empty());
    assert!(config.message_link_lookup());
    assert_eq!(fresh_document(C1), config.to_data());
    assert_eq!(fresh_document(C1), GuildConfigData::new(C1));
}

#[test]
fn new_guild_without_system_channel_falls_back_to_channel_zero() {
    let config = GuildConfig::new(G1, None);
    for ic_type in ALL_TYPES {
        assert_eq!(
            InfoChannelData { channel_id: 0, enabled: false },
            config.info_channels_data(ic_type)
        );
    }
    assert_eq!(fresh_document(0), config.to_data());
}

#[test]
fn edit_that_asks_nothing_stores_nothing() {
    let mut config = sample_config();
    let before = config.to_data();
    assert!(EditGuildConfig::default().is_empty());
    assert_eq!(None, config.edit(EditGuildConfig::default()));
    assert_eq!(before, config.to_data());
}

#[test]
fn edit_replaces_default_roles_as_a_whole() {
    let mut config = sample_config();
    let mut request = EditGuildConfig::default();
    request.default_roles(vec![R1]);
    let stored = config.edit(request).unwrap();
    assert_eq!(&vec![R1], config.default_roles());
    assert_eq!(vec![R1], stored.default_roles);
    assert_eq!(stored, config.to_data());
    assert_eq!(2, config.mod_list_messages().len());

    let mut clear = EditGuildConfig::default();
    clear.default_roles(vec![]);
    assert!(!clear.is_empty());
    let stored = config.edit(clear).unwrap();
    assert!(config.default_roles().is_empty());
    assert!(stored.default_roles.is_empty());
}

#[test]
fn edit_changes_only_the_fields_that_are_set() {
    let mut config = GuildConfig::new(G1, Some(C1));
    let mut state = EditInfoChannel::default();
    state.state(true);
    let mut request = EditGuildConfig::default();
    request.welcome_info_channel(state);
    config.edit(request).unwrap();
    assert_eq!(
        InfoChannelData { channel_id: C1, enabled: true },
        config.info_channels_data(InfoChannelType::Welcome)
    );

    let mut channel = EditInfoChannel::default();
    channel.channel(C2);
    let mut request = EditGuildConfig::default();
    request.info_channel(InfoChannelType::Welcome, channel);
    config.edit(request).unwrap();
    assert_eq!(
        InfoChannelData { channel_id: C2, enabled: true },
        config.info_channels_data(InfoChannelType::Welcome)
    );
    assert_eq!(
        InfoChannelData { channel_id: C1, enabled: false },
        config.info_channels_data(InfoChannelType::Log)
    );
    assert_eq!(
        InfoChannelData { channel_id: C1, enabled: false },
        config.info_channels_data(InfoChannelType::ModList)
    );
}

#[test]
fn edit_of_mod_list_channel_clears_mod_list_messages() {
    for edit in [
        EditInfoChannel { state: Some(true), channel: None },
        EditInfoChannel { state: None, channel: Some(C3) },
        EditInfoChannel { state: Some(false), channel: Some(C1) },
        EditInfoChannel { state: Some(false), channel: None },
        EditInfoChannel { state: None, channel: Some(C1) },
    ] {
        let mut config = sample_config();
        assert_eq!(2, config.mod_list_messages().len());
        let mut request = EditGuildConfig::default();
        request.modlist_info_channel(edit);
        let stored = config.edit(request).unwrap();
        assert!(config.mod_list_messages().is_empty());
        assert!(stored.mod_list_messages.is_empty());
        assert_eq!(
            edit.apply(InfoChannelData { channel_id: C1, enabled: false }),
            config.info_channels_data(InfoChannelType::ModList)
        );
    }
}

#[test]
fn edit_that_names_channels_and_sets_nothing_stores_nothing() {
    let mut config = sample_config();
    let before = config.to_data();
    let mut request = EditGuildConfig::default();
    request.modlist_info_channel(EditInfoChannel::default());
    assert!(request.is_empty());
    assert_eq!(None, config.edit(request));
    assert_eq!(2, config.mod_list_messages().len());
    assert_eq!(before, config.to_data());

    let mut request = EditGuildConfig::default();
    request
        .welcome_info_channel(EditInfoChannel::default())
        .log_info_channel(EditInfoChannel { state: None, channel: None })
        .modlist_info_channel(EditInfoChannel::default());
    assert!(request.is_empty());
    assert_eq!(None, config.edit(request));
    assert_eq!(before, config.to_data());
}

#[test]
fn edit_that_names_the_mod_list_channel_and_sets_nothing_keeps_its_messages() {
    let mut config = sample_config();
    let mut request = EditGuildConfig::default();
    request.modlist_info_channel(EditInfoChannel::default()).default_roles(vec![R1]);
    assert!(!request.is_empty());
    let stored = config.edit(request).unwrap();
    assert_eq!(vec![R1], stored.default_roles);
    assert_eq!(2, stored.mod_list_messages.len());
    assert_eq!(2, config.mod_list_messages().len());
}

#[test]
fn edit_of_other_channels_keeps_mod_list_messages() {
    let mut config = sample_config();
    let mut request = EditGuildConfig::default();
    request
        .welcome_info_channel(EditInfoChannel { state: Some(true), channel: None })
        .log_info_channel(EditInfoChannel { state: Some(false), channel: None })
        .default_roles(vec![]);
    let stored = config.edit(request).unwrap();
    assert_eq!(2, config.mod_list_messages().len());
    assert_eq!(2, stored.mod_list_messages.len());
}

#[test]
fn whitelisted_command_runs_in_listed_channels_only() {
    let mut config = GuildConfig::new(G1, Some(C1));
    let mut request = EditCommandFilter::default();
    request.filter_type(CommandDisability::Whitelisted).channels(vec![C2, C3]);
    let stored = config.edit_command_filter("ban", request).unwrap();
    assert_eq!(
        vec![("ban".to_string(), CommandFilterData { filter_type: 3, channels: vec![C2, C3] })],
        stored.command_filters
    );

    let filter = config.get_command_filter("ban");
    assert_eq!(Ok(CommandDisability::Whitelisted), filter.can_run(C2));
    assert_eq!(Ok(CommandDisability::Whitelisted), filter.can_run(C3));
    assert_eq!(Err(CommandDisability::Whitelisted), filter.can_run(C1));
    assert_eq!(Err(CommandDisability::Whitelisted), filter.can_run(0));
    assert_eq!(Err(CommandDisability::Whitelisted), filter.can_run(u64::MAX));
}

#[test]
fn command_names_are_case_sensitive() {
    let mut config = GuildConfig::new(G1, Some(C1));
    let mut request = EditCommandFilter::default();
    request.disable();
    config.edit_command_filter("ban", request).unwrap();
    assert_eq!(Err(CommandDisability::Global), config.get_command_filter("ban").can_run(C1));
    assert_eq!(Ok(CommandDisability::Unrestricted), config.get_command_filter("Ban").can_run(C1));
    assert_eq!(Ok(CommandDisability::Unrestricted), config.get_command_filter("").can_run(C1));
}

#[test]
fn edit_command_filter_that_asks_nothing_stores_nothing_and_creates_nothing() {
    let mut config = GuildConfig::new(G1, Some(C1));
    assert_eq!(None, config.edit_command_filter("ban", EditCommandFilter::default()));
    assert!(config.to_data().command_filters.is_empty());
}

#[test]
fn edit_command_filter_changes_only_what_is_set() {
    let mut config = GuildConfig::new(G1, Some(C1));
    let mut list = EditCommandFilter::default();
    list.channels(vec![C2]);
    config.edit_command_filter("ping", list).unwrap();
    let filter = config.get_command_filter("ping");
    assert_eq!(CommandDisability::Unrestricted, filter.filter_type());
    assert_eq!(&vec![C2], filter.filter_list());

    let mut kind = EditCommandFilter::default();
    kind.filter_type(CommandDisability::Blacklisted);
    config.edit_command_filter("ping", kind).unwrap();
    let filter = config.get_command_filter("ping");
    assert_eq!(CommandDisability::Blacklisted, filter.filter_type());
    assert_eq!(&vec![C2], filter.filter_list());
    assert_eq!(Err(CommandDisability::Blacklisted), filter.can_run(C2));
    assert_eq!(Ok(CommandDisability::Blacklisted), filter.can_run(C1));

    let mut enable = EditCommandFilter::default();
    enable.enable();
    config.edit_command_filter("ping", enable).unwrap();
    let filter = config.get_command_filter("ping");
    assert_eq!(CommandDisability::Unrestricted, filter.filter_type());
    assert_eq!(&vec![C2], filter.filter_list());
    assert_eq!(Ok(CommandDisability::Unrestricted), filter.can_run(C2));
    assert_eq!(1, config.to_data().command_filters.len());
}

#[test]
fn edit_command_filter_keeps_other_commands() {
    let mut config = sample_config();
    let mut request = EditCommandFilter::default();
    request.filter_type(CommandDisability::Blacklisted).channels(vec![C1]);
    let stored = config.edit_command_filter("ping", request).unwrap();
    assert_eq!(
        vec![
            ("ban".to_string(), CommandFilterData { filter_type: 3, channels: vec![C2, C3] }),
            ("kick".to_string(), CommandFilterData { filter_type: 1, channels: vec![] }),
            ("ping".to_string(), CommandFilterData { filter_type: 2, channels: vec![C1] }),
        ],
        stored.command_filters
    );
    let mut again = EditCommandFilter::default();
    again.enable();
    let stored = config.edit_command_filter("ban", again).unwrap();
    assert_eq!(
        vec![
            ("ban".to_string(), CommandFilterData { filter_type: 0, channels: vec![C2, C3] }),
            ("kick".to_string(), CommandFilterData { filter_type: 1, channels: vec![] }),
            ("ping".to_string(), CommandFilterData { filter_type: 2, channels: vec![C1] }),
        ],
        stored.command_filters
    );
}

#[test]
fn get_command_filter_creates_the_unrestricted_filter_once() {
    let mut config = GuildConfig::new(G1, Some(C1));
    let filter = config.get_command_filter("source");
    assert_eq!(CommandDisability::Unrestricted, filter.filter_type());
    assert!(filter.filter_list().is_empty());
    config.get_command_filter("source");
    assert_eq!(
        vec![("source".to_string(), CommandFilterData { filter_type: 0, channels: vec![] })],
        config.to_data().command_filters
    );
}

#[test]
fn both_edits_end_up_in_the_stored_document() {
    let roles_then_filter = {
        let mut config = GuildConfig::new(G1, Some(C1));
        let mut roles = EditGuildConfig::default();
        roles.default_roles(vec![R1]);
        config.edit(roles).unwrap();
        let mut kick = EditCommandFilter::default();
        kick.disable();
        config.edit_command_filter("kick", kick).unwrap()
    };
    let filter_then_roles = {
        let mut config = GuildConfig::new(G1, Some(C1));
        let mut kick = EditCommandFilter::default();
        kick.disable();
        config.edit_command_filter("kick", kick).unwrap();
        let mut roles = EditGuildConfig::default();
        roles.default_roles(vec![R1]);
        config.edit(roles).unwrap()
    };
    assert_eq!(roles_then_filter, filter_then_roles);
    assert_eq!(vec![R1], roles_then_filter.default_roles);
    assert_eq!(
        vec![("kick".to_string(), CommandFilterData { filter_type: 1, channels: vec![] })],
        roles_then_filter.command_filters
    );
}

#[test]
fn stored_document_has_the_expected_shape() {
    let data = sample_config().to_data();
    assert_eq!(
        GuildConfigData {
            mod_list_messages: vec![
                ("PlutoniumEnergy".to_string(), 5),
                ("ReactorDansen".to_string(), 6)
            ],
            message_link_lookup: false,
            default_roles: vec![R1, 901],
            info_channels: vec![
                ("welcome".to_string(), InfoChannelData { channel_id: C1, enabled: false }),
                ("log".to_string(), InfoChannelData { channel_id: C2, enabled: true }),
                ("mod-list".to_string(), InfoChannelData { channel_id: C1, enabled: false }),
            ],
            command_filters: vec![
                ("ban".to_string(), CommandFilterData { filter_type: 3, channels: vec![C2, C3] }),
                ("kick".to_string(), CommandFilterData { filter_type: 1, channels: vec![] }),
            ],
        },
        data
    );
}

#[test]
fn stored_document_reads_back_and_stores_the_same() {
    let config = sample_config();
    let first = config.to_data();
    let read = GuildConfig::from_data(first.clone(), G1).unwrap();
    assert_eq!(G1, read.guild_id());
    assert_eq!(config.default_roles(), read.default_roles());
    assert_eq!(config.mod_list_messages(), read.mod_list_messages());
    assert_eq!(config.message_link_lookup(), read.message_link_lookup());
    for ic_type in ALL_TYPES {
        assert_eq!(config.info_channels_data(ic_type), read.info_channels_data(ic_type));
    }
    let second = read.to_data();
    assert_eq!(first, second);
    let third = GuildConfig::from_data(second.clone(), G1).unwrap().to_data();
    assert_eq!(second, third);
}

#[test]
fn document_in_another_order_is_read_and_stored_in_the_usual_order() {
    let mut data = fresh_document(C1);
    data.info_channels = vec![
        ("mod-list".to_string(), InfoChannelData { channel_id: 3, enabled: true }),
        ("welcome".to_string(), InfoChannelData { channel_id: 1, enabled: false }),
        ("log".to_string(), InfoChannelData { channel_id: 2, enabled: true }),
    ];
    let config = GuildConfig::from_data(data, G1).unwrap();
    assert_eq!(
        InfoChannelData { channel_id: 1, enabled: false },
        config.info_channels_data(InfoChannelType::Welcome)
    );
    assert_eq!(
        InfoChannelData { channel_id: 2, enabled: true },
        config.info_channels_data(InfoChannelType::Log)
    );
    assert_eq!(
        InfoChannelData { channel_id: 3, enabled: true },
        config.info_channels_data(InfoChannelType::ModList)
    );
    let stored = config.to_data();
    assert_eq!("welcome", stored.info_channels[0].0);
    assert_eq!("log", stored.info_channels[1].0);
    assert_eq!("mod-list", stored.info_channels[2].0);
    assert_eq!(stored, GuildConfig::from_data(stored.clone(), G1).unwrap().to_data());
}

#[test]
fn document_with_unknown_info_channel_is_refused() {
    let mut data = fresh_document(C1);
    data.info_channels.push(("goodbye".to_string(), InfoChannelData { channel_id: 1, enabled: true }));
    assert_eq!(DataError::UnknownInfoChannel, GuildConfig::from_data(data, G1).unwrap_err());
}

#[test]
fn last_entry_of_an_info_channel_holds() {
    let mut data = fresh_document(C1);
    data.info_channels.push(("log".to_string(), InfoChannelData { channel_id: 1, enabled: true }));
    data.info_channels.insert(0, ("mod-list".to_string(), InfoChannelData { channel_id: 2, enabled: true }));
    data.info_channels.push(("log".to_string(), InfoChannelData { channel_id: 3, enabled: false }));
    let config = GuildConfig::from_data(data, G1).unwrap();
    assert_eq!(
        InfoChannelData { channel_id: C1, enabled: false },
        config.info_channels_data(InfoChannelType::Welcome)
    );
    assert_eq!(
        InfoChannelData { channel_id: 3, enabled: false },
        config.info_channels_data(InfoChannelType::Log)
    );
    assert_eq!(
        InfoChannelData { channel_id: C1, enabled: false },
        config.info_channels_data(InfoChannelType::ModList)
    );
    assert_eq!(3, config.to_data().info_channels.len());
}

#[test]
fn document_with_missing_info_channel_is_refused() {
    for missing in 0..3 {
        let mut data = fresh_document(C1);
        data.info_channels.remove(missing);
        assert_eq!(DataError::MissingInfoChannel, GuildConfig::from_data(data, G1).unwrap_err());
    }
    let mut data = fresh_document(C1);
    data.info_channels.clear();
    assert_eq!(DataError::MissingInfoChannel, GuildConfig::from_data(data, G1).unwrap_err());
}

#[test]
fn document_with_unknown_filter_type_is_refused() {
    let mut data = fresh_document(C1);
    data.command_filters.push(("ban".to_string(), CommandFilterData { filter_type: 4, channels: vec![] }));
    assert_eq!(DataError::UnknownFilterType, GuildConfig::from_data(data, G1).unwrap_err());
}

#[test]
fn last_entry_of_a_command_holds() {
    let mut data = fresh_document(C1);
    data.command_filters.push(("ban".to_string(), CommandFilterData { filter_type: 1, channels: vec![] }));
    data.command_filters.push(("kick".to_string(), CommandFilterData { filter_type: 1, channels: vec![7] }));
    data.command_filters.push(("ban".to_string(), CommandFilterData { filter_type: 2, channels: vec![C2] }));
    data.command_filters.push(("ban".to_string(), CommandFilterData { filter_type: 3, channels: vec![C3] }));
    let mut config = GuildConfig::from_data(data, G1).unwrap();
    let ban = config.get_command_filter("ban");
    assert_eq!(CommandDisability::Whitelisted, ban.filter_type());
    assert_eq!(&vec![C3], ban.filter_list());
    assert_eq!(Err(CommandDisability::Global), config.get_command_filter("kick").can_run(C1));
    let stored = config.to_data();
    assert_eq!(
        vec![
            ("ban".to_string(), CommandFilterData { filter_type: 3, channels: vec![C3] }),
            ("kick".to_string(), CommandFilterData { filter_type: 1, channels: vec![7] }),
        ],
        stored.command_filters
    );
    assert_eq!(stored, GuildConfig::from_data(stored.clone(), G1).unwrap().to_data());
}

#[test]
fn repeated_command_with_an_unknown_filter_type_is_refused() {
    let mut data = fresh_document(C1);
    data.command_filters.push(("ban".to_string(), CommandFilterData { filter_type: 4, channels: vec![] }));
    data.command_filters.push(("ban".to_string(), CommandFilterData { filter_type: 2, channels: vec![] }));
    assert_eq!(DataError::UnknownFilterType, GuildConfig::from_data(data, G1).unwrap_err());
}

#[test]
fn first_broken_rule_is_reported() {
    let mut data = fresh_document(C1);
    data.info_channels.push(("log".to_string(), InfoChannelData { channel_id: 1, enabled: true }));
    data.info_channels.push(("nope".to_string(), InfoChannelData { channel_id: 1, enabled: true }));
    data.command_filters.push(("ban".to_string(), CommandFilterData { filter_type: 9, channels: vec![] }));
    data.command_filters.push(("ban".to_string(), CommandFilterData { filter_type: 1, channels: vec![] }));
    data.info_channels.remove(0);
    assert_eq!(DataError::UnknownInfoChannel, GuildConfig::from_data(data.clone(), G1).unwrap_err());
    data.info_channels.pop();
    assert_eq!(DataError::MissingInfoChannel, GuildConfig::from_data(data.clone(), G1).unwrap_err());
    data.info_channels = fresh_document(C1).info_channels;
    assert_eq!(DataError::UnknownFilterType, GuildConfig::from_data(data.clone(), G1).unwrap_err());
    data.command_filters[0].1.filter_type = 3;
    assert!(GuildConfig::from_data(data, G1).is_ok());
}

#[test]
fn setters_change_one_thing() {
    let mut config = sample_config();
    let before = config.to_data();
    config.set_message_link_lookup(true);
    config.set_mod_list_messages(vec![("a".to_string(), 1)]);
    let after = config.to_data();
    assert!(after.message_link_lookup);
    assert_eq!(vec![("a".to_string(), 1)], after.mod_list_messages);
    assert_eq!(before.default_roles, after.default_roles);
    assert_eq!(before.info_channels, after.info_channels);
    assert_eq!(before.command_filters, after.command_filters);
}
