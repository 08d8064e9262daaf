use motorchik::document::{CommandFilterData, GuildConfigData};
use motorchik::error::GuildConfigError;
use motorchik::guild_config::GuildConfig;
use motorchik::info_channel::{InfoChannelData, InfoChannelType};
use motorchik::manager::{GuildConfigManager, LoadAction, LoadEvent, LoadState};

const G1: u64 = 7001;
const G2: u64 = 7002;
const C1: u64 = 55;

/// What a test lets the outside do: the files it finds, the guilds it knows,
/// whether writes succeed; and what it has written.
struct World {
    files: Vec<(String, GuildConfigData)>,
    guilds: Vec<(u64, Option<u64>)>,
    reads_fail: bool,
    writes_succeed: bool,
    writes: usize,
    reads: usize,
}

impl World {
    fn new() -> World {
        World {
            files: vec![],
            guilds: vec![],
            reads_fail: false,
            writes_succeed: true,
            writes: 0,
            reads: 0,
        }
    }

    fn file(&self, name: &str) -> Option<GuildConfigData> {
        self.files.iter().find(|(file, _)| file == name).map(|(_, data)| data.clone())
    }
}

/// Runs a load to its end, as a program around the library would.
fn get_or_load(
    manager: &mut GuildConfigManager<GuildConfig>,
    world: &mut World,
    guild_id: u64,
) -> Result<(), GuildConfigError> {
    let mut state = LoadState::Start;
    let mut event = LoadEvent::Begin;
    loop {
        let (next, action) = manager.step(guild_id, state, event);
        state = next;
        event = match action {
            LoadAction::UseCached => {
                assert_eq!(LoadState::Finished, state);
                assert!(manager.is_cached(guild_id));
                return Ok(());
            }
            LoadAction::AcquireExclusive => LoadEvent::ExclusiveGranted,
            LoadAction::ReadFile(name) => {
                world.reads += 1;
                match world.file(&name) {
                    Some(_) if world.reads_fail => LoadEvent::ReadFailed,
                    Some(data) => LoadEvent::FileRead(data),
                    None => LoadEvent::NoDocument,
                }
            }
            LoadAction::FindGuild => match world.guilds.iter().find(|(id, _)| *id == guild_id) {
                Some((_, channel)) => LoadEvent::GuildFound(*channel),
                None => LoadEvent::GuildMissing,
            },
            LoadAction::WriteFile(name, data) => {
                if world.writes_succeed {
                    world.writes += 1;
                    world.files.retain(|(file, _)| *file != name);
                    world.files.push((name, data));
                    LoadEvent::Written
                } else {
                    LoadEvent::WriteFailed
                }
            }
            LoadAction::Install(config) => {
                assert_eq!(LoadState::Finished, state);
                assert!(manager.insert(guild_id, config));
                return Ok(());
            }
            LoadAction::Fail(error) => {
                assert_eq!(LoadState::Finished, state);
                return Err(error);
            }
        };
    }
}

#[test]
fn new_manager_is_empty() {
    let manager: GuildConfigManager<GuildConfig> = GuildConfigManager::new("configs".to_string());
    assert_eq!("configs", manager.config_path());
    assert!(!manager.is_cached(G1));
    assert!(manager.get(G1).is_none());
}

#[test]
fn new_guild_is_loaded_with_defaults_and_stored() {
    let mut manager = GuildConfigManager::new("configs".to_string());
    let mut world = World::new();
    world.guilds.push((G1, Some(C1)));
    assert_eq!(Ok(()), get_or_load(&mut manager, &mut world, G1));

    let config = manager.get(G1).unwrap();
    assert_eq!(G1, config.guild_id());
    assert!(config.default_roles().is_empty());
    for ic_type in [InfoChannelType::Welcome, InfoChannelType::Log, InfoChannelType::ModList] {
        assert_eq!(
            InfoChannelData { channel_id: C1, enabled: false },
            config.info_channels_data(ic_type)
        );
    }
    assert!(config.mod_list_messages().is_empty());
    assert!(config.to_data().command_filters.is_empty());

    assert_eq!(1, world.writes);
    assert_eq!(Some(config.to_data()), world.file("guild_7001.json"));
}

#[test]
fn guild_is_loaded_once() {
    let mut manager = GuildConfigManager::new("configs".to_string());
    let mut world = World::new();
    world.guilds.push((G1, Some(C1)));
    assert_eq!(Ok(()), get_or_load(&mut manager, &mut world, G1));
    assert_eq!(Ok(()), get_or_load(&mut manager, &mut world, G1));
    assert_eq!(Ok(()), get_or_load(&mut manager, &mut world, G1));
    assert_eq!(1, world.reads);
    assert_eq!(1, world.writes);
}

#[test]
fn load_that_waited_for_exclusive_access_uses_what_another_load_installed() {
    let mut manager = GuildConfigManager::new("configs".to_string());
    let mut world = World::new();
    world.guilds.push((G1, Some(C1)));

    // Two loads begin while the guild is not cached.
    let (first, action) = manager.step(G1, LoadState::Start, LoadEvent::Begin);
    assert!(matches!(action, LoadAction::AcquireExclusive));
    let (second, action) = manager.step(G1, LoadState::Start, LoadEvent::Begin);
    assert!(matches!(action, LoadAction::AcquireExclusive));
    assert_eq!(LoadState::AwaitingExclusive, first);
    assert_eq!(LoadState::AwaitingExclusive, second);

    // The first one is granted exclusive access and runs to its end.
    let (state, action) = manager.step(G1, first, LoadEvent::ExclusiveGranted);
    assert!(matches!(&action, LoadAction::ReadFile(name) if name == "guild_7001.json"));
    let (state, action) = manager.step(G1, state, LoadEvent::NoDocument);
    assert!(matches!(action, LoadAction::FindGuild));
    let (state, action) = manager.step(G1, state, LoadEvent::GuildFound(Some(C1)));
    assert_eq!(LoadState::AwaitingWrite(C1), state);
    match action {
        LoadAction::WriteFile(name, data) => {
            assert_eq!("guild_7001.json", name);
            assert_eq!(GuildConfigData::new(C1), data);
            world.writes += 1;
        }
        other => panic!("unexpected {:?}", other),
    }
    let (state, action) = manager.step(G1, state, LoadEvent::Written);
    assert_eq!(LoadState::Finished, state);
    match action {
        LoadAction::Install(config) => assert!(manager.insert(G1, config)),
        other => panic!("unexpected {:?}", other),
    }

    // The second one is granted exclusive access afterwards.
    let (state, action) = manager.step(G1, second, LoadEvent::ExclusiveGranted);
    assert_eq!(LoadState::Finished, state);
    assert!(matches!(action, LoadAction::UseCached));
    assert_eq!(1, world.writes);
}

#[test]
fn stored_guild_is_loaded_from_its_file_without_a_write() {
    let mut stored = GuildConfigData::new(C1);
    stored.default_roles = vec![1, 2];
    stored.command_filters.push(("ban".to_string(), CommandFilterData { filter_type: 1, channels: vec![] }));
    let mut world = World::new();
    world.files.push(("guild_7001.json".to_string(), stored.clone()));
    let mut manager = GuildConfigManager::new("configs".to_string());
    assert_eq!(Ok(()), get_or_load(&mut manager, &mut world, G1));
    assert_eq!(0, world.writes);
    assert_eq!(stored, manager.get(G1).unwrap().to_data());
    assert_eq!(G1, manager.get(G1).unwrap().guild_id());
}

#[test]
fn document_that_breaks_a_rule_is_replaced_by_defaults() {
    let mut stored = GuildConfigData::new(C1 + 1);
    stored.command_filters.push(("ban".to_string(), CommandFilterData { filter_type: 8, channels: vec![] }));
    let mut world = World::new();
    world.files.push(("guild_7001.json".to_string(), stored));
    world.guilds.push((G1, None));
    let mut manager = GuildConfigManager::new("configs".to_string());
    assert_eq!(Ok(()), get_or_load(&mut manager, &mut world, G1));
    assert_eq!(1, world.writes);
    assert_eq!(GuildConfigData::new(0), manager.get(G1).unwrap().to_data());
    assert_eq!(Some(GuildConfigData::new(0)), world.file("guild_7001.json"));
}

#[test]
fn unknown_guild_fails_the_load() {
    let mut manager = GuildConfigManager::new("configs".to_string());
    let mut world = World::new();
    world.guilds.push((G2, Some(C1)));
    assert_eq!(
        Err(GuildConfigError::GuildCacheFailed(G1)),
        get_or_load(&mut manager, &mut world, G1)
    );
    assert!(!manager.is_cached(G1));
    assert_eq!(0, world.writes);
    assert_eq!("Failed to fetch guild 7001 from cache", GuildConfigError::GuildCacheFailed(G1).message());
}

#[test]
fn failed_write_fails_the_load_and_caches_nothing() {
    let mut manager = GuildConfigManager::new("configs".to_string());
    let mut world = World::new();
    world.guilds.push((G1, Some(C1)));
    world.writes_succeed = false;
    assert_eq!(Err(GuildConfigError::Io), get_or_load(&mut manager, &mut world, G1));
    assert!(!manager.is_cached(G1));
    world.writes_succeed = true;
    assert_eq!(Ok(()), get_or_load(&mut manager, &mut world, G1));
    assert!(manager.is_cached(G1));
}

#[test]
fn file_that_cannot_be_read_fails_the_load_and_is_kept() {
    let mut stored = GuildConfigData::new(C1);
    stored.default_roles = vec![1, 2];
    let mut world = World::new();
    world.files.push(("guild_7001.json".to_string(), stored.clone()));
    world.guilds.push((G1, Some(C1 + 1)));
    world.reads_fail = true;
    let mut manager = GuildConfigManager::new("configs".to_string());
    assert_eq!(Err(GuildConfigError::Io), get_or_load(&mut manager, &mut world, G1));
    assert!(!manager.is_cached(G1));
    assert_eq!(0, world.writes);
    assert_eq!(Some(stored.clone()), world.file("guild_7001.json"));

    world.reads_fail = false;
    assert_eq!(Ok(()), get_or_load(&mut manager, &mut world, G1));
    assert_eq!(0, world.writes);
    assert_eq!(stored, manager.get(G1).unwrap().to_data());
}

#[test]
fn failed_read_ends_the_load_at_once() {
    let manager: GuildConfigManager<GuildConfig> = GuildConfigManager::new("configs".to_string());
    let (state, action) = manager.step(G1, LoadState::AwaitingFile, LoadEvent::ReadFailed);
    assert_eq!(LoadState::Finished, state);
    assert!(matches!(action, LoadAction::Fail(GuildConfigError::Io)));
    let (state, action) = manager.step(G1, LoadState::AwaitingFile, LoadEvent::NoDocument);
    assert_eq!(LoadState::AwaitingGuild, state);
    assert!(matches!(action, LoadAction::FindGuild));
    let (state, action) = manager.step(G1, LoadState::AwaitingGuild, LoadEvent::ReadFailed);
    assert_eq!(LoadState::Finished, state);
    assert!(matches!(action, LoadAction::Fail(GuildConfigError::OutOfTurn)));
}

#[test]
fn guilds_are_independent() {
    let mut manager = GuildConfigManager::new("configs".to_string());
    let mut world = World::new();
    world.guilds.push((G1, Some(C1)));
    world.guilds.push((G2, None));
    assert_eq!(Ok(()), get_or_load(&mut manager, &mut world, G1));
    assert!(!manager.is_cached(G2));
    assert_eq!(Ok(()), get_or_load(&mut manager, &mut world, G2));
    assert_eq!(2, world.writes);
    assert_eq!(GuildConfigData::new(C1), manager.get(G1).unwrap().to_data());
    assert_eq!(GuildConfigData::new(0), manager.get(G2).unwrap().to_data());
}

#[test]
fn insert_keeps_what_is_cached() {
    let mut manager = GuildConfigManager::new("configs".to_string());
    assert!(manager.insert(G1, GuildConfig::new(G1, Some(1))));
    assert!(!manager.insert(G1, GuildConfig::new(G1, Some(2))));
    assert_eq!(GuildConfigData::new(1), manager.get(G1).unwrap().to_data());
}

#[test]
fn event_out_of_turn_ends_the_load() {
    let manager: GuildConfigManager<GuildConfig> = GuildConfigManager::new("configs".to_string());
    let (state, action) = manager.step(G1, LoadState::Start, LoadEvent::Written);
    assert_eq!(LoadState::Finished, state);
    assert!(matches!(action, LoadAction::Fail(GuildConfigError::OutOfTurn)));
    let (state, action) = manager.step(G1, LoadState::AwaitingFile, LoadEvent::GuildMissing);
    assert_eq!(LoadState::Finished, state);
    assert!(matches!(action, LoadAction::Fail(GuildConfigError::OutOfTurn)));
    let (state, action) = manager.step(G1, LoadState::Finished, LoadEvent::Begin);
    assert_eq!(LoadState::Finished, state);
    assert!(matches!(action, LoadAction::Fail(GuildConfigError::OutOfTurn)));
}

#[test]
fn error_messages() {
    assert_eq!(
        "Failed to fetch guild 0 from cache",
        GuildConfigError::GuildCacheFailed(0).message()
    );
    assert_eq!("Failed to read or store the guild's configuration", GuildConfigError::Io.message());
    assert_eq!("The load was not waiting for this", GuildConfigError::OutOfTurn.message());
}
