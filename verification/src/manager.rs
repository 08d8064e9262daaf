//! The cache of guild configurations, and the steps by which a guild that
//! is not in it yet gets loaded.

use crate::document::{GuildConfigData, GuildConfigDataView};
use crate::error::GuildConfigError;
use crate::guild_config::{file_name_of, guild_file_name, GuildConfig, GuildConfigView};
use crate::ids::{ChannelId, GuildId};
use std::collections::HashMap;
use vstd::prelude::*;

verus! {

broadcast use vstd::std_specs::hash::group_hash_axioms;

/// How far the load of one guild has come.
#[derive(Debug, Clone, Copy, PartialEq, Eq, Structural)]
pub enum LoadState {
    /// Nothing has been done yet.
    Start,
    /// The guild was not in the cache; exclusive access to the cache is
    /// awaited.
    AwaitingExclusive,
    /// The guild's file is being read.
    AwaitingFile,
    /// The guild is being looked up, to make its defaults.
    AwaitingGuild,
    /// The defaults, made for the given channel, are being stored.
    AwaitingWrite(ChannelId),
    /// The load is over.
    Finished,
}

/// What the outside tells a load.
#[derive(Debug)]
pub enum LoadEvent {
    /// The load is to begin; the cache may be read.
    Begin,
    /// Exclusive access to the cache has been obtained.
    ExclusiveGranted,
    /// The guild's file held this document.
    FileRead(GuildConfigData),
    /// The guild has no file, or its file holds what is no document.
    NoDocument,
    /// The guild's file is there, and reading it failed.
    ReadFailed,
    /// The guild is known, and this is its system channel.
    GuildFound(Option<ChannelId>),
    /// The guild is not known.
    GuildMissing,
    /// The document has been stored.
    Written,
    /// The document could not be stored.
    WriteFailed,
}

/// Mathematical value of a [`LoadEvent`].
pub ghost enum LoadEventView {
    Begin,
    ExclusiveGranted,
    FileRead(GuildConfigDataView),
    NoDocument,
    ReadFailed,
    GuildFound(Option<ChannelId>),
    GuildMissing,
    Written,
    WriteFailed,
}

impl View for LoadEvent {
    type V = LoadEventView;

    open spec fn view(&self) -> LoadEventView {
        match self {
            LoadEvent::Begin => LoadEventView::Begin,
            LoadEvent::ExclusiveGranted => LoadEventView::ExclusiveGranted,
            LoadEvent::FileRead(data) => LoadEventView::FileRead(data@),
            LoadEvent::NoDocument => LoadEventView::NoDocument,
            LoadEvent::ReadFailed => LoadEventView::ReadFailed,
            LoadEvent::GuildFound(channel) => LoadEventView::GuildFound(*channel),
            LoadEvent::GuildMissing => LoadEventView::GuildMissing,
            LoadEvent::Written => LoadEventView::Written,
            LoadEvent::WriteFailed => LoadEventView::WriteFailed,
        }
    }
}

/// What a load asks of the outside next.
#[derive(Debug)]
pub enum LoadAction {
    /// Take the configuration from the cache; the load is over.
    UseCached,
    /// Obtain exclusive access to the cache.
    AcquireExclusive,
    /// Read the file of this name.
    ReadFile(String),
    /// Look the guild up.
    FindGuild,
    /// Store this document in the file of this name.
    WriteFile(String, GuildConfigData),
    /// Put this configuration into the cache and use it; the load is over.
    Install(GuildConfig),
    /// Give up with this error; the load is over.
    Fail(GuildConfigError),
}

/// Mathematical value of a [`LoadAction`].
pub ghost enum LoadActionView {
    UseCached,
    AcquireExclusive,
    ReadFile(Seq<char>),
    FindGuild,
    WriteFile(Seq<char>, GuildConfigDataView),
    Install(GuildConfigView),
    Fail(GuildConfigError),
}

impl View for LoadAction {
    type V = LoadActionView;

    open spec fn view(&self) -> LoadActionView {
        match self {
            LoadAction::UseCached => LoadActionView::UseCached,
            LoadAction::AcquireExclusive => LoadActionView::AcquireExclusive,
            LoadAction::ReadFile(name) => LoadActionView::ReadFile(name@),
            LoadAction::FindGuild => LoadActionView::FindGuild,
            LoadAction::WriteFile(name, data) => LoadActionView::WriteFile(name@, data@),
            LoadAction::Install(config) => LoadActionView::Install(config@),
            LoadAction::Fail(error) => LoadActionView::Fail(*error),
        }
    }
}

/// The channel at which a new guild's info channels start: its system
/// channel, or channel 0 where it has none.
pub open spec fn fallback_channel(system_channel: Option<ChannelId>) -> ChannelId {
    match system_channel {
        Some(channel) => channel,
        None => 0,
    }
}

/// One step of the load of the guild `guild_id`: the state that follows
/// `state` on `event`, and what is asked of the outside. `cached` says whether
/// the guild is in the cache when the event comes.
///
/// The cache is looked at first without exclusive access, and once more with
/// it: a guild that another load has put there in between is not loaded
/// again. Then the guild's file is read. Where there is none, or it holds
/// what is no configuration, the guild is looked up, its defaults are made
/// and stored, and only then put into the cache. A file that is there and
/// cannot be read is left as it is: the load ends with
/// [`GuildConfigError::Io`], as it does where the defaults cannot be stored.
/// An event that the state does not wait for ends the load with
/// [`GuildConfigError::OutOfTurn`].
pub open spec fn load_step(
    cached: bool,
    guild_id: GuildId,
    state: LoadState,
    event: LoadEventView,
) -> (LoadState, LoadActionView) {
    match (state, event) {
        (LoadState::Start, LoadEventView::Begin) => if cached {
            (LoadState::Finished, LoadActionView::UseCached)
        } else {
            (LoadState::AwaitingExclusive, LoadActionView::AcquireExclusive)
        },
        (LoadState::AwaitingExclusive, LoadEventView::ExclusiveGranted) => if cached {
            (LoadState::Finished, LoadActionView::UseCached)
        } else {
            (LoadState::AwaitingFile, LoadActionView::ReadFile(file_name_of(guild_id)))
        },
        (LoadState::AwaitingFile, LoadEventView::FileRead(data)) => if data.defect() is None {
            (LoadState::Finished, LoadActionView::Install(data.config(guild_id)))
        } else {
            (LoadState::AwaitingGuild, LoadActionView::FindGuild)
        },
        (LoadState::AwaitingFile, LoadEventView::NoDocument) => (
            LoadState::AwaitingGuild,
            LoadActionView::FindGuild,
        ),
        (LoadState::AwaitingFile, LoadEventView::ReadFailed) => (
            LoadState::Finished,
            LoadActionView::Fail(GuildConfigError::Io),
        ),
        (LoadState::AwaitingGuild, LoadEventView::GuildFound(system_channel)) => (
            LoadState::AwaitingWrite(fallback_channel(system_channel)),
            LoadActionView::WriteFile(
                file_name_of(guild_id),
                GuildConfigDataView::fresh(fallback_channel(system_channel)),
            ),
        ),
        (LoadState::AwaitingGuild, LoadEventView::GuildMissing) => (
            LoadState::Finished,
            LoadActionView::Fail(GuildConfigError::GuildCacheFailed(guild_id)),
        ),
        (LoadState::AwaitingWrite(channel), LoadEventView::Written) => (
            LoadState::Finished,
            LoadActionView::Install(GuildConfigView::fresh(guild_id, channel)),
        ),
        (LoadState::AwaitingWrite(_), LoadEventView::WriteFailed) => (
            LoadState::Finished,
            LoadActionView::Fail(GuildConfigError::Io),
        ),
        _ => (LoadState::Finished, LoadActionView::Fail(GuildConfigError::OutOfTurn)),
    }
}

/// The cache of guild configurations. `H` is what the program keeps for each
/// guild: the configuration itself, or a shared handle to it.
pub struct GuildConfigManager<H> {
    gc_cache: HashMap<GuildId, H>,
    config_path: String,
}

impl<H> GuildConfigManager<H> {
    /// What the cache holds for each guild.
    pub closed spec fn cache(&self) -> Map<GuildId, H> {
        self.gc_cache@
    }

    /// The directory in which the guilds' files are kept.
    pub closed spec fn path(&self) -> Seq<char> {
        self.config_path@
    }

    /// An empty cache over the directory `path`.
    pub fn new(path: String) -> (r: Self)
        ensures
            r.cache() == Map::<GuildId, H>::empty(),
            r.path() == path@,
    {
        GuildConfigManager { gc_cache: HashMap::new(), config_path: path }
    }

    /// The directory in which the guilds' files are kept.
    pub fn config_path(&self) -> (r: &String)
        ensures
            r@ == self.path(),
    {
        &self.config_path
    }

    /// Whether the guild `guild_id` is in the cache.
    pub fn is_cached(&self, guild_id: GuildId) -> (r: bool)
        ensures
            r == self.cache().contains_key(guild_id),
    {
        self.gc_cache.contains_key(&guild_id)
    }

    /// What the cache holds for the guild `guild_id`.
    pub fn get(&self, guild_id: GuildId) -> (r: Option<&H>)
        ensures
            match r {
                Some(handle) => self.cache().contains_key(guild_id) && *handle
                    == self.cache()[guild_id],
                None => !self.cache().contains_key(guild_id),
            },
    {
        self.gc_cache.get(&guild_id)
    }

    /// Puts `handle` into the cache for the guild `guild_id`, unless the cache
    /// holds something for that guild already: what is there stays. Says
    /// whether `handle` went in.
    pub fn insert(&mut self, guild_id: GuildId, handle: H) -> (inserted: bool)
        ensures
            final(self).path() == old(self).path(),
            inserted == !old(self).cache().contains_key(guild_id),
            inserted ==> final(self).cache() == old(self).cache().insert(guild_id, handle),
            !inserted ==> final(self).cache() == old(self).cache(),
    {
        if self.gc_cache.contains_key(&guild_id) {
            false
        } else {
            self.gc_cache.insert(guild_id, handle);
            true
        }
    }

    /// Makes one step of the load of the guild `guild_id`.
    pub fn step(&self, guild_id: GuildId, state: LoadState, event: LoadEvent) -> (r: (
        LoadState,
        LoadAction,
    ))
        ensures
            (r.0, r.1@) == load_step(
                self.cache().contains_key(guild_id),
                guild_id,
                state,
                event@,
            ),
    {
        match (state, event) {
            (LoadState::Start, LoadEvent::Begin) => {
                if self.is_cached(guild_id) {
                    (LoadState::Finished, LoadAction::UseCached)
                } else {
                    (LoadState::AwaitingExclusive, LoadAction::AcquireExclusive)
                }
            },
            (LoadState::AwaitingExclusive, LoadEvent::ExclusiveGranted) => {
                if self.is_cached(guild_id) {
                    (LoadState::Finished, LoadAction::UseCached)
                } else {
                    (LoadState::AwaitingFile, LoadAction::ReadFile(guild_file_name(guild_id)))
                }
            },
            (LoadState::AwaitingFile, LoadEvent::FileRead(data)) => {
                match GuildConfig::from_data(data, guild_id) {
                    Ok(config) => (LoadState::Finished, LoadAction::Install(config)),
                    Err(_) => (LoadState::AwaitingGuild, LoadAction::FindGuild),
                }
            },
            (LoadState::AwaitingFile, LoadEvent::NoDocument) => (
                LoadState::AwaitingGuild,
                LoadAction::FindGuild,
            ),
            (LoadState::AwaitingFile, LoadEvent::ReadFailed) => (
                LoadState::Finished,
                LoadAction::Fail(GuildConfigError::Io),
            ),
            (LoadState::AwaitingGuild, LoadEvent::GuildFound(system_channel)) => {
                let channel = match system_channel {
                    Some(channel) => channel,
                    None => 0,
                };
                (
                    LoadState::AwaitingWrite(channel),
                    LoadAction::WriteFile(guild_file_name(guild_id), GuildConfigData::new(channel)),
                )
            },
            (LoadState::AwaitingGuild, LoadEvent::GuildMissing) => (
                LoadState::Finished,
                LoadAction::Fail(GuildConfigError::GuildCacheFailed(guild_id)),
            ),
            (LoadState::AwaitingWrite(channel), LoadEvent::Written) => (
                LoadState::Finished,
                LoadAction::Install(GuildConfig::new(guild_id, Some(channel))),
            ),
            (LoadState::AwaitingWrite(_), LoadEvent::WriteFailed) => (
                LoadState::Finished,
                LoadAction::Fail(GuildConfigError::Io),
            ),
            _ => (LoadState::Finished, LoadAction::Fail(GuildConfigError::OutOfTurn)),
        }
    }
}

} // verus!
