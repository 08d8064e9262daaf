//! One guild's configuration and the edit transactions on it.

use crate::command_filter::{
    CommandDisability, CommandFilter, CommandFilterView, EditCommandFilter,
};
use crate::document::{CommandFilterData, DataError, GuildConfigData, GuildConfigDataView};
use crate::ids::{ChannelId, GuildId, MessageId, RoleId};
use crate::info_channel::{
    EditInfoChannel, EditInfoChannels, InfoChannelData, InfoChannelType, InfoChannels,
};
use crate::text::{decimal, decimal_string};
use crate::theorems::{
    lemma_filter_after_set, lemma_info_at, lemma_position_is_unique,
    lemma_reference_keeps_filters, lemma_stored_configuration_reads_back,
};
use vstd::prelude::*;
use vstd::string::*;

verus! {

/// Mathematical value of a [`GuildConfig`].
pub ghost struct GuildConfigView {
    pub guild_id: GuildId,
    /// The filters that exist, in the order in which they came to exist.
    pub command_filters: Seq<(Seq<char>, CommandFilterView)>,
    pub mod_list_messages: Seq<(Seq<char>, MessageId)>,
    pub message_link_lookup: bool,
    pub default_roles: Seq<RoleId>,
    pub info_channels: InfoChannels,
}

impl GuildConfigView {
    /// No command has two filters.
    pub open spec fn wf(self) -> bool {
        forall|i: int, j: int|
            0 <= i < j < self.command_filters.len() ==> self.command_filters[i].0
                != self.command_filters[j].0
    }

    /// Whether a filter exists for `name`.
    pub open spec fn has_filter(self, name: Seq<char>) -> bool {
        exists|i: int| 0 <= i < self.command_filters.len() && self.command_filters[i].0 == name
    }

    /// Where the filter for `name` stands, if one exists.
    pub open spec fn position(self, name: Seq<char>) -> int {
        choose|i: int| 0 <= i < self.command_filters.len() && self.command_filters[i].0 == name
    }

    /// The filter that holds for `name`: the one that exists, else the
    /// unrestricted one.
    pub open spec fn filter(self, name: Seq<char>) -> CommandFilterView {
        if self.has_filter(name) {
            self.command_filters[self.position(name)].1
        } else {
            CommandFilterView::unrestricted()
        }
    }

    /// This configuration with `filter` as the filter for `name`: in the place
    /// of the one that exists, else after all the others.
    pub open spec fn with_filter(
        self,
        name: Seq<char>,
        filter: CommandFilterView,
    ) -> GuildConfigView {
        GuildConfigView {
            command_filters: if self.has_filter(name) {
                self.command_filters.update(self.position(name), (name, filter))
            } else {
                self.command_filters.push((name, filter))
            },
            ..self
        }
    }

    /// The configuration of a guild that has settled nothing yet: every info
    /// channel at `default_channel` and switched off, link lookup on, the rest
    /// empty.
    pub open spec fn fresh(guild_id: GuildId, default_channel: ChannelId) -> GuildConfigView {
        GuildConfigView {
            guild_id,
            command_filters: Seq::empty(),
            mod_list_messages: Seq::empty(),
            message_link_lookup: true,
            default_roles: Seq::empty(),
            info_channels: InfoChannels::spec_all_at(default_channel),
        }
    }

    /// The document that stores this configuration: the info channels in the
    /// order welcome, log, mod-list; the command filters in their own order.
    pub open spec fn data(self) -> GuildConfigDataView {
        GuildConfigDataView {
            mod_list_messages: self.mod_list_messages,
            message_link_lookup: self.message_link_lookup,
            default_roles: self.default_roles,
            info_channels: seq![
                (InfoChannelType::Welcome.name(), self.info_channels.welcome),
                (InfoChannelType::Log.name(), self.info_channels.log),
                (InfoChannelType::ModList.name(), self.info_channels.mod_list),
            ],
            command_filters: Seq::new(
                self.command_filters.len(),
                |i: int| (self.command_filters[i].0, self.command_filters[i].1.encoded()),
            ),
        }
    }
}

impl GuildConfigDataView {
    /// What the document stores for the guild `guild_id` apart from the
    /// command filters.
    pub open spec fn settings(self, guild_id: GuildId) -> GuildConfigView {
        GuildConfigView {
            guild_id,
            command_filters: Seq::empty(),
            mod_list_messages: self.mod_list_messages,
            message_link_lookup: self.message_link_lookup,
            default_roles: self.default_roles,
            info_channels: self.info(),
        }
    }

    /// `config` after the first `count` of the stored command filters have
    /// been set in it, in their order: a command that is stored once more
    /// keeps its place and gets the later filter.
    pub open spec fn with_filters(self, config: GuildConfigView, count: int) -> GuildConfigView
        decreases count,
    {
        if count <= 0 {
            config
        } else {
            self.with_filters(config, count - 1).with_filter(
                self.command_filters[count - 1].0,
                self.command_filters[count - 1].1.decoded(),
            )
        }
    }

    /// The configuration of the guild `guild_id` that the document stores,
    /// where it breaks no rule. Of several entries for one info channel or
    /// one command, the last one holds.
    pub open spec fn config(self, guild_id: GuildId) -> GuildConfigView
        recommends
            self.defect() is None,
    {
        self.with_filters(self.settings(guild_id), self.command_filters.len() as int)
    }
}

/// The name of the file that stores the configuration of the guild `guild_id`.
pub open spec fn file_name_of(guild_id: GuildId) -> Seq<char> {
    "guild_"@ + decimal(guild_id as nat) + ".json"@
}

/// The name of the file that stores the configuration of the guild `guild_id`.
pub fn guild_file_name(guild_id: GuildId) -> (name: String)
    ensures
        name@ == file_name_of(guild_id),
{
    let mut name = String::from_str("guild_");
    let digits = decimal_string(guild_id);
    name.append(digits.as_str());
    name.append(".json");
    name
}

/// Changes asked of a guild's configuration; what is left unset stays as it is.
#[derive(Debug)]
pub struct EditGuildConfig {
    pub default_roles: Option<Vec<RoleId>>,
    pub info_channels: EditInfoChannels,
}

/// Mathematical value of an [`EditGuildConfig`].
pub ghost struct EditGuildConfigView {
    pub default_roles: Option<Seq<RoleId>>,
    pub info_channels: EditInfoChannels,
}

impl View for EditGuildConfig {
    type V = EditGuildConfigView;

    open spec fn view(&self) -> EditGuildConfigView {
        EditGuildConfigView {
            default_roles: match self.default_roles {
                Some(roles) => Some(roles@),
                None => None,
            },
            info_channels: self.info_channels,
        }
    }
}

impl EditGuildConfigView {
    /// Whether nothing is asked: no default roles are given, and no info
    /// channel has a state or a channel to set.
    pub open spec fn is_empty(self) -> bool {
        self.default_roles is None && self.info_channels.spec_is_empty()
    }

    /// The configuration that results from making the changes to `config`.
    /// The default roles are replaced as a whole. Each info channel that has
    /// changes asked of it gets them. Where the mod-list channel is among
    /// those, the mod-list messages are forgotten, whatever they were and
    /// whatever the state or channel is that the request sets; a request that
    /// sets neither for the mod-list channel keeps them.
    pub open spec fn apply(self, config: GuildConfigView) -> GuildConfigView {
        GuildConfigView {
            default_roles: match self.default_roles {
                Some(roles) => roles,
                None => config.default_roles,
            },
            info_channels: self.info_channels.spec_apply(config.info_channels),
            mod_list_messages: if self.info_channels.spec_changes(InfoChannelType::ModList) {
                Seq::empty()
            } else {
                config.mod_list_messages
            },
            ..config
        }
    }
}

impl Default for EditGuildConfig {
    fn default() -> (r: Self)
        ensures
            r@ == (EditGuildConfigView {
                default_roles: None,
                info_channels: EditInfoChannels { welcome: None, log: None, mod_list: None },
            }),
    {
        EditGuildConfig { default_roles: None, info_channels: EditInfoChannels::default() }
    }
}

impl EditGuildConfig {
    /// Asks for another list of default roles.
    pub fn default_roles(&mut self, default_roles: Vec<RoleId>) -> (ret: &mut Self)
        ensures
            ret@ == (EditGuildConfigView {
                default_roles: Some(default_roles@),
                info_channels: old(self)@.info_channels,
            }),
            *final(self) == *final(ret),
    {
        self.default_roles = Some(default_roles);
        self
    }

    /// Asks `edit` of the info channel of type `ic_type`, in place of what was
    /// asked of it before.
    pub fn info_channel(&mut self, ic_type: InfoChannelType, edit: EditInfoChannel) -> (ret:
        &mut Self)
        ensures
            ret@ == (EditGuildConfigView {
                default_roles: old(self)@.default_roles,
                info_channels: old(self)@.info_channels.spec_with(ic_type, edit),
            }),
            *final(self) == *final(ret),
    {
        self.info_channels.insert(ic_type, edit);
        self
    }

    /// [`Self::info_channel`] for the welcome channel.
    pub fn welcome_info_channel(&mut self, edit: EditInfoChannel) -> (ret: &mut Self)
        ensures
            ret@ == (EditGuildConfigView {
                default_roles: old(self)@.default_roles,
                info_channels: old(self)@.info_channels.spec_with(InfoChannelType::Welcome, edit),
            }),
            *final(self) == *final(ret),
    {
        self.info_channel(InfoChannelType::Welcome, edit)
    }

    /// [`Self::info_channel`] for the log channel.
    pub fn log_info_channel(&mut self, edit: EditInfoChannel) -> (ret: &mut Self)
        ensures
            ret@ == (EditGuildConfigView {
                default_roles: old(self)@.default_roles,
                info_channels: old(self)@.info_channels.spec_with(InfoChannelType::Log, edit),
            }),
            *final(self) == *final(ret),
    {
        self.info_channel(InfoChannelType::Log, edit)
    }

    /// [`Self::info_channel`] for the mod-list channel.
    pub fn modlist_info_channel(&mut self, edit: EditInfoChannel) -> (ret: &mut Self)
        ensures
            ret@ == (EditGuildConfigView {
                default_roles: old(self)@.default_roles,
                info_channels: old(self)@.info_channels.spec_with(InfoChannelType::ModList, edit),
            }),
            *final(self) == *final(ret),
    {
        self.info_channel(InfoChannelType::ModList, edit)
    }

    /// Whether nothing is asked.
    pub fn is_empty(&self) -> (r: bool)
        ensures
            r == self@.is_empty(),
    {
        self.default_roles.is_none() && self.info_channels.is_empty()
    }
}

/// The names in the value of a list of entries are the values of the names in
/// the list.
proof fn lemma_names_of_entries<T: DeepView>(entries: Vec<(String, T)>)
    ensures
        forall|i: int|
            0 <= i < entries.len() ==> (#[trigger] entries.deep_view()[i]).0 == entries@[i].0@,
        forall|i: int|
            0 <= i < entries.len() ==> (#[trigger] entries@[i]).0@ == entries.deep_view()[i].0,
{
}

/// Whether every info channel stands under the name of a type.
fn info_names_known(entries: &Vec<(String, InfoChannelData)>) -> (known: bool)
    ensures
        known == (forall|i: int|
            0 <= i < entries.len() ==> InfoChannelType::named((#[trigger] entries@[i]).0@)
                is Some),
{
    let mut i: usize = 0;
    while i < entries.len()
        invariant
            i <= entries.len(),
            forall|a: int|
                0 <= a < i ==> InfoChannelType::named((#[trigger] entries@[a]).0@) is Some,
        decreases entries.len() - i,
    {
        if InfoChannelType::from_name(entries[i].0.as_str()).is_none() {
            assert(InfoChannelType::named(entries@[i as int].0@) is None);
            return false;
        }
        i += 1;
    }
    true
}

/// What stands last under the name of `ic_type`, if anything stands under
/// it.
fn find_info_channel(entries: &Vec<(String, InfoChannelData)>, ic_type: InfoChannelType) -> (r:
    Option<InfoChannelData>)
    ensures
        r is Some <==> exists|i: int|
            0 <= i < entries.len() && (#[trigger] entries@[i]).0@ == ic_type.name(),
        r matches Some(data) ==> exists|at: int|
            0 <= at < entries.len() && (#[trigger] entries@[at]).0@ == ic_type.name()
                && entries@[at].1 == data && forall|j: int|
                at < j < entries.len() ==> (#[trigger] entries@[j]).0@ != ic_type.name(),
{
    let name = String::from_str(ic_type.as_ref());
    let mut found: Option<InfoChannelData> = None;
    let ghost mut last: int = 0;
    let mut i: usize = 0;
    while i < entries.len()
        invariant
            i <= entries.len(),
            name@ == ic_type.name(),
            found is None ==> forall|a: int|
                0 <= a < i ==> (#[trigger] entries@[a]).0@ != ic_type.name(),
            found matches Some(data) ==> 0 <= last < i && entries@[last].0@ == ic_type.name()
                && entries@[last].1 == data && forall|j: int|
                last < j < i ==> (#[trigger] entries@[j]).0@ != ic_type.name(),
        decreases entries.len() - i,
    {
        if entries[i].0 == name {
            found = Some(entries[i].1);
            proof {
                last = i as int;
            }
        }
        i += 1;
    }
    found
}

/// Whether every command filter has the code of a restriction.
fn filter_types_known(entries: &Vec<(String, CommandFilterData)>) -> (known: bool)
    ensures
        known == (forall|i: int|
            0 <= i < entries.len() ==> CommandDisability::coded(
                (#[trigger] entries@[i]).1.filter_type,
            ) is Some),
{
    let mut i: usize = 0;
    while i < entries.len()
        invariant
            i <= entries.len(),
            forall|a: int|
                0 <= a < i ==> CommandDisability::coded((#[trigger] entries@[a]).1.filter_type)
                    is Some,
        decreases entries.len() - i,
    {
        if CommandDisability::from_code(entries[i].1.filter_type).is_none() {
            assert(CommandDisability::coded(entries@[i as int].1.filter_type) is None);
            return false;
        }
        i += 1;
    }
    true
}

/// The stored form of `filters`.
fn encode_filters(filters: &Vec<(String, CommandFilter)>) -> (entries: Vec<
    (String, CommandFilterData),
>)
    ensures
        entries.deep_view() == Seq::new(
            filters.len() as nat,
            |i: int| (filters@[i].0@, filters@[i].1@.encoded()),
        ),
{
    let mut entries: Vec<(String, CommandFilterData)> = Vec::new();
    let mut i: usize = 0;
    while i < filters.len()
        invariant
            i <= filters.len(),
            entries.len() == i,
            forall|a: int|
                0 <= a < i ==> (#[trigger] entries@[a]).0@ == filters@[a].0@ && entries@[a].1@
                    == filters@[a].1@.encoded(),
        decreases filters.len() - i,
    {
        let data = CommandFilterData {
            filter_type: filters[i].1.filter_type().to_code(),
            channels: filters[i].1.filter_list().clone(),
        };
        entries.push((filters[i].0.clone(), data));
        i += 1;
    }
    assert(entries.deep_view() =~= Seq::new(
        filters.len() as nat,
        |i: int| (filters@[i].0@, filters@[i].1@.encoded()),
    ));
    entries
}

/// A copy of `messages`.
fn copy_messages(messages: &Vec<(String, MessageId)>) -> (copy: Vec<(String, MessageId)>)
    ensures
        copy.deep_view() == messages.deep_view(),
{
    let mut copy: Vec<(String, MessageId)> = Vec::new();
    let mut i: usize = 0;
    while i < messages.len()
        invariant
            i <= messages.len(),
            copy.len() == i,
            forall|a: int|
                0 <= a < i ==> (#[trigger] copy@[a]).0@ == messages@[a].0@ && copy@[a].1
                    == messages@[a].1,
        decreases messages.len() - i,
    {
        copy.push((messages[i].0.clone(), messages[i].1));
        i += 1;
    }
    assert(copy.deep_view() =~= messages.deep_view());
    copy
}

/// One guild's configuration.
#[derive(Debug)]
pub struct GuildConfig {
    guild_id: GuildId,
    command_filters: Vec<(String, CommandFilter)>,
    mod_list_messages: Vec<(String, MessageId)>,
    message_link_lookup: bool,
    default_roles: Vec<RoleId>,
    info_channels: InfoChannels,
}

impl View for GuildConfig {
    type V = GuildConfigView;

    closed spec fn view(&self) -> GuildConfigView {
        GuildConfigView {
            guild_id: self.guild_id,
            command_filters: self.command_filters.deep_view(),
            mod_list_messages: self.mod_list_messages.deep_view(),
            message_link_lookup: self.message_link_lookup,
            default_roles: self.default_roles@,
            info_channels: self.info_channels,
        }
    }
}

impl GuildConfig {
    /// The invariant of the type: no command has two filters.
    pub open spec fn wf(&self) -> bool {
        self@.wf()
    }

    /// Where the filter for `name` stands, if one exists.
    fn find_filter(&self, name: &String) -> (r: Option<usize>)
        requires
            self.wf(),
        ensures
            r is Some <==> self@.has_filter(name@),
            r matches Some(i) ==> i == self@.position(name@),
    {
        let mut i: usize = 0;
        while i < self.command_filters.len()
            invariant
                self.wf(),
                i <= self.command_filters.len(),
                forall|j: int| 0 <= j < i ==> self@.command_filters[j].0 != name@,
            decreases self.command_filters.len() - i,
        {
            if self.command_filters[i].0 == *name {
                proof {
                    lemma_position_is_unique(self@, name@, i as int);
                }
                return Some(i);
            }
            i += 1;
        }
        None
    }

    /// The configuration of a guild that has settled nothing yet. Its info
    /// channels start at the guild's system channel, or at channel 0 where it
    /// has none.
    pub fn new(guild_id: GuildId, system_channel: Option<ChannelId>) -> (r: Self)
        ensures
            r.wf(),
            r@ == GuildConfigView::fresh(
                guild_id,
                match system_channel {
                    Some(channel) => channel,
                    None => 0,
                },
            ),
    {
        let default_channel = match system_channel {
            Some(channel) => channel,
            None => 0,
        };
        let r = GuildConfig {
            guild_id,
            command_filters: Vec::new(),
            mod_list_messages: Vec::new(),
            message_link_lookup: true,
            default_roles: Vec::new(),
            info_channels: InfoChannels::all_at(default_channel),
        };
        assert(r@.command_filters =~= Seq::empty());
        assert(r@.mod_list_messages =~= Seq::empty());
        r
    }

    /// The configuration of the guild `guild_id` that `data` stores. A
    /// document that breaks a rule is refused with the first rule it breaks.
    /// Of several entries for one info channel or one command, the last one
    /// holds.
    pub fn from_data(data: GuildConfigData, guild_id: GuildId) -> (r: Result<Self, DataError>)
        ensures
            match r {
                Ok(config) => data@.defect() is None && config.wf() && config@ == data@.config(
                    guild_id,
                ),
                Err(error) => data@.defect() == Some(error),
            },
    {
        let ghost view = data@;
        let GuildConfigData {
            mod_list_messages,
            message_link_lookup,
            default_roles,
            info_channels: stored_channels,
            command_filters: stored_filters,
        } = data;
        proof {
            lemma_names_of_entries(stored_channels);
            lemma_names_of_entries(stored_filters);
        }
        if !info_names_known(&stored_channels) {
            return Err(DataError::UnknownInfoChannel);
        }
        let welcome = find_info_channel(&stored_channels, InfoChannelType::Welcome);
        let log = find_info_channel(&stored_channels, InfoChannelType::Log);
        let mod_list = find_info_channel(&stored_channels, InfoChannelType::ModList);
        proof {
            Self::lemma_found(stored_channels, view, InfoChannelType::Welcome, welcome);
            Self::lemma_found(stored_channels, view, InfoChannelType::Log, log);
            Self::lemma_found(stored_channels, view, InfoChannelType::ModList, mod_list);
        }
        let info_channels = match (welcome, log, mod_list) {
            (Some(welcome), Some(log), Some(mod_list)) => InfoChannels { welcome, log, mod_list },
            _ => {
                return Err(DataError::MissingInfoChannel);
            },
        };
        if !filter_types_known(&stored_filters) {
            return Err(DataError::UnknownFilterType);
        }
        let mut config = GuildConfig {
            guild_id,
            command_filters: Vec::new(),
            mod_list_messages,
            message_link_lookup,
            default_roles,
            info_channels,
        };
        assert(config@.command_filters =~= Seq::empty());
        let mut i: usize = 0;
        while i < stored_filters.len()
            invariant
                i <= stored_filters.len(),
                view.command_filters == stored_filters.deep_view(),
                view.filter_types_known(),
                config.wf(),
                config@ == view.with_filters(view.settings(guild_id), i as int),
            decreases stored_filters.len() - i,
        {
            assert(view.command_filters[i as int].0 == stored_filters@[i as int].0@);
            assert(view.command_filters[i as int].1 == stored_filters@[i as int].1@);
            let code = stored_filters[i].1.filter_type;
            let filter_type = CommandDisability::from_code(code).unwrap();
            let filter = CommandFilter::new(filter_type, stored_filters[i].1.channels.clone());
            config.put_filter(stored_filters[i].0.clone(), filter);
            i += 1;
        }
        Ok(config)
    }

    proof fn lemma_found(
        entries: Vec<(String, InfoChannelData)>,
        view: GuildConfigDataView,
        ic_type: InfoChannelType,
        found: Option<InfoChannelData>,
    )
        requires
            view.info_channels == entries.deep_view(),
            found is Some <==> exists|i: int|
                0 <= i < entries.len() && (#[trigger] entries@[i]).0@ == ic_type.name(),
            found matches Some(data) ==> exists|at: int|
                0 <= at < entries.len() && (#[trigger] entries@[at]).0@ == ic_type.name()
                    && entries@[at].1 == data && forall|j: int|
                    at < j < entries.len() ==> (#[trigger] entries@[j]).0@ != ic_type.name(),
        ensures
            found is Some <==> view.has_info_channel(ic_type),
            found matches Some(data) ==> view.info_channel(ic_type) == data,
    {
        if found is Some {
            let at = choose|at: int|
                0 <= at < entries.len() && (#[trigger] entries@[at]).0@ == ic_type.name()
                    && entries@[at].1 == found.unwrap() && forall|j: int|
                    at < j < entries.len() ==> (#[trigger] entries@[j]).0@ != ic_type.name();
            assert(view.info_channels[at].0 == ic_type.name());
            assert forall|j: int| at < j < view.info_channels.len() implies (
            #[trigger] view.info_channels[j]).0 != ic_type.name() by {
                assert(view.info_channels[j].0 == entries@[j].0@);
            }
            lemma_info_at(view, ic_type, at);
        } else {
            if view.has_info_channel(ic_type) {
                let j = choose|j: int|
                    0 <= j < view.info_channels.len() && (#[trigger] view.info_channels[j]).0
                        == ic_type.name();
                assert(entries@[j].0@ == ic_type.name());
            }
        }
    }

    /// The document that stores this configuration. It breaks no rule, and
    /// read again it gives this configuration.
    pub fn to_data(&self) -> (data: GuildConfigData)
        ensures
            data@ == self@.data(),
            self.wf() ==> data@.defect() is None && data@.config(self@.guild_id) == self@,
    {
        proof {
            if self.wf() {
                lemma_stored_configuration_reads_back(self@);
            }
        }
        let mut info_channels: Vec<(String, InfoChannelData)> = Vec::new();
        info_channels.push(
            (String::from_str(InfoChannelType::Welcome.as_ref()), self.info_channels.welcome),
        );
        info_channels.push(
            (String::from_str(InfoChannelType::Log.as_ref()), self.info_channels.log),
        );
        info_channels.push(
            (String::from_str(InfoChannelType::ModList.as_ref()), self.info_channels.mod_list),
        );
        let data = GuildConfigData {
            mod_list_messages: copy_messages(&self.mod_list_messages),
            message_link_lookup: self.message_link_lookup,
            default_roles: self.default_roles.clone(),
            info_channels,
            command_filters: encode_filters(&self.command_filters),
        };
        assert(data@.info_channels =~= self@.data().info_channels);
        assert(data@.command_filters =~= self@.data().command_filters);
        data
    }

    /// Makes the changes that `request` asks for, all at once. A request that
    /// asks nothing changes nothing and leaves nothing to store, also where it
    /// names info channels without a state or a channel to set; after any
    /// other the result is the document to store.
    pub fn edit(&mut self, request: EditGuildConfig) -> (r: Option<GuildConfigData>)
        requires
            old(self).wf(),
        ensures
            final(self).wf(),
            final(self)@ == request@.apply(old(self)@),
            request@.is_empty() ==> r is None && final(self)@ == old(self)@,
            !request@.is_empty() ==> r is Some && r.unwrap()@ == final(self)@.data(),
            final(self)@.mod_list_messages == if request@.info_channels.spec_changes(
                InfoChannelType::ModList,
            ) {
                Seq::<(Seq<char>, MessageId)>::empty()
            } else {
                old(self)@.mod_list_messages
            },
    {
        if request.is_empty() {
            assert(request@.apply(self@) == self@);
            return None;
        }
        let EditGuildConfig { default_roles, info_channels } = request;
        if let Some(roles) = default_roles {
            self.default_roles = roles;
        }
        self.info_channels = info_channels.apply(self.info_channels);
        if info_channels.changes(InfoChannelType::ModList) {
            self.mod_list_messages.clear();
            assert(self@.mod_list_messages =~= Seq::empty());
        }
        assert(self@ == request@.apply(old(self)@));
        Some(self.to_data())
    }

    /// Makes the changes that `request` asks for to the filter of the command
    /// `command_name`, which starts out unrestricted where it does not exist
    /// yet. A request that asks nothing changes nothing, creates no filter and
    /// leaves nothing to store; after any other the result is the document to
    /// store. The filters of the other commands stay as they are.
    pub fn edit_command_filter(&mut self, command_name: &str, request: EditCommandFilter) -> (r:
        Option<GuildConfigData>)
        requires
            old(self).wf(),
        ensures
            final(self).wf(),
            request@.is_empty() ==> r is None && final(self)@ == old(self)@,
            !request@.is_empty() ==> r is Some && r.unwrap()@ == final(self)@.data()
                && final(self)@ == old(self)@.with_filter(
                command_name@,
                request@.apply(old(self)@.filter(command_name@)),
            ),
            final(self)@.filter(command_name@) == request@.apply(
                old(self)@.filter(command_name@),
            ),
            forall|other: Seq<char>|
                other != command_name@ ==> #[trigger] final(self)@.filter(other) == old(
                    self,
                )@.filter(other),
    {
        if request.is_empty() {
            return None;
        }
        let name = String::from_str(command_name);
        let mut filter = match self.find_filter(&name) {
            Some(i) => self.command_filters[i].1.clone(),
            None => CommandFilter::default(),
        };
        request.apply(&mut filter);
        proof {
            lemma_filter_after_set(self@, name@, filter@, name@);
            assert forall|other: Seq<char>| other != name@ implies #[trigger] self@.with_filter(
                name@,
                filter@,
            ).filter(other) == self@.filter(other) by {
                lemma_filter_after_set(self@, name@, filter@, other);
            }
        }
        self.put_filter(name, filter);
        Some(self.to_data())
    }

    /// Makes `filter` the filter of the command `name`.
    fn put_filter(&mut self, name: String, filter: CommandFilter)
        requires
            old(self).wf(),
        ensures
            final(self).wf(),
            final(self)@ == old(self)@.with_filter(name@, filter@),
    {
        match self.find_filter(&name) {
            Some(i) => {
                self.command_filters.set(i, (name, filter));
                assert(self@.command_filters =~= old(self)@.command_filters.update(
                    i as int,
                    (name@, filter@),
                ));
                assert(self.wf()) by {
                    assert forall|a: int, b: int|
                        0 <= a < b < self@.command_filters.len() implies self@.command_filters[a].0
                        != self@.command_filters[b].0 by {
                        assert(self@.command_filters[a].0 == old(self)@.command_filters[a].0);
                        assert(self@.command_filters[b].0 == old(self)@.command_filters[b].0);
                    }
                }
            },
            None => {
                self.command_filters.push((name, filter));
                assert(self@.command_filters =~= old(self)@.command_filters.push(
                    (name@, filter@),
                ));
            },
        }
    }

    /// The guild whose configuration this is.
    pub fn guild_id(&self) -> (r: GuildId)
        ensures
            r == self@.guild_id,
    {
        self.guild_id
    }

    /// The name of the file that stores this configuration.
    pub fn file_name(&self) -> (name: String)
        ensures
            name@ == file_name_of(self@.guild_id),
    {
        guild_file_name(self.guild_id)
    }

    /// The roles that new members get.
    pub fn default_roles(&self) -> (r: &Vec<RoleId>)
        ensures
            r@ == self@.default_roles,
    {
        &self.default_roles
    }

    /// The settings of the info channel of type `info_channel`.
    pub fn info_channels_data(&self, info_channel: InfoChannelType) -> (r: InfoChannelData)
        ensures
            r == self@.info_channels.spec_get(info_channel),
    {
        self.info_channels.get(info_channel)
    }

    /// The settings of all the info channels.
    pub fn info_channels(&self) -> (r: InfoChannels)
        ensures
            r == self@.info_channels,
    {
        self.info_channels
    }

    /// The command filters that exist, each under the name of its command, in
    /// the order in which they came to exist.
    pub fn command_filters(&self) -> (r: &Vec<(String, CommandFilter)>)
        ensures
            r.deep_view() == self@.command_filters,
    {
        &self.command_filters
    }

    /// Whether links to messages are looked up.
    pub fn message_link_lookup(&self) -> (r: bool)
        ensures
            r == self@.message_link_lookup,
    {
        self.message_link_lookup
    }

    /// Switches the lookup of links to messages on or off.
    pub fn set_message_link_lookup(&mut self, lookup: bool)
        ensures
            final(self)@ == (GuildConfigView { message_link_lookup: lookup, ..old(self)@ }),
    {
        self.message_link_lookup = lookup;
    }

    /// The messages that show the mod list, each with the name of its mod.
    pub fn mod_list_messages(&self) -> (r: &Vec<(String, MessageId)>)
        ensures
            r.deep_view() == self@.mod_list_messages,
    {
        &self.mod_list_messages
    }

    /// Replaces the messages that show the mod list.
    pub fn set_mod_list_messages(&mut self, messages: Vec<(String, MessageId)>)
        ensures
            final(self)@ == (GuildConfigView {
                mod_list_messages: messages.deep_view(),
                ..old(self)@
            }),
    {
        self.mod_list_messages = messages;
    }

    /// The filter of the command `command_name`. A command that has none yet
    /// gets the unrestricted one, which exists from then on. No command's
    /// filter changes.
    pub fn get_command_filter(&mut self, command_name: &str) -> (r: CommandFilter)
        requires
            old(self).wf(),
        ensures
            r@ == old(self)@.filter(command_name@),
            final(self)@ == old(self)@.with_filter(
                command_name@,
                old(self)@.filter(command_name@),
            ),
            final(self).wf(),
            final(self)@.has_filter(command_name@),
            forall|other: Seq<char>|
                #[trigger] final(self)@.filter(other) == old(self)@.filter(other),
    {
        let name = String::from_str(command_name);
        proof {
            let kept = self@.filter(name@);
            lemma_filter_after_set(self@, name@, kept, name@);
            assert forall|other: Seq<char>| #[trigger]
                self@.with_filter(name@, kept).filter(other) == self@.filter(other) by {
                lemma_reference_keeps_filters(self@, name@, other);
            }
        }
        match self.find_filter(&name) {
            Some(i) => {
                let r = self.command_filters[i].1.clone();
                assert(self@.command_filters =~= old(self)@.command_filters.update(
                    i as int,
                    (name@, r@),
                ));
                r
            },
            None => {
                self.command_filters.push((name, CommandFilter::default()));
                assert(self@.command_filters =~= old(self)@.command_filters.push(
                    (command_name@, CommandFilterView::unrestricted()),
                ));
                CommandFilter::default()
            },
        }
    }
}

} // verus!
