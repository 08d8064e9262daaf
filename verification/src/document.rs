//! The stored form of a guild's configuration: plain values, shaped like the
//! document that is kept on disk, and the rules a document has to meet.

use crate::command_filter::{CommandDisability, CommandFilterView};
use crate::ids::{ChannelId, MessageId, RoleId};
use crate::info_channel::{InfoChannelData, InfoChannelType, InfoChannels};
use crate::theorems::lemma_fresh_document_stores_fresh_configuration;
use vstd::prelude::*;
use vstd::string::*;

verus! {

/// A command filter as it is stored: the restriction by its code.
#[derive(Debug, Clone, PartialEq, Eq)]
pub struct CommandFilterData {
    pub filter_type: u8,
    pub channels: Vec<ChannelId>,
}

/// Mathematical value of a [`CommandFilterData`].
pub ghost struct CommandFilterDataView {
    pub filter_type: u8,
    pub channels: Seq<ChannelId>,
}

impl View for CommandFilterData {
    type V = CommandFilterDataView;

    open spec fn view(&self) -> CommandFilterDataView {
        CommandFilterDataView { filter_type: self.filter_type, channels: self.channels@ }
    }
}

impl DeepView for CommandFilterData {
    type V = CommandFilterDataView;

    open spec fn deep_view(&self) -> CommandFilterDataView {
        self@
    }
}

impl CommandFilterDataView {
    /// The filter that this stored form stands for, where its code is known.
    pub open spec fn decoded(self) -> CommandFilterView
        recommends
            CommandDisability::coded(self.filter_type) is Some,
    {
        CommandFilterView {
            filter_type: CommandDisability::coded(self.filter_type).unwrap(),
            channels: self.channels,
        }
    }
}

impl CommandFilterView {
    /// The stored form of this filter.
    pub open spec fn encoded(self) -> CommandFilterDataView {
        CommandFilterDataView { filter_type: self.filter_type.code(), channels: self.channels }
    }
}

/// Why a document cannot be a guild's configuration.
#[derive(Debug, Clone, Copy, PartialEq, Eq, Structural)]
pub enum DataError {
    /// An info channel is stored under a name that stands for no type.
    UnknownInfoChannel,
    /// An info channel type has no entry.
    MissingInfoChannel,
    /// A command filter has a code that stands for no restriction.
    UnknownFilterType,
}

/// A guild's configuration as it is stored.
#[derive(Debug, Clone, PartialEq, Eq)]
pub struct GuildConfigData {
    pub mod_list_messages: Vec<(String, MessageId)>,
    pub message_link_lookup: bool,
    pub default_roles: Vec<RoleId>,
    /// The info channels, each under the name of its type. Of several under
    /// one name, the last one holds.
    pub info_channels: Vec<(String, InfoChannelData)>,
    /// The command filters, each under the name of its command. Of several
    /// under one name, the last one holds.
    pub command_filters: Vec<(String, CommandFilterData)>,
}

/// Mathematical value of a [`GuildConfigData`].
pub ghost struct GuildConfigDataView {
    pub mod_list_messages: Seq<(Seq<char>, MessageId)>,
    pub message_link_lookup: bool,
    pub default_roles: Seq<RoleId>,
    pub info_channels: Seq<(Seq<char>, InfoChannelData)>,
    pub command_filters: Seq<(Seq<char>, CommandFilterDataView)>,
}

impl View for GuildConfigData {
    type V = GuildConfigDataView;

    open spec fn view(&self) -> GuildConfigDataView {
        GuildConfigDataView {
            mod_list_messages: self.mod_list_messages.deep_view(),
            message_link_lookup: self.message_link_lookup,
            default_roles: self.default_roles@,
            info_channels: self.info_channels.deep_view(),
            command_filters: self.command_filters.deep_view(),
        }
    }
}

impl GuildConfigDataView {
    /// Every info channel is stored under the name of a type.
    pub open spec fn info_names_known(self) -> bool {
        forall|i: int|
            0 <= i < self.info_channels.len() ==> InfoChannelType::named(
                (#[trigger] self.info_channels[i]).0,
            ) is Some
    }

    /// Whether an info channel is stored for `ic_type`.
    pub open spec fn has_info_channel(self, ic_type: InfoChannelType) -> bool {
        exists|i: int|
            0 <= i < self.info_channels.len() && (#[trigger] self.info_channels[i]).0
                == ic_type.name()
    }

    /// Every info channel type has an entry.
    pub open spec fn info_complete(self) -> bool {
        &&& self.has_info_channel(InfoChannelType::Welcome)
        &&& self.has_info_channel(InfoChannelType::Log)
        &&& self.has_info_channel(InfoChannelType::ModList)
    }

    /// Whether the entry at `at` is the last one that is stored for
    /// `ic_type`.
    pub open spec fn is_last_for(self, ic_type: InfoChannelType, at: int) -> bool {
        &&& 0 <= at < self.info_channels.len()
        &&& self.info_channels[at].0 == ic_type.name()
        &&& forall|j: int|
            at < j < self.info_channels.len() ==> (#[trigger] self.info_channels[j]).0
                != ic_type.name()
    }

    /// What is stored for `ic_type`, where it has an entry: of several
    /// entries, the last one.
    pub open spec fn info_channel(self, ic_type: InfoChannelType) -> InfoChannelData
        recommends
            self.has_info_channel(ic_type),
    {
        let at = choose|at: int| self.is_last_for(ic_type, at);
        self.info_channels[at].1
    }

    /// Every command filter has the code of a restriction.
    pub open spec fn filter_types_known(self) -> bool {
        forall|i: int|
            0 <= i < self.command_filters.len() ==> CommandDisability::coded(
                (#[trigger] self.command_filters[i]).1.filter_type,
            ) is Some
    }

    /// No two command filters are stored for one command. A document need
    /// not be so; a document that is written is.
    pub open spec fn command_names_distinct(self) -> bool {
        forall|i: int, j: int|
            0 <= i < j < self.command_filters.len() ==> (#[trigger] self.command_filters[i]).0 != (
            #[trigger] self.command_filters[j]).0
    }

    /// The first rule that the document breaks, in the order of
    /// [`DataError`]'s variants; `None` where it breaks none.
    pub open spec fn defect(self) -> Option<DataError> {
        if !self.info_names_known() {
            Some(DataError::UnknownInfoChannel)
        } else if !self.info_complete() {
            Some(DataError::MissingInfoChannel)
        } else if !self.filter_types_known() {
            Some(DataError::UnknownFilterType)
        } else {
            None
        }
    }

    /// The info channels that the document stores, where it breaks no rule.
    pub open spec fn info(self) -> InfoChannels {
        InfoChannels {
            welcome: self.info_channel(InfoChannelType::Welcome),
            log: self.info_channel(InfoChannelType::Log),
            mod_list: self.info_channel(InfoChannelType::ModList),
        }
    }

    /// Where the last of the first `count` command filters stands that is
    /// stored for the command `name`, if there is one.
    pub open spec fn last_filter_for(self, name: Seq<char>, count: int) -> Option<int>
        decreases count,
    {
        if count <= 0 {
            None
        } else if self.command_filters[count - 1].0 == name {
            Some(count - 1)
        } else {
            self.last_filter_for(name, count - 1)
        }
    }

    /// The document of a guild that has settled nothing yet: every info channel
    /// at `default_channel` and switched off, link lookup on, the rest empty.
    pub open spec fn fresh(default_channel: ChannelId) -> GuildConfigDataView {
        let data = InfoChannelData { channel_id: default_channel, enabled: false };
        GuildConfigDataView {
            mod_list_messages: Seq::empty(),
            message_link_lookup: true,
            default_roles: Seq::empty(),
            info_channels: seq![
                (InfoChannelType::Welcome.name(), data),
                (InfoChannelType::Log.name(), data),
                (InfoChannelType::ModList.name(), data),
            ],
            command_filters: Seq::empty(),
        }
    }
}

impl GuildConfigData {
    /// The document of a guild that has settled nothing yet. It breaks no
    /// rule.
    pub fn new(default_channel: ChannelId) -> (r: Self)
        ensures
            r@ == GuildConfigDataView::fresh(default_channel),
            r@.defect() is None,
    {
        proof {
            lemma_fresh_document_stores_fresh_configuration(0, default_channel);
        }
        let data = InfoChannelData { channel_id: default_channel, enabled: false };
        let mut info_channels: Vec<(String, InfoChannelData)> = Vec::new();
        info_channels.push((String::from_str(InfoChannelType::Welcome.as_ref()), data));
        info_channels.push((String::from_str(InfoChannelType::Log.as_ref()), data));
        info_channels.push((String::from_str(InfoChannelType::ModList.as_ref()), data));
        let r = GuildConfigData {
            mod_list_messages: Vec::new(),
            message_link_lookup: true,
            default_roles: Vec::new(),
            info_channels,
            command_filters: Vec::new(),
        };
        assert(r@.info_channels =~= GuildConfigDataView::fresh(default_channel).info_channels);
        assert(r@.mod_list_messages =~= Seq::empty());
        assert(r@.command_filters =~= Seq::empty());
        r
    }
}

} // verus!
