//! Info channels: the channels a guild sets aside for automated messages.

use crate::ids::ChannelId;
use vstd::prelude::*;
use vstd::string::*;

verus! {

/// The purposes an info channel can serve.
#[derive(Debug, Clone, Copy, PartialEq, Eq, Structural, Hash)]
pub enum InfoChannelType {
    Welcome,
    Log,
    ModList,
}

/// A name that stands for no info channel type.
#[derive(Debug, Clone, Copy, PartialEq, Eq, Structural)]
pub struct UnknownInfoChannel;

impl InfoChannelType {
    /// The name under which the type is written in commands and documents.
    pub open spec fn name(self) -> Seq<char> {
        match self {
            InfoChannelType::Welcome => "welcome"@,
            InfoChannelType::Log => "log"@,
            InfoChannelType::ModList => "mod-list"@,
        }
    }

    /// The type that `name` stands for, if any.
    pub open spec fn named(name: Seq<char>) -> Option<InfoChannelType> {
        if name == "welcome"@ {
            Some(InfoChannelType::Welcome)
        } else if name == "log"@ {
            Some(InfoChannelType::Log)
        } else if name == "mod-list"@ {
            Some(InfoChannelType::ModList)
        } else {
            None
        }
    }

    /// The name of this type.
    pub fn as_ref(&self) -> (s: &'static str)
        ensures
            s@ == self.name(),
    {
        match self {
            InfoChannelType::Welcome => "welcome",
            InfoChannelType::Log => "log",
            InfoChannelType::ModList => "mod-list",
        }
    }

    /// Reads a type from its name; names are case-sensitive.
    pub fn from_name(name: &str) -> (r: Option<InfoChannelType>)
        ensures
            r == Self::named(name@),
    {
        let name = String::from_str(name);
        if name == String::from_str("welcome") {
            Some(InfoChannelType::Welcome)
        } else if name == String::from_str("log") {
            Some(InfoChannelType::Log)
        } else if name == String::from_str("mod-list") {
            Some(InfoChannelType::ModList)
        } else {
            None
        }
    }
}

impl core::str::FromStr for InfoChannelType {
    type Err = UnknownInfoChannel;

    fn from_str(s: &str) -> (r: Result<Self, Self::Err>)
        ensures
            r == (match InfoChannelType::named(s@) {
                Some(t) => Ok::<InfoChannelType, UnknownInfoChannel>(t),
                None => Err(UnknownInfoChannel),
            }),
    {
        match InfoChannelType::from_name(s) {
            Some(t) => Ok(t),
            None => Err(UnknownInfoChannel),
        }
    }
}

/// What a guild has settled for one info channel.
#[derive(Debug, Clone, Copy, PartialEq, Eq, Structural)]
pub struct InfoChannelData {
    pub channel_id: ChannelId,
    pub enabled: bool,
}

impl DeepView for InfoChannelData {
    type V = InfoChannelData;

    open spec fn deep_view(&self) -> InfoChannelData {
        *self
    }
}

/// Changes asked of one info channel; what is left `None` stays as it is.
#[derive(Debug, Clone, Copy, PartialEq, Eq, Structural)]
pub struct EditInfoChannel {
    pub state: Option<bool>,
    pub channel: Option<ChannelId>,
}

impl Default for EditInfoChannel {
    fn default() -> (r: Self)
        ensures
            r == (EditInfoChannel { state: None, channel: None }),
    {
        EditInfoChannel { state: None, channel: None }
    }
}

impl EditInfoChannel {
    /// Whether nothing is asked: neither another state nor another channel.
    pub open spec fn spec_is_empty(&self) -> bool {
        self.state is None && self.channel is None
    }

    /// Whether nothing is asked.
    #[verifier::when_used_as_spec(spec_is_empty)]
    pub fn is_empty(&self) -> (r: bool)
        ensures
            r == self.spec_is_empty(),
    {
        self.state.is_none() && self.channel.is_none()
    }

    /// The settings that result from making the changes to `data`.
    pub open spec fn spec_apply(self, data: InfoChannelData) -> InfoChannelData {
        InfoChannelData {
            channel_id: match self.channel {
                Some(channel) => channel,
                None => data.channel_id,
            },
            enabled: match self.state {
                Some(state) => state,
                None => data.enabled,
            },
        }
    }

    /// Asks for the channel to be switched on or off.
    pub fn state(&mut self, new_state: bool) -> (ret: &mut Self)
        ensures
            *ret == (EditInfoChannel { state: Some(new_state), channel: old(self).channel }),
            *final(self) == *final(ret),
    {
        self.state = Some(new_state);
        self
    }

    /// Asks for another channel.
    pub fn channel(&mut self, new_channel: ChannelId) -> (ret: &mut Self)
        ensures
            *ret == (EditInfoChannel { state: old(self).state, channel: Some(new_channel) }),
            *final(self) == *final(ret),
    {
        self.channel = Some(new_channel);
        self
    }

    /// Makes the changes to `data`.
    #[verifier::when_used_as_spec(spec_apply)]
    pub fn apply(self, data: InfoChannelData) -> (r: InfoChannelData)
        ensures
            r == self.spec_apply(data),
    {
        InfoChannelData {
            channel_id: match self.channel {
                Some(channel) => channel,
                None => data.channel_id,
            },
            enabled: match self.state {
                Some(state) => state,
                None => data.enabled,
            },
        }
    }
}

/// The settings of every info channel of a guild: one entry per type, always.
#[derive(Debug, Clone, Copy, PartialEq, Eq, Structural)]
pub struct InfoChannels {
    pub welcome: InfoChannelData,
    pub log: InfoChannelData,
    pub mod_list: InfoChannelData,
}

impl InfoChannels {
    /// The settings of the channel of type `ic_type`.
    pub open spec fn spec_get(&self, ic_type: InfoChannelType) -> InfoChannelData {
        match ic_type {
            InfoChannelType::Welcome => self.welcome,
            InfoChannelType::Log => self.log,
            InfoChannelType::ModList => self.mod_list,
        }
    }

    /// These settings with those of `ic_type` replaced by `data`.
    pub open spec fn spec_with(
        self,
        ic_type: InfoChannelType,
        data: InfoChannelData,
    ) -> InfoChannels {
        match ic_type {
            InfoChannelType::Welcome => InfoChannels { welcome: data, ..self },
            InfoChannelType::Log => InfoChannels { log: data, ..self },
            InfoChannelType::ModList => InfoChannels { mod_list: data, ..self },
        }
    }

    /// Every channel set to `channel` and switched off.
    pub open spec fn spec_all_at(channel: ChannelId) -> InfoChannels {
        let data = InfoChannelData { channel_id: channel, enabled: false };
        InfoChannels { welcome: data, log: data, mod_list: data }
    }

    /// The settings a new guild starts with: every channel set to `channel`
    /// and switched off.
    #[verifier::when_used_as_spec(spec_all_at)]
    pub fn all_at(channel: ChannelId) -> (r: InfoChannels)
        ensures
            r == Self::spec_all_at(channel),
    {
        let data = InfoChannelData { channel_id: channel, enabled: false };
        InfoChannels { welcome: data, log: data, mod_list: data }
    }

    /// The settings of the channel of type `ic_type`.
    #[verifier::when_used_as_spec(spec_get)]
    pub fn get(&self, ic_type: InfoChannelType) -> (r: InfoChannelData)
        ensures
            r == self.spec_get(ic_type),
    {
        match ic_type {
            InfoChannelType::Welcome => self.welcome,
            InfoChannelType::Log => self.log,
            InfoChannelType::ModList => self.mod_list,
        }
    }

    /// Replaces the settings of the channel of type `ic_type`.
    pub fn set(&mut self, ic_type: InfoChannelType, data: InfoChannelData)
        ensures
            *final(self) == old(self).spec_with(ic_type, data),
    {
        match ic_type {
            InfoChannelType::Welcome => { self.welcome = data; },
            InfoChannelType::Log => { self.log = data; },
            InfoChannelType::ModList => { self.mod_list = data; },
        }
    }
}

/// Whether `entry` asks anything: it is there, and it sets a state or a
/// channel.
pub open spec fn spec_asks(entry: Option<EditInfoChannel>) -> bool {
    match entry {
        Some(edit) => !edit.spec_is_empty(),
        None => false,
    }
}

/// Whether `entry` asks anything.
#[verifier::when_used_as_spec(spec_asks)]
pub fn asks(entry: Option<EditInfoChannel>) -> (r: bool)
    ensures
        r == spec_asks(entry),
{
    match entry {
        Some(edit) => !edit.is_empty(),
        None => false,
    }
}

/// Changes asked of the info channels: at most one set of changes per type.
/// A type may be named without anything being asked of it; that is no change.
#[derive(Debug, Clone, Copy, PartialEq, Eq, Structural)]
pub struct EditInfoChannels {
    pub welcome: Option<EditInfoChannel>,
    pub log: Option<EditInfoChannel>,
    pub mod_list: Option<EditInfoChannel>,
}

impl Default for EditInfoChannels {
    fn default() -> (r: Self)
        ensures
            r == (EditInfoChannels { welcome: None, log: None, mod_list: None }),
    {
        EditInfoChannels { welcome: None, log: None, mod_list: None }
    }
}

impl EditInfoChannels {
    /// Whether no type has changes asked of it: each is either not named, or
    /// named without a state or a channel to set.
    pub open spec fn spec_is_empty(&self) -> bool {
        !spec_asks(self.welcome) && !spec_asks(self.log) && !spec_asks(self.mod_list)
    }

    /// Whether the channel of type `ic_type` has changes asked of it.
    pub open spec fn spec_changes(&self, ic_type: InfoChannelType) -> bool {
        spec_asks(self.spec_get(ic_type))
    }

    /// What is asked of the channel of type `ic_type`, where it is named.
    pub open spec fn spec_get(&self, ic_type: InfoChannelType) -> Option<EditInfoChannel> {
        match ic_type {
            InfoChannelType::Welcome => self.welcome,
            InfoChannelType::Log => self.log,
            InfoChannelType::ModList => self.mod_list,
        }
    }

    /// These changes with those asked of `ic_type` replaced by `edit`.
    pub open spec fn spec_with(
        self,
        ic_type: InfoChannelType,
        edit: EditInfoChannel,
    ) -> EditInfoChannels {
        match ic_type {
            InfoChannelType::Welcome => EditInfoChannels { welcome: Some(edit), ..self },
            InfoChannelType::Log => EditInfoChannels { log: Some(edit), ..self },
            InfoChannelType::ModList => EditInfoChannels { mod_list: Some(edit), ..self },
        }
    }

    /// The settings that result from making the changes to `channels`: each
    /// type that has changes asked of it gets them, the others stay.
    pub open spec fn spec_apply(self, channels: InfoChannels) -> InfoChannels {
        InfoChannels {
            welcome: match self.welcome {
                Some(edit) => edit.spec_apply(channels.welcome),
                None => channels.welcome,
            },
            log: match self.log {
                Some(edit) => edit.spec_apply(channels.log),
                None => channels.log,
            },
            mod_list: match self.mod_list {
                Some(edit) => edit.spec_apply(channels.mod_list),
                None => channels.mod_list,
            },
        }
    }

    /// Whether no type has changes asked of it.
    #[verifier::when_used_as_spec(spec_is_empty)]
    pub fn is_empty(&self) -> (r: bool)
        ensures
            r == self.spec_is_empty(),
    {
        !asks(self.welcome) && !asks(self.log) && !asks(self.mod_list)
    }

    /// Whether the channel of type `ic_type` has changes asked of it.
    #[verifier::when_used_as_spec(spec_changes)]
    pub fn changes(&self, ic_type: InfoChannelType) -> (r: bool)
        ensures
            r == self.spec_changes(ic_type),
    {
        match ic_type {
            InfoChannelType::Welcome => asks(self.welcome),
            InfoChannelType::Log => asks(self.log),
            InfoChannelType::ModList => asks(self.mod_list),
        }
    }

    /// Asks `edit` of the channel of type `ic_type`, in place of what was
    /// asked of it before.
    pub fn insert(&mut self, ic_type: InfoChannelType, edit: EditInfoChannel)
        ensures
            *final(self) == old(self).spec_with(ic_type, edit),
    {
        match ic_type {
            InfoChannelType::Welcome => { self.welcome = Some(edit); },
            InfoChannelType::Log => { self.log = Some(edit); },
            InfoChannelType::ModList => { self.mod_list = Some(edit); },
        }
    }

    /// Makes the changes to `channels`.
    #[verifier::when_used_as_spec(spec_apply)]
    pub fn apply(self, channels: InfoChannels) -> (r: InfoChannels)
        ensures
            r == self.spec_apply(channels),
    {
        InfoChannels {
            welcome: match self.welcome {
                Some(edit) => edit.apply(channels.welcome),
                None => channels.welcome,
            },
            log: match self.log {
                Some(edit) => edit.apply(channels.log),
                None => channels.log,
            },
            mod_list: match self.mod_list {
                Some(edit) => edit.apply(channels.mod_list),
                None => channels.mod_list,
            },
        }
    }
}

} // verus!
