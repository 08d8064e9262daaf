//! Command filters: where in a guild a command may run.

use crate::ids::ChannelId;
use vstd::prelude::*;

verus! {

/// How a command is restricted inside a guild.
#[derive(Debug, Clone, Copy, PartialEq, Eq, Structural, Hash)]
pub enum CommandDisability {
    /// Enabled everywhere.
    Unrestricted,
    /// Disabled everywhere.
    Global,
    /// Disabled in the listed channels, enabled elsewhere.
    Blacklisted,
    /// Enabled in the listed channels only.
    Whitelisted,
}

impl Default for CommandDisability {
    fn default() -> (r: Self)
        ensures
            r == CommandDisability::Unrestricted,
    {
        CommandDisability::Unrestricted
    }
}

impl CommandDisability {
    /// The integer that stands for this restriction in a stored document.
    pub open spec fn code(self) -> u8 {
        match self {
            CommandDisability::Unrestricted => 0,
            CommandDisability::Global => 1,
            CommandDisability::Blacklisted => 2,
            CommandDisability::Whitelisted => 3,
        }
    }

    /// The restriction that `code` stands for, if any.
    pub open spec fn coded(code: u8) -> Option<CommandDisability> {
        if code == 0 {
            Some(CommandDisability::Unrestricted)
        } else if code == 1 {
            Some(CommandDisability::Global)
        } else if code == 2 {
            Some(CommandDisability::Blacklisted)
        } else if code == 3 {
            Some(CommandDisability::Whitelisted)
        } else {
            None
        }
    }

    /// Encodes the restriction for storage.
    pub fn to_code(self) -> (code: u8)
        ensures
            code == self.code(),
    {
        match self {
            CommandDisability::Unrestricted => 0,
            CommandDisability::Global => 1,
            CommandDisability::Blacklisted => 2,
            CommandDisability::Whitelisted => 3,
        }
    }

    /// Decodes a stored restriction; codes above 3 stand for nothing.
    pub fn from_code(code: u8) -> (r: Option<CommandDisability>)
        ensures
            r == Self::coded(code),
    {
        if code == 0 {
            Some(CommandDisability::Unrestricted)
        } else if code == 1 {
            Some(CommandDisability::Global)
        } else if code == 2 {
            Some(CommandDisability::Blacklisted)
        } else if code == 3 {
            Some(CommandDisability::Whitelisted)
        } else {
            None
        }
    }
}

/// The rule attached to one command of one guild.
#[derive(Debug)]
pub struct CommandFilter {
    filter_type: CommandDisability,
    channels: Vec<ChannelId>,
}

/// Mathematical value of a [`CommandFilter`].
pub ghost struct CommandFilterView {
    pub filter_type: CommandDisability,
    pub channels: Seq<ChannelId>,
}

impl CommandFilterView {
    /// The filter of a command that nobody has restricted.
    pub open spec fn unrestricted() -> CommandFilterView {
        CommandFilterView { filter_type: CommandDisability::Unrestricted, channels: Seq::empty() }
    }

    /// Whether the command may run in `channel`: `Ok` allows, `Err` denies,
    /// and either one names the restriction that decided.
    pub open spec fn verdict(self, channel: ChannelId) -> Result<
        CommandDisability,
        CommandDisability,
    > {
        match self.filter_type {
            CommandDisability::Unrestricted => Ok(CommandDisability::Unrestricted),
            CommandDisability::Global => Err(CommandDisability::Global),
            CommandDisability::Blacklisted => if self.channels.contains(channel) {
                Err(CommandDisability::Blacklisted)
            } else {
                Ok(CommandDisability::Blacklisted)
            },
            CommandDisability::Whitelisted => if self.channels.contains(channel) {
                Ok(CommandDisability::Whitelisted)
            } else {
                Err(CommandDisability::Whitelisted)
            },
        }
    }
}

impl View for CommandFilter {
    type V = CommandFilterView;

    closed spec fn view(&self) -> CommandFilterView {
        CommandFilterView { filter_type: self.filter_type, channels: self.channels@ }
    }
}

impl DeepView for CommandFilter {
    type V = CommandFilterView;

    open spec fn deep_view(&self) -> CommandFilterView {
        self@
    }
}

impl Default for CommandFilter {
    fn default() -> (r: Self)
        ensures
            r@ == CommandFilterView::unrestricted(),
    {
        CommandFilter { filter_type: CommandDisability::Unrestricted, channels: Vec::new() }
    }
}

impl Clone for CommandFilter {
    fn clone(&self) -> (r: Self)
        ensures
            r@ == self@,
    {
        CommandFilter { filter_type: self.filter_type, channels: self.channels.clone() }
    }
}

/// Whether `channel` is one of `channels`.
fn lists_channel(channels: &Vec<ChannelId>, channel: ChannelId) -> (found: bool)
    ensures
        found == channels@.contains(channel),
{
    let mut i: usize = 0;
    while i < channels.len()
        invariant
            i <= channels.len(),
            forall|j: int| 0 <= j < i ==> channels@[j] != channel,
        decreases channels.len() - i,
    {
        if channels[i] == channel {
            return true;
        }
        i += 1;
    }
    false
}

impl CommandFilter {
    /// A filter of the given kind over the given channels.
    pub fn new(filter_type: CommandDisability, channels: Vec<ChannelId>) -> (r: Self)
        ensures
            r@ == (CommandFilterView { filter_type, channels: channels@ }),
    {
        CommandFilter { filter_type, channels }
    }

    /// Decides whether the command may run in `channel_id`.
    pub fn can_run(&self, channel_id: ChannelId) -> (r: Result<
        CommandDisability,
        CommandDisability,
    >)
        ensures
            r == self@.verdict(channel_id),
    {
        match self.filter_type {
            CommandDisability::Unrestricted => Ok(CommandDisability::Unrestricted),
            CommandDisability::Global => Err(CommandDisability::Global),
            CommandDisability::Blacklisted => {
                if lists_channel(&self.channels, channel_id) {
                    Err(CommandDisability::Blacklisted)
                } else {
                    Ok(CommandDisability::Blacklisted)
                }
            },
            CommandDisability::Whitelisted => {
                if lists_channel(&self.channels, channel_id) {
                    Ok(CommandDisability::Whitelisted)
                } else {
                    Err(CommandDisability::Whitelisted)
                }
            },
        }
    }

    /// The kind of restriction.
    pub fn filter_type(&self) -> (r: CommandDisability)
        ensures
            r == self@.filter_type,
    {
        self.filter_type
    }

    /// The channels the restriction speaks of.
    pub fn filter_list(&self) -> (r: &Vec<ChannelId>)
        ensures
            r@ == self@.channels,
    {
        &self.channels
    }
}

/// Changes asked of one command filter; what is left `None` stays as it is.
#[derive(Debug)]
pub struct EditCommandFilter {
    pub filter_type: Option<CommandDisability>,
    pub channels: Option<Vec<ChannelId>>,
}

/// Mathematical value of an [`EditCommandFilter`].
pub ghost struct EditCommandFilterView {
    pub filter_type: Option<CommandDisability>,
    pub channels: Option<Seq<ChannelId>>,
}

impl EditCommandFilterView {
    /// Whether nothing is asked.
    pub open spec fn is_empty(self) -> bool {
        self.filter_type is None && self.channels is None
    }

    /// The filter that results from making the changes to `filter`.
    pub open spec fn apply(self, filter: CommandFilterView) -> CommandFilterView {
        CommandFilterView {
            filter_type: match self.filter_type {
                Some(filter_type) => filter_type,
                None => filter.filter_type,
            },
            channels: match self.channels {
                Some(channels) => channels,
                None => filter.channels,
            },
        }
    }
}

impl View for EditCommandFilter {
    type V = EditCommandFilterView;

    open spec fn view(&self) -> EditCommandFilterView {
        EditCommandFilterView {
            filter_type: self.filter_type,
            channels: match self.channels {
                Some(channels) => Some(channels@),
                None => None,
            },
        }
    }
}

impl Default for EditCommandFilter {
    fn default() -> (r: Self)
        ensures
            r@.is_empty(),
    {
        EditCommandFilter { filter_type: None, channels: None }
    }
}

impl EditCommandFilter {
    /// Asks for another kind of restriction.
    pub fn filter_type(&mut self, filter_type: CommandDisability) -> (ret: &mut Self)
        ensures
            ret@ == (EditCommandFilterView {
                filter_type: Some(filter_type),
                channels: old(self)@.channels,
            }),
            *final(self) == *final(ret),
    {
        self.filter_type = Some(filter_type);
        self
    }

    /// Asks for another list of channels.
    pub fn channels(&mut self, channels: Vec<ChannelId>) -> (ret: &mut Self)
        ensures
            ret@ == (EditCommandFilterView {
                filter_type: old(self)@.filter_type,
                channels: Some(channels@),
            }),
            *final(self) == *final(ret),
    {
        self.channels = Some(channels);
        self
    }

    /// Asks for the command to run everywhere.
    pub fn enable(&mut self) -> (ret: &mut Self)
        ensures
            ret@ == (EditCommandFilterView {
                filter_type: Some(CommandDisability::Unrestricted),
                channels: old(self)@.channels,
            }),
            *final(self) == *final(ret),
    {
        self.filter_type(CommandDisability::Unrestricted)
    }

    /// Asks for the command to run nowhere.
    pub fn disable(&mut self) -> (ret: &mut Self)
        ensures
            ret@ == (EditCommandFilterView {
                filter_type: Some(CommandDisability::Global),
                channels: old(self)@.channels,
            }),
            *final(self) == *final(ret),
    {
        self.filter_type(CommandDisability::Global)
    }

    /// Whether nothing is asked.
    pub fn is_empty(&self) -> (r: bool)
        ensures
            r == self@.is_empty(),
    {
        self.filter_type.is_none() && self.channels.is_none()
    }

    /// Makes the changes to `filter`.
    pub fn apply(self, filter: &mut CommandFilter)
        ensures
            final(filter)@ == self@.apply(old(filter)@),
    {
        if let Some(filter_type) = self.filter_type {
            filter.filter_type = filter_type;
        }
        if let Some(channels) = self.channels {
            filter.channels = channels;
        }
    }
}

} // verus!
