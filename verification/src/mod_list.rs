//! The list of mods that a guild shows in its mod-list channel, and how it
//! is kept up to date.

use crate::guild_config::{GuildConfig, GuildConfigView};
use crate::ids::{ChannelId, MessageId};
use crate::info_channel::InfoChannelType;
use vstd::prelude::*;
use vstd::string::*;

verus! {

/// How many mods the list shows.
pub const MOD_LIST_LEN: u64 = 6;

/// The mods that the list shows, in their order.
pub open spec fn mod_list_names() -> Seq<Seq<char>> {
    seq![
        "artillery-spidertron"@,
        "PlaceableOffGrid"@,
        "NoArtilleryMapReveal"@,
        "RandomFactorioThings"@,
        "PlutoniumEnergy"@,
        "ReactorDansen"@,
    ]
}

/// The mods that the list shows, in their order.
pub fn mod_list() -> (names: Vec<String>)
    ensures
        names.deep_view() == mod_list_names(),
        names.len() == MOD_LIST_LEN,
{
    let mut names: Vec<String> = Vec::new();
    names.push(String::from_str("artillery-spidertron"));
    names.push(String::from_str("PlaceableOffGrid"));
    names.push(String::from_str("NoArtilleryMapReveal"));
    names.push(String::from_str("RandomFactorioThings"));
    names.push(String::from_str("PlutoniumEnergy"));
    names.push(String::from_str("ReactorDansen"));
    assert(names.deep_view() =~= mod_list_names());
    names
}

/// What is to be done to bring a guild's mod list up to date.
#[derive(Debug, Clone, PartialEq, Eq)]
pub enum ModListPlan {
    /// The mod-list channel is switched off: nothing.
    Skip,
    /// No messages are on record: the last messages of the channel, as many
    /// as the list has mods, are deleted, and every mod is posted anew.
    Repost(ChannelId, u64),
    /// The messages on record are edited in place, each to show its mod.
    Edit(ChannelId, Vec<(String, MessageId)>),
}

/// Mathematical value of a [`ModListPlan`].
pub ghost enum ModListPlanView {
    Skip,
    Repost(ChannelId, u64),
    Edit(ChannelId, Seq<(Seq<char>, MessageId)>),
}

impl View for ModListPlan {
    type V = ModListPlanView;

    open spec fn view(&self) -> ModListPlanView {
        match self {
            ModListPlan::Skip => ModListPlanView::Skip,
            ModListPlan::Repost(channel, sweep) => ModListPlanView::Repost(*channel, *sweep),
            ModListPlan::Edit(channel, messages) => ModListPlanView::Edit(
                *channel,
                messages.deep_view(),
            ),
        }
    }
}

/// What is to be done to bring the mod list of a guild with the configuration
/// `config` up to date.
pub open spec fn mod_list_plan(config: GuildConfigView) -> ModListPlanView {
    if !config.info_channels.mod_list.enabled {
        ModListPlanView::Skip
    } else if config.mod_list_messages.len() == 0 {
        ModListPlanView::Repost(config.info_channels.mod_list.channel_id, MOD_LIST_LEN)
    } else {
        ModListPlanView::Edit(config.info_channels.mod_list.channel_id, config.mod_list_messages)
    }
}

/// Plans the update of a guild's mod list.
pub fn plan_mod_list_update(config: &GuildConfig) -> (plan: ModListPlan)
    ensures
        plan@ == mod_list_plan(config@),
{
    let channel = config.info_channels_data(InfoChannelType::ModList);
    if !channel.enabled {
        return ModListPlan::Skip;
    }
    let messages = config.mod_list_messages();
    if messages.len() == 0 {
        return ModListPlan::Repost(channel.channel_id, MOD_LIST_LEN);
    }
    let mut copy: Vec<(String, MessageId)> = Vec::new();
    let mut i: usize = 0;
    while i < messages.len()
        invariant
            i <= messages.len(),
            copy.len() == i,
            forall|a: int|
                0 <= a < i ==> (#[trigger] copy@[a]).0@ == messages@[a].0@ && copy@[a].1
                    == messages@[a].1,
        decreases messages.len() - i,
    {
        copy.push((messages[i].0.clone(), messages[i].1));
        i += 1;
    }
    assert(copy.deep_view() =~= messages.deep_view());
    ModListPlan::Edit(channel.channel_id, copy)
}

} // verus!
