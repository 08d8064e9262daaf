//! What the bot writes into a guild's log channel when a member is kicked
//! or banned, and which bans it does not report.

use crate::ids::{ChannelId, GuildId, UserId};
use crate::info_channel::InfoChannelData;
use crate::mention::{user_mention, user_mention_text};
use vstd::prelude::*;
use vstd::string::*;

verus! {

/// The channel that messages for an info channel go to: its channel where it
/// is switched on, none where it is switched off.
pub open spec fn spec_target(data: InfoChannelData) -> Option<ChannelId> {
    if data.enabled {
        Some(data.channel_id)
    } else {
        None
    }
}

/// The channel that messages for an info channel go to.
#[verifier::when_used_as_spec(spec_target)]
pub fn target(data: InfoChannelData) -> (channel: Option<ChannelId>)
    ensures
        channel == spec_target(data),
{
    if data.enabled {
        Some(data.channel_id)
    } else {
        None
    }
}

/// How a reason is written into the log.
pub open spec fn reason_text(reason: Option<Seq<char>>) -> Seq<char> {
    match reason {
        Some(reason) => "Reason: "@ + reason,
        None => "Reason was not provided"@,
    }
}

/// Writes a reason as the log has it.
pub fn reason_line(reason: Option<&str>) -> (text: String)
    ensures
        text@ == reason_text(
            match reason {
                Some(reason) => Some(reason@),
                None => None,
            },
        ),
{
    match reason {
        Some(reason) => {
            let mut text = String::from_str("Reason: ");
            text.append(reason);
            text
        },
        None => String::from_str("Reason was not provided"),
    }
}

/// What the log says of a kick.
pub open spec fn kick_text(
    user: UserId,
    kicked_by: UserId,
    reason: Option<Seq<char>>,
) -> Seq<char> {
    "User "@ + user_mention_text(user) + " was kicked by "@ + user_mention_text(kicked_by)
        + ".\n"@ + reason_text(reason)
}

/// The message that reports a kick, and the channel it goes to; `None` where
/// the log channel is switched off.
pub fn kick_log(log: InfoChannelData, user: UserId, kicked_by: UserId, reason: Option<&str>) -> (r:
    Option<(ChannelId, String)>)
    ensures
        match r {
            Some((channel, text)) => log.enabled && channel == log.channel_id && text@ == kick_text(
                user,
                kicked_by,
                match reason {
                    Some(reason) => Some(reason@),
                    None => None,
                },
            ),
            None => !log.enabled,
        },
{
    if !log.enabled {
        return None;
    }
    let mut text = String::from_str("User ");
    text.append(user_mention(user).as_str());
    text.append(" was kicked by ");
    text.append(user_mention(kicked_by).as_str());
    text.append(".\n");
    text.append(reason_line(reason).as_str());
    Some((log.channel_id, text))
}

/// A ban as the guild has it on record.
#[derive(Debug, Clone, PartialEq, Eq)]
pub struct Ban {
    pub user: UserId,
    pub reason: Option<String>,
}

/// Mathematical value of a [`Ban`].
pub ghost struct BanView {
    pub user: UserId,
    pub reason: Option<Seq<char>>,
}

impl View for Ban {
    type V = BanView;

    open spec fn view(&self) -> BanView {
        BanView { user: self.user, reason: self.reason.deep_view() }
    }
}

impl DeepView for Ban {
    type V = BanView;

    open spec fn deep_view(&self) -> BanView {
        self@
    }
}

/// Whether `bans` holds a ban of `user`.
pub open spec fn is_banned(bans: Seq<BanView>, user: UserId) -> bool {
    exists|i: int| 0 <= i < bans.len() && (#[trigger] bans[i]).user == user
}

/// Where the first ban of `user` stands in `bans`.
pub open spec fn first_ban(bans: Seq<BanView>, user: UserId) -> int
    recommends
        is_banned(bans, user),
{
    choose|i: int|
        0 <= i < bans.len() && (#[trigger] bans[i]).user == user && forall|j: int|
            0 <= j < i ==> (#[trigger] bans[j]).user != user
}

/// What the log says of a ban. A reason that comes with the report is
/// written as it is; else the reason on record is written as reasons are.
pub open spec fn ban_text(
    user: UserId,
    banned_by: Option<UserId>,
    ban_reason: Option<Seq<char>>,
    recorded: Option<Seq<char>>,
) -> Seq<char> {
    "User "@ + user_mention_text(user) + " was banned"@ + (match banned_by {
        Some(banned_by) => " by "@ + user_mention_text(banned_by),
        None => Seq::empty(),
    }) + ".\n"@ + (match ban_reason {
        Some(reason) => reason,
        None => reason_text(recorded),
    })
}

/// Finds the first ban of `user` in `bans`.
pub fn find_ban(bans: &Vec<Ban>, user: UserId) -> (at: Option<usize>)
    ensures
        at is Some <==> is_banned(bans.deep_view(), user),
        at matches Some(at) ==> at < bans.len() && at == first_ban(bans.deep_view(), user),
{
    let mut i: usize = 0;
    while i < bans.len()
        invariant
            i <= bans.len(),
            forall|j: int| 0 <= j < i ==> (#[trigger] bans.deep_view()[j]).user != user,
        decreases bans.len() - i,
    {
        if bans[i].user == user {
            proof {
                let all = bans.deep_view();
                let found = i as int;
                assert(all[found].user == user);
                let chosen = first_ban(all, user);
                assert(0 <= chosen < all.len() && all[chosen].user == user && forall|j: int|
                    0 <= j < chosen ==> (#[trigger] all[j]).user != user);
                if chosen < found {
                    assert(all[chosen].user != user);
                }
                if found < chosen {
                    assert(all[found].user != user);
                }
            }
            return Some(i);
        }
        i += 1;
    }
    proof {
        let all = bans.deep_view();
        assert(!is_banned(all, user)) by {
            if is_banned(all, user) {
                let i = choose|i: int| 0 <= i < all.len() && (#[trigger] all[i]).user == user;
                assert(all[i].user != user);
            }
        }
    }
    None
}

/// The message that reports the ban of `user`, given the bans that the guild
/// has on record; `None` where none of them is a ban of `user`.
pub fn ban_log(
    bans: &Vec<Ban>,
    user: UserId,
    banned_by: Option<UserId>,
    ban_reason: Option<String>,
) -> (r: Option<String>)
    ensures
        r is Some <==> is_banned(bans.deep_view(), user),
        r matches Some(text) ==> text@ == ban_text(
            user,
            banned_by,
            ban_reason.deep_view(),
            bans.deep_view()[first_ban(bans.deep_view(), user)].reason,
        ),
{
    let at = match find_ban(bans, user) {
        Some(at) => at,
        None => {
            return None;
        },
    };
    let mut text = String::from_str("User ");
    text.append(user_mention(user).as_str());
    text.append(" was banned");
    if let Some(banned_by) = banned_by {
        text.append(" by ");
        text.append(user_mention(banned_by).as_str());
    }
    text.append(".\n");
    let ghost head = text@;
    match ban_reason {
        Some(reason) => {
            text.append(reason.as_str());
        },
        None => {
            let recorded = match &bans[at].reason {
                Some(reason) => reason_line(Some(reason.as_str())),
                None => reason_line(None),
            };
            text.append(recorded.as_str());
        },
    }
    proof {
        let by = match banned_by {
            Some(banned_by) => " by "@ + user_mention_text(banned_by),
            None => Seq::<char>::empty(),
        };
        assert(head =~= "User "@ + user_mention_text(user) + " was banned"@ + by + ".\n"@);
    }
    Some(text)
}

/// The bans that the bot makes itself and reports itself, so that it does
/// not report them a second time when the guild announces them.
#[derive(Debug)]
pub struct BanMessageIgnoreList {
    entries: Vec<(GuildId, UserId)>,
}

impl View for BanMessageIgnoreList {
    type V = Set<(GuildId, UserId)>;

    closed spec fn view(&self) -> Set<(GuildId, UserId)> {
        Set::new(|entry: (GuildId, UserId)| self.entries@.contains(entry))
    }
}

impl BanMessageIgnoreList {
    /// The empty list.
    pub fn new() -> (list: Self)
        ensures
            list@ == Set::<(GuildId, UserId)>::empty(),
    {
        let list = BanMessageIgnoreList { entries: Vec::new() };
        assert(list@ =~= Set::empty());
        list
    }

    /// Whether the ban of `user` in `guild` is on the list.
    pub fn contains(&self, guild: GuildId, user: UserId) -> (found: bool)
        ensures
            found == self@.contains((guild, user)),
    {
        let mut i: usize = 0;
        while i < self.entries.len()
            invariant
                i <= self.entries.len(),
                forall|j: int| 0 <= j < i ==> self.entries@[j] != (guild, user),
            decreases self.entries.len() - i,
        {
            if self.entries[i].0 == guild && self.entries[i].1 == user {
                return true;
            }
            i += 1;
        }
        false
    }

    /// Puts the ban of `user` in `guild` on the list.
    pub fn insert(&mut self, guild: GuildId, user: UserId)
        ensures
            final(self)@ == old(self)@.insert((guild, user)),
    {
        if !self.contains(guild, user) {
            self.entries.push((guild, user));
            assert forall|entry: (GuildId, UserId)| self.entries@.contains(entry) <==> old(
                self,
            ).entries@.contains(entry) || entry == (guild, user) by {
                if old(self).entries@.contains(entry) {
                    let i = choose|i: int|
                        0 <= i < old(self).entries@.len() && old(self).entries@[i] == entry;
                    assert(self.entries@[i] == entry);
                }
                if entry == (guild, user) {
                    assert(self.entries@[self.entries@.len() - 1] == entry);
                }
            }
        }
        assert(self@ =~= old(self)@.insert((guild, user)));
    }

    /// Takes the ban of `user` in `guild` off the list, and says whether it
    /// was on it.
    pub fn take(&mut self, guild: GuildId, user: UserId) -> (found: bool)
        ensures
            found == old(self)@.contains((guild, user)),
            final(self)@ == old(self)@.remove((guild, user)),
    {
        let mut kept: Vec<(GuildId, UserId)> = Vec::new();
        let mut found = false;
        let mut i: usize = 0;
        while i < self.entries.len()
            invariant
                i <= self.entries.len(),
                found == exists|j: int| 0 <= j < i && self.entries@[j] == (guild, user),
                forall|entry: (GuildId, UserId)|
                    kept@.contains(entry) <==> entry != (guild, user) && exists|j: int|
                        0 <= j < i && self.entries@[j] == entry,
            decreases self.entries.len() - i,
        {
            let entry = self.entries[i];
            let ghost before = kept@;
            if entry.0 == guild && entry.1 == user {
                found = true;
            } else {
                kept.push(entry);
                assert forall|other: (GuildId, UserId)| kept@.contains(other) <==> other != (
                    guild,
                    user,
                ) && exists|j: int| 0 <= j < i + 1 && self.entries@[j] == other by {
                    if kept@.contains(other) {
                        let k = choose|k: int| 0 <= k < kept@.len() && kept@[k] == other;
                        if k < before.len() {
                            assert(before[k] == other);
                            assert(before.contains(other));
                        } else {
                            assert(self.entries@[i as int] == other);
                        }
                    }
                    if other != (guild, user) && exists|j: int|
                        0 <= j < i + 1 && self.entries@[j] == other {
                        let j = choose|j: int| 0 <= j < i + 1 && self.entries@[j] == other;
                        if j < i {
                            assert(before.contains(other));
                            let k = choose|k: int| 0 <= k < before.len() && before[k] == other;
                            assert(kept@[k] == other);
                        } else {
                            assert(kept@[kept@.len() - 1] == other);
                        }
                    }
                }
            }
            i += 1;
        }
        proof {
            assert forall|entry: (GuildId, UserId)| kept@.contains(entry) <==> old(
                self,
            ).entries@.contains(entry) && entry != (guild, user) by {
                if old(self).entries@.contains(entry) {
                    let j = choose|j: int|
                        0 <= j < old(self).entries@.len() && old(self).entries@[j] == entry;
                    assert(self.entries@[j] == entry);
                }
            }
            if found {
                let j = choose|j: int| 0 <= j < i && self.entries@[j] == (guild, user);
                assert(old(self).entries@.contains((guild, user)));
            }
        }
        self.entries = kept;
        assert(self@ =~= old(self)@.remove((guild, user)));
        found
    }
}

} // verus!
