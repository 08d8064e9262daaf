//! What the bot does for members who join or leave: the roles that new
//! members get, at once or when they have passed the guild's screening, and
//! the words of welcome and goodbye.

use crate::ids::{GuildId, RoleId, UserId};
use crate::mention::{user_mention, user_mention_text};
use vstd::prelude::*;
use vstd::string::*;

verus! {

/// What is done about the roles of a member who has joined.
#[derive(Debug, Clone, Copy, PartialEq, Eq, Structural)]
pub enum JoinAction {
    /// The guild gives no roles to new members.
    Nothing,
    /// The member has not passed the screening yet and waits in the queue.
    Enqueue,
    /// The member gets the default roles at once.
    Grant,
}

/// What is done about the roles of a member who has joined a guild with the
/// default roles `default_roles`, and who is still pending or not.
pub open spec fn spec_on_join(default_roles: Seq<RoleId>, pending: bool) -> JoinAction {
    if default_roles.len() == 0 {
        JoinAction::Nothing
    } else if pending {
        JoinAction::Enqueue
    } else {
        JoinAction::Grant
    }
}

/// Decides what is done about the roles of a member who has joined.
pub fn on_join(default_roles: &Vec<RoleId>, pending: bool) -> (action: JoinAction)
    ensures
        action == spec_on_join(default_roles@, pending),
{
    if default_roles.len() == 0 {
        JoinAction::Nothing
    } else if pending {
        JoinAction::Enqueue
    } else {
        JoinAction::Grant
    }
}

/// Greets the member `member`.
pub fn welcome_text(member: UserId) -> (text: String)
    ensures
        text@ == "Welcome, "@ + user_mention_text(member) + "!"@,
{
    let mut text = String::from_str("Welcome, ");
    text.append(user_mention(member).as_str());
    text.append("!");
    text
}

/// Says goodbye to the user called `name`.
pub fn goodbye_text(name: &str) -> (text: String)
    ensures
        text@ == "Goodbye, "@ + name@,
{
    let mut text = String::from_str("Goodbye, ");
    text.append(name);
    text
}

/// A member who waits for the default roles, and what a round has found out
/// about the member: `None` where the member could not be found, else whether
/// the member is still pending.
pub type Awaited = (GuildId, UserId, Option<bool>);

/// The members of `round` who stay in the queue: those who are still
/// pending, in their order.
pub open spec fn still_waiting(round: Seq<Awaited>) -> Seq<(GuildId, UserId)>
    decreases round.len(),
{
    if round.len() == 0 {
        Seq::empty()
    } else if round.last().2 == Some(true) {
        still_waiting(round.drop_last()).push((round.last().0, round.last().1))
    } else {
        still_waiting(round.drop_last())
    }
}

/// The members of `round` who get their roles now: those who were found and
/// are not pending any more, in their order.
pub open spec fn now_admitted(round: Seq<Awaited>) -> Seq<(GuildId, UserId)>
    decreases round.len(),
{
    if round.len() == 0 {
        Seq::empty()
    } else if round.last().2 == Some(false) {
        now_admitted(round.drop_last()).push((round.last().0, round.last().1))
    } else {
        now_admitted(round.drop_last())
    }
}

/// Settles a round of the queue: gives the queue that is left, and the
/// members who get their roles now. A member who could not be found leaves
/// the queue without roles.
pub fn settle_queue(round: &Vec<Awaited>) -> (r: (Vec<(GuildId, UserId)>, Vec<(GuildId, UserId)>))
    ensures
        r.0@ == still_waiting(round@),
        r.1@ == now_admitted(round@),
{
    let mut waiting: Vec<(GuildId, UserId)> = Vec::new();
    let mut admitted: Vec<(GuildId, UserId)> = Vec::new();
    let mut i: usize = 0;
    while i < round.len()
        invariant
            i <= round.len(),
            waiting@ == still_waiting(round@.take(i as int)),
            admitted@ == now_admitted(round@.take(i as int)),
        decreases round.len() - i,
    {
        proof {
            assert(round@.take(i + 1).drop_last() =~= round@.take(i as int));
            assert(round@.take(i + 1).last() == round@[i as int]);
        }
        let (guild, user, found) = round[i];
        match found {
            Some(true) => {
                waiting.push((guild, user));
            },
            Some(false) => {
                admitted.push((guild, user));
            },
            None => {},
        }
        i += 1;
    }
    assert(round@.take(round.len() as int) =~= round@);
    (waiting, admitted)
}

} // verus!
