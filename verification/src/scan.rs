//! What the bot looks for in the messages that it reads: links to other
//! messages, and names of mods written between `>>` and `<<`.

use crate::embed::{Embed, EmbedAuthor, EmbedAuthorView, EmbedView};
use crate::text::{can_cut, cut, try_byte_slice};
use regex::Regex;
use vstd::prelude::*;
use vstd::string::*;
use vstd::utf8::*;

verus! {

/// The pattern of a link to a message.
pub const MESSAGE_LINK_PATTERN: &'static str = "https://discord.com/channels/[0-9]*/[0-9]*/[0-9]*";

/// The pattern of a mod's name between its marks.
pub const MOD_NAME_PATTERN: &'static str = ">>[A-Za-z0-9 ]*<<";

/// What the regex crate finds of `pattern` in `haystack`: the successive
/// non-overlapping matches, in the order in which they stand; `None` where it
/// refuses the pattern.
pub uninterp spec fn regex_matches(pattern: Seq<char>, haystack: Seq<char>) -> Option<
    Seq<Seq<char>>,
>;

/// Compiles `pattern` with regex's `Regex::new` and collects the matches of
/// `Regex::find_iter` in `haystack`, each written out with `Match::as_str`.
/// Trusted: the result is what the regex crate finds, which depends on the two
/// texts alone.
#[verifier::external_body]
pub(crate) fn find_all(pattern: &str, haystack: &str) -> (found: Option<Vec<String>>)
    ensures
        found.deep_view() == regex_matches(pattern@, haystack@),
{
    let regex = Regex::new(pattern).ok()?;
    Some(regex.find_iter(haystack).map(|found| found.as_str().to_string()).collect())
}

/// What is found where the pattern may have been refused: then nothing.
pub open spec fn found_or_nothing(found: Option<Seq<Seq<char>>>) -> Seq<Seq<char>> {
    match found {
        Some(found) => found,
        None => Seq::empty(),
    }
}

/// Whether `marked` has two bytes of marks at either end and a text between
/// them.
pub open spec fn has_marks(marked: Seq<char>) -> bool {
    encode_utf8(marked).len() >= 4 && can_cut(marked, 2, encode_utf8(marked).len() - 2)
}

/// What stands between the marks of `marked`.
pub open spec fn between_marks(marked: Seq<char>) -> Seq<char>
    recommends
        has_marks(marked),
{
    cut(marked, 2, encode_utf8(marked).len() - 2)
}

/// What stands between the marks of each text of `marked` that has marks, in
/// the same order.
pub open spec fn names_between_marks(marked: Seq<Seq<char>>) -> Seq<Seq<char>>
    decreases marked.len(),
{
    if marked.len() == 0 {
        Seq::empty()
    } else if has_marks(marked.last()) {
        names_between_marks(marked.drop_last()).push(between_marks(marked.last()))
    } else {
        names_between_marks(marked.drop_last())
    }
}

/// The name that stands between the two-byte marks of `marked`; `None` where
/// `marked` is too short for two marks, or a mark would end inside a
/// character.
pub fn mod_name_of(marked: &str) -> (name: Option<&str>)
    ensures
        name is Some <==> has_marks(marked@),
        name matches Some(name) ==> name@ == between_marks(marked@),
{
    let len = marked.as_bytes().len();
    if len >= 4 {
        try_byte_slice(marked, 2, len - 2)
    } else {
        None
    }
}

/// The names that stand between the marks of the texts of `marked`.
pub fn mod_names_of(marked: &Vec<String>) -> (names: Vec<String>)
    ensures
        names.deep_view() == names_between_marks(marked.deep_view()),
{
    let mut names: Vec<String> = Vec::new();
    let mut i: usize = 0;
    while i < marked.len()
        invariant
            i <= marked.len(),
            names.deep_view() == names_between_marks(marked.deep_view().take(i as int)),
        decreases marked.len() - i,
    {
        let ghost before = names.deep_view();
        proof {
            let all = marked.deep_view();
            assert(all.take(i + 1).drop_last() =~= all.take(i as int));
            assert(all.take(i + 1).last() == marked@[i as int]@);
        }
        match mod_name_of(marked[i].as_str()) {
            Some(name) => {
                names.push(String::from_str(name));
                assert(names.deep_view() =~= before.push(between_marks(marked@[i as int]@)));
            },
            None => {},
        }
        i += 1;
    }
    assert(marked.deep_view().take(marked.len() as int) =~= marked.deep_view());
    names
}

/// The links to messages that stand in `content`, in their order.
pub fn message_links(content: &str) -> (links: Vec<String>)
    ensures
        links.deep_view() == found_or_nothing(regex_matches(MESSAGE_LINK_PATTERN@, content@)),
{
    match find_all(MESSAGE_LINK_PATTERN, content) {
        Some(links) => links,
        None => {
            let links: Vec<String> = Vec::new();
            assert(links.deep_view() =~= Seq::empty());
            links
        },
    }
}

/// The names of the mods that `content` asks about: what stands between `>>`
/// and `<<`, in the order of the message.
pub fn requested_mods(content: &str) -> (names: Vec<String>)
    ensures
        names.deep_view() == names_between_marks(
            found_or_nothing(regex_matches(MOD_NAME_PATTERN@, content@)),
        ),
{
    match find_all(MOD_NAME_PATTERN, content) {
        Some(marked) => mod_names_of(&marked),
        None => {
            let names: Vec<String> = Vec::new();
            assert(names.deep_view() =~= Seq::empty());
            names
        },
    }
}

/// Who a message comes from, as far as the bot's answer depends on it.
#[derive(Debug, Clone, Copy, PartialEq, Eq, Structural)]
pub enum MessageKind {
    /// The bot's own message: it is not answered.
    Own,
    /// A private message: it is passed on to the bot's owner.
    Private,
    /// A message in a guild: it is looked through.
    Guild,
}

/// Tells the kinds of messages apart: the bot's own messages first, whether
/// private or not.
pub fn message_kind(is_own: bool, is_private: bool) -> (kind: MessageKind)
    ensures
        kind == if is_own {
            MessageKind::Own
        } else if is_private {
            MessageKind::Private
        } else {
            MessageKind::Guild
        },
{
    if is_own {
        MessageKind::Own
    } else if is_private {
        MessageKind::Private
    } else {
        MessageKind::Guild
    }
}

/// What a message asks the bot to do by what it holds.
#[derive(Debug, Clone, PartialEq, Eq)]
pub struct MessagePlan {
    /// The links to messages that are to be shown, in their order.
    pub links: Vec<String>,
    /// The mods that are to be shown, in their order.
    pub mods: Vec<String>,
}

/// Mathematical value of a [`MessagePlan`].
pub ghost struct MessagePlanView {
    pub links: Seq<Seq<char>>,
    pub mods: Seq<Seq<char>>,
}

impl View for MessagePlan {
    type V = MessagePlanView;

    open spec fn view(&self) -> MessagePlanView {
        MessagePlanView { links: self.links.deep_view(), mods: self.mods.deep_view() }
    }
}

/// What a message with the text `content` asks for in a guild whose link
/// lookup is `link_lookup`, or could not be found out: the messages that it
/// links to are shown only where the lookup is known to be on; the mods that
/// it names are shown in any case.
pub open spec fn message_plan(link_lookup: Option<bool>, content: Seq<char>) -> MessagePlanView {
    MessagePlanView {
        links: if link_lookup == Some(true) {
            found_or_nothing(regex_matches(MESSAGE_LINK_PATTERN@, content))
        } else {
            Seq::empty()
        },
        mods: names_between_marks(found_or_nothing(regex_matches(MOD_NAME_PATTERN@, content))),
    }
}

/// Plans the answer to a message that was written in a guild.
pub fn plan_guild_message(link_lookup: Option<bool>, content: &str) -> (plan: MessagePlan)
    ensures
        plan@ == message_plan(link_lookup, content@),
{
    let links = match link_lookup {
        Some(true) => message_links(content),
        _ => {
            let links: Vec<String> = Vec::new();
            assert(links.deep_view() =~= Seq::empty());
            links
        },
    };
    MessagePlan { links, mods: requested_mods(content) }
}

/// The embed that shows the message that `link` leads to: its author, by
/// name and picture and under the link, and its text.
pub open spec fn linked_message_embed(
    author_name: Seq<char>,
    author_avatar: Option<Seq<char>>,
    link: Seq<char>,
    content: Seq<char>,
) -> EmbedView {
    EmbedView {
        author: Some(
            EmbedAuthorView {
                name: author_name,
                url: link,
                icon_url: match author_avatar {
                    Some(avatar) => avatar,
                    None => Seq::empty(),
                },
            },
        ),
        description: Some(content),
        ..EmbedView::empty()
    }
}

/// The embed that shows the message that `link` leads to.
pub fn link_preview(
    author_name: String,
    author_avatar: Option<String>,
    link: String,
    content: String,
) -> (embed: Embed)
    ensures
        embed@ == linked_message_embed(author_name@, author_avatar.deep_view(), link@, content@),
{
    let icon_url = match author_avatar {
        Some(avatar) => avatar,
        None => String::new(),
    };
    let mut embed = Embed::new();
    embed.author = Some(EmbedAuthor { name: author_name, url: link, icon_url });
    embed.description = Some(content);
    embed
}

} // verus!
