//! The steps by which the bot finds a mod on the mod portal: it asks for the
//! mod by the name it was given, and where the portal knows none, searches
//! for the name and asks for the first mod that the search finds.

use crate::mods::{
    mod_api, mod_api_url, mod_data, mod_query, mod_query_url, ModData, ModDataView, ModError,
    ModInfo, ModInfoView,
};
use crate::text::{can_cut, cut, try_byte_slice};
use scraper::{Html, Selector};
use vstd::prelude::*;
use vstd::string::*;
use vstd::utf8::*;

verus! {

/// The selector of a search result's heading.
pub const RESULT_SELECTOR: &'static str = "h2.mb0";

/// The selector of a link.
pub const LINK_SELECTOR: &'static str = "a";

/// The attribute that holds a link's target.
pub const TARGET_ATTRIBUTE: &'static str = "href";

/// The number of bytes that stand before a mod's name in the target of a
/// link to the mod: those of `/mod/`.
pub const MOD_LINK_PREFIX_LEN: usize = 5;

/// What the scraper crate finds in the page `html`: of the first element that
/// it selects for `outer`, and of the first of that element's descendants that
/// it selects for `inner`, the value of the attribute `attribute`; `None`
/// where it refuses a selector, selects no such element, or the element has
/// no such attribute.
pub uninterp spec fn scraped_attribute(
    html: Seq<char>,
    outer: Seq<char>,
    inner: Seq<char>,
    attribute: Seq<char>,
) -> Option<Seq<char>>;

/// Reads the page with scraper's `Html::parse_document` and the selectors
/// with `Selector::parse`, takes the first match of `outer` with
/// `Html::select`, inside it the first match of `inner` with
/// `ElementRef::select`, and of that element the attribute, with
/// `Element::attr`. Trusted: the result is what the scraper crate finds,
/// which depends on the four texts alone.
#[verifier::external_body]
pub(crate) fn scrape_attribute(html: &str, outer: &str, inner: &str, attribute: &str) -> (value:
    Option<String>)
    ensures
        value.deep_view() == scraped_attribute(html@, outer@, inner@, attribute@),
{
    let outer = Selector::parse(outer).ok()?;
    let inner = Selector::parse(inner).ok()?;
    let document = Html::parse_document(html);
    let element = document.select(&outer).next()?;
    let link = element.select(&inner).next()?;
    Some(link.value().attr(attribute)?.to_string())
}

/// Whether `link` is long enough to hold a name after the prefix of a link to
/// a mod, and the prefix ends between two characters.
pub open spec fn names_a_mod(link: Seq<char>) -> bool {
    can_cut(link, MOD_LINK_PREFIX_LEN as int, encode_utf8(link).len() as int)
}

/// The name that stands in `link` after the prefix of a link to a mod.
pub open spec fn linked_mod(link: Seq<char>) -> Seq<char>
    recommends
        names_a_mod(link),
{
    cut(link, MOD_LINK_PREFIX_LEN as int, encode_utf8(link).len() as int)
}

/// The name of the mod that `link` leads to: what follows its first five
/// bytes. `None` where the link is shorter, or its fifth byte ends inside a
/// character.
pub fn mod_name_from_link(link: &str) -> (name: Option<&str>)
    ensures
        name is Some <==> names_a_mod(link@),
        name matches Some(name) ==> name@ == linked_mod(link@),
{
    try_byte_slice(link, MOD_LINK_PREFIX_LEN, link.as_bytes().len())
}

/// How far the search for a mod has come.
#[derive(Debug, Clone, PartialEq, Eq)]
pub enum LookupState {
    /// Nothing has been done yet.
    Start,
    /// The mod portal has been asked for the mod by the name that was given.
    AwaitingMod,
    /// The mod portal has been asked to search for the name.
    AwaitingSearch,
    /// The mod portal has been asked for the mod of this name, which the
    /// search has found.
    AwaitingFoundMod(String),
    /// The search is over.
    Finished,
}

/// Mathematical value of a [`LookupState`].
pub ghost enum LookupStateView {
    Start,
    AwaitingMod,
    AwaitingSearch,
    AwaitingFoundMod(Seq<char>),
    Finished,
}

impl View for LookupState {
    type V = LookupStateView;

    open spec fn view(&self) -> LookupStateView {
        match self {
            LookupState::Start => LookupStateView::Start,
            LookupState::AwaitingMod => LookupStateView::AwaitingMod,
            LookupState::AwaitingSearch => LookupStateView::AwaitingSearch,
            LookupState::AwaitingFoundMod(name) => LookupStateView::AwaitingFoundMod(name@),
            LookupState::Finished => LookupStateView::Finished,
        }
    }
}

/// What the outside tells a search.
#[derive(Debug, Clone, PartialEq, Eq)]
pub enum LookupEvent {
    /// The search is to begin.
    Begin,
    /// The mod portal knows the mod, and this is what it tells about it.
    Answer(ModInfo),
    /// The mod portal has found some results, and this is the page that
    /// lists them.
    Page(String),
    /// The mod portal has answered that it has nothing to give.
    Refused,
    /// The mod portal could not be asked, or what it answered could not be
    /// read.
    Broken,
}

/// Mathematical value of a [`LookupEvent`].
pub ghost enum LookupEventView {
    Begin,
    Answer(ModInfoView),
    Page(Seq<char>),
    Refused,
    Broken,
}

impl View for LookupEvent {
    type V = LookupEventView;

    open spec fn view(&self) -> LookupEventView {
        match self {
            LookupEvent::Begin => LookupEventView::Begin,
            LookupEvent::Answer(info) => LookupEventView::Answer(info@),
            LookupEvent::Page(html) => LookupEventView::Page(html@),
            LookupEvent::Refused => LookupEventView::Refused,
            LookupEvent::Broken => LookupEventView::Broken,
        }
    }
}

/// What a search asks of the outside next.
#[derive(Debug, PartialEq, Eq)]
pub enum LookupAction {
    /// Ask the mod portal about a mod, at this address.
    Ask(String),
    /// Ask the mod portal to search, at this address.
    Search(String),
    /// The search is over, with this outcome.
    Finish(Result<ModData, ModError>),
}

/// Mathematical value of a [`LookupAction`].
pub ghost enum LookupActionView {
    Ask(Seq<char>),
    Search(Seq<char>),
    Finish(Result<ModDataView, ModError>),
}

impl View for LookupAction {
    type V = LookupActionView;

    open spec fn view(&self) -> LookupActionView {
        match self {
            LookupAction::Ask(url) => LookupActionView::Ask(url@),
            LookupAction::Search(url) => LookupActionView::Search(url@),
            LookupAction::Finish(Ok(data)) => LookupActionView::Finish(Ok(data@)),
            LookupAction::Finish(Err(error)) => LookupActionView::Finish(Err(*error)),
        }
    }
}

/// What follows a search that has found the link `link`, or none: the mod
/// that the link names is asked for; without a link that names a mod the
/// search is over and has found nothing.
pub open spec fn after_search(link: Option<Seq<char>>) -> (LookupStateView, LookupActionView) {
    match link {
        Some(link) => if names_a_mod(link) {
            (
                LookupStateView::AwaitingFoundMod(linked_mod(link)),
                LookupActionView::Ask(mod_api_url(linked_mod(link))),
            )
        } else {
            (LookupStateView::Finished, LookupActionView::Finish(Err(ModError::NotFound)))
        },
        None => (LookupStateView::Finished, LookupActionView::Finish(Err(ModError::NotFound))),
    }
}

/// One step of the search for the mod `mod_name`: the state that follows
/// `state` on `event`, and what is asked of the outside.
///
/// The mod is asked for by its name. An answer ends the search with what is
/// shown of the mod. Where the portal refuses, it is asked to search for the
/// name; the first result's link names the mod that is asked for next, and
/// shown under its own name. A search that fails in any way, and a second
/// refusal, end with [`ModError::NotFound`]; a question about a mod that
/// cannot be asked or whose answer cannot be read, and an event that the
/// state does not wait for, end with [`ModError::Failed`].
pub open spec fn lookup_step(
    mod_name: Seq<char>,
    state: LookupStateView,
    event: LookupEventView,
) -> (LookupStateView, LookupActionView) {
    match (state, event) {
        (LookupStateView::Start, LookupEventView::Begin) => (
            LookupStateView::AwaitingMod,
            LookupActionView::Ask(mod_api_url(mod_name)),
        ),
        (LookupStateView::AwaitingMod, LookupEventView::Answer(info)) => (
            LookupStateView::Finished,
            LookupActionView::Finish(Ok(info.data(mod_name))),
        ),
        (LookupStateView::AwaitingMod, LookupEventView::Refused) => (
            LookupStateView::AwaitingSearch,
            LookupActionView::Search(mod_query_url(mod_name)),
        ),
        (LookupStateView::AwaitingSearch, LookupEventView::Page(html)) => after_search(
            scraped_attribute(html, RESULT_SELECTOR@, LINK_SELECTOR@, TARGET_ATTRIBUTE@),
        ),
        (LookupStateView::AwaitingSearch, LookupEventView::Refused) => (
            LookupStateView::Finished,
            LookupActionView::Finish(Err(ModError::NotFound)),
        ),
        (LookupStateView::AwaitingSearch, LookupEventView::Broken) => (
            LookupStateView::Finished,
            LookupActionView::Finish(Err(ModError::NotFound)),
        ),
        (LookupStateView::AwaitingFoundMod(found), LookupEventView::Answer(info)) => (
            LookupStateView::Finished,
            LookupActionView::Finish(Ok(info.data(found))),
        ),
        (LookupStateView::AwaitingFoundMod(_), LookupEventView::Refused) => (
            LookupStateView::Finished,
            LookupActionView::Finish(Err(ModError::NotFound)),
        ),
        _ => (LookupStateView::Finished, LookupActionView::Finish(Err(ModError::Failed))),
    }
}

/// Takes the step that follows a search that has found the link `link`, or
/// none.
pub fn step_after_search(link: Option<String>) -> (r: (LookupState, LookupAction))
    ensures
        (r.0@, r.1@) == after_search(link.deep_view()),
{
    match link {
        Some(link) => match mod_name_from_link(link.as_str()) {
            Some(name) => (
                LookupState::AwaitingFoundMod(String::from_str(name)),
                LookupAction::Ask(mod_api(name)),
            ),
            None => (LookupState::Finished, LookupAction::Finish(Err(ModError::NotFound))),
        },
        None => (LookupState::Finished, LookupAction::Finish(Err(ModError::NotFound))),
    }
}

/// Makes one step of the search for the mod `mod_name`.
pub fn step(mod_name: &str, state: LookupState, event: LookupEvent) -> (r: (
    LookupState,
    LookupAction,
))
    ensures
        (r.0@, r.1@) == lookup_step(mod_name@, state@, event@),
{
    match (state, event) {
        (LookupState::Start, LookupEvent::Begin) => (
            LookupState::AwaitingMod,
            LookupAction::Ask(mod_api(mod_name)),
        ),
        (LookupState::AwaitingMod, LookupEvent::Answer(info)) => (
            LookupState::Finished,
            LookupAction::Finish(Ok(mod_data(info, mod_name))),
        ),
        (LookupState::AwaitingMod, LookupEvent::Refused) => (
            LookupState::AwaitingSearch,
            LookupAction::Search(mod_query(mod_name)),
        ),
        (LookupState::AwaitingSearch, LookupEvent::Page(html)) => step_after_search(
            scrape_attribute(html.as_str(), RESULT_SELECTOR, LINK_SELECTOR, TARGET_ATTRIBUTE),
        ),
        (LookupState::AwaitingSearch, LookupEvent::Refused) => (
            LookupState::Finished,
            LookupAction::Finish(Err(ModError::NotFound)),
        ),
        (LookupState::AwaitingSearch, LookupEvent::Broken) => (
            LookupState::Finished,
            LookupAction::Finish(Err(ModError::NotFound)),
        ),
        (LookupState::AwaitingFoundMod(found), LookupEvent::Answer(info)) => (
            LookupState::Finished,
            LookupAction::Finish(Ok(mod_data(info, found.as_str()))),
        ),
        (LookupState::AwaitingFoundMod(_), LookupEvent::Refused) => (
            LookupState::Finished,
            LookupAction::Finish(Err(ModError::NotFound)),
        ),
        _ => (LookupState::Finished, LookupAction::Finish(Err(ModError::Failed))),
    }
}

} // verus!
