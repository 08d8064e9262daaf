//! What holds of the store as a whole, proved over the mathematical values of
//! its types.

use crate::command_filter::{CommandDisability, CommandFilterView, EditCommandFilterView};
use crate::document::GuildConfigDataView;
use crate::guild_config::{EditGuildConfigView, GuildConfigView};
use crate::ids::{ChannelId, GuildId};
use crate::info_channel::{EditInfoChannel, InfoChannelType};
use crate::manager::{load_step, LoadActionView, LoadEventView, LoadState};
use vstd::prelude::*;

verus! {

/// The names of the info channel types differ from one another, and each
/// name stands for its type.
pub proof fn lemma_info_channel_names(ic_type: InfoChannelType)
    ensures
        InfoChannelType::named(ic_type.name()) == Some(ic_type),
        InfoChannelType::Welcome.name() != InfoChannelType::Log.name(),
        InfoChannelType::Welcome.name() != InfoChannelType::ModList.name(),
        InfoChannelType::Log.name() != InfoChannelType::ModList.name(),
{
    reveal_strlit("welcome");
    reveal_strlit("log");
    reveal_strlit("mod-list");
    assert("welcome"@.len() == 7);
    assert("log"@.len() == 3);
    assert("mod-list"@.len() == 8);
}

/// The code of a restriction stands for that restriction, and a code that
/// stands for a restriction is that restriction's code.
pub proof fn lemma_codes(filter_type: CommandDisability, code: u8)
    ensures
        CommandDisability::coded(filter_type.code()) == Some(filter_type),
        CommandDisability::coded(code) matches Some(coded) ==> coded.code() == code,
        CommandDisability::coded(code) is Some <==> code <= 3,
{
}

/// An unrestricted command runs in every channel.
pub proof fn lemma_unrestricted_allows_all(channels: Seq<ChannelId>, channel: ChannelId)
    ensures
        (CommandFilterView { filter_type: CommandDisability::Unrestricted, channels }).verdict(
            channel,
        ) == Ok::<CommandDisability, CommandDisability>(CommandDisability::Unrestricted),
{
}

/// A command that is disabled everywhere runs in no channel.
pub proof fn lemma_global_denies_all(channels: Seq<ChannelId>, channel: ChannelId)
    ensures
        (CommandFilterView { filter_type: CommandDisability::Global, channels }).verdict(channel)
            == Err::<CommandDisability, CommandDisability>(CommandDisability::Global),
{
}

/// A whitelist without channels denies every channel.
pub proof fn lemma_empty_whitelist_denies_all(channel: ChannelId)
    ensures
        (CommandFilterView {
            filter_type: CommandDisability::Whitelisted,
            channels: Seq::empty(),
        }).verdict(channel) == Err::<CommandDisability, CommandDisability>(
            CommandDisability::Whitelisted,
        ),
{
}

/// A blacklist without channels allows every channel.
pub proof fn lemma_empty_blacklist_allows_all(channel: ChannelId)
    ensures
        (CommandFilterView {
            filter_type: CommandDisability::Blacklisted,
            channels: Seq::empty(),
        }).verdict(channel) == Ok::<CommandDisability, CommandDisability>(
            CommandDisability::Blacklisted,
        ),
{
}

/// A whitelist allows exactly its channels, and a blacklist denies exactly
/// its channels.
pub proof fn lemma_listed_channels_decide(channels: Seq<ChannelId>, channel: ChannelId)
    ensures
        (CommandFilterView { filter_type: CommandDisability::Whitelisted, channels }).verdict(
            channel,
        ) is Ok <==> channels.contains(channel),
        (CommandFilterView { filter_type: CommandDisability::Blacklisted, channels }).verdict(
            channel,
        ) is Err <==> channels.contains(channel),
{
}

/// A request that asks nothing leaves the configuration as it is.
pub proof fn lemma_empty_request_changes_nothing(
    request: EditGuildConfigView,
    config: GuildConfigView,
)
    requires
        request.is_empty(),
    ensures
        request.apply(config) == config,
{
}

/// A request that sets the state or the channel of the mod-list channel
/// empties the mod-list messages, whatever they were and whatever it sets; any
/// other request keeps them, also one that names the mod-list channel and
/// sets nothing.
pub proof fn lemma_mod_list_change_forgets_messages(
    request: EditGuildConfigView,
    config: GuildConfigView,
)
    ensures
        (request.info_channels.mod_list matches Some(edit) && (edit.state is Some || edit.channel
            is Some)) ==> request.apply(config).mod_list_messages == Seq::<
            (Seq<char>, u64),
        >::empty(),
        (request.info_channels.mod_list matches Some(edit) ==> edit.state is None && edit.channel
            is None) ==> request.apply(config).mod_list_messages == config.mod_list_messages,
{
}

/// An entry that names an info channel and sets nothing is no change: a
/// request with such entries asks as much as the request without them.
pub proof fn lemma_entry_that_sets_nothing_is_no_change(
    request: EditGuildConfigView,
    ic_type: InfoChannelType,
    config: GuildConfigView,
)
    ensures
        ({
            let named = EditGuildConfigView {
                info_channels: request.info_channels.spec_with(
                    ic_type,
                    EditInfoChannel { state: None, channel: None },
                ),
                ..request
            };
            &&& request.info_channels.spec_get(ic_type) is None ==> named.is_empty()
                == request.is_empty()
            &&& request.info_channels.spec_get(ic_type) is None ==> named.apply(config)
                == request.apply(config)
        }),
{
}

/// A request touches neither the guild's id, nor its command filters, nor
/// the link lookup, and it keeps the configuration well formed.
pub proof fn lemma_request_keeps_the_rest(request: EditGuildConfigView, config: GuildConfigView)
    ensures
        request.apply(config).guild_id == config.guild_id,
        request.apply(config).command_filters == config.command_filters,
        request.apply(config).message_link_lookup == config.message_link_lookup,
        config.wf() ==> request.apply(config).wf(),
{
}

/// After a filter has been set for a command, that filter holds for the
/// command, every other command keeps the filter that held for it, and the
/// configuration is still well formed.
pub proof fn lemma_filter_after_set(
    config: GuildConfigView,
    name: Seq<char>,
    filter: CommandFilterView,
    other: Seq<char>,
)
    requires
        config.wf(),
    ensures
        config.with_filter(name, filter).wf(),
        config.with_filter(name, filter).has_filter(name),
        config.with_filter(name, filter).filter(name) == filter,
        other != name ==> config.with_filter(name, filter).filter(other) == config.filter(other),
        other != name ==> (config.with_filter(name, filter).has_filter(other)
            <==> config.has_filter(other)),
{
    let after = config.with_filter(name, filter);
    let at = if config.has_filter(name) {
        config.position(name)
    } else {
        config.command_filters.len() as int
    };
    assert(after.command_filters[at].0 == name);
    assert forall|i: int, j: int| 0 <= i < j < after.command_filters.len() implies
        after.command_filters[i].0 != after.command_filters[j].0 by {
        if j < config.command_filters.len() {
            assert(after.command_filters[j].0 == config.command_filters[j].0);
        }
        assert(after.command_filters[i].0 == config.command_filters[i].0);
    }
    lemma_position_is_unique(after, name, at);
    if other != name {
        if config.has_filter(other) {
            let there = config.position(other);
            assert(after.command_filters[there].0 == other);
            lemma_position_is_unique(after, other, there);
        } else if after.has_filter(other) {
            let there = after.position(other);
            assert(config.command_filters[there].0 == other);
        }
    }
}

/// In a well-formed configuration the filter of a command stands in one place
/// only.
pub proof fn lemma_position_is_unique(config: GuildConfigView, name: Seq<char>, at: int)
    requires
        config.wf(),
        0 <= at < config.command_filters.len(),
        config.command_filters[at].0 == name,
    ensures
        config.has_filter(name),
        config.position(name) == at,
        config.filter(name) == config.command_filters[at].1,
{
    let chosen = config.position(name);
    if chosen < at {
        assert(config.command_filters[chosen].0 != config.command_filters[at].0);
    }
    if at < chosen {
        assert(config.command_filters[at].0 != config.command_filters[chosen].0);
    }
}

/// To set for a command the filter that holds for it already changes no
/// filter; it only makes the filter exist.
pub proof fn lemma_reference_keeps_filters(
    config: GuildConfigView,
    name: Seq<char>,
    other: Seq<char>,
)
    requires
        config.wf(),
    ensures
        config.with_filter(name, config.filter(name)).filter(other) == config.filter(other),
        config.has_filter(name) ==> config.with_filter(name, config.filter(name)) == config,
{
    lemma_filter_after_set(config, name, config.filter(name), other);
    if config.has_filter(name) {
        let at = config.position(name);
        assert(config.command_filters.update(at, (name, config.filter(name)))
            =~= config.command_filters);
    }
}

/// A change of the settings and a change of a command's filter do not
/// disturb each other: made in either order they leave the same
/// configuration, which holds both.
pub proof fn lemma_edits_commute(
    config: GuildConfigView,
    request: EditGuildConfigView,
    name: Seq<char>,
    filter_request: EditCommandFilterView,
)
    requires
        config.wf(),
    ensures
        ({
            let settings_first = request.apply(config);
            let filter_first = config.with_filter(name, filter_request.apply(config.filter(name)));
            &&& settings_first.with_filter(
                name,
                filter_request.apply(settings_first.filter(name)),
            ) == request.apply(filter_first)
            &&& request.apply(filter_first).filter(name) == filter_request.apply(
                config.filter(name),
            )
            &&& request.default_roles matches Some(roles) ==> request.apply(
                filter_first,
            ).default_roles == roles
        }),
{
    let settings_first = request.apply(config);
    assert(settings_first.command_filters == config.command_filters);
    assert(settings_first.has_filter(name) == config.has_filter(name));
    assert(settings_first.position(name) == config.position(name));
    lemma_filter_after_set(config, name, filter_request.apply(config.filter(name)), name);
    let filter_first = config.with_filter(name, filter_request.apply(config.filter(name)));
    assert(request.apply(filter_first).command_filters == filter_first.command_filters);
    assert(request.apply(filter_first).has_filter(name) == filter_first.has_filter(name));
    assert(request.apply(filter_first).position(name) == filter_first.position(name));
}

/// The stored command filters, each as the filter that it stands for.
pub open spec fn decoded_filters(data: GuildConfigDataView, count: int) -> Seq<
    (Seq<char>, CommandFilterView),
> {
    Seq::new(
        count as nat,
        |i: int| (data.command_filters[i].0, data.command_filters[i].1.decoded()),
    )
}

/// Command filters that are stored under names of which no two are the same
/// come out as they are stored, in their order.
pub proof fn lemma_distinct_filters_are_kept(
    data: GuildConfigDataView,
    config: GuildConfigView,
    count: int,
)
    requires
        data.command_names_distinct(),
        config.command_filters.len() == 0,
        0 <= count <= data.command_filters.len(),
    ensures
        data.with_filters(config, count) == (GuildConfigView {
            command_filters: decoded_filters(data, count),
            ..config
        }),
    decreases count,
{
    if count > 0 {
        lemma_distinct_filters_are_kept(data, config, count - 1);
        let before = data.with_filters(config, count - 1);
        let name = data.command_filters[count - 1].0;
        if before.has_filter(name) {
            let at = before.position(name);
            assert(before.command_filters[at].0 == data.command_filters[at].0);
            assert(data.command_filters[at].0 != data.command_filters[count - 1].0);
        }
        assert(data.with_filters(config, count).command_filters =~= decoded_filters(data, count));
    } else {
        assert(config.command_filters =~= decoded_filters(data, count));
    }
}

/// Setting the stored command filters in a well-formed configuration leaves
/// it well formed and touches nothing but its command filters.
pub proof fn lemma_stored_filters_keep_the_rest(
    data: GuildConfigDataView,
    config: GuildConfigView,
    count: int,
)
    requires
        config.wf(),
    ensures
        data.with_filters(config, count).wf(),
        data.with_filters(config, count) == (GuildConfigView {
            command_filters: data.with_filters(config, count).command_filters,
            ..config
        }),
    decreases count,
{
    if count > 0 {
        lemma_stored_filters_keep_the_rest(data, config, count - 1);
        let name = data.command_filters[count - 1].0;
        lemma_filter_after_set(
            data.with_filters(config, count - 1),
            name,
            data.command_filters[count - 1].1.decoded(),
            name,
        );
    }
}

/// Of several filters that are stored for one command, the last one holds;
/// a command for which none is stored keeps the filter that held for it.
pub proof fn lemma_last_stored_filter_holds(
    data: GuildConfigDataView,
    config: GuildConfigView,
    count: int,
    name: Seq<char>,
)
    requires
        config.wf(),
    ensures
        data.with_filters(config, count).filter(name) == match data.last_filter_for(name, count) {
            Some(at) => data.command_filters[at].1.decoded(),
            None => config.filter(name),
        },
    decreases count,
{
    if count > 0 {
        lemma_last_stored_filter_holds(data, config, count - 1, name);
        lemma_stored_filters_keep_the_rest(data, config, count - 1);
        lemma_filter_after_set(
            data.with_filters(config, count - 1),
            data.command_filters[count - 1].0,
            data.command_filters[count - 1].1.decoded(),
            name,
        );
    }
}

/// The document that stores a well-formed configuration breaks no rule,
/// stores no command twice, and stores that configuration and no other.
pub proof fn lemma_stored_configuration_reads_back(config: GuildConfigView)
    requires
        config.wf(),
    ensures
        config.data().defect() is None,
        config.data().command_names_distinct(),
        config.data().config(config.guild_id) == config,
{
    let data = config.data();
    lemma_info_channel_names(InfoChannelType::Welcome);
    lemma_info_channel_names(InfoChannelType::Log);
    lemma_info_channel_names(InfoChannelType::ModList);
    assert(data.info_channels[0].0 == InfoChannelType::Welcome.name());
    assert(data.info_channels[1].0 == InfoChannelType::Log.name());
    assert(data.info_channels[2].0 == InfoChannelType::ModList.name());
    assert(data.info_names_known());
    lemma_info_at(data, InfoChannelType::Welcome, 0);
    lemma_info_at(data, InfoChannelType::Log, 1);
    lemma_info_at(data, InfoChannelType::ModList, 2);
    assert(data.filter_types_known()) by {
        assert forall|i: int| 0 <= i < data.command_filters.len() implies CommandDisability::coded(
            (#[trigger] data.command_filters[i]).1.filter_type,
        ) is Some by {
            lemma_codes(config.command_filters[i].1.filter_type, 0);
        }
    }
    assert(data.command_names_distinct()) by {
        assert forall|i: int, j: int| 0 <= i < j < data.command_filters.len() implies (
        #[trigger] data.command_filters[i]).0 != (#[trigger] data.command_filters[j]).0 by {
            assert(data.command_filters[i].0 == config.command_filters[i].0);
            assert(data.command_filters[j].0 == config.command_filters[j].0);
        }
    }
    assert(data.info() == config.info_channels);
    let count = data.command_filters.len() as int;
    lemma_distinct_filters_are_kept(data, data.settings(config.guild_id), count);
    assert(decoded_filters(data, count) =~= config.command_filters) by {
        assert forall|i: int| 0 <= i < config.command_filters.len() implies decoded_filters(
            data,
            count,
        )[i] == config.command_filters[i] by {
            lemma_codes(config.command_filters[i].1.filter_type, 0);
        }
    }
}

/// Storing is idempotent: the configuration that a rule-abiding document
/// stores is well formed, and the document that stores it in turn, read and
/// stored once more, comes out the same.
pub proof fn lemma_storing_is_idempotent(data: GuildConfigDataView, guild_id: GuildId)
    requires
        data.defect() is None,
    ensures
        data.config(guild_id).wf(),
        data.config(guild_id).data().defect() is None,
        data.config(guild_id).data().config(guild_id) == data.config(guild_id),
        data.config(guild_id).data().config(guild_id).data() == data.config(guild_id).data(),
{
    let config = data.config(guild_id);
    lemma_stored_filters_keep_the_rest(
        data,
        data.settings(guild_id),
        data.command_filters.len() as int,
    );
    lemma_stored_configuration_reads_back(config);
}

/// A document as documents are written, with the info channels in their
/// order and no command twice, stores what it says: read and stored again,
/// it comes out as it was.
pub proof fn lemma_written_document_is_kept(data: GuildConfigDataView, guild_id: GuildId)
    requires
        data.defect() is None,
        data.command_names_distinct(),
        data.info_channels.len() == 3,
        data.info_channels[0].0 == InfoChannelType::Welcome.name(),
        data.info_channels[1].0 == InfoChannelType::Log.name(),
        data.info_channels[2].0 == InfoChannelType::ModList.name(),
    ensures
        data.config(guild_id).data() == data,
{
    let config = data.config(guild_id);
    let again = config.data();
    lemma_info_channel_names(InfoChannelType::Welcome);
    lemma_info_channel_names(InfoChannelType::Log);
    lemma_info_channel_names(InfoChannelType::ModList);
    lemma_info_at(data, InfoChannelType::Welcome, 0);
    lemma_info_at(data, InfoChannelType::Log, 1);
    lemma_info_at(data, InfoChannelType::ModList, 2);
    lemma_distinct_filters_are_kept(
        data,
        data.settings(guild_id),
        data.command_filters.len() as int,
    );
    assert(again.info_channels =~= data.info_channels);
    assert(again.command_filters =~= data.command_filters) by {
        assert forall|i: int| 0 <= i < data.command_filters.len() implies again.command_filters[i]
            == data.command_filters[i] by {
            assert(CommandDisability::coded((#[trigger] data.command_filters[i]).1.filter_type)
                is Some);
            lemma_codes(CommandDisability::Global, data.command_filters[i].1.filter_type);
        }
    }
}

/// What is stored for an info channel type is the last entry that bears its
/// name.
pub proof fn lemma_info_at(data: GuildConfigDataView, ic_type: InfoChannelType, at: int)
    requires
        data.is_last_for(ic_type, at),
    ensures
        data.has_info_channel(ic_type),
        data.info_channel(ic_type) == data.info_channels[at].1,
{
    let chosen = choose|other: int| data.is_last_for(ic_type, other);
    if chosen < at {
        assert(data.info_channels[at].0 != ic_type.name());
    }
    if at < chosen {
        assert(data.info_channels[chosen].0 != ic_type.name());
    }
}

/// The defaults that are stored for a new guild and the defaults that are put
/// into the cache for it are the same configuration.
pub proof fn lemma_fresh_document_stores_fresh_configuration(
    guild_id: GuildId,
    default_channel: ChannelId,
)
    ensures
        GuildConfigView::fresh(guild_id, default_channel).wf(),
        GuildConfigView::fresh(guild_id, default_channel).data() == GuildConfigDataView::fresh(
            default_channel,
        ),
        GuildConfigDataView::fresh(default_channel).defect() is None,
        GuildConfigDataView::fresh(default_channel).config(guild_id) == GuildConfigView::fresh(
            guild_id,
            default_channel,
        ),
{
    let config = GuildConfigView::fresh(guild_id, default_channel);
    assert(config.data().info_channels =~= GuildConfigDataView::fresh(
        default_channel,
    ).info_channels);
    assert(config.data().command_filters =~= GuildConfigDataView::fresh(
        default_channel,
    ).command_filters);
    lemma_stored_configuration_reads_back(config);
}

/// A guild that is in the cache is not loaded again: a load that begins, and
/// a load that has waited for exclusive access while another load put the
/// guild there, both take what the cache holds and end, without reading,
/// writing or making anything.
pub proof fn lemma_cached_guild_is_not_loaded<H>(
    cache: Map<GuildId, H>,
    guild_id: GuildId,
    handle: H,
)
    ensures
        load_step(
            cache.insert(guild_id, handle).contains_key(guild_id),
            guild_id,
            LoadState::Start,
            LoadEventView::Begin,
        ) == (LoadState::Finished, LoadActionView::UseCached),
        load_step(
            cache.insert(guild_id, handle).contains_key(guild_id),
            guild_id,
            LoadState::AwaitingExclusive,
            LoadEventView::ExclusiveGranted,
        ) == (LoadState::Finished, LoadActionView::UseCached),
{
}

/// A load reads the guild's file only after it has found, with exclusive
/// access, that the guild is not in the cache; it writes only the defaults of
/// a guild whose file gave no configuration; and it makes a configuration
/// only from what the file gave or from the defaults that it has stored.
pub proof fn lemma_load_order(
    cached: bool,
    guild_id: GuildId,
    state: LoadState,
    event: LoadEventView,
)
    ensures
        load_step(cached, guild_id, state, event).1 is ReadFile ==> !cached && state
            == LoadState::AwaitingExclusive,
        load_step(cached, guild_id, state, event).1 is FindGuild ==> state
            == LoadState::AwaitingFile,
        load_step(cached, guild_id, state, event).1 is WriteFile ==> state
            == LoadState::AwaitingGuild && load_step(cached, guild_id, state, event).0
            is AwaitingWrite,
        load_step(cached, guild_id, state, event).1 is Install ==> state == LoadState::AwaitingFile
            || state is AwaitingWrite,
        load_step(cached, guild_id, state, event).1 is UseCached ==> cached,
        (load_step(cached, guild_id, state, event).1 is UseCached || load_step(
            cached,
            guild_id,
            state,
            event,
        ).1 is Install || load_step(cached, guild_id, state, event).1 is Fail) <==> load_step(
            cached,
            guild_id,
            state,
            event,
        ).0 == LoadState::Finished,
{
}

/// What the outside answers to the questions of one load.
pub ghost struct LoadAnswers {
    /// Whether the guild's file is there and reading it fails.
    pub read_fails: bool,
    /// The document that the guild's file holds, where it holds one.
    pub file: Option<GuildConfigDataView>,
    /// The guild's system channel, where the guild is known.
    pub guild: Option<Option<ChannelId>>,
    /// Whether the defaults can be stored.
    pub stores: bool,
}

/// The event by which the outside answers `action`.
pub open spec fn answer(action: LoadActionView, answers: LoadAnswers) -> LoadEventView {
    match action {
        LoadActionView::ReadFile(_) => if answers.read_fails {
            LoadEventView::ReadFailed
        } else {
            match answers.file {
                Some(data) => LoadEventView::FileRead(data),
                None => LoadEventView::NoDocument,
            }
        },
        LoadActionView::FindGuild => match answers.guild {
            Some(system_channel) => LoadEventView::GuildFound(system_channel),
            None => LoadEventView::GuildMissing,
        },
        LoadActionView::WriteFile(_, _) => if answers.stores {
            LoadEventView::Written
        } else {
            LoadEventView::WriteFailed
        },
        _ => LoadEventView::ExclusiveGranted,
    }
}

/// What a load asks, in order, from the state `state` and the event `event`
/// on, while the outside answers each question as `answers` has it and the
/// cache stays as it is; at most `steps` questions.
pub open spec fn load_run(
    cached: bool,
    guild_id: GuildId,
    state: LoadState,
    event: LoadEventView,
    answers: LoadAnswers,
    steps: nat,
) -> Seq<LoadActionView>
    decreases steps,
{
    if steps == 0 {
        Seq::empty()
    } else {
        let step = load_step(cached, guild_id, state, event);
        if step.0 == LoadState::Finished {
            seq![step.1]
        } else {
            seq![step.1] + load_run(
                cached,
                guild_id,
                step.0,
                answer(step.1, answers),
                answers,
                (steps - 1) as nat,
            )
        }
    }
}

/// How often something is written in the course of `actions`.
pub open spec fn writes_in(actions: Seq<LoadActionView>) -> nat
    decreases actions.len(),
{
    if actions.len() == 0 {
        0
    } else if actions.last() is WriteFile {
        writes_in(actions.drop_last()) + 1
    } else {
        writes_in(actions.drop_last())
    }
}

/// A load that has exclusive access is over after four questions at most. It
/// ends by taking the guild from the cache, by putting a configuration into
/// the cache, or by failing, and it does only one of these, once, as the last
/// thing. It writes at most once, and never where the guild is in the cache,
/// its file holds a configuration, or its file cannot be read: then the load
/// fails after the read and the file stays as it is.
pub proof fn lemma_load_is_short(cached: bool, guild_id: GuildId, answers: LoadAnswers)
    ensures
        ({
            let run = load_run(
                cached,
                guild_id,
                LoadState::AwaitingExclusive,
                LoadEventView::ExclusiveGranted,
                answers,
                4,
            );
            &&& 1 <= run.len() <= 4
            &&& run.last() is UseCached || run.last() is Install || run.last() is Fail
            &&& forall|i: int|
                0 <= i < run.len() - 1 ==> !(run[i] is UseCached || run[i] is Install
                    || run[i] is Fail)
            &&& writes_in(run) <= 1
            &&& cached ==> run == seq![LoadActionView::UseCached]
            &&& (answers.file matches Some(data) && data.defect() is None) ==> writes_in(run) == 0
            &&& answers.read_fails ==> writes_in(run) == 0
            &&& !cached && answers.read_fails ==> run == seq![
                LoadActionView::ReadFile(crate::guild_config::file_name_of(guild_id)),
                LoadActionView::Fail(crate::error::GuildConfigError::Io),
            ]
            &&& !cached && !answers.read_fails && !(answers.file matches Some(data)
                && data.defect() is None) && answers.guild is Some ==> writes_in(run) == 1
        }),
{
    reveal_with_fuel(load_run, 5);
    reveal_with_fuel(writes_in, 5);
    let run = load_run(
        cached,
        guild_id,
        LoadState::AwaitingExclusive,
        LoadEventView::ExclusiveGranted,
        answers,
        4,
    );
    let s1 = load_step(
        cached,
        guild_id,
        LoadState::AwaitingExclusive,
        LoadEventView::ExclusiveGranted,
    );
    if s1.0 != LoadState::Finished {
        let s2 = load_step(cached, guild_id, s1.0, answer(s1.1, answers));
        if s2.0 != LoadState::Finished {
            let s3 = load_step(cached, guild_id, s2.0, answer(s2.1, answers));
            if s3.0 != LoadState::Finished {
                let s4 = load_step(cached, guild_id, s3.0, answer(s3.1, answers));
                assert(s4.0 == LoadState::Finished);
                assert(run =~= seq![s1.1, s2.1, s3.1, s4.1]);
                assert(run.drop_last() =~= seq![s1.1, s2.1, s3.1]);
                assert(run.drop_last().drop_last() =~= seq![s1.1, s2.1]);
                assert(run.drop_last().drop_last().drop_last() =~= seq![s1.1]);
            } else {
                assert(run =~= seq![s1.1, s2.1, s3.1]);
                assert(run.drop_last() =~= seq![s1.1, s2.1]);
                assert(run.drop_last().drop_last() =~= seq![s1.1]);
            }
        } else {
            assert(run =~= seq![s1.1, s2.1]);
            assert(run.drop_last() =~= seq![s1.1]);
        }
    } else {
        assert(run =~= seq![s1.1]);
    }
}

/// Of two loads of one guild that both found the cache without it, only the
/// one that gets exclusive access first makes a configuration: when it has
/// put its configuration into the cache, the other one takes that and asks
/// nothing else, whatever the outside would answer.
pub proof fn lemma_second_load_makes_nothing<H>(
    cache: Map<GuildId, H>,
    guild_id: GuildId,
    handle: H,
    answers: LoadAnswers,
)
    ensures
        load_run(
            cache.insert(guild_id, handle).contains_key(guild_id),
            guild_id,
            LoadState::AwaitingExclusive,
            LoadEventView::ExclusiveGranted,
            answers,
            4,
        ) == seq![LoadActionView::UseCached],
        writes_in(seq![LoadActionView::UseCached]) == 0,
{
    lemma_load_is_short(true, guild_id, answers);
    reveal_with_fuel(writes_in, 2);
    assert(seq![LoadActionView::UseCached].drop_last().len() == 0);
}

/// A file that is there and cannot be read ends the load with an error: the
/// guild is not looked up, nothing is written over the file, and nothing is
/// put into the cache. A missing file and a file that holds no configuration
/// go on to the defaults.
pub proof fn lemma_failed_read_fails_the_load(
    cached: bool,
    guild_id: GuildId,
    data: GuildConfigDataView,
)
    ensures
        load_step(cached, guild_id, LoadState::AwaitingFile, LoadEventView::ReadFailed) == (
            LoadState::Finished,
            LoadActionView::Fail(crate::error::GuildConfigError::Io),
        ),
        load_step(cached, guild_id, LoadState::AwaitingFile, LoadEventView::NoDocument) == (
            LoadState::AwaitingGuild,
            LoadActionView::FindGuild,
        ),
        data.defect() is Some ==> load_step(
            cached,
            guild_id,
            LoadState::AwaitingFile,
            LoadEventView::FileRead(data),
        ) == (LoadState::AwaitingGuild, LoadActionView::FindGuild),
{
}

/// The load of a guild that has no file: it asks for exclusive access, reads,
/// looks the guild up, stores the defaults under the guild's file name and
/// then puts into the cache the configuration that it has stored.
pub proof fn lemma_load_of_new_guild(guild_id: GuildId, system_channel: Option<ChannelId>)
    ensures
        ({
            let channel = crate::manager::fallback_channel(system_channel);
            let name = crate::guild_config::file_name_of(guild_id);
            let begun = load_step(false, guild_id, LoadState::Start, LoadEventView::Begin);
            let granted = load_step(false, guild_id, begun.0, LoadEventView::ExclusiveGranted);
            let read = load_step(false, guild_id, granted.0, LoadEventView::NoDocument);
            let found = load_step(
                false,
                guild_id,
                read.0,
                LoadEventView::GuildFound(system_channel),
            );
            let written = load_step(false, guild_id, found.0, LoadEventView::Written);
            &&& begun.1 == LoadActionView::AcquireExclusive
            &&& granted.1 == LoadActionView::ReadFile(name)
            &&& read.1 == LoadActionView::FindGuild
            &&& found.1 == LoadActionView::WriteFile(name, GuildConfigDataView::fresh(channel))
            &&& written == (
                LoadState::Finished,
                LoadActionView::Install(GuildConfigView::fresh(guild_id, channel)),
            )
            &&& GuildConfigView::fresh(guild_id, channel).data() == GuildConfigDataView::fresh(
                channel,
            )
        }),
{
    lemma_fresh_document_stores_fresh_configuration(
        guild_id,
        crate::manager::fallback_channel(system_channel),
    );
}

} // verus!
