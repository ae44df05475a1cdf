//! What holds of every turn of the dispatch loop.

use vstd::prelude::*;

use crate::log_source::SourceView;
use crate::LogMessageView;
use crate::LogTimestamp;

use crate::filter::filtered_view;
use crate::tui::section_filters::add_all;
use crate::tui::section_filters::replay;
use crate::LogFilterView;

use super::filter_handler::law_filter_replay;
use crate::reassembly::feed_from;
use crate::reassembly::law_reassembly_ignores_chunking;
use crate::reassembly::reassemble;
use crate::reassembly::split_lines;
use crate::reassembly::stored_bytes;
use crate::reassembly::strip_nul;

use super::decoded;
use super::index_of_id;
use super::new_messages;
use super::update_logs;
use super::EffectView;
use super::UiCommandView;
use super::lemma_index_of_id;
use super::message_source;
use super::refresh::lemma_survivors_in_order;
use super::refresh::survivors;
use super::refresh::ProbeSightingView;
use super::CommandView;
use super::CommanderView;

verus! {

/// Every source of `after` was there in `before` under its ID, or got an
/// ID that `before` had not issued yet.
pub open spec fn no_id_reused(before: CommanderView, after: CommanderView) -> bool {
    &&& before.next_id <= after.next_id
    &&& forall|i: int|
        0 <= i < after.sources.len() ==> (#[trigger] after.sources[i]).id() >= before.next_id || (
        exists|j: int|
            0 <= j < before.sources.len() && (#[trigger] before.sources[j]).id()
                == after.sources[i].id())
}

/// Every source of `after` stands in `before` under the same ID.
proof fn lemma_same_ids(before: CommanderView, after: CommanderView)
    requires
        before.wf(),
        after.next_id == before.next_id,
        after.sources.len() == before.sources.len(),
        forall|i: int|
            0 <= i < before.sources.len() ==> (#[trigger] after.sources[i]).id()
                == before.sources[i].id(),
    ensures
        after.wf(),
        no_id_reused(before, after),
{
    assert forall|i: int| 0 <= i < after.sources.len() implies (#[trigger] after.sources[i]).id()
        < after.next_id by {
        assert(before.sources[i].id() < before.next_id);
    }
    assert forall|i: int, j: int| 0 <= i < j < after.sources.len() implies (
    #[trigger] after.sources[i]).id() < (#[trigger] after.sources[j]).id() by {
        assert(before.sources[i].id() < before.sources[j].id());
    }
    assert forall|i: int| 0 <= i < after.sources.len() implies (#[trigger] after.sources[i]).id()
        >= before.next_id || (exists|j: int|
        0 <= j < before.sources.len() && (#[trigger] before.sources[j]).id()
            == after.sources[i].id()) by {
        assert(before.sources[i].id() == after.sources[i].id());
    }
}

/// A source that joins the end of the registry under the next ID keeps
/// the registry in order.
proof fn lemma_registered(before: CommanderView, after: CommanderView, source: SourceView)
    requires
        before.wf(),
        before.can_register(),
        source.id() == before.next_id,
        after.next_id == before.next_id + 1,
        after.sources == before.sources.push(source),
    ensures
        after.wf(),
        no_id_reused(before, after),
{
    assert forall|i: int| 0 <= i < after.sources.len() implies (#[trigger] after.sources[i]).id()
        < after.next_id by {
        if i < before.sources.len() {
            assert(before.sources[i].id() < before.next_id);
        }
    }
    assert forall|i: int, j: int| 0 <= i < j < after.sources.len() implies (
    #[trigger] after.sources[i]).id() < (#[trigger] after.sources[j]).id() by {
        assert(before.sources[i].id() < before.next_id);
        if j < before.sources.len() {
            assert(before.sources[i].id() < before.sources[j].id());
        }
    }
    assert forall|i: int| 0 <= i < after.sources.len() implies (#[trigger] after.sources[i]).id()
        >= before.next_id || (exists|j: int|
        0 <= j < before.sources.len() && (#[trigger] before.sources[j]).id()
            == after.sources[i].id()) by {
        if i < before.sources.len() {
            assert(before.sources[i].id() == after.sources[i].id());
        }
    }
}

/// IDs are issued in rising order and never twice: a turn of the dispatch
/// loop leaves the registry in order, never lowers the ID that comes next,
/// and gives a source that it registers an ID that no source had before.
pub proof fn law_ids_are_never_reused(
    state: CommanderView,
    received: Option<CommandView>,
    timestamp: LogTimestamp,
)
    requires
        state.wf(),
    ensures
        state.step(received, timestamp).0.wf(),
        no_id_reused(state, state.step(received, timestamp).0),
{
    let after = state.step(received, timestamp).0;
    match received {
        None => {
            lemma_same_ids(state, after);
        },
        Some(command) => {
            match command {
                CommandView::ParseLogBytes(id, bytes) => {
                    lemma_index_of_id(state.sources, id);
                    lemma_same_ids(state, after);
                },
                CommandView::ConnectLogSource(id) => {
                    lemma_index_of_id(state.sources, id);
                    lemma_same_ids(state, after);
                },
                CommandView::DisconnectLogSource(id) => {
                    lemma_index_of_id(state.sources, id);
                    lemma_same_ids(state, after);
                },
                CommandView::StreamFile(path) => {
                    if state.can_register() {
                        lemma_registered(state, after, after.sources.last());
                    } else {
                        lemma_same_ids(state, after);
                    }
                },
                CommandView::StreamStdin => {
                    if state.can_register() {
                        lemma_registered(state, after, after.sources.last());
                    } else {
                        lemma_same_ids(state, after);
                    }
                },
                _ => {
                    lemma_same_ids(state, after);
                },
            }
        },
    }
}

/// Looking at one more probe keeps the registry in order and reuses no ID.
proof fn lemma_see_probe_ids(state: CommanderView, sighting: ProbeSightingView)
    requires
        state.wf(),
    ensures
        state.see_probe(sighting).wf(),
        no_id_reused(state, state.see_probe(sighting)),
{
    let after = state.see_probe(sighting);
    if after.sources.len() == state.sources.len() {
        lemma_same_ids(state, after);
    } else {
        lemma_registered(state, after, after.sources.last());
    }
}

/// `no_id_reused` carries over two changes in a row.
proof fn lemma_no_id_reused_twice(a: CommanderView, b: CommanderView, c: CommanderView)
    requires
        no_id_reused(a, b),
        no_id_reused(b, c),
    ensures
        no_id_reused(a, c),
{
    assert forall|i: int| 0 <= i < c.sources.len() implies (#[trigger] c.sources[i]).id()
        >= a.next_id || (exists|j: int|
        0 <= j < a.sources.len() && (#[trigger] a.sources[j]).id() == c.sources[i].id()) by {
        if c.sources[i].id() < b.next_id {
            let k = choose|k: int|
                0 <= k < b.sources.len() && (#[trigger] b.sources[k]).id() == c.sources[i].id();
            assert(b.sources[k].id() >= a.next_id || (exists|j: int|
                0 <= j < a.sources.len() && (#[trigger] a.sources[j]).id() == b.sources[k].id()));
        }
    }
}

/// Looking at a list of probes keeps the registry in order and reuses no
/// ID.
proof fn lemma_see_probes_ids(state: CommanderView, sightings: Seq<ProbeSightingView>)
    requires
        state.wf(),
    ensures
        state.see_probes(sightings).wf(),
        no_id_reused(state, state.see_probes(sightings)),
    decreases sightings.len(),
{
    if sightings.len() == 0 {
        lemma_same_ids(state, state);
    } else {
        let middle = state.see_probes(sightings.drop_last());
        lemma_see_probes_ids(state, sightings.drop_last());
        lemma_see_probe_ids(middle, sightings.last());
        lemma_no_id_reused_twice(state, middle, middle.see_probe(sightings.last()));
    }
}

/// A refresh of the registry reuses no ID either: the sources that it
/// registers get IDs that no source had before, those that it removes leave
/// their IDs unused for good, and the registry stays in order.
pub proof fn law_refresh_never_reuses_ids(state: CommanderView, sightings: Seq<ProbeSightingView>)
    requires
        state.wf(),
    ensures
        state.refresh(sightings).wf(),
        no_id_reused(state, state.refresh(sightings)),
{
    let after = state.refresh(sightings);
    if state.targets is None {
        lemma_same_ids(state, after);
    } else {
        let seen = state.see_probes(sightings);
        lemma_see_probes_ids(state, sightings);
        lemma_survivors_in_order(seen.sources, sightings, seen.next_id);
        assert forall|i: int| 0 <= i < after.sources.len() implies (
        #[trigger] after.sources[i]).id() >= seen.next_id || (exists|j: int|
            0 <= j < seen.sources.len() && (#[trigger] seen.sources[j]).id()
                == after.sources[i].id()) by {
            assert(seen.sources.contains(after.sources[i]));
            let j = choose|j: int|
                0 <= j < seen.sources.len() && seen.sources[j] == after.sources[i];
            assert(seen.sources[j].id() == after.sources[i].id());
        }
        assert(no_id_reused(seen, after));
        lemma_no_id_reused_twice(state, seen, after);
    }
}

/// A refresh never touches a source that reads a file or standard input.
pub proof fn law_refresh_keeps_streams(
    sources: Seq<SourceView>,
    sightings: Seq<ProbeSightingView>,
    at: int,
)
    requires
        0 <= at < sources.len(),
        !sources[at].is_hardware(),
    ensures
        survivors(sources, sightings).contains(sources[at]),
    decreases sources.len(),
{
    let kept = survivors(sources, sightings);
    if at == sources.len() - 1 {
        assert(kept.last() == sources[at]);
        assert(kept[kept.len() - 1] == sources[at]);
    } else {
        law_refresh_keeps_streams(sources.drop_last(), sightings, at);
        let earlier = survivors(sources.drop_last(), sightings);
        let j = choose|j: int| 0 <= j < earlier.len() && earlier[j] == sources.drop_last()[at];
        assert(kept[j] == sources[at]);
    }
}

/// The log history is kept in the order of arrival: no turn of the
/// dispatch loop reorders or drops single messages. A turn leaves the
/// history as it is or appends to its end, and only the command to clear
/// the logs empties it. The messages that a chunk of bytes adds carry the
/// ID of the source of the chunk.
pub proof fn law_history_in_arrival_order(
    state: CommanderView,
    received: Option<CommandView>,
    timestamp: LogTimestamp,
)
    ensures
        received == Some(CommandView::ClearLogs) ==> state.step(received, timestamp).0.history
            == Seq::<LogMessageView>::empty(),
        received != Some(CommandView::ClearLogs) ==> state.history.is_prefix_of(
            state.step(received, timestamp).0.history,
        ),
        received matches Some(CommandView::ParseLogBytes(id, bytes)) ==> forall|i: int|
            state.history.len() <= i < state.step(received, timestamp).0.history.len() ==> (
            #[trigger] state.step(received, timestamp).0.history[i]).source_id == message_source(
                id,
            ),
{
    let after = state.step(received, timestamp).0;
    match received {
        Some(CommandView::ClearLogs) => {},
        Some(CommandView::ParseLogBytes(id, bytes)) => {
            assert(state.history.is_prefix_of(after.history));
        },
        _ => {
            assert(after.history == state.history);
        },
    }
}

/// The state after a run of commands, all taken at the given time.
pub open spec fn run(
    state: CommanderView,
    commands: Seq<CommandView>,
    timestamp: LogTimestamp,
) -> CommanderView
    decreases commands.len(),
{
    if commands.len() == 0 {
        state
    } else {
        run(state, commands.drop_last(), timestamp).after(commands.last(), timestamp)
    }
}

/// A run of commands that add filters adds them in order.
proof fn lemma_run_add_all(
    state: CommanderView,
    list: Seq<LogFilterView>,
    timestamp: LogTimestamp,
)
    ensures
        run(state, add_all(list), timestamp) == state.add_filters(list),
    decreases list.len(),
{
    if list.len() > 0 {
        lemma_run_add_all(state, list.drop_last(), timestamp);
        assert(add_all(list).drop_last() =~= add_all(list.drop_last()));
    }
}

/// A run of two runs of commands is the second run after the first.
proof fn lemma_run_concat(
    state: CommanderView,
    first: Seq<CommandView>,
    second: Seq<CommandView>,
    timestamp: LogTimestamp,
)
    ensures
        run(state, first + second, timestamp) == run(
            run(state, first, timestamp),
            second,
            timestamp,
        ),
    decreases second.len(),
{
    if second.len() == 0 {
        assert(first + second =~= first);
    } else {
        lemma_run_concat(state, first, second.drop_last(), timestamp);
        assert((first + second).drop_last() =~= first + second.drop_last());
    }
}

/// A run of one command is that command.
proof fn lemma_run_one(state: CommanderView, command: CommandView, timestamp: LogTimestamp)
    ensures
        run(state, seq![command], timestamp) == state.after(command, timestamp),
{
    reveal_with_fuel(run, 2);
    assert(seq![command].drop_last() =~= Seq::<CommandView>::empty());
}

/// The replay of a filter list puts that list in force: when the dispatch
/// loop has taken the commands that clear the filters, add the filters of a
/// list one at a time and ask for the list, the filters in force are the
/// list, the history is untouched, the last view of the logs handed to the
/// rendering layer is the history filtered by the list in one batch, and
/// the list was handed over after it.
pub proof fn law_replay_puts_list_in_force(
    state: CommanderView,
    list: Seq<LogFilterView>,
    timestamp: LogTimestamp,
)
    ensures
        run(state, replay(list), timestamp).filters == list,
        run(state, replay(list), timestamp).history == state.history,
        run(state, replay(list), timestamp).effects.len() >= 2,
        run(state, replay(list), timestamp).effects.last() == EffectView::Ui(
            UiCommandView::UpdateFilterList(list),
        ),
        run(state, replay(list), timestamp).effects[run(
            state,
            replay(list),
            timestamp,
        ).effects.len() - 2] == update_logs(filtered_view(state.history, list)),
{
    let cleared = seq![CommandView::ClearFilters];
    let asked = seq![CommandView::GetFilters];
    let added = state.clear_filters().add_filters(list);
    lemma_run_concat(state, cleared + add_all(list), asked, timestamp);
    lemma_run_concat(state, cleared, add_all(list), timestamp);
    lemma_run_one(state, CommandView::ClearFilters, timestamp);
    lemma_run_add_all(state.clear_filters(), list, timestamp);
    assert(run(state, cleared + add_all(list), timestamp) == added);
    lemma_run_one(added, CommandView::GetFilters, timestamp);
    law_filter_replay(state, list);
    let end = added.tell(UiCommandView::UpdateFilterList(added.filters));
    assert(run(state, replay(list), timestamp) == end);
    assert(added.effects.len() >= 1) by {
        lemma_replay_tells(state, list);
    }
    assert(end.effects[end.effects.len() - 2] == added.effects.last());
}

/// Clearing the filters and adding a list tells the rendering layer at
/// least once.
proof fn lemma_replay_tells(state: CommanderView, list: Seq<LogFilterView>)
    ensures
        state.clear_filters().add_filters(list).effects.len() >= 1,
    decreases list.len(),
{
    if list.len() > 0 {
        lemma_replay_tells(state, list.drop_last());
    }
}

/// The commands that carry the chunks of one source, in order.
pub open spec fn chunk_commands(id: u32, chunks: Seq<Seq<u8>>) -> Seq<CommandView> {
    chunks.map_values(|chunk: Seq<u8>| CommandView::ParseLogBytes(id, chunk))
}

/// The chunks of one source are reassembled as one stream, however the
/// stream was cut: when the dispatch loop has taken the chunks of a source,
/// the history has grown by the decoded lines of the whole stream, in
/// order, and the storage of the source holds what follows the last newline
/// of the stream. The stream is what the source had stored, followed by all
/// the chunks.
pub proof fn law_chunks_make_one_stream(
    state: CommanderView,
    id: u32,
    chunks: Seq<Seq<u8>>,
    timestamp: LogTimestamp,
)
    requires
        index_of_id(state.sources, id) is Some,
        chunks.len() > 0,
    ensures
        ({
            let at = index_of_id(state.sources, id).unwrap();
            let end = run(state, chunk_commands(id, chunks), timestamp);
            let stream = split_lines(
                strip_nul(stored_bytes(state.sources[at].link.storage) + chunks.flatten()),
            );
            &&& index_of_id(end.sources, id) == Some(at)
            &&& end.sources[at].link.storage == Some(stream.tail)
            &&& end.history == state.history + new_messages(
                decoded(stream.lines),
                timestamp,
                message_source(id),
            )
        }),
{
    let at = index_of_id(state.sources, id).unwrap();
    lemma_chunks_feed(state, id, chunks, timestamp);
    law_reassembly_ignores_chunking(stored_bytes(state.sources[at].link.storage), chunks);
}

/// The run of the chunks of one source follows `feed_from`.
proof fn lemma_chunks_feed(
    state: CommanderView,
    id: u32,
    chunks: Seq<Seq<u8>>,
    timestamp: LogTimestamp,
)
    requires
        index_of_id(state.sources, id) is Some,
    ensures
        ({
            let at = index_of_id(state.sources, id).unwrap();
            let end = run(state, chunk_commands(id, chunks), timestamp);
            let fed = feed_from(stored_bytes(state.sources[at].link.storage), chunks);
            &&& index_of_id(end.sources, id) == Some(at)
            &&& end.sources.len() == state.sources.len()
            &&& stored_bytes(end.sources[at].link.storage) == fed.tail
            &&& chunks.len() > 0 ==> end.sources[at].link.storage == Some(fed.tail)
            &&& end.history == state.history + new_messages(
                decoded(fed.lines),
                timestamp,
                message_source(id),
            )
        }),
    decreases chunks.len(),
{
    let at = index_of_id(state.sources, id).unwrap();
    let stored = stored_bytes(state.sources[at].link.storage);
    lemma_index_of_id(state.sources, id);
    if chunks.len() == 0 {
        assert(state.history + new_messages(
            decoded(feed_from(stored, chunks).lines),
            timestamp,
            message_source(id),
        ) =~= state.history);
    } else {
        let earlier = chunks.drop_last();
        lemma_chunks_feed(state, id, earlier, timestamp);
        assert(chunk_commands(id, chunks).drop_last() =~= chunk_commands(id, earlier));
        let middle = run(state, chunk_commands(id, earlier), timestamp);
        let end = middle.parse_bytes(id, chunks.last(), timestamp);
        assert(run(state, chunk_commands(id, chunks), timestamp) == end);
        lemma_index_of_id(middle.sources, id);
        let fed = feed_from(stored, earlier);
        let step = reassemble(fed.tail, chunks.last());
        lemma_update_keeps_index(
            middle.sources,
            at,
            middle.sources[at].with_storage(Some(step.tail)),
            id,
        );
        assert(decoded(fed.lines + step.lines) =~= decoded(fed.lines) + decoded(step.lines));
        assert(new_messages(
            decoded(fed.lines) + decoded(step.lines),
            timestamp,
            message_source(id),
        ) =~= new_messages(decoded(fed.lines), timestamp, message_source(id)) + new_messages(
            decoded(step.lines),
            timestamp,
            message_source(id),
        ));
        assert(end.history =~= state.history + new_messages(
            decoded(feed_from(stored, chunks).lines),
            timestamp,
            message_source(id),
        ));
    }
}

/// A source that is replaced by one with the same ID is found where it
/// was.
proof fn lemma_update_keeps_index(sources: Seq<SourceView>, at: int, source: SourceView, id: u32)
    requires
        0 <= at < sources.len(),
        source.id() == sources[at].id(),
    ensures
        index_of_id(sources.update(at, source), id) == index_of_id(sources, id),
{
    let updated = sources.update(at, source);
    lemma_index_of_id(sources, id);
    lemma_index_of_id(updated, id);
    assert(forall|j: int|
        0 <= j < sources.len() ==> (#[trigger] updated[j]).id() == sources[j].id());
    match index_of_id(sources, id) {
        Some(i) => {
            assert(updated[i].id() == id);
            match index_of_id(updated, id) {
                Some(k) => {
                    if k < i {
                        assert(sources[k].id() == updated[k].id());
                    }
                    if i < k {
                        assert(updated[i].id() == id);
                    }
                },
                None => {},
            }
        },
        None => {
            match index_of_id(updated, id) {
                Some(k) => {
                    assert(sources[k].id() == updated[k].id());
                },
                None => {},
            }
        },
    }
}

/// The sources do not mix: bytes of one source leave every other source
/// as it is, its stored tail too.
pub proof fn law_sources_do_not_mix(
    state: CommanderView,
    id: u32,
    bytes: Seq<u8>,
    timestamp: LogTimestamp,
    other: int,
)
    requires
        0 <= other < state.sources.len(),
        state.sources[other].id() != id,
    ensures
        state.parse_bytes(id, bytes, timestamp).sources.len() == state.sources.len(),
        state.parse_bytes(id, bytes, timestamp).sources[other] == state.sources[other],
{
    lemma_index_of_id(state.sources, id);
}

} // verus!
