//! What holds of the pipeline as a whole, whatever the feeds deliver.

use vstd::prelude::*;
use crate::decoder::{lemma_decoded_key, RawLog, VaultEvent};
use crate::engine::{covered, cursor_le, Action, EngineView, Phase, Signal};
use crate::merger::WorkItem;
use crate::reader::{
    answered, lemma_snapshot_needs_every_answer, spec_assemble, spec_plan, BlockHeader,
    BlockRef, StateAnswers,
};
use crate::store::{
    count_key, holds_key, lemma_unique_key_counts_once, lemma_with_event_keeps_unique, same_key,
    unique_keys, with_event,
};

verus! {

/// The event that an engine asks to have written for a log, once the header
/// of the log's block has arrived; `None` where it asks for no write.
pub open spec fn ingested(state: EngineView, log: RawLog, header: BlockHeader) -> Option<
    VaultEvent,
> {
    let (waiting, asked) = state.step(Signal::Work(WorkItem::NewLog(log)));
    if asked is FetchBlock {
        match waiting.step(Signal::BlockFetched(Some(header))).1 {
            Action::SaveEvent { event } => Some(event),
            _ => None,
        }
    } else {
        None
    }
}

/// The stored events after a log went through an engine and a store with
/// keyed writes.
pub open spec fn stored_after(
    stored: Seq<VaultEvent>,
    state: EngineView,
    log: RawLog,
    header: BlockHeader,
) -> Seq<VaultEvent> {
    match ingested(state, log, header) {
        Some(event) => with_event(stored, event),
        None => stored,
    }
}

/// The event that an engine asks to have written for a log carries the key
/// of the log.
pub proof fn lemma_ingested_key(state: EngineView, log: RawLog, header: BlockHeader)
    ensures
        ingested(state, log, header) matches Some(event) ==> event.transaction_hash
            == log.transaction_hash && event.log_index == log.log_index,
{
    lemma_decoded_key(state.registry, log, 0);
}

/// Delivering the same log twice stores one event. The second delivery may
/// find the engine in any other state and the block under another header:
/// once the first delivery has written the event, the second leaves the
/// store as it was, and the store holds the event's key exactly once.
pub proof fn lemma_same_log_is_stored_once(
    stored: Seq<VaultEvent>,
    first: EngineView,
    second: EngineView,
    log: RawLog,
    header: BlockHeader,
    again: BlockHeader,
)
    requires
        unique_keys(stored),
    ensures
        unique_keys(
            stored_after(stored_after(stored, first, log, header), second, log, again),
        ),
        ingested(first, log, header) matches Some(event) ==> stored_after(
            stored_after(stored, first, log, header),
            second,
            log,
            again,
        ) == stored_after(stored, first, log, header) && count_key(
            stored_after(stored, first, log, header),
            event,
        ) == 1,
        ingested(second, log, again) matches Some(event) ==> count_key(
            stored_after(stored_after(stored, first, log, header), second, log, again),
            event,
        ) == 1,
        first.takes_work() && second.takes_work() && first.registry == second.registry
            && header == again ==> ingested(first, log, header) == ingested(
            second,
            log,
            again,
        ),
{
    lemma_ingested_key(first, log, header);
    lemma_ingested_key(second, log, again);
    let once = stored_after(stored, first, log, header);
    match ingested(first, log, header) {
        Some(event) => {
            lemma_with_event_keeps_unique(stored, event);
            lemma_unique_key_counts_once(once, event);
            match ingested(second, log, again) {
                Some(other) => {
                    let i = choose|i: int|
                        0 <= i < once.len() && same_key(#[trigger] once[i], event);
                    assert(same_key(once[i], other));
                    lemma_unique_key_counts_once(once, other);
                },
                None => {},
            }
        },
        None => {
            match ingested(second, log, again) {
                Some(other) => {
                    lemma_with_event_keeps_unique(stored, other);
                    lemma_unique_key_counts_once(with_event(stored, other), other);
                },
                None => {},
            }
        },
    }
}

/// A batch with a failed query yields no snapshot, and the engine that is
/// told so asks for no write and leaves its cursor where it was.
pub proof fn lemma_failed_read_writes_nothing(
    state: EngineView,
    block: BlockRef,
    extended: bool,
    answers: StateAnswers,
    failed: int,
)
    requires
        0 <= failed < spec_plan(extended).len(),
        !answered(answers, spec_plan(extended)[failed]),
    ensures
        spec_assemble(block, extended, answers) is Err,
        !(state.step(Signal::StateRead(spec_assemble(block, extended, answers))).1
            is SaveState),
        state.step(Signal::StateRead(spec_assemble(block, extended, answers))).0.cursor
            == state.cursor,
{
    lemma_snapshot_needs_every_answer(block, extended, answers);
}

/// The engine asks for a snapshot to be written only when it was handed that
/// very snapshot as the outcome of the read it was waiting for.
pub proof fn lemma_snapshot_write_follows_read(state: EngineView, signal: Signal)
    ensures
        state.step(signal).1 matches Action::SaveState { state: snapshot } ==> signal
            == Signal::StateRead(Ok(snapshot)) && state.pending == (
        crate::engine::Pending::StateRead { block: snapshot.block_number }),
{
}

/// While anything is in flight, a further work item is refused and changes
/// nothing.
pub proof fn lemma_one_item_at_a_time(state: EngineView, item: WorkItem)
    requires
        !(state.pending is Idle),
    ensures
        state.step(Signal::Work(item)) == (state, Action::Rejected),
{
}

/// A write that the engine asks for is in flight from then on.
pub proof fn lemma_write_is_awaited(state: EngineView, signal: Signal)
    ensures
        ({
            let (next, action) = state.step(signal);
            action is SaveEvent || action is SaveState || action is SaveCheckpoint || action
                is RetryWrite ==> next.writing()
        }),
{
}

/// Between the request for a write and the acknowledgement that it
/// succeeded, the engine starts no other work item, whatever else it is
/// told and however often the write fails.
pub proof fn lemma_no_work_before_acknowledgement(
    state: EngineView,
    signals: Seq<Signal>,
    item: WorkItem,
)
    requires
        state.writing(),
        forall|k: int| 0 <= k < signals.len() ==> signals[k] != Signal::Persisted(true),
    ensures
        state.run(signals).writing() || state.run(signals).phase == Phase::Stopped,
        state.run(signals).step(Signal::Work(item)) == (state.run(signals), Action::Rejected),
        state.run(signals).cursor == state.cursor,
    decreases signals.len(),
{
    if signals.len() > 0 {
        let front = signals.drop_last();
        lemma_no_work_before_acknowledgement(state, front, item);
    }
}

/// The cursor at the end of a run is at or beyond every value that it held
/// during the run.
pub proof fn lemma_cursor_never_moves_back(state: EngineView, signals: Seq<Signal>, during: int)
    requires
        0 <= during <= signals.len(),
    ensures
        cursor_le(state.run(signals.take(during)).cursor, state.run(signals).cursor),
    decreases signals.len(),
{
    if during == signals.len() {
        assert(signals.take(during) =~= signals);
    } else {
        let front = signals.drop_last();
        assert(front.take(during) =~= signals.take(during));
        lemma_cursor_never_moves_back(state, front, during);
    }
}

/// The checkpoint that the engine asks to have written is its cursor, and
/// the cursor does not move while that write is in flight.
pub proof fn lemma_checkpoint_is_cursor(state: EngineView, signal: Signal)
    ensures
        state.step(signal).1 matches Action::SaveCheckpoint { block } ==> state.step(
            signal,
        ).0.cursor == Some(block),
        state.pending is CheckpointWrite ==> state.step(signal).0.cursor == state.cursor,
{
}

/// The checkpoint written at the end of a run is at or beyond every value
/// that the cursor held during the run.
pub proof fn lemma_checkpoint_bounds_run(
    state: EngineView,
    signals: Seq<Signal>,
    last: Signal,
    during: int,
)
    requires
        0 <= during <= signals.len(),
        state.run(signals).step(last).1 is SaveCheckpoint,
    ensures
        cursor_le(
            state.run(signals.take(during)).cursor,
            Some(state.run(signals).step(last).1->SaveCheckpoint_block),
        ),
{
    lemma_cursor_never_moves_back(state, signals, during);
    lemma_checkpoint_is_cursor(state.run(signals), last);
}

/// An engine that starts from a checkpoint has its cursor at or beyond it.
pub proof fn lemma_resumes_from_checkpoint(state: EngineView, head: u64, checkpoint: u64)
    requires
        state.phase == Phase::Starting,
        state.pending is Idle,
    ensures
        covered(
            state.step(Signal::ChainHead { head, checkpoint: Some(checkpoint) }).0.cursor,
            checkpoint,
        ),
{
}

/// A block that the cursor has reached is never read again, and a
/// notification of it changes nothing but, at most, the phase.
pub proof fn lemma_reached_block_is_not_read_again(state: EngineView, signal: Signal)
    ensures
        state.step(signal).1 matches Action::ReadState { block } ==> !covered(
            state.cursor,
            block,
        ),
        signal matches Signal::Work(WorkItem::NewBlock(n)) && covered(state.cursor, n)
            && state.takes_work() ==> state.step(signal).1 == Action::Next && state.step(
            signal,
        ).0 == (EngineView { phase: state.step(signal).0.phase, ..state }),
{
}

} // verus!
