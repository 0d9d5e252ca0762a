//! An in-memory store for events, snapshots and the checkpoint.
//!
//! Writes are keyed: an event by its transaction hash and log index, a
//! snapshot by its block number. Writing the same key twice leaves one
//! record, so that a feed which delivers a log or a block again does no harm.

use vstd::prelude::*;
use crate::decoder::VaultEvent;
use crate::reader::VaultState;

verus! {

/// Whether two events carry the same key.
pub open spec fn same_key(a: VaultEvent, b: VaultEvent) -> bool {
    a.transaction_hash@ == b.transaction_hash@ && a.log_index == b.log_index
}

/// Whether the stored events hold one with the key of `event`.
pub open spec fn holds_key(events: Seq<VaultEvent>, event: VaultEvent) -> bool {
    exists|i: int| 0 <= i < events.len() && same_key(#[trigger] events[i], event)
}

/// Whether no two of the events share a key.
pub open spec fn unique_keys(events: Seq<VaultEvent>) -> bool {
    forall|i: int, j: int|
        0 <= i < j < events.len() ==> !same_key(#[trigger] events[i], #[trigger] events[j])
}

/// The events after `event` was written: unchanged where its key is already
/// held, and with `event` at the end otherwise.
pub open spec fn with_event(events: Seq<VaultEvent>, event: VaultEvent) -> Seq<VaultEvent> {
    if holds_key(events, event) {
        events
    } else {
        events.push(event)
    }
}

/// How many of the events carry the key of `event`.
pub open spec fn count_key(events: Seq<VaultEvent>, event: VaultEvent) -> nat
    decreases events.len(),
{
    if events.len() == 0 {
        0
    } else {
        count_key(events.drop_last(), event) + if same_key(events.last(), event) {
            1nat
        } else {
            0nat
        }
    }
}

/// Whether the stored snapshots hold one of the given block.
pub open spec fn holds_block(states: Seq<VaultState>, block: u64) -> bool {
    exists|i: int| 0 <= i < states.len() && (#[trigger] states[i]).block_number == block
}

/// Whether no two of the snapshots are of the same block.
pub open spec fn unique_blocks(states: Seq<VaultState>) -> bool {
    forall|i: int, j: int|
        0 <= i < j < states.len() ==> (#[trigger] states[i]).block_number != (
        #[trigger] states[j]).block_number
}

/// The place of the snapshot of the given block.
pub open spec fn place_of_block(states: Seq<VaultState>, block: u64) -> int {
    choose|i: int| 0 <= i < states.len() && (#[trigger] states[i]).block_number == block
}

/// The snapshots after `state` was written: it takes the place of the
/// snapshot of its block where there is one, and goes to the end otherwise.
pub open spec fn with_state(states: Seq<VaultState>, state: VaultState) -> Seq<VaultState> {
    if holds_block(states, state.block_number) {
        states.update(place_of_block(states, state.block_number), state)
    } else {
        states.push(state)
    }
}

/// What a store holds.
pub struct StoreView {
    pub events: Seq<VaultEvent>,
    pub states: Seq<VaultState>,
    pub checkpoint: Option<u64>,
}

/// Keeps events, snapshots and the checkpoint in memory.
#[derive(Debug)]
pub struct MemoryStore {
    events: Vec<VaultEvent>,
    states: Vec<VaultState>,
    checkpoint: Option<u64>,
}

impl View for MemoryStore {
    type V = StoreView;

    closed spec fn view(&self) -> StoreView {
        StoreView { events: self.events@, states: self.states@, checkpoint: self.checkpoint }
    }
}

impl MemoryStore {
    /// The store's invariant: no two events share a key and no two snapshots
    /// are of the same block.
    pub open spec fn wf(&self) -> bool {
        unique_keys(self@.events) && unique_blocks(self@.states)
    }

    /// An empty store without a checkpoint.
    pub fn new() -> (store: MemoryStore)
        ensures
            store.wf(),
            store@ == (StoreView {
                events: Seq::empty(),
                states: Seq::empty(),
                checkpoint: None,
            }),
    {
        MemoryStore { events: Vec::new(), states: Vec::new(), checkpoint: None }
    }

    /// Writes an event, unless one with its key is already stored. Returns
    /// whether the event was new.
    pub fn save_event(&mut self, event: VaultEvent) -> (added: bool)
        requires
            old(self).wf(),
        ensures
            final(self).wf(),
            final(self)@.events == with_event(old(self)@.events, event),
            final(self)@.states == old(self)@.states,
            final(self)@.checkpoint == old(self)@.checkpoint,
            added == !holds_key(old(self)@.events, event),
    {
        let mut i: usize = 0;
        while i < self.events.len()
            invariant
                i <= self.events.len(),
                *self == *old(self),
                self.wf(),
                forall|j: int| 0 <= j < i ==> !same_key(#[trigger] self.events@[j], event),
            decreases self.events.len() - i,
        {
            let held = &self.events[i];
            if held.log_index == event.log_index && held.transaction_hash.same_as(
                &event.transaction_hash,
            ) {
                return false;
            }
            i = i + 1;
        }
        proof {
            lemma_with_event_keeps_unique(self.events@, event);
        }
        self.events.push(event);
        true
    }

    /// Writes a snapshot. It replaces the stored snapshot of its block, if
    /// there is one: the last write for a block wins.
    pub fn save_state(&mut self, state: VaultState)
        requires
            old(self).wf(),
        ensures
            final(self).wf(),
            final(self)@.states == with_state(old(self)@.states, state),
            final(self)@.events == old(self)@.events,
            final(self)@.checkpoint == old(self)@.checkpoint,
    {
        proof {
            lemma_with_state_keeps_unique(self.states@, state);
        }
        let mut i: usize = 0;
        while i < self.states.len()
            invariant
                i <= self.states.len(),
                *self == *old(self),
                self.wf(),
                unique_blocks(with_state(self.states@, state)),
                forall|j: int|
                    0 <= j < i ==> (#[trigger] self.states@[j]).block_number != state.block_number,
            decreases self.states.len() - i,
        {
            if self.states[i].block_number == state.block_number {
                self.states.set(i, state);
                return ;
            }
            i = i + 1;
        }
        self.states.push(state);
    }

    /// Records the block up to which everything was processed.
    pub fn save_checkpoint(&mut self, block: u64)
        ensures
            old(self).wf() ==> final(self).wf(),
            final(self)@ == (StoreView { checkpoint: Some(block), ..old(self)@ }),
    {
        self.checkpoint = Some(block);
    }

    /// The checkpoint written last, if one was written.
    pub fn load_checkpoint(&self) -> (checkpoint: Option<u64>)
        ensures
            checkpoint == self@.checkpoint,
    {
        self.checkpoint
    }

    /// The stored events, in the order in which they were first written.
    pub fn events(&self) -> (events: &Vec<VaultEvent>)
        ensures
            events@ == self@.events,
    {
        &self.events
    }

    /// The stored snapshots.
    pub fn states(&self) -> (states: &Vec<VaultState>)
        ensures
            states@ == self@.states,
    {
        &self.states
    }

    /// The stored snapshot of the given block.
    pub fn state_at(&self, block: u64) -> (found: Option<&VaultState>)
        requires
            self.wf(),
        ensures
            found is Some <==> holds_block(self@.states, block),
            found matches Some(state) ==> *state == self@.states[place_of_block(
                self@.states,
                block,
            )],
    {
        let mut i: usize = 0;
        while i < self.states.len()
            invariant
                i <= self.states.len(),
                unique_blocks(self.states@),
                forall|j: int| 0 <= j < i ==> (#[trigger] self.states@[j]).block_number != block,
            decreases self.states.len() - i,
        {
            if self.states[i].block_number == block {
                return Some(&self.states[i]);
            }
            i = i + 1;
        }
        None
    }
}

/// Writing an event keeps the keys apart.
pub proof fn lemma_with_event_keeps_unique(events: Seq<VaultEvent>, event: VaultEvent)
    requires
        unique_keys(events),
    ensures
        unique_keys(with_event(events, event)),
        holds_key(with_event(events, event), event),
{
    let after = with_event(events, event);
    if !holds_key(events, event) {
        assert(same_key(after[events.len() as int], event));
    } else {
        let i = choose|i: int| 0 <= i < events.len() && same_key(#[trigger] events[i], event);
        assert(same_key(after[i], event));
    }
}

/// Writing the same event a second time changes nothing.
pub proof fn lemma_with_event_idempotent(events: Seq<VaultEvent>, event: VaultEvent)
    ensures
        with_event(with_event(events, event), event) == with_event(events, event),
{
    if !holds_key(events, event) {
        assert(same_key(events.push(event)[events.len() as int], event));
    }
}

/// Where no two events share a key, a key that is held is held once.
pub proof fn lemma_unique_key_counts_once(events: Seq<VaultEvent>, event: VaultEvent)
    requires
        unique_keys(events),
    ensures
        count_key(events, event) == if holds_key(events, event) {
            1nat
        } else {
            0nat
        },
    decreases events.len(),
{
    if events.len() > 0 {
        let front = events.drop_last();
        lemma_unique_key_counts_once(front, event);
        if same_key(events.last(), event) {
            if holds_key(front, event) {
                let i = choose|i: int| 0 <= i < front.len() && same_key(#[trigger] front[i], event);
                assert(same_key(events[i], events[events.len() - 1]));
            }
        } else if holds_key(front, event) {
            let i = choose|i: int| 0 <= i < front.len() && same_key(#[trigger] front[i], event);
            assert(same_key(events[i], event));
        } else if holds_key(events, event) {
            let i = choose|i: int| 0 <= i < events.len() && same_key(#[trigger] events[i], event);
            assert(same_key(front[i], event));
        }
    }
}

/// Writing a snapshot keeps the blocks apart, and the snapshot of its block
/// is then the one written.
pub proof fn lemma_with_state_keeps_unique(states: Seq<VaultState>, state: VaultState)
    requires
        unique_blocks(states),
    ensures
        unique_blocks(with_state(states, state)),
        holds_block(with_state(states, state), state.block_number),
        with_state(states, state)[place_of_block(with_state(states, state), state.block_number)]
            == state,
        with_state(states, state).len() >= states.len(),
{
    let after = with_state(states, state);
    let block = state.block_number;
    if holds_block(states, block) {
        let i = place_of_block(states, block);
        assert forall|a: int, b: int| 0 <= a < b < after.len() implies (
        #[trigger] after[a]).block_number != (#[trigger] after[b]).block_number by {
            assert(after[a].block_number == states[a].block_number);
            assert(after[b].block_number == states[b].block_number);
        }
        let p = place_of_block(after, block);
        assert(after[i].block_number == after[p].block_number);
        assert(p == i);
    } else {
        let n = states.len() as int;
        assert(after[n].block_number == block);
        let p = place_of_block(after, block);
        assert(p < n ==> states[p].block_number == block);
    }
}

} // verus!
