//! One ordered sequence of work out of two notification feeds.
//!
//! The merger hands out what it observed, first observed first delivered,
//! and reorders nothing. Once either feed has closed, it takes nothing more
//! and ends the stream after the items it already holds.

use std::collections::VecDeque;
use vstd::prelude::*;
use crate::decoder::RawLog;
use crate::reader::BlockHeader;

verus! {

/// A unit of work for the sync engine.
#[derive(Clone, Debug, PartialEq, Eq)]
pub enum WorkItem {
    NewBlock(u64),
    NewLog(RawLog),
}

/// What one of the two feeds can bring.
#[derive(Clone, Debug, PartialEq, Eq)]
pub enum Arrival {
    Block(BlockHeader),
    Log(RawLog),
    /// The feed of blocks has ended.
    BlocksClosed,
    /// The feed of logs has ended.
    LogsClosed,
}

/// What the merger answers when asked for the next item.
#[derive(Clone, Debug, PartialEq, Eq)]
pub enum Delivery {
    Item(WorkItem),
    /// Nothing is waiting, and both feeds are open.
    Pending,
    /// A feed has closed and every item observed before that was delivered.
    EndOfStream,
}

/// The work item that an arrival carries, if it carries one.
pub open spec fn item_of(arrival: Arrival) -> Option<WorkItem> {
    match arrival {
        Arrival::Block(header) => Some(WorkItem::NewBlock(header.number)),
        Arrival::Log(log) => Some(WorkItem::NewLog(log)),
        Arrival::BlocksClosed => None,
        Arrival::LogsClosed => None,
    }
}

/// The state of a merger: the items observed and not yet delivered, oldest
/// first, and whether a feed has closed.
pub struct MergerView {
    pub waiting: Seq<WorkItem>,
    pub closed: bool,
}

impl MergerView {
    /// The state after one more arrival.
    pub open spec fn observe(self, arrival: Arrival) -> MergerView {
        if self.closed {
            self
        } else {
            match item_of(arrival) {
                Some(item) => MergerView { waiting: self.waiting.push(item), closed: false },
                None => MergerView { waiting: self.waiting, closed: true },
            }
        }
    }

    /// The state after a run of arrivals.
    pub open spec fn observe_all(self, arrivals: Seq<Arrival>) -> MergerView
        decreases arrivals.len(),
    {
        if arrivals.len() == 0 {
            self
        } else {
            self.observe_all(arrivals.drop_last()).observe(arrivals.last())
        }
    }
}

/// The items of a run of arrivals up to the first closing of a feed.
pub open spec fn items_until_close(arrivals: Seq<Arrival>) -> Seq<WorkItem>
    decreases arrivals.len(),
{
    if arrivals.len() == 0 {
        Seq::empty()
    } else {
        match item_of(arrivals[0]) {
            Some(item) => seq![item] + items_until_close(arrivals.drop_first()),
            None => Seq::empty(),
        }
    }
}

/// Whether a run of arrivals holds the closing of a feed.
pub open spec fn closes(arrivals: Seq<Arrival>) -> bool {
    exists|i: int| 0 <= i < arrivals.len() && item_of(#[trigger] arrivals[i]) is None
}

/// Merges two feeds into one sequence of work items.
pub struct StreamMerger {
    waiting: VecDeque<WorkItem>,
    closed: bool,
}

impl View for StreamMerger {
    type V = MergerView;

    closed spec fn view(&self) -> MergerView {
        MergerView { waiting: self.waiting@, closed: self.closed }
    }
}

impl StreamMerger {
    /// A merger that has observed nothing.
    pub fn new() -> (merger: StreamMerger)
        ensures
            merger@ == (MergerView { waiting: Seq::empty(), closed: false }),
    {
        StreamMerger { waiting: VecDeque::new(), closed: false }
    }

    /// Takes one arrival in. Returns whether it was taken: after a feed has
    /// closed, every further arrival is refused and changes nothing.
    pub fn observe(&mut self, arrival: Arrival) -> (taken: bool)
        ensures
            final(self)@ == old(self)@.observe(arrival),
            taken == !old(self)@.closed,
    {
        if self.closed {
            return false;
        }
        match arrival {
            Arrival::Block(header) => {
                self.waiting.push_back(WorkItem::NewBlock(header.number));
            },
            Arrival::Log(log) => {
                self.waiting.push_back(WorkItem::NewLog(log));
            },
            Arrival::BlocksClosed => {
                self.closed = true;
            },
            Arrival::LogsClosed => {
                self.closed = true;
            },
        }
        true
    }

    /// Hands out the oldest waiting item. With nothing waiting, it tells
    /// whether more can come.
    pub fn next(&mut self) -> (delivery: Delivery)
        ensures
            old(self)@.waiting.len() > 0 ==> delivery == Delivery::Item(old(self)@.waiting[0])
                && final(self)@ == (MergerView {
                waiting: old(self)@.waiting.drop_first(),
                closed: old(self)@.closed,
            }),
            old(self)@.waiting.len() == 0 ==> final(self)@ == old(self)@ && delivery == (if old(
                self,
            )@.closed {
                Delivery::EndOfStream
            } else {
                Delivery::Pending
            }),
    {
        match self.waiting.pop_front() {
            Some(item) => {
                Delivery::Item(item)
            },
            None => {
                if self.closed {
                    Delivery::EndOfStream
                } else {
                    Delivery::Pending
                }
            },
        }
    }

    /// How many items wait for delivery.
    pub fn len(&self) -> (n: usize)
        ensures
            n == self@.waiting.len(),
    {
        self.waiting.len()
    }

    /// Whether a feed has closed.
    pub fn is_closed(&self) -> (closed: bool)
        ensures
            closed == self@.closed,
    {
        self.closed
    }
}

/// A fresh merger that observes a run of arrivals holds exactly the items
/// that arrived before the first closing, in the order of their arrival, and
/// is closed exactly when the run holds a closing.
pub proof fn lemma_merger_keeps_arrival_order(arrivals: Seq<Arrival>)
    ensures
        (MergerView { waiting: Seq::empty(), closed: false }).observe_all(arrivals).waiting
            == items_until_close(arrivals),
        (MergerView { waiting: Seq::empty(), closed: false }).observe_all(arrivals).closed
            == closes(arrivals),
    decreases arrivals.len(),
{
    let start = MergerView { waiting: Seq::empty(), closed: false };
    if arrivals.len() == 0 {
    } else {
        let front = arrivals.drop_last();
        lemma_merger_keeps_arrival_order(front);
        lemma_items_until_close_step(front, arrivals.last());
        assert(front.push(arrivals.last()) =~= arrivals);
        if closes(front) {
            let i = choose|i: int| 0 <= i < front.len() && item_of(#[trigger] front[i]) is None;
            assert(arrivals[i] == front[i]);
        } else if closes(arrivals) {
            let i = choose|i: int|
                0 <= i < arrivals.len() && item_of(#[trigger] arrivals[i]) is None;
            assert(i < front.len() ==> front[i] == arrivals[i]);
        }
    }
}

/// One more arrival adds its item to the items before the first closing,
/// unless a feed closed before it or it is a closing itself.
pub proof fn lemma_items_until_close_step(front: Seq<Arrival>, last: Arrival)
    ensures
        items_until_close(front.push(last)) == if closes(front) || item_of(last) is None {
            items_until_close(front)
        } else {
            items_until_close(front).push(item_of(last)->Some_0)
        },
    decreases front.len(),
{
    let whole = front.push(last);
    if front.len() == 0 {
        assert(items_until_close(whole.drop_first()) == Seq::<WorkItem>::empty());
    } else {
        assert(whole.drop_first() =~= front.drop_first().push(last));
        if item_of(front[0]) is Some {
            let rest = front.drop_first();
            lemma_items_until_close_step(rest, last);
            if closes(rest) {
                let i = choose|i: int| 0 <= i < rest.len() && item_of(#[trigger] rest[i]) is None;
                assert(front[i + 1] == rest[i]);
            }
            if closes(front) {
                let i = choose|i: int|
                    0 <= i < front.len() && item_of(#[trigger] front[i]) is None;
                assert(rest[i - 1] == front[i]);
            }
        }
    }
}

} // verus!
