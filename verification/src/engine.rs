//! The sync engine: what to do next, given what just happened.
//!
//! The engine performs nothing itself. Each call of [`VaultIndexer::step`]
//! takes one [`Signal`] (a work item, or the outcome of what the engine asked
//! for last) and answers with one [`Action`] for the caller to perform. One
//! work item is in progress at a time, and the cursor moves forward only when
//! a snapshot was written.

use vstd::prelude::*;
use crate::decoder::{decode_log, spec_decode, DecodeError, RawLog, VaultEvent};
use crate::merger::WorkItem;
use crate::primitives::Address;
use crate::reader::{BlockHeader, ReadError, VaultState};
use crate::registry::{vault_event_pairs, EventKind, SignatureRegistry};

verus! {

/// Where the engine stands in its life.
#[derive(Clone, Copy, Debug, PartialEq, Eq, Structural)]
pub enum Phase {
    /// Nothing is known of the chain yet.
    Starting,
    /// Work from before the head seen at start is being replayed.
    CatchingUp,
    /// Work arrives as the chain produces it.
    Live,
    /// The feeds were lost and are being set up again.
    Reconnecting,
    /// A shutdown was asked for; what is in flight is being finished.
    Draining,
    /// Nothing more will be done.
    Stopped,
}

/// What the engine waits for.
#[derive(Clone, Copy, Debug, PartialEq, Eq)]
pub enum Pending {
    /// Nothing: the next work item can be taken.
    Idle,
    /// The header of the block of a decoded event, for its timestamp.
    EventBlock { event: VaultEvent },
    /// The acknowledgement that the event of the given block was written.
    EventWrite { block: u64 },
    /// The snapshot of the given block.
    StateRead { block: u64 },
    /// The acknowledgement that the snapshot of the given block was written.
    StateWrite { block: u64 },
    /// The acknowledgement that the checkpoint was written.
    CheckpointWrite,
}

/// Why a work item was given up.
#[derive(Clone, Copy, Debug, PartialEq, Eq)]
pub enum Failure {
    /// The log has a known signature and another layout.
    Decode(DecodeError),
    /// The state read yielded no snapshot.
    Read(ReadError),
    /// The caller answered for another block than the one asked for.
    WrongBlock { requested: u64, found: u64 },
}

/// What the caller tells the engine.
#[derive(Debug, PartialEq, Eq)]
pub enum Signal {
    /// The chain's latest block and the checkpoint of an earlier run.
    ChainHead { head: u64, checkpoint: Option<u64> },
    /// The next item of the merged feeds.
    Work(WorkItem),
    /// The answer to [`Action::FetchBlock`]; `None` where the fetch failed.
    BlockFetched(Option<BlockHeader>),
    /// The answer to [`Action::ReadState`].
    StateRead(Result<VaultState, ReadError>),
    /// Whether the write asked for last succeeded.
    Persisted(bool),
    /// The merged feeds have ended.
    FeedClosed,
    /// The connection stands again; `head` is the chain's latest block.
    Reconnected { head: u64 },
    /// The connection could not be set up.
    ConnectFailed,
    /// The process is asked to stop.
    Shutdown,
}

/// What the engine asks the caller to do.
#[derive(Clone, Debug, PartialEq, Eq)]
pub enum Action {
    /// Read the vault's state as of the block, then answer with
    /// [`Signal::StateRead`].
    ReadState { block: u64 },
    /// Fetch the header of the block, then answer with
    /// [`Signal::BlockFetched`].
    FetchBlock { number: u64 },
    /// Write the event, then answer with [`Signal::Persisted`].
    SaveEvent { event: VaultEvent },
    /// Write the snapshot, then answer with [`Signal::Persisted`].
    SaveState { state: VaultState },
    /// Write the checkpoint, then answer with [`Signal::Persisted`].
    SaveCheckpoint { block: u64 },
    /// Wait so many milliseconds, repeat the write that failed, then answer
    /// with [`Signal::Persisted`].
    RetryWrite { delay_ms: u64 },
    /// Subscribe to new blocks and to the vault's logs from the given block
    /// on, then hand over work items.
    Subscribe { address: Address, from_block: u64 },
    /// Wait so many milliseconds and set the connection up again, then
    /// answer with [`Signal::Reconnected`] or [`Signal::ConnectFailed`]. The
    /// feeds will be subscribed from the cursor, `from_block`, on.
    Reconnect { from_block: Option<u64>, delay_ms: u64 },
    /// Hand over the next work item.
    Next,
    /// Record the failure, then hand over the next work item.
    Skip(Failure),
    /// Finish the write in flight and answer with [`Signal::Persisted`].
    Wait,
    /// The signal does not fit the engine's state and was not acted on.
    Rejected,
    /// The engine has stopped in good order.
    Halt,
    /// The engine has stopped because writing failed too often or the start
    /// failed; the process should exit with an error.
    Fatal,
}

/// The state of an engine.
pub struct EngineView {
    pub phase: Phase,
    /// The highest block whose snapshot was written, if any was.
    pub cursor: Option<u64>,
    /// The chain's head when the feeds were last set up.
    pub target: u64,
    /// The block from which the logs are subscribed.
    pub resume_from: u64,
    /// Whether the feeds are subscribed.
    pub subscribed: bool,
    pub pending: Pending,
    /// How often what is in flight, a write or setting the connection up,
    /// has failed.
    pub attempts: u32,
    /// How many work items were given up.
    pub failures: u64,
    pub max_attempts: u32,
    pub backoff_base_ms: u64,
    pub address: Address,
    pub registry: Seq<(Seq<u8>, EventKind)>,
}

/// Whether the cursor has reached the block.
pub open spec fn covered(cursor: Option<u64>, block: u64) -> bool {
    cursor matches Some(c) && block <= c
}

/// The cursor once the block is processed.
pub open spec fn advanced(cursor: Option<u64>, block: u64) -> Option<u64> {
    if covered(cursor, block) {
        cursor
    } else {
        Some(block)
    }
}

/// The order of cursors: no cursor is below every block.
pub open spec fn cursor_le(a: Option<u64>, b: Option<u64>) -> bool {
    match (a, b) {
        (None, _) => true,
        (Some(_), None) => false,
        (Some(x), Some(y)) => x <= y,
    }
}

/// The later of the cursor and a checkpoint.
pub open spec fn later_of(cursor: Option<u64>, checkpoint: Option<u64>) -> Option<u64> {
    match checkpoint {
        None => cursor,
        Some(c) => advanced(cursor, c),
    }
}

/// Two to the power `n`.
pub open spec fn pow2(n: nat) -> nat
    decreases n,
{
    if n == 0 {
        1
    } else {
        2 * pow2((n - 1) as nat)
    }
}

/// The delay before something is tried again after its `attempt`-th failure:
/// the base delay, doubled with each further failure, and at most `u64::MAX`.
pub open spec fn spec_backoff(base_ms: u64, attempt: u32) -> u64 {
    if attempt == 0 {
        0
    } else if base_ms * pow2((attempt - 1) as nat) > u64::MAX {
        u64::MAX
    } else {
        (base_ms * pow2((attempt - 1) as nat)) as u64
    }
}

/// One more failure on the count, which stays at `u64::MAX` once there.
pub open spec fn one_more(failures: u64) -> u64 {
    if failures < u64::MAX {
        (failures + 1) as u64
    } else {
        failures
    }
}

/// The block that a work item is about.
pub open spec fn block_of(item: WorkItem) -> u64 {
    match item {
        WorkItem::NewBlock(n) => n,
        WorkItem::NewLog(log) => log.block_number,
    }
}

impl EngineView {
    /// The state of an engine that was just made.
    pub open spec fn initial(
        max_attempts: u32,
        backoff_base_ms: u64,
        address: Address,
        registry: Seq<(Seq<u8>, EventKind)>,
    ) -> EngineView {
        EngineView {
            phase: Phase::Starting,
            cursor: None,
            target: 0,
            resume_from: 0,
            subscribed: false,
            pending: Pending::Idle,
            attempts: 0,
            failures: 0,
            max_attempts,
            backoff_base_ms,
            address,
            registry,
        }
    }

    /// Whether a write is in flight.
    pub open spec fn writing(self) -> bool {
        self.pending is EventWrite || self.pending is StateWrite || self.pending
            is CheckpointWrite
    }

    /// Whether the engine takes work items.
    pub open spec fn takes_work(self) -> bool {
        (self.phase == Phase::CatchingUp || self.phase == Phase::Live) && self.pending is Idle
            && self.subscribed
    }

    /// A work item is done: subscribe first where the feeds are not
    /// subscribed yet, and ask for the next item otherwise.
    pub open spec fn ready(self) -> (EngineView, Action) {
        if self.subscribed {
            (EngineView { pending: Pending::Idle, ..self }, Action::Next)
        } else {
            (
                EngineView { pending: Pending::Idle, subscribed: true, ..self },
                Action::Subscribe { address: self.address, from_block: self.resume_from },
            )
        }
    }

    /// The last step of a shutdown: write the cursor as the checkpoint, or
    /// stop at once where there is no cursor to write.
    pub open spec fn checkpoint(self) -> (EngineView, Action) {
        match self.cursor {
            Some(block) => (
                EngineView {
                    phase: Phase::Draining,
                    pending: Pending::CheckpointWrite,
                    attempts: 0,
                    ..self
                },
                Action::SaveCheckpoint { block },
            ),
            None => (
                EngineView { phase: Phase::Stopped, pending: Pending::Idle, ..self },
                Action::Halt,
            ),
        }
    }

    /// A shutdown is asked for. A write in flight is allowed to finish;
    /// anything else in flight is dropped, to be taken up again from the
    /// checkpoint.
    pub open spec fn on_shutdown(self) -> (EngineView, Action) {
        if self.phase == Phase::Starting {
            (EngineView { phase: Phase::Stopped, pending: Pending::Idle, ..self }, Action::Halt)
        } else if self.writing() {
            (EngineView { phase: Phase::Draining, ..self }, Action::Wait)
        } else {
            self.checkpoint()
        }
    }

    /// The chain's head is known. Where the checkpoint has reached the head
    /// there is nothing to read; otherwise the state at the head is read
    /// first.
    pub open spec fn on_chain_head(self, head: u64, checkpoint: Option<u64>) -> (
        EngineView,
        Action,
    ) {
        if self.phase == Phase::Starting && self.pending is Idle {
            let cursor = later_of(self.cursor, checkpoint);
            match cursor {
                Some(c) if head <= c => (
                    EngineView {
                        phase: Phase::Live,
                        cursor,
                        target: head,
                        resume_from: c,
                        subscribed: true,
                        ..self
                    },
                    Action::Subscribe { address: self.address, from_block: c },
                ),
                _ => (
                    EngineView {
                        cursor,
                        target: head,
                        resume_from: match cursor {
                            Some(c) => c,
                            None => head,
                        },
                        pending: Pending::StateRead { block: head },
                        ..self
                    },
                    Action::ReadState { block: head },
                ),
            }
        } else {
            (self, Action::Rejected)
        }
    }

    /// A work item arrives. A block that the cursor has reached is a
    /// duplicate and is discarded; a new block has its state read. A log is
    /// decoded: what is no vault event is passed over, what cannot be decoded
    /// is given up, and an event waits for the time of its block.
    pub open spec fn on_work(self, item: WorkItem) -> (EngineView, Action) {
        if self.takes_work() {
            let phase = if block_of(item) > self.target {
                Phase::Live
            } else {
                self.phase
            };
            match item {
                WorkItem::NewBlock(n) => {
                    if covered(self.cursor, n) {
                        (EngineView { phase, ..self }, Action::Next)
                    } else {
                        (
                            EngineView { phase, pending: Pending::StateRead { block: n }, ..self },
                            Action::ReadState { block: n },
                        )
                    }
                },
                WorkItem::NewLog(log) => match spec_decode(self.registry, log, 0) {
                    Err(error) => (
                        EngineView { phase, failures: one_more(self.failures), ..self },
                        Action::Skip(Failure::Decode(error)),
                    ),
                    Ok(None) => (EngineView { phase, ..self }, Action::Next),
                    Ok(Some(event)) => (
                        EngineView { phase, pending: Pending::EventBlock { event }, ..self },
                        Action::FetchBlock { number: event.block_number },
                    ),
                },
            }
        } else {
            (self, Action::Rejected)
        }
    }

    /// The header of an event's block arrives: the event gets its timestamp
    /// and is written. A failed fetch is a lost connection.
    pub open spec fn on_block_fetched(self, header: Option<BlockHeader>) -> (
        EngineView,
        Action,
    ) {
        match self.pending {
            Pending::EventBlock { event } => match header {
                Some(h) => {
                    if h.number == event.block_number {
                        (
                            EngineView {
                                pending: Pending::EventWrite { block: event.block_number },
                                attempts: 0,
                                ..self
                            },
                            Action::SaveEvent {
                                event: VaultEvent { timestamp: h.timestamp, ..event },
                            },
                        )
                    } else {
                        (
                            EngineView {
                                pending: Pending::Idle,
                                failures: one_more(self.failures),
                                ..self
                            },
                            Action::Skip(
                                Failure::WrongBlock {
                                    requested: event.block_number,
                                    found: h.number,
                                },
                            ),
                        )
                    }
                },
                None => (
                    EngineView {
                        phase: Phase::Reconnecting,
                        pending: Pending::Idle,
                        subscribed: false,
                        attempts: 0,
                        failures: one_more(self.failures),
                        ..self
                    },
                    Action::Reconnect { from_block: self.cursor, delay_ms: 0 },
                ),
            },
            _ => (self, Action::Rejected),
        }
    }

    /// The outcome of a state read arrives. A snapshot is written; a failed
    /// read is given up and leaves no trace but the count, except at the
    /// start, where it ends the run.
    pub open spec fn on_state_read(self, read: Result<VaultState, ReadError>) -> (
        EngineView,
        Action,
    ) {
        match self.pending {
            Pending::StateRead { block } => {
                let failure = match read {
                    Ok(state) => if state.block_number == block {
                        None
                    } else {
                        Some(Failure::WrongBlock { requested: block, found: state.block_number })
                    },
                    Err(error) => Some(Failure::Read(error)),
                };
                match failure {
                    None => (
                        EngineView {
                            phase: if self.phase == Phase::Starting {
                                Phase::CatchingUp
                            } else {
                                self.phase
                            },
                            pending: Pending::StateWrite { block },
                            attempts: 0,
                            ..self
                        },
                        Action::SaveState { state: read->Ok_0 },
                    ),
                    Some(failure) => {
                        if self.phase == Phase::Starting {
                            (
                                EngineView {
                                    phase: Phase::Stopped,
                                    pending: Pending::Idle,
                                    failures: one_more(self.failures),
                                    ..self
                                },
                                Action::Fatal,
                            )
                        } else {
                            (
                                EngineView {
                                    pending: Pending::Idle,
                                    failures: one_more(self.failures),
                                    ..self
                                },
                                Action::Skip(failure),
                            )
                        }
                    },
                }
            },
            _ => (self, Action::Rejected),
        }
    }

    /// A write failed: it is repeated after a growing delay, until it has
    /// failed `max_attempts` times, which ends the run.
    pub open spec fn on_write_failed(self) -> (EngineView, Action) {
        if self.attempts + 1 >= self.max_attempts {
            (
                EngineView {
                    phase: Phase::Stopped,
                    pending: Pending::Idle,
                    attempts: 0,
                    ..self
                },
                Action::Fatal,
            )
        } else {
            (
                EngineView { attempts: (self.attempts + 1) as u32, ..self },
                Action::RetryWrite {
                    delay_ms: spec_backoff(self.backoff_base_ms, (self.attempts + 1) as u32),
                },
            )
        }
    }

    /// The outcome of a write arrives. A written event is followed by a read
    /// of the state at its block, unless the cursor has reached that block; a
    /// written snapshot moves the cursor; a written checkpoint ends the run.
    pub open spec fn on_persisted(self, ok: bool) -> (EngineView, Action) {
        if !self.writing() {
            (self, Action::Rejected)
        } else if !ok {
            self.on_write_failed()
        } else {
            let done = EngineView { attempts: 0, ..self };
            match self.pending {
                Pending::EventWrite { block } => {
                    if self.phase == Phase::Draining {
                        done.checkpoint()
                    } else if covered(self.cursor, block) {
                        done.ready()
                    } else {
                        (
                            EngineView { pending: Pending::StateRead { block }, ..done },
                            Action::ReadState { block },
                        )
                    }
                },
                Pending::StateWrite { block } => {
                    let moved = EngineView { cursor: advanced(self.cursor, block), ..done };
                    if self.phase == Phase::Draining {
                        moved.checkpoint()
                    } else {
                        moved.ready()
                    }
                },
                _ => (
                    EngineView { phase: Phase::Stopped, pending: Pending::Idle, ..done },
                    Action::Halt,
                ),
            }
        }
    }

    /// The feeds have ended while the engine was taking work.
    pub open spec fn on_feed_closed(self) -> (EngineView, Action) {
        if self.takes_work() {
            (
                EngineView { phase: Phase::Reconnecting, subscribed: false, attempts: 0, ..self },
                Action::Reconnect { from_block: self.cursor, delay_ms: 0 },
            )
        } else {
            (self, Action::Rejected)
        }
    }

    /// The connection stands again: the feeds are subscribed from the cursor
    /// on, so that what was missed is delivered again.
    pub open spec fn on_reconnected(self, head: u64) -> (EngineView, Action) {
        if self.phase == Phase::Reconnecting {
            let from_block = match self.cursor {
                Some(c) => c,
                None => head,
            };
            (
                EngineView {
                    phase: if covered(self.cursor, head) {
                        Phase::Live
                    } else {
                        Phase::CatchingUp
                    },
                    target: head,
                    resume_from: from_block,
                    subscribed: true,
                    attempts: 0,
                    ..self
                },
                Action::Subscribe { address: self.address, from_block },
            )
        } else {
            (self, Action::Rejected)
        }
    }

    /// Setting the connection up failed: it is tried again, without end,
    /// after a delay that grows with each failure.
    pub open spec fn on_connect_failed(self) -> (EngineView, Action) {
        if self.phase == Phase::Reconnecting {
            let attempts = if self.attempts < u32::MAX {
                (self.attempts + 1) as u32
            } else {
                self.attempts
            };
            (
                EngineView { attempts, ..self },
                Action::Reconnect {
                    from_block: self.cursor,
                    delay_ms: spec_backoff(self.backoff_base_ms, attempts),
                },
            )
        } else {
            (self, Action::Rejected)
        }
    }

    /// The state after a signal, and the action that answers it.
    pub open spec fn step(self, signal: Signal) -> (EngineView, Action) {
        if self.phase == Phase::Stopped {
            (self, Action::Rejected)
        } else {
            match signal {
                Signal::Shutdown => self.on_shutdown(),
                Signal::ChainHead { head, checkpoint } => self.on_chain_head(head, checkpoint),
                Signal::Work(item) => self.on_work(item),
                Signal::BlockFetched(header) => self.on_block_fetched(header),
                Signal::StateRead(read) => self.on_state_read(read),
                Signal::Persisted(ok) => self.on_persisted(ok),
                Signal::FeedClosed => self.on_feed_closed(),
                Signal::Reconnected { head } => self.on_reconnected(head),
                Signal::ConnectFailed => self.on_connect_failed(),
            }
        }
    }

    /// The state after a run of signals.
    pub open spec fn run(self, signals: Seq<Signal>) -> EngineView
        decreases signals.len(),
    {
        if signals.len() == 0 {
            self
        } else {
            self.run(signals.drop_last()).step(signals.last()).0
        }
    }

    /// The actions that answer a run of signals, one for each.
    pub open spec fn answers(self, signals: Seq<Signal>) -> Seq<Action> {
        Seq::new(signals.len(), |i: int| self.run(signals.take(i)).step(signals[i]).1)
    }
}

/// Doubling never makes a power of two smaller.
pub proof fn lemma_pow2_grows(a: nat, b: nat)
    requires
        a <= b,
    ensures
        pow2(a) <= pow2(b),
        pow2(a) >= 1,
    decreases b,
{
    if a < b {
        lemma_pow2_grows(a, (b - 1) as nat);
    } else if a > 0 {
        lemma_pow2_grows((a - 1) as nat, (a - 1) as nat);
    }
}

/// The delay before something is tried again after its `attempt`-th failure.
pub fn backoff_delay(base_ms: u64, attempt: u32) -> (delay_ms: u64)
    ensures
        delay_ms == spec_backoff(base_ms, attempt),
{
    if attempt == 0 {
        return 0;
    }
    let mut delay = base_ms;
    let mut k: u32 = 1;
    assert(base_ms * pow2(0) == base_ms) by (nonlinear_arith)
        requires
            pow2(0) == 1,
    ;
    while k < attempt
        invariant
            1 <= k <= attempt,
            delay == spec_backoff(base_ms, k),
        decreases attempt - k,
    {
        let ghost before = base_ms * pow2((k - 1) as nat);
        assert(base_ms * pow2(k as nat) == 2 * before) by (nonlinear_arith)
            requires
                before == base_ms * pow2((k - 1) as nat),
                pow2(k as nat) == 2 * pow2((k - 1) as nat),
        ;
        if delay == u64::MAX {
            proof {
                lemma_pow2_grows((k - 1) as nat, (attempt - 1) as nat);
                assert(base_ms * pow2((attempt - 1) as nat) >= before) by (nonlinear_arith)
                    requires
                        before == base_ms * pow2((k - 1) as nat),
                        pow2((k - 1) as nat) <= pow2((attempt - 1) as nat),
                ;
            }
            return delay;
        }
        if delay > u64::MAX / 2 {
            delay = u64::MAX;
        } else {
            delay = delay * 2;
        }
        k = k + 1;
    }
    delay
}

/// What an indexer is set up with.
#[derive(Clone, Debug, PartialEq, Eq)]
pub struct VaultConfig {
    /// Where the chain client connects to.
    pub rpc_url: String,
    /// The vault whose logs are followed.
    pub vault_address: Address,
    /// Whether snapshots are read in the extended variant.
    pub extended: bool,
    /// How often a write may fail before the run ends.
    pub max_attempts: u32,
    /// The delay before a write is repeated for the first time.
    pub backoff_base_ms: u64,
}

/// The sync engine of one vault.
#[derive(Debug)]
pub struct VaultIndexer {
    config: VaultConfig,
    registry: SignatureRegistry,
    phase: Phase,
    cursor: Option<u64>,
    target: u64,
    resume_from: u64,
    subscribed: bool,
    pending: Pending,
    attempts: u32,
    failures: u64,
}

impl View for VaultIndexer {
    type V = EngineView;

    closed spec fn view(&self) -> EngineView {
        EngineView {
            phase: self.phase,
            cursor: self.cursor,
            target: self.target,
            resume_from: self.resume_from,
            subscribed: self.subscribed,
            pending: self.pending,
            attempts: self.attempts,
            failures: self.failures,
            max_attempts: self.config.max_attempts,
            backoff_base_ms: self.config.backoff_base_ms,
            address: self.config.vault_address,
            registry: self.registry@,
        }
    }
}

impl VaultIndexer {
    /// The configuration that the indexer was made with.
    pub closed spec fn spec_config(&self) -> VaultConfig {
        self.config
    }

    /// An indexer for the two events that every vault emits.
    pub fn new(config: VaultConfig) -> (indexer: VaultIndexer)
        ensures
            indexer.spec_config() == config,
            indexer@ == EngineView::initial(
                config.max_attempts,
                config.backoff_base_ms,
                config.vault_address,
                vault_event_pairs(),
            ),
    {
        VaultIndexer::with_registry(config, SignatureRegistry::vault_events())
    }

    /// An indexer that decodes the events of the given registry.
    pub fn with_registry(config: VaultConfig, registry: SignatureRegistry) -> (indexer:
        VaultIndexer)
        ensures
            indexer.spec_config() == config,
            indexer@ == EngineView::initial(
                config.max_attempts,
                config.backoff_base_ms,
                config.vault_address,
                registry@,
            ),
    {
        VaultIndexer {
            config,
            registry,
            phase: Phase::Starting,
            cursor: None,
            target: 0,
            resume_from: 0,
            subscribed: false,
            pending: Pending::Idle,
            attempts: 0,
            failures: 0,
        }
    }

    /// The configuration that the indexer was made with.
    pub fn config(&self) -> (config: &VaultConfig)
        ensures
            *config == self.spec_config(),
    {
        &self.config
    }

    /// The registry that logs are decoded with.
    pub fn registry(&self) -> (registry: &SignatureRegistry)
        ensures
            registry@ == self@.registry,
    {
        &self.registry
    }

    /// Where the engine stands in its life.
    pub fn phase(&self) -> (phase: Phase)
        ensures
            phase == self@.phase,
    {
        self.phase
    }

    /// The highest block whose snapshot was written, if any was.
    pub fn cursor(&self) -> (cursor: Option<u64>)
        ensures
            cursor == self@.cursor,
    {
        self.cursor
    }

    /// What the engine waits for.
    pub fn pending(&self) -> (pending: Pending)
        ensures
            pending == self@.pending,
    {
        self.pending
    }

    /// How many work items were given up.
    pub fn failures(&self) -> (failures: u64)
        ensures
            failures == self@.failures,
    {
        self.failures
    }

    /// Whether the next work item can be handed over.
    pub fn takes_work(&self) -> (ready: bool)
        ensures
            ready == self@.takes_work(),
    {
        (self.phase == Phase::CatchingUp || self.phase == Phase::Live) && self.is_idle()
            && self.subscribed
    }

    /// Decodes one log with the indexer's registry. `timestamp` is the time
    /// of the log's block.
    pub fn parse_vault_event(&self, log: &RawLog, timestamp: u64) -> (decoded: Result<
        Option<VaultEvent>,
        DecodeError,
    >)
        ensures
            decoded == spec_decode(self@.registry, *log, timestamp),
    {
        decode_log(&self.registry, log, timestamp)
    }

    /// Takes one signal in and answers with the action to perform. The
    /// engine's state and the action are those of [`EngineView::step`].
    pub fn step(&mut self, signal: Signal) -> (action: Action)
        ensures
            (final(self)@, action) == old(self)@.step(signal),
            final(self).spec_config() == old(self).spec_config(),
            cursor_le(old(self)@.cursor, final(self)@.cursor),
    {
        if self.phase == Phase::Stopped {
            return Action::Rejected;
        }
        match signal {
            Signal::Shutdown => self.on_shutdown(),
            Signal::ChainHead { head, checkpoint } => self.on_chain_head(head, checkpoint),
            Signal::Work(item) => self.on_work(item),
            Signal::BlockFetched(header) => self.on_block_fetched(header),
            Signal::StateRead(read) => self.on_state_read(read),
            Signal::Persisted(ok) => self.on_persisted(ok),
            Signal::FeedClosed => self.on_feed_closed(),
            Signal::Reconnected { head } => self.on_reconnected(head),
            Signal::ConnectFailed => self.on_connect_failed(),
        }
    }

    /// Takes a run of signals in, one after the other, and returns the
    /// action that answered each.
    pub fn run(&mut self, signals: Vec<Signal>) -> (actions: Vec<Action>)
        ensures
            final(self)@ == old(self)@.run(signals@),
            actions@ == old(self)@.answers(signals@),
            final(self).spec_config() == old(self).spec_config(),
            cursor_le(old(self)@.cursor, final(self)@.cursor),
    {
        let mut actions: Vec<Action> = Vec::new();
        let ghost all = signals@;
        for signal in it: signals
            invariant
                it.seq() == all,
                self@ == old(self)@.run(all.take(it.index() as int)),
                self.spec_config() == old(self).spec_config(),
                cursor_le(old(self)@.cursor, self@.cursor),
                actions@.len() == it.index(),
                forall|i: int|
                    0 <= i < it.index() ==> actions@[i] == old(self)@.answers(all)[i],
        {
            let ghost done = it.index() as int;
            proof {
                assert(all.take(done + 1).drop_last() =~= all.take(done));
            }
            let action = self.step(signal);
            actions.push(action);
        }
        assert(all.take(all.len() as int) =~= all);
        actions
    }

    fn is_idle(&self) -> (idle: bool)
        ensures
            idle == (self@.pending is Idle),
    {
        match self.pending {
            Pending::Idle => true,
            _ => false,
        }
    }

    fn is_writing(&self) -> (writing: bool)
        ensures
            writing == self@.writing(),
    {
        match self.pending {
            Pending::EventWrite { .. } => true,
            Pending::StateWrite { .. } => true,
            Pending::CheckpointWrite => true,
            _ => false,
        }
    }

    fn covers(&self, block: u64) -> (reached: bool)
        ensures
            reached == covered(self@.cursor, block),
    {
        match self.cursor {
            Some(c) => block <= c,
            None => false,
        }
    }

    fn count_failure(&mut self)
        ensures
            final(self)@ == (EngineView { failures: one_more(old(self)@.failures), ..old(self)@ }),
            final(self).spec_config() == old(self).spec_config(),
    {
        if self.failures < u64::MAX {
            self.failures = self.failures + 1;
        }
    }

    fn ready(&mut self) -> (action: Action)
        ensures
            (final(self)@, action) == old(self)@.ready(),
            final(self).spec_config() == old(self).spec_config(),
    {
        self.pending = Pending::Idle;
        if self.subscribed {
            Action::Next
        } else {
            self.subscribed = true;
            Action::Subscribe { address: self.config.vault_address, from_block: self.resume_from }
        }
    }

    fn checkpoint(&mut self) -> (action: Action)
        ensures
            (final(self)@, action) == old(self)@.checkpoint(),
            final(self).spec_config() == old(self).spec_config(),
    {
        match self.cursor {
            Some(block) => {
                self.phase = Phase::Draining;
                self.pending = Pending::CheckpointWrite;
                self.attempts = 0;
                Action::SaveCheckpoint { block }
            },
            None => {
                self.phase = Phase::Stopped;
                self.pending = Pending::Idle;
                Action::Halt
            },
        }
    }

    fn on_shutdown(&mut self) -> (action: Action)
        ensures
            (final(self)@, action) == old(self)@.on_shutdown(),
            final(self).spec_config() == old(self).spec_config(),
    {
        if self.phase == Phase::Starting {
            self.phase = Phase::Stopped;
            self.pending = Pending::Idle;
            Action::Halt
        } else if self.is_writing() {
            self.phase = Phase::Draining;
            Action::Wait
        } else {
            self.checkpoint()
        }
    }

    fn on_chain_head(&mut self, head: u64, checkpoint: Option<u64>) -> (action: Action)
        ensures
            (final(self)@, action) == old(self)@.on_chain_head(head, checkpoint),
            final(self).spec_config() == old(self).spec_config(),
    {
        if !(self.phase == Phase::Starting && self.is_idle()) {
            return Action::Rejected;
        }
        if let Some(c) = checkpoint {
            if !self.covers(c) {
                self.cursor = Some(c);
            }
        }
        self.target = head;
        match self.cursor {
            Some(c) if head <= c => {
                self.phase = Phase::Live;
                self.resume_from = c;
                self.subscribed = true;
                Action::Subscribe { address: self.config.vault_address, from_block: c }
            },
            _ => {
                self.resume_from = match self.cursor {
                    Some(c) => c,
                    None => head,
                };
                self.pending = Pending::StateRead { block: head };
                Action::ReadState { block: head }
            },
        }
    }

    fn on_work(&mut self, item: WorkItem) -> (action: Action)
        ensures
            (final(self)@, action) == old(self)@.on_work(item),
            final(self).spec_config() == old(self).spec_config(),
    {
        if !self.takes_work() {
            return Action::Rejected;
        }
        match item {
            WorkItem::NewBlock(n) => {
                if n > self.target {
                    self.phase = Phase::Live;
                }
                if self.covers(n) {
                    Action::Next
                } else {
                    self.pending = Pending::StateRead { block: n };
                    Action::ReadState { block: n }
                }
            },
            WorkItem::NewLog(log) => {
                if log.block_number > self.target {
                    self.phase = Phase::Live;
                }
                match decode_log(&self.registry, &log, 0) {
                    Err(error) => {
                        self.count_failure();
                        Action::Skip(Failure::Decode(error))
                    },
                    Ok(None) => Action::Next,
                    Ok(Some(event)) => {
                        self.pending = Pending::EventBlock { event };
                        Action::FetchBlock { number: event.block_number }
                    },
                }
            },
        }
    }

    fn on_block_fetched(&mut self, header: Option<BlockHeader>) -> (action: Action)
        ensures
            (final(self)@, action) == old(self)@.on_block_fetched(header),
            final(self).spec_config() == old(self).spec_config(),
    {
        let event = match self.pending {
            Pending::EventBlock { event } => event,
            _ => {
                return Action::Rejected;
            },
        };
        match header {
            Some(h) => {
                if h.number == event.block_number {
                    self.pending = Pending::EventWrite { block: event.block_number };
                    self.attempts = 0;
                    let mut stamped = event;
                    stamped.timestamp = h.timestamp;
                    Action::SaveEvent { event: stamped }
                } else {
                    self.pending = Pending::Idle;
                    self.count_failure();
                    Action::Skip(
                        Failure::WrongBlock { requested: event.block_number, found: h.number },
                    )
                }
            },
            None => {
                self.phase = Phase::Reconnecting;
                self.pending = Pending::Idle;
                self.subscribed = false;
                self.attempts = 0;
                self.count_failure();
                Action::Reconnect { from_block: self.cursor, delay_ms: 0 }
            },
        }
    }

    fn on_state_read(&mut self, read: Result<VaultState, ReadError>) -> (action: Action)
        ensures
            (final(self)@, action) == old(self)@.on_state_read(read),
            final(self).spec_config() == old(self).spec_config(),
    {
        let block = match self.pending {
            Pending::StateRead { block } => block,
            _ => {
                return Action::Rejected;
            },
        };
        let failure = match read {
            Ok(state) => {
                if state.block_number == block {
                    if self.phase == Phase::Starting {
                        self.phase = Phase::CatchingUp;
                    }
                    self.pending = Pending::StateWrite { block };
                    self.attempts = 0;
                    return Action::SaveState { state };
                }
                Failure::WrongBlock { requested: block, found: state.block_number }
            },
            Err(error) => Failure::Read(error),
        };
        self.pending = Pending::Idle;
        self.count_failure();
        if self.phase == Phase::Starting {
            self.phase = Phase::Stopped;
            Action::Fatal
        } else {
            Action::Skip(failure)
        }
    }

    fn on_write_failed(&mut self) -> (action: Action)
        ensures
            (final(self)@, action) == old(self)@.on_write_failed(),
            final(self).spec_config() == old(self).spec_config(),
    {
        if self.attempts >= u32::MAX || self.attempts + 1 >= self.config.max_attempts {
            self.phase = Phase::Stopped;
            self.pending = Pending::Idle;
            self.attempts = 0;
            Action::Fatal
        } else {
            self.attempts = self.attempts + 1;
            Action::RetryWrite {
                delay_ms: backoff_delay(self.config.backoff_base_ms, self.attempts),
            }
        }
    }

    fn on_persisted(&mut self, ok: bool) -> (action: Action)
        ensures
            (final(self)@, action) == old(self)@.on_persisted(ok),
            final(self).spec_config() == old(self).spec_config(),
    {
        if !self.is_writing() {
            return Action::Rejected;
        }
        if !ok {
            return self.on_write_failed();
        }
        self.attempts = 0;
        let draining = self.phase == Phase::Draining;
        match self.pending {
            Pending::EventWrite { block } => {
                if draining {
                    self.checkpoint()
                } else if self.covers(block) {
                    self.ready()
                } else {
                    self.pending = Pending::StateRead { block };
                    Action::ReadState { block }
                }
            },
            Pending::StateWrite { block } => {
                if !self.covers(block) {
                    self.cursor = Some(block);
                }
                if draining {
                    self.checkpoint()
                } else {
                    self.ready()
                }
            },
            _ => {
                self.phase = Phase::Stopped;
                self.pending = Pending::Idle;
                Action::Halt
            },
        }
    }

    fn on_feed_closed(&mut self) -> (action: Action)
        ensures
            (final(self)@, action) == old(self)@.on_feed_closed(),
            final(self).spec_config() == old(self).spec_config(),
    {
        if !self.takes_work() {
            return Action::Rejected;
        }
        self.phase = Phase::Reconnecting;
        self.subscribed = false;
        self.attempts = 0;
        Action::Reconnect { from_block: self.cursor, delay_ms: 0 }
    }

    fn on_reconnected(&mut self, head: u64) -> (action: Action)
        ensures
            (final(self)@, action) == old(self)@.on_reconnected(head),
            final(self).spec_config() == old(self).spec_config(),
    {
        if self.phase != Phase::Reconnecting {
            return Action::Rejected;
        }
        let from_block = match self.cursor {
            Some(c) => c,
            None => head,
        };
        self.phase = if self.covers(head) {
            Phase::Live
        } else {
            Phase::CatchingUp
        };
        self.target = head;
        self.resume_from = from_block;
        self.subscribed = true;
        self.attempts = 0;
        Action::Subscribe { address: self.config.vault_address, from_block }
    }

    fn on_connect_failed(&mut self) -> (action: Action)
        ensures
            (final(self)@, action) == old(self)@.on_connect_failed(),
            final(self).spec_config() == old(self).spec_config(),
    {
        if self.phase != Phase::Reconnecting {
            return Action::Rejected;
        }
        if self.attempts < u32::MAX {
            self.attempts = self.attempts + 1;
        }
        Action::Reconnect {
            from_block: self.cursor,
            delay_ms: backoff_delay(self.config.backoff_base_ms, self.attempts),
        }
    }
}

} // verus!
