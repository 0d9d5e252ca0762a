//! From a raw log record to a typed vault event.

use vstd::prelude::*;
use crate::primitives::{Address, H256, U256};
use crate::registry::{lookup_in, EventKind, SignatureRegistry};

verus! {

/// The length of the data payload of every vault event: two 32-byte words,
/// the asset amount and the share amount.
pub const EVENT_DATA_LEN: usize = 64;

/// A log record as the chain client delivers it.
#[derive(Clone, Debug, PartialEq, Eq)]
pub struct RawLog {
    /// The indexed fields; the first one names the event's signature.
    pub topics: Vec<H256>,
    /// The fields that are not indexed, as 32-byte words one after another.
    pub data: Vec<u8>,
    pub block_number: u64,
    pub transaction_hash: H256,
    /// The position of the log in its block.
    pub log_index: u64,
}

/// One on-chain action of the vault. The transaction hash and the log index
/// together identify it.
#[derive(Clone, Copy, Debug, PartialEq, Eq)]
pub struct VaultEvent {
    pub kind: EventKind,
    pub block_number: u64,
    pub transaction_hash: H256,
    pub log_index: u64,
    pub sender: Address,
    pub receiver: Option<Address>,
    pub owner: Option<Address>,
    pub assets: U256,
    pub shares: U256,
    /// The time of the block, which the log itself does not carry.
    pub timestamp: u64,
}

/// Why a log with a known signature could not be decoded.
#[derive(Clone, Copy, Debug, PartialEq, Eq)]
pub enum DecodeError {
    /// The log carries another number of topics than its signature declares.
    WrongTopicCount { expected: usize, found: usize },
    /// The data payload is not made of the words that its signature declares.
    WrongDataLength { expected: usize, found: usize },
}

/// The event that a well-formed log of the given kind stands for.
///
/// A deposit names its sender and its owner, who also receives the shares; a
/// withdrawal names sender, receiver and owner. Each address is the low
/// twenty bytes of its topic, each amount one big-endian word of the data.
pub open spec fn event_of(kind: EventKind, log: RawLog, timestamp: u64) -> VaultEvent {
    let first = Address::of_word(log.topics@[1]@);
    let second = Address::of_word(log.topics@[2]@);
    VaultEvent {
        kind,
        block_number: log.block_number,
        transaction_hash: log.transaction_hash,
        log_index: log.log_index,
        sender: first,
        receiver: Some(second),
        owner: match kind {
            EventKind::Deposit => Some(second),
            EventKind::Withdraw => Some(Address::of_word(log.topics@[3]@)),
        },
        assets: U256::from_be_seq(log.data@.subrange(0, 32)),
        shares: U256::from_be_seq(log.data@.subrange(32, 64)),
        timestamp,
    }
}

/// What decoding a log yields under a given registry.
///
/// A log without topics, or with a first topic that the registry does not
/// know, is no vault event. A log with a known first topic must have the
/// layout of its kind, and is an error otherwise.
pub open spec fn spec_decode(
    registry: Seq<(Seq<u8>, EventKind)>,
    log: RawLog,
    timestamp: u64,
) -> Result<Option<VaultEvent>, DecodeError> {
    if log.topics@.len() == 0 {
        Ok(None)
    } else {
        match lookup_in(registry, log.topics@[0]@) {
            None => Ok(None),
            Some(kind) => {
                if log.topics@.len() != kind.spec_topic_count() {
                    Err(
                        DecodeError::WrongTopicCount {
                            expected: kind.spec_topic_count(),
                            found: log.topics@.len() as usize,
                        },
                    )
                } else if log.data@.len() != EVENT_DATA_LEN {
                    Err(
                        DecodeError::WrongDataLength {
                            expected: EVENT_DATA_LEN,
                            found: log.data@.len() as usize,
                        },
                    )
                } else {
                    Ok(Some(event_of(kind, log, timestamp)))
                }
            },
        }
    }
}

/// Decodes one log. `timestamp` is the time of the log's block, which the
/// caller supplies.
pub fn decode_log(registry: &SignatureRegistry, log: &RawLog, timestamp: u64) -> (decoded: Result<
    Option<VaultEvent>,
    DecodeError,
>)
    ensures
        decoded == spec_decode(registry@, *log, timestamp),
{
    if log.topics.len() == 0 {
        return Ok(None);
    }
    let kind = match registry.lookup(&log.topics[0]) {
        None => {
            return Ok(None);
        },
        Some(kind) => kind,
    };
    let expected = kind.topic_count();
    if log.topics.len() != expected {
        return Err(DecodeError::WrongTopicCount { expected, found: log.topics.len() });
    }
    if log.data.len() != EVENT_DATA_LEN {
        return Err(
            DecodeError::WrongDataLength { expected: EVENT_DATA_LEN, found: log.data.len() },
        );
    }
    let sender = Address::from_word(&log.topics[1]);
    let second = Address::from_word(&log.topics[2]);
    let owner = match kind {
        EventKind::Deposit => second,
        EventKind::Withdraw => Address::from_word(&log.topics[3]),
    };
    let data = log.data.as_slice();
    let assets = U256::from_be_slice(vstd::slice::slice_subrange(data, 0, 32));
    let shares = U256::from_be_slice(vstd::slice::slice_subrange(data, 32, 64));
    Ok(
        Some(
            VaultEvent {
                kind,
                block_number: log.block_number,
                transaction_hash: log.transaction_hash,
                log_index: log.log_index,
                sender,
                receiver: Some(second),
                owner: Some(owner),
                assets,
                shares,
                timestamp,
            },
        ),
    )
}

/// A log whose first topic matches no registration is never an error, and
/// never an event; nor is a log without topics.
pub proof fn lemma_unknown_signature_is_skipped(
    registry: Seq<(Seq<u8>, EventKind)>,
    log: RawLog,
    timestamp: u64,
)
    requires
        log.topics@.len() > 0 ==> forall|i: int|
            0 <= i < registry.len() ==> (#[trigger] registry[i]).0 != log.topics@[0]@,
    ensures
        spec_decode(registry, log, timestamp) == Ok::<Option<VaultEvent>, DecodeError>(None),
{
    if log.topics@.len() > 0 {
        crate::registry::lemma_lookup_sound(registry, log.topics@[0]@);
    }
}

/// A decoded event carries the key of its log, whatever the registry and
/// the timestamp.
pub proof fn lemma_decoded_key(registry: Seq<(Seq<u8>, EventKind)>, log: RawLog, timestamp: u64)
    ensures
        spec_decode(registry, log, timestamp) matches Ok(Some(event)) ==> event.transaction_hash
            == log.transaction_hash && event.log_index == log.log_index && event.block_number
            == log.block_number && event.timestamp == timestamp,
{
}

/// The amounts of a decoded event are the big-endian numbers of the two data
/// words, and its addresses the low twenty bytes of its topics.
pub proof fn lemma_decoded_fields(
    registry: Seq<(Seq<u8>, EventKind)>,
    log: RawLog,
    timestamp: u64,
)
    requires
        spec_decode(registry, log, timestamp) matches Ok(Some(_)),
    ensures
        spec_decode(registry, log, timestamp) matches Ok(Some(event)) && {
            &&& lookup_in(registry, log.topics@[0]@) == Some(event.kind)
            &&& event.assets@ == crate::primitives::be_value(log.data@.subrange(0, 32))
            &&& event.shares@ == crate::primitives::be_value(log.data@.subrange(32, 64))
            &&& event.sender@ == log.topics@[1]@.subrange(12, 32)
            &&& event.receiver->Some_0@ == log.topics@[2]@.subrange(12, 32)
            &&& event.owner->Some_0@ == log.topics@[event.kind.spec_topic_count() - 1]@.subrange(
                12,
                32,
            )
        },
{
    crate::primitives::lemma_from_be_seq_value(log.data@.subrange(0, 32));
    crate::primitives::lemma_from_be_seq_value(log.data@.subrange(32, 64));
    let kind = lookup_in(registry, log.topics@[0]@)->Some_0;
    crate::primitives::lemma_of_word_view(log.topics@[1]@);
    crate::primitives::lemma_of_word_view(log.topics@[2]@);
    if kind == EventKind::Withdraw {
        crate::primitives::lemma_of_word_view(log.topics@[3]@);
    }
}

} // verus!
