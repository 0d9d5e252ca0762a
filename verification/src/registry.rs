//! The vocabulary of vault events: which signature hash announces which kind
//! of event.

use vstd::prelude::*;
use crate::hashing::{keccak256, keccak256_digest};
use crate::primitives::H256;
use vstd::string::StringSliceAdditionalSpecFns;

verus! {

/// The kinds of event that a vault emits.
#[derive(Clone, Copy, Debug, PartialEq, Eq, Structural)]
pub enum EventKind {
    Deposit,
    Withdraw,
}

/// The canonical signature of a deposit.
pub const DEPOSIT_SIGNATURE: &'static str = "Deposit(address,address,uint256,uint256)";

/// The canonical signature of a withdrawal.
pub const WITHDRAW_SIGNATURE: &'static str = "Withdraw(address,address,address,uint256,uint256)";

impl EventKind {
    /// How many topics a log of this kind carries: the signature hash and one
    /// word for each indexed address.
    pub open spec fn spec_topic_count(self) -> usize {
        match self {
            EventKind::Deposit => 3,
            EventKind::Withdraw => 4,
        }
    }

    #[verifier::when_used_as_spec(spec_topic_count)]
    pub fn topic_count(self) -> (n: usize)
        ensures
            n == self.spec_topic_count(),
    {
        match self {
            EventKind::Deposit => 3,
            EventKind::Withdraw => 4,
        }
    }

    /// The canonical name-and-types string that the chain hashes into the
    /// first topic of a log of this kind.
    pub open spec fn spec_signature(self) -> &'static str {
        match self {
            EventKind::Deposit => DEPOSIT_SIGNATURE,
            EventKind::Withdraw => WITHDRAW_SIGNATURE,
        }
    }

    #[verifier::when_used_as_spec(spec_signature)]
    pub fn signature(self) -> (s: &'static str)
        ensures
            s == self.spec_signature(),
    {
        match self {
            EventKind::Deposit => DEPOSIT_SIGNATURE,
            EventKind::Withdraw => WITHDRAW_SIGNATURE,
        }
    }
}

/// The first topic of every log of the given kind: the hash of the kind's
/// canonical signature.
pub fn event_topic(kind: EventKind) -> (topic: H256)
    ensures
        topic@ == keccak256_digest(kind.spec_signature().spec_bytes()),
{
    keccak256(kind.signature().as_bytes())
}

/// One registration: a signature hash and the kind it announces.
#[derive(Clone, Copy, Debug, PartialEq, Eq)]
pub struct RegistryEntry {
    pub hash: H256,
    pub kind: EventKind,
}

/// The hash-to-kind pair that an entry stands for.
pub open spec fn entry_pair(entry: RegistryEntry) -> (Seq<u8>, EventKind) {
    (entry.hash@, entry.kind)
}

/// The kind registered for `topic`: that of the earliest registration whose
/// hash is `topic`, if there is one.
pub open spec fn lookup_in(pairs: Seq<(Seq<u8>, EventKind)>, topic: Seq<u8>) -> Option<EventKind>
    decreases pairs.len(),
{
    if pairs.len() == 0 {
        None
    } else if pairs[0].0 == topic {
        Some(pairs[0].1)
    } else {
        lookup_in(pairs.drop_first(), topic)
    }
}

/// Whether no two registrations share a hash.
pub open spec fn distinct_hashes(pairs: Seq<(Seq<u8>, EventKind)>) -> bool {
    forall|i: int, j: int|
        0 <= i < j < pairs.len() ==> (#[trigger] pairs[i]).0 != (#[trigger] pairs[j]).0
}

/// A lookup finds nothing exactly when no registration has the topic as its
/// hash; what it finds was registered under that hash.
pub proof fn lemma_lookup_sound(pairs: Seq<(Seq<u8>, EventKind)>, topic: Seq<u8>)
    ensures
        lookup_in(pairs, topic) is None <==> forall|i: int|
            0 <= i < pairs.len() ==> (#[trigger] pairs[i]).0 != topic,
        lookup_in(pairs, topic) matches Some(kind) ==> pairs.contains((topic, kind)),
    decreases pairs.len(),
{
    if pairs.len() > 0 && pairs[0].0 != topic {
        let rest = pairs.drop_first();
        lemma_lookup_sound(rest, topic);
        if lookup_in(rest, topic) is None {
            assert forall|i: int| 0 <= i < pairs.len() implies (#[trigger] pairs[i]).0
                != topic by {
                if i > 0 {
                    assert(rest[i - 1] == pairs[i]);
                }
            }
        } else {
            let kind = lookup_in(rest, topic)->Some_0;
            let k = choose|k: int| 0 <= k < rest.len() && rest[k] == (topic, kind);
            assert(pairs[k + 1] == (topic, kind));
        }
    }
}

/// Registration order is irrelevant: where no two registrations share a
/// hash, a lookup finds a kind exactly when that pair was registered,
/// wherever in the sequence it stands.
pub proof fn lemma_lookup_ignores_order(
    pairs: Seq<(Seq<u8>, EventKind)>,
    topic: Seq<u8>,
    kind: EventKind,
)
    requires
        distinct_hashes(pairs),
    ensures
        lookup_in(pairs, topic) == Some(kind) <==> pairs.contains((topic, kind)),
    decreases pairs.len(),
{
    lemma_lookup_sound(pairs, topic);
    if pairs.contains((topic, kind)) {
        let i = choose|i: int| 0 <= i < pairs.len() && pairs[i] == (topic, kind);
        let found = lookup_in(pairs, topic)->Some_0;
        let j = choose|j: int| 0 <= j < pairs.len() && pairs[j] == (topic, found);
        assert(pairs[i].0 == pairs[j].0);
        assert(i == j);
    }
}

/// The registrations of the two events that every vault emits, each under
/// the hash of its canonical signature.
pub open spec fn vault_event_pairs() -> Seq<(Seq<u8>, EventKind)> {
    seq![
        (keccak256_digest(DEPOSIT_SIGNATURE.spec_bytes()), EventKind::Deposit),
        (keccak256_digest(WITHDRAW_SIGNATURE.spec_bytes()), EventKind::Withdraw),
    ]
}

/// Maps the first topic of a log to the kind of event it announces.
#[derive(Debug)]
pub struct SignatureRegistry {
    entries: Vec<RegistryEntry>,
}

impl View for SignatureRegistry {
    type V = Seq<(Seq<u8>, EventKind)>;

    closed spec fn view(&self) -> Seq<(Seq<u8>, EventKind)> {
        self.entries@.map_values(|e: RegistryEntry| entry_pair(e))
    }
}

impl SignatureRegistry {
    /// A registry that knows no event.
    pub fn new() -> (registry: SignatureRegistry)
        ensures
            registry@ == Seq::<(Seq<u8>, EventKind)>::empty(),
    {
        let registry = SignatureRegistry { entries: Vec::new() };
        registry
    }

    /// The registry of the two events that every vault emits, under their
    /// canonical signatures.
    pub fn vault_events() -> (registry: SignatureRegistry)
        ensures
            registry@ == vault_event_pairs(),
    {
        let mut registry = SignatureRegistry::new();
        registry.register(EventKind::Deposit, EventKind::Deposit.signature());
        registry.register(EventKind::Withdraw, EventKind::Withdraw.signature());
        registry
    }

    /// Registers `kind` under the hash of its canonical signature string.
    pub fn register(&mut self, kind: EventKind, signature: &str)
        ensures
            final(self)@ == old(self)@.push((keccak256_digest(signature.spec_bytes()), kind)),
    {
        let hash = keccak256(signature.as_bytes());
        self.register_hash(kind, hash);
    }

    /// Registers `kind` under a signature hash that is already at hand.
    pub fn register_hash(&mut self, kind: EventKind, hash: H256)
        ensures
            final(self)@ == old(self)@.push((hash@, kind)),
    {
        self.entries.push(RegistryEntry { hash, kind });
    }

    /// How many registrations the registry holds.
    pub fn len(&self) -> (n: usize)
        ensures
            n == self@.len(),
    {
        self.entries.len()
    }

    /// The kind registered for `topic`, or `None` for a topic that is not
    /// known. An unknown topic is no fault: unrelated logs are expected.
    pub fn lookup(&self, topic: &H256) -> (found: Option<EventKind>)
        ensures
            found == lookup_in(self@, topic@),
    {
        let mut i: usize = 0;
        assert(self@.subrange(0, self@.len() as int) =~= self@);
        while i < self.entries.len()
            invariant
                i <= self.entries.len(),
                self@.len() == self.entries.len(),
                lookup_in(self@, topic@) == lookup_in(
                    self@.subrange(i as int, self@.len() as int),
                    topic@,
                ),
            decreases self.entries.len() - i,
        {
            let ghost rest = self@.subrange(i as int, self@.len() as int);
            assert(rest.drop_first() =~= self@.subrange(i + 1, self@.len() as int));
            if self.entries[i].hash.same_as(topic) {
                return Some(self.entries[i].kind);
            }
            i = i + 1;
        }
        None
    }
}

} // verus!
