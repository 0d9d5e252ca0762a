//! Fixed-width values that travel through the pipeline: account addresses,
//! 32-byte hashes and 256-bit unsigned integers.

use vstd::prelude::*;

verus! {

/// The number of an unsigned big-endian byte string.
pub open spec fn be_value(bytes: Seq<u8>) -> nat
    decreases bytes.len(),
{
    if bytes.len() == 0 {
        0
    } else {
        be_value(bytes.drop_last()) * 256 + bytes.last() as nat
    }
}

/// 256 to the power `n`.
pub open spec fn pow256(n: nat) -> nat
    decreases n,
{
    if n == 0 {
        1
    } else {
        256 * pow256((n - 1) as nat)
    }
}

/// A byte string of length `n` is a number below `256^n`.
pub proof fn lemma_be_value_bound(bytes: Seq<u8>)
    ensures
        be_value(bytes) < pow256(bytes.len()),
    decreases bytes.len(),
{
    if bytes.len() > 0 {
        lemma_be_value_bound(bytes.drop_last());
    }
}

/// The number of a concatenation: the left part is shifted by the length of
/// the right part.
pub proof fn lemma_be_value_concat(left: Seq<u8>, right: Seq<u8>)
    ensures
        be_value(left + right) == be_value(left) * pow256(right.len()) + be_value(right),
    decreases right.len(),
{
    if right.len() == 0 {
        assert(left + right =~= left);
    } else {
        let whole = left + right;
        assert(whole.drop_last() =~= left + right.drop_last());
        assert(whole.last() == right.last());
        lemma_be_value_concat(left, right.drop_last());
        let a = be_value(left) as int;
        let r = be_value(right.drop_last()) as int;
        let p = pow256(right.drop_last().len()) as int;
        assert(pow256(right.len()) == 256 * p);
        assert(be_value(whole) == be_value(whole.drop_last()) * 256 + whole.last() as nat);
        assert(be_value(right) == r * 256 + right.last() as nat);
        assert((a * p + r) * 256 == a * (256 * p) + r * 256) by (nonlinear_arith);
    }
}

/// `256^8`, the number of values of one 64-bit limb.
pub open spec fn limb_base() -> nat {
    0x1_0000_0000_0000_0000
}

/// Eight bytes have as many values as one limb.
pub proof fn lemma_pow256_of_8()
    ensures
        pow256(8) == limb_base(),
{
    reveal_with_fuel(pow256, 9);
}

/// A 32-byte hash: a log topic, a transaction hash or an event signature.
#[derive(Clone, Copy, Debug, PartialEq, Eq)]
pub struct H256 {
    pub bytes: [u8; 32],
}

impl View for H256 {
    type V = Seq<u8>;

    open spec fn view(&self) -> Seq<u8> {
        self.bytes@
    }
}

impl H256 {
    /// Whether two hashes hold the same bytes.
    pub fn same_as(&self, other: &H256) -> (same: bool)
        ensures
            same == (self@ == other@),
            same == (*self == *other),
    {
        let mut i: usize = 0;
        while i < 32
            invariant
                i <= 32,
                forall|j: int| 0 <= j < i ==> self.bytes@[j] == other.bytes@[j],
            decreases 32 - i,
        {
            if self.bytes[i] != other.bytes[i] {
                return false;
            }
            i = i + 1;
        }
        assert(self.bytes =~= other.bytes);
        true
    }
}

/// A 20-byte account address.
#[derive(Clone, Copy, Debug, PartialEq, Eq)]
pub struct Address {
    pub bytes: [u8; 20],
}

impl View for Address {
    type V = Seq<u8>;

    open spec fn view(&self) -> Seq<u8> {
        self.bytes@
    }
}

impl Address {
    /// The address whose bytes are the first twenty of `s`.
    pub open spec fn from_seq(s: Seq<u8>) -> Address {
        Address {
            bytes: [
                s[0], s[1], s[2], s[3], s[4], s[5], s[6], s[7], s[8], s[9],
                s[10], s[11], s[12], s[13], s[14], s[15], s[16], s[17], s[18], s[19],
            ],
        }
    }

    /// The address held in the low twenty bytes of a 32-byte word.
    pub open spec fn of_word(word: Seq<u8>) -> Address {
        Address::from_seq(word.subrange(12, 32))
    }

    /// Reads the address held in the low twenty bytes of a 32-byte word; the
    /// high twelve bytes are not looked at.
    pub fn from_word(word: &H256) -> (address: Address)
        ensures
            address == Address::of_word(word@),
            address@ == word@.subrange(12, 32),
    {
        let low = vstd::slice::slice_subrange(word.bytes.as_slice(), 12, 32);
        let address = address_from_slice(low);
        assert(address.bytes =~= Address::of_word(word@).bytes);
        address
    }
}

/// The address read from a 32-byte word holds the word's low twenty bytes.
pub proof fn lemma_of_word_view(word: Seq<u8>)
    requires
        word.len() == 32,
    ensures
        Address::of_word(word)@ == word.subrange(12, 32),
{
}

/// Calls `Address::from_slice` of the ethers crate (the `from_slice` that
/// the fixed-hash crate defines for `H160`), which copies the twenty bytes of
/// the slice into a fresh address and panics on any other length.
#[verifier::external_body]
fn address_from_slice(bytes: &[u8]) -> (address: Address)
    requires
        bytes@.len() == 20,
    ensures
        address@ == bytes@,
{
    Address { bytes: ethers::types::Address::from_slice(bytes).0 }
}

/// A 256-bit unsigned integer in four 64-bit limbs, least significant first.
#[derive(Clone, Copy, Debug, PartialEq, Eq)]
pub struct U256 {
    pub limbs: [u64; 4],
}

impl View for U256 {
    type V = nat;

    open spec fn view(&self) -> nat {
        (self.limbs@[0] as nat) + limb_base() * ((self.limbs@[1] as nat) + limb_base() * ((
        self.limbs@[2] as nat) + limb_base() * (self.limbs@[3] as nat)))
    }
}

impl U256 {
    /// The integer that a 32-byte big-endian word denotes.
    pub open spec fn from_be_seq(word: Seq<u8>) -> U256 {
        U256 {
            limbs: [
                be_value(word.subrange(24, 32)) as u64,
                be_value(word.subrange(16, 24)) as u64,
                be_value(word.subrange(8, 16)) as u64,
                be_value(word.subrange(0, 8)) as u64,
            ],
        }
    }

    /// The 256-bit integer equal to `value`.
    pub fn from_u64(value: u64) -> (r: U256)
        ensures
            r@ == value,
            r.limbs@ == seq![value, 0u64, 0u64, 0u64],
    {
        let r = U256 { limbs: [value, 0, 0, 0] };
        r
    }

    /// The value as a `u64`, where it fits.
    pub fn to_u64(&self) -> (r: Option<u64>)
        ensures
            r is Some <==> self@ <= u64::MAX,
            r matches Some(v) ==> v == self@,
    {
        if self.limbs[1] == 0 && self.limbs[2] == 0 && self.limbs[3] == 0 {
            Some(self.limbs[0])
        } else {
            assert(self@ >= limb_base()) by (nonlinear_arith)
                requires
                    self.limbs@[1] != 0 || self.limbs@[2] != 0 || self.limbs@[3] != 0,
                    self@ == (self.limbs@[0] as nat) + limb_base() * ((self.limbs@[1] as nat)
                        + limb_base() * ((self.limbs@[2] as nat) + limb_base() * (
                    self.limbs@[3] as nat))),
                    limb_base() == 0x1_0000_0000_0000_0000,
            ;
            None
        }
    }

    /// Reads a 32-byte big-endian word.
    pub fn from_be_word(word: &[u8; 32]) -> (r: U256)
        ensures
            r == U256::from_be_seq(word@),
            r@ == be_value(word@),
    {
        U256::from_be_slice(word.as_slice())
    }

    /// Reads a 32-byte big-endian word out of a longer run of bytes.
    pub(crate) fn from_be_slice(word: &[u8]) -> (r: U256)
        requires
            word@.len() == 32,
        ensures
            r == U256::from_be_seq(word@),
            r@ == be_value(word@),
    {
        let r = u256_from_big_endian(word);
        proof {
            lemma_limb_fits(word@.subrange(0, 8));
            lemma_limb_fits(word@.subrange(8, 16));
            lemma_limb_fits(word@.subrange(16, 24));
            lemma_limb_fits(word@.subrange(24, 32));
            assert(r.limbs =~= U256::from_be_seq(word@).limbs);
            lemma_from_be_seq_value(word@);
        }
        r
    }
}

/// Eight bytes denote a number that fits one limb.
pub proof fn lemma_limb_fits(bytes: Seq<u8>)
    requires
        bytes.len() == 8,
    ensures
        be_value(bytes) < limb_base(),
{
    lemma_be_value_bound(bytes);
    lemma_pow256_of_8();
}

/// The integer read from a 32-byte word is the big-endian number of its bytes.
pub proof fn lemma_from_be_seq_value(word: Seq<u8>)
    requires
        word.len() == 32,
    ensures
        U256::from_be_seq(word)@ == be_value(word),
{
    let a = word.subrange(0, 8);
    let b = word.subrange(8, 16);
    let c = word.subrange(16, 24);
    let d = word.subrange(24, 32);
    lemma_limb_fits(a);
    lemma_limb_fits(b);
    lemma_limb_fits(c);
    lemma_limb_fits(d);
    lemma_pow256_of_8();
    assert(a + b =~= word.subrange(0, 16));
    assert(word.subrange(0, 16) + c =~= word.subrange(0, 24));
    assert(word.subrange(0, 24) + d =~= word);
    lemma_be_value_concat(a, b);
    lemma_be_value_concat(a + b, c);
    lemma_be_value_concat(a + b + c, d);
    let q = limb_base() as int;
    let (va, vb, vc, vd) = (
        be_value(a) as int,
        be_value(b) as int,
        be_value(c) as int,
        be_value(d) as int,
    );
    assert(((va * q + vb) * q + vc) * q + vd == vd + q * (vc + q * (vb + q * va)))
        by (nonlinear_arith);
}

/// Calls `U256::from_big_endian` of the ethers crate (defined by the uint
/// crate) on a full 32-byte word. It reads the word as four big-endian 64-bit
/// groups and stores the last group in limb 0, the first in limb 3. On more
/// than 32 bytes it panics; shorter input is not needed here.
#[verifier::external_body]
fn u256_from_big_endian(word: &[u8]) -> (r: U256)
    requires
        word@.len() == 32,
    ensures
        r.limbs@[0] == be_value(word@.subrange(24, 32)),
        r.limbs@[1] == be_value(word@.subrange(16, 24)),
        r.limbs@[2] == be_value(word@.subrange(8, 16)),
        r.limbs@[3] == be_value(word@.subrange(0, 8)),
{
    U256 { limbs: ethers::types::U256::from_big_endian(word).0 }
}

} // verus!
