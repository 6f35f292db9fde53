//! The fixed-width values that the encoders work on, each held as its
//! big-endian bytes.

use vstd::prelude::*;
use crate::words::{be_value, uint_word, zeros, u64_to_word, lemma_be_value_of_be_bytes, lemma_pow256_8, lemma_pow256_adds, lemma_pow256_positive, pow256};

verus! {

/// Whether two byte strings hold the same bytes.
pub fn bytes_equal(a: &[u8], b: &[u8]) -> (same: bool)
    ensures
        same == (a@ == b@),
{
    if a.len() != b.len() {
        return false;
    }
    let mut i: usize = 0;
    while i < a.len()
        invariant
            i <= a@.len(),
            a@.len() == b@.len(),
            forall|j: int| 0 <= j < i ==> a@[j] == b@[j],
        decreases a@.len() - i,
    {
        if a[i] != b[i] {
            return false;
        }
        i = i + 1;
    }
    assert(a@ =~= b@);
    true
}

/// A 20-byte account or contract identifier.
#[derive(Clone, Copy, Debug)]
pub struct Address {
    pub bytes: [u8; 20],
}

impl View for Address {
    type V = Seq<u8>;

    open spec fn view(&self) -> Seq<u8> {
        self.bytes@
    }
}

/// The 32-byte word that holds a 20-byte address: twelve zero bytes, then the
/// address.
pub open spec fn address_word(a: Seq<u8>) -> Seq<u8> {
    zeros(12) + a
}

impl Address {
    /// The address as a 160-bit number.
    pub open spec fn value(&self) -> nat {
        be_value(self@)
    }

    pub fn new(bytes: [u8; 20]) -> (a: Address)
        ensures
            a@ == bytes@,
    {
        Address { bytes }
    }

    /// The all-zero address.
    pub fn zero() -> (a: Address)
        ensures
            a@ == zeros(20),
    {
        let a = Address { bytes: [0u8; 20] };
        assert(a@ =~= zeros(20));
        a
    }

    /// The address left-padded to a 32-byte word.
    pub fn to_word(&self) -> (word: [u8; 32])
        ensures
            word@ == address_word(self@),
    {
        let mut word: [u8; 32] = [0u8; 32];
        let mut i: usize = 0;
        while i < 20
            invariant
                i <= 20,
                forall|j: int| 0 <= j < 12 ==> word@[j] == 0u8,
                forall|j: int| 0 <= j < i ==> word@[12 + j] == self.bytes@[j],
            decreases 20 - i,
        {
            word[12 + i] = self.bytes[i];
            i = i + 1;
        }
        assert(word@ =~= address_word(self@));
        word
    }

    /// Whether two addresses hold the same bytes.
    pub fn same_as(&self, other: &Address) -> (same: bool)
        ensures
            same == (self@ == other@),
    {
        bytes_equal(self.bytes.as_slice(), other.bytes.as_slice())
    }
}

/// A 256-bit unsigned integer, as 32 big-endian bytes.
#[derive(Clone, Copy, Debug)]
pub struct U256 {
    pub bytes: [u8; 32],
}

impl View for U256 {
    type V = Seq<u8>;

    open spec fn view(&self) -> Seq<u8> {
        self.bytes@
    }
}

impl U256 {
    /// The number held.
    pub open spec fn value(&self) -> nat {
        be_value(self@)
    }

    pub fn from_be_bytes(bytes: [u8; 32]) -> (n: U256)
        ensures
            n@ == bytes@,
    {
        U256 { bytes }
    }

    pub fn from_u64(n: u64) -> (out: U256)
        ensures
            out@ == uint_word(n as nat),
            out.value() == n,
    {
        let out = U256 { bytes: u64_to_word(n) };
        proof {
            lemma_pow256_8();
            lemma_pow256_adds(8, 24);
            lemma_pow256_positive(24);
            assert(pow256(8) <= pow256(8) * pow256(24)) by (nonlinear_arith)
                requires
                    pow256(24) > 0,
            ;
            lemma_be_value_of_be_bytes(n as nat, 32);
        }
        out
    }

    pub fn zero() -> (out: U256)
        ensures
            out@ == zeros(32),
    {
        let out = U256 { bytes: [0u8; 32] };
        assert(out@ =~= zeros(32));
        out
    }

    /// Whether two numbers are equal.
    pub fn same_as(&self, other: &U256) -> (same: bool)
        ensures
            same == (self@ == other@),
    {
        bytes_equal(self.bytes.as_slice(), other.bytes.as_slice())
    }
}

} // verus!
