//! The two-part nonce of a user operation.
//!
//! The upper 192 bits of a nonce are a key that the client chooses: here the
//! address of the validator that is to check the operation. The lower 64
//! bits are a sequence number that the entry point keeps for each key; it is
//! read from the chain, never computed here.

use vstd::prelude::*;
use crate::abi::{abi_address_uint192_params, encode_address_uint192_params};
use crate::error::AppError;
use crate::primitives::{Address, U256};
use crate::safe::OracleCall;
use crate::words::{
    be_bytes,
    be_value,
    lemma_be_value_bound,
    lemma_be_value_concat,
    lemma_be_value_leading_zeros,
    lemma_be_value_of_be_bytes,
    lemma_pow256_8,
    pow256,
    u64_from_be_bytes,
    u64_to_be_bytes,
    with_selector,
    zeros,
};

verus! {

/// Selector of `getNonce(address,uint192)`.
pub const GET_NONCE_SELECTOR: [u8; 4] = [0x35, 0x56, 0x7e, 0x1a];

/// A 192-bit nonce key, as 24 big-endian bytes. The low 160 bits are the
/// address of a validator; the 32 bits above them are always zero.
#[derive(Debug)]
pub struct NonceKey {
    bytes: [u8; 24],
}

impl View for NonceKey {
    type V = Seq<u8>;

    closed spec fn view(&self) -> Seq<u8> {
        self.bytes@
    }
}

impl Clone for NonceKey {
    fn clone(&self) -> (copy: NonceKey)
        ensures
            copy@ == self@,
    {
        proof {
            use_type_invariant(self);
        }
        NonceKey { bytes: self.bytes }
    }
}

impl Copy for NonceKey {}

impl NonceKey {
    #[verifier::type_invariant]
    spec fn high_bits_are_zero(&self) -> bool {
        self.bytes@.subrange(0, 4) == zeros(4)
    }

    /// The key as a number.
    pub open spec fn value(&self) -> nat {
        be_value(self@)
    }

    /// The 24 bytes of the key, of which the first four are zero.
    pub fn to_be_bytes(&self) -> (bytes: [u8; 24])
        ensures
            bytes@ == self@,
            bytes@.subrange(0, 4) == zeros(4),
    {
        proof {
            use_type_invariant(self);
        }
        self.bytes
    }

    /// The validator whose key this is.
    pub fn validator(&self) -> (address: Address)
        ensures
            self@ == zeros(4) + address@,
    {
        proof {
            use_type_invariant(self);
        }
        let mut bytes: [u8; 20] = [0u8; 20];
        let mut i: usize = 0;
        while i < 20
            invariant
                i <= 20,
                forall|j: int| 0 <= j < i ==> bytes@[j] == self.bytes@[4 + j],
            decreases 20 - i,
        {
            bytes[i] = self.bytes[4 + i];
            i = i + 1;
        }
        let address = Address::new(bytes);
        proof {
            assert(self.bytes@.subrange(0, 4) =~= zeros(4));
            assert forall|j: int| 0 <= j < 4 implies self.bytes@[j] == 0u8 by {
                assert(self.bytes@.subrange(0, 4)[j] == self.bytes@[j]);
            }
            assert(self@ =~= zeros(4) + address@);
        }
        address
    }
}

/// `256^20` is `2^160`.
pub proof fn lemma_pow256_20()
    ensures
        pow256(20) == 0x1_0000_0000_0000_0000_0000_0000_0000_0000_0000_0000,
{
    lemma_pow256_8();
    assert(pow256(9) == 0x100_0000_0000_0000_0000);
    assert(pow256(10) == 0x1_0000_0000_0000_0000_0000);
    assert(pow256(11) == 0x100_0000_0000_0000_0000_0000);
    assert(pow256(12) == 0x1_0000_0000_0000_0000_0000_0000);
    assert(pow256(13) == 0x100_0000_0000_0000_0000_0000_0000);
    assert(pow256(14) == 0x1_0000_0000_0000_0000_0000_0000_0000);
    assert(pow256(15) == 0x100_0000_0000_0000_0000_0000_0000_0000);
    assert(pow256(16) == 0x1_0000_0000_0000_0000_0000_0000_0000_0000);
    assert(pow256(17) == 0x100_0000_0000_0000_0000_0000_0000_0000_0000);
    assert(pow256(18) == 0x1_0000_0000_0000_0000_0000_0000_0000_0000_0000);
    assert(pow256(19) == 0x100_0000_0000_0000_0000_0000_0000_0000_0000_0000);
}

/// The nonce key of a validator: its address in the low 160 bits, and zero
/// in the 32 bits above them.
pub fn address_to_key(address: &Address) -> (key: NonceKey)
    ensures
        key@ == zeros(4) + address@,
        key.value() == address.value(),
        key.value() < 0x1_0000_0000_0000_0000_0000_0000_0000_0000_0000_0000,
{
    let mut bytes: [u8; 24] = [0u8; 24];
    let mut i: usize = 0;
    while i < 20
        invariant
            i <= 20,
            forall|j: int| 0 <= j < 4 ==> bytes@[j] == 0u8,
            forall|j: int| 0 <= j < i ==> bytes@[4 + j] == address.bytes@[j],
        decreases 20 - i,
    {
        bytes[4 + i] = address.bytes[i];
        i = i + 1;
    }
    assert(bytes@.subrange(0, 4) =~= zeros(4));
    let key = NonceKey { bytes };
    proof {
        assert(key@ =~= zeros(4) + address@);
        lemma_be_value_leading_zeros(4, address@);
        lemma_be_value_bound(address@);
        lemma_pow256_20();
    }
    key
}

/// The nonce key of the first validator of a list, which is the one that
/// checks the operation. An empty list has none.
pub fn first_validator_key(validators: &Vec<Address>) -> (result: Result<NonceKey, AppError>)
    ensures
        validators@.len() == 0 ==> result == Err::<NonceKey, AppError>(AppError::ValidatorNotFound),
        validators@.len() > 0 ==> {
            &&& result is Ok
            &&& result->Ok_0@ == zeros(4) + validators@[0]@
            &&& result->Ok_0.value() == validators@[0].value()
        },
{
    if validators.len() == 0 {
        Err(AppError::ValidatorNotFound)
    } else {
        Ok(address_to_key(&validators[0]))
    }
}

/// The read-only call that asks the entry point for the nonce of `sender`
/// under `key`.
pub fn get_nonce(entry_point: Address, sender: &Address, key: &NonceKey) -> (call: OracleCall)
    ensures
        call.to@ == entry_point@,
        call.data@ == GET_NONCE_SELECTOR@ + abi_address_uint192_params(sender@, key@),
{
    let params = encode_address_uint192_params(sender, &key.to_be_bytes());
    OracleCall { to: entry_point, data: with_selector(&GET_NONCE_SELECTOR, &params) }
}

/// The sequence number in a nonce that the entry point gave: its lower 64
/// bits.
pub fn nonce_sequence(nonce: &U256) -> (sequence: u64)
    ensures
        be_bytes(sequence as nat, 8) == nonce@.subrange(24, 32),
        sequence == be_value(nonce@.subrange(24, 32)),
{
    let mut low: [u8; 8] = [0u8; 8];
    let mut i: usize = 0;
    while i < 8
        invariant
            i <= 8,
            forall|j: int| 0 <= j < i ==> low@[j] == nonce.bytes@[24 + j],
        decreases 8 - i,
    {
        low[i] = nonce.bytes[24 + i];
        i = i + 1;
    }
    assert(low@ =~= nonce@.subrange(24, 32));
    u64_from_be_bytes(&low)
}

/// The nonce of an operation: the key in the upper 192 bits, the sequence
/// number that the entry point gave for it in the lower 64.
pub fn compose_nonce(key: &NonceKey, sequence: u64) -> (nonce: U256)
    ensures
        nonce@ == key@ + be_bytes(sequence as nat, 8),
        nonce.value() == key.value() * 0x1_0000_0000_0000_0000 + sequence,
{
    let low = u64_to_be_bytes(sequence);
    let high = key.to_be_bytes();
    let mut bytes: [u8; 32] = [0u8; 32];
    let mut i: usize = 0;
    while i < 24
        invariant
            i <= 24,
            forall|j: int| 0 <= j < i ==> bytes@[j] == high@[j],
        decreases 24 - i,
    {
        bytes[i] = high[i];
        i = i + 1;
    }
    let mut k: usize = 0;
    while k < 8
        invariant
            k <= 8,
            forall|j: int| 0 <= j < 24 ==> bytes@[j] == high@[j],
            forall|j: int| 0 <= j < k ==> bytes@[24 + j] == low@[j],
        decreases 8 - k,
    {
        bytes[24 + k] = low[k];
        k = k + 1;
    }
    let nonce = U256 { bytes };
    proof {
        assert(nonce@ =~= key@ + be_bytes(sequence as nat, 8));
        lemma_be_value_concat(key@, be_bytes(sequence as nat, 8));
        lemma_pow256_8();
        lemma_be_value_of_be_bytes(sequence as nat, 8);
    }
    nonce
}

} // verus!
