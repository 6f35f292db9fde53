//! The contract ABI encodings that the encoders are built from.
//!
//! The encodings themselves are computed by `alloy`'s `SolType`
//! implementations. Each function below makes one such call on one Solidity
//! type, and its contract records the byte layout that the ABI prescribes for
//! that type. Nothing in this file is proved: the layouts are what the rest
//! of the crate is proved against.

use vstd::prelude::*;
use alloy::sol_types::SolType;
use alloy::sol_types::sol_data::{Address as SolAddress, Array, Bytes, FixedBytes, Uint};
use crate::primitives::{Address, U256, address_word};
use crate::safe::{ModuleInit, ModuleInitView, module_init_views, address_views};
use crate::words::{uint_word, zeros, padding_len};

verus! {

/// A dynamic `bytes` value where it lies in the tail of an encoding: its
/// length as a word, the bytes, and zero bytes up to the next word boundary.
pub open spec fn bytes_tail(b: Seq<u8>) -> Seq<u8> {
    uint_word(b.len()) + b + zeros(padding_len(b.len()))
}

/// Packed encoding of `(address, uint256, bytes)`: the three fields one after
/// another, with no padding and no length.
pub open spec fn packed_execution(target: Seq<u8>, value: Seq<u8>, call_data: Seq<u8>) -> Seq<u8> {
    target + value + call_data
}

/// Standard encoding of one `(address, uint256, bytes)` value on its own: the
/// offset of the tuple, its three head words, and the tail of the bytes.
pub open spec fn abi_execution(target: Seq<u8>, value: Seq<u8>, call_data: Seq<u8>) -> Seq<u8> {
    uint_word(32) + address_word(target) + value + uint_word(96) + bytes_tail(call_data)
}

/// Standard encoding of the parameters `(bytes32, bytes)`.
pub open spec fn abi_word_bytes_params(word: Seq<u8>, data: Seq<u8>) -> Seq<u8> {
    word + uint_word(64) + bytes_tail(data)
}

/// Standard encoding of the parameters `(address, uint192)`: the address
/// word, then the 24 bytes of the number after eight zero bytes.
pub open spec fn abi_address_uint192_params(address: Seq<u8>, number: Seq<u8>) -> Seq<u8> {
    address_word(address) + zeros(8) + number
}

/// Standard encoding of the parameters `(bytes32, address, bytes)`.
pub open spec fn abi_word_address_bytes_params(word: Seq<u8>, address: Seq<u8>, data: Seq<u8>) -> Seq<
    u8,
> {
    word + address_word(address) + uint_word(96) + bytes_tail(data)
}

/// Standard encoding of the parameters `(address, bytes, uint256)`.
pub open spec fn abi_address_bytes_uint_params(address: Seq<u8>, data: Seq<u8>, number: Seq<u8>) -> Seq<
    u8,
> {
    address_word(address) + uint_word(96) + number + bytes_tail(data)
}

/// Standard encoding of the parameters `(address, address, bytes, bytes32,
/// bytes)`: five head words, then the tails of the two byte strings in
/// order.
pub open spec fn abi_predict_params(
    singleton: Seq<u8>,
    factory: Seq<u8>,
    creation_code: Seq<u8>,
    salt: Seq<u8>,
    initializer: Seq<u8>,
) -> Seq<u8> {
    address_word(singleton) + address_word(factory) + uint_word(160) + salt + uint_word(
        160 + bytes_tail(creation_code).len(),
    ) + bytes_tail(creation_code) + bytes_tail(initializer)
}

/// Standard encoding of one `(address, bytes)` value on its own: the offset
/// of the tuple, its two head words, and the tail of the bytes.
pub open spec fn abi_address_bytes(address: Seq<u8>, data: Seq<u8>) -> Seq<u8> {
    uint_word(32) + address_word(address) + uint_word(64) + bytes_tail(data)
}

/// The standard encoding of the parameters `(address, (address,bytes)[],
/// (address,bytes)[], (address,bytes)[], address[], uint8)`, as alloy
/// computes it.
pub uninterp spec fn init_safe7579_params_encoding(
    safe7579: Seq<u8>,
    executors: Seq<ModuleInitView>,
    fallbacks: Seq<ModuleInitView>,
    hooks: Seq<ModuleInitView>,
    attesters: Seq<Seq<u8>>,
    threshold: u8,
) -> Seq<u8>;

/// The standard encoding of the single parameter `(address, address[],
/// uint256, address, bytes, address, (address,bytes)[], bytes)`, as alloy
/// computes it.
pub uninterp spec fn init_data_param_encoding(
    singleton: Seq<u8>,
    owners: Seq<Seq<u8>>,
    threshold: Seq<u8>,
    setup_to: Seq<u8>,
    setup_data: Seq<u8>,
    safe7579: Seq<u8>,
    validators: Seq<ModuleInitView>,
    call_data: Seq<u8>,
) -> Seq<u8>;

/// `SolType::abi_encode_packed` on `(address, uint256, bytes)`. alloy appends
/// the 20 bytes of the address, the 32 big-endian bytes of the number and
/// the bytes as they are.
#[verifier::external_body]
pub(crate) fn encode_packed_execution(target: &Address, value: &U256, call_data: &Vec<u8>) -> (out: Vec<u8>)
    ensures
        out@ == packed_execution(target@, value@, call_data@),
{
    let number = alloy::primitives::U256::from_be_bytes(value.bytes);
    <(SolAddress, Uint<256>, Bytes) as SolType>::abi_encode_packed(
        &(target.bytes, number, call_data),
    )
}

/// `SolType::abi_encode` on `(address, uint256, bytes)`. alloy encodes the
/// tuple as a single dynamic value: an offset word of 32, then the head
/// (address word, number, offset 96 of the bytes) and the tail.
#[verifier::external_body]
pub(crate) fn encode_execution(target: &Address, value: &U256, call_data: &Vec<u8>) -> (out: Vec<u8>)
    ensures
        out@ == abi_execution(target@, value@, call_data@),
{
    let number = alloy::primitives::U256::from_be_bytes(value.bytes);
    <(SolAddress, Uint<256>, Bytes) as SolType>::abi_encode(
        &(target.bytes, number, call_data),
    )
}

/// `SolType::abi_encode_params` on `(bytes32, bytes)`. alloy writes the word,
/// the offset 64 of the bytes, and their tail.
#[verifier::external_body]
pub(crate) fn encode_word_bytes_params(word: &[u8; 32], data: &Vec<u8>) -> (out: Vec<u8>)
    ensures
        out@ == abi_word_bytes_params(word@, data@),
{
    <(FixedBytes<32>, Bytes) as SolType>::abi_encode_params(&(word, data))
}

/// `SolType::abi_encode_params` on `(address, uint192)`. alloy writes the
/// address word and the number as a word.
#[verifier::external_body]
pub(crate) fn encode_address_uint192_params(address: &Address, number: &[u8; 24]) -> (out: Vec<u8>)
    ensures
        out@ == abi_address_uint192_params(address@, number@),
{
    let number = alloy::primitives::aliases::U192::from_be_bytes(*number);
    <(SolAddress, Uint<192>) as SolType>::abi_encode_params(&(address.bytes, number))
}

/// `SolType::abi_encode_params` on `(bytes32, address, bytes)`. alloy writes
/// the word, the address word, the offset 96 of the bytes, and their tail.
#[verifier::external_body]
pub(crate) fn encode_word_address_bytes_params(word: &[u8; 32], address: &Address, data: &Vec<u8>) -> (out:
    Vec<u8>)
    ensures
        out@ == abi_word_address_bytes_params(word@, address@, data@),
{
    <(FixedBytes<32>, SolAddress, Bytes) as SolType>::abi_encode_params(
        &(word, address.bytes, data),
    )
}

/// `SolType::abi_encode_params` on `(address, bytes, uint256)`. alloy writes
/// the address word, the offset 96 of the bytes, the number, and the tail of
/// the bytes.
#[verifier::external_body]
pub(crate) fn encode_address_bytes_uint_params(address: &Address, data: &Vec<u8>, number: &U256) -> (out:
    Vec<u8>)
    ensures
        out@ == abi_address_bytes_uint_params(address@, data@, number@),
{
    let number = alloy::primitives::U256::from_be_bytes(number.bytes);
    <(SolAddress, Bytes, Uint<256>) as SolType>::abi_encode_params(
        &(address.bytes, data, number),
    )
}

/// `SolType::abi_encode_params` on `(address, address, bytes, bytes32,
/// bytes)`. alloy writes the five head words, where each byte string is
/// stood for by the offset of its tail, and then the two tails in order.
#[verifier::external_body]
pub(crate) fn encode_predict_params(
    singleton: &Address,
    factory: &Address,
    creation_code: &Vec<u8>,
    salt: &[u8; 32],
    initializer: &Vec<u8>,
) -> (out: Vec<u8>)
    ensures
        out@ == abi_predict_params(singleton@, factory@, creation_code@, salt@, initializer@),
{
    <(
        SolAddress,
        SolAddress,
        Bytes,
        FixedBytes<32>,
        Bytes,
    ) as SolType>::abi_encode_params(
        &(singleton.bytes, factory.bytes, creation_code, salt, initializer),
    )
}

/// `SolType::abi_encode` on `(address, bytes)`. alloy encodes the tuple as a
/// single dynamic value: an offset word of 32, then the address word, the
/// offset 64 of the bytes, and their tail.
#[verifier::external_body]
pub(crate) fn encode_address_bytes(address: &Address, data: &Vec<u8>) -> (out: Vec<u8>)
    ensures
        out@ == abi_address_bytes(address@, data@),
{
    <(SolAddress, Bytes) as SolType>::abi_encode(&(address.bytes, data))
}

/// `SolType::abi_encode_params` on `(address, (address,bytes)[],
/// (address,bytes)[], (address,bytes)[], address[], uint8)`. The result is a
/// function of the values alone; its layout is not stated here.
#[verifier::external_body]
pub(crate) fn encode_init_safe7579_params(
    safe7579: &Address,
    executors: &Vec<ModuleInit>,
    fallbacks: &Vec<ModuleInit>,
    hooks: &Vec<ModuleInit>,
    attesters: &Vec<Address>,
    threshold: u8,
) -> (out: Vec<u8>)
    ensures
        out@ == init_safe7579_params_encoding(
            safe7579@,
            module_init_views(executors@),
            module_init_views(fallbacks@),
            module_init_views(hooks@),
            address_views(attesters@),
            threshold,
        ),
{
    let pair = |m: &ModuleInit| (m.module.bytes, m.init_data.clone());
    let e: Vec<_> = executors.iter().map(pair).collect();
    let f: Vec<_> = fallbacks.iter().map(pair).collect();
    let h: Vec<_> = hooks.iter().map(pair).collect();
    let a: Vec<_> = attesters.iter().map(|x| x.bytes).collect();
    <(
        SolAddress,
        Array<(SolAddress, Bytes)>,
        Array<(SolAddress, Bytes)>,
        Array<(SolAddress, Bytes)>,
        Array<SolAddress>,
        Uint<8>,
    ) as SolType>::abi_encode_params(&(safe7579.bytes, e, f, h, a, threshold))
}

/// `SolType::abi_encode_params` on the one parameter `(address, address[],
/// uint256, address, bytes, address, (address,bytes)[], bytes)`. The result
/// is a function of the values alone; its layout is not stated here.
#[verifier::external_body]
pub(crate) fn encode_init_data_param(
    singleton: &Address,
    owners: &Vec<Address>,
    threshold: &U256,
    setup_to: &Address,
    setup_data: &Vec<u8>,
    safe7579: &Address,
    validators: &Vec<ModuleInit>,
    call_data: &Vec<u8>,
) -> (out: Vec<u8>)
    ensures
        out@ == init_data_param_encoding(
            singleton@,
            address_views(owners@),
            threshold@,
            setup_to@,
            setup_data@,
            safe7579@,
            module_init_views(validators@),
            call_data@,
        ),
{
    let o: Vec<_> = owners.iter().map(|x| x.bytes).collect();
    let v: Vec<_> = validators.iter().map(|m| (m.module.bytes, m.init_data.clone())).collect();
    let t = alloy::primitives::U256::from_be_bytes(threshold.bytes);
    <((
        SolAddress,
        Array<SolAddress>,
        Uint<256>,
        SolAddress,
        Bytes,
        SolAddress,
        Array<(SolAddress, Bytes)>,
        Bytes,
    ),) as SolType>::abi_encode_params(
        &((singleton.bytes, o, t, setup_to.bytes, setup_data, safe7579.bytes, v, call_data),),
    )
}

} // verus!
