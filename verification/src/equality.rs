//! `==` on the values of this crate: two values are equal when they hold
//! the same bytes, field by field.

use vstd::prelude::*;
use vstd::std_specs::cmp::PartialEqSpecImpl;
use crate::execution::Execution;
use crate::nonce::NonceKey;
use crate::primitives::{bytes_equal, Address, U256};
use crate::user_operation::{optional_address, optional_bytes, optional_number, PackedUserOperation};

verus! {

fn optional_addresses_equal(a: &Option<Address>, b: &Option<Address>) -> (same: bool)
    ensures
        same == (optional_address(*a) == optional_address(*b)),
{
    match (a, b) {
        (Some(x), Some(y)) => x.same_as(y),
        (None, None) => true,
        _ => false,
    }
}

fn optional_numbers_equal(a: &Option<U256>, b: &Option<U256>) -> (same: bool)
    ensures
        same == (optional_number(*a) == optional_number(*b)),
{
    match (a, b) {
        (Some(x), Some(y)) => x.same_as(y),
        (None, None) => true,
        _ => false,
    }
}

fn optional_bytes_equal(a: &Option<Vec<u8>>, b: &Option<Vec<u8>>) -> (same: bool)
    ensures
        same == (optional_bytes(*a) == optional_bytes(*b)),
{
    match (a, b) {
        (Some(x), Some(y)) => bytes_equal(x.as_slice(), y.as_slice()),
        (None, None) => true,
        _ => false,
    }
}

impl PartialEq for Address {
    fn eq(&self, other: &Address) -> (same: bool) {
        self.same_as(other)
    }
}

impl PartialEqSpecImpl for Address {
    open spec fn obeys_eq_spec() -> bool {
        true
    }

    open spec fn eq_spec(&self, other: &Address) -> bool {
        self@ == other@
    }
}

impl Eq for Address {}

impl PartialEq for U256 {
    fn eq(&self, other: &U256) -> (same: bool) {
        self.same_as(other)
    }
}

impl PartialEqSpecImpl for U256 {
    open spec fn obeys_eq_spec() -> bool {
        true
    }

    open spec fn eq_spec(&self, other: &U256) -> bool {
        self@ == other@
    }
}

impl Eq for U256 {}

impl PartialEq for NonceKey {
    fn eq(&self, other: &NonceKey) -> (same: bool) {
        bytes_equal(self.to_be_bytes().as_slice(), other.to_be_bytes().as_slice())
    }
}

impl PartialEqSpecImpl for NonceKey {
    open spec fn obeys_eq_spec() -> bool {
        true
    }

    open spec fn eq_spec(&self, other: &NonceKey) -> bool {
        self@ == other@
    }
}

impl Eq for NonceKey {}

impl PartialEq for Execution {
    fn eq(&self, other: &Execution) -> (same: bool) {
        self.target.same_as(&other.target) && self.value.same_as(&other.value) && bytes_equal(
            self.call_data.as_slice(),
            other.call_data.as_slice(),
        )
    }
}

impl PartialEqSpecImpl for Execution {
    open spec fn obeys_eq_spec() -> bool {
        true
    }

    open spec fn eq_spec(&self, other: &Execution) -> bool {
        self@ == other@
    }
}

impl Eq for Execution {}

impl PartialEq for PackedUserOperation {
    fn eq(&self, other: &PackedUserOperation) -> (same: bool) {
        self.sender.same_as(&other.sender) && self.nonce.same_as(&other.nonce)
            && optional_addresses_equal(&self.factory, &other.factory) && optional_bytes_equal(
            &self.factory_data,
            &other.factory_data,
        ) && bytes_equal(self.call_data.as_slice(), other.call_data.as_slice())
            && self.call_gas_limit.same_as(&other.call_gas_limit)
            && self.verification_gas_limit.same_as(&other.verification_gas_limit)
            && self.pre_verification_gas.same_as(&other.pre_verification_gas)
            && self.max_fee_per_gas.same_as(&other.max_fee_per_gas)
            && self.max_priority_fee_per_gas.same_as(&other.max_priority_fee_per_gas)
            && optional_addresses_equal(&self.paymaster, &other.paymaster)
            && optional_numbers_equal(
            &self.paymaster_verification_gas_limit,
            &other.paymaster_verification_gas_limit,
        ) && optional_numbers_equal(
            &self.paymaster_post_op_gas_limit,
            &other.paymaster_post_op_gas_limit,
        ) && optional_bytes_equal(&self.paymaster_data, &other.paymaster_data) && bytes_equal(
            self.signature.as_slice(),
            other.signature.as_slice(),
        )
    }
}

impl PartialEqSpecImpl for PackedUserOperation {
    open spec fn obeys_eq_spec() -> bool {
        true
    }

    open spec fn eq_spec(&self, other: &PackedUserOperation) -> bool {
        self@ == other@
    }
}

impl Eq for PackedUserOperation {}

} // verus!
