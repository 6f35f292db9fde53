//! The user operation record and its assembly.
//!
//! An operation is assembled unsigned: its signature is empty until the
//! signer fills it in. Gas fields take fixed defaults where the caller gives
//! none.

use vstd::prelude::*;
use crate::error::AppError;
use crate::execution::{encode_executions, execute_call_data, execution_views, Execution};
use crate::primitives::{Address, U256};
use crate::safe::DeploymentPlan;
use crate::words::{uint_word, zeros};

verus! {

/// The entry point contract that the operations are meant for.
pub const ENTRYPOINT: [u8; 20] = [
    0x00, 0x00, 0x00, 0x00, 0x71, 0x72, 0x7d, 0xe2, 0x2e, 0x5e,
    0x9d, 0x8b, 0xaf, 0x0e, 0xda, 0xc6, 0xf3, 0x7d, 0xa0, 0x32,
];

/// Default of `call_gas_limit`, `verification_gas_limit` and
/// `pre_verification_gas`.
pub const DEFAULT_GAS_LIMIT: u64 = 10_000_000;

/// Default of `max_fee_per_gas` and `max_priority_fee_per_gas`.
pub const DEFAULT_GAS_FEE: u64 = 10_000;

/// Default of `paymaster_verification_gas_limit`.
pub const DEFAULT_PAYMASTER_VERIFICATION_GAS_LIMIT: u64 = 100_000;

/// Default of `paymaster_post_op_gas_limit`.
pub const DEFAULT_PAYMASTER_POST_OP_GAS_LIMIT: u64 = 1_000_000;

/// A user operation as the entry point and the bundler expect it.
#[derive(Clone, Debug)]
pub struct PackedUserOperation {
    pub sender: Address,
    pub nonce: U256,
    pub factory: Option<Address>,
    pub factory_data: Option<Vec<u8>>,
    pub call_data: Vec<u8>,
    pub call_gas_limit: U256,
    pub verification_gas_limit: U256,
    pub pre_verification_gas: U256,
    pub max_fee_per_gas: U256,
    pub max_priority_fee_per_gas: U256,
    pub paymaster: Option<Address>,
    pub paymaster_verification_gas_limit: Option<U256>,
    pub paymaster_post_op_gas_limit: Option<U256>,
    pub paymaster_data: Option<Vec<u8>>,
    pub signature: Vec<u8>,
}

/// What a [`PackedUserOperation`] holds, as byte strings.
#[verifier::ext_equal]
pub struct PackedUserOperationView {
    pub sender: Seq<u8>,
    pub nonce: Seq<u8>,
    pub factory: Option<Seq<u8>>,
    pub factory_data: Option<Seq<u8>>,
    pub call_data: Seq<u8>,
    pub call_gas_limit: Seq<u8>,
    pub verification_gas_limit: Seq<u8>,
    pub pre_verification_gas: Seq<u8>,
    pub max_fee_per_gas: Seq<u8>,
    pub max_priority_fee_per_gas: Seq<u8>,
    pub paymaster: Option<Seq<u8>>,
    pub paymaster_verification_gas_limit: Option<Seq<u8>>,
    pub paymaster_post_op_gas_limit: Option<Seq<u8>>,
    pub paymaster_data: Option<Seq<u8>>,
    pub signature: Seq<u8>,
}

pub open spec fn optional_address(address: Option<Address>) -> Option<Seq<u8>> {
    match address {
        Some(a) => Some(a@),
        None => None,
    }
}

pub open spec fn optional_number(number: Option<U256>) -> Option<Seq<u8>> {
    match number {
        Some(n) => Some(n@),
        None => None,
    }
}

pub open spec fn optional_bytes(bytes: Option<Vec<u8>>) -> Option<Seq<u8>> {
    match bytes {
        Some(b) => Some(b@),
        None => None,
    }
}

impl View for PackedUserOperation {
    type V = PackedUserOperationView;

    open spec fn view(&self) -> PackedUserOperationView {
        PackedUserOperationView {
            sender: self.sender@,
            nonce: self.nonce@,
            factory: optional_address(self.factory),
            factory_data: optional_bytes(self.factory_data),
            call_data: self.call_data@,
            call_gas_limit: self.call_gas_limit@,
            verification_gas_limit: self.verification_gas_limit@,
            pre_verification_gas: self.pre_verification_gas@,
            max_fee_per_gas: self.max_fee_per_gas@,
            max_priority_fee_per_gas: self.max_priority_fee_per_gas@,
            paymaster: optional_address(self.paymaster),
            paymaster_verification_gas_limit: optional_number(self.paymaster_verification_gas_limit),
            paymaster_post_op_gas_limit: optional_number(self.paymaster_post_op_gas_limit),
            paymaster_data: optional_bytes(self.paymaster_data),
            signature: self.signature@,
        }
    }
}

/// The operation that nothing has been said about yet: zero sender and
/// nonce, no factory, no call data, the default gas fields, no paymaster,
/// and no signature.
pub open spec fn default_operation() -> PackedUserOperationView {
    PackedUserOperationView {
        sender: zeros(20),
        nonce: zeros(32),
        factory: None,
        factory_data: None,
        call_data: Seq::empty(),
        call_gas_limit: uint_word(DEFAULT_GAS_LIMIT as nat),
        verification_gas_limit: uint_word(DEFAULT_GAS_LIMIT as nat),
        pre_verification_gas: uint_word(DEFAULT_GAS_LIMIT as nat),
        max_fee_per_gas: uint_word(DEFAULT_GAS_FEE as nat),
        max_priority_fee_per_gas: uint_word(DEFAULT_GAS_FEE as nat),
        paymaster: None,
        paymaster_verification_gas_limit: Some(
            uint_word(DEFAULT_PAYMASTER_VERIFICATION_GAS_LIMIT as nat),
        ),
        paymaster_post_op_gas_limit: Some(uint_word(DEFAULT_PAYMASTER_POST_OP_GAS_LIMIT as nat)),
        paymaster_data: None,
        signature: Seq::empty(),
    }
}

/// Builds a user operation field by field. Each step gives a new record with
/// one field replaced.
pub trait PackedUserOperationBuilder: View<V = PackedUserOperationView> + Sized {
    fn default() -> (operation: Self)
        ensures
            operation@ == default_operation(),
    ;

    fn with_sender(self, sender: Address) -> (operation: Self)
        ensures
            operation@ == (PackedUserOperationView { sender: sender@, ..self@ }),
    ;

    fn with_nonce(self, nonce: U256) -> (operation: Self)
        ensures
            operation@ == (PackedUserOperationView { nonce: nonce@, ..self@ }),
    ;

    fn with_call_data(self, call_data: Vec<u8>) -> (operation: Self)
        ensures
            operation@ == (PackedUserOperationView { call_data: call_data@, ..self@ }),
    ;

    fn set_signature(self, signature: Vec<u8>) -> (operation: Self)
        ensures
            operation@ == (PackedUserOperationView { signature: signature@, ..self@ }),
    ;
}

impl PackedUserOperationBuilder for PackedUserOperation {
    fn default() -> (operation: Self) {
        let operation = PackedUserOperation {
            sender: Address::zero(),
            nonce: U256::zero(),
            factory: None,
            factory_data: None,
            call_data: Vec::new(),
            call_gas_limit: U256::from_u64(DEFAULT_GAS_LIMIT),
            verification_gas_limit: U256::from_u64(DEFAULT_GAS_LIMIT),
            pre_verification_gas: U256::from_u64(DEFAULT_GAS_LIMIT),
            max_fee_per_gas: U256::from_u64(DEFAULT_GAS_FEE),
            max_priority_fee_per_gas: U256::from_u64(DEFAULT_GAS_FEE),
            paymaster: None,
            paymaster_verification_gas_limit: Some(
                U256::from_u64(DEFAULT_PAYMASTER_VERIFICATION_GAS_LIMIT),
            ),
            paymaster_post_op_gas_limit: Some(U256::from_u64(DEFAULT_PAYMASTER_POST_OP_GAS_LIMIT)),
            paymaster_data: None,
            signature: Vec::new(),
        };
        assert(operation@ =~= default_operation());
        operation
    }

    fn with_sender(self, sender: Address) -> (operation: Self) {
        let mut operation = self;
        operation.sender = sender;
        operation
    }

    fn with_nonce(self, nonce: U256) -> (operation: Self) {
        let mut operation = self;
        operation.nonce = nonce;
        operation
    }

    fn with_call_data(self, call_data: Vec<u8>) -> (operation: Self) {
        let mut operation = self;
        operation.call_data = call_data;
        operation
    }

    fn set_signature(self, signature: Vec<u8>) -> (operation: Self) {
        let mut operation = self;
        operation.signature = signature;
        operation
    }
}

/// Gas fields that the caller sets in place of the defaults.
#[derive(Clone, Copy, Debug)]
pub struct GasOverrides {
    pub call_gas_limit: Option<U256>,
    pub verification_gas_limit: Option<U256>,
    pub pre_verification_gas: Option<U256>,
    pub max_fee_per_gas: Option<U256>,
    pub max_priority_fee_per_gas: Option<U256>,
}

/// No override: every gas field takes its default.
pub open spec fn no_gas_overrides() -> GasOverrides {
    GasOverrides {
        call_gas_limit: None,
        verification_gas_limit: None,
        pre_verification_gas: None,
        max_fee_per_gas: None,
        max_priority_fee_per_gas: None,
    }
}

impl GasOverrides {
    /// No override: every gas field takes its default.
    pub fn none() -> (overrides: GasOverrides)
        ensures
            overrides == no_gas_overrides(),
    {
        GasOverrides {
            call_gas_limit: None,
            verification_gas_limit: None,
            pre_verification_gas: None,
            max_fee_per_gas: None,
            max_priority_fee_per_gas: None,
        }
    }
}

/// The value of a gas field: the override where there is one, the default
/// otherwise.
pub open spec fn gas_field(given: Option<U256>, default: u64) -> Seq<u8> {
    match given {
        Some(n) => n@,
        None => uint_word(default as nat),
    }
}

/// The operation that [`assemble`] makes where the sender and the plan
/// agree.
pub open spec fn assembled(
    sender: Address,
    nonce: U256,
    call_data: Seq<u8>,
    plan: Option<DeploymentPlan>,
    overrides: GasOverrides,
) -> PackedUserOperationView {
    PackedUserOperationView {
        sender: sender@,
        nonce: nonce@,
        factory: match plan {
            Some(p) => Some(p.factory_address@),
            None => None,
        },
        factory_data: match plan {
            Some(p) => Some(p.factory_call_data@),
            None => None,
        },
        call_data: call_data,
        call_gas_limit: gas_field(overrides.call_gas_limit, DEFAULT_GAS_LIMIT),
        verification_gas_limit: gas_field(overrides.verification_gas_limit, DEFAULT_GAS_LIMIT),
        pre_verification_gas: gas_field(overrides.pre_verification_gas, DEFAULT_GAS_LIMIT),
        max_fee_per_gas: gas_field(overrides.max_fee_per_gas, DEFAULT_GAS_FEE),
        max_priority_fee_per_gas: gas_field(overrides.max_priority_fee_per_gas, DEFAULT_GAS_FEE),
        ..default_operation()
    }
}

/// Whether a plan is for another account than `sender`.
pub open spec fn plan_contradicts(sender: Address, plan: Option<DeploymentPlan>) -> bool {
    match plan {
        Some(p) => p.predicted_address@ != sender@,
        None => false,
    }
}

fn gas_or_default(given: Option<U256>, default: u64) -> (value: U256)
    ensures
        value@ == gas_field(given, default),
{
    match given {
        Some(n) => n,
        None => U256::from_u64(default),
    }
}

/// Assembles an unsigned operation. With a plan, the operation deploys the
/// account: the factory and its data come from the plan, and the sender has
/// to be the address that the plan predicts; any other sender is refused
/// with `AddressMismatch`.
pub fn assemble(
    sender: Address,
    nonce: U256,
    call_data: Vec<u8>,
    plan: Option<DeploymentPlan>,
    overrides: GasOverrides,
) -> (result: Result<PackedUserOperation, AppError>)
    ensures
        plan_contradicts(sender, plan) ==> result == Err::<PackedUserOperation, AppError>(
            AppError::AddressMismatch,
        ),
        !plan_contradicts(sender, plan) ==> result is Ok && result->Ok_0@ == assembled(
            sender,
            nonce,
            call_data@,
            plan,
            overrides,
        ),
{
    let ghost given_plan = plan;
    let (factory, factory_data) = match plan {
        Some(p) => {
            if !p.predicted_address.same_as(&sender) {
                return Err(AppError::AddressMismatch);
            }
            (Some(p.factory_address), Some(p.factory_call_data))
        },
        None => (None, None),
    };
    let base = PackedUserOperation::default();
    let operation = PackedUserOperation {
        sender,
        nonce,
        factory,
        factory_data,
        call_data,
        call_gas_limit: gas_or_default(overrides.call_gas_limit, DEFAULT_GAS_LIMIT),
        verification_gas_limit: gas_or_default(overrides.verification_gas_limit, DEFAULT_GAS_LIMIT),
        pre_verification_gas: gas_or_default(overrides.pre_verification_gas, DEFAULT_GAS_LIMIT),
        max_fee_per_gas: gas_or_default(overrides.max_fee_per_gas, DEFAULT_GAS_FEE),
        max_priority_fee_per_gas: gas_or_default(overrides.max_priority_fee_per_gas, DEFAULT_GAS_FEE),
        paymaster: base.paymaster,
        paymaster_verification_gas_limit: base.paymaster_verification_gas_limit,
        paymaster_post_op_gas_limit: base.paymaster_post_op_gas_limit,
        paymaster_data: base.paymaster_data,
        signature: base.signature,
    };
    assert(operation@ =~= assembled(sender, nonce, call_data@, given_plan, overrides));
    Ok(operation)
}

/// The operation that makes the given executions on an account that exists:
/// default gas fields, no factory. An empty list is refused.
pub fn prepare_user_operation(sender: Address, nonce: U256, executions: &Vec<Execution>) -> (result:
    Result<PackedUserOperation, AppError>)
    ensures
        executions@.len() == 0 ==> result == Err::<PackedUserOperation, AppError>(
            AppError::EmptyBatch,
        ),
        executions@.len() > 0 ==> result is Ok && result->Ok_0@ == assembled(
            sender,
            nonce,
            execute_call_data(execution_views(executions@)),
            None,
            no_gas_overrides(),
        ),
{
    match encode_executions(executions) {
        Ok(call_data) => assemble(sender, nonce, call_data, None, GasOverrides::none()),
        Err(error) => Err(error),
    }
}

/// The operation that deploys the planned account and does nothing else:
/// the predicted address as sender, the factory fields from the plan, no
/// call data, default gas fields.
pub fn build_user_operations(plan: DeploymentPlan, nonce: U256) -> (operation: PackedUserOperation)
    ensures
        operation@ == assembled(
            plan.predicted_address,
            nonce,
            Seq::empty(),
            Some(plan),
            no_gas_overrides(),
        ),
{
    let sender = plan.predicted_address;
    match assemble(sender, nonce, Vec::new(), Some(plan), GasOverrides::none()) {
        Ok(operation) => operation,
        Err(_) => PackedUserOperation::default(),
    }
}

} // verus!
