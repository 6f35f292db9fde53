//! Counterfactual deployment of a Safe-based modular account through the
//! Safe7579 launchpad.
//!
//! Planning a deployment takes two read-only calls to the chain: the
//! launchpad hashes the account's initialisation data, and it predicts the
//! address of the proxy that the factory will create. This module decides
//! what to ask and what to make of each answer; it never talks to the chain
//! itself. [`AccountDeploymentPlanner::start`] and
//! [`AccountDeploymentPlanner::step`] say, for each state and each answer,
//! what comes next.

use vstd::prelude::*;
use crate::abi::{
    abi_address_bytes,
    abi_address_bytes_uint_params,
    abi_predict_params,
    abi_word_address_bytes_params,
    encode_address_bytes,
    encode_address_bytes_uint_params,
    encode_init_data_param,
    encode_init_safe7579_params,
    encode_predict_params,
    encode_word_address_bytes_params,
    init_data_param_encoding,
    init_safe7579_params_encoding,
};
use crate::error::AppError;
use crate::primitives::{Address, U256};
use crate::words::{uint_word, with_selector, zeros};

verus! {

/// The Safe7579 adapter.
pub const SAFE7579_ADDR: [u8; 20] = [
    0x75, 0x79, 0xf9, 0xfe, 0xed, 0xf3, 0x23, 0x31, 0xc6, 0x45,
    0x82, 0x81, 0x39, 0xaf, 0xf7, 0x8d, 0x51, 0x7d, 0x00, 0x01,
];

/// The Safe7579 launchpad, which is both the first singleton of a new proxy
/// and the contract that answers the read-only calls.
pub const SAFE7579LAUNCHPAD_ADDR: [u8; 20] = [
    0x75, 0x79, 0x6e, 0x97, 0x5b, 0xd2, 0x70, 0xd4, 0x87, 0xbe,
    0x50, 0xb4, 0xe9, 0x79, 0x77, 0x80, 0x36, 0x04, 0x00, 0xff,
];

/// The Safe account implementation.
pub const SAFE_IMPL_ADDR: [u8; 20] = [
    0x29, 0xfc, 0xb4, 0x3b, 0x46, 0x53, 0x1b, 0xca, 0x00, 0x3d,
    0xdc, 0x8f, 0xcb, 0x67, 0xff, 0xe9, 0x19, 0x00, 0xc7, 0x62,
];

/// The Safe proxy factory.
pub const SAFE_PROXY_FACTORY: [u8; 20] = [
    0x4e, 0x1d, 0xcf, 0x7a, 0xd4, 0xe4, 0x60, 0xcf, 0xd3, 0x07,
    0x91, 0xcc, 0xc4, 0xf9, 0xc8, 0xa4, 0xf8, 0x20, 0xec, 0x67,
];

/// Selector of `initSafe7579(address,(address,bytes)[],(address,bytes)[],(address,bytes)[],address[],uint8)`.
pub const INIT_SAFE7579_SELECTOR: [u8; 4] = [0x15, 0xcc, 0xa6, 0x38];

/// Selector of `hash((address,address[],uint256,address,bytes,address,(address,bytes)[],bytes))`.
pub const HASH_SELECTOR: [u8; 4] = [0x92, 0x81, 0x07, 0xf9];

/// Selector of `preValidationSetup(bytes32,address,bytes)`.
pub const PRE_VALIDATION_SETUP_SELECTOR: [u8; 4] = [0x4f, 0xff, 0x40, 0xe1];

/// Selector of `predictSafeAddress(address,address,bytes,bytes32,bytes)`.
pub const PREDICT_SAFE_ADDRESS_SELECTOR: [u8; 4] = [0x66, 0x3c, 0x87, 0xd8];

/// Selector of `createProxyWithNonce(address,bytes,uint256)`.
pub const CREATE_PROXY_WITH_NONCE_SELECTOR: [u8; 4] = [0x16, 0x88, 0xf0, 0xb9];

/// How many owners must confirm a transaction of the new account.
pub const OWNER_THRESHOLD: u8 = 1;

/// A module and the data that it is initialised with.
#[derive(Clone, Debug)]
pub struct ModuleInit {
    pub module: Address,
    pub init_data: Vec<u8>,
}

/// What a [`ModuleInit`] holds, as byte strings.
#[verifier::ext_equal]
pub struct ModuleInitView {
    pub module: Seq<u8>,
    pub init_data: Seq<u8>,
}

impl View for ModuleInit {
    type V = ModuleInitView;

    open spec fn view(&self) -> ModuleInitView {
        ModuleInitView { module: self.module@, init_data: self.init_data@ }
    }
}

/// The views of a list of module initialisations, in order.
pub open spec fn module_init_views(modules: Seq<ModuleInit>) -> Seq<ModuleInitView> {
    modules.map_values(|m: ModuleInit| m@)
}

/// The views of a list of addresses, in order.
pub open spec fn address_views(addresses: Seq<Address>) -> Seq<Seq<u8>> {
    addresses.map_values(|a: Address| a@)
}

/// The empty module that fills the executor, fallback and hook slots: the
/// zero address with no data.
pub open spec fn empty_module_init() -> ModuleInitView {
    ModuleInitView { module: zeros(20), init_data: Seq::empty() }
}

/// One initialisation with no data for each validator, in order.
pub open spec fn validator_inits(validators: Seq<Seq<u8>>) -> Seq<ModuleInitView> {
    validators.map_values(|v: Seq<u8>| ModuleInitView { module: v, init_data: Seq::empty() })
}

/// What the caller gives to plan one deployment. There is at least one owner
/// and at least one validator.
#[derive(Debug)]
pub struct AccountInitParams {
    salt: [u8; 32],
    owners: Vec<Address>,
    validators: Vec<Address>,
}

/// What an [`AccountInitParams`] holds, as byte strings.
#[verifier::ext_equal]
pub struct AccountInitParamsView {
    pub salt: Seq<u8>,
    pub owners: Seq<Seq<u8>>,
    pub validators: Seq<Seq<u8>>,
}

impl View for AccountInitParams {
    type V = AccountInitParamsView;

    closed spec fn view(&self) -> AccountInitParamsView {
        AccountInitParamsView {
            salt: self.salt@,
            owners: address_views(self.owners@),
            validators: address_views(self.validators@),
        }
    }
}

impl AccountInitParams {
    #[verifier::type_invariant]
    spec fn has_owner_and_validator(&self) -> bool {
        self.owners@.len() > 0 && self.validators@.len() > 0
    }

    /// The parameters of a deployment, or `None` where there is no owner or
    /// no validator.
    pub fn new(salt: [u8; 32], owners: Vec<Address>, validators: Vec<Address>) -> (params: Option<
        AccountInitParams,
    >)
        ensures
            params is Some <==> owners@.len() > 0 && validators@.len() > 0,
            params matches Some(p) ==> p@ == (AccountInitParamsView {
                salt: salt@,
                owners: address_views(owners@),
                validators: address_views(validators@),
            }),
    {
        if owners.len() == 0 || validators.len() == 0 {
            None
        } else {
            Some(AccountInitParams { salt, owners, validators })
        }
    }

    pub fn salt(&self) -> (salt: &[u8; 32])
        ensures
            salt@ == self@.salt,
    {
        &self.salt
    }

    pub fn owners(&self) -> (owners: &Vec<Address>)
        ensures
            owners@.len() > 0,
            address_views(owners@) == self@.owners,
    {
        proof {
            use_type_invariant(self);
        }
        &self.owners
    }

    pub fn validators(&self) -> (validators: &Vec<Address>)
        ensures
            validators@.len() > 0,
            address_views(validators@) == self@.validators,
    {
        proof {
            use_type_invariant(self);
        }
        &self.validators
    }
}

/// A read-only call for the driver to make: the contract and the call data.
#[derive(Clone, Debug)]
pub struct OracleCall {
    pub to: Address,
    pub data: Vec<u8>,
}

/// What the factory is to be called with, and what the launchpad is set up
/// with once the proxy exists.
#[derive(Clone, Debug)]
pub struct Safe7579HelperData {
    pub proxy_call: Vec<u8>,
    pub factory_initializer: Vec<u8>,
}

/// The outcome of planning: where the account will live, and the factory
/// call that creates it there.
#[derive(Clone, Debug)]
pub struct DeploymentPlan {
    pub predicted_address: Address,
    pub factory_address: Address,
    pub factory_call_data: Vec<u8>,
}

/// The account's own `initSafe7579` call: the adapter, one empty module in
/// each of the executor, fallback and hook lists, the owners as attesters,
/// and the threshold.
pub open spec fn safe_setup_call(owners: Seq<Seq<u8>>) -> Seq<u8> {
    INIT_SAFE7579_SELECTOR@ + init_safe7579_params_encoding(
        SAFE7579_ADDR@,
        seq![empty_module_init()],
        seq![empty_module_init()],
        seq![empty_module_init()],
        owners,
        OWNER_THRESHOLD,
    )
}

/// The launchpad's `hash` call on the initialisation data of the account:
/// the Safe implementation as singleton, the owners with threshold one, the
/// launchpad and the setup call to run on it, the adapter, one
/// initialisation without data per validator, and no call data.
pub open spec fn init_hash_call_data(params: AccountInitParamsView) -> Seq<u8> {
    HASH_SELECTOR@ + init_data_param_encoding(
        SAFE_IMPL_ADDR@,
        params.owners,
        uint_word(OWNER_THRESHOLD as nat),
        SAFE7579LAUNCHPAD_ADDR@,
        safe_setup_call(params.owners),
        SAFE7579_ADDR@,
        validator_inits(params.validators),
        Seq::empty(),
    )
}

/// The launchpad's `preValidationSetup` call that the new proxy is
/// initialised with: the hash, no `to` address and no data.
pub open spec fn factory_initializer(init_hash: Seq<u8>) -> Seq<u8> {
    PRE_VALIDATION_SETUP_SELECTOR@ + abi_word_address_bytes_params(
        init_hash,
        zeros(20),
        Seq::empty(),
    )
}

/// The factory's `createProxyWithNonce` call: the launchpad as singleton,
/// the initializer, and the salt as nonce.
pub open spec fn proxy_call(salt: Seq<u8>, init_hash: Seq<u8>) -> Seq<u8> {
    CREATE_PROXY_WITH_NONCE_SELECTOR@ + abi_address_bytes_uint_params(
        SAFE7579LAUNCHPAD_ADDR@,
        factory_initializer(init_hash),
        salt,
    )
}

/// The launchpad's `predictSafeAddress` call for the proxy that the factory
/// will create.
pub open spec fn predict_address_call_data(
    salt: Seq<u8>,
    init_hash: Seq<u8>,
    proxy_creation_code: Seq<u8>,
) -> Seq<u8> {
    PREDICT_SAFE_ADDRESS_SELECTOR@ + abi_predict_params(
        SAFE7579LAUNCHPAD_ADDR@,
        SAFE_PROXY_FACTORY@,
        proxy_creation_code,
        salt,
        factory_initializer(init_hash),
    )
}

/// The factory and its call, encoded as one `(address, bytes)` value.
pub open spec fn factory_call_data(salt: Seq<u8>, init_hash: Seq<u8>) -> Seq<u8> {
    abi_address_bytes(SAFE_PROXY_FACTORY@, proxy_call(salt, init_hash))
}

fn module_inits_for(validators: &Vec<Address>) -> (inits: Vec<ModuleInit>)
    ensures
        module_init_views(inits@) == validator_inits(address_views(validators@)),
{
    let mut inits: Vec<ModuleInit> = Vec::new();
    let mut i: usize = 0;
    while i < validators.len()
        invariant
            i <= validators@.len(),
            inits@.len() == i,
            forall|j: int|
                0 <= j < i ==> (#[trigger] inits@[j])@ == (ModuleInitView {
                    module: validators@[j]@,
                    init_data: Seq::empty(),
                }),
        decreases validators@.len() - i,
    {
        inits.push(ModuleInit { module: validators[i], init_data: Vec::new() });
        i = i + 1;
    }
    assert(module_init_views(inits@) =~= validator_inits(address_views(validators@)));
    inits
}

fn empty_slot() -> (slot: Vec<ModuleInit>)
    ensures
        module_init_views(slot@) == seq![empty_module_init()],
{
    let mut slot: Vec<ModuleInit> = Vec::new();
    slot.push(ModuleInit { module: Address::zero(), init_data: Vec::new() });
    assert(module_init_views(slot@) =~= seq![empty_module_init()]);
    slot
}

/// The steps of a Safe7579 deployment that need no answer from the chain.
pub struct Safe7579HelperImpl;

impl Safe7579HelperImpl {
    /// The launchpad's `hash` call on initialisation data that is encoded
    /// already.
    pub fn hash_call(init_data: &Vec<u8>) -> (call: OracleCall)
        ensures
            call.to@ == SAFE7579LAUNCHPAD_ADDR@,
            call.data@ == HASH_SELECTOR@ + init_data@,
    {
        OracleCall {
            to: Address::new(SAFE7579LAUNCHPAD_ADDR),
            data: with_selector(&HASH_SELECTOR, init_data),
        }
    }

    /// The first question to the chain: the launchpad's hash of the
    /// account's initialisation data.
    pub fn init_hash_request(params: &AccountInitParams) -> (call: OracleCall)
        ensures
            call.to@ == SAFE7579LAUNCHPAD_ADDR@,
            call.data@ == init_hash_call_data(params@),
    {
        let owners = params.owners();
        let validators_init = module_inits_for(params.validators());
        let setup_params = encode_init_safe7579_params(
            &Address::new(SAFE7579_ADDR),
            &empty_slot(),
            &empty_slot(),
            &empty_slot(),
            owners,
            OWNER_THRESHOLD,
        );
        let safe_setup_call = with_selector(&INIT_SAFE7579_SELECTOR, &setup_params);
        let no_call_data: Vec<u8> = Vec::new();
        let init_data = encode_init_data_param(
            &Address::new(SAFE_IMPL_ADDR),
            owners,
            &U256::from_u64(OWNER_THRESHOLD as u64),
            &Address::new(SAFE7579LAUNCHPAD_ADDR),
            &safe_setup_call,
            &Address::new(SAFE7579_ADDR),
            &validators_init,
            &no_call_data,
        );
        Safe7579HelperImpl::hash_call(&init_data)
    }

    /// What the factory is called with, once the launchpad has hashed the
    /// initialisation data.
    pub fn make_factory_data(salt: &[u8; 32], init_hash: &[u8; 32]) -> (data: Safe7579HelperData)
        ensures
            data.factory_initializer@ == factory_initializer(init_hash@),
            data.proxy_call@ == proxy_call(salt@, init_hash@),
    {
        let no_pre_init: Vec<u8> = Vec::new();
        let setup_params = encode_word_address_bytes_params(
            init_hash,
            &Address::zero(),
            &no_pre_init,
        );
        let factory_initializer = with_selector(&PRE_VALIDATION_SETUP_SELECTOR, &setup_params);
        let create_params = encode_address_bytes_uint_params(
            &Address::new(SAFE7579LAUNCHPAD_ADDR),
            &factory_initializer,
            &U256::from_be_bytes(*salt),
        );
        let proxy_call = with_selector(&CREATE_PROXY_WITH_NONCE_SELECTOR, &create_params);
        Safe7579HelperData { proxy_call, factory_initializer }
    }

    /// The second question to the chain: the address that the launchpad
    /// predicts for the proxy.
    pub fn predict_address_request(
        salt: &[u8; 32],
        factory_initializer: &Vec<u8>,
        proxy_creation_code: &Vec<u8>,
    ) -> (call: OracleCall)
        ensures
            call.to@ == SAFE7579LAUNCHPAD_ADDR@,
            call.data@ == PREDICT_SAFE_ADDRESS_SELECTOR@ + abi_predict_params(
                SAFE7579LAUNCHPAD_ADDR@,
                SAFE_PROXY_FACTORY@,
                proxy_creation_code@,
                salt@,
                factory_initializer@,
            ),
    {
        let params = encode_predict_params(
            &Address::new(SAFE7579LAUNCHPAD_ADDR),
            &Address::new(SAFE_PROXY_FACTORY),
            proxy_creation_code,
            salt,
            factory_initializer,
        );
        OracleCall {
            to: Address::new(SAFE7579LAUNCHPAD_ADDR),
            data: with_selector(&PREDICT_SAFE_ADDRESS_SELECTOR, &params),
        }
    }

    /// The plan, once the launchpad has predicted the address: the factory,
    /// and the factory call wrapped together with the factory's address.
    pub fn make_account(proxy_call: &Vec<u8>, predicted_address: Address) -> (plan: DeploymentPlan)
        ensures
            plan.predicted_address@ == predicted_address@,
            plan.factory_address@ == SAFE_PROXY_FACTORY@,
            plan.factory_call_data@ == abi_address_bytes(SAFE_PROXY_FACTORY@, proxy_call@),
    {
        let factory = Address::new(SAFE_PROXY_FACTORY);
        DeploymentPlan {
            predicted_address,
            factory_address: factory,
            factory_call_data: encode_address_bytes(&factory, proxy_call),
        }
    }
}

/// Where a deployment plan stands.
#[derive(Clone, Copy, Debug)]
pub enum PlannerState {
    /// The hash of the initialisation data has been asked for.
    AwaitingInitHash,
    /// The hash is known and the address has been asked for.
    AwaitingAddress { init_hash: [u8; 32] },
    /// The plan was delivered, or planning failed.
    Finished,
}

/// What the driver reports back after a read-only call.
#[derive(Clone, Copy, Debug)]
pub enum OracleReply {
    /// The launchpad's hash of the initialisation data.
    InitHash([u8; 32]),
    /// The address that the launchpad predicts.
    PredictedAddress(Address),
    /// The call did not complete.
    Unavailable,
}

/// What the driver is to do next.
#[derive(Clone, Debug)]
pub enum PlannerAction {
    /// Make this read-only call and report its answer.
    Call(OracleCall),
    /// Planning is done: this is the plan.
    Deliver(DeploymentPlan),
    /// Planning has failed for good.
    Fail(AppError),
}

/// Plans the deployment of one account. The proxy's creation code comes
/// from the caller, as the contract artifact gives it.
#[derive(Debug)]
pub struct AccountDeploymentPlanner {
    pub params: AccountInitParams,
    pub proxy_creation_code: Vec<u8>,
}

impl AccountDeploymentPlanner {
    pub fn new(params: AccountInitParams, proxy_creation_code: Vec<u8>) -> (planner: Self)
        ensures
            planner.params == params,
            planner.proxy_creation_code == proxy_creation_code,
    {
        AccountDeploymentPlanner { params, proxy_creation_code }
    }

    /// Begins planning: asks for the hash of the initialisation data.
    pub fn start(&self) -> (begin: (PlannerState, OracleCall))
        ensures
            begin.0 is AwaitingInitHash,
            begin.1.to@ == SAFE7579LAUNCHPAD_ADDR@,
            begin.1.data@ == init_hash_call_data(self.params@),
    {
        (PlannerState::AwaitingInitHash, Safe7579HelperImpl::init_hash_request(&self.params))
    }

    /// Takes the answer to the call that is outstanding in `state` and says
    /// what comes next.
    ///
    /// The hash, while it is awaited, leads to the call that predicts the
    /// address; the address, while it is awaited, completes the plan. Any
    /// other answer (a call that did not complete, an answer of the wrong
    /// kind, an answer after planning has ended) fails the plan with
    /// `OracleUnavailable`, and planning ends.
    pub fn step(&self, state: PlannerState, reply: OracleReply) -> (next: (PlannerState, PlannerAction))
        ensures
            match (state, reply) {
                (PlannerState::AwaitingInitHash, OracleReply::InitHash(init_hash)) => {
                    &&& next.0 matches PlannerState::AwaitingAddress { init_hash: kept }
                    &&& kept@ == init_hash@
                    &&& next.1 matches PlannerAction::Call(call)
                    &&& call.to@ == SAFE7579LAUNCHPAD_ADDR@
                    &&& call.data@ == predict_address_call_data(
                        self.params@.salt,
                        init_hash@,
                        self.proxy_creation_code@,
                    )
                },
                (PlannerState::AwaitingAddress { init_hash }, OracleReply::PredictedAddress(address)) => {
                    &&& next.0 is Finished
                    &&& next.1 matches PlannerAction::Deliver(plan)
                    &&& plan.predicted_address@ == address@
                    &&& plan.factory_address@ == SAFE_PROXY_FACTORY@
                    &&& plan.factory_call_data@ == factory_call_data(self.params@.salt, init_hash@)
                },
                _ => {
                    &&& next.0 is Finished
                    &&& next.1 matches PlannerAction::Fail(error)
                    &&& error == AppError::OracleUnavailable
                },
            },
    {
        match (state, reply) {
            (PlannerState::AwaitingInitHash, OracleReply::InitHash(init_hash)) => {
                let data = Safe7579HelperImpl::make_factory_data(self.params.salt(), &init_hash);
                let call = Safe7579HelperImpl::predict_address_request(
                    self.params.salt(),
                    &data.factory_initializer,
                    &self.proxy_creation_code,
                );
                (PlannerState::AwaitingAddress { init_hash }, PlannerAction::Call(call))
            },
            (PlannerState::AwaitingAddress { init_hash }, OracleReply::PredictedAddress(address)) => {
                let data = Safe7579HelperImpl::make_factory_data(self.params.salt(), &init_hash);
                let plan = Safe7579HelperImpl::make_account(&data.proxy_call, address);
                (PlannerState::Finished, PlannerAction::Deliver(plan))
            },
            _ => (PlannerState::Finished, PlannerAction::Fail(AppError::OracleUnavailable)),
        }
    }
}

} // verus!
