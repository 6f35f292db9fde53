//! A builder that collects executions and keeps count of them in its type:
//! empty, holding one execution, or holding a batch.

use vstd::prelude::*;
use core::marker::PhantomData;
use crate::error::AppError;
use crate::execution::{encode_executions, execute_call_data, execution_views, Execution, ExecutionView};
use crate::primitives::{Address, U256};
use crate::words::extend_bytes;
use crate::user_operation::{assemble, assembled, no_gas_overrides, GasOverrides, PackedUserOperation, PackedUserOperationBuilder};

verus! {

fn copy_bytes(bytes: &Vec<u8>) -> (copy: Vec<u8>)
    ensures
        copy@ == bytes@,
{
    let mut copy: Vec<u8> = Vec::new();
    extend_bytes(&mut copy, bytes.as_slice());
    copy
}

/// A state of the builder: how many executions a builder in it may hold.
pub trait BuilderState {
    spec fn admits(count: nat) -> bool;
}

/// State of a builder that holds exactly one execution.
pub struct SingleExecution;

/// State of a builder that holds two or more executions.
pub struct BatchExecution;

impl BuilderState for () {
    open spec fn admits(count: nat) -> bool {
        count == 0
    }
}

impl BuilderState for SingleExecution {
    open spec fn admits(count: nat) -> bool {
        count == 1
    }
}

impl BuilderState for BatchExecution {
    open spec fn admits(count: nat) -> bool {
        count >= 2
    }
}

/// Executions in the order in which they were added. `State` is `()` for an
/// empty builder, [`SingleExecution`] or [`BatchExecution`], and the number
/// of executions held is always one that the state admits.
pub struct UserOpsBuilder<State: BuilderState> {
    _phantom: PhantomData<State>,
    executions: Vec<Execution>,
}

impl<State: BuilderState> UserOpsBuilder<State> {
    #[verifier::type_invariant]
    spec fn count_fits_state(&self) -> bool {
        State::admits(self.executions@.len())
    }

    /// The executions held, in the order in which they were added.
    pub closed spec fn executions(&self) -> Seq<ExecutionView> {
        execution_views(self.executions@)
    }


    fn push(self, target: Address, value: U256, calldata: Vec<u8>) -> (executions: Vec<Execution>)
        ensures
            executions@.len() == self.executions@.len() + 1,
            execution_views(executions@) == self.executions().push(
                ExecutionView { target: target@, value: value@, call_data: calldata@ },
            ),
    {
        let mut executions = self.executions;
        executions.push(Execution { target, value, call_data: calldata });
        assert(execution_views(executions@) =~= self.executions().push(
            ExecutionView { target: target@, value: value@, call_data: calldata@ },
        ));
        executions
    }

    fn encode(&self) -> (bytes: Vec<u8>)
        requires
            self.executions().len() > 0,
        ensures
            bytes@ == execute_call_data(self.executions()),
    {
        match encode_executions(&self.executions) {
            Ok(bytes) => bytes,
            Err(_) => Vec::new(),
        }
    }

    fn operation(&self, sender: Address, nonce: U256) -> (operation: PackedUserOperation)
        requires
            self.executions().len() > 0,
        ensures
            operation@ == assembled(
                sender,
                nonce,
                execute_call_data(self.executions()),
                None,
                no_gas_overrides(),
            ),
    {
        match assemble(sender, nonce, self.encode(), None, GasOverrides::none()) {
            Ok(operation) => operation,
            Err(_) => PackedUserOperation::default(),
        }
    }
}

impl UserOpsBuilder<()> {
    /// A builder that holds nothing yet.
    pub fn new() -> (builder: Self)
        ensures
            builder.executions() == Seq::<ExecutionView>::empty(),
    {
        let builder = UserOpsBuilder::<()> { _phantom: PhantomData, executions: Vec::new() };
        assert(builder.executions() =~= Seq::<ExecutionView>::empty());
        builder
    }

    /// Adds the first execution.
    pub fn add_execution(self, target: Address, value: U256, calldata: Vec<u8>) -> (builder:
        UserOpsBuilder<SingleExecution>)
        ensures
            builder.executions() == seq![
                ExecutionView { target: target@, value: value@, call_data: calldata@ },
            ],
    {
        proof {
            use_type_invariant(&self);
        }
        let executions = self.push(target, value, calldata);
        let builder = UserOpsBuilder { _phantom: PhantomData, executions };
        assert(builder.executions() =~= seq![
            ExecutionView { target: target@, value: value@, call_data: calldata@ },
        ]);
        builder
    }
}

impl UserOpsBuilder<SingleExecution> {
    /// Adds a second execution, which makes a batch.
    pub fn add_execution(self, target: Address, value: U256, calldata: Vec<u8>) -> (builder:
        UserOpsBuilder<BatchExecution>)
        ensures
            builder.executions() == self.executions().push(
                ExecutionView { target: target@, value: value@, call_data: calldata@ },
            ),
    {
        proof {
            use_type_invariant(&self);
        }
        let executions = self.push(target, value, calldata);
        UserOpsBuilder { _phantom: PhantomData, executions }
    }

    /// The `execute` call data for the execution held, in single mode.
    pub fn encode_executions(self) -> (bytes: Vec<u8>)
        ensures
            bytes@ == execute_call_data(self.executions()),
    {
        proof {
            use_type_invariant(&self);
        }
        self.encode()
    }

    /// The unsigned operation that makes the executions held, from `sender`
    /// and under `nonce`, with default gas fields.
    pub fn build(self, sender: Address, nonce: U256) -> (operation: PackedUserOperation)
        ensures
            operation@ == assembled(
                sender,
                nonce,
                execute_call_data(self.executions()),
                None,
                no_gas_overrides(),
            ),
    {
        proof {
            use_type_invariant(&self);
        }
        self.operation(sender, nonce)
    }
}

impl UserOpsBuilder<BatchExecution> {
    /// Adds one more execution to the batch.
    pub fn add_execution(self, target: Address, value: U256, calldata: Vec<u8>) -> (builder:
        UserOpsBuilder<BatchExecution>)
        ensures
            builder.executions() == self.executions().push(
                ExecutionView { target: target@, value: value@, call_data: calldata@ },
            ),
    {
        proof {
            use_type_invariant(&self);
        }
        let executions = self.push(target, value, calldata);
        UserOpsBuilder { _phantom: PhantomData, executions }
    }

    /// The `execute` call data for the batch held, in batch mode.
    pub fn encode_executions(self) -> (bytes: Vec<u8>)
        ensures
            bytes@ == execute_call_data(self.executions()),
    {
        proof {
            use_type_invariant(&self);
        }
        self.encode()
    }

    /// The unsigned operation that makes the executions held, from `sender`
    /// and under `nonce`, with default gas fields.
    pub fn build(self, sender: Address, nonce: U256) -> (operation: PackedUserOperation)
        ensures
            operation@ == assembled(
                sender,
                nonce,
                execute_call_data(self.executions()),
                None,
                no_gas_overrides(),
            ),
    {
        proof {
            use_type_invariant(&self);
        }
        self.operation(sender, nonce)
    }
}

/// The unsigned operation that makes the given executions, in the order
/// given, from `sender` and under `nonce`. With nothing to execute there is
/// no operation.
pub fn execute_operation(sender: Address, nonce: U256, executions: Vec<Execution>) -> (result: Result<
    PackedUserOperation,
    AppError,
>)
    ensures
        executions@.len() == 0 ==> result == Err::<PackedUserOperation, AppError>(
            AppError::EmptyBatch,
        ),
        executions@.len() > 0 ==> result is Ok && result->Ok_0@ == assembled(
            sender,
            nonce,
            execute_call_data(execution_views(executions@)),
            None,
            no_gas_overrides(),
        ),
{
    let ghost views = execution_views(executions@);
    let count = executions.len();
    if count == 0 {
        return Err(AppError::EmptyBatch);
    }
    let first = &executions[0];
    let single = UserOpsBuilder::new().add_execution(
        first.target,
        first.value,
        copy_bytes(&first.call_data),
    );
    assert(single.executions() =~= views.take(1));
    if count == 1 {
        assert(views.take(1) =~= views);
        return Ok(single.build(sender, nonce));
    }
    let second = &executions[1];
    let mut batch = single.add_execution(second.target, second.value, copy_bytes(&second.call_data));
    assert(batch.executions() =~= views.take(2));
    let mut i: usize = 2;
    while i < count
        invariant
            2 <= i <= count,
            count == executions@.len(),
            views == execution_views(executions@),
            batch.executions() == views.take(i as int),
        decreases count - i,
    {
        let next = &executions[i];
        batch = batch.add_execution(next.target, next.value, copy_bytes(&next.call_data));
        assert(batch.executions() =~= views.take(i + 1));
        i = i + 1;
    }
    assert(views.take(count as int) =~= views);
    Ok(batch.build(sender, nonce))
}

} // verus!
