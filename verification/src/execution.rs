//! Call data for the account's `execute(bytes32 mode, bytes executionCalldata)`
//! entry point, for one call or for a batch of calls.

use vstd::prelude::*;
use crate::abi::{
    abi_execution,
    abi_word_bytes_params,
    bytes_tail,
    encode_execution,
    encode_packed_execution,
    encode_word_bytes_params,
    packed_execution,
};
use crate::error::AppError;
use crate::primitives::{address_word, Address, U256};
use crate::words::{
    be_value,
    extend_bytes,
    lemma_be_bytes_injective,
    lemma_be_bytes_len,
    lemma_be_value_of_be_bytes,
    lemma_length_fits_word,
    padding_len,
    uint_word,
    with_selector,
    zeros,
};

verus! {

/// Selector of `execute(bytes32,bytes)`.
pub const EXECUTE_SELECTOR: [u8; 4] = [0xe9, 0xae, 0x5c, 0x53];

/// One call that the account is to make.
#[derive(Clone, Debug)]
pub struct Execution {
    pub target: Address,
    pub value: U256,
    pub call_data: Vec<u8>,
}

/// What an [`Execution`] holds, as byte strings.
#[verifier::ext_equal]
pub struct ExecutionView {
    pub target: Seq<u8>,
    pub value: Seq<u8>,
    pub call_data: Seq<u8>,
}

impl View for Execution {
    type V = ExecutionView;

    open spec fn view(&self) -> ExecutionView {
        ExecutionView { target: self.target@, value: self.value@, call_data: self.call_data@ }
    }
}

/// The views of a list of executions, in order.
pub open spec fn execution_views(executions: Seq<Execution>) -> Seq<ExecutionView> {
    executions.map_values(|e: Execution| e@)
}

/// How the account is to read the payload of an `execute` call.
#[derive(Clone, Copy, Debug, PartialEq, Eq, Structural)]
pub enum ModeTag {
    Single,
    Batch,
}

impl ModeTag {
    /// The mode for a batch of `len` executions: `Single` for exactly one,
    /// `Batch` otherwise.
    pub open spec fn of_len(len: nat) -> ModeTag {
        if len == 1 {
            ModeTag::Single
        } else {
            ModeTag::Batch
        }
    }

    /// The 32 bytes that stand for the mode on the wire: all zero for
    /// `Single`, a first byte of `0x01` and zeros after it for `Batch`.
    pub open spec fn wire(self) -> Seq<u8> {
        match self {
            ModeTag::Single => zeros(32),
            ModeTag::Batch => seq![1u8] + zeros(31),
        }
    }

    pub fn for_len(len: usize) -> (mode: ModeTag)
        ensures
            mode == ModeTag::of_len(len as nat),
    {
        if len == 1 {
            ModeTag::Single
        } else {
            ModeTag::Batch
        }
    }

    pub fn to_word(&self) -> (word: [u8; 32])
        ensures
            word@ == self.wire(),
    {
        let mut word: [u8; 32] = [0u8; 32];
        match self {
            ModeTag::Single => {},
            ModeTag::Batch => {
                word[0] = 1u8;
            },
        }
        assert(word@ =~= self.wire());
        word
    }
}

/// The payload of a batch: the standard encodings of its executions, one
/// after another.
pub open spec fn batch_payload(executions: Seq<ExecutionView>) -> Seq<u8>
    decreases executions.len(),
{
    if executions.len() == 0 {
        Seq::empty()
    } else {
        let first = executions.first();
        abi_execution(first.target, first.value, first.call_data) + batch_payload(
            executions.drop_first(),
        )
    }
}

/// The payload of an `execute` call: the packed encoding of a lone execution,
/// the batch payload otherwise.
pub open spec fn execution_payload(executions: Seq<ExecutionView>) -> Seq<u8> {
    if executions.len() == 1 {
        let only = executions[0];
        packed_execution(only.target, only.value, only.call_data)
    } else {
        batch_payload(executions)
    }
}

/// The call data of `execute` for a list of executions: the selector, then
/// the parameters `(mode, payload)` in standard encoding.
pub open spec fn execute_call_data(executions: Seq<ExecutionView>) -> Seq<u8> {
    EXECUTE_SELECTOR@ + abi_word_bytes_params(
        ModeTag::of_len(executions.len()).wire(),
        execution_payload(executions),
    )
}

/// Appending one execution to a batch appends its encoding to the payload.
pub proof fn lemma_batch_payload_push(executions: Seq<ExecutionView>, last: ExecutionView)
    ensures
        batch_payload(executions.push(last)) == batch_payload(executions) + abi_execution(
            last.target,
            last.value,
            last.call_data,
        ),
    decreases executions.len(),
{
    let longer = executions.push(last);
    if executions.len() == 0 {
        assert(longer.drop_first() =~= Seq::empty());
        assert(batch_payload(longer.drop_first()) =~= Seq::empty());
        assert(batch_payload(longer) =~= abi_execution(last.target, last.value, last.call_data));
    } else {
        assert(longer.drop_first() =~= executions.drop_first().push(last));
        assert(longer.first() == executions.first());
        lemma_batch_payload_push(executions.drop_first(), last);
        let first = executions.first();
        assert(batch_payload(longer) =~= abi_execution(first.target, first.value, first.call_data)
            + batch_payload(executions.drop_first()) + abi_execution(
            last.target,
            last.value,
            last.call_data,
        ));
    }
}

/// An execution as a `Vec`-backed [`Execution`] can hold it: an address of
/// 20 bytes, a number of 32 bytes, and call data that fits in memory.
pub open spec fn well_formed(execution: ExecutionView) -> bool {
    &&& execution.target.len() == 20
    &&& execution.value.len() == 32
    &&& execution.call_data.len() <= usize::MAX
}

/// Every execution of the list is well formed.
pub open spec fn all_well_formed(executions: Seq<ExecutionView>) -> bool {
    forall|i: int| 0 <= i < executions.len() ==> well_formed(#[trigger] executions[i])
}

/// The execution that the call data of a single-mode `execute` call holds:
/// after the selector, the mode and the offset comes the length of the
/// payload, and then the payload: 20 bytes of target, 32 bytes of value,
/// and call data up to the payload's end.
pub open spec fn decode_single(call: Seq<u8>) -> ExecutionView {
    let payload_len = be_value(call.subrange(68, 100));
    ExecutionView {
        target: call.subrange(100, 120),
        value: call.subrange(120, 152),
        call_data: call.subrange(152, 100 + payload_len as int),
    }
}

proof fn lemma_call_layout(mode: Seq<u8>, payload: Seq<u8>)
    requires
        mode.len() == 32,
        payload.len() <= 0x100_0000_0000_0000_0000,
    ensures
        ({
            let call = EXECUTE_SELECTOR@ + abi_word_bytes_params(mode, payload);
            &&& call.len() == 100 + payload.len() + padding_len(payload.len())
            &&& call.subrange(0, 4) == EXECUTE_SELECTOR@
            &&& call.subrange(4, 36) == mode
            &&& be_value(call.subrange(68, 100)) == payload.len()
            &&& call.subrange(100, 100 + payload.len() as int) == payload
        }),
{
    let call = EXECUTE_SELECTOR@ + abi_word_bytes_params(mode, payload);
    lemma_be_bytes_len(64, 32);
    lemma_be_bytes_len(payload.len(), 32);
    lemma_length_fits_word(payload.len());
    lemma_be_value_of_be_bytes(payload.len(), 32);
    assert(call.subrange(0, 4) =~= EXECUTE_SELECTOR@);
    assert(call.subrange(4, 36) =~= mode);
    assert(call.subrange(68, 100) =~= uint_word(payload.len()));
    assert(call.subrange(100, 100 + payload.len() as int) =~= payload);
}

/// The call data for a lone execution is in single mode and decodes back to
/// the execution: after the selector and the all-zero mode word, the payload
/// holds the target, the value and the call data as they were given.
pub proof fn lemma_single_execution_decodes_back(execution: ExecutionView)
    requires
        well_formed(execution),
    ensures
        ({
            let call = execute_call_data(seq![execution]);
            &&& call.subrange(0, 4) == EXECUTE_SELECTOR@
            &&& call.subrange(4, 36) == ModeTag::Single.wire()
            &&& decode_single(call) == execution
        }),
{
    let payload = packed_execution(execution.target, execution.value, execution.call_data);
    let call = execute_call_data(seq![execution]);
    assert(seq![execution][0] == execution);
    lemma_call_layout(ModeTag::Single.wire(), payload);
    let within = call.subrange(100, 100 + payload.len() as int);
    assert(call.subrange(100, 120) =~= within.subrange(0, 20));
    assert(call.subrange(120, 152) =~= within.subrange(20, 52));
    assert(call.subrange(152, 100 + payload.len() as int) =~= within.subrange(52, payload.len() as int));
    assert(payload.subrange(0, 20) =~= execution.target);
    assert(payload.subrange(20, 52) =~= execution.value);
    assert(payload.subrange(52, payload.len() as int) =~= execution.call_data);
}

/// What a list of [`Execution`] values holds is well formed.
pub proof fn lemma_executions_are_well_formed(executions: Vec<Execution>)
    ensures
        all_well_formed(execution_views(executions@)),
{
    assert forall|i: int| 0 <= i < execution_views(executions@).len() implies well_formed(
        #[trigger] execution_views(executions@)[i],
    ) by {
        let execution = executions@[i];
        assert(execution_views(executions@)[i] == execution@);
        assert(execution.call_data.len() == execution.call_data@.len());
    }
}

/// Encodes a list of executions as the call data of the account's `execute`
/// entry point. A lone execution goes in `Single` mode, packed, and can be
/// read back from the call data; two or more go in `Batch` mode, each in
/// standard encoding, in the order given. An empty list is refused.
pub fn encode_executions(executions: &Vec<Execution>) -> (result: Result<Vec<u8>, AppError>)
    ensures
        executions@.len() == 0 ==> result == Err::<Vec<u8>, AppError>(AppError::EmptyBatch),
        executions@.len() > 0 ==> {
            &&& result is Ok
            &&& result->Ok_0@ == execute_call_data(execution_views(executions@))
            &&& result->Ok_0@.subrange(0, 4) == EXECUTE_SELECTOR@
            &&& result->Ok_0@.subrange(4, 36) == ModeTag::of_len(executions@.len()).wire()
        },
        executions@.len() == 1 ==> decode_single(result->Ok_0@) == executions@[0]@,
{
    let count = executions.len();
    if count == 0 {
        return Err(AppError::EmptyBatch);
    }
    let ghost views = execution_views(executions@);
    let mode = ModeTag::for_len(count);
    let mut payload: Vec<u8> = Vec::new();
    if count == 1 {
        let only = &executions[0];
        payload = encode_packed_execution(&only.target, &only.value, &only.call_data);
        assert(views[0] == executions@[0]@);
    } else {
        let mut i: usize = 0;
        assert(views.take(0) =~= Seq::empty());
        while i < count
            invariant
                i <= count,
                count == executions@.len(),
                views == execution_views(executions@),
                payload@ == batch_payload(views.take(i as int)),
            decreases count - i,
        {
            let execution = &executions[i];
            let encoded = encode_execution(&execution.target, &execution.value, &execution.call_data);
            proof {
                assert(views[i as int] == executions@[i as int]@);
                assert(views.take(i + 1) =~= views.take(i as int).push(views[i as int]));
                lemma_batch_payload_push(views.take(i as int), views[i as int]);
            }
            extend_bytes(&mut payload, encoded.as_slice());
            i = i + 1;
        }
        assert(views.take(count as int) =~= views);
    }
    let params = encode_word_bytes_params(&mode.to_word(), &payload);
    proof {
        assert(payload@.len() == payload.len());
        lemma_call_layout(mode.wire(), payload@);
        if count == 1 {
            assert(views =~= seq![views[0]]);
            lemma_executions_are_well_formed(*executions);
            lemma_single_execution_decodes_back(views[0]);
        }
    }
    Ok(with_selector(&EXECUTE_SELECTOR, &params))
}

/// A list of executions that can be encoded for the account's `execute`
/// entry point.
pub trait ExecutionBuilder {
    /// The executions of the list, in order.
    spec fn executions(&self) -> Seq<ExecutionView>;

    /// The call data of `execute` for the list; an empty list is refused.
    fn encode_executions(&self) -> (result: Result<Vec<u8>, AppError>)
        ensures
            self.executions().len() == 0 ==> result == Err::<Vec<u8>, AppError>(
                AppError::EmptyBatch,
            ),
            self.executions().len() > 0 ==> result is Ok && result->Ok_0@ == execute_call_data(
                self.executions(),
            ),
    ;
}

impl ExecutionBuilder for Vec<Execution> {
    open spec fn executions(&self) -> Seq<ExecutionView> {
        execution_views(self@)
    }

    fn encode_executions(&self) -> (result: Result<Vec<u8>, AppError>) {
        encode_executions(self)
    }
}

proof fn lemma_abi_execution_layout(execution: ExecutionView)
    requires
        well_formed(execution),
    ensures
        ({
            let encoded = abi_execution(execution.target, execution.value, execution.call_data);
            let len = execution.call_data.len();
            &&& encoded.len() == 160 + len + padding_len(len)
            &&& encoded.subrange(44, 64) == execution.target
            &&& encoded.subrange(64, 96) == execution.value
            &&& encoded.subrange(128, 160) == uint_word(len)
            &&& encoded.subrange(160, 160 + len as int) == execution.call_data
        }),
{
    let encoded = abi_execution(execution.target, execution.value, execution.call_data);
    let len = execution.call_data.len();
    lemma_be_bytes_len(32, 32);
    lemma_be_bytes_len(96, 32);
    lemma_be_bytes_len(len, 32);
    assert(address_word(execution.target).len() == 32);
    assert(bytes_tail(execution.call_data).len() == 32 + len + padding_len(len));
    assert(encoded.subrange(44, 64) =~= execution.target);
    assert(encoded.subrange(64, 96) =~= execution.value);
    assert(encoded.subrange(128, 160) =~= uint_word(len));
    assert(encoded.subrange(160, 160 + len as int) =~= execution.call_data);
}

/// The standard encoding of an execution marks its own end: where two
/// encodings, each followed by anything, make the same bytes, the
/// executions are the same and so is what follows them.
proof fn lemma_abi_execution_delimits_itself(
    a: ExecutionView,
    rest_a: Seq<u8>,
    b: ExecutionView,
    rest_b: Seq<u8>,
)
    requires
        well_formed(a),
        well_formed(b),
        abi_execution(a.target, a.value, a.call_data) + rest_a == abi_execution(
            b.target,
            b.value,
            b.call_data,
        ) + rest_b,
    ensures
        a == b,
        rest_a == rest_b,
{
    let encoded_a = abi_execution(a.target, a.value, a.call_data);
    let encoded_b = abi_execution(b.target, b.value, b.call_data);
    let whole = encoded_a + rest_a;
    lemma_abi_execution_layout(a);
    lemma_abi_execution_layout(b);
    assert(whole.subrange(128, 160) =~= encoded_a.subrange(128, 160));
    assert(whole.subrange(128, 160) =~= encoded_b.subrange(128, 160));
    lemma_length_fits_word(a.call_data.len());
    lemma_length_fits_word(b.call_data.len());
    lemma_be_bytes_injective(a.call_data.len(), b.call_data.len(), 32);
    let end = encoded_a.len() as int;
    assert(whole.subrange(0, end) =~= encoded_a);
    assert(whole.subrange(0, end) =~= encoded_b);
    assert(whole.subrange(end, whole.len() as int) =~= rest_a);
    assert(whole.subrange(end, whole.len() as int) =~= rest_b);
    assert(a =~= b);
}

/// Two batches of well-formed executions with the same payload are the same
/// batch.
pub proof fn lemma_batch_payload_injective(a: Seq<ExecutionView>, b: Seq<ExecutionView>)
    requires
        all_well_formed(a),
        all_well_formed(b),
        batch_payload(a) == batch_payload(b),
    ensures
        a == b,
    decreases a.len(),
{
    if a.len() == 0 || b.len() == 0 {
        if a.len() > 0 {
            assert(well_formed(a[0]));
            lemma_abi_execution_layout(a.first());
            assert(batch_payload(a).len() >= 160);
        }
        if b.len() > 0 {
            assert(well_formed(b[0]));
            lemma_abi_execution_layout(b.first());
            assert(batch_payload(b).len() >= 160);
        }
        assert(a.len() == 0 && b.len() == 0);
        assert(a =~= b);
    } else {
        assert(well_formed(a[0]) && well_formed(b[0]));
        lemma_abi_execution_delimits_itself(
            a.first(),
            batch_payload(a.drop_first()),
            b.first(),
            batch_payload(b.drop_first()),
        );
        assert forall|i: int| 0 <= i < a.drop_first().len() implies well_formed(
            #[trigger] a.drop_first()[i],
        ) by {
            assert(a.drop_first()[i] == a[i + 1]);
        }
        assert forall|i: int| 0 <= i < b.drop_first().len() implies well_formed(
            #[trigger] b.drop_first()[i],
        ) by {
            assert(b.drop_first()[i] == b[i + 1]);
        }
        lemma_batch_payload_injective(a.drop_first(), b.drop_first());
        assert(a =~= seq![a.first()] + a.drop_first());
        assert(b =~= seq![b.first()] + b.drop_first());
    }
}

/// The call data tells the executions: two lists of well-formed executions
/// whose payloads fit in memory and whose call data is the same are the same
/// list, element by element and in the same order.
pub proof fn lemma_execute_call_data_injective(a: Seq<ExecutionView>, b: Seq<ExecutionView>)
    requires
        all_well_formed(a),
        all_well_formed(b),
        execution_payload(a).len() <= usize::MAX,
        execution_payload(b).len() <= usize::MAX,
        execute_call_data(a) == execute_call_data(b),
    ensures
        a == b,
{
    let mode_a = ModeTag::of_len(a.len()).wire();
    let mode_b = ModeTag::of_len(b.len()).wire();
    let payload_a = execution_payload(a);
    let payload_b = execution_payload(b);
    lemma_call_layout(mode_a, payload_a);
    lemma_call_layout(mode_b, payload_b);
    assert(mode_a == mode_b);
    assert(payload_a == payload_b);
    assert(ModeTag::Single.wire()[0] == 0u8);
    assert(ModeTag::Batch.wire()[0] == 1u8);
    if a.len() == 1 {
        assert(b.len() == 1);
        let x = a[0];
        let y = b[0];
        assert(well_formed(x) && well_formed(y));
        assert(payload_a.subrange(0, 20) =~= x.target);
        assert(payload_b.subrange(0, 20) =~= y.target);
        assert(payload_a.subrange(20, 52) =~= x.value);
        assert(payload_b.subrange(20, 52) =~= y.value);
        assert(payload_a.subrange(52, payload_a.len() as int) =~= x.call_data);
        assert(payload_b.subrange(52, payload_b.len() as int) =~= y.call_data);
        assert(x =~= y);
        assert(a =~= b);
    } else {
        assert(b.len() != 1);
        lemma_batch_payload_injective(a, b);
    }
}

/// A batch is in batch mode, and its order shows in the bytes: a batch of
/// two or more that is put in another order, so that some position now
/// holds another execution, encodes differently.
pub proof fn lemma_batch_order_shows(batch: Seq<ExecutionView>, reordered: Seq<ExecutionView>)
    requires
        batch.len() >= 2,
        all_well_formed(batch),
        all_well_formed(reordered),
        batch_payload(batch).len() <= usize::MAX,
        batch_payload(reordered).len() <= usize::MAX,
        reordered.to_multiset() == batch.to_multiset(),
        reordered != batch,
    ensures
        execute_call_data(batch).subrange(4, 36) == ModeTag::Batch.wire(),
        execute_call_data(reordered).subrange(4, 36) == ModeTag::Batch.wire(),
        execute_call_data(reordered) != execute_call_data(batch),
{
    batch.to_multiset_ensures();
    reordered.to_multiset_ensures();
    assert(reordered.len() == batch.len());
    lemma_call_layout(ModeTag::Batch.wire(), batch_payload(batch));
    lemma_call_layout(ModeTag::Batch.wire(), batch_payload(reordered));
    if execute_call_data(reordered) == execute_call_data(batch) {
        lemma_execute_call_data_injective(reordered, batch);
    }
}

} // verus!
