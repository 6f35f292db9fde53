use alloy::primitives::{keccak256, U256 as Number};
use userop_encoder::error::AppError;
use userop_encoder::execution::{
    encode_executions, Execution, ExecutionBuilder, ModeTag, EXECUTE_SELECTOR,
};
use userop_encoder::primitives::{Address, U256};
use userop_encoder::user_operation::prepare_user_operation;
use userop_encoder::userop_builder::{execute_operation, UserOpsBuilder};

fn first_call() -> Execution {
    Execution {
        target: Address::new([0x11; 20]),
        value: U256::from_u64(1),
        call_data: vec![0xde, 0xad, 0xbe, 0xef],
    }
}

fn second_call() -> Execution {
    Execution {
        target: Address::new([0x22; 20]),
        value: U256::from_u64(0x0102),
        call_data: vec![0u8; 33],
    }
}

#[test]
fn empty_batch_is_refused() {
    assert_eq!(encode_executions(&Vec::new()), Err(AppError::EmptyBatch));
}

#[test]
fn single_execution_is_packed_in_single_mode() {
    let expected = hex::decode(
        "e9ae5c53\
         0000000000000000000000000000000000000000000000000000000000000000\
         0000000000000000000000000000000000000000000000000000000000000040\
         0000000000000000000000000000000000000000000000000000000000000038\
         1111111111111111111111111111111111111111\
         0000000000000000000000000000000000000000000000000000000000000001\
         deadbeef\
         0000000000000000",
    )
    .unwrap();
    assert_eq!(encode_executions(&vec![first_call()]), Ok(expected));
}

#[test]
fn batch_is_abi_encoded_in_batch_mode() {
    let expected = hex::decode(
        "e9ae5c53\
         0100000000000000000000000000000000000000000000000000000000000000\
         0000000000000000000000000000000000000000000000000000000000000040\
         00000000000000000000000000000000000000000000000000000000000001a0\
         0000000000000000000000000000000000000000000000000000000000000020\
         0000000000000000000000001111111111111111111111111111111111111111\
         0000000000000000000000000000000000000000000000000000000000000001\
         0000000000000000000000000000000000000000000000000000000000000060\
         0000000000000000000000000000000000000000000000000000000000000004\
         deadbeef00000000000000000000000000000000000000000000000000000000\
         0000000000000000000000000000000000000000000000000000000000000020\
         0000000000000000000000002222222222222222222222222222222222222222\
         0000000000000000000000000000000000000000000000000000000000000102\
         0000000000000000000000000000000000000000000000000000000000000060\
         0000000000000000000000000000000000000000000000000000000000000021\
         0000000000000000000000000000000000000000000000000000000000000000\
         0000000000000000000000000000000000000000000000000000000000000000",
    )
    .unwrap();
    assert_eq!(encode_executions(&vec![first_call(), second_call()]), Ok(expected));
}

#[test]
fn batch_order_changes_the_bytes() {
    let forward = encode_executions(&vec![first_call(), second_call()]).unwrap();
    let backward = encode_executions(&vec![second_call(), first_call()]).unwrap();
    assert_eq!(forward.len(), backward.len());
    assert_ne!(forward, backward);
}

#[test]
fn execute_selector_is_that_of_the_account_function() {
    assert_eq!(EXECUTE_SELECTOR[..], keccak256("execute(bytes32,bytes)")[..4]);
}

#[test]
fn mode_words_are_zero_and_one_then_zeros() {
    assert_eq!(ModeTag::Single.to_word(), [0u8; 32]);
    let mut batch = [0u8; 32];
    batch[0] = 1;
    assert_eq!(ModeTag::Batch.to_word(), batch);
}

#[test]
fn mode_follows_the_number_of_executions() {
    assert_eq!(ModeTag::for_len(1), ModeTag::Single);
    assert_eq!(ModeTag::for_len(0), ModeTag::Batch);
    assert_eq!(ModeTag::for_len(2), ModeTag::Batch);
    assert_eq!(ModeTag::for_len(usize::MAX), ModeTag::Batch);
}

#[test]
fn single_execution_decodes_back() {
    let call = encode_executions(&vec![first_call()]).unwrap();
    assert_eq!(&call[..4], &EXECUTE_SELECTOR);
    assert_eq!(&call[4..36], &[0u8; 32]);
    let payload_len = Number::from_be_slice(&call[68..100]).to::<usize>();
    let decoded = Execution {
        target: Address::new(call[100..120].try_into().unwrap()),
        value: U256::from_be_bytes(call[120..152].try_into().unwrap()),
        call_data: call[152..100 + payload_len].to_vec(),
    };
    assert_eq!(decoded, first_call());
}

#[test]
fn single_execution_without_call_data_is_52_bytes_of_payload() {
    let execution = Execution {
        target: Address::new([0x11; 20]),
        value: U256::from_u64(7),
        call_data: Vec::new(),
    };
    let call = encode_executions(&vec![execution]).unwrap();
    assert_eq!(Number::from_be_slice(&call[68..100]), Number::from(52u8));
    assert_eq!(call.len(), 4 + 32 + 32 + 32 + 64);
}

#[test]
fn batch_of_identical_executions_reads_the_same_in_any_order() {
    let batch = encode_executions(&vec![first_call(), first_call()]).unwrap();
    assert_eq!(&batch[4..36], &ModeTag::Batch.to_word());
    assert_eq!(batch, encode_executions(&vec![first_call(), first_call()]).unwrap());
}

#[test]
fn list_of_executions_encodes_itself() {
    let list = vec![first_call(), second_call()];
    assert_eq!(ExecutionBuilder::encode_executions(&list), encode_executions(&list));
    let empty: Vec<Execution> = Vec::new();
    assert_eq!(ExecutionBuilder::encode_executions(&empty), Err(AppError::EmptyBatch));
}

#[test]
fn builder_with_one_execution_encodes_in_single_mode() {
    let call = first_call();
    let builder = UserOpsBuilder::new().add_execution(call.target, call.value, call.call_data);
    assert_eq!(Ok(builder.encode_executions()), encode_executions(&vec![first_call()]));
}

#[test]
fn builder_with_more_executions_encodes_a_batch_in_order() {
    let (a, b) = (first_call(), second_call());
    let builder = UserOpsBuilder::new()
        .add_execution(a.target, a.value, a.call_data)
        .add_execution(b.target, b.value, b.call_data)
        .add_execution(a.target, a.value, first_call().call_data);
    assert_eq!(
        Ok(builder.encode_executions()),
        encode_executions(&vec![first_call(), second_call(), first_call()])
    );
}

#[test]
fn builder_builds_the_unsigned_operation() {
    let call = first_call();
    let sender = Address::new([0x99; 20]);
    let nonce = U256::from_u64(3);
    let operation = UserOpsBuilder::new()
        .add_execution(call.target, call.value, call.call_data)
        .build(sender, nonce);
    assert_eq!(Ok(operation), prepare_user_operation(sender, nonce, &vec![first_call()]));
}

#[test]
fn execute_operation_keeps_the_order_given() {
    let sender = Address::new([0x99; 20]);
    let nonce = U256::from_u64(3);
    for list in [
        vec![first_call()],
        vec![first_call(), second_call()],
        vec![second_call(), first_call(), second_call()],
    ] {
        let operation = execute_operation(sender, nonce, list.clone()).unwrap();
        assert_eq!(operation.call_data, encode_executions(&list).unwrap());
        assert_eq!(operation.sender, sender);
        assert_eq!(operation.nonce, nonce);
    }
}

#[test]
fn execute_operation_needs_something_to_execute() {
    let sender = Address::new([0x99; 20]);
    assert_eq!(
        execute_operation(sender, U256::zero(), Vec::new()),
        Err(AppError::EmptyBatch)
    );
}
