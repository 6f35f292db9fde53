use serde_json::Value;
use userop_encoder::primitives::{Address, U256};
use userop_encoder::safe::{DeploymentPlan, SAFE_PROXY_FACTORY};
use userop_encoder::user_operation::{assemble, GasOverrides, PackedUserOperation};

fn text(bytes: &[u8]) -> Value {
    Value::String(format!("0x{}", hex::encode(bytes)))
}

fn put(object: &mut serde_json::Map<String, Value>, name: &str, bytes: Option<&[u8]>) {
    if let Some(bytes) = bytes {
        object.insert(name.to_string(), text(bytes));
    }
}

fn to_json(operation: &PackedUserOperation) -> String {
    let o = operation;
    let mut object = serde_json::Map::new();
    put(&mut object, "sender", Some(&o.sender.bytes));
    put(&mut object, "nonce", Some(&o.nonce.bytes));
    put(&mut object, "factory", o.factory.as_ref().map(|a| &a.bytes[..]));
    put(&mut object, "factoryData", o.factory_data.as_deref());
    put(&mut object, "callData", Some(&o.call_data));
    put(&mut object, "callGasLimit", Some(&o.call_gas_limit.bytes));
    put(&mut object, "verificationGasLimit", Some(&o.verification_gas_limit.bytes));
    put(&mut object, "preVerificationGas", Some(&o.pre_verification_gas.bytes));
    put(&mut object, "maxFeePerGas", Some(&o.max_fee_per_gas.bytes));
    put(&mut object, "maxPriorityFeePerGas", Some(&o.max_priority_fee_per_gas.bytes));
    put(&mut object, "paymaster", o.paymaster.as_ref().map(|a| &a.bytes[..]));
    put(
        &mut object,
        "paymasterVerificationGasLimit",
        o.paymaster_verification_gas_limit.as_ref().map(|n| &n.bytes[..]),
    );
    put(
        &mut object,
        "paymasterPostOpGasLimit",
        o.paymaster_post_op_gas_limit.as_ref().map(|n| &n.bytes[..]),
    );
    put(&mut object, "paymasterData", o.paymaster_data.as_deref());
    put(&mut object, "signature", Some(&o.signature));
    serde_json::to_string(&Value::Object(object)).unwrap()
}

fn bytes(object: &serde_json::Map<String, Value>, name: &str) -> Option<Vec<u8>> {
    let text = object.get(name)?.as_str().unwrap();
    Some(hex::decode(text.strip_prefix("0x").unwrap()).unwrap())
}

fn address(object: &serde_json::Map<String, Value>, name: &str) -> Option<Address> {
    bytes(object, name).map(|b| Address::new(b.try_into().unwrap()))
}

fn number(object: &serde_json::Map<String, Value>, name: &str) -> Option<U256> {
    bytes(object, name).map(|b| U256::from_be_bytes(b.try_into().unwrap()))
}

fn from_json(json: &str) -> PackedUserOperation {
    let value: Value = serde_json::from_str(json).unwrap();
    let o = value.as_object().unwrap();
    PackedUserOperation {
        sender: address(o, "sender").unwrap(),
        nonce: number(o, "nonce").unwrap(),
        factory: address(o, "factory"),
        factory_data: bytes(o, "factoryData"),
        call_data: bytes(o, "callData").unwrap(),
        call_gas_limit: number(o, "callGasLimit").unwrap(),
        verification_gas_limit: number(o, "verificationGasLimit").unwrap(),
        pre_verification_gas: number(o, "preVerificationGas").unwrap(),
        max_fee_per_gas: number(o, "maxFeePerGas").unwrap(),
        max_priority_fee_per_gas: number(o, "maxPriorityFeePerGas").unwrap(),
        paymaster: address(o, "paymaster"),
        paymaster_verification_gas_limit: number(o, "paymasterVerificationGasLimit"),
        paymaster_post_op_gas_limit: number(o, "paymasterPostOpGasLimit"),
        paymaster_data: bytes(o, "paymasterData"),
        signature: bytes(o, "signature").unwrap(),
    }
}

#[test]
fn assembled_operation_survives_the_json_round_trip() {
    let sender = Address::new([0x43; 20]);
    let plan = DeploymentPlan {
        predicted_address: sender,
        factory_address: Address::new(SAFE_PROXY_FACTORY),
        factory_call_data: vec![0xfa, 0xc7, 0x00],
    };
    let overrides = GasOverrides {
        call_gas_limit: Some(U256::from_u64(21_000)),
        verification_gas_limit: None,
        pre_verification_gas: None,
        max_fee_per_gas: Some(U256::from_be_bytes([0xff; 32])),
        max_priority_fee_per_gas: None,
    };
    let operation =
        assemble(sender, U256::from_u64(1 << 40), vec![0xca, 0x11], Some(plan), overrides).unwrap();
    let json = to_json(&operation);
    assert!(json.contains("\"callData\":\"0xca11\""));
    assert!(!json.contains("paymasterData"));
    assert_eq!(from_json(&json), operation);
}

#[test]
fn operation_without_a_factory_survives_the_json_round_trip() {
    let operation = assemble(
        Address::new([0x12; 20]),
        U256::zero(),
        Vec::new(),
        None,
        GasOverrides::none(),
    )
    .unwrap();
    let json = to_json(&operation);
    assert!(!json.contains("factory"));
    let parsed = from_json(&json);
    assert_eq!(parsed, operation);
    assert_eq!(parsed.factory, None);
    assert!(parsed.signature.is_empty());
}
