use alloy::primitives::keccak256;
use userop_encoder::error::AppError;
use userop_encoder::module_ops::{
    encode_install, encode_is_installed, encode_module_action, encode_uninstall, ModuleAction,
    INSTALL_MODULE_SELECTOR, IS_MODULE_INSTALLED_SELECTOR, UNINSTALL_MODULE_SELECTOR,
};
use userop_encoder::primitives::{Address, U256};

fn module() -> Address {
    Address::new([0x33; 20])
}

#[test]
fn selectors_are_those_of_the_account_functions() {
    assert_eq!(
        INSTALL_MODULE_SELECTOR[..],
        keccak256("installModule(uint256,address,bytes)")[..4]
    );
    assert_eq!(
        UNINSTALL_MODULE_SELECTOR[..],
        keccak256("uninstallModule(uint256,address,bytes)")[..4]
    );
    assert_eq!(
        IS_MODULE_INSTALLED_SELECTOR[..],
        keccak256("isModuleInstalled(uint256,address,bytes)")[..4]
    );
}

#[test]
fn install_appends_the_init_data_as_it_is() {
    let init_data = vec![1u8, 2, 3, 4, 5];
    let expected = hex::decode(
        "9517e29f\
         0000000000000000000000000000000000000000000000000000000000000001\
         0000000000000000000000003333333333333333333333333333333333333333\
         0102030405",
    )
    .unwrap();
    assert_eq!(encode_install(&vec![U256::from_u64(1)], &module(), &init_data), Ok(expected));
}

#[test]
fn install_begins_with_the_selector_and_ends_with_the_init_data() {
    let init_data: Vec<u8> = (0u8..45).collect();
    let call = encode_install(&vec![U256::from_u64(4)], &module(), &init_data).unwrap();
    assert_eq!(call.len(), 68 + init_data.len());
    assert_eq!(&call[..4], &INSTALL_MODULE_SELECTOR);
    assert_eq!(&call[call.len() - init_data.len()..], &init_data[..]);
}

#[test]
fn install_without_init_data_is_selector_and_two_words() {
    let call = encode_install(&vec![U256::from_u64(1)], &module(), &Vec::new()).unwrap();
    assert_eq!(call.len(), 68);
}

#[test]
fn install_is_not_the_standard_encoding() {
    let init_data = vec![1u8, 2, 3, 4, 5];
    let call = encode_install(&vec![U256::from_u64(1)], &module(), &init_data).unwrap();
    let standard = hex::decode(
        "9517e29f\
         0000000000000000000000000000000000000000000000000000000000000001\
         0000000000000000000000003333333333333333333333333333333333333333\
         0000000000000000000000000000000000000000000000000000000000000060\
         0000000000000000000000000000000000000000000000000000000000000005\
         0102030405000000000000000000000000000000000000000000000000000000",
    )
    .unwrap();
    assert_ne!(call, standard);
}

#[test]
fn uninstall_is_laid_out_like_install() {
    let expected = hex::decode(
        "a71763a8\
         0000000000000000000000000000000000000000000000000000000000000002\
         0000000000000000000000003333333333333333333333333333333333333333\
         aabb",
    )
    .unwrap();
    assert_eq!(
        encode_uninstall(&vec![U256::from_u64(2)], &module(), &vec![0xaa, 0xbb]),
        Ok(expected)
    );
}

#[test]
fn query_is_laid_out_like_install() {
    let expected = hex::decode(
        "112d3a7d\
         0000000000000000000000000000000000000000000000000000000000000001\
         0000000000000000000000003333333333333333333333333333333333333333",
    )
    .unwrap();
    assert_eq!(
        encode_is_installed(&vec![U256::from_u64(1)], &module(), &Vec::new()),
        Ok(expected)
    );
}

#[test]
fn no_module_type_is_refused() {
    let none: Vec<U256> = Vec::new();
    let error = Err(AppError::UnsupportedModuleTypeCount);
    assert_eq!(encode_install(&none, &module(), &vec![1]), error);
    assert_eq!(encode_uninstall(&none, &module(), &vec![1]), error);
    assert_eq!(encode_is_installed(&none, &module(), &vec![1]), error);
}

#[test]
fn several_module_types_are_refused() {
    let two = vec![U256::from_u64(1), U256::from_u64(2)];
    let error = Err(AppError::UnsupportedModuleTypeCount);
    assert_eq!(encode_install(&two, &module(), &vec![1]), error);
    assert_eq!(encode_uninstall(&two, &module(), &vec![1]), error);
    assert_eq!(encode_is_installed(&two, &module(), &vec![1]), error);
    assert_eq!(encode_module_action(ModuleAction::Install, &two, &module(), &vec![1]), error);
}

#[test]
fn action_picks_the_function() {
    let types = vec![U256::from_u64(1)];
    let data = vec![9u8, 8, 7];
    assert_eq!(
        encode_module_action(ModuleAction::Install, &types, &module(), &data),
        encode_install(&types, &module(), &data)
    );
    assert_eq!(
        encode_module_action(ModuleAction::Uninstall, &types, &module(), &data),
        encode_uninstall(&types, &module(), &data)
    );
}
