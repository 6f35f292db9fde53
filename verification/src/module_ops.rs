//! Call data for installing, uninstalling and querying the modules of an
//! account.
//!
//! The target contracts read the module's data as the raw rest of the call
//! data: after the selector come the module type and the module address as
//! two words, and then the data as it is, with no offset, no length and no
//! padding.

use vstd::prelude::*;
use crate::error::AppError;
use crate::primitives::{Address, U256, address_word};
use crate::words::extend_bytes;

verus! {

/// Selector of `installModule(uint256,address,bytes)`.
pub const INSTALL_MODULE_SELECTOR: [u8; 4] = [0x95, 0x17, 0xe2, 0x9f];

/// Selector of `uninstallModule(uint256,address,bytes)`.
pub const UNINSTALL_MODULE_SELECTOR: [u8; 4] = [0xa7, 0x17, 0x63, 0xa8];

/// Selector of `isModuleInstalled(uint256,address,bytes)`.
pub const IS_MODULE_INSTALLED_SELECTOR: [u8; 4] = [0x11, 0x2d, 0x3a, 0x7d];

/// What to do with a module.
#[derive(Clone, Copy, Debug, PartialEq, Eq, Structural)]
pub enum ModuleAction {
    Install,
    Uninstall,
}

impl ModuleAction {
    /// The selector of the account function that carries out the action.
    pub open spec fn selector(self) -> Seq<u8> {
        match self {
            ModuleAction::Install => INSTALL_MODULE_SELECTOR@,
            ModuleAction::Uninstall => UNINSTALL_MODULE_SELECTOR@,
        }
    }
}

/// A module call: the selector, the module type as a word, the module
/// address as a word, and the data unchanged.
pub open spec fn module_call_data(
    selector: Seq<u8>,
    module_type_id: Seq<u8>,
    module: Seq<u8>,
    data: Seq<u8>,
) -> Seq<u8> {
    selector + module_type_id + address_word(module) + data
}

/// A module call begins with its selector and ends with its data, and holds
/// 68 bytes besides the data.
pub proof fn lemma_module_call_data_layout(
    selector: Seq<u8>,
    module_type_id: Seq<u8>,
    module: Seq<u8>,
    data: Seq<u8>,
)
    requires
        selector.len() == 4,
        module_type_id.len() == 32,
        module.len() == 20,
    ensures
        ({
            let call = module_call_data(selector, module_type_id, module, data);
            &&& call.len() == 68 + data.len()
            &&& call.subrange(0, 4) == selector
            &&& call.subrange(4, 36) == module_type_id
            &&& call.subrange(36, 68) == address_word(module)
            &&& call.subrange(68, call.len() as int) == data
        }),
{
    let call = module_call_data(selector, module_type_id, module, data);
    assert(call.subrange(0, 4) =~= selector);
    assert(call.subrange(4, 36) =~= module_type_id);
    assert(call.subrange(36, 68) =~= address_word(module));
    assert(call.subrange(68, call.len() as int) =~= data);
}

fn encode_module_call(selector: &[u8; 4], module_type_id: &U256, module: &Address, data: &Vec<u8>) -> (out:
    Vec<u8>)
    ensures
        out@ == module_call_data(selector@, module_type_id@, module@, data@),
{
    let mut out: Vec<u8> = Vec::new();
    extend_bytes(&mut out, selector.as_slice());
    extend_bytes(&mut out, module_type_id.bytes.as_slice());
    extend_bytes(&mut out, module.to_word().as_slice());
    extend_bytes(&mut out, data.as_slice());
    assert(out@ =~= module_call_data(selector@, module_type_id@, module@, data@));
    out
}

fn encode_for_types(selector: &[u8; 4], module_type_ids: &Vec<U256>, module: &Address, data: &Vec<u8>) -> (result:
    Result<Vec<u8>, AppError>)
    ensures
        module_type_ids@.len() != 1 ==> result == Err::<Vec<u8>, AppError>(
            AppError::UnsupportedModuleTypeCount,
        ),
        module_type_ids@.len() == 1 ==> result is Ok && result->Ok_0@ == module_call_data(
            selector@,
            module_type_ids@[0]@,
            module@,
            data@,
        ),
{
    if module_type_ids.len() != 1 {
        return Err(AppError::UnsupportedModuleTypeCount);
    }
    Ok(encode_module_call(selector, &module_type_ids[0], module, data))
}

/// Call data of `installModule` for one module type. It begins with the
/// selector and ends with `init_data` itself, unpadded. No module type, or
/// more than one, is refused.
pub fn encode_install(module_type_ids: &Vec<U256>, module: &Address, init_data: &Vec<u8>) -> (result:
    Result<Vec<u8>, AppError>)
    ensures
        module_type_ids@.len() != 1 ==> result == Err::<Vec<u8>, AppError>(
            AppError::UnsupportedModuleTypeCount,
        ),
        module_type_ids@.len() == 1 ==> {
            &&& result is Ok
            &&& result->Ok_0@ == module_call_data(
                INSTALL_MODULE_SELECTOR@,
                module_type_ids@[0]@,
                module@,
                init_data@,
            )
            &&& result->Ok_0@.len() == 68 + init_data@.len()
            &&& result->Ok_0@.subrange(0, 4) == INSTALL_MODULE_SELECTOR@
            &&& result->Ok_0@.subrange(68, 68 + init_data@.len() as int) == init_data@
        },
{
    proof {
        if module_type_ids@.len() == 1 {
            lemma_module_call_data_layout(
                INSTALL_MODULE_SELECTOR@,
                module_type_ids@[0]@,
                module@,
                init_data@,
            );
        }
    }
    encode_for_types(&INSTALL_MODULE_SELECTOR, module_type_ids, module, init_data)
}

/// Call data of `uninstallModule` for one module type, laid out as for
/// [`encode_install`].
pub fn encode_uninstall(module_type_ids: &Vec<U256>, module: &Address, deinit_data: &Vec<u8>) -> (result:
    Result<Vec<u8>, AppError>)
    ensures
        module_type_ids@.len() != 1 ==> result == Err::<Vec<u8>, AppError>(
            AppError::UnsupportedModuleTypeCount,
        ),
        module_type_ids@.len() == 1 ==> result is Ok && result->Ok_0@ == module_call_data(
            UNINSTALL_MODULE_SELECTOR@,
            module_type_ids@[0]@,
            module@,
            deinit_data@,
        ),
{
    encode_for_types(&UNINSTALL_MODULE_SELECTOR, module_type_ids, module, deinit_data)
}

/// Call data of the query `isModuleInstalled` for one module type, laid out
/// as for [`encode_install`].
pub fn encode_is_installed(
    module_type_ids: &Vec<U256>,
    module: &Address,
    additional_context: &Vec<u8>,
) -> (result: Result<Vec<u8>, AppError>)
    ensures
        module_type_ids@.len() != 1 ==> result == Err::<Vec<u8>, AppError>(
            AppError::UnsupportedModuleTypeCount,
        ),
        module_type_ids@.len() == 1 ==> result is Ok && result->Ok_0@ == module_call_data(
            IS_MODULE_INSTALLED_SELECTOR@,
            module_type_ids@[0]@,
            module@,
            additional_context@,
        ),
{
    encode_for_types(&IS_MODULE_INSTALLED_SELECTOR, module_type_ids, module, additional_context)
}

/// Call data for installing or uninstalling a module, as the action says.
pub fn encode_module_action(
    action: ModuleAction,
    module_type_ids: &Vec<U256>,
    module: &Address,
    data: &Vec<u8>,
) -> (result: Result<Vec<u8>, AppError>)
    ensures
        module_type_ids@.len() != 1 ==> result == Err::<Vec<u8>, AppError>(
            AppError::UnsupportedModuleTypeCount,
        ),
        module_type_ids@.len() == 1 ==> result is Ok && result->Ok_0@ == module_call_data(
            action.selector(),
            module_type_ids@[0]@,
            module@,
            data@,
        ),
{
    match action {
        ModuleAction::Install => encode_install(module_type_ids, module, data),
        ModuleAction::Uninstall => encode_uninstall(module_type_ids, module, data),
    }
}

} // verus!
