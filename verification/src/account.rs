//! The kinds of smart account that the tooling knows.

use vstd::prelude::*;
use crate::words::extend_bytes;

verus! {

/// The implementation behind a smart account.
#[derive(Clone, Copy, Debug, PartialEq, Eq, Structural)]
pub enum AccountType {
    Nexus,
    Safe7579,
    Kernel,
}

/// Selector of `accountId()`.
pub const ACCOUNT_ID_SELECTOR: [u8; 4] = [0x9c, 0xfd, 0x7c, 0xff];

/// Whether the code found at an address is that of a contract: an account
/// that has been deployed has code, one that has not has none.
pub fn is_contract(code: &[u8]) -> (deployed: bool)
    ensures
        deployed == (code@.len() > 0),
{
    code.len() > 0
}

/// The call data of the query `accountId()`: the selector alone.
pub fn account_id() -> (call_data: Vec<u8>)
    ensures
        call_data@ == ACCOUNT_ID_SELECTOR@,
{
    let mut call_data: Vec<u8> = Vec::new();
    extend_bytes(&mut call_data, ACCOUNT_ID_SELECTOR.as_slice());
    call_data
}

} // verus!
