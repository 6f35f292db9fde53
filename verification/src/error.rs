//! The failures that the encoders report.

use vstd::prelude::*;

verus! {

/// Why an encoder, the deployment planner or the assembler gave no result.
#[derive(Clone, Copy, Debug, PartialEq, Eq, Structural)]
pub enum AppError {
    /// No execution was given: there is no mode for an empty batch.
    EmptyBatch,
    /// A module call was asked for with no module type, or with several.
    UnsupportedModuleTypeCount,
    /// A read-only call to the chain did not complete.
    OracleUnavailable,
    /// The sender of an operation is not the address predicted for the
    /// account that the operation deploys.
    AddressMismatch,
    /// No validator was given where its nonce key is needed.
    ValidatorNotFound,
}

impl AppError {
    /// A sentence for the user.
    pub fn message(&self) -> (text: &'static str)
        ensures
            text@ == self.spec_message(),
    {
        match self {
            AppError::EmptyBatch => "No executions to encode",
            AppError::UnsupportedModuleTypeCount => "Exactly one module type is supported",
            AppError::OracleUnavailable => "A read-only contract call did not complete",
            AppError::AddressMismatch => "Sender differs from the predicted account address",
            AppError::ValidatorNotFound => "No validator address provided",
        }
    }

    pub open spec fn spec_message(&self) -> Seq<char> {
        match self {
            AppError::EmptyBatch => "No executions to encode"@,
            AppError::UnsupportedModuleTypeCount => "Exactly one module type is supported"@,
            AppError::OracleUnavailable => "A read-only contract call did not complete"@,
            AppError::AddressMismatch => "Sender differs from the predicted account address"@,
            AppError::ValidatorNotFound => "No validator address provided"@,
        }
    }
}

} // verus!
