//! The errors that commands and queries report.

use cosmwasm_std::StdError;
use vstd::prelude::*;
use vstd::string::to_string_from_display_ensures;

verus! {

#[verifier::external_type_specification]
#[verifier::external_body]
pub struct ExStdError(StdError);

/// Why a command or a query failed.
#[derive(Debug, PartialEq)]
pub enum ContractError {
    /// A failure of the store or of address validation, handed on as it came,
    /// or the store's error for a key that cannot be built or a count that
    /// cannot grow.
    Std(StdError),
    /// The caller is not the administrator.
    Unauthorized {},
    /// The attached funds do not cover the fee.
    InsufficientFunds {},
    /// The record asked for does not exist; `kind` names it.
    NotFound { kind: String },
}

impl ContractError {
    /// The message that names the kind of the failure: for a failure handed
    /// on, the text that `Display` gives for it.
    pub fn message(&self) -> (text: String)
        ensures
            match self {
                ContractError::Std(e) => to_string_from_display_ensures::<StdError>(e, text),
                ContractError::Unauthorized {  } => text@ == "Unauthorized"@,
                ContractError::InsufficientFunds {  } => text@ == "Insufficient funds"@,
                ContractError::NotFound { kind } => text@ == kind@ + " not found"@,
            },
    {
        match self {
            ContractError::Std(e) => e.to_string(),
            ContractError::Unauthorized {  } => "Unauthorized".to_owned(),
            ContractError::InsufficientFunds {  } => "Insufficient funds".to_owned(),
            ContractError::NotFound { kind } => kind.clone().concat(" not found"),
        }
    }
}

} // verus!
