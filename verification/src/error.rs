use vstd::prelude::*;

verus! {

/// `cosmwasm_std::StdError`, the error with which the host's services fail.
/// The escrow never looks inside one: it only hands it on.
#[verifier::external_type_specification]
#[verifier::external_body]
pub struct ExStdError(cosmwasm_std::StdError);

/// Why an escrow operation was turned down.
#[derive(Debug, PartialEq)]
pub enum ContractError {
    /// A service of the host failed; its error is handed on unchanged.
    Std(cosmwasm_std::StdError),
    /// The caller is not the party that may perform the operation.
    Unauthorized {},
    /// The funds sent along are not exactly the required deposit. `received`
    /// is zero unless exactly one coin of the right denomination was sent.
    InvalidDeposit { expected: u128, received: u128, denom: String },
    /// The escrow is not in the phase from which the operation starts.
    InvalidStatus {},
    /// The fee is above one hundred percent.
    InvalidFeePercentage {},
    /// The required deposit is zero.
    InvalidDepositAmount {},
    /// The contract holds less than the deposit it is meant to pay out.
    InsufficientFunds {},
}

/// A `ContractError` as a mathematical value.
pub enum ContractErrorView {
    Std(cosmwasm_std::StdError),
    Unauthorized,
    InvalidDeposit { expected: nat, received: nat, denom: Seq<char> },
    InvalidStatus,
    InvalidFeePercentage,
    InvalidDepositAmount,
    InsufficientFunds,
}

impl View for ContractError {
    type V = ContractErrorView;

    open spec fn view(&self) -> ContractErrorView {
        match *self {
            ContractError::Std(e) => ContractErrorView::Std(e),
            ContractError::Unauthorized {  } => ContractErrorView::Unauthorized,
            ContractError::InvalidDeposit { expected, received, denom } => {
                ContractErrorView::InvalidDeposit {
                    expected: expected as nat,
                    received: received as nat,
                    denom: denom@,
                }
            },
            ContractError::InvalidStatus {  } => ContractErrorView::InvalidStatus,
            ContractError::InvalidFeePercentage {  } => ContractErrorView::InvalidFeePercentage,
            ContractError::InvalidDepositAmount {  } => ContractErrorView::InvalidDepositAmount,
            ContractError::InsufficientFunds {  } => ContractErrorView::InsufficientFunds,
        }
    }
}

} // verus!
