//! Why an evaluation is rejected.

use vstd::prelude::*;

verus! {

/// The rejections of the extension. Each rejected evaluation ends in exactly
/// one of them, and the host aborts the whole transaction on it.
#[derive(Clone, Copy, Debug, PartialEq, Eq, Structural)]
pub enum ContractError {
    /// The transfer moves nothing.
    InvalidAmount,
    /// The token is frozen globally, or the account's frozen amount is no
    /// longer covered by its balance.
    FreezingError,
    /// The recipient would hold more than its whitelisted limit.
    WhitelistingError,
    /// The counterparty is a smart contract and the token blocks them.
    SmartContractBlocked,
    /// An outbound cross-chain transfer of a token without the IBC feature.
    IBCDisabled,
    /// A privileged operation without its feature and without the
    /// administrator's authority.
    FeatureDisabledError,
    /// The order guard refused the order.
    DEXOrderPlacementError,
    /// The ledger did not answer a query; never treated as a pass.
    QueryFailure,
}

impl ContractError {
    /// The text shown to the user for each rejection.
    pub open spec fn spec_message(self) -> Seq<char> {
        match self {
            ContractError::InvalidAmount => "Invalid amount."@,
            ContractError::FreezingError => "Requested transfer token is frozen."@,
            ContractError::WhitelistingError => "Whitelisted limit exceeded."@,
            ContractError::SmartContractBlocked =>
                "Transferring to or from smart contracts are prohibited."@,
            ContractError::IBCDisabled => "IBC feature is disabled."@,
            ContractError::FeatureDisabledError => "Feature is disabled."@,
            ContractError::DEXOrderPlacementError => "DEX order placement is failed."@,
            ContractError::QueryFailure => "Ledger query failed."@,
        }
    }

    /// The text shown to the user for this rejection.
    pub fn message(&self) -> (r: String)
        ensures
            r@ == self.spec_message(),
    {
        match self {
            ContractError::InvalidAmount => String::from_str("Invalid amount."),
            ContractError::FreezingError => String::from_str(
                "Requested transfer token is frozen.",
            ),
            ContractError::WhitelistingError => String::from_str("Whitelisted limit exceeded."),
            ContractError::SmartContractBlocked => String::from_str(
                "Transferring to or from smart contracts are prohibited.",
            ),
            ContractError::IBCDisabled => String::from_str("IBC feature is disabled."),
            ContractError::FeatureDisabledError => String::from_str("Feature is disabled."),
            ContractError::DEXOrderPlacementError => String::from_str(
                "DEX order placement is failed.",
            ),
            ContractError::QueryFailure => String::from_str("Ledger query failed."),
        }
    }
}

} // verus!
