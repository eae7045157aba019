//! The guards of the transfer pipeline. Each guard is switched on by the
//! token's flags, has a set of bypasses, and rejects with its own error.
//! They are tried in a fixed order and the first that rejects decides.

use crate::engine::{Engine, EngineView, Roles};
use crate::error::ContractError;
use crate::ledger::Ledger;
use crate::msg::{IBCPurpose, TransferContext, TransferRequest, TransferRequestView};
use crate::token::{Feature, Token, TokenView};
use vstd::prelude::*;

verus! {

/// A guard of the pipeline.
#[derive(Clone, Copy, Debug, PartialEq, Eq, Structural)]
pub enum Guard {
    Freezing,
    Whitelisting,
    SmartContract,
    Ibc,
}

/// Whether `account` has one of `roles` for the token.
pub open spec fn has_role(roles: Roles, token: TokenView, account: Seq<char>) -> bool {
    ||| roles.admin && token.is_admin(account)
    ||| roles.issuer && token.is_issuer(account)
    ||| roles.extension && token.is_extension(account)
}

/// Whether `account` has one of `roles` for the token.
pub fn holds_role(roles: Roles, token: &Token, account: &String) -> (r: bool)
    ensures
        r == has_role(roles, token@, account@),
{
    (roles.admin && token.is_admin(account))
        || (roles.issuer && token.is_issuer(account))
        || (roles.extension && token.is_extension(account))
}

/// The order in which the guards are tried.
pub open spec fn guard_order() -> Seq<Guard> {
    seq![Guard::Freezing, Guard::Whitelisting, Guard::SmartContract, Guard::Ibc]
}

impl Guard {
    /// Whether the token's flags switch the guard on. The first three are on
    /// when their flag is set; the IBC guard is on when the IBC flag is not.
    pub open spec fn enabled(self, token: TokenView) -> bool {
        match self {
            Guard::Freezing => token.has(Feature::Freezing),
            Guard::Whitelisting => token.has(Feature::Whitelisting),
            Guard::SmartContract => token.has(Feature::BlockSmartContracts),
            Guard::Ibc => !token.has(Feature::Ibc),
        }
    }

    /// The roles that the engine lets pass this guard.
    pub open spec fn bypass_roles(self, engine: EngineView) -> Roles {
        match self {
            Guard::Freezing => engine.bypasses.freezing,
            Guard::Whitelisting => engine.bypasses.whitelisting,
            Guard::SmartContract => engine.bypasses.smart_contract,
            Guard::Ibc => engine.bypasses.ibc,
        }
    }

    /// Whether the transfer's purpose exempts it from the guard: an inbound
    /// cross-chain transfer from the freezing guard, an outbound one from
    /// the whitelisting guard. In both the party that the guard would look
    /// at is the protocol's escrow.
    pub open spec fn exempts(self, purpose: IBCPurpose) -> bool {
        match self {
            Guard::Freezing => purpose == IBCPurpose::In,
            Guard::Whitelisting => purpose == IBCPurpose::Out,
            Guard::SmartContract => false,
            Guard::Ibc => false,
        }
    }

    /// Whether the request passes the guard unexamined: the recipient has
    /// one of the guard's bypass roles, or the purpose exempts the transfer.
    pub open spec fn bypassed(
        self,
        engine: EngineView,
        request: TransferRequestView,
        token: TokenView,
    ) -> bool {
        has_role(self.bypass_roles(engine), token, request.recipient) || self.exempts(
            request.context.ibc_purpose,
        )
    }

    /// Whether the guard examines the request: it is on and not bypassed.
    pub open spec fn applies(
        self,
        engine: EngineView,
        request: TransferRequestView,
        token: TokenView,
    ) -> bool {
        self.enabled(token) && !self.bypassed(engine, request, token)
    }

    /// Whether the token's flags switch the guard on.
    pub fn is_enabled(&self, token: &Token) -> (r: bool)
        ensures
            r == self.enabled(token@),
    {
        match self {
            Guard::Freezing => token.has_feature(Feature::Freezing),
            Guard::Whitelisting => token.has_feature(Feature::Whitelisting),
            Guard::SmartContract => token.has_feature(Feature::BlockSmartContracts),
            Guard::Ibc => !token.has_feature(Feature::Ibc),
        }
    }

    /// Whether the request passes the guard unexamined.
    pub fn is_bypassed(
        &self,
        engine: &Engine,
        request: &TransferRequest,
        token: &Token,
    ) -> (r: bool)
        ensures
            r == self.bypassed(engine@, request@, token@),
    {
        let roles = match self {
            Guard::Freezing => engine.bypasses.freezing,
            Guard::Whitelisting => engine.bypasses.whitelisting,
            Guard::SmartContract => engine.bypasses.smart_contract,
            Guard::Ibc => engine.bypasses.ibc,
        };
        let exempt = match self {
            Guard::Freezing => request.context.ibc_purpose == IBCPurpose::In,
            Guard::Whitelisting => request.context.ibc_purpose == IBCPurpose::Out,
            Guard::SmartContract => false,
            Guard::Ibc => false,
        };
        holds_role(roles, token, &request.recipient) || exempt
    }

    /// Whether the guard examines the request.
    pub fn does_apply(
        &self,
        engine: &Engine,
        request: &TransferRequest,
        token: &Token,
    ) -> (r: bool)
        ensures
            r == self.applies(engine@, request@, token@),
    {
        self.is_enabled(token) && !self.is_bypassed(engine, request, token)
    }
}

/// The frozen amount is no longer covered by the balance left after the
/// transfer.
pub open spec fn freezing_violated(available: nat, frozen: nat) -> bool {
    frozen > available
}

/// The balance after the transfer would exceed the limit.
pub open spec fn whitelisting_violated(amount: nat, available: nat, limit: nat) -> bool {
    amount + available > limit
}

/// A party that the guard looks at is a smart contract: the recipient, and
/// the sender too where the engine is set up so.
pub open spec fn smart_contract_violated(engine: EngineView, context: TransferContext) -> bool {
    context.recipient_is_smart_contract || (engine.check_sender_contract
        && context.sender_is_smart_contract)
}

/// The transfer leaves for another chain.
pub open spec fn ibc_violated(context: TransferContext) -> bool {
    context.ibc_purpose == IBCPurpose::Out
}

/// What the smart-contract guard decides: `None` where it lets the request
/// through.
pub open spec fn smart_contract_verdict(
    engine: EngineView,
    request: TransferRequestView,
    token: TokenView,
) -> Option<ContractError> {
    if Guard::SmartContract.applies(engine, request, token) && smart_contract_violated(
        engine,
        request.context,
    ) {
        Some(ContractError::SmartContractBlocked)
    } else {
        None
    }
}

/// What the IBC guard decides: `None` where it lets the request through.
pub open spec fn ibc_verdict(
    engine: EngineView,
    request: TransferRequestView,
    token: TokenView,
) -> Option<ContractError> {
    if Guard::Ibc.applies(engine, request, token) && ibc_violated(request.context) {
        Some(ContractError::IBCDisabled)
    } else {
        None
    }
}

/// A verdict as the result of a check.
pub open spec fn as_result(verdict: Option<ContractError>) -> Result<(), ContractError> {
    match verdict {
        Some(e) => Err(e),
        None => Ok(()),
    }
}

/// What `guard` decides on a request: `None` where it lets the request
/// through, else the rejection. The freezing guard reads the sender's
/// balances, the whitelisting guard the recipient's; a balance that the
/// ledger does not give rejects with `QueryFailure`.
pub open spec fn guard_verdict(
    guard: Guard,
    engine: EngineView,
    request: TransferRequestView,
    token: TokenView,
    ledger: Ledger,
) -> Option<ContractError> {
    if !guard.applies(engine, request, token) {
        None
    } else {
        match guard {
            Guard::Freezing => if token.globally_frozen {
                Some(ContractError::FreezingError)
            } else {
                match (
                    ledger.available(request.sender, token.denom),
                    ledger.frozen(request.sender, token.denom),
                ) {
                    (Some(available), Some(frozen)) => if freezing_violated(available, frozen) {
                        Some(ContractError::FreezingError)
                    } else {
                        None
                    },
                    _ => Some(ContractError::QueryFailure),
                }
            },
            Guard::Whitelisting => match (
                ledger.available(request.recipient, token.denom),
                ledger.whitelisted(request.recipient, token.denom),
            ) {
                (Some(available), Some(limit)) => if whitelisting_violated(
                    request.transfer_amount,
                    available,
                    limit,
                ) {
                    Some(ContractError::WhitelistingError)
                } else {
                    None
                },
                _ => Some(ContractError::QueryFailure),
            },
            Guard::SmartContract => smart_contract_verdict(engine, request, token),
            Guard::Ibc => ibc_verdict(engine, request, token),
        }
    }
}

/// The rejection of the first guard, from position `from` of the order on,
/// that does not let the request through; `None` where all of them do.
pub open spec fn first_rejection(
    engine: EngineView,
    request: TransferRequestView,
    token: TokenView,
    ledger: Ledger,
    from: nat,
) -> Option<ContractError>
    decreases guard_order().len() - from,
{
    if from >= guard_order().len() {
        None
    } else {
        match guard_verdict(guard_order()[from as int], engine, request, token, ledger) {
            Some(e) => Some(e),
            None => first_rejection(engine, request, token, ledger, from + 1),
        }
    }
}

/// Rejects where the frozen amount exceeds the available balance.
pub fn assert_freezing(available: u128, frozen: u128) -> (r: Result<(), ContractError>)
    ensures
        r == if freezing_violated(available as nat, frozen as nat) {
            Err::<(), ContractError>(ContractError::FreezingError)
        } else {
            Ok(())
        },
{
    if frozen > available {
        Err(ContractError::FreezingError)
    } else {
        Ok(())
    }
}

/// Rejects where the amount and the available balance together exceed the
/// limit. A sum beyond the machine's range exceeds every limit.
pub fn assert_whitelisting(
    amount: u128,
    available: u128,
    limit: u128,
) -> (r: Result<(), ContractError>)
    ensures
        r == if whitelisting_violated(amount as nat, available as nat, limit as nat) {
            Err::<(), ContractError>(ContractError::WhitelistingError)
        } else {
            Ok(())
        },
{
    match amount.checked_add(available) {
        Some(total) => {
            if total > limit {
                Err(ContractError::WhitelistingError)
            } else {
                Ok(())
            }
        },
        None => Err(ContractError::WhitelistingError),
    }
}

/// The smart-contract guard: where it applies, rejects a transfer to a smart
/// contract, and one from a smart contract where the engine is set up so.
pub fn assert_block_smart_contracts(
    engine: &Engine,
    request: &TransferRequest,
    token: &Token,
) -> (r: Result<(), ContractError>)
    ensures
        r == as_result(smart_contract_verdict(engine@, request@, token@)),
{
    if !Guard::SmartContract.does_apply(engine, request, token) {
        return Ok(());
    }
    if request.context.recipient_is_smart_contract || (engine.check_sender_contract
        && request.context.sender_is_smart_contract) {
        return Err(ContractError::SmartContractBlocked);
    }
    Ok(())
}

/// The IBC guard: where it applies, rejects a transfer that leaves for
/// another chain.
pub fn assert_ibc(
    engine: &Engine,
    request: &TransferRequest,
    token: &Token,
) -> (r: Result<(), ContractError>)
    ensures
        r == as_result(ibc_verdict(engine@, request@, token@)),
{
    if !Guard::Ibc.does_apply(engine, request, token) {
        return Ok(());
    }
    if request.context.ibc_purpose == IBCPurpose::Out {
        return Err(ContractError::IBCDisabled);
    }
    Ok(())
}

/// Where the freezing guard examines a request for a token that is not
/// frozen globally, it lets the request through exactly when the sender's
/// frozen amount does not exceed the sender's available balance; equal
/// amounts pass. Otherwise it rejects with `FreezingError`.
pub proof fn freezing_threshold(
    engine: EngineView,
    request: TransferRequestView,
    token: TokenView,
    ledger: Ledger,
    available: nat,
    frozen: nat,
)
    requires
        Guard::Freezing.applies(engine, request, token),
        !token.globally_frozen,
        ledger.available(request.sender, token.denom) == Some(available),
        ledger.frozen(request.sender, token.denom) == Some(frozen),
    ensures
        frozen <= available ==> guard_verdict(Guard::Freezing, engine, request, token, ledger)
            is None,
        frozen > available ==> guard_verdict(Guard::Freezing, engine, request, token, ledger)
            == Some(ContractError::FreezingError),
{
}

/// Where one of the two guards that read balances examines a request and
/// the ledger does not give a balance that the guard reads, the guard
/// rejects with `QueryFailure`: a missing answer never counts as a pass.
pub proof fn missing_balance_fails_closed(
    guard: Guard,
    engine: EngineView,
    request: TransferRequestView,
    token: TokenView,
    ledger: Ledger,
)
    requires
        guard.applies(engine, request, token),
        guard == Guard::Freezing ==> !token.globally_frozen && (ledger.available(
            request.sender,
            token.denom,
        ) is None || ledger.frozen(request.sender, token.denom) is None),
        guard == Guard::Whitelisting ==> ledger.available(request.recipient, token.denom) is None
            || ledger.whitelisted(request.recipient, token.denom) is None,
        guard == Guard::Freezing || guard == Guard::Whitelisting,
    ensures
        guard_verdict(guard, engine, request, token, ledger) == Some(ContractError::QueryFailure),
{
}

/// Where the whitelisting guard examines a request, it lets the request
/// through exactly when the amount and the recipient's available balance
/// together do not exceed the recipient's limit: a sum equal to the limit
/// passes, a sum one above it is rejected with `WhitelistingError`.
pub proof fn whitelisting_boundary(
    engine: EngineView,
    request: TransferRequestView,
    token: TokenView,
    ledger: Ledger,
    available: nat,
    limit: nat,
)
    requires
        Guard::Whitelisting.applies(engine, request, token),
        ledger.available(request.recipient, token.denom) == Some(available),
        ledger.whitelisted(request.recipient, token.denom) == Some(limit),
    ensures
        request.transfer_amount + available <= limit ==> guard_verdict(
            Guard::Whitelisting,
            engine,
            request,
            token,
            ledger,
        ) is None,
        request.transfer_amount + available > limit ==> guard_verdict(
            Guard::Whitelisting,
            engine,
            request,
            token,
            ledger,
        ) == Some(ContractError::WhitelistingError),
        request.transfer_amount + available == limit + 1 ==> guard_verdict(
            Guard::Whitelisting,
            engine,
            request,
            token,
            ledger,
        ) == Some(ContractError::WhitelistingError),
{
}

} // verus!
