//! Assembles the outcome of a transfer that every guard let through: the
//! primary send with the two fee operations, or one of the two overrides.

use crate::decimal::{decimal_digits, to_decimal};
use crate::engine::{Engine, EngineView};
use crate::error::ContractError;
use crate::msg::{TransferRequest, TransferRequestView};
use crate::response::{outcome_view, Operation, OperationView, Response, ResponseView};
use crate::token::{Feature, Token, TokenView};
use vstd::prelude::*;

verus! {

/// The transfer amount that is answered by a burn instead of a transfer.
pub const AMOUNT_BURNING_TRIGGER: u128 = 101;

/// The transfer amount that is answered by a mint and a refund instead of a
/// transfer.
pub const AMOUNT_MINTING_TRIGGER: u128 = 105;

/// The amount that an operation moves, creates or destroys.
pub open spec fn operation_amount(operation: OperationView) -> nat {
    match operation {
        OperationView::Send { amount, .. } => amount,
        OperationView::Mint { amount, .. } => amount,
        OperationView::Burn { amount, .. } => amount,
    }
}

/// The outcome of a transfer to the extension itself: accepted, nothing to
/// apply.
pub open spec fn self_recipient_response() -> ResponseView {
    ResponseView::empty().with_attribute("method"@, "execute_transfer"@).with_attribute(
        "skip_checks"@,
        "self_recipient"@,
    )
}

/// The send that carries the transfer itself.
pub open spec fn primary_send(request: TransferRequestView, token: TokenView) -> OperationView {
    OperationView::Send {
        from: request.sender,
        to: request.recipient,
        denom: token.denom,
        amount: request.transfer_amount,
    }
}

/// The administrator's share of a commission: half of it, rounded down. The
/// rest stays with the extension.
pub open spec fn admin_share(commission_amount: nat) -> nat {
    commission_amount / 2
}

/// Whether a commission leads to a send: the token has an administrator and
/// the administrator's share is not zero.
pub open spec fn pays_commission(token: TokenView, commission_amount: nat) -> bool {
    token.admin is Some && admin_share(commission_amount) > 0
}

/// The send of the administrator's share.
pub open spec fn commission_send(
    engine: EngineView,
    token: TokenView,
    commission_amount: nat,
) -> OperationView {
    OperationView::Send {
        from: engine.address,
        to: token.admin->0,
        denom: token.denom,
        amount: admin_share(commission_amount),
    }
}

/// `response` with the commission distributed.
pub open spec fn with_commission(
    response: ResponseView,
    engine: EngineView,
    token: TokenView,
    commission_amount: nat,
) -> ResponseView {
    if pays_commission(token, commission_amount) {
        response.with_attribute(
            "admin_send_commission_amount"@,
            decimal_digits(admin_share(commission_amount)),
        ).with_operation(commission_send(engine, token, commission_amount))
    } else {
        response
    }
}

/// The burn of a burn amount.
pub open spec fn fee_burn(token: TokenView, burn_amount: nat) -> OperationView {
    OperationView::Burn { denom: token.denom, amount: burn_amount }
}

/// `response` with the burn amount burnt, where there is one.
pub open spec fn with_burn(response: ResponseView, token: TokenView, burn_amount: nat) -> ResponseView {
    if burn_amount > 0 {
        response.with_attribute("burn_amount"@, decimal_digits(burn_amount)).with_operation(
            fee_burn(token, burn_amount),
        )
    } else {
        response
    }
}

/// The outcome of an ordinary transfer: the primary send, then the
/// commission send and the burn, each where its own condition holds.
pub open spec fn transfer_response(
    engine: EngineView,
    request: TransferRequestView,
    token: TokenView,
) -> ResponseView {
    with_burn(
        with_commission(
            ResponseView::empty().with_attribute("method"@, "execute_transfer"@).with_operation(
                primary_send(request, token),
            ),
            engine,
            token,
            request.commission_amount,
        ),
        token,
        request.burn_amount,
    )
}

/// The outcome of the burn override: one burn of the transfer amount.
pub open spec fn burning_response(amount: nat, token: TokenView) -> ResponseView {
    ResponseView::empty().with_attribute("method"@, "burn"@).with_operation(
        OperationView::Burn { denom: token.denom, amount },
    )
}

/// The outcome of the mint override: the amount minted to the recipient,
/// then the same amount sent back from the extension to the sender.
pub open spec fn minting_response(
    engine: EngineView,
    request: TransferRequestView,
    token: TokenView,
) -> ResponseView {
    ResponseView::empty().with_attribute("method"@, "mint"@).with_operation(
        OperationView::Mint {
            denom: token.denom,
            amount: request.transfer_amount,
            recipient: request.recipient,
        },
    ).with_operation(
        OperationView::Send {
            from: engine.address,
            to: request.sender,
            denom: token.denom,
            amount: request.transfer_amount,
        },
    )
}

/// Whether a privileged operation may go ahead: its feature is enabled, or
/// the sender is the token's administrator.
pub open spec fn authorized(token: TokenView, feature: Feature, sender: Seq<char>) -> bool {
    token.has(feature) || token.is_admin(sender)
}

/// What a transfer that passed every guard comes to. The two trigger
/// amounts lead to their override, or to `FeatureDisabledError` where the
/// override is not authorized; every other amount is an ordinary transfer.
pub open spec fn composed(
    engine: EngineView,
    request: TransferRequestView,
    token: TokenView,
) -> Result<ResponseView, ContractError> {
    if request.transfer_amount == AMOUNT_BURNING_TRIGGER {
        if authorized(token, Feature::Burning, request.sender) {
            Ok(burning_response(request.transfer_amount, token))
        } else {
            Err(ContractError::FeatureDisabledError)
        }
    } else if request.transfer_amount == AMOUNT_MINTING_TRIGGER {
        if authorized(token, Feature::Minting, request.sender) {
            Ok(minting_response(engine, request, token))
        } else {
            Err(ContractError::FeatureDisabledError)
        }
    } else {
        Ok(transfer_response(engine, request, token))
    }
}

/// The outcome of a transfer to the extension itself.
pub fn self_recipient() -> (r: Response)
    ensures
        r@ == self_recipient_response(),
{
    Response::new().add_attribute("method", String::from_str("execute_transfer")).add_attribute(
        "skip_checks",
        String::from_str("self_recipient"),
    )
}

/// Whether a privileged operation may go ahead.
pub fn is_authorized(token: &Token, feature: Feature, sender: &String) -> (r: bool)
    ensures
        r == authorized(token@, feature, sender@),
{
    token.has_feature(feature) || token.is_admin(sender)
}

/// The burn override.
pub fn assert_burning(
    sender: &String,
    amount: u128,
    token: &Token,
) -> (r: Result<Response, ContractError>)
    ensures
        outcome_view(r) == if authorized(token@, Feature::Burning, sender@) {
            Ok::<ResponseView, ContractError>(burning_response(amount as nat, token@))
        } else {
            Err(ContractError::FeatureDisabledError)
        },
{
    if !is_authorized(token, Feature::Burning, sender) {
        return Err(ContractError::FeatureDisabledError);
    }
    Ok(
        Response::new().add_attribute("method", String::from_str("burn")).add_message(
            Operation::Burn { denom: token.denom.clone(), amount },
        ),
    )
}

/// The mint override.
pub fn assert_minting(
    engine: &Engine,
    request: &TransferRequest,
    token: &Token,
) -> (r: Result<Response, ContractError>)
    ensures
        outcome_view(r) == if authorized(token@, Feature::Minting, request.sender@) {
            Ok::<ResponseView, ContractError>(minting_response(engine@, request@, token@))
        } else {
            Err(ContractError::FeatureDisabledError)
        },
{
    if !is_authorized(token, Feature::Minting, &request.sender) {
        return Err(ContractError::FeatureDisabledError);
    }
    Ok(
        Response::new().add_attribute("method", String::from_str("mint")).add_message(
            Operation::Mint {
                denom: token.denom.clone(),
                amount: request.transfer_amount,
                recipient: request.recipient.clone(),
            },
        ).add_message(
            Operation::Send {
                from: engine.address.clone(),
                to: request.sender.clone(),
                denom: token.denom.clone(),
                amount: request.transfer_amount,
            },
        ),
    )
}

/// Distributes a commission: half of it, rounded down, goes to the token's
/// administrator; without an administrator, or where that half is zero,
/// nothing is sent and the extension keeps it all.
pub fn assert_send_commission_rate(
    engine: &Engine,
    response: Response,
    token: &Token,
    commission_amount: u128,
) -> (r: Response)
    ensures
        r@ == with_commission(response@, engine@, token@, commission_amount as nat),
{
    match &token.admin {
        Some(admin) => {
            let admin_commission_amount = commission_amount / 2;
            if admin_commission_amount == 0 {
                return response;
            }
            response.add_attribute(
                "admin_send_commission_amount",
                to_decimal(admin_commission_amount),
            ).add_message(
                Operation::Send {
                    from: engine.address.clone(),
                    to: admin.clone(),
                    denom: token.denom.clone(),
                    amount: admin_commission_amount,
                },
            )
        },
        None => response,
    }
}

/// Burns the burn amount out of the extension's balance, where it is not
/// zero.
pub fn assert_burn_rate(response: Response, token: &Token, burn_amount: u128) -> (r: Response)
    ensures
        r@ == with_burn(response@, token@, burn_amount as nat),
{
    if burn_amount == 0 {
        return response;
    }
    response.add_attribute("burn_amount", to_decimal(burn_amount)).add_message(
        Operation::Burn { denom: token.denom.clone(), amount: burn_amount },
    )
}

/// The outcome of an ordinary transfer.
pub fn transfer(engine: &Engine, request: &TransferRequest, token: &Token) -> (r: Response)
    ensures
        r@ == transfer_response(engine@, request@, token@),
{
    let response = Response::new().add_attribute(
        "method",
        String::from_str("execute_transfer"),
    ).add_message(
        Operation::Send {
            from: request.sender.clone(),
            to: request.recipient.clone(),
            denom: token.denom.clone(),
            amount: request.transfer_amount,
        },
    );
    let response = assert_send_commission_rate(engine, response, token, request.commission_amount);
    assert_burn_rate(response, token, request.burn_amount)
}

/// What a transfer that passed every guard comes to.
pub fn compose(
    engine: &Engine,
    request: &TransferRequest,
    token: &Token,
) -> (r: Result<Response, ContractError>)
    ensures
        outcome_view(r) == composed(engine@, request@, token@),
{
    if request.transfer_amount == AMOUNT_BURNING_TRIGGER {
        assert_burning(&request.sender, request.transfer_amount, token)
    } else if request.transfer_amount == AMOUNT_MINTING_TRIGGER {
        assert_minting(engine, request, token)
    } else {
        Ok(transfer(engine, request, token))
    }
}

/// The operations of an ordinary transfer are the primary send, then the
/// commission send exactly where the token has an administrator whose share
/// is not zero, then the burn exactly where the burn amount is not zero.
/// Neither fee depends on the other or on the transfer amount.
pub proof fn fees_compose_independently(
    engine: EngineView,
    request: TransferRequestView,
    token: TokenView,
)
    ensures
        transfer_response(engine, request, token).operations == seq![
            primary_send(request, token),
        ] + (if pays_commission(token, request.commission_amount) {
            seq![commission_send(engine, token, request.commission_amount)]
        } else {
            Seq::<OperationView>::empty()
        }) + (if request.burn_amount > 0 {
            seq![fee_burn(token, request.burn_amount)]
        } else {
            Seq::<OperationView>::empty()
        }),
{
}

} // verus!
