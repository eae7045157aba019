//! The entry point for the host's calls.

use crate::engine::{Engine, EngineView};
use crate::msg::{SudoMsg, TransferRequest, TransferRequestView};
use crate::order::{order_outcome, sudo_extension_place_order};
use crate::transfer::{first_step, sudo_extension_transfer, Step, StepView};
use vstd::prelude::*;

verus! {

/// The step that a call of the host begins with: a transfer starts an
/// evaluation, an order is decided at once.
pub open spec fn sudo_step(engine: EngineView, msg: SudoMsg) -> StepView {
    match msg {
        SudoMsg::ExtensionTransfer {
            recipient,
            sender,
            transfer_amount,
            commission_amount,
            burn_amount,
            context,
        } => first_step(
            engine,
            TransferRequestView {
                recipient: recipient@,
                sender: sender@,
                transfer_amount: transfer_amount as nat,
                commission_amount: commission_amount as nat,
                burn_amount: burn_amount as nat,
                context,
            },
        ),
        SudoMsg::ExtensionPlaceOrder { order, expected_to_spend, expected_to_receive } => {
            StepView::Finish(
                order_outcome(order@, expected_to_spend.amount@, expected_to_receive.amount@),
            )
        },
    }
}

/// Takes a call of the host.
pub fn sudo(engine: &Engine, msg: SudoMsg) -> (r: Step)
    ensures
        r@ == sudo_step(engine@, msg),
{
    match msg {
        SudoMsg::ExtensionTransfer {
            recipient,
            sender,
            transfer_amount,
            commission_amount,
            burn_amount,
            context,
        } => sudo_extension_transfer(
            engine,
            TransferRequest {
                recipient,
                sender,
                transfer_amount,
                commission_amount,
                burn_amount,
                context,
            },
        ),
        SudoMsg::ExtensionPlaceOrder { order, expected_to_spend, expected_to_receive } => {
            Step::Finish(
                sudo_extension_place_order(&order, &expected_to_spend, &expected_to_receive),
            )
        },
    }
}

} // verus!
