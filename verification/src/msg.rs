//! Messages that the host ledger sends to the extension.

use vstd::prelude::*;

verus! {

/// Which step of a cross-chain transfer a transfer belongs to, if any.
#[derive(Clone, Copy, Debug, PartialEq, Eq, Structural)]
pub enum IBCPurpose {
    /// Not part of a cross-chain transfer.
    NotIbc,
    /// Leaving for another chain: the recipient is the protocol's escrow.
    Out,
    /// Arriving from another chain: the sender is the protocol's escrow.
    In,
    /// Acknowledgement of an outbound transfer.
    Ack,
    /// Refund of an outbound transfer that timed out.
    Timeout,
}

/// What the host knows of the two parties and of the transfer's purpose.
#[derive(Clone, Copy, Debug, PartialEq, Eq, Structural)]
pub struct TransferContext {
    pub sender_is_smart_contract: bool,
    pub recipient_is_smart_contract: bool,
    pub ibc_purpose: IBCPurpose,
}

/// Data handed over when the token was issued.
#[derive(Clone, Debug, PartialEq)]
pub struct IssuanceMsg {
    pub extra_data: Option<String>,
}

/// Sets the extension up for one denom.
#[derive(Clone, Debug, PartialEq)]
pub struct InstantiateMsg {
    pub denom: String,
    pub issuance_msg: IssuanceMsg,
}

/// What the extension can be asked about itself.
#[derive(Clone, Copy, Debug, PartialEq, Eq, Structural)]
pub enum QueryMsg {
    /// The issuance data that the extension was set up with.
    QueryIssuanceMsg,
}

/// Answer to [`QueryMsg::QueryIssuanceMsg`].
#[derive(Clone, Debug, PartialEq)]
pub struct QueryIssuanceMsgResponse {
    pub test: Option<String>,
}

/// An amount of one denom, the amount in decimal text as the host sends it.
#[derive(Clone, Debug, PartialEq)]
pub struct Coin {
    pub denom: String,
    pub amount: String,
}

/// An order proposed to the trading venue.
#[derive(Clone, Debug, PartialEq)]
pub struct DEXOrder {
    pub creator: String,
    pub order_type: String,
    pub id: String,
    pub base_denom: String,
    pub quote_denom: String,
    pub price: Option<String>,
    pub quantity: u128,
    pub side: String,
}

/// One proposed transfer of the extension's denom.
#[derive(Clone, Debug, PartialEq)]
pub struct TransferRequest {
    pub recipient: String,
    pub sender: String,
    /// The amount to move; a transfer of nothing is rejected.
    pub transfer_amount: u128,
    /// The commission that the host computed; may be zero.
    pub commission_amount: u128,
    /// The amount that the host computed for burning; may be zero.
    pub burn_amount: u128,
    pub context: TransferContext,
}

/// The mathematical content of a [`TransferRequest`].
pub struct TransferRequestView {
    pub recipient: Seq<char>,
    pub sender: Seq<char>,
    pub transfer_amount: nat,
    pub commission_amount: nat,
    pub burn_amount: nat,
    pub context: TransferContext,
}

impl View for TransferRequest {
    type V = TransferRequestView;

    open spec fn view(&self) -> TransferRequestView {
        TransferRequestView {
            recipient: self.recipient@,
            sender: self.sender@,
            transfer_amount: self.transfer_amount as nat,
            commission_amount: self.commission_amount as nat,
            burn_amount: self.burn_amount as nat,
            context: self.context,
        }
    }
}

/// The two calls that the host makes.
#[derive(Clone, Debug, PartialEq)]
pub enum SudoMsg {
    /// Evaluate a transfer.
    ExtensionTransfer {
        recipient: String,
        sender: String,
        transfer_amount: u128,
        commission_amount: u128,
        burn_amount: u128,
        context: TransferContext,
    },
    /// Evaluate an order, with the amounts that the venue expects it to
    /// spend and to receive.
    ExtensionPlaceOrder { order: DEXOrder, expected_to_spend: Coin, expected_to_receive: Coin },
}

} // verus!
