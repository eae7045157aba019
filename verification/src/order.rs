//! The order guard: decides on an order proposed to the trading venue, one
//! order at a time, with nothing kept between calls.

use crate::decimal::{decimal_digits, to_decimal};
use crate::error::ContractError;
use crate::msg::{Coin, DEXOrder};
use crate::response::{outcome_view, Response, ResponseView};
use crate::text::{ends_with, same_text, text_view};
use vstd::prelude::*;

verus! {

/// An order whose expected spending is this amount is refused.
pub const AMOUNT_DEX_EXPECT_TO_SPEND_TRIGGER: u128 = 103;

/// An order whose expected receipt is this amount is refused.
pub const AMOUNT_DEX_EXPECT_TO_RECEIVE_TRIGGER: u128 = 104;

/// An order whose identifier ends with this marker is refused.
pub const ID_DEX_ORDER_SUFFIX_TRIGGER: &'static str = "blocked";

/// The mathematical content of a [`DEXOrder`].
pub struct DEXOrderView {
    pub creator: Seq<char>,
    pub order_type: Seq<char>,
    pub id: Seq<char>,
    pub base_denom: Seq<char>,
    pub quote_denom: Seq<char>,
    pub price: Option<Seq<char>>,
    pub quantity: nat,
    pub side: Seq<char>,
}

impl View for DEXOrder {
    type V = DEXOrderView;

    open spec fn view(&self) -> DEXOrderView {
        DEXOrderView {
            creator: self.creator@,
            order_type: self.order_type@,
            id: self.id@,
            base_denom: self.base_denom@,
            quote_denom: self.quote_denom@,
            price: text_view(self.price),
            quantity: self.quantity as nat,
            side: self.side@,
        }
    }
}

/// Whether the guard refuses an order: its identifier ends with the marker,
/// or one of the two expected amounts is the decimal text of its trigger.
/// Price, quantity and the other fields play no part.
pub open spec fn order_refused(
    order: DEXOrderView,
    expected_to_spend: Seq<char>,
    expected_to_receive: Seq<char>,
) -> bool {
    ||| ID_DEX_ORDER_SUFFIX_TRIGGER@.is_suffix_of(order.id)
    ||| expected_to_spend == decimal_digits(AMOUNT_DEX_EXPECT_TO_SPEND_TRIGGER as nat)
    ||| expected_to_receive == decimal_digits(AMOUNT_DEX_EXPECT_TO_RECEIVE_TRIGGER as nat)
}

/// The JSON string literal of a text, quotes included, as `serde_json`
/// writes it.
pub uninterp spec fn json_string_literal(text: Seq<char>) -> Seq<char>;

/// `serde_json::to_string` on a string slice. Serialising a string slice
/// into memory has no way to fail, and the result depends on the text alone:
/// it is the text's JSON string literal.
#[verifier::external_body]
fn json_string(text: &str) -> (r: String)
    ensures
        r@ == json_string_literal(text@),
{
    serde_json::to_string(text).unwrap_or_default()
}

/// The JSON object of an order out of the JSON literals of its texts: the
/// fields in their fixed order, no white space, a missing price as `null`,
/// the quantity as a string of decimal digits.
pub open spec fn order_object(
    creator: Seq<char>,
    order_type: Seq<char>,
    id: Seq<char>,
    base_denom: Seq<char>,
    quote_denom: Seq<char>,
    price: Option<Seq<char>>,
    quantity: nat,
    side: Seq<char>,
) -> Seq<char> {
    "{\"creator\":"@ + creator + ",\"type\":"@ + order_type + ",\"id\":"@ + id
        + ",\"base_denom\":"@ + base_denom + ",\"quote_denom\":"@ + quote_denom + ",\"price\":"@
        + (match price {
        Some(p) => p,
        None => "null"@,
    }) + ",\"quantity\":\""@ + decimal_digits(quantity) + "\",\"side\":"@ + side + "}"@
}

/// The canonical JSON text of an order.
pub open spec fn order_json(order: DEXOrderView) -> Seq<char> {
    order_object(
        json_string_literal(order.creator),
        json_string_literal(order.order_type),
        json_string_literal(order.id),
        json_string_literal(order.base_denom),
        json_string_literal(order.quote_denom),
        match order.price {
            Some(p) => Some(json_string_literal(p)),
            None => None,
        },
        order.quantity,
        json_string_literal(order.side),
    )
}

/// The outcome of an accepted order: the order is echoed for the audit log.
pub open spec fn order_response(order: DEXOrderView) -> ResponseView {
    ResponseView::empty().with_attribute("method"@, "extension_place_order"@).with_attribute(
        "order_data"@,
        order_json(order),
    )
}

/// What the guard decides on an order.
pub open spec fn order_outcome(
    order: DEXOrderView,
    expected_to_spend: Seq<char>,
    expected_to_receive: Seq<char>,
) -> Result<ResponseView, ContractError> {
    if order_refused(order, expected_to_spend, expected_to_receive) {
        Err(ContractError::DEXOrderPlacementError)
    } else {
        Ok(order_response(order))
    }
}

/// Writes the JSON object of an order, given the JSON literals of its texts.
pub fn write_order_object(
    creator: &str,
    order_type: &str,
    id: &str,
    base_denom: &str,
    quote_denom: &str,
    price: &Option<String>,
    quantity: u128,
    side: &str,
) -> (r: String)
    ensures
        r@ == order_object(
            creator@,
            order_type@,
            id@,
            base_denom@,
            quote_denom@,
            text_view(*price),
            quantity as nat,
            side@,
        ),
{
    let mut r = String::from_str("{\"creator\":");
    r.append(creator);
    r.append(",\"type\":");
    r.append(order_type);
    r.append(",\"id\":");
    r.append(id);
    r.append(",\"base_denom\":");
    r.append(base_denom);
    r.append(",\"quote_denom\":");
    r.append(quote_denom);
    r.append(",\"price\":");
    match price {
        Some(p) => r.append(p.as_str()),
        None => r.append("null"),
    }
    r.append(",\"quantity\":\"");
    let digits = to_decimal(quantity);
    r.append(digits.as_str());
    r.append("\",\"side\":");
    r.append(side);
    r.append("}");
    r
}

/// The canonical JSON text of an order.
pub fn order_to_json(order: &DEXOrder) -> (r: String)
    ensures
        r@ == order_json(order@),
{
    let creator = json_string(order.creator.as_str());
    let order_type = json_string(order.order_type.as_str());
    let id = json_string(order.id.as_str());
    let base_denom = json_string(order.base_denom.as_str());
    let quote_denom = json_string(order.quote_denom.as_str());
    let price = match &order.price {
        Some(p) => Some(json_string(p.as_str())),
        None => None,
    };
    let side = json_string(order.side.as_str());
    write_order_object(
        creator.as_str(),
        order_type.as_str(),
        id.as_str(),
        base_denom.as_str(),
        quote_denom.as_str(),
        &price,
        order.quantity,
        side.as_str(),
    )
}

/// Whether the guard refuses an order.
pub fn is_order_refused(
    order: &DEXOrder,
    expected_to_spend: &Coin,
    expected_to_receive: &Coin,
) -> (r: bool)
    ensures
        r == order_refused(order@, expected_to_spend.amount@, expected_to_receive.amount@),
{
    ends_with(order.id.as_str(), ID_DEX_ORDER_SUFFIX_TRIGGER)
        || same_text(&expected_to_spend.amount, &to_decimal(AMOUNT_DEX_EXPECT_TO_SPEND_TRIGGER))
        || same_text(
        &expected_to_receive.amount,
        &to_decimal(AMOUNT_DEX_EXPECT_TO_RECEIVE_TRIGGER),
    )
}

/// Evaluates an order: refused with `DEXOrderPlacementError` where the guard
/// refuses it, else accepted with the order echoed as JSON.
pub fn sudo_extension_place_order(
    order: &DEXOrder,
    expected_to_spend: &Coin,
    expected_to_receive: &Coin,
) -> (r: Result<Response, ContractError>)
    ensures
        outcome_view(r) == order_outcome(
            order@,
            expected_to_spend.amount@,
            expected_to_receive.amount@,
        ),
{
    if is_order_refused(order, expected_to_spend, expected_to_receive) {
        return Err(ContractError::DEXOrderPlacementError);
    }
    let order_data = order_to_json(order);
    Ok(
        Response::new().add_attribute(
            "method",
            String::from_str("extension_place_order"),
        ).add_attribute("order_data", order_data),
    )
}

/// The two trigger amounts as the texts that the expected amounts are
/// compared with.
pub proof fn trigger_amounts_in_text()
    ensures
        decimal_digits(AMOUNT_DEX_EXPECT_TO_SPEND_TRIGGER as nat) == seq!['1', '0', '3'],
        decimal_digits(AMOUNT_DEX_EXPECT_TO_RECEIVE_TRIGGER as nat) == seq!['1', '0', '4'],
{
    reveal_with_fuel(decimal_digits, 3);
}

/// An order whose identifier ends with the marker is refused, whatever its
/// price, its quantity and every other input are.
pub proof fn marked_order_is_refused(
    order: DEXOrderView,
    expected_to_spend: Seq<char>,
    expected_to_receive: Seq<char>,
)
    requires
        ID_DEX_ORDER_SUFFIX_TRIGGER@.is_suffix_of(order.id),
    ensures
        order_outcome(order, expected_to_spend, expected_to_receive) == Err::<
            ResponseView,
            ContractError,
        >(ContractError::DEXOrderPlacementError),
{
}

} // verus!
