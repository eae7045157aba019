//! What an accepted evaluation hands back to the host: native operations to
//! apply, all or none, and text attributes for the audit log.

use crate::error::ContractError;
use vstd::prelude::*;

verus! {

/// A native operation. The extension only describes it; the host applies it.
#[derive(Clone, Debug)]
pub enum Operation {
    /// Move `amount` of `denom` from `from` to `to`.
    Send { from: String, to: String, denom: String, amount: u128 },
    /// Create `amount` of `denom` and credit it to `recipient`.
    Mint { denom: String, amount: u128, recipient: String },
    /// Destroy `amount` of `denom` out of the extension's own balance.
    Burn { denom: String, amount: u128 },
}

/// The mathematical content of an [`Operation`].
pub enum OperationView {
    Send { from: Seq<char>, to: Seq<char>, denom: Seq<char>, amount: nat },
    Mint { denom: Seq<char>, amount: nat, recipient: Seq<char> },
    Burn { denom: Seq<char>, amount: nat },
}

impl View for Operation {
    type V = OperationView;

    open spec fn view(&self) -> OperationView {
        match self {
            Operation::Send { from, to, denom, amount } => OperationView::Send {
                from: from@,
                to: to@,
                denom: denom@,
                amount: *amount as nat,
            },
            Operation::Mint { denom, amount, recipient } => OperationView::Mint {
                denom: denom@,
                amount: *amount as nat,
                recipient: recipient@,
            },
            Operation::Burn { denom, amount } => OperationView::Burn {
                denom: denom@,
                amount: *amount as nat,
            },
        }
    }
}

/// A key and a value for the audit log.
#[derive(Clone, Debug)]
pub struct Attribute {
    pub key: String,
    pub value: String,
}

/// The mathematical content of an [`Attribute`].
pub struct AttributeView {
    pub key: Seq<char>,
    pub value: Seq<char>,
}

impl View for Attribute {
    type V = AttributeView;

    open spec fn view(&self) -> AttributeView {
        AttributeView { key: self.key@, value: self.value@ }
    }
}

/// The outcome of an accepted evaluation.
#[derive(Clone, Debug)]
pub struct Response {
    pub attributes: Vec<Attribute>,
    pub operations: Vec<Operation>,
}

/// The mathematical content of a [`Response`].
pub struct ResponseView {
    pub attributes: Seq<AttributeView>,
    pub operations: Seq<OperationView>,
}

impl View for Response {
    type V = ResponseView;

    open spec fn view(&self) -> ResponseView {
        ResponseView {
            attributes: Seq::new(self.attributes@.len(), |i: int| self.attributes@[i]@),
            operations: Seq::new(self.operations@.len(), |i: int| self.operations@[i]@),
        }
    }
}

/// The mathematical content of an evaluation's outcome: the response where
/// it is accepted, the rejection where it is not.
pub open spec fn outcome_view(outcome: Result<Response, ContractError>) -> Result<
    ResponseView,
    ContractError,
> {
    match outcome {
        Ok(response) => Ok(response@),
        Err(e) => Err(e),
    }
}

impl ResponseView {
    /// The response with no attribute and no operation.
    pub open spec fn empty() -> ResponseView {
        ResponseView { attributes: Seq::empty(), operations: Seq::empty() }
    }

    /// This response with one more attribute at the end.
    pub open spec fn with_attribute(self, key: Seq<char>, value: Seq<char>) -> ResponseView {
        ResponseView {
            attributes: self.attributes.push(AttributeView { key, value }),
            operations: self.operations,
        }
    }

    /// This response with one more operation at the end.
    pub open spec fn with_operation(self, operation: OperationView) -> ResponseView {
        ResponseView {
            attributes: self.attributes,
            operations: self.operations.push(operation),
        }
    }
}

impl Response {
    /// A response with no attribute and no operation.
    pub fn new() -> (r: Self)
        ensures
            r@ == ResponseView::empty(),
    {
        let r = Response { attributes: Vec::new(), operations: Vec::new() };
        assert(r@.attributes =~= Seq::empty());
        assert(r@.operations =~= Seq::empty());
        r
    }

    /// Appends an attribute; the operations are kept.
    pub fn add_attribute(self, key: &str, value: String) -> (r: Self)
        ensures
            r@ == self@.with_attribute(key@, value@),
    {
        let mut r = self;
        r.attributes.push(Attribute { key: String::from_str(key), value });
        assert(r@.attributes =~= self@.with_attribute(key@, value@).attributes);
        assert(r@.operations =~= self@.operations);
        r
    }

    /// Appends an operation; the attributes are kept.
    pub fn add_message(self, operation: Operation) -> (r: Self)
        ensures
            r@ == self@.with_operation(operation@),
    {
        let mut r = self;
        r.operations.push(operation);
        assert(r@.operations =~= self@.with_operation(operation@).operations);
        assert(r@.attributes =~= self@.attributes);
        r
    }
}

} // verus!
