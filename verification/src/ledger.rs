//! The read-only questions that the extension puts to the host ledger, and
//! a model of the ledger's answers.

use crate::text::same_text;
use crate::token::{Token, TokenView};
use vstd::prelude::*;

verus! {

/// A question to the host ledger. None of them changes anything there.
#[derive(Clone, Debug)]
pub enum Query {
    /// The descriptor of `denom`.
    Token { denom: String },
    /// What `account` can spend of `denom`, the transfer in flight already
    /// taken off.
    AvailableBalance { account: String, denom: String },
    /// What is locked of `denom` on `account`.
    FrozenBalance { account: String, denom: String },
    /// The most that `account` may hold of `denom`.
    WhitelistedBalance { account: String, denom: String },
}

/// The mathematical content of a [`Query`].
pub enum QueryView {
    Token { denom: Seq<char> },
    AvailableBalance { account: Seq<char>, denom: Seq<char> },
    FrozenBalance { account: Seq<char>, denom: Seq<char> },
    WhitelistedBalance { account: Seq<char>, denom: Seq<char> },
}

impl View for Query {
    type V = QueryView;

    open spec fn view(&self) -> QueryView {
        match self {
            Query::Token { denom } => QueryView::Token { denom: denom@ },
            Query::AvailableBalance { account, denom } => QueryView::AvailableBalance {
                account: account@,
                denom: denom@,
            },
            Query::FrozenBalance { account, denom } => QueryView::FrozenBalance {
                account: account@,
                denom: denom@,
            },
            Query::WhitelistedBalance { account, denom } =>
                QueryView::WhitelistedBalance { account: account@, denom: denom@ },
        }
    }
}

/// What came back for a question.
#[derive(Clone, Debug)]
pub enum LedgerAnswer {
    /// A token descriptor.
    Token(Token),
    /// An amount.
    Amount(u128),
    /// Nothing: the ledger could not be reached, or does not know the denom
    /// or the account.
    Failure,
}

/// The mathematical content of a [`LedgerAnswer`].
pub enum LedgerAnswerView {
    Token(TokenView),
    Amount(nat),
    Failure,
}

impl View for LedgerAnswer {
    type V = LedgerAnswerView;

    open spec fn view(&self) -> LedgerAnswerView {
        match self {
            LedgerAnswer::Token(t) => LedgerAnswerView::Token(t@),
            LedgerAnswer::Amount(a) => LedgerAnswerView::Amount(*a as nat),
            LedgerAnswer::Failure => LedgerAnswerView::Failure,
        }
    }
}

/// A ledger as the extension sees it during one evaluation: the answer it
/// gives to each question. The same question gets the same answer.
pub struct Ledger {
    pub answer: spec_fn(QueryView) -> LedgerAnswerView,
}

impl Ledger {
    /// The descriptor of `denom`, if the ledger gives one. An answer of
    /// another kind counts as none.
    pub open spec fn token(self, denom: Seq<char>) -> Option<TokenView> {
        match (self.answer)(QueryView::Token { denom }) {
            LedgerAnswerView::Token(t) => Some(t),
            _ => None,
        }
    }

    /// The amount that answers `query`, if the ledger gives one.
    pub open spec fn amount(self, query: QueryView) -> Option<nat> {
        match (self.answer)(query) {
            LedgerAnswerView::Amount(a) => Some(a),
            _ => None,
        }
    }

    /// The available balance of `account`.
    pub open spec fn available(self, account: Seq<char>, denom: Seq<char>) -> Option<nat> {
        self.amount(QueryView::AvailableBalance { account, denom })
    }

    /// The frozen balance of `account`.
    pub open spec fn frozen(self, account: Seq<char>, denom: Seq<char>) -> Option<nat> {
        self.amount(QueryView::FrozenBalance { account, denom })
    }

    /// The whitelisted limit of `account`.
    pub open spec fn whitelisted(self, account: Seq<char>, denom: Seq<char>) -> Option<nat> {
        self.amount(QueryView::WhitelistedBalance { account, denom })
    }
}

/// The balances of one account, as far as the ledger gives them.
#[derive(Clone, Debug)]
pub struct BalanceSnapshot {
    pub account: String,
    /// What the account can spend, the transfer in flight already taken off.
    pub available: Option<u128>,
    /// What is locked on the account.
    pub frozen: Option<u128>,
    /// The most that the account may hold.
    pub whitelisted_limit: Option<u128>,
}

/// The mathematical content of a [`BalanceSnapshot`].
pub struct BalanceSnapshotView {
    pub account: Seq<char>,
    pub available: Option<u128>,
    pub frozen: Option<u128>,
    pub whitelisted_limit: Option<u128>,
}

impl View for BalanceSnapshot {
    type V = BalanceSnapshotView;

    open spec fn view(&self) -> BalanceSnapshotView {
        BalanceSnapshotView {
            account: self.account@,
            available: self.available,
            frozen: self.frozen,
            whitelisted_limit: self.whitelisted_limit,
        }
    }
}

/// The answers of the ledger about one denom, gathered beforehand.
#[derive(Clone, Debug)]
pub struct LedgerSnapshot {
    pub denom: String,
    /// The denom's descriptor, if the ledger gives one.
    pub token: Option<Token>,
    /// The balances of the accounts that the ledger knows; where an account
    /// stands twice, the first entry counts.
    pub balances: Vec<BalanceSnapshot>,
}

/// The mathematical content of a [`LedgerSnapshot`].
pub struct LedgerSnapshotView {
    pub denom: Seq<char>,
    pub token: Option<TokenView>,
    pub balances: Seq<BalanceSnapshotView>,
}

impl View for LedgerSnapshot {
    type V = LedgerSnapshotView;

    open spec fn view(&self) -> LedgerSnapshotView {
        LedgerSnapshotView {
            denom: self.denom@,
            token: match self.token {
                Some(t) => Some(t@),
                None => None,
            },
            balances: Seq::new(self.balances@.len(), |i: int| self.balances@[i]@),
        }
    }
}

/// An optional amount as an answer.
pub open spec fn amount_answer(amount: Option<u128>) -> LedgerAnswerView {
    match amount {
        Some(a) => LedgerAnswerView::Amount(a as nat),
        None => LedgerAnswerView::Failure,
    }
}

impl LedgerSnapshotView {
    /// The first entry for `account` at position `from` or later.
    pub open spec fn find(self, account: Seq<char>, from: int) -> Option<BalanceSnapshotView>
        decreases self.balances.len() - from,
    {
        if from < 0 || from >= self.balances.len() {
            None
        } else if self.balances[from].account == account {
            Some(self.balances[from])
        } else {
            self.find(account, from + 1)
        }
    }

    /// The answer to a question: the descriptor where it is there and is the
    /// one of the denom asked for; an amount where the question is about the
    /// snapshot's denom and the account's entry holds the amount; else a
    /// failure.
    pub open spec fn answer(self, query: QueryView) -> LedgerAnswerView {
        match query {
            QueryView::Token { denom } => match self.token {
                Some(t) => if t.denom == denom {
                    LedgerAnswerView::Token(t)
                } else {
                    LedgerAnswerView::Failure
                },
                None => LedgerAnswerView::Failure,
            },
            QueryView::AvailableBalance { account, denom } => match self.find(account, 0) {
                Some(b) => if denom == self.denom {
                    amount_answer(b.available)
                } else {
                    LedgerAnswerView::Failure
                },
                None => LedgerAnswerView::Failure,
            },
            QueryView::FrozenBalance { account, denom } => match self.find(account, 0) {
                Some(b) => if denom == self.denom {
                    amount_answer(b.frozen)
                } else {
                    LedgerAnswerView::Failure
                },
                None => LedgerAnswerView::Failure,
            },
            QueryView::WhitelistedBalance { account, denom } => match self.find(account, 0) {
                Some(b) => if denom == self.denom {
                    amount_answer(b.whitelisted_limit)
                } else {
                    LedgerAnswerView::Failure
                },
                None => LedgerAnswerView::Failure,
            },
        }
    }

    /// The ledger that answers as the snapshot does.
    pub open spec fn ledger(self) -> Ledger {
        Ledger { answer: |query: QueryView| self.answer(query) }
    }
}

/// An optional amount as an answer.
fn answer_amount(amount: Option<u128>) -> (r: LedgerAnswer)
    ensures
        r@ == amount_answer(amount),
{
    match amount {
        Some(a) => LedgerAnswer::Amount(a),
        None => LedgerAnswer::Failure,
    }
}

impl LedgerSnapshot {
    /// The position of the first entry for `account`.
    fn position(&self, account: &String) -> (r: Option<usize>)
        ensures
            match r {
                Some(i) => i < self.balances@.len() && self@.find(account@, 0) == Some(
                    self.balances@[i as int]@,
                ),
                None => self@.find(account@, 0) is None,
            },
    {
        let mut i: usize = 0;
        while i < self.balances.len()
            invariant
                i <= self.balances.len(),
                self@.find(account@, 0) == self@.find(account@, i as int),
            decreases self.balances.len() - i,
        {
            if same_text(&self.balances[i].account, account) {
                return Some(i);
            }
            i += 1;
        }
        None
    }

    /// The snapshot's answer to a question.
    pub fn answer(&self, query: &Query) -> (r: LedgerAnswer)
        ensures
            r@ == self@.answer(query@),
            r@ == (self@.ledger().answer)(query@),
    {
        match query {
            Query::Token { denom } => match &self.token {
                Some(t) => {
                    if same_text(&t.denom, denom) {
                        LedgerAnswer::Token(t.duplicate())
                    } else {
                        LedgerAnswer::Failure
                    }
                },
                None => LedgerAnswer::Failure,
            },
            Query::AvailableBalance { account, denom } => match self.position(account) {
                Some(i) => {
                    if same_text(denom, &self.denom) {
                        answer_amount(self.balances[i].available)
                    } else {
                        LedgerAnswer::Failure
                    }
                },
                None => LedgerAnswer::Failure,
            },
            Query::FrozenBalance { account, denom } => match self.position(account) {
                Some(i) => {
                    if same_text(denom, &self.denom) {
                        answer_amount(self.balances[i].frozen)
                    } else {
                        LedgerAnswer::Failure
                    }
                },
                None => LedgerAnswer::Failure,
            },
            Query::WhitelistedBalance { account, denom } => match self.position(account) {
                Some(i) => {
                    if same_text(denom, &self.denom) {
                        answer_amount(self.balances[i].whitelisted_limit)
                    } else {
                        LedgerAnswer::Failure
                    }
                },
                None => LedgerAnswer::Failure,
            },
        }
    }
}

} // verus!
