//! Page requests and responses of the ledger's list queries.

use crate::text::text_view;
use vstd::prelude::*;

verus! {

/// Which page of a list query to return. Every field is optional: an absent
/// field leaves the choice to the ledger.
#[derive(Clone, Debug, PartialEq)]
pub struct PageRequest {
    pub key: Option<String>,
    pub offset: Option<u64>,
    pub limit: Option<u64>,
    pub count_total: Option<bool>,
    pub reverse: Option<bool>,
}

/// The mathematical content of a [`PageRequest`].
pub struct PageRequestView {
    pub key: Option<Seq<char>>,
    pub offset: Option<u64>,
    pub limit: Option<u64>,
    pub count_total: Option<bool>,
    pub reverse: Option<bool>,
}

impl View for PageRequest {
    type V = PageRequestView;

    open spec fn view(&self) -> PageRequestView {
        PageRequestView {
            key: text_view(self.key),
            offset: self.offset,
            limit: self.limit,
            count_total: self.count_total,
            reverse: self.reverse,
        }
    }
}

impl PageRequestView {
    /// The request that sets nothing.
    pub open spec fn empty() -> PageRequestView {
        PageRequestView { key: None, offset: None, limit: None, count_total: None, reverse: None }
    }
}

impl PageRequest {
    /// A request with no field set.
    pub fn new() -> (r: Self)
        ensures
            r@ == PageRequestView::empty(),
    {
        PageRequest { key: None, offset: None, limit: None, count_total: None, reverse: None }
    }

    /// Sets the key to continue from; the other fields are kept.
    pub fn key(self, key: String) -> (r: Self)
        ensures
            r@ == (PageRequestView { key: Some(key@), ..self@ }),
    {
        let mut r = self;
        r.key = Some(key);
        r
    }

    /// Sets the number of items to skip; the other fields are kept.
    pub fn offset(self, offset: u64) -> (r: Self)
        ensures
            r@ == (PageRequestView { offset: Some(offset), ..self@ }),
    {
        let mut r = self;
        r.offset = Some(offset);
        r
    }

    /// Sets the largest number of items to return; the other fields are kept.
    pub fn limit(self, limit: u64) -> (r: Self)
        ensures
            r@ == (PageRequestView { limit: Some(limit), ..self@ }),
    {
        let mut r = self;
        r.limit = Some(limit);
        r
    }

    /// Asks for the total count of items; the other fields are kept.
    pub fn count_total(self) -> (r: Self)
        ensures
            r@ == (PageRequestView { count_total: Some(true), ..self@ }),
    {
        let mut r = self;
        r.count_total = Some(true);
        r
    }

    /// Asks for the items in reverse order; the other fields are kept.
    pub fn reverse(self) -> (r: Self)
        ensures
            r@ == (PageRequestView { reverse: Some(true), ..self@ }),
    {
        let mut r = self;
        r.reverse = Some(true);
        r
    }
}

/// Where a list query stopped, and how many items there are in all.
#[derive(Clone, Debug, PartialEq)]
pub struct PageResponse {
    pub next_key: Option<String>,
    pub total: Option<u64>,
}

} // verus!
