//! The token descriptor: the policy metadata of one denom, as the ledger's
//! registry reports it.

use crate::text::{duplicate_text, is_text, same_text, text_view};
use vstd::prelude::*;

verus! {

/// A policy flag of a token. Flags are independent of one another; a flag
/// that is not enabled switches its rule off.
#[derive(Clone, Copy, Debug, PartialEq, Eq, Structural)]
pub enum Feature {
    Minting,
    Burning,
    Freezing,
    Whitelisting,
    Ibc,
    BlockSmartContracts,
}

/// Snapshot of a token's policy metadata, fetched anew for every evaluation
/// and never changed by the extension.
#[derive(Clone, Debug)]
pub struct Token {
    /// The token's unique identifier.
    pub denom: String,
    /// The account that created the token.
    pub issuer: String,
    /// The account with elevated rights over the token, if there is one.
    pub admin: Option<String>,
    /// The account of the extension that the token delegates its policy to.
    pub extension_address: Option<String>,
    /// The enabled policy flags, in any order, repetitions allowed.
    pub features: Vec<Feature>,
    /// Whether every transfer of the token is frozen.
    pub globally_frozen: bool,
}

/// The mathematical content of a [`Token`].
pub struct TokenView {
    pub denom: Seq<char>,
    pub issuer: Seq<char>,
    pub admin: Option<Seq<char>>,
    pub extension_address: Option<Seq<char>>,
    pub features: Set<Feature>,
    pub globally_frozen: bool,
}

impl View for Token {
    type V = TokenView;

    open spec fn view(&self) -> TokenView {
        TokenView {
            denom: self.denom@,
            issuer: self.issuer@,
            admin: text_view(self.admin),
            extension_address: text_view(self.extension_address),
            features: self.features@.to_set(),
            globally_frozen: self.globally_frozen,
        }
    }
}

impl TokenView {
    /// Whether `feature` is enabled.
    pub open spec fn has(self, feature: Feature) -> bool {
        self.features.contains(feature)
    }

    /// Whether `account` is the token's administrator.
    pub open spec fn is_admin(self, account: Seq<char>) -> bool {
        self.admin == Some(account)
    }

    /// Whether `account` is the token's issuer.
    pub open spec fn is_issuer(self, account: Seq<char>) -> bool {
        self.issuer == account
    }

    /// Whether `account` is the extension that the token delegates to.
    pub open spec fn is_extension(self, account: Seq<char>) -> bool {
        self.extension_address == Some(account)
    }
}

impl Token {
    /// A second descriptor with the same content.
    pub fn duplicate(&self) -> (r: Self)
        ensures
            r@ == self@,
    {
        let mut features: Vec<Feature> = Vec::new();
        let mut i: usize = 0;
        while i < self.features.len()
            invariant
                i <= self.features.len(),
                features@ == self.features@.subrange(0, i as int),
            decreases self.features.len() - i,
        {
            features.push(self.features[i]);
            assert(features@ =~= self.features@.subrange(0, i + 1));
            i += 1;
        }
        assert(features@ =~= self.features@);
        Token {
            denom: self.denom.clone(),
            issuer: self.issuer.clone(),
            admin: duplicate_text(&self.admin),
            extension_address: duplicate_text(&self.extension_address),
            features,
            globally_frozen: self.globally_frozen,
        }
    }

    /// Whether `feature` is enabled.
    pub fn has_feature(&self, feature: Feature) -> (r: bool)
        ensures
            r == self@.has(feature),
    {
        let mut i: usize = 0;
        while i < self.features.len()
            invariant
                i <= self.features.len(),
                forall|j: int| 0 <= j < i ==> self.features@[j] != feature,
            decreases self.features.len() - i,
        {
            if self.features[i] == feature {
                assert(self.features@.contains(feature));
                return true;
            }
            i += 1;
        }
        assert(!self.features@.contains(feature));
        false
    }

    /// Whether `account` is the token's administrator.
    pub fn is_admin(&self, account: &String) -> (r: bool)
        ensures
            r == self@.is_admin(account@),
    {
        is_text(&self.admin, account)
    }

    /// Whether `account` is the token's issuer.
    pub fn is_issuer(&self, account: &String) -> (r: bool)
        ensures
            r == self@.is_issuer(account@),
    {
        same_text(&self.issuer, account)
    }

    /// Whether `account` is the extension that the token delegates to.
    pub fn is_extension(&self, account: &String) -> (r: bool)
        ensures
            r == self@.is_extension(account@),
    {
        is_text(&self.extension_address, account)
    }
}

} // verus!
