//! The fixed configuration of one extension instance.

use vstd::prelude::*;

verus! {

/// The roles that an account can have for a token.
#[derive(Clone, Copy, Debug, PartialEq, Eq, Structural)]
pub struct Roles {
    /// The token's administrator.
    pub admin: bool,
    /// The token's issuer.
    pub issuer: bool,
    /// The extension that the token delegates to.
    pub extension: bool,
}

/// For each guard, the roles of a recipient that pass it unexamined.
#[derive(Clone, Copy, Debug, PartialEq, Eq, Structural)]
pub struct Bypasses {
    pub freezing: Roles,
    pub whitelisting: Roles,
    pub smart_contract: Roles,
    pub ibc: Roles,
}

impl Bypasses {
    /// The canonical bypasses: the administrator passes the freezing guard;
    /// administrator and issuer pass the whitelisting guard; issuer and
    /// extension pass the smart-contract guard; administrator and extension
    /// pass the IBC guard.
    pub open spec fn canonical() -> Bypasses {
        Bypasses {
            freezing: Roles { admin: true, issuer: false, extension: false },
            whitelisting: Roles { admin: true, issuer: true, extension: false },
            smart_contract: Roles { admin: false, issuer: true, extension: true },
            ibc: Roles { admin: true, issuer: false, extension: true },
        }
    }
}

/// What an extension instance is set up with, once; it holds nothing else
/// from one evaluation to the next.
#[derive(Clone, Debug, PartialEq)]
pub struct Engine {
    /// The extension's own account on the ledger.
    pub address: String,
    /// The denom whose transfers the extension evaluates.
    pub denom: String,
    /// Who passes which guard unexamined.
    pub bypasses: Bypasses,
    /// Whether the smart-contract guard also looks at the sender.
    pub check_sender_contract: bool,
}

/// The mathematical content of an [`Engine`].
pub struct EngineView {
    pub address: Seq<char>,
    pub denom: Seq<char>,
    pub bypasses: Bypasses,
    pub check_sender_contract: bool,
}

impl View for Engine {
    type V = EngineView;

    open spec fn view(&self) -> EngineView {
        EngineView {
            address: self.address@,
            denom: self.denom@,
            bypasses: self.bypasses,
            check_sender_contract: self.check_sender_contract,
        }
    }
}

impl EngineView {
    /// The canonical configuration for an address and a denom: the
    /// canonical bypasses, and a smart-contract guard that looks at the
    /// recipient only.
    pub open spec fn canonical(address: Seq<char>, denom: Seq<char>) -> EngineView {
        EngineView {
            address,
            denom,
            bypasses: Bypasses::canonical(),
            check_sender_contract: false,
        }
    }
}

impl Engine {
    /// The canonical configuration for an address and a denom.
    pub fn new(address: String, denom: String) -> (r: Self)
        ensures
            r@ == EngineView::canonical(address@, denom@),
    {
        Engine {
            address,
            denom,
            bypasses: Bypasses {
                freezing: Roles { admin: true, issuer: false, extension: false },
                whitelisting: Roles { admin: true, issuer: true, extension: false },
                smart_contract: Roles { admin: false, issuer: true, extension: true },
                ibc: Roles { admin: true, issuer: false, extension: true },
            },
            check_sender_contract: false,
        }
    }

    /// A second engine with the same configuration.
    pub fn duplicate(&self) -> (r: Self)
        ensures
            r@ == self@,
    {
        Engine {
            address: self.address.clone(),
            denom: self.denom.clone(),
            bypasses: self.bypasses,
            check_sender_contract: self.check_sender_contract,
        }
    }
}

} // verus!
