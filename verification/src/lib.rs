//! Transfer-policy extension engine for ledger-issued tokens, with the
//! message and query types it exchanges with the host ledger.

pub mod composer;
pub mod contract;
pub mod decimal;
pub mod engine;
pub mod error;
pub mod guards;
pub mod ledger;
pub mod msg;
pub mod order;
pub mod pagination;
pub mod response;
pub mod text;
pub mod token;
pub mod transfer;
