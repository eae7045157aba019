use asset_extension::engine::Engine;
use asset_extension::error::ContractError;
use asset_extension::ledger::{BalanceSnapshot, LedgerAnswer, LedgerSnapshot, Query};
use asset_extension::msg::{IBCPurpose, TransferContext, TransferRequest};
use asset_extension::response::Operation;
use asset_extension::token::{Feature, Token};
use asset_extension::transfer::evaluate;

fn gold(features: Vec<Feature>) -> Token {
    Token {
        denom: "gold".to_string(),
        issuer: "issuer".to_string(),
        admin: Some("admin".to_string()),
        extension_address: Some("ext".to_string()),
        features,
        globally_frozen: false,
    }
}

fn balance(account: &str, available: u128, frozen: u128, limit: u128) -> BalanceSnapshot {
    BalanceSnapshot {
        account: account.to_string(),
        available: Some(available),
        frozen: Some(frozen),
        whitelisted_limit: Some(limit),
    }
}

fn snapshot(features: Vec<Feature>, balances: Vec<BalanceSnapshot>) -> LedgerSnapshot {
    LedgerSnapshot { denom: "gold".to_string(), token: Some(gold(features)), balances }
}

fn transfer(sender: &str, recipient: &str, amount: u128) -> TransferRequest {
    TransferRequest {
        recipient: recipient.to_string(),
        sender: sender.to_string(),
        transfer_amount: amount,
        commission_amount: 0,
        burn_amount: 0,
        context: TransferContext {
            sender_is_smart_contract: false,
            recipient_is_smart_contract: false,
            ibc_purpose: IBCPurpose::NotIbc,
        },
    }
}

fn ext() -> Engine {
    Engine::new("ext".to_string(), "gold".to_string())
}

#[test]
fn snapshot_evaluation_accepts_within_bounds() {
    let s = snapshot(
        vec![Feature::Freezing, Feature::Whitelisting, Feature::Ibc],
        vec![balance("alice", 100, 40, 0), balance("bob", 0, 0, 50)],
    );
    let r = evaluate(&ext(), transfer("alice", "bob", 30), &s).unwrap();
    assert_eq!(r.operations.len(), 1);
    match &r.operations[0] {
        Operation::Send { from, to, denom, amount } => {
            assert_eq!(from, "alice");
            assert_eq!(to, "bob");
            assert_eq!(denom, "gold");
            assert_eq!(*amount, 30);
        }
        other => panic!("not a send: {:?}", other),
    }
}

#[test]
fn snapshot_evaluation_rejects_over_the_limit() {
    let s = snapshot(
        vec![Feature::Freezing, Feature::Whitelisting, Feature::Ibc],
        vec![balance("alice", 100, 40, 0), balance("bob", 0, 0, 50)],
    );
    let r = evaluate(&ext(), transfer("alice", "bob", 60), &s);
    assert_eq!(r.err(), Some(ContractError::WhitelistingError));
}

#[test]
fn snapshot_evaluation_of_a_transfer_to_oneself() {
    let s = snapshot(
        vec![Feature::Freezing, Feature::Whitelisting, Feature::Ibc],
        vec![balance("alice", 100, 40, 130)],
    );
    assert!(evaluate(&ext(), transfer("alice", "alice", 30), &s).is_ok());
    let r = evaluate(&ext(), transfer("alice", "alice", 31), &s);
    assert_eq!(r.err(), Some(ContractError::WhitelistingError));
}

#[test]
fn snapshot_evaluation_fails_closed() {
    let mut s = snapshot(vec![Feature::Freezing, Feature::Ibc], vec![]);
    let r = evaluate(&ext(), transfer("alice", "bob", 30), &s);
    assert_eq!(r.err(), Some(ContractError::QueryFailure));
    s.balances.push(BalanceSnapshot {
        account: "alice".to_string(),
        available: Some(5),
        frozen: None,
        whitelisted_limit: Some(5),
    });
    let r = evaluate(&ext(), transfer("alice", "bob", 30), &s);
    assert_eq!(r.err(), Some(ContractError::QueryFailure));
    s.token = None;
    let r = evaluate(&ext(), transfer("alice", "bob", 30), &s);
    assert_eq!(r.err(), Some(ContractError::QueryFailure));
    assert_eq!(
        evaluate(&ext(), transfer("alice", "bob", 0), &s).err(),
        Some(ContractError::InvalidAmount)
    );
    assert!(evaluate(&ext(), transfer("alice", "ext", 3), &s).is_ok());
}

#[test]
fn snapshot_answers_from_the_first_entry_of_an_account() {
    let s = snapshot(vec![], vec![balance("alice", 1, 2, 3), balance("alice", 4, 5, 6)]);
    let q = Query::AvailableBalance { account: "alice".to_string(), denom: "gold".to_string() };
    assert!(matches!(s.answer(&q), LedgerAnswer::Amount(1)));
    let q = Query::FrozenBalance { account: "alice".to_string(), denom: "gold".to_string() };
    assert!(matches!(s.answer(&q), LedgerAnswer::Amount(2)));
    let q = Query::WhitelistedBalance { account: "alice".to_string(), denom: "gold".to_string() };
    assert!(matches!(s.answer(&q), LedgerAnswer::Amount(3)));
}

#[test]
fn snapshot_knows_one_denom_only() {
    let s = snapshot(vec![Feature::Ibc], vec![balance("alice", 1, 2, 3)]);
    let q = Query::AvailableBalance { account: "alice".to_string(), denom: "silver".to_string() };
    assert!(matches!(s.answer(&q), LedgerAnswer::Failure));
    let q = Query::AvailableBalance { account: "carol".to_string(), denom: "gold".to_string() };
    assert!(matches!(s.answer(&q), LedgerAnswer::Failure));
    let q = Query::Token { denom: "silver".to_string() };
    assert!(matches!(s.answer(&q), LedgerAnswer::Failure));
    let q = Query::Token { denom: "gold".to_string() };
    match s.answer(&q) {
        LedgerAnswer::Token(t) => {
            assert_eq!(t.denom, "gold");
            assert_eq!(t.issuer, "issuer");
            assert_eq!(t.admin, Some("admin".to_string()));
            assert_eq!(t.extension_address, Some("ext".to_string()));
            assert_eq!(t.features, vec![Feature::Ibc]);
            assert!(!t.globally_frozen);
        }
        _ => panic!("no descriptor"),
    }
    let other = Engine::new("ext".to_string(), "silver".to_string());
    assert_eq!(
        evaluate(&other, transfer("alice", "bob", 30), &s).err(),
        Some(ContractError::QueryFailure)
    );
}

#[test]
fn duplicates_keep_the_content() {
    let t = gold(vec![Feature::Minting, Feature::Burning, Feature::Minting]);
    let d = t.duplicate();
    assert_eq!(d.denom, t.denom);
    assert_eq!(d.issuer, t.issuer);
    assert_eq!(d.admin, t.admin);
    assert_eq!(d.extension_address, t.extension_address);
    assert_eq!(d.features, t.features);
    assert_eq!(d.globally_frozen, t.globally_frozen);
    let mut strict = ext();
    strict.check_sender_contract = true;
    assert_eq!(strict.duplicate(), strict);
}
