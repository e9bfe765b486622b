use std::collections::HashSet;

use icpv_token::amounts::{AmountMap, Allowances, Balances};
use icpv_token::inspect::{classify_method, inspect_message, InspectOutcome, MethodArgs, MethodKind, Rejection};
use icpv_token::principal::Principal;
use icpv_token::types::StatsData;

fn principal(text: &str) -> Principal {
    Principal::from_bytes(candid::Principal::from_text(text).unwrap().as_slice().to_vec())
}

fn alice() -> Principal {
    principal("sgymv-uiaaa-aaaaa-aaaia-cai")
}

fn bob() -> Principal {
    principal("ai7t5-aibaq-aaaaa-aaaaa-c")
}

fn john() -> Principal {
    principal("hozae-racaq-aaaaa-aaaaa-c")
}

struct Fixture {
    stats: StatsData,
    balances: Balances,
    allowances: Allowances,
    notifications: HashSet<u128>,
    bids: AmountMap,
}

fn fixture() -> Fixture {
    let mut stats = StatsData::default();
    stats.owner = alice();
    let mut balances = Balances::new();
    balances.0.insert(bob(), 50);
    let mut allowances = Allowances::new();
    allowances.set(bob(), alice(), 30);
    let mut notifications = HashSet::new();
    notifications.insert(7u128);
    let mut bids = AmountMap::new();
    bids.insert(john(), 1_000);
    Fixture { stats, balances, allowances, notifications, bids }
}

fn check(f: &Fixture, method: &str, caller: &Principal, args: MethodArgs, auction_due: bool) -> InspectOutcome {
    let kind = classify_method(&method.to_string());
    inspect_message(
        kind,
        caller,
        &args,
        &f.stats,
        &f.balances,
        &f.allowances,
        &f.notifications,
        auction_due,
        &f.bids,
    )
}

#[test]
fn classify_all_lists() {
    for m in ["allowance", "getTransactions", "totalSupply", "owner", "historySize"] {
        assert_eq!(classify_method(&m.to_string()), MethodKind::Public);
    }
    for m in ["mint", "setFee", "setOwner", "setMinCycles"] {
        assert_eq!(classify_method(&m.to_string()), MethodKind::OwnerOnly);
    }
    for m in ["approve", "burn", "transfer", "transferAndNotify", "transferIncludeFee"] {
        assert_eq!(classify_method(&m.to_string()), MethodKind::Transaction);
    }
    assert_eq!(classify_method(&"transferFrom".to_string()), MethodKind::TransferFrom);
    assert_eq!(classify_method(&"notify".to_string()), MethodKind::Notify);
    assert_eq!(classify_method(&"runAuction".to_string()), MethodKind::RunAuction);
    assert_eq!(classify_method(&"bidCycles".to_string()), MethodKind::BidCycles);
    assert_eq!(classify_method(&"setfee".to_string()), MethodKind::Unlisted);
    assert_eq!(classify_method(&"".to_string()), MethodKind::Unlisted);
}

#[test]
fn inspect_queries_and_owner_methods() {
    let f = fixture();
    assert_eq!(check(&f, "balanceOf", &john(), MethodArgs::Unread, false), InspectOutcome::Accept);
    assert_eq!(check(&f, "setFee", &alice(), MethodArgs::Unread, false), InspectOutcome::Accept);
    assert_eq!(
        check(&f, "setFee", &bob(), MethodArgs::Unread, false),
        InspectOutcome::Reject(Rejection::NotOwner)
    );
}

#[test]
fn inspect_transaction_methods() {
    let f = fixture();
    assert_eq!(check(&f, "transfer", &bob(), MethodArgs::Unread, false), InspectOutcome::Accept);
    assert_eq!(
        check(&f, "transfer", &john(), MethodArgs::Unread, false),
        InspectOutcome::Reject(Rejection::NotStakeholder)
    );
}

#[test]
fn inspect_transfer_from() {
    // bob allowed alice to spend 30 of his tokens.
    let f = fixture();
    let ok = MethodArgs::TransferFrom { from: bob(), value: 30 };
    assert_eq!(check(&f, "transferFrom", &alice(), ok, false), InspectOutcome::Accept);
    let too_much = MethodArgs::TransferFrom { from: bob(), value: 31 };
    assert_eq!(
        check(&f, "transferFrom", &alice(), too_much, false),
        InspectOutcome::Reject(Rejection::AllowanceTooLow)
    );
    let other = MethodArgs::TransferFrom { from: john(), value: 1 };
    assert_eq!(
        check(&f, "transferFrom", &alice(), other, false),
        InspectOutcome::Reject(Rejection::NoAllowance)
    );
    let reversed = MethodArgs::TransferFrom { from: alice(), value: 1 };
    assert_eq!(
        check(&f, "transferFrom", &bob(), reversed, false),
        InspectOutcome::Reject(Rejection::NoAllowance)
    );
    let stranger = MethodArgs::TransferFrom { from: bob(), value: 1 };
    assert_eq!(
        check(&f, "transferFrom", &john(), stranger, false),
        InspectOutcome::Reject(Rejection::NoAllowance)
    );
}

#[test]
fn inspect_notify_auction_and_rest() {
    let f = fixture();
    assert_eq!(check(&f, "notify", &john(), MethodArgs::Notify { tx_id: 7 }, false), InspectOutcome::Accept);
    assert_eq!(
        check(&f, "notify", &john(), MethodArgs::Notify { tx_id: 8 }, false),
        InspectOutcome::Reject(Rejection::NoPendingNotification)
    );
    assert_eq!(check(&f, "runAuction", &john(), MethodArgs::Unread, true), InspectOutcome::Accept);
    assert_eq!(check(&f, "runAuction", &alice(), MethodArgs::Unread, true), InspectOutcome::Accept);
    assert_eq!(
        check(&f, "runAuction", &bob(), MethodArgs::Unread, true),
        InspectOutcome::Reject(Rejection::AuctionNotAllowed)
    );
    assert_eq!(
        check(&f, "runAuction", &alice(), MethodArgs::Unread, false),
        InspectOutcome::Reject(Rejection::AuctionNotAllowed)
    );
    assert_eq!(
        check(&f, "bidCycles", &alice(), MethodArgs::Unread, true),
        InspectOutcome::Reject(Rejection::CallWithCycles)
    );
    assert_eq!(
        check(&f, "dropTable", &alice(), MethodArgs::Unread, true),
        InspectOutcome::Reject(Rejection::UnlistedMethod)
    );
}
