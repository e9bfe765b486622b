use icpv_token::amounts::{Allowances, Balances};
use icpv_token::api::{
    allowance, balance_of, check_caller_is_owner, get_metadata, get_transaction, get_transactions,
    get_user_transaction_amount, get_user_transactions, history_size, set_fee, set_fee_to, set_logo, set_name,
    set_owner, MAX_TRANSACTION_QUERY_LEN,
};
use icpv_token::designation::DesignationList;
use icpv_token::ledger::Ledger;
use icpv_token::principal::Principal;
use icpv_token::types::{Operation, StatsData, TransactionStatus, TxError};

const NOW: u64 = 1_700_000_000_000_000_000;

fn principal(text: &str) -> Principal {
    Principal::from_bytes(candid::Principal::from_text(text).unwrap().as_slice().to_vec())
}

fn alice() -> Principal {
    principal("sgymv-uiaaa-aaaaa-aaaia-cai")
}

fn bob() -> Principal {
    principal("ai7t5-aibaq-aaaaa-aaaaa-c")
}

fn john() -> Principal {
    principal("hozae-racaq-aaaaa-aaaaa-c")
}

/// A token whose owner, alice, minted 1000 tokens to herself.
fn init_context() -> (StatsData, Ledger, DesignationList) {
    let mut stats = StatsData::default();
    stats.owner = alice();
    stats.fee_to = alice();
    stats.name = "Token".to_string();
    stats.symbol = "TKN".to_string();
    stats.decimals = 8;
    stats.total_supply = 1000;
    let mut ledger = Ledger::new();
    let mut designations = DesignationList::new();
    ledger.mint(&mut designations, alice(), alice(), 1000, NOW);
    (stats, ledger, designations)
}

#[test]
fn get_transactions_test() {
    let (_stats, mut ledger, _dl) = init_context();
    const COUNT: usize = 5;
    for _ in 0..COUNT {
        ledger.transfer(alice(), bob(), 10, 0, NOW);
    }

    let txs = get_transactions(&ledger, 0, 2);
    assert_eq!(txs.len(), 2);
    assert_eq!(txs[1].index, 1);

    let txs = get_transactions(&ledger, COUNT as u128, 2);
    assert_eq!(txs.len(), 1);
    assert_eq!(txs[0].index, COUNT as u128);
}

#[test]
fn get_transactions_at_the_limit() {
    let (_stats, mut ledger, _dl) = init_context();
    for _ in 0..3 {
        ledger.transfer(alice(), bob(), 10, 0, NOW);
    }
    let txs = get_transactions(&ledger, 0, MAX_TRANSACTION_QUERY_LEN as u128);
    assert_eq!(txs.len(), 4);
    for (i, tx) in txs.iter().enumerate() {
        assert_eq!(tx.index, i as u128);
    }
    let txs = get_transactions(&ledger, 10, 5);
    assert!(txs.is_empty());
    let txs = get_transactions(&ledger, 1, 0);
    assert!(txs.is_empty());
}

#[test]
fn get_transaction_existing() {
    let (_stats, mut ledger, _dl) = init_context();
    let id = ledger.transfer(alice(), bob(), 25, 2, NOW);
    assert_eq!(id, 1);
    let tx = get_transaction(&ledger, id);
    assert_eq!(tx.index, 1);
    assert_eq!(tx.from, alice());
    assert_eq!(tx.to, bob());
    assert_eq!(tx.caller, Some(alice()));
    assert_eq!(tx.amount, 25);
    assert_eq!(tx.fee, 2);
    assert_eq!(tx.operation, Operation::Transfer);
    assert_eq!(tx.status, TransactionStatus::Succeeded);
    assert_eq!(tx.timestamp, NOW);
    let mint = get_transaction(&ledger, 0);
    assert_eq!(mint.operation, Operation::Mint);
    assert_eq!(mint.fee, 0);
}

#[test]
fn history_size_counts_records() {
    let (_stats, mut ledger, _dl) = init_context();
    assert_eq!(history_size(&ledger), 1);
    ledger.burn(alice(), 5, NOW);
    ledger.approve(alice(), bob(), 7, 1, NOW);
    assert_eq!(history_size(&ledger), 3);
}

#[test]
fn balance_of_defaults_to_zero() {
    let mut balances = Balances::new();
    balances.0.insert(alice(), 990);
    balances.0.insert(bob(), 10);
    assert_eq!(balance_of(&balances, &alice()), 990);
    assert_eq!(balance_of(&balances, &bob()), 10);
    assert_eq!(balance_of(&balances, &john()), 0);
    balances.0.insert(bob(), 3);
    assert_eq!(balance_of(&balances, &bob()), 3);
}

#[test]
fn allowance_read_after_set() {
    let mut allowances = Allowances::new();
    assert_eq!(allowance(&allowances, &alice(), &bob()), 0);
    allowances.set(alice(), bob(), 100);
    allowances.set(alice(), john(), 5);
    assert_eq!(allowance(&allowances, &alice(), &bob()), 100);
    assert_eq!(allowance(&allowances, &alice(), &john()), 5);
    assert_eq!(allowance(&allowances, &bob(), &alice()), 0);
    allowances.set(alice(), bob(), 40);
    assert_eq!(allowance(&allowances, &alice(), &bob()), 40);
    assert_eq!(allowance(&allowances, &alice(), &john()), 5);
}

#[test]
fn get_metadata_copies_stats() {
    let (stats, _ledger, _dl) = init_context();
    let m = get_metadata(&stats);
    assert_eq!(m.name, "Token");
    assert_eq!(m.symbol, "TKN");
    assert_eq!(m.decimals, 8);
    assert_eq!(m.totalSupply, 1000);
    assert_eq!(m.owner, alice());
    assert_eq!(m.feeTo, alice());
    assert_eq!(m.fee, 0);
    assert_eq!(m.logo, "");
}

#[test]
fn owner_checks() {
    let (stats, _ledger, _dl) = init_context();
    assert_eq!(check_caller_is_owner(&stats, &alice()), Ok(()));
    assert_eq!(check_caller_is_owner(&stats, &bob()), Err(TxError::Unauthorized));
}

#[test]
fn owner_settings() {
    let (mut stats, _ledger, _dl) = init_context();
    set_fee(&mut stats, &alice(), 3);
    assert_eq!(get_metadata(&stats).fee, 3);
    set_name(&mut stats, &alice(), "Renamed".to_string());
    set_logo(&mut stats, &alice(), "logo.png".to_string());
    set_fee_to(&mut stats, &alice(), john());
    assert_eq!(stats.name, "Renamed");
    assert_eq!(stats.logo, "logo.png");
    assert_eq!(stats.fee_to, john());
    assert_eq!(stats.symbol, "TKN");
    set_owner(&mut stats, &alice(), bob());
    assert_eq!(stats.owner, bob());
    assert_eq!(check_caller_is_owner(&stats, &alice()), Err(TxError::Unauthorized));
}

#[test]
fn user_transactions_window_counts_own_records() {
    let (_stats, mut ledger, _dl) = init_context();
    ledger.transfer(alice(), bob(), 10, 0, NOW);
    ledger.transfer(alice(), john(), 20, 0, NOW);
    ledger.transfer_from(john(), alice(), bob(), 30, 0, NOW);
    ledger.burn(john(), 1, NOW);
    let bobs = get_user_transactions(&ledger, &bob(), 0, 10);
    assert_eq!(bobs.len(), 2);
    assert_eq!(bobs[0].index, 1);
    assert_eq!(bobs[1].index, 3);
    let bobs = get_user_transactions(&ledger, &bob(), 1, 10);
    assert_eq!(bobs.len(), 1);
    assert_eq!(bobs[0].index, 3);
    let johns = get_user_transactions(&ledger, &john(), 0, 2);
    assert_eq!(johns.len(), 2);
    assert_eq!(johns[0].index, 2);
    assert_eq!(johns[1].caller, Some(john()));
    let johns = get_user_transactions(&ledger, &john(), 2, 10);
    assert_eq!(johns.len(), 1);
    assert_eq!(johns[0].operation, Operation::Burn);
    assert!(get_user_transactions(&ledger, &bob(), 2, 10).is_empty());
    assert!(get_user_transactions(&ledger, &bob(), u128::MAX, 10).is_empty());
    assert!(get_user_transactions(&ledger, &bob(), 0, 0).is_empty());
}

#[test]
fn user_transactions_second_own_record() {
    let (a, b, c, d) = (
        Principal::from_bytes(vec![1]),
        Principal::from_bytes(vec![2]),
        Principal::from_bytes(vec![3]),
        Principal::from_bytes(vec![4]),
    );
    let mut ledger = Ledger::new();
    ledger.transfer(a, b.clone(), 1, 0, NOW);
    ledger.transfer(c.clone(), d, 1, 0, NOW);
    ledger.transfer(c.clone(), b, 1, 0, NOW);
    let txs = get_user_transactions(&ledger, &c, 1, 1);
    assert_eq!(txs.len(), 1);
    assert_eq!(txs[0].index, 2);
}

#[test]
fn user_transaction_amount_counts() {
    let (_stats, mut ledger, _dl) = init_context();
    ledger.transfer(alice(), bob(), 10, 0, NOW);
    ledger.transfer(alice(), john(), 20, 0, NOW);
    ledger.transfer_from(john(), alice(), bob(), 30, 0, NOW);
    assert_eq!(get_user_transaction_amount(&ledger, &bob()), 2);
    assert_eq!(get_user_transaction_amount(&ledger, &john()), 2);
    assert_eq!(get_user_transaction_amount(&ledger, &alice()), 4);
    assert_eq!(get_user_transaction_amount(&ledger, &principal("aaaaa-aa")), 0);
}

#[test]
fn user_transaction_amount_is_a_count_not_a_sum() {
    let (a, b, c, d) = (
        Principal::from_bytes(vec![1]),
        Principal::from_bytes(vec![2]),
        Principal::from_bytes(vec![3]),
        Principal::from_bytes(vec![4]),
    );
    let mut ledger = Ledger::new();
    ledger.transfer(a.clone(), b, 10, 0, NOW);
    ledger.transfer(c, d, 7, 0, NOW);
    assert_eq!(get_user_transaction_amount(&ledger, &a), 1);
}
