use icpv_token::designation::{find_designation, size_dl, DesignationList};
use icpv_token::ledger::{Ledger, HISTORY_REMOVAL_BATCH_SIZE, MAX_HISTORY_LENGTH};
use icpv_token::principal::Principal;
use icpv_token::types::Operation;

const NOW: u64 = 1_700_000_000_000_000_000;

fn principal(text: &str) -> Principal {
    Principal::from_bytes(candid::Principal::from_text(text).unwrap().as_slice().to_vec())
}

fn alice() -> Principal {
    principal("sgymv-uiaaa-aaaaa-aaaia-cai")
}

fn bob() -> Principal {
    principal("ai7t5-aibaq-aaaaa-aaaaa-c")
}

#[test]
fn ids_are_consecutive_and_read_back() {
    let mut ledger = Ledger::new();
    let mut dl = DesignationList::new();
    assert_eq!(ledger.len(), 0);
    assert_eq!(ledger.mint(&mut dl, alice(), alice(), 100, NOW), 0);
    assert_eq!(ledger.transfer(alice(), bob(), 1, 0, NOW), 1);
    assert_eq!(ledger.transfer_from(bob(), alice(), bob(), 2, 0, NOW), 2);
    assert_eq!(ledger.approve(alice(), bob(), 3, 0, NOW), 3);
    assert_eq!(ledger.burn(bob(), 4, NOW), 4);
    ledger.auction(bob(), 5, NOW);
    assert_eq!(ledger.len(), 6);
    let ops = [
        Operation::Mint,
        Operation::Transfer,
        Operation::TransferFrom,
        Operation::Approve,
        Operation::Burn,
        Operation::Auction,
    ];
    for (i, op) in ops.iter().enumerate() {
        let rec = ledger.get(i as u128).unwrap();
        assert_eq!(rec.index, i as u128);
        assert_eq!(rec.amount, i as u128 * 1 + if i == 0 { 100 } else { 0 });
        assert_eq!(rec.operation, *op);
    }
    let tf = ledger.get(2).unwrap();
    assert_eq!(tf.caller, Some(bob()));
    assert_eq!(tf.from, alice());
    let burn = ledger.get(4).unwrap();
    assert_eq!(burn.from, bob());
    assert_eq!(burn.to, bob());
    let auction = ledger.get(5).unwrap();
    assert_eq!(auction.caller, Some(bob()));
    assert!(ledger.get(6).is_none());
    assert!(ledger.get(u128::MAX).is_none());
    assert_eq!(ledger.iter().len(), 6);
}

#[test]
fn get_range_edges() {
    let mut ledger = Ledger::new();
    for _ in 0..4 {
        ledger.transfer(alice(), bob(), 1, 0, NOW);
    }
    let all = ledger.get_range(0, u128::MAX);
    assert_eq!(all.len(), 4);
    let tail = ledger.get_range(2, u128::MAX);
    assert_eq!(tail.len(), 2);
    assert_eq!(tail[0].index, 2);
    assert!(ledger.get_range(u128::MAX, 3).is_empty());
    assert!(ledger.get_range(4, 3).is_empty());
    let mid = ledger.get_range(1, 2);
    assert_eq!(mid.len(), 2);
    assert_eq!(mid[1].index, 2);
}

#[test]
fn history_drops_oldest_batch() {
    let mut ledger = Ledger::new();
    let limit = MAX_HISTORY_LENGTH + HISTORY_REMOVAL_BATCH_SIZE;
    for _ in 0..limit {
        ledger.transfer(alice(), bob(), 1, 0, NOW);
    }
    assert_eq!(ledger.iter().len(), limit);
    assert!(ledger.get(0).is_some());
    let id = ledger.transfer(alice(), bob(), 7, 0, NOW);
    assert_eq!(id, limit as u128);
    assert_eq!(ledger.len(), limit as u128 + 1);
    assert_eq!(ledger.iter().len(), MAX_HISTORY_LENGTH + 1);
    assert!(ledger.get(0).is_none());
    assert!(ledger.get(HISTORY_REMOVAL_BATCH_SIZE as u128 - 1).is_none());
    let oldest = ledger.get(HISTORY_REMOVAL_BATCH_SIZE as u128).unwrap();
    assert_eq!(oldest.index, HISTORY_REMOVAL_BATCH_SIZE as u128);
    let newest = ledger.get(id).unwrap();
    assert_eq!(newest.amount, 7);
    let early = ledger.get_range(0, 2);
    assert_eq!(early.len(), 2);
    assert_eq!(early[0].index, HISTORY_REMOVAL_BATCH_SIZE as u128);
    ledger.transfer(alice(), bob(), 8, 0, NOW);
    assert_eq!(ledger.iter().len(), MAX_HISTORY_LENGTH + 2);
}

#[test]
fn designated_transfers() {
    let mut ledger = Ledger::new();
    let mut dl = DesignationList::new();
    let investor = principal("hozae-racaq-aaaaa-aaaaa-c");
    ledger.transfer_to_founder(&mut dl, alice(), bob(), 500, 1, NOW);
    ledger.transfer_to_investor(&mut dl, alice(), investor.clone(), 300, 1, NOW);
    ledger.transfer_to_advisor(&mut dl, alice(), bob(), 200, 1, NOW);
    assert_eq!(size_dl(&dl), 3);
    assert_eq!(ledger.len(), 3);
    let found = find_designation(&dl, &bob(), NOW + 1);
    assert_eq!(found.role, "founder");
    assert_eq!(found.tokens, 500);
    assert_eq!(found.assignment_time, NOW);
    assert_eq!(ledger.get(0).unwrap().timestamp, NOW);
    let inv = find_designation(&dl, &investor, NOW + 1);
    assert_eq!(inv.role, "investor");
    assert_eq!(inv.tokens, 300);
    ledger.mint(&mut dl, alice(), alice(), 1, NOW);
    assert_eq!(size_dl(&dl), 0);
    let fresh = find_designation(&dl, &bob(), NOW + 1);
    assert_eq!(fresh.role, "NA");
    assert_eq!(fresh.assignment_time, NOW + 1);
}
