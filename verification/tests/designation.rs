use icpv_token::designation::{
    find_designation, has_vesting_role, init_dl, remainder_limit, size_dl, Designation,
    DesignationList,
};
use icpv_token::ledger::Ledger;
use icpv_token::principal::Principal;

const DAY: u64 = 86_400 * 1_000_000_000;

const NOW: u64 = 1_700_000_000_000_000_000;

fn principal(text: &str) -> Principal {
    Principal::from_bytes(candid::Principal::from_text(text).unwrap().as_slice().to_vec())
}

fn designation(role: &str, assigned: u64, tokens: u128) -> Designation {
    Designation {
        owner: principal("ai7t5-aibaq-aaaaa-aaaaa-c"),
        role: role.to_string(),
        assignment_time: assigned,
        tokens,
    }
}

#[test]
fn vesting_schedule() {
    let start = 1_000 * DAY;
    for role in ["founder", "advisor", "investor", "private", "marketing"] {
        let d = designation(role, start, 1000);
        assert_eq!(remainder_limit(&d, start), 1000);
        assert_eq!(remainder_limit(&d, start + 90 * DAY), 1000);
        assert_eq!(remainder_limit(&d, start + 91 * DAY), 750);
        assert_eq!(remainder_limit(&d, start + 180 * DAY), 750);
        assert_eq!(remainder_limit(&d, start + 181 * DAY), 500);
        assert_eq!(remainder_limit(&d, start + 270 * DAY + DAY - 1), 500);
        assert_eq!(remainder_limit(&d, start + 271 * DAY), 0);
    }
}

#[test]
fn vesting_rounds_down() {
    let d = designation("founder", 0, 7);
    assert_eq!(remainder_limit(&d, 100 * DAY), 5);
    assert_eq!(remainder_limit(&d, 200 * DAY), 3);
    let big = designation("investor", 0, u128::MAX);
    assert_eq!(remainder_limit(&big, 100 * DAY), u128::MAX / 4 * 3 + 2);
}

#[test]
fn non_vesting_roles_lock_nothing() {
    assert_eq!(remainder_limit(&designation("NA", 5, 100), 0), 0);
    assert_eq!(remainder_limit(&designation("treasury", 5, 100), 10), 0);
    assert_eq!(remainder_limit(&designation("Founder", 5, 100), 10), 0);
}

#[test]
fn locked_never_grows_example() {
    let d = designation("advisor", 0, 400);
    let mut last = u128::MAX;
    for day in 0..400u64 {
        let now = remainder_limit(&d, day * DAY);
        assert!(now <= last);
        assert!(now <= 400);
        last = now;
    }
}

#[test]
fn vesting_role_detection() {
    assert!(has_vesting_role(&designation("founder", 0, 80)));
    assert!(has_vesting_role(&designation("marketing", 0, 80)));
    assert!(!has_vesting_role(&designation("NA", 0, 80)));
    assert!(!has_vesting_role(&designation("other", 0, 80)));
    assert_eq!(remainder_limit(&designation("NA", u64::MAX, 80), 0), 0);
    assert_eq!(remainder_limit(&designation("other", u64::MAX, 80), 0), 0);
}

#[test]
fn find_designation_first_match() {
    let mut ledger = Ledger::new();
    let mut dl = DesignationList::new();
    let alice = principal("sgymv-uiaaa-aaaaa-aaaia-cai");
    let bob = principal("ai7t5-aibaq-aaaaa-aaaaa-c");
    ledger.transfer_to_advisor(&mut dl, alice.clone(), bob.clone(), 10, 0, NOW);
    ledger.transfer_to_founder(&mut dl, alice.clone(), bob.clone(), 20, 0, NOW);
    let d = find_designation(&dl, &bob, 42);
    assert_eq!(d.role, "advisor");
    assert_eq!(d.tokens, 10);
    let none = find_designation(&dl, &alice, 42);
    assert_eq!(none.owner, alice);
    assert_eq!(none.role, "NA");
    assert_eq!(none.assignment_time, 42);
    assert_eq!(none.tokens, 1);
    let d = find_designation(&dl, &bob, NOW);
    assert_eq!(d.assignment_time, NOW);
}

#[test]
fn init_dl_empties() {
    let mut ledger = Ledger::new();
    let mut dl = DesignationList::new();
    assert_eq!(size_dl(&dl), 0);
    ledger.transfer_to_investor(
        &mut dl,
        principal("sgymv-uiaaa-aaaaa-aaaia-cai"),
        principal("ai7t5-aibaq-aaaaa-aaaaa-c"),
        1,
        0,
        NOW,
    );
    assert_eq!(size_dl(&dl), 1);
    init_dl(&mut dl);
    assert_eq!(size_dl(&dl), 0);
}
