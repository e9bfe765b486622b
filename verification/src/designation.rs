use vstd::prelude::*;

use crate::principal::Principal;
use crate::types::Timestamp;

verus! {

/// A wallet that holds locked tokens, with the role it was given, the time it
/// was given it, and the number of tokens locked at that time.
#[derive(Debug)]
pub struct Designation {
    pub owner: Principal,
    pub role: String,
    pub assignment_time: Timestamp,
    pub tokens: u128,
}

/// What a `Designation` holds, as mathematical values.
pub struct DesignationView {
    pub owner: Seq<u8>,
    pub role: Seq<char>,
    pub assignment_time: Timestamp,
    pub tokens: u128,
}

impl View for Designation {
    type V = DesignationView;

    open spec fn view(&self) -> DesignationView {
        DesignationView {
            owner: self.owner@,
            role: self.role@,
            assignment_time: self.assignment_time,
            tokens: self.tokens,
        }
    }
}

impl Clone for Designation {
    fn clone(&self) -> (r: Self)
        ensures
            r@ == self@,
    {
        Designation {
            owner: self.owner.clone(),
            role: self.role.clone(),
            assignment_time: self.assignment_time,
            tokens: self.tokens,
        }
    }
}

/// The designations, in the order in which they were made.
#[derive(Debug)]
pub struct DesignationList {
    items: Vec<Designation>,
}

impl View for DesignationList {
    type V = Seq<DesignationView>;

    closed spec fn view(&self) -> Seq<DesignationView> {
        self.items@.map_values(|d: Designation| d@)
    }
}

impl DesignationList {
    /// An empty list.
    pub fn new() -> (r: DesignationList)
        ensures
            r@ == Seq::<DesignationView>::empty(),
    {
        let r = DesignationList { items: Vec::new() };
        assert(r@ =~= Seq::<DesignationView>::empty());
        r
    }

    /// Appends a designation.
    pub(crate) fn push(&mut self, d: Designation)
        ensures
            final(self)@ == old(self)@.push(d@),
    {
        self.items.push(d);
        assert(self@ =~= old(self)@.push(d@));
    }
}

/// The role given to a wallet that has no designation.
pub open spec fn no_role() -> Seq<char> {
    "NA"@
}

/// The roles whose tokens are released over time.
pub open spec fn is_vesting_role(role: Seq<char>) -> bool {
    ||| role == "founder"@
    ||| role == "advisor"@
    ||| role == "investor"@
    ||| role == "private"@
    ||| role == "marketing"@
}

/// `k` is the first position in `s` whose designation belongs to `wallet`.
pub open spec fn is_first_index_of_owner(s: Seq<DesignationView>, wallet: Seq<u8>, k: int) -> bool {
    &&& 0 <= k < s.len()
    &&& s[k].owner == wallet
    &&& forall|j: int| 0 <= j < k ==> s[j].owner != wallet
}

/// The designation that `find_designation` gives for `wallet` at time `now`:
/// the first one in the list that belongs to `wallet`, or else a fresh one
/// with role "NA", made at `now`, holding one token.
pub open spec fn spec_find_designation(s: Seq<DesignationView>, wallet: Seq<u8>, now: Timestamp) -> DesignationView {
    if exists|k: int| is_first_index_of_owner(s, wallet, k) {
        s[choose|k: int| is_first_index_of_owner(s, wallet, k)]
    } else {
        DesignationView { owner: wallet, role: no_role(), assignment_time: now, tokens: 1 }
    }
}

/// Nanoseconds in a second, and seconds in a day.
pub const NANOS_PER_SECOND: u64 = 1_000_000_000;
pub const SECONDS_PER_DAY: u64 = 86_400;

/// Whole days from `assigned` to `now` (both in nanoseconds).
pub open spec fn days_elapsed(assigned: Timestamp, now: Timestamp) -> int {
    ((now - assigned) / (NANOS_PER_SECOND as int)) / (SECONDS_PER_DAY as int)
}

/// The part of `tokens` still locked after `days` whole days: all of it up to
/// day 90, three quarters up to day 180, half up to day 270, none after.
pub open spec fn locked_after(tokens: u128, days: int) -> int {
    if days <= 90 {
        tokens as int
    } else if days <= 180 {
        (3 * tokens) / 4
    } else if days <= 270 {
        (tokens / 2) as int
    } else {
        0
    }
}

/// How many of a designation's tokens are still locked at time `now`.
pub open spec fn spec_remainder_limit(d: DesignationView, now: Timestamp) -> int {
    if d.role == no_role() {
        0
    } else if is_vesting_role(d.role) {
        locked_after(d.tokens, days_elapsed(d.assignment_time, now))
    } else {
        0
    }
}

/// Empties the designation list.
pub fn init_dl(list: &mut DesignationList)
    ensures
        final(list)@ == Seq::<DesignationView>::empty(),
{
    *list = DesignationList::new();
}

/// The number of designations.
pub fn size_dl(list: &DesignationList) -> (r: usize)
    ensures
        r == list@.len(),
{
    list.items.len()
}

/// The designation of `wallet` at time `now`: the first one in the list that
/// belongs to `wallet`, or, where there is none, a fresh "NA" designation.
pub fn find_designation(list: &DesignationList, wallet: &Principal, now: Timestamp) -> (d: Designation)
    ensures
        d@ == spec_find_designation(list@, wallet@, now),
{
    let mut i: usize = 0;
    while i < list.items.len()
        invariant
            i <= list@.len(),
            list@.len() == list.items@.len(),
            forall|j: int| 0 <= j < i ==> list@[j].owner != wallet@,
        decreases list.items@.len() - i,
    {
        if list.items[i].owner.same(wallet) {
            assert(is_first_index_of_owner(list@, wallet@, i as int));
            let ghost k = choose|k: int| is_first_index_of_owner(list@, wallet@, k);
            assert(k == i) by {
                if k < i {
                } else if k > i {
                    assert(list@[i as int].owner == wallet@);
                }
            }
            return list.items[i].clone();
        }
        i = i + 1;
    }
    assert(!exists|k: int| is_first_index_of_owner(list@, wallet@, k));
    Designation {
        owner: wallet.clone(),
        role: String::from_str("NA"),
        assignment_time: now,
        tokens: 1,
    }
}

/// Three quarters of `tokens`, rounded down, without overflow.
fn three_quarters(tokens: u128) -> (r: u128)
    ensures
        r == (3 * tokens) / 4,
{
    let q: u128 = tokens / 4;
    let m: u128 = tokens % 4;
    assert(q * 3 + (m * 3) / 4 == (3 * tokens) / 4 && q * 3 <= tokens) by (nonlinear_arith)
        requires
            q == tokens / 4,
            m == tokens % 4,
    ;
    q * 3 + (m * 3) / 4
}

/// Whether the designation's role is one whose tokens are released over
/// time (founder, advisor, investor, private, marketing).
pub fn has_vesting_role(des: &Designation) -> (r: bool)
    ensures
        r == is_vesting_role(des.role@),
{
    des.role == String::from_str("founder") || des.role == String::from_str("advisor") || des.role
        == String::from_str("investor") || des.role == String::from_str("private") || des.role
        == String::from_str("marketing")
}

/// How many of the designation's tokens are still locked at time `now`.
/// For a vesting role the designation must not lie in the future.
pub fn remainder_limit(des: &Designation, now: Timestamp) -> (r: u128)
    requires
        is_vesting_role(des.role@) ==> des.assignment_time <= now,
    ensures
        r == spec_remainder_limit(des@, now),
{
    if des.role == String::from_str("NA") {
        return 0;
    }
    if !has_vesting_role(des) {
        return 0;
    }
    let time_elapsed: u64 = (now - des.assignment_time) / NANOS_PER_SECOND;
    let days_elapsed: u64 = time_elapsed / SECONDS_PER_DAY;
    if days_elapsed <= 90 {
        des.tokens
    } else if days_elapsed <= 180 {
        three_quarters(des.tokens)
    } else if days_elapsed <= 270 {
        des.tokens / 2
    } else {
        0
    }
}

} // verus!
