use vstd::prelude::*;

use crate::amounts::{allowance_in, allowances_after_set};
use crate::api::{involving, user_records, window};
use crate::designation::{
    is_vesting_role, spec_find_designation, spec_remainder_limit, is_first_index_of_owner, DesignationView,
};
use crate::inspect::{spec_inspect, InspectOutcome, MethodKind};
use crate::ledger::{LedgerView, HISTORY_REMOVAL_BATCH_SIZE, MAX_HISTORY_LENGTH};
use crate::api::metadata_of;
use crate::tx_record::{
    approve_record, auction_record, burn_record, mint_record, record_involves, transfer_from_record, transfer_record,
    TxRecordView,
};
use crate::types::{Operation, StatsView, TransactionStatus};

verus! {

/// Adding a record that carries the next number keeps the ledger valid,
/// counts one more record, and makes the record retrievable under that
/// number: what a write records, a read of its number gives back.
pub proof fn law_push_then_get(v: LedgerView, rec: TxRecordView)
    requires
        v.valid(),
        v.len() < u128::MAX,
        rec.index == v.len(),
    ensures
        v.push(rec).valid(),
        v.push(rec).len() == v.len() + 1,
        v.push(rec).get(v.len() as int) == Some(rec),
{
    let w = v.push(rec);
    let r2 = v.records.push(rec);
    if r2.len() > MAX_HISTORY_LENGTH + HISTORY_REMOVAL_BATCH_SIZE {
        assert(w.records[w.records.len() - 1] == rec);
    }
    assert forall|i: int| 0 <= i < w.records.len() implies #[trigger] w.records[i].index == w.offset + i by {
        if r2.len() > MAX_HISTORY_LENGTH + HISTORY_REMOVAL_BATCH_SIZE {
            assert(w.records[i] == r2[i + HISTORY_REMOVAL_BATCH_SIZE]);
            if i + HISTORY_REMOVAL_BATCH_SIZE < v.records.len() {
                assert(v.records[i + HISTORY_REMOVAL_BATCH_SIZE].index == v.offset + i + HISTORY_REMOVAL_BATCH_SIZE);
            }
        } else {
            if i < v.records.len() {
                assert(v.records[i].index == v.offset + i);
            }
        }
    }
}

/// A push keeps at most `MAX_HISTORY_LENGTH + HISTORY_REMOVAL_BATCH_SIZE`
/// records, and drops records only in one batch of
/// `HISTORY_REMOVAL_BATCH_SIZE` when the kept history would grow past that:
/// at least `MAX_HISTORY_LENGTH + 1` records, or all of them, stay kept.
pub proof fn law_push_bounds_history(v: LedgerView, rec: TxRecordView)
    requires
        v.valid(),
    ensures
        v.push(rec).records.len() <= MAX_HISTORY_LENGTH + HISTORY_REMOVAL_BATCH_SIZE,
        v.push(rec).records.len() >= (if v.records.len() + 1 <= MAX_HISTORY_LENGTH + 1 {
            v.records.len() + 1int
        } else {
            MAX_HISTORY_LENGTH + 1int
        }),
        v.records.len() + 1 <= MAX_HISTORY_LENGTH + HISTORY_REMOVAL_BATCH_SIZE ==> v.push(rec).records
            == v.records.push(rec),
{
}

/// Recording a transfer (plain, or to an investor, founder or advisor: each
/// of these leaves the ledger as `after_transfer` says) keeps the ledger
/// valid, counts one more record, and the new number reads back the
/// transfer, stamped with the given time.
pub proof fn law_transfer_recorded(
    v: LedgerView,
    from: Seq<u8>,
    to: Seq<u8>,
    amount: u128,
    fee: u128,
    now: u64,
)
    requires
        v.valid(),
        v.len() < u128::MAX,
    ensures
        v.after_transfer(from, to, amount, fee, now).valid(),
        v.after_transfer(from, to, amount, fee, now).len() == v.len() + 1,
        v.after_transfer(from, to, amount, fee, now).get(v.len() as int) == Some(
            (TxRecordView {
                caller: Some(from),
                index: v.len() as u128,
                from,
                to,
                amount,
                fee,
                timestamp: now,
                status: TransactionStatus::Succeeded,
                operation: Operation::Transfer,
            }),
        ),
{
    law_push_then_get(v, transfer_record(v.len() as u128, from, to, amount, fee, now));
}

/// Every record that a valid ledger gives for a number carries that number.
pub proof fn law_get_carries_number(v: LedgerView, id: int)
    requires
        v.valid(),
    ensures
        v.get(id) matches Some(r) ==> r.index == id,
{
    if v.get(id) is Some {
        assert(v.records[id - v.offset].index == v.offset + (id - v.offset));
    }
}

/// Adding a record never rewrites history: every earlier number that is
/// still kept gives the same record as before. Only the oldest records are
/// ever dropped: whatever was kept from number `v.offset + HISTORY_REMOVAL_BATCH_SIZE`
/// on is still kept.
pub proof fn law_push_keeps_history(v: LedgerView, rec: TxRecordView, id: int)
    requires
        v.valid(),
        v.len() < u128::MAX,
        rec.index == v.len(),
        0 <= id < v.len(),
    ensures
        v.push(rec).get(id) is Some ==> v.push(rec).get(id) == v.get(id),
        v.offset + HISTORY_REMOVAL_BATCH_SIZE <= id ==> v.push(rec).get(id) is Some,
        v.offset <= v.push(rec).offset,
{
    let w = v.push(rec);
    let r2 = v.records.push(rec);
    if r2.len() > MAX_HISTORY_LENGTH + HISTORY_REMOVAL_BATCH_SIZE {
        if w.offset <= id {
            assert(w.records[id - w.offset] == r2[id - v.offset]);
        }
    } else {
        if v.offset <= id {
            assert(w.records[id - w.offset] == r2[id - v.offset]);
        }
    }
}

/// A range query starting at a kept number gives the records with the
/// consecutive numbers `start`, `start + 1`, ..., each the record that a
/// query for its number gives, and as many of them as `limit` allows and the
/// ledger holds.
pub proof fn law_range_is_consecutive(v: LedgerView, start: u128, limit: u128)
    requires
        v.valid(),
        v.offset <= start,
    ensures
        forall|j: int| 0 <= j < v.range(start, limit).len() ==> #[trigger] v.range(start, limit)[j].index == start + j,
        forall|j: int| 0 <= j < v.range(start, limit).len() ==> v.get(start + j) == Some(#[trigger] v.range(start, limit)[j]),
        v.range(start, limit).len() == (if start >= v.len() {
            0
        } else if limit <= v.len() - start {
            limit as int
        } else {
            v.len() - start
        }),
{
    let s: int = v.range_start(start);
    let n: nat = v.records.len();
    if start - v.offset > usize::MAX {
        assert(n <= MAX_HISTORY_LENGTH + HISTORY_REMOVAL_BATCH_SIZE);
    }
    assert forall|j: int| 0 <= j < v.range(start, limit).len() implies #[trigger] v.range(start, limit)[j].index
        == start + j by {
        assert(v.records[s + j].index == v.offset + s + j);
    }
}

/// The records that a user query gives all concern the user, and are no
/// more than the records it was taken from.
pub proof fn law_user_records_concern_user(s: Seq<TxRecordView>, who: Seq<u8>)
    ensures
        forall|i: int| 0 <= i < s.filter(involving(who)).len() ==> record_involves(
            #[trigger] s.filter(involving(who))[i],
            who,
        ),
        s.filter(involving(who)).len() <= s.len(),
        forall|i: int| 0 <= i < s.len() && record_involves(s[i], who) ==> #[trigger] s.filter(involving(who)).contains(
            s[i],
        ),
{
    broadcast use vstd::seq_lib::group_filter_ensures;

    assert forall|i: int| 0 <= i < s.filter(involving(who)).len() implies record_involves(
        #[trigger] s.filter(involving(who))[i],
        who,
    ) by {
        s.lemma_filter_pred(involving(who), i);
    }
    assert forall|i: int| 0 <= i < s.len() && record_involves(s[i], who) implies #[trigger] s.filter(
        involving(who),
    ).contains(s[i]) by {
        s.lemma_filter_contains(involving(who), i);
    }
}

/// A principal that no record concerns has no transactions to count.
pub proof fn law_uninvolved_count_is_zero(s: Seq<TxRecordView>, who: Seq<u8>)
    requires
        forall|i: int| 0 <= i < s.len() ==> !record_involves(#[trigger] s[i], who),
    ensures
        user_records(s, who).len() == 0,
{
    assert(s.all(|x: TxRecordView| !involving(who)(x)));
    s.lemma_all_neg_filter_empty(involving(who));
}

/// A user query gives at most `limit` records, and they are the user's own
/// records numbered `start`, `start + 1`, ... among them.
pub proof fn law_user_window(u: Seq<TxRecordView>, start: u128, limit: u128)
    ensures
        window(u, start, limit).len() <= limit,
        forall|j: int| 0 <= j < window(u, start, limit).len() ==> #[trigger] window(u, start, limit)[j] == u[start + j],
        start + limit <= u.len() ==> window(u, start, limit).len() == limit,
{
}

/// What a spender was last allowed for an owner is what `allowance` reads
/// back; every other owner and spender keeps its allowance.
pub proof fn law_allowance_read_after_set(
    a: Map<Seq<u8>, Map<Seq<u8>, u128>>,
    owner: Seq<u8>,
    spender: Seq<u8>,
    amount: u128,
    other_owner: Seq<u8>,
    other_spender: Seq<u8>,
)
    ensures
        allowance_in(allowances_after_set(a, owner, spender, amount), owner, spender) == amount,
        (other_owner, other_spender) != (owner, spender) ==> allowance_in(
            allowances_after_set(a, owner, spender, amount),
            other_owner,
            other_spender,
        ) == allowance_in(a, other_owner, other_spender),
{
}

/// A `transferFrom` that the ingress check accepts never moves more than
/// `from` allowed the caller to spend: the allowance that
/// `allowance(from, caller)` reports.
pub proof fn law_accepted_transfer_from_within_allowance(
    caller: Seq<u8>,
    from: Seq<u8>,
    value: u128,
    tx_id: u128,
    owner: Seq<u8>,
    holders: Set<Seq<u8>>,
    allowances: Map<Seq<u8>, Map<Seq<u8>, u128>>,
    pending: Set<u128>,
    auction_due: bool,
    bidders: Set<Seq<u8>>,
)
    requires
        spec_inspect(
            MethodKind::TransferFrom,
            caller,
            from,
            value,
            tx_id,
            owner,
            holders,
            allowances,
            pending,
            auction_due,
            bidders,
        ) == InspectOutcome::Accept,
    ensures
        value <= allowance_in(allowances, from, caller),
{
}

/// What the ingress check accepts: queries from anyone; owner methods
/// exactly from the owner; transaction methods exactly from holders of a
/// balance; `transferFrom` exactly where `from` allowed the caller at least
/// the amount; `notify` exactly for a pending notification; `runAuction`
/// exactly when an auction is due and the caller is a bidder or the owner
/// (so never when no auction is due); `bidCycles` and unlisted methods never.
pub proof fn law_inspect_access(
    kind: MethodKind,
    caller: Seq<u8>,
    from: Seq<u8>,
    value: u128,
    tx_id: u128,
    owner: Seq<u8>,
    holders: Set<Seq<u8>>,
    allowances: Map<Seq<u8>, Map<Seq<u8>, u128>>,
    pending: Set<u128>,
    auction_due: bool,
    bidders: Set<Seq<u8>>,
)
    ensures
        ({
            let accepted = spec_inspect(
                kind,
                caller,
                from,
                value,
                tx_id,
                owner,
                holders,
                allowances,
                pending,
                auction_due,
                bidders,
            ) == InspectOutcome::Accept;
            &&& kind == MethodKind::Public ==> accepted
            &&& kind == MethodKind::OwnerOnly ==> (accepted <==> caller == owner)
            &&& kind == MethodKind::Transaction ==> (accepted <==> holders.contains(caller))
            &&& kind == MethodKind::TransferFrom ==> (accepted <==> allowances.contains_key(from)
                && allowances[from].contains_key(caller) && value <= allowances[from][caller])
            &&& kind == MethodKind::Notify ==> (accepted <==> pending.contains(tx_id))
            &&& kind == MethodKind::RunAuction ==> (accepted <==> auction_due && (bidders.contains(caller)
                || caller == owner))
            &&& kind == MethodKind::RunAuction && accepted ==> auction_due
            &&& kind == MethodKind::BidCycles ==> !accepted
            &&& kind == MethodKind::Unlisted ==> !accepted
        }),
{
}

/// The token's metadata carries each setting under its own name: logo,
/// name, symbol, decimals, total supply, owner, fee, and fee receiver (the
/// fee receiver, not the owner).
pub proof fn law_metadata_fields(s: StatsView)
    ensures
        metadata_of(s).logo == s.logo,
        metadata_of(s).name == s.name,
        metadata_of(s).symbol == s.symbol,
        metadata_of(s).decimals == s.decimals,
        metadata_of(s).totalSupply == s.total_supply,
        metadata_of(s).owner == s.owner,
        metadata_of(s).fee == s.fee,
        metadata_of(s).feeTo == s.fee_to,
{
}

/// Recording a transfer made by `caller` on behalf of `from` makes the next
/// number read back a succeeded `TransferFrom` with that caller, sender,
/// receiver, amount, fee and time.
pub proof fn law_transfer_from_recorded(
    v: LedgerView,
    caller: Seq<u8>,
    from: Seq<u8>,
    to: Seq<u8>,
    amount: u128,
    fee: u128,
    now: u64,
)
    requires
        v.valid(),
        v.len() < u128::MAX,
    ensures
        v.push(transfer_from_record(v.len() as u128, caller, from, to, amount, fee, now)).get(v.len() as int)
            == Some(
            (TxRecordView {
                caller: Some(caller),
                index: v.len() as u128,
                from,
                to,
                amount,
                fee,
                timestamp: now,
                status: TransactionStatus::Succeeded,
                operation: Operation::TransferFrom,
            }),
        ),
{
    law_push_then_get(v, transfer_from_record(v.len() as u128, caller, from, to, amount, fee, now));
}

/// Recording an approval by `from` of `to` as spender makes the next number
/// read back a succeeded `Approve` from `from` (who made it) to `to`, with
/// that amount, fee and time.
pub proof fn law_approve_recorded(v: LedgerView, from: Seq<u8>, to: Seq<u8>, amount: u128, fee: u128, now: u64)
    requires
        v.valid(),
        v.len() < u128::MAX,
    ensures
        v.push(approve_record(v.len() as u128, from, to, amount, fee, now)).get(v.len() as int) == Some(
            (TxRecordView {
                caller: Some(from),
                index: v.len() as u128,
                from,
                to,
                amount,
                fee,
                timestamp: now,
                status: TransactionStatus::Succeeded,
                operation: Operation::Approve,
            }),
        ),
{
    law_push_then_get(v, approve_record(v.len() as u128, from, to, amount, fee, now));
}

/// Recording a mint by `from` to the recipient `to` makes the next number
/// read back a succeeded `Mint` from `from` to `to`, without fee.
pub proof fn law_mint_recorded(v: LedgerView, from: Seq<u8>, to: Seq<u8>, amount: u128, now: u64)
    requires
        v.valid(),
        v.len() < u128::MAX,
    ensures
        v.push(mint_record(v.len() as u128, from, to, amount, now)).get(v.len() as int) == Some(
            (TxRecordView {
                caller: Some(from),
                index: v.len() as u128,
                from,
                to,
                amount,
                fee: 0,
                timestamp: now,
                status: TransactionStatus::Succeeded,
                operation: Operation::Mint,
            }),
        ),
{
    law_push_then_get(v, mint_record(v.len() as u128, from, to, amount, now));
}

/// Recording a burn makes the next number read back a succeeded `Burn` of
/// the caller's own tokens, without fee.
pub proof fn law_burn_recorded(v: LedgerView, caller: Seq<u8>, amount: u128, now: u64)
    requires
        v.valid(),
        v.len() < u128::MAX,
    ensures
        v.push(burn_record(v.len() as u128, caller, amount, now)).get(v.len() as int) == Some(
            (TxRecordView {
                caller: Some(caller),
                index: v.len() as u128,
                from: caller,
                to: caller,
                amount,
                fee: 0,
                timestamp: now,
                status: TransactionStatus::Succeeded,
                operation: Operation::Burn,
            }),
        ),
{
    law_push_then_get(v, burn_record(v.len() as u128, caller, amount, now));
}

/// Recording an auction payout makes the next number read back a succeeded
/// `Auction` to `to`, without fee.
pub proof fn law_auction_recorded(v: LedgerView, to: Seq<u8>, amount: u128, now: u64)
    requires
        v.valid(),
        v.len() < u128::MAX,
    ensures
        v.push(auction_record(v.len() as u128, to, amount, now)).get(v.len() as int) == Some(
            (TxRecordView {
                caller: Some(to),
                index: v.len() as u128,
                from: to,
                to,
                amount,
                fee: 0,
                timestamp: now,
                status: TransactionStatus::Succeeded,
                operation: Operation::Auction,
            }),
        ),
{
    law_push_then_get(v, auction_record(v.len() as u128, to, amount, now));
}

/// The locked part of a designation never exceeds its tokens and never
/// grows as time passes.
pub proof fn law_locked_never_grows(d: DesignationView, t1: u64, t2: u64)
    requires
        is_vesting_role(d.role) ==> d.assignment_time <= t1,
        t1 <= t2,
    ensures
        0 <= spec_remainder_limit(d, t2) <= spec_remainder_limit(d, t1) <= d.tokens,
{
    let a: int = d.assignment_time as int;
    if is_vesting_role(d.role) {
        assert((t1 - a) / 1_000_000_000int <= (t2 - a) / 1_000_000_000int) by (nonlinear_arith)
            requires
                a <= t1 <= t2,
        ;
        assert(((t1 - a) / 1_000_000_000int) / 86_400int <= ((t2 - a) / 1_000_000_000int) / 86_400int)
            by (nonlinear_arith)
            requires
                (t1 - a) / 1_000_000_000int <= (t2 - a) / 1_000_000_000int,
        ;
        let x: int = d.tokens as int;
        assert(0 <= x / 2 <= (3 * x) / 4 <= x) by (nonlinear_arith)
            requires
                0 <= x,
        ;
    }
}

/// The designation found for a wallet always belongs to that wallet.
pub proof fn law_found_designation_belongs_to_wallet(s: Seq<DesignationView>, wallet: Seq<u8>, now: u64)
    ensures
        spec_find_designation(s, wallet, now).owner == wallet,
{
}

/// Once a wallet without a designation is designated, it is the designation
/// found for that wallet.
pub proof fn law_find_after_designate(s: Seq<DesignationView>, d: DesignationView, now: u64)
    requires
        forall|i: int| 0 <= i < s.len() ==> #[trigger] s[i].owner != d.owner,
    ensures
        spec_find_designation(s.push(d), d.owner, now) == d,
{
    let t = s.push(d);
    assert(is_first_index_of_owner(t, d.owner, s.len() as int)) by {
        assert forall|j: int| 0 <= j < s.len() implies t[j].owner != d.owner by {
            assert(t[j] == s[j]);
        }
    }
    let k: int = choose|k: int| is_first_index_of_owner(t, d.owner, k);
    if k < s.len() {
        assert(t[k] == s[k]);
    }
}

} // verus!
