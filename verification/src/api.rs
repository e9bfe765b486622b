use vstd::prelude::*;

use crate::amounts::{allowance_in, amount_or_zero, Allowances, Balances};
use crate::ledger::{Ledger, LedgerView};
use crate::principal::Principal;
use crate::tx_record::{record_involves, TxRecord, TxRecordView};
use crate::types::{Metadata, MetadataView, StatsData, StatsView, TxError};

verus! {

/// The most records that one query for transactions may ask for.
pub const MAX_TRANSACTION_QUERY_LEN: usize = 1000;

/// The token's name.
pub fn name(stats: &StatsData) -> (r: String)
    ensures
        r@ == stats.name@,
{
    stats.name.clone()
}

/// The token's symbol.
pub fn symbol(stats: &StatsData) -> (r: String)
    ensures
        r@ == stats.symbol@,
{
    stats.symbol.clone()
}

/// The number of decimals the token is shown with.
pub fn decimals(stats: &StatsData) -> (r: u8)
    ensures
        r == stats.decimals,
{
    stats.decimals
}

/// The number of tokens in existence.
pub fn total_supply(stats: &StatsData) -> (r: u128)
    ensures
        r == stats.total_supply,
{
    stats.total_supply
}

/// The token's logo.
pub fn get_logo(stats: &StatsData) -> (r: String)
    ensures
        r@ == stats.logo@,
{
    stats.logo.clone()
}

/// The balance of `id`: 0 for a principal that holds nothing.
pub fn balance_of(balances: &Balances, id: &Principal) -> (r: u128)
    requires
        balances.0.wf(),
    ensures
        r == amount_or_zero(balances.0@, id@),
{
    balances.balance_of(id)
}

/// The amount that `spender` may transfer on behalf of `owner`: 0 where
/// none was approved.
pub fn allowance(allowances: &Allowances, owner: &Principal, spender: &Principal) -> (r: u128)
    requires
        allowances.wf(),
    ensures
        r == allowance_in(allowances@, owner@, spender@),
{
    match allowances.get(owner) {
        Some(inner) => match inner.get(spender) {
            Some(value) => value,
            None => 0,
        },
        None => 0,
    }
}

/// The token's public description, taken from its settings.
pub open spec fn metadata_of(s: StatsView) -> MetadataView {
    MetadataView {
        logo: s.logo,
        name: s.name,
        symbol: s.symbol,
        decimals: s.decimals,
        totalSupply: s.total_supply,
        owner: s.owner,
        fee: s.fee,
        feeTo: s.fee_to,
    }
}

/// The token's public description.
pub fn get_metadata(stats: &StatsData) -> (r: Metadata)
    ensures
        r@ == metadata_of(stats@),
        r.logo@ == stats.logo@,
        r.name@ == stats.name@,
        r.symbol@ == stats.symbol@,
        r.decimals == stats.decimals,
        r.totalSupply == stats.total_supply,
        r.owner@ == stats.owner@,
        r.fee == stats.fee,
        r.feeTo@ == stats.fee_to@,
{
    Metadata {
        logo: stats.logo.clone(),
        name: stats.name.clone(),
        symbol: stats.symbol.clone(),
        decimals: stats.decimals,
        totalSupply: stats.total_supply,
        owner: stats.owner.clone(),
        fee: stats.fee,
        feeTo: stats.fee_to.clone(),
    }
}

/// The number of transactions ever recorded.
pub fn history_size(ledger: &Ledger) -> (r: u128)
    requires
        ledger.wf(),
    ensures
        r == ledger@.len(),
{
    ledger.len()
}

/// The transaction numbered `id`, which must still be kept.
pub fn get_transaction(ledger: &Ledger, id: u128) -> (r: TxRecord)
    requires
        ledger.wf(),
        ledger@.get(id as int) is Some,
    ensures
        ledger@.get(id as int) == Some(r@),
{
    ledger.get(id).unwrap()
}

/// The kept transactions from number `start` on, at most `limit` of them;
/// `limit` must not exceed `MAX_TRANSACTION_QUERY_LEN`.
pub fn get_transactions(ledger: &Ledger, start: u128, limit: u128) -> (r: Vec<TxRecord>)
    requires
        ledger.wf(),
        limit <= MAX_TRANSACTION_QUERY_LEN,
    ensures
        r@.map_values(|t: TxRecord| t@) == ledger@.range(start, limit),
{
    ledger.get_range(start, limit)
}

/// `Ok` where `caller` owns the token, else `Unauthorized`.
pub fn check_caller_is_owner(stats: &StatsData, caller: &Principal) -> (r: Result<(), TxError>)
    ensures
        r is Ok <==> caller@ == stats.owner@,
        r is Err ==> r == Err::<(), TxError>(TxError::Unauthorized),
{
    if caller.same(&stats.owner) {
        Ok(())
    } else {
        Err(TxError::Unauthorized)
    }
}

/// Sets the token's name; only the owner may.
pub fn set_name(stats: &mut StatsData, caller: &Principal, name: String)
    requires
        caller@ == old(stats).owner@,
    ensures
        final(stats)@ == (StatsView { name: name@, ..old(stats)@ }),
{
    stats.name = name;
}

/// Sets the token's logo; only the owner may.
pub fn set_logo(stats: &mut StatsData, caller: &Principal, logo: String)
    requires
        caller@ == old(stats).owner@,
    ensures
        final(stats)@ == (StatsView { logo: logo@, ..old(stats)@ }),
{
    stats.logo = logo;
}

/// Sets the transaction fee; only the owner may.
pub fn set_fee(stats: &mut StatsData, caller: &Principal, fee: u128)
    requires
        caller@ == old(stats).owner@,
    ensures
        final(stats)@ == (StatsView { fee: fee, ..old(stats)@ }),
{
    stats.fee = fee;
}

/// Sets the receiver of fees; only the owner may.
pub fn set_fee_to(stats: &mut StatsData, caller: &Principal, fee_to: Principal)
    requires
        caller@ == old(stats).owner@,
    ensures
        final(stats)@ == (StatsView { fee_to: fee_to@, ..old(stats)@ }),
{
    stats.fee_to = fee_to;
}

/// Hands the token to a new owner; only the owner may.
pub fn set_owner(stats: &mut StatsData, caller: &Principal, owner: Principal)
    requires
        caller@ == old(stats).owner@,
    ensures
        final(stats)@ == (StatsView { owner: owner@, ..old(stats)@ }),
{
    stats.owner = owner;
}

/// The test that selects the records concerning `who`.
pub open spec fn involving(who: Seq<u8>) -> spec_fn(TxRecordView) -> bool {
    |r: TxRecordView| record_involves(r, who)
}

/// The records concerning `who`, in the order in which they were recorded.
pub open spec fn user_records(s: Seq<TxRecordView>, who: Seq<u8>) -> Seq<TxRecordView> {
    s.filter(involving(who))
}

/// The window `[start, start + limit)` of a principal's own records: those
/// of its records that exist in that window.
pub open spec fn window(u: Seq<TxRecordView>, start: u128, limit: u128) -> Seq<TxRecordView> {
    let n = u.len() as int;
    u.subrange(if start <= n { start as int } else { n }, if start + limit <= n { start + limit } else { n })
}

/// Filtering one more element of `s` adds it to the filtered prefix exactly
/// where it passes the test.
proof fn lemma_filter_take_step(s: Seq<TxRecordView>, p: spec_fn(TxRecordView) -> bool, i: int)
    requires
        0 <= i < s.len(),
    ensures
        s.take(i + 1).filter(p) == (if p(s[i]) {
            s.take(i).filter(p).push(s[i])
        } else {
            s.take(i).filter(p)
        }),
{
    reveal(Seq::filter);
    assert(s.take(i + 1).drop_last() =~= s.take(i));
    assert(s.take(i + 1).last() == s[i]);
}

/// The records concerning `who`, counted among that user's own records from
/// position `start` on, at most `limit` of them (not the global range of all
/// transactions); `limit` must not exceed `MAX_TRANSACTION_QUERY_LEN`.
pub fn get_user_transactions(ledger: &Ledger, who: &Principal, start: u128, limit: u128) -> (r: Vec<TxRecord>)
    requires
        ledger.wf(),
        limit <= MAX_TRANSACTION_QUERY_LEN,
    ensures
        r@.map_values(|t: TxRecord| t@) == window(user_records(ledger@.records, who@), start, limit),
{
    let txs = ledger.iter();
    let ghost all = ledger@.records;
    let ghost p = involving(who@);
    let mut transactions: Vec<TxRecord> = Vec::new();
    let mut count: usize = 0;
    let mut i: usize = 0;
    while i < txs.len()
        invariant
            i <= txs@.len(),
            all == ledger@.records,
            all == txs@.map_values(|t: TxRecord| t@),
            p == involving(who@),
            count == all.take(i as int).filter(p).len(),
            count <= i,
            transactions@.map_values(|t: TxRecord| t@) == window(all.take(i as int).filter(p), start, limit),
        decreases txs@.len() - i,
    {
        let ghost prev = transactions@;
        let ghost f = all.take(i as int).filter(p);
        proof {
            lemma_filter_take_step(all, p, i as int);
            assert(all[i as int] == txs@[i as int]@);
        }
        if txs[i].involves(who) {
            let ghost f2 = f.push(all[i as int]);
            if count as u128 >= start && (count as u128) - start < limit {
                let rec = txs[i].clone();
                transactions.push(rec);
                assert(transactions@.map_values(|t: TxRecord| t@) =~= prev.map_values(|t: TxRecord| t@).push(
                    rec@,
                ));
                assert(window(f2, start, limit) =~= window(f, start, limit).push(all[i as int]));
            } else {
                assert(window(f2, start, limit) =~= window(f, start, limit));
            }
            count = count + 1;
        }
        i = i + 1;
    }
    assert(all.take(txs@.len() as int) =~= all);
    transactions
}

/// The number of kept transactions that concern `who`.
pub fn get_user_transaction_amount(ledger: &Ledger, who: &Principal) -> (r: u128)
    requires
        ledger.wf(),
    ensures
        r == user_records(ledger@.records, who@).len(),
{
    let txs = ledger.iter();
    let ghost all = ledger@.records;
    let ghost p = involving(who@);
    let mut count: usize = 0;
    let mut i: usize = 0;
    while i < txs.len()
        invariant
            i <= txs@.len(),
            all == ledger@.records,
            all == txs@.map_values(|t: TxRecord| t@),
            p == involving(who@),
            count == all.take(i as int).filter(p).len(),
            count <= i,
        decreases txs@.len() - i,
    {
        proof {
            lemma_filter_take_step(all, p, i as int);
            assert(all[i as int] == txs@[i as int]@);
        }
        if txs[i].involves(who) {
            count = count + 1;
        }
        i = i + 1;
    }
    assert(all.take(txs@.len() as int) =~= all);
    count as u128
}

} // verus!
