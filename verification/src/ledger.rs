use vstd::prelude::*;

use crate::convert::{u128_to_usize, u128_to_usize_or_max};
use crate::designation::{Designation, DesignationList, DesignationView};
use crate::principal::Principal;
use crate::tx_record::{
    approve_record, auction_record, burn_record, mint_record, transfer_from_record, transfer_record, TxRecord,
    TxRecordView,
};
use crate::types::{Operation, Timestamp, TransactionStatus};

verus! {

/// The history keeps at most this many records once a batch has been removed.
pub const MAX_HISTORY_LENGTH: usize = 1_000_000;
/// How many of the oldest records are removed at one go when the history
/// grows past `MAX_HISTORY_LENGTH + HISTORY_REMOVAL_BATCH_SIZE`.
pub const HISTORY_REMOVAL_BATCH_SIZE: usize = 10_000;

/// The transaction history. Records are numbered from 0 in the order in
/// which they were added; the oldest ones are dropped in batches, and
/// `vec_offset` is the number of the oldest record still held.
#[derive(Debug)]
pub struct Ledger {
    history: Vec<TxRecord>,
    vec_offset: u128,
}

/// What a ledger holds: the number of the oldest record it still keeps, and
/// the records it keeps, oldest first.
pub struct LedgerView {
    pub offset: nat,
    pub records: Seq<TxRecordView>,
}

impl LedgerView {
    /// The number of records ever added: the number the next one gets.
    pub open spec fn len(self) -> nat {
        self.offset + self.records.len()
    }

    /// The record numbered `id`, where it is still kept.
    pub open spec fn get(self, id: int) -> Option<TxRecordView> {
        if self.offset <= id < self.len() {
            Some(self.records[id - self.offset])
        } else {
            None
        }
    }

    /// The ledger after adding `rec`: where more than
    /// `MAX_HISTORY_LENGTH + HISTORY_REMOVAL_BATCH_SIZE` records are then
    /// kept, the oldest `HISTORY_REMOVAL_BATCH_SIZE` of them are dropped.
    pub open spec fn push(self, rec: TxRecordView) -> LedgerView {
        let records = self.records.push(rec);
        if records.len() > MAX_HISTORY_LENGTH + HISTORY_REMOVAL_BATCH_SIZE {
            LedgerView {
                offset: self.offset + (HISTORY_REMOVAL_BATCH_SIZE as nat),
                records: records.skip(HISTORY_REMOVAL_BATCH_SIZE as int),
            }
        } else {
            LedgerView { offset: self.offset, records }
        }
    }

    /// The position in `records` of record number `start`: 0 where `start`
    /// was dropped already.
    pub open spec fn range_start(self, start: u128) -> int {
        if start < self.offset {
            0
        } else {
            start - self.offset
        }
    }

    /// The kept records from number `start` on, at most `limit` of them.
    pub open spec fn range(self, start: u128, limit: u128) -> Seq<TxRecordView> {
        let n = self.records.len() as int;
        let s = self.range_start(start);
        self.records.subrange(
            if s <= n { s } else { n },
            if s + limit <= n { s + limit } else { n },
        )
    }

    /// The invariant of a ledger: each kept record carries its own number,
    /// no more than `MAX_HISTORY_LENGTH + HISTORY_REMOVAL_BATCH_SIZE` records
    /// are kept, and the numbers fit in a `u128`.
    pub open spec fn valid(self) -> bool {
        &&& self.records.len() <= MAX_HISTORY_LENGTH + HISTORY_REMOVAL_BATCH_SIZE
        &&& self.len() <= u128::MAX
        &&& forall|i: int| 0 <= i < self.records.len() ==> #[trigger] self.records[i].index == self.offset + i
    }

    /// The ledger after recording a transfer from `from` to `to`, stamped
    /// `now`, under the next number.
    pub open spec fn after_transfer(
        self,
        from: Seq<u8>,
        to: Seq<u8>,
        amount: u128,
        fee: u128,
        now: Timestamp,
    ) -> LedgerView {
        self.push(transfer_record(self.len() as u128, from, to, amount, fee, now))
    }
}

impl View for Ledger {
    type V = LedgerView;

    closed spec fn view(&self) -> LedgerView {
        LedgerView {
            offset: self.vec_offset as nat,
            records: self.history@.map_values(|r: TxRecord| r@),
        }
    }
}

impl Default for Ledger {
    fn default() -> (r: Self)
        ensures
            r.wf(),
            r@.offset == 0,
            r@.records == Seq::<TxRecordView>::empty(),
    {
        Ledger::new()
    }
}

impl Ledger {
    pub open spec fn wf(&self) -> bool {
        self@.valid()
    }

    /// An empty ledger.
    pub fn new() -> (r: Ledger)
        ensures
            r.wf(),
            r@.offset == 0,
            r@.records == Seq::<TxRecordView>::empty(),
    {
        let r = Ledger { history: Vec::new(), vec_offset: 0 };
        assert(r@.records =~= Seq::<TxRecordView>::empty());
        r
    }

    /// The number of records ever added.
    pub fn len(&self) -> (r: u128)
        requires
            self.wf(),
        ensures
            r == self@.len(),
    {
        self.vec_offset + self.history.len() as u128
    }

    fn next_id(&self) -> (r: u128)
        requires
            self.wf(),
        ensures
            r == self@.len(),
    {
        self.vec_offset + self.history.len() as u128
    }

    /// The position in the kept history of record number `id`, where `id`
    /// was not dropped and the distance fits in a `usize`.
    fn get_index(&self, id: u128) -> (r: Option<usize>)
        ensures
            r == (if id < self@.offset {
                None::<usize>
            } else if id - self@.offset <= usize::MAX {
                Some((id - self@.offset) as usize)
            } else {
                None::<usize>
            }),
    {
        if id < self.vec_offset {
            None
        } else {
            u128_to_usize(id - self.vec_offset)
        }
    }

    /// The record numbered `id`, where it is still kept.
    pub fn get(&self, id: u128) -> (r: Option<TxRecord>)
        requires
            self.wf(),
        ensures
            match r {
                Some(rec) => self@.get(id as int) == Some(rec@),
                None => self@.get(id as int) is None,
            },
    {
        match self.get_index(id) {
            Some(i) => {
                if i < self.history.len() {
                    Some(self.history[i].clone())
                } else {
                    None
                }
            },
            None => None,
        }
    }

    /// The kept records from number `start` on, at most `limit` of them.
    pub fn get_range(&self, start: u128, limit: u128) -> (r: Vec<TxRecord>)
        requires
            self.wf(),
        ensures
            r@.map_values(|t: TxRecord| t@) == self@.range(start, limit),
    {
        let s: usize = match self.get_index(start) {
            Some(v) => v,
            None => {
                if start > self.vec_offset {
                    usize::MAX
                } else {
                    0
                }
            },
        };
        let l: usize = u128_to_usize_or_max(limit);
        let n: usize = self.history.len();
        let lo: usize = if s <= n { s } else { n };
        let hi: usize = if l <= n - lo { lo + l } else { n };
        assert(n <= MAX_HISTORY_LENGTH + HISTORY_REMOVAL_BATCH_SIZE);
        assert(lo == (if self@.range_start(start) <= n { self@.range_start(start) } else { n as int }));
        assert(hi == (if self@.range_start(start) + limit <= n { self@.range_start(start) + limit } else { n as int }));
        let mut out: Vec<TxRecord> = Vec::new();
        let mut i: usize = lo;
        while i < hi
            invariant
                lo <= i <= hi <= n,
                n == self.history@.len(),
                out@.map_values(|t: TxRecord| t@) == self@.records.subrange(lo as int, i as int),
            decreases hi - i,
        {
            let rec = self.history[i].clone();
            assert(rec@ == self@.records[i as int]);
            let ghost prev = out@;
            out.push(rec);
            assert(out@.map_values(|t: TxRecord| t@) =~= prev.map_values(|t: TxRecord| t@).push(rec@));
            i = i + 1;
            assert(out@.map_values(|t: TxRecord| t@) =~= self@.records.subrange(lo as int, i as int));
        }
        assert(self@.records.subrange(lo as int, hi as int) =~= self@.range(start, limit));
        out
    }

    /// The kept records, oldest first.
    pub fn iter(&self) -> (r: &[TxRecord])
        ensures
            r@.map_values(|t: TxRecord| t@) == self@.records,
    {
        self.history.as_slice()
    }

    /// Adds a record that carries the next number.
    fn push(&mut self, record: TxRecord)
        requires
            old(self).wf(),
            old(self)@.len() < u128::MAX,
            record@.index == old(self)@.len(),
        ensures
            final(self).wf(),
            final(self)@ == old(self)@.push(record@),
            final(self)@.len() == old(self)@.len() + 1,
            final(self)@.get(old(self)@.len() as int) == Some(record@),
    {
        let ghost rv = record@;
        proof {
            crate::laws::law_push_then_get(old(self)@, rv);
        }
        self.history.push(record);
        assert(self@.records =~= old(self)@.records.push(rv));
        if self.history.len() > MAX_HISTORY_LENGTH + HISTORY_REMOVAL_BATCH_SIZE {
            let ghost before = self@.records;
            let kept = self.history.split_off(HISTORY_REMOVAL_BATCH_SIZE);
            self.history = kept;
            self.vec_offset = self.vec_offset + HISTORY_REMOVAL_BATCH_SIZE as u128;
            assert(self@.records =~= before.skip(HISTORY_REMOVAL_BATCH_SIZE as int));
        }
    }

    /// Records a transfer from `from` to `to`, stamped `now`, and returns its
    /// number.
    pub fn transfer(&mut self, from: Principal, to: Principal, amount: u128, fee: u128, now: Timestamp) -> (id: u128)
        requires
            old(self).wf(),
            old(self)@.len() < u128::MAX,
        ensures
            id == old(self)@.len(),
            final(self).wf(),
            final(self)@ == old(self)@.after_transfer(from@, to@, amount, fee, now),
            final(self)@.get(id as int) == Some(
                (TxRecordView {
                    caller: Some(from@),
                    index: id,
                    from: from@,
                    to: to@,
                    amount: amount,
                    fee: fee,
                    timestamp: now,
                    status: TransactionStatus::Succeeded,
                    operation: Operation::Transfer,
                }),
            ),
    {
        let id: u128 = self.next_id();
        self.push(TxRecord::transfer(id, from, to, amount, fee, now));
        id
    }

    /// Records a transfer stamped `now` and designates `to` with `role` at
    /// `now`, locking `amount`.
    fn transfer_with_role(
        &mut self,
        designations: &mut DesignationList,
        role: String,
        from: Principal,
        to: Principal,
        amount: u128,
        fee: u128,
        now: Timestamp,
    ) -> (id: u128)
        requires
            old(self).wf(),
            old(self)@.len() < u128::MAX,
        ensures
            id == old(self)@.len(),
            final(self).wf(),
            final(self)@ == old(self)@.after_transfer(from@, to@, amount, fee, now),
            final(self)@.get(id as int) == Some(
                (TxRecordView {
                    caller: Some(from@),
                    index: id,
                    from: from@,
                    to: to@,
                    amount: amount,
                    fee: fee,
                    timestamp: now,
                    status: TransactionStatus::Succeeded,
                    operation: Operation::Transfer,
                }),
            ),
            final(designations)@ == old(designations)@.push(
                DesignationView {
                    owner: to@,
                    role: role@,
                    assignment_time: now,
                    tokens: amount,
                },
            ),
    {
        let id: u128 = self.next_id();
        let owner = to.clone();
        self.push(TxRecord::transfer(id, from, to, amount, fee, now));
        designations.push(Designation { owner, role, assignment_time: now, tokens: amount });
        id
    }

    /// Records a transfer to an investor, who is designated with the role
    /// "investor" and the transferred amount locked, both at `now`.
    pub fn transfer_to_investor(
        &mut self,
        designations: &mut DesignationList,
        from: Principal,
        to: Principal,
        amount: u128,
        fee: u128,
        now: Timestamp,
    ) -> (id: u128)
        requires
            old(self).wf(),
            old(self)@.len() < u128::MAX,
        ensures
            id == old(self)@.len(),
            final(self).wf(),
            final(self)@ == old(self)@.after_transfer(from@, to@, amount, fee, now),
            final(self)@.get(id as int) == Some(
                (TxRecordView {
                    caller: Some(from@),
                    index: id,
                    from: from@,
                    to: to@,
                    amount: amount,
                    fee: fee,
                    timestamp: now,
                    status: TransactionStatus::Succeeded,
                    operation: Operation::Transfer,
                }),
            ),
            final(designations)@ == old(designations)@.push(
                DesignationView {
                    owner: to@,
                    role: "investor"@,
                    assignment_time: now,
                    tokens: amount,
                },
            ),
    {
        self.transfer_with_role(designations, String::from_str("investor"), from, to, amount, fee, now)
    }

    /// Records a transfer to a founder, who is designated with the role
    /// "founder" and the transferred amount locked, both at `now`.
    pub fn transfer_to_founder(
        &mut self,
        designations: &mut DesignationList,
        from: Principal,
        to: Principal,
        amount: u128,
        fee: u128,
        now: Timestamp,
    ) -> (id: u128)
        requires
            old(self).wf(),
            old(self)@.len() < u128::MAX,
        ensures
            id == old(self)@.len(),
            final(self).wf(),
            final(self)@ == old(self)@.after_transfer(from@, to@, amount, fee, now),
            final(self)@.get(id as int) == Some(
                (TxRecordView {
                    caller: Some(from@),
                    index: id,
                    from: from@,
                    to: to@,
                    amount: amount,
                    fee: fee,
                    timestamp: now,
                    status: TransactionStatus::Succeeded,
                    operation: Operation::Transfer,
                }),
            ),
            final(designations)@ == old(designations)@.push(
                DesignationView {
                    owner: to@,
                    role: "founder"@,
                    assignment_time: now,
                    tokens: amount,
                },
            ),
    {
        self.transfer_with_role(designations, String::from_str("founder"), from, to, amount, fee, now)
    }

    /// Records a transfer to an advisor, who is designated with the role
    /// "advisor" and the transferred amount locked, both at `now`.
    pub fn transfer_to_advisor(
        &mut self,
        designations: &mut DesignationList,
        from: Principal,
        to: Principal,
        amount: u128,
        fee: u128,
        now: Timestamp,
    ) -> (id: u128)
        requires
            old(self).wf(),
            old(self)@.len() < u128::MAX,
        ensures
            id == old(self)@.len(),
            final(self).wf(),
            final(self)@ == old(self)@.after_transfer(from@, to@, amount, fee, now),
            final(self)@.get(id as int) == Some(
                (TxRecordView {
                    caller: Some(from@),
                    index: id,
                    from: from@,
                    to: to@,
                    amount: amount,
                    fee: fee,
                    timestamp: now,
                    status: TransactionStatus::Succeeded,
                    operation: Operation::Transfer,
                }),
            ),
            final(designations)@ == old(designations)@.push(
                DesignationView {
                    owner: to@,
                    role: "advisor"@,
                    assignment_time: now,
                    tokens: amount,
                },
            ),
    {
        self.transfer_with_role(designations, String::from_str("advisor"), from, to, amount, fee, now)
    }

    /// Records a transfer made by `caller` on behalf of `from`, stamped `now`.
    pub fn transfer_from(
        &mut self,
        caller: Principal,
        from: Principal,
        to: Principal,
        amount: u128,
        fee: u128,
        now: Timestamp,
    ) -> (id: u128)
        requires
            old(self).wf(),
            old(self)@.len() < u128::MAX,
        ensures
            id == old(self)@.len(),
            final(self).wf(),
            final(self)@ == old(self)@.push(
                transfer_from_record(id, caller@, from@, to@, amount, fee, now),
            ),
            final(self)@.get(id as int) == Some(
                (TxRecordView {
                    caller: Some(caller@),
                    index: id,
                    from: from@,
                    to: to@,
                    amount: amount,
                    fee: fee,
                    timestamp: now,
                    status: TransactionStatus::Succeeded,
                    operation: Operation::TransferFrom,
                }),
            ),
    {
        let id: u128 = self.next_id();
        self.push(TxRecord::transfer_from(id, caller, from, to, amount, fee, now));
        id
    }

    /// Records an approval of `to` as a spender of `from`'s tokens, stamped
    /// `now`.
    pub fn approve(&mut self, from: Principal, to: Principal, amount: u128, fee: u128, now: Timestamp) -> (id: u128)
        requires
            old(self).wf(),
            old(self)@.len() < u128::MAX,
        ensures
            id == old(self)@.len(),
            final(self).wf(),
            final(self)@ == old(self)@.push(
                approve_record(id, from@, to@, amount, fee, now),
            ),
            final(self)@.get(id as int) == Some(
                (TxRecordView {
                    caller: Some(from@),
                    index: id,
                    from: from@,
                    to: to@,
                    amount: amount,
                    fee: fee,
                    timestamp: now,
                    status: TransactionStatus::Succeeded,
                    operation: Operation::Approve,
                }),
            ),
    {
        let id: u128 = self.next_id();
        self.push(TxRecord::approve(id, from, to, amount, fee, now));
        id
    }

    /// Records a mint stamped `now`, and empties the designation list.
    pub fn mint(
        &mut self,
        designations: &mut DesignationList,
        from: Principal,
        to: Principal,
        amount: u128,
        now: Timestamp,
    ) -> (id: u128)
        requires
            old(self).wf(),
            old(self)@.len() < u128::MAX,
        ensures
            id == old(self)@.len(),
            final(self).wf(),
            final(self)@ == old(self)@.push(mint_record(id, from@, to@, amount, now)),
            final(self)@.get(id as int) == Some(
                (TxRecordView {
                    caller: Some(from@),
                    index: id,
                    from: from@,
                    to: to@,
                    amount: amount,
                    fee: 0,
                    timestamp: now,
                    status: TransactionStatus::Succeeded,
                    operation: Operation::Mint,
                }),
            ),
            final(designations)@ == Seq::<DesignationView>::empty(),
    {
        let id: u128 = self.len();
        self.push(TxRecord::mint(id, from, to, amount, now));
        crate::designation::init_dl(designations);
        id
    }

    /// Records a burn of the caller's tokens, stamped `now`.
    pub fn burn(&mut self, caller: Principal, amount: u128, now: Timestamp) -> (id: u128)
        requires
            old(self).wf(),
            old(self)@.len() < u128::MAX,
        ensures
            id == old(self)@.len(),
            final(self).wf(),
            final(self)@ == old(self)@.push(burn_record(id, caller@, amount, now)),
            final(self)@.get(id as int) == Some(
                (TxRecordView {
                    caller: Some(caller@),
                    index: id,
                    from: caller@,
                    to: caller@,
                    amount: amount,
                    fee: 0,
                    timestamp: now,
                    status: TransactionStatus::Succeeded,
                    operation: Operation::Burn,
                }),
            ),
    {
        let id: u128 = self.next_id();
        self.push(TxRecord::burn(id, caller, amount, now));
        id
    }

    /// Records the tokens that an auction hands to `to`, stamped `now`.
    pub fn auction(&mut self, to: Principal, amount: u128, now: Timestamp)
        requires
            old(self).wf(),
            old(self)@.len() < u128::MAX,
        ensures
            final(self).wf(),
            final(self)@ == old(self)@.push(
                auction_record(old(self)@.len() as u128, to@, amount, now),
            ),
            final(self)@.get(old(self)@.len() as int) == Some(
                (TxRecordView {
                    caller: Some(to@),
                    index: (old(self)@.len() as u128),
                    from: to@,
                    to: to@,
                    amount: amount,
                    fee: 0,
                    timestamp: now,
                    status: TransactionStatus::Succeeded,
                    operation: Operation::Auction,
                }),
            ),
    {
        let id: u128 = self.next_id();
        self.push(TxRecord::auction(id, to, amount, now))
    }
}

} // verus!
