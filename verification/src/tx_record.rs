use vstd::prelude::*;

use crate::principal::Principal;
use crate::types::{Operation, Timestamp, TransactionStatus};

verus! {

/// One entry of the transaction history.
#[derive(Debug, PartialEq, Eq)]
pub struct TxRecord {
    pub caller: Option<Principal>,
    pub index: u128,
    pub from: Principal,
    pub to: Principal,
    pub amount: u128,
    pub fee: u128,
    pub timestamp: Timestamp,
    pub status: TransactionStatus,
    pub operation: Operation,
}

/// What a `TxRecord` holds, as mathematical values.
pub struct TxRecordView {
    pub caller: Option<Seq<u8>>,
    pub index: u128,
    pub from: Seq<u8>,
    pub to: Seq<u8>,
    pub amount: u128,
    pub fee: u128,
    pub timestamp: Timestamp,
    pub status: TransactionStatus,
    pub operation: Operation,
}

pub open spec fn option_principal_view(p: Option<Principal>) -> Option<Seq<u8>> {
    match p {
        Some(q) => Some(q@),
        None => None,
    }
}

impl View for TxRecord {
    type V = TxRecordView;

    open spec fn view(&self) -> TxRecordView {
        TxRecordView {
            caller: option_principal_view(self.caller),
            index: self.index,
            from: self.from@,
            to: self.to@,
            amount: self.amount,
            fee: self.fee,
            timestamp: self.timestamp,
            status: self.status,
            operation: self.operation,
        }
    }
}

/// A succeeded record with the given fields.
pub open spec fn succeeded_record(
    operation: Operation,
    index: u128,
    caller: Seq<u8>,
    from: Seq<u8>,
    to: Seq<u8>,
    amount: u128,
    fee: u128,
    timestamp: Timestamp,
) -> TxRecordView {
    TxRecordView {
        caller: Some(caller),
        index,
        from,
        to,
        amount,
        fee,
        timestamp,
        status: TransactionStatus::Succeeded,
        operation,
    }
}

/// A transfer, made by `from`.
pub open spec fn transfer_record(
    index: u128,
    from: Seq<u8>,
    to: Seq<u8>,
    amount: u128,
    fee: u128,
    timestamp: Timestamp,
) -> TxRecordView {
    succeeded_record(Operation::Transfer, index, from, from, to, amount, fee, timestamp)
}

/// A transfer on behalf of `from`, made by `caller`.
pub open spec fn transfer_from_record(
    index: u128,
    caller: Seq<u8>,
    from: Seq<u8>,
    to: Seq<u8>,
    amount: u128,
    fee: u128,
    timestamp: Timestamp,
) -> TxRecordView {
    succeeded_record(Operation::TransferFrom, index, caller, from, to, amount, fee, timestamp)
}

/// An approval of `to` as spender of `from`'s tokens, made by `from`.
pub open spec fn approve_record(
    index: u128,
    from: Seq<u8>,
    to: Seq<u8>,
    amount: u128,
    fee: u128,
    timestamp: Timestamp,
) -> TxRecordView {
    succeeded_record(Operation::Approve, index, from, from, to, amount, fee, timestamp)
}

/// A mint to `to`, made by `from`, without fee.
pub open spec fn mint_record(
    index: u128,
    from: Seq<u8>,
    to: Seq<u8>,
    amount: u128,
    timestamp: Timestamp,
) -> TxRecordView {
    succeeded_record(Operation::Mint, index, from, from, to, amount, 0, timestamp)
}

/// A burn of the caller's own tokens, without fee.
pub open spec fn burn_record(index: u128, caller: Seq<u8>, amount: u128, timestamp: Timestamp) -> TxRecordView {
    succeeded_record(Operation::Burn, index, caller, caller, caller, amount, 0, timestamp)
}

/// The tokens that an auction hands to `to`, without fee.
pub open spec fn auction_record(index: u128, to: Seq<u8>, amount: u128, timestamp: Timestamp) -> TxRecordView {
    succeeded_record(Operation::Auction, index, to, to, to, amount, 0, timestamp)
}

impl TxRecord {
    pub fn transfer(
        index: u128,
        from: Principal,
        to: Principal,
        amount: u128,
        fee: u128,
        timestamp: Timestamp,
    ) -> (r: TxRecord)
        ensures
            r@ == transfer_record(index, from@, to@, amount, fee, timestamp),
    {
        TxRecord {
            caller: Some(from.clone()),
            index,
            from,
            to,
            amount,
            fee,
            timestamp,
            status: TransactionStatus::Succeeded,
            operation: Operation::Transfer,
        }
    }

    pub fn transfer_from(
        index: u128,
        caller: Principal,
        from: Principal,
        to: Principal,
        amount: u128,
        fee: u128,
        timestamp: Timestamp,
    ) -> (r: TxRecord)
        ensures
            r@ == transfer_from_record(index, caller@, from@, to@, amount, fee, timestamp),
    {
        TxRecord {
            caller: Some(caller),
            index,
            from,
            to,
            amount,
            fee,
            timestamp,
            status: TransactionStatus::Succeeded,
            operation: Operation::TransferFrom,
        }
    }

    pub fn approve(
        index: u128,
        from: Principal,
        to: Principal,
        amount: u128,
        fee: u128,
        timestamp: Timestamp,
    ) -> (r: TxRecord)
        ensures
            r@ == approve_record(index, from@, to@, amount, fee, timestamp),
    {
        TxRecord {
            caller: Some(from.clone()),
            index,
            from,
            to,
            amount,
            fee,
            timestamp,
            status: TransactionStatus::Succeeded,
            operation: Operation::Approve,
        }
    }

    pub fn mint(index: u128, from: Principal, to: Principal, amount: u128, timestamp: Timestamp) -> (r: TxRecord)
        ensures
            r@ == mint_record(index, from@, to@, amount, timestamp),
    {
        TxRecord {
            caller: Some(from.clone()),
            index,
            from,
            to,
            amount,
            fee: 0,
            timestamp,
            status: TransactionStatus::Succeeded,
            operation: Operation::Mint,
        }
    }

    pub fn burn(index: u128, caller: Principal, amount: u128, timestamp: Timestamp) -> (r: TxRecord)
        ensures
            r@ == burn_record(index, caller@, amount, timestamp),
    {
        TxRecord {
            caller: Some(caller.clone()),
            index,
            from: caller.clone(),
            to: caller,
            amount,
            fee: 0,
            timestamp,
            status: TransactionStatus::Succeeded,
            operation: Operation::Burn,
        }
    }

    pub fn auction(index: u128, to: Principal, amount: u128, timestamp: Timestamp) -> (r: TxRecord)
        ensures
            r@ == auction_record(index, to@, amount, timestamp),
    {
        TxRecord {
            caller: Some(to.clone()),
            index,
            from: to.clone(),
            to,
            amount,
            fee: 0,
            timestamp,
            status: TransactionStatus::Succeeded,
            operation: Operation::Auction,
        }
    }

    /// Whether the record concerns `who`: as sender, receiver or caller.
    pub fn involves(&self, who: &Principal) -> (r: bool)
        ensures
            r == record_involves(self@, who@),
    {
        if self.from.same(who) || self.to.same(who) {
            true
        } else {
            match &self.caller {
                Some(c) => c.same(who),
                None => false,
            }
        }
    }
}

/// A record concerns `who` when `who` sent, received or made it.
pub open spec fn record_involves(r: TxRecordView, who: Seq<u8>) -> bool {
    r.from == who || r.to == who || r.caller == Some(who)
}

impl Clone for TxRecord {
    fn clone(&self) -> (r: Self)
        ensures
            r@ == self@,
    {
        let caller = match &self.caller {
            Some(c) => Some(c.clone()),
            None => None,
        };
        TxRecord {
            caller,
            index: self.index,
            from: self.from.clone(),
            to: self.to.clone(),
            amount: self.amount,
            fee: self.fee,
            timestamp: self.timestamp,
            status: self.status,
            operation: self.operation,
        }
    }
}

} // verus!
