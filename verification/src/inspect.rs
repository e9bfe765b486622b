use vstd::prelude::*;

use std::collections::HashSet;

use crate::amounts::{AmountMap, Allowances, Balances};
use crate::principal::Principal;
use crate::types::StatsData;

verus! {

broadcast use vstd::std_specs::hash::group_hash_axioms;

/// How an ingress call is checked before the canister accepts it.
#[derive(Debug, Clone, Copy, PartialEq, Eq, Structural)]
pub enum MethodKind {
    /// A query: accepted from anyone.
    Public,
    /// Accepted from the owner only.
    OwnerOnly,
    /// Accepted from principals that hold a balance.
    Transaction,
    /// Accepted where `from` allowed the caller to spend the amount.
    TransferFrom,
    /// Accepted where the notification is pending.
    Notify,
    /// Accepted when an auction is due, from the owner or a bidder.
    RunAuction,
    /// Never accepted through ingress.
    BidCycles,
    /// Not listed: never accepted.
    Unlisted,
}

/// The methods that anyone may call.
pub open spec fn is_public_method(m: Seq<char>) -> bool {
    ||| m == "allowance"@
    ||| m == "auctionInfo"@
    ||| m == "balanceOf"@
    ||| m == "biddingInfo"@
    ||| m == "decimals"@
    ||| m == "getAllowanceSize"@
    ||| m == "getHolders"@
    ||| m == "getMetadata"@
    ||| m == "getTokenInfo"@
    ||| m == "getTransaction"@
    ||| m == "getTransactions"@
    ||| m == "getUserApprovals"@
    ||| m == "getUserTransactionAmount"@
    ||| m == "getUserTransactions"@
    ||| m == "historySize"@
    ||| m == "logo"@
    ||| m == "name"@
    ||| m == "owner"@
    ||| m == "symbol"@
    ||| m == "totalSupply"@
}

/// The methods that only the owner may call.
pub open spec fn is_owner_method(m: Seq<char>) -> bool {
    ||| m == "mint"@
    ||| m == "setAuctionPeriod"@
    ||| m == "setFee"@
    ||| m == "setFeeTo"@
    ||| m == "setLogo"@
    ||| m == "setMinCycles"@
    ||| m == "setName"@
    ||| m == "setOwner"@
}

/// The methods that only holders of a balance may call.
pub open spec fn is_transaction_method(m: Seq<char>) -> bool {
    ||| m == "approve"@
    ||| m == "burn"@
    ||| m == "transfer"@
    ||| m == "transferAndNotify"@
    ||| m == "transferIncludeFee"@
}

/// How the method named `m` is checked.
pub open spec fn method_kind(m: Seq<char>) -> MethodKind {
    if is_public_method(m) {
        MethodKind::Public
    } else if is_owner_method(m) {
        MethodKind::OwnerOnly
    } else if is_transaction_method(m) {
        MethodKind::Transaction
    } else if m == "transferFrom"@ {
        MethodKind::TransferFrom
    } else if m == "notify"@ {
        MethodKind::Notify
    } else if m == "runAuction"@ {
        MethodKind::RunAuction
    } else if m == "bidCycles"@ {
        MethodKind::BidCycles
    } else {
        MethodKind::Unlisted
    }
}

fn named(m: &String, name: &str) -> (r: bool)
    ensures
        r == (m@ == name@),
{
    *m == String::from_str(name)
}

/// How the method named `method` is checked.
pub fn classify_method(method: &String) -> (k: MethodKind)
    ensures
        k == method_kind(method@),
{
    let m = method;
    if named(m, "allowance") || named(m, "auctionInfo") || named(m, "balanceOf") || named(m, "biddingInfo")
        || named(m, "decimals") || named(m, "getAllowanceSize") || named(m, "getHolders") || named(
        m,
        "getMetadata",
    ) || named(m, "getTokenInfo") || named(m, "getTransaction") || named(m, "getTransactions") || named(
        m,
        "getUserApprovals",
    ) || named(m, "getUserTransactionAmount") || named(m, "getUserTransactions") || named(m, "historySize")
        || named(m, "logo") || named(m, "name") || named(m, "owner") || named(m, "symbol") || named(
        m,
        "totalSupply",
    ) {
        MethodKind::Public
    } else if named(m, "mint") || named(m, "setAuctionPeriod") || named(m, "setFee") || named(m, "setFeeTo")
        || named(m, "setLogo") || named(m, "setMinCycles") || named(m, "setName") || named(m, "setOwner") {
        MethodKind::OwnerOnly
    } else if named(m, "approve") || named(m, "burn") || named(m, "transfer") || named(m, "transferAndNotify")
        || named(m, "transferIncludeFee") {
        MethodKind::Transaction
    } else if named(m, "transferFrom") {
        MethodKind::TransferFrom
    } else if named(m, "notify") {
        MethodKind::Notify
    } else if named(m, "runAuction") {
        MethodKind::RunAuction
    } else if named(m, "bidCycles") {
        MethodKind::BidCycles
    } else {
        MethodKind::Unlisted
    }
}

/// The arguments of a call that its check reads.
#[derive(Debug)]
pub enum MethodArgs {
    /// The check reads no argument.
    Unread,
    /// `transferFrom(from, to, value)`: the principal whose tokens move, and
    /// the amount.
    TransferFrom { from: Principal, value: u128 },
    /// `notify(tx_id)`: the transaction to notify about.
    Notify { tx_id: u128 },
}

/// Why an ingress call was refused.
#[derive(Debug, Clone, Copy, PartialEq, Eq, Structural)]
pub enum Rejection {
    /// An owner method, called by someone else.
    NotOwner,
    /// A transaction method, called by a principal without a balance.
    NotStakeholder,
    /// What `from` allowed the caller to spend is below the amount.
    AllowanceTooLow,
    /// `from` has not allowed the caller to spend its tokens.
    NoAllowance,
    /// No pending notification has the given id.
    NoPendingNotification,
    /// The auction is not due, or the caller is neither owner nor bidder.
    AuctionNotAllowed,
    /// Calls with cycles cannot come through ingress.
    CallWithCycles,
    /// The method is not listed.
    UnlistedMethod,
}

/// Whether an ingress call is accepted.
#[derive(Debug, Clone, Copy, PartialEq, Eq, Structural)]
pub enum InspectOutcome {
    Accept,
    Reject(Rejection),
}

/// What the check decides for a call of kind `kind` made by `caller`, with
/// the owner `owner`, the principals that hold a balance `holders`, the
/// allowances `allowances`, the pending notifications `pending`, whether an
/// auction is due, and the principals that placed bids `bidders`.
pub open spec fn spec_inspect(
    kind: MethodKind,
    caller: Seq<u8>,
    from: Seq<u8>,
    value: u128,
    tx_id: u128,
    owner: Seq<u8>,
    holders: Set<Seq<u8>>,
    allowances: Map<Seq<u8>, Map<Seq<u8>, u128>>,
    pending: Set<u128>,
    auction_due: bool,
    bidders: Set<Seq<u8>>,
) -> InspectOutcome {
    match kind {
        MethodKind::Public => InspectOutcome::Accept,
        MethodKind::OwnerOnly => if caller == owner {
            InspectOutcome::Accept
        } else {
            InspectOutcome::Reject(Rejection::NotOwner)
        },
        MethodKind::Transaction => if holders.contains(caller) {
            InspectOutcome::Accept
        } else {
            InspectOutcome::Reject(Rejection::NotStakeholder)
        },
        MethodKind::TransferFrom => if allowances.contains_key(from) && allowances[from].contains_key(caller) {
            if value <= allowances[from][caller] {
                InspectOutcome::Accept
            } else {
                InspectOutcome::Reject(Rejection::AllowanceTooLow)
            }
        } else {
            InspectOutcome::Reject(Rejection::NoAllowance)
        },
        MethodKind::Notify => if pending.contains(tx_id) {
            InspectOutcome::Accept
        } else {
            InspectOutcome::Reject(Rejection::NoPendingNotification)
        },
        MethodKind::RunAuction => if auction_due && (bidders.contains(caller) || caller == owner) {
            InspectOutcome::Accept
        } else {
            InspectOutcome::Reject(Rejection::AuctionNotAllowed)
        },
        MethodKind::BidCycles => InspectOutcome::Reject(Rejection::CallWithCycles),
        MethodKind::Unlisted => InspectOutcome::Reject(Rejection::UnlistedMethod),
    }
}

/// The `from` argument that the check reads, where there is one.
pub open spec fn args_from(args: MethodArgs) -> Seq<u8> {
    match args {
        MethodArgs::TransferFrom { from, value: _ } => from@,
        _ => Seq::empty(),
    }
}

/// The `value` argument that the check reads, where there is one.
pub open spec fn args_value(args: MethodArgs) -> u128 {
    match args {
        MethodArgs::TransferFrom { from: _, value } => value,
        _ => 0,
    }
}

/// The `tx_id` argument that the check reads, where there is one.
pub open spec fn args_tx_id(args: MethodArgs) -> u128 {
    match args {
        MethodArgs::Notify { tx_id } => tx_id,
        _ => 0,
    }
}

/// Decides whether the canister accepts an ingress call of kind `kind` made
/// by `caller`. Queries are accepted from anyone; owner methods from the
/// owner; transaction methods from holders of a balance; `transferFrom`
/// where `from` allowed the caller to spend at least the amount; `notify` where
/// the notification is pending; `runAuction` when an auction is due, from
/// the owner or a bidder; `bidCycles` and unlisted methods never.
pub fn inspect_message(
    kind: MethodKind,
    caller: &Principal,
    args: &MethodArgs,
    stats: &StatsData,
    balances: &Balances,
    allowances: &Allowances,
    notifications: &HashSet<u128>,
    auction_due: bool,
    bids: &AmountMap,
) -> (r: InspectOutcome)
    requires
        balances.0.wf(),
        allowances.wf(),
        bids.wf(),
        kind == MethodKind::TransferFrom ==> args is TransferFrom,
        kind == MethodKind::Notify ==> args is Notify,
    ensures
        r == spec_inspect(
            kind,
            caller@,
            args_from(*args),
            args_value(*args),
            args_tx_id(*args),
            stats.owner@,
            balances.0@.dom(),
            allowances@,
            notifications@,
            auction_due,
            bids@.dom(),
        ),
        ({
            let accepted = r == InspectOutcome::Accept;
            &&& kind == MethodKind::Public ==> accepted
            &&& kind == MethodKind::OwnerOnly ==> (accepted <==> caller@ == stats.owner@)
            &&& kind == MethodKind::Transaction ==> (accepted <==> balances.0@.contains_key(caller@))
            &&& kind == MethodKind::TransferFrom ==> (accepted <==> allowances@.contains_key(args_from(*args))
                && allowances@[args_from(*args)].contains_key(caller@) && args_value(*args)
                <= allowances@[args_from(*args)][caller@])
            &&& kind == MethodKind::Notify ==> (accepted <==> notifications@.contains(args_tx_id(*args)))
            &&& kind == MethodKind::RunAuction ==> (accepted <==> auction_due && (bids@.contains_key(caller@)
                || caller@ == stats.owner@))
            &&& kind == MethodKind::BidCycles ==> !accepted
            &&& kind == MethodKind::Unlisted ==> !accepted
        }),
{
    match kind {
        MethodKind::Public => InspectOutcome::Accept,
        MethodKind::OwnerOnly => {
            if caller.same(&stats.owner) {
                InspectOutcome::Accept
            } else {
                InspectOutcome::Reject(Rejection::NotOwner)
            }
        },
        MethodKind::Transaction => {
            if balances.0.contains_key(caller) {
                InspectOutcome::Accept
            } else {
                InspectOutcome::Reject(Rejection::NotStakeholder)
            }
        },
        MethodKind::TransferFrom => {
            match args {
                MethodArgs::TransferFrom { from, value } => {
                    match allowances.get(from) {
                        Some(spenders) => {
                            match spenders.get(caller) {
                                Some(allowance) => {
                                    if *value <= allowance {
                                        InspectOutcome::Accept
                                    } else {
                                        InspectOutcome::Reject(Rejection::AllowanceTooLow)
                                    }
                                },
                                None => InspectOutcome::Reject(Rejection::NoAllowance),
                            }
                        },
                        None => InspectOutcome::Reject(Rejection::NoAllowance),
                    }
                },
                _ => InspectOutcome::Reject(Rejection::NoAllowance),
            }
        },
        MethodKind::Notify => {
            match args {
                MethodArgs::Notify { tx_id } => {
                    if notifications.contains(tx_id) {
                        InspectOutcome::Accept
                    } else {
                        InspectOutcome::Reject(Rejection::NoPendingNotification)
                    }
                },
                _ => InspectOutcome::Reject(Rejection::NoPendingNotification),
            }
        },
        MethodKind::RunAuction => {
            if auction_due && (bids.contains_key(caller) || caller.same(&stats.owner)) {
                InspectOutcome::Accept
            } else {
                InspectOutcome::Reject(Rejection::AuctionNotAllowed)
            }
        },
        MethodKind::BidCycles => InspectOutcome::Reject(Rejection::CallWithCycles),
        MethodKind::Unlisted => InspectOutcome::Reject(Rejection::UnlistedMethod),
    }
}

} // verus!
