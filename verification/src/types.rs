use vstd::prelude::*;

use crate::principal::{anonymous_bytes, Principal};

verus! {

/// Nanoseconds since the Unix epoch, as the Internet Computer reports time.
pub type Timestamp = u64;

/// The token's settings and figures. Token amounts are held as `u128`.
#[derive(Debug)]
pub struct StatsData {
    pub logo: String,
    pub name: String,
    pub symbol: String,
    pub decimals: u8,
    pub total_supply: u128,
    pub owner: Principal,
    pub fee: u128,
    pub fee_to: Principal,
    pub deploy_time: u64,
    pub min_cycles: u64,
}

/// What a `StatsData` holds, as mathematical values.
pub struct StatsView {
    pub logo: Seq<char>,
    pub name: Seq<char>,
    pub symbol: Seq<char>,
    pub decimals: u8,
    pub total_supply: u128,
    pub owner: Seq<u8>,
    pub fee: u128,
    pub fee_to: Seq<u8>,
    pub deploy_time: u64,
    pub min_cycles: u64,
}

impl View for StatsData {
    type V = StatsView;

    open spec fn view(&self) -> StatsView {
        StatsView {
            logo: self.logo@,
            name: self.name@,
            symbol: self.symbol@,
            decimals: self.decimals,
            total_supply: self.total_supply,
            owner: self.owner@,
            fee: self.fee,
            fee_to: self.fee_to@,
            deploy_time: self.deploy_time,
            min_cycles: self.min_cycles,
        }
    }
}

impl Default for StatsData {
    /// Empty texts, zero figures, and the anonymous principal as owner and
    /// fee receiver.
    fn default() -> (r: Self)
        ensures
            r@ == (StatsView {
                logo: Seq::empty(),
                name: Seq::empty(),
                symbol: Seq::empty(),
                decimals: 0,
                total_supply: 0,
                owner: anonymous_bytes(),
                fee: 0,
                fee_to: anonymous_bytes(),
                deploy_time: 0,
                min_cycles: 0,
            }),
    {
        let r = StatsData {
            logo: String::new(),
            name: String::new(),
            symbol: String::new(),
            decimals: 0u8,
            total_supply: 0,
            owner: Principal::anonymous(),
            fee: 0,
            fee_to: Principal::anonymous(),
            deploy_time: 0,
            min_cycles: 0,
        };
        assert(r@.logo =~= Seq::<char>::empty());
        r
    }
}

/// The token's public description.
#[allow(non_snake_case)]
#[derive(Debug)]
pub struct Metadata {
    pub logo: String,
    pub name: String,
    pub symbol: String,
    pub decimals: u8,
    pub totalSupply: u128,
    pub owner: Principal,
    pub fee: u128,
    pub feeTo: Principal,
}

/// What a `Metadata` holds, as mathematical values.
#[allow(non_snake_case)]
pub struct MetadataView {
    pub logo: Seq<char>,
    pub name: Seq<char>,
    pub symbol: Seq<char>,
    pub decimals: u8,
    pub totalSupply: u128,
    pub owner: Seq<u8>,
    pub fee: u128,
    pub feeTo: Seq<u8>,
}

impl View for Metadata {
    type V = MetadataView;

    open spec fn view(&self) -> MetadataView {
        MetadataView {
            logo: self.logo@,
            name: self.name@,
            symbol: self.symbol@,
            decimals: self.decimals,
            totalSupply: self.totalSupply,
            owner: self.owner@,
            fee: self.fee,
            feeTo: self.feeTo@,
        }
    }
}

/// The token's description together with its running figures.
#[allow(non_snake_case)]
#[derive(Debug)]
pub struct TokenInfo {
    pub metadata: Metadata,
    pub feeTo: Principal,
    pub historySize: u128,
    pub deployTime: Timestamp,
    pub holderNumber: usize,
    pub cycles: u64,
}

/// Why a token operation was refused.
#[derive(Debug, Clone, Copy, PartialEq, Eq, Structural)]
pub enum TxError {
    InsufficientBalance,
    InsufficientAllowance,
    Unauthorized,
    AmountTooSmall,
    FeeExceededLimit,
    NotificationFailed,
    AlreadyNotified,
    TransactionDoesNotExist,
}

/// The outcome recorded for a transaction.
#[derive(Debug, Clone, Copy, PartialEq, Eq, Structural)]
pub enum TransactionStatus {
    Succeeded,
    Failed,
}

/// The kind of a recorded transaction.
#[derive(Debug, Clone, Copy, PartialEq, Eq, Structural)]
pub enum Operation {
    Approve,
    Mint,
    Transfer,
    TransferFrom,
    Burn,
    Auction,
}

} // verus!
