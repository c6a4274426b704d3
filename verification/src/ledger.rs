//! The ledger as a mathematical map from wallet to record, and what each
//! request yields on it. The executable store is specified against these
//! definitions.

use crate::account::{FisherAccount, FisherStats, WalletKey};
use crate::error::ErrorCode;
use vstd::prelude::*;

verus! {

/// Request to open the record of `wallet`, signed by `user`.
#[derive(Clone, Copy, Debug, PartialEq, Eq)]
pub struct InitializeFisher {
    /// The wallet whose record is opened.
    pub wallet: WalletKey,
    /// The wallet that signed the request.
    pub user: WalletKey,
}

/// Request to count a catch on the record of `wallet`, signed by `user`.
#[derive(Clone, Copy, Debug, PartialEq, Eq)]
pub struct RecordCatch {
    /// The wallet whose record is updated.
    pub wallet: WalletKey,
    /// The wallet that signed the request.
    pub user: WalletKey,
}

/// Request to read the record of `wallet`. Anyone may read.
#[derive(Clone, Copy, Debug, PartialEq, Eq)]
pub struct GetFisherStats {
    /// The wallet whose record is read.
    pub wallet: WalletKey,
}

/// Every record is filed under its own wallet and is consistent.
pub open spec fn ledger_consistent(ledger: Map<WalletKey, FisherAccount>) -> bool {
    forall|wallet: WalletKey| #[trigger]
        ledger.contains_key(wallet) ==> ledger[wallet].wallet == wallet
            && ledger[wallet].consistent()
}

/// Opening a record: refused when the wallet already has one, then when the
/// signer is not the wallet itself; otherwise the fresh record.
pub open spec fn initialize_outcome(
    ledger: Map<WalletKey, FisherAccount>,
    ctx: InitializeFisher,
) -> Result<FisherAccount, ErrorCode> {
    if ledger.contains_key(ctx.wallet) {
        Err(ErrorCode::AlreadyExists)
    } else if ctx.user != ctx.wallet {
        Err(ErrorCode::Unauthorized)
    } else {
        Ok(FisherAccount::fresh(ctx.wallet))
    }
}

/// Counting a catch: refused when the wallet has no record, then when the
/// signer is not the record's owner, then for the reasons the record itself
/// gives; otherwise the record after the catch.
pub open spec fn catch_outcome(
    ledger: Map<WalletKey, FisherAccount>,
    ctx: RecordCatch,
    score: u8,
) -> Result<FisherAccount, ErrorCode> {
    if !ledger.contains_key(ctx.wallet) {
        Err(ErrorCode::NotFound)
    } else if ctx.user != ledger[ctx.wallet].wallet {
        Err(ErrorCode::Unauthorized)
    } else {
        ledger[ctx.wallet].after_catch(score)
    }
}

/// Reading: the snapshot of the wallet's record, if it has one.
pub open spec fn stats_outcome(
    ledger: Map<WalletKey, FisherAccount>,
    ctx: GetFisherStats,
) -> Result<FisherStats, ErrorCode> {
    if ledger.contains_key(ctx.wallet) {
        Ok(ledger[ctx.wallet].snapshot())
    } else {
        Err(ErrorCode::NotFound)
    }
}

/// Taking over a record kept elsewhere: refused when its wallet already has a
/// record here, then when the record is not consistent.
pub open spec fn restore_outcome(
    ledger: Map<WalletKey, FisherAccount>,
    account: FisherAccount,
) -> Result<FisherAccount, ErrorCode> {
    if ledger.contains_key(account.wallet) {
        Err(ErrorCode::AlreadyExists)
    } else if !account.consistent() {
        Err(ErrorCode::InvalidInput)
    } else {
        Ok(account)
    }
}

/// The ledger after a request on `wallet`: an accepted request files the
/// record it yields, a rejected one leaves the ledger as it was.
pub open spec fn committed(
    ledger: Map<WalletKey, FisherAccount>,
    wallet: WalletKey,
    outcome: Result<FisherAccount, ErrorCode>,
) -> Map<WalletKey, FisherAccount> {
    match outcome {
        Ok(account) => ledger.insert(wallet, account),
        Err(_) => ledger,
    }
}

} // verus!
