//! Theorems about the requests, stated on the ledger as a map. Together with
//! the contracts of the store they hold of every store that the requests can
//! reach.

use crate::account::{FisherAccount, FisherStats, WalletKey};
use crate::error::ErrorCode;
use crate::ledger::{
    catch_outcome, committed, initialize_outcome, ledger_consistent, restore_outcome,
    stats_outcome, GetFisherStats, InitializeFisher, RecordCatch,
};
use crate::rank::FisherRank;
use vstd::prelude::*;

verus! {

/// Reading a record right after it was opened shows the wallet with zero
/// catches, zero big fish, zero reputation and the rank `Minnow`.
pub proof fn lemma_opened_record_reads_zero(
    ledger: Map<WalletKey, FisherAccount>,
    ctx: InitializeFisher,
)
    requires
        initialize_outcome(ledger, ctx) is Ok,
    ensures
        stats_outcome(
            committed(ledger, ctx.wallet, initialize_outcome(ledger, ctx)),
            (GetFisherStats { wallet: ctx.wallet }),
        ) == Ok::<FisherStats, ErrorCode>(
            (FisherStats {
                wallet: ctx.wallet,
                total_catches: 0,
                big_fish_spotted: 0,
                reputation: 0,
                rank: FisherRank::Minnow,
            }),
        ),
{
}

/// Once a wallet's record was opened, every further request to open it is
/// refused with `AlreadyExists`, whoever signs it, and leaves the ledger as it
/// was.
pub proof fn lemma_second_initialize_rejected(
    ledger: Map<WalletKey, FisherAccount>,
    first: InitializeFisher,
    second: InitializeFisher,
)
    requires
        initialize_outcome(ledger, first) is Ok,
        second.wallet == first.wallet,
    ensures
        ({
            let opened = committed(ledger, first.wallet, initialize_outcome(ledger, first));
            &&& initialize_outcome(opened, second) == Err::<FisherAccount, ErrorCode>(
                ErrorCode::AlreadyExists,
            )
            &&& committed(opened, second.wallet, initialize_outcome(opened, second)) == opened
        }),
{
}

/// A catch signed by anyone but the record's owner is refused with
/// `Unauthorized`, whatever the score, and leaves the ledger as it was.
pub proof fn lemma_foreign_catch_rejected(
    ledger: Map<WalletKey, FisherAccount>,
    ctx: RecordCatch,
    score: u8,
)
    requires
        ledger.contains_key(ctx.wallet),
        ctx.user != ledger[ctx.wallet].wallet,
    ensures
        catch_outcome(ledger, ctx, score) == Err::<FisherAccount, ErrorCode>(
            ErrorCode::Unauthorized,
        ),
        committed(ledger, ctx.wallet, catch_outcome(ledger, ctx, score)) == ledger,
{
}

/// A catch that is refused for overflow, or for any other reason, leaves every
/// counter of every record at its value.
pub proof fn lemma_rejected_catch_changes_nothing(
    ledger: Map<WalletKey, FisherAccount>,
    ctx: RecordCatch,
    score: u8,
)
    requires
        catch_outcome(ledger, ctx, score) is Err,
    ensures
        committed(ledger, ctx.wallet, catch_outcome(ledger, ctx, score)) == ledger,
{
}

/// A counted catch keeps a consistent record consistent: the big fish stay
/// within the catches and the rank is that of the new reputation.
pub proof fn lemma_catch_keeps_consistent(account: FisherAccount, score: u8)
    requires
        account.consistent(),
        account.after_catch(score) is Ok,
    ensures
        account.after_catch(score)->Ok_0.consistent(),
        account.after_catch(score)->Ok_0.wallet == account.wallet,
{
}

/// No request breaks the consistency of the ledger. As the empty ledger is
/// consistent, every ledger that the requests can reach is.
pub proof fn lemma_requests_keep_consistent(
    ledger: Map<WalletKey, FisherAccount>,
    opening: InitializeFisher,
    catching: RecordCatch,
    score: u8,
    restored: FisherAccount,
)
    requires
        ledger_consistent(ledger),
    ensures
        ledger_consistent(Map::<WalletKey, FisherAccount>::empty()),
        ledger_consistent(
            committed(ledger, opening.wallet, initialize_outcome(ledger, opening)),
        ),
        ledger_consistent(
            committed(ledger, catching.wallet, catch_outcome(ledger, catching, score)),
        ),
        ledger_consistent(
            committed(ledger, restored.wallet, restore_outcome(ledger, restored)),
        ),
{
    if catch_outcome(ledger, catching, score) is Ok {
        lemma_catch_keeps_consistent(ledger[catching.wallet], score);
    }
}

/// In a consistent ledger no record has spotted more big fish than it has
/// made catches.
pub proof fn lemma_big_fish_within_catches(
    ledger: Map<WalletKey, FisherAccount>,
    wallet: WalletKey,
)
    requires
        ledger_consistent(ledger),
        ledger.contains_key(wallet),
    ensures
        ledger[wallet].big_fish_spotted <= ledger[wallet].total_catches,
{
}

/// No request removes a record, changes its owner, lowers one of its counters
/// or lowers its rank.
pub proof fn lemma_records_only_advance(
    ledger: Map<WalletKey, FisherAccount>,
    opening: InitializeFisher,
    catching: RecordCatch,
    score: u8,
    restored: FisherAccount,
    wallet: WalletKey,
)
    requires
        ledger_consistent(ledger),
        ledger.contains_key(wallet),
    ensures
        advanced(
            ledger[wallet],
            committed(ledger, opening.wallet, initialize_outcome(ledger, opening)),
        ),
        advanced(
            ledger[wallet],
            committed(ledger, catching.wallet, catch_outcome(ledger, catching, score)),
        ),
        advanced(
            ledger[wallet],
            committed(ledger, restored.wallet, restore_outcome(ledger, restored)),
        ),
{
    if catch_outcome(ledger, catching, score) is Ok {
        crate::rank::lemma_rank_monotone(
            ledger[catching.wallet].reputation as nat,
            ledger[catching.wallet].after_catch(score)->Ok_0.reputation as nat,
        );
    }
}

/// The ledger `later` still holds the record `earlier` of the same owner, with
/// no counter and no rank below what it was.
pub open spec fn advanced(earlier: FisherAccount, later: Map<WalletKey, FisherAccount>) -> bool {
    &&& later.contains_key(earlier.wallet)
    &&& later[earlier.wallet].wallet == earlier.wallet
    &&& later[earlier.wallet].total_catches >= earlier.total_catches
    &&& later[earlier.wallet].big_fish_spotted >= earlier.big_fish_spotted
    &&& later[earlier.wallet].reputation >= earlier.reputation
    &&& later[earlier.wallet].rank.tier() >= earlier.rank.tier()
}

} // verus!
