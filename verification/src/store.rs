//! The executable ledger: records kept in memory, one per wallet, and the
//! requests that create, update and read them.

use crate::account::{same_wallet, FisherAccount, FisherStats, WalletKey};
use crate::error::ErrorCode;
use crate::ledger::{
    catch_outcome, committed, initialize_outcome, ledger_consistent, restore_outcome,
    stats_outcome, GetFisherStats, InitializeFisher, RecordCatch,
};
use vstd::prelude::*;

verus! {

/// What a counted catch reports for the audit trail. It is handed to the
/// caller and not kept in the record.
#[derive(Debug, PartialEq, Eq)]
pub struct CatchEvent {
    /// The token that was scanned.
    pub token_address: String,
    /// The score the scan reported.
    pub big_fish_score: u8,
    /// The owner's reputation after the catch.
    pub reputation: u64,
}

/// Records in the order in which they were filed.
pub struct FisherStore {
    records: Vec<FisherAccount>,
}

impl View for FisherStore {
    type V = Map<WalletKey, FisherAccount>;

    /// The records by owner.
    closed spec fn view(&self) -> Map<WalletKey, FisherAccount> {
        Map::new(
            |wallet: WalletKey| exists|slot: int| self.at(slot, wallet),
            |wallet: WalletKey| self.records@[self.slot_of(wallet)],
        )
    }
}

impl FisherStore {
    /// The record in `slot` belongs to `wallet`.
    spec fn at(self, slot: int, wallet: WalletKey) -> bool {
        0 <= slot < self.records@.len() && self.records@[slot].wallet == wallet
    }

    /// A slot that holds the record of `wallet`, if there is one.
    spec fn slot_of(self, wallet: WalletKey) -> int {
        choose|slot: int| self.at(slot, wallet)
    }

    /// No wallet has two records, and every record is consistent.
    pub closed spec fn wf(self) -> bool {
        &&& forall|i: int, j: int|
            0 <= i < j < self.records@.len() ==> self.records@[i].wallet
                != self.records@[j].wallet
        &&& forall|i: int|
            0 <= i < self.records@.len() ==> (#[trigger] self.records@[i]).consistent()
    }

    /// A well-formed store files every record under its own wallet and holds
    /// consistent records only.
    pub proof fn lemma_wf_ledger(self)
        requires
            self.wf(),
        ensures
            ledger_consistent(self@),
    {
        assert forall|wallet: WalletKey| #[trigger]
            self@.contains_key(wallet) implies self@[wallet].wallet == wallet
            && self@[wallet].consistent() by {
            let slot = self.slot_of(wallet);
            assert(self.at(slot, wallet));
        }
    }

    /// The record that a slot holds is the one the view shows for its owner.
    proof fn lemma_present(self, slot: int, wallet: WalletKey)
        requires
            self.wf(),
            self.at(slot, wallet),
        ensures
            self@.contains_key(wallet),
            self@[wallet] == self.records@[slot],
    {
        let chosen = self.slot_of(wallet);
        assert(self.at(chosen, wallet));
        assert(chosen == slot);
    }

    /// A wallet that no slot holds is not in the view.
    proof fn lemma_absent(self, wallet: WalletKey)
        requires
            forall|slot: int| !self.at(slot, wallet),
        ensures
            !self@.contains_key(wallet),
    {
    }

    /// An empty store.
    pub fn new() -> (store: FisherStore)
        ensures
            store.wf(),
            store@ == Map::<WalletKey, FisherAccount>::empty(),
    {
        let store = FisherStore { records: Vec::new() };
        assert(store@ =~= Map::<WalletKey, FisherAccount>::empty());
        store
    }

    /// The slot that holds the record of `wallet`, if one does.
    fn find(&self, wallet: &WalletKey) -> (found: Option<usize>)
        ensures
            match found {
                Some(slot) => self.at(slot as int, *wallet),
                None => forall|slot: int| !self.at(slot, *wallet),
            },
    {
        let mut i: usize = 0;
        while i < self.records.len()
            invariant
                i <= self.records@.len(),
                forall|slot: int| 0 <= slot < i ==> !self.at(slot, *wallet),
            decreases self.records@.len() - i,
        {
            if same_wallet(&self.records[i].wallet, wallet) {
                return Some(i);
            }
            i += 1;
        }
        None
    }

    /// How the view changes when the record of a wallet is set: `after` has
    /// the records of `before`, but for the record of `account.wallet`, which
    /// is `account`.
    proof fn lemma_view_after_insert(
        before: FisherStore,
        after: FisherStore,
        account: FisherAccount,
    )
        requires
            before.wf(),
            after.wf(),
            exists|slot: int| after.at(slot, account.wallet) && after.records@[slot] == account,
            forall|slot: int, wallet: WalletKey|
                wallet != account.wallet ==> (#[trigger] before.at(slot, wallet)
                    <==> #[trigger] after.at(slot, wallet)),
            forall|slot: int, wallet: WalletKey|
                wallet != account.wallet && #[trigger] before.at(slot, wallet)
                    ==> before.records@[slot] == after.records@[slot],
        ensures
            after@ == before@.insert(account.wallet, account),
    {
        let merged = before@.insert(account.wallet, account);
        assert forall|wallet: WalletKey| after@.contains_key(wallet) == merged.contains_key(
            wallet,
        ) by {
            if wallet != account.wallet {
                if after@.contains_key(wallet) {
                    assert(before.at(after.slot_of(wallet), wallet));
                }
                if before@.contains_key(wallet) {
                    assert(after.at(before.slot_of(wallet), wallet));
                }
            }
        }
        assert forall|wallet: WalletKey| after@.contains_key(wallet) implies after@[wallet]
            == merged[wallet] by {
            if wallet == account.wallet {
                let slot = choose|slot: int|
                    after.at(slot, account.wallet) && after.records@[slot] == account;
                after.lemma_present(slot, wallet);
            } else {
                assert(merged.contains_key(wallet));
                let slot = before.slot_of(wallet);
                assert(before.at(slot, wallet));
                before.lemma_present(slot, wallet);
                after.lemma_present(slot, wallet);
            }
        }
        assert(after@ =~= merged);
    }

    /// Files the record of a wallet that has none.
    fn file(&mut self, account: FisherAccount)
        requires
            old(self).wf(),
            !old(self)@.contains_key(account.wallet),
            account.consistent(),
        ensures
            final(self).wf(),
            final(self)@ == old(self)@.insert(account.wallet, account),
    {
        let ghost before = *self;
        self.records.push(account);
        proof {
            assert(self.records@ == before.records@.push(account));
            assert forall|slot: int|
                0 <= slot < before.records@.len() implies before.records@[slot].wallet
                != account.wallet by {
                if before.at(slot, account.wallet) {
                    before.lemma_present(slot, account.wallet);
                }
            }
            assert(self.at(before.records@.len() as int, account.wallet));
            Self::lemma_view_after_insert(before, *self, account);
        }
    }

    /// Puts `account` in the place of the record in `slot`, which has the
    /// same owner.
    fn refile(&mut self, slot: usize, account: FisherAccount)
        requires
            old(self).wf(),
            old(self).at(slot as int, account.wallet),
            account.consistent(),
        ensures
            final(self).wf(),
            final(self)@ == old(self)@.insert(account.wallet, account),
    {
        let ghost before = *self;
        self.records[slot] = account;
        proof {
            assert(self.at(slot as int, account.wallet));
            Self::lemma_view_after_insert(before, *self, account);
        }
    }

    /// Whether `wallet` has a record.
    pub fn contains(&self, wallet: &WalletKey) -> (present: bool)
        requires
            self.wf(),
        ensures
            present == self@.contains_key(*wallet),
    {
        match self.find(wallet) {
            Some(slot) => {
                proof {
                    self.lemma_present(slot as int, *wallet);
                }
                true
            },
            None => {
                proof {
                    self.lemma_absent(*wallet);
                }
                false
            },
        }
    }

    /// Takes over a record that was kept elsewhere, counters included. The
    /// record is refused with `AlreadyExists` when its wallet has a record
    /// here, and with `InvalidInput` when it is not consistent; a record that
    /// is here is never replaced.
    pub fn restore(&mut self, account: FisherAccount) -> (result: Result<(), ErrorCode>)
        requires
            old(self).wf(),
        ensures
            final(self).wf(),
            match restore_outcome(old(self)@, account) {
                Ok(_) => result is Ok,
                Err(code) => result == Err::<(), ErrorCode>(code),
            },
            final(self)@ == committed(
                old(self)@,
                account.wallet,
                restore_outcome(old(self)@, account),
            ),
    {
        if self.contains(&account.wallet) {
            return Err(ErrorCode::AlreadyExists);
        }
        if !account.is_consistent() {
            return Err(ErrorCode::InvalidInput);
        }
        self.file(account);
        Ok(())
    }
}

/// Opens the record of `ctx.wallet` with all counters at zero and the lowest
/// rank, and returns it. The request is refused with `AlreadyExists` when the
/// wallet has a record, and otherwise with `Unauthorized` when it was not
/// signed by the wallet itself. A refused request changes nothing.
pub fn initialize_fisher(store: &mut FisherStore, ctx: InitializeFisher) -> (result: Result<
    FisherAccount,
    ErrorCode,
>)
    requires
        old(store).wf(),
    ensures
        final(store).wf(),
        result == initialize_outcome(old(store)@, ctx),
        final(store)@ == committed(old(store)@, ctx.wallet, result),
{
    if store.contains(&ctx.wallet) {
        return Err(ErrorCode::AlreadyExists);
    }
    if !same_wallet(&ctx.user, &ctx.wallet) {
        return Err(ErrorCode::Unauthorized);
    }
    let account = FisherAccount::new(ctx.wallet);
    store.file(account);
    Ok(account)
}

/// Counts one catch on the record of `ctx.wallet` and returns the updated
/// record with the event to report. The request is refused with `NotFound`
/// when the wallet has no record, otherwise with `Unauthorized` when it was
/// not signed by the record's owner, otherwise with `InvalidInput` when the
/// score is above 100, otherwise with `Overflow` when a counter would pass
/// `u64::MAX`. A refused request changes nothing; an accepted one changes the
/// record of `ctx.wallet` and no other.
pub fn record_catch(
    store: &mut FisherStore,
    ctx: RecordCatch,
    token_address: String,
    big_fish_score: u8,
) -> (result: Result<(FisherAccount, CatchEvent), ErrorCode>)
    requires
        old(store).wf(),
    ensures
        final(store).wf(),
        match result {
            Ok((account, event)) => {
                &&& catch_outcome(old(store)@, ctx, big_fish_score) == Ok::<
                    FisherAccount,
                    ErrorCode,
                >(account)
                &&& event.token_address@ == token_address@
                &&& event.big_fish_score == big_fish_score
                &&& event.reputation == account.reputation
            },
            Err(code) => catch_outcome(old(store)@, ctx, big_fish_score) == Err::<
                FisherAccount,
                ErrorCode,
            >(code),
        },
        final(store)@ == committed(
            old(store)@,
            ctx.wallet,
            catch_outcome(old(store)@, ctx, big_fish_score),
        ),
{
    let slot = match store.find(&ctx.wallet) {
        Some(slot) => slot,
        None => {
            proof {
                store.lemma_absent(ctx.wallet);
            }
            return Err(ErrorCode::NotFound);
        },
    };
    proof {
        store.lemma_present(slot as int, ctx.wallet);
    }
    let mut account = store.records[slot];
    if !same_wallet(&ctx.user, &account.wallet) {
        return Err(ErrorCode::Unauthorized);
    }
    match account.apply_catch(big_fish_score) {
        Err(code) => Err(code),
        Ok(()) => {
            store.refile(slot, account);
            let event = CatchEvent { token_address, big_fish_score, reputation: account.reputation };
            Ok((account, event))
        },
    }
}

/// Reads the record of `ctx.wallet`. The request is refused with `NotFound`
/// when the wallet has no record. Reading changes nothing.
pub fn get_fisher_stats(store: &FisherStore, ctx: GetFisherStats) -> (result: Result<
    FisherStats,
    ErrorCode,
>)
    requires
        store.wf(),
    ensures
        result == stats_outcome(store@, ctx),
{
    match store.find(&ctx.wallet) {
        Some(slot) => {
            proof {
                store.lemma_present(slot as int, ctx.wallet);
            }
            Ok(store.records[slot].stats())
        },
        None => {
            proof {
                store.lemma_absent(ctx.wallet);
            }
            Err(ErrorCode::NotFound)
        },
    }
}

} // verus!
