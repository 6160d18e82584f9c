//! The stored vault under compare-and-commit, and the history that the
//! commits make.

use vstd::prelude::*;
use crate::error::CustomError;
use crate::state::{Address, EncryptedHandle, Funding};

verus! {

/// A stored vault record with the number of commits it has seen.
#[derive(Clone, Copy, Debug, PartialEq, Eq)]
pub struct VaultSlot {
    pub version: u64,
    pub record: Funding,
}

/// What became of a commit.
#[derive(Clone, Copy, Debug, PartialEq, Eq, Structural)]
pub enum CommitOutcome {
    /// The record was written.
    Committed,
    /// Another commit came first: read again and compute anew.
    Stale,
    /// The slot has seen as many commits as it can count.
    Exhausted,
}

/// One committed write of an operation.
#[derive(Clone, Copy, Debug, PartialEq, Eq, Structural)]
pub enum Commit {
    Deposit(EncryptedHandle),
    Withdrawal(EncryptedHandle),
}

impl VaultSlot {
    /// The slot after a commit that expected `expected`: written and counted
    /// where that is the slot's version and there is room, else as it was.
    pub open spec fn committed(self, expected: u64, record: Funding) -> VaultSlot {
        if expected == self.version && self.version < u64::MAX {
            VaultSlot { version: (self.version + 1) as u64, record }
        } else {
            self
        }
    }

    /// A slot that holds a freshly opened vault.
    pub fn new(record: Funding) -> (r: VaultSlot)
        ensures
            r == (VaultSlot { version: 0, record }),
    {
        VaultSlot { version: 0, record }
    }

    /// The current version and record.
    pub fn get(&self) -> (r: (u64, Funding))
        ensures
            r == (self.version, self.record),
    {
        (self.version, self.record)
    }

    /// Writes `record` if nothing was committed since version `expected` was
    /// read. A stale or uncountable commit leaves the slot as it was.
    pub fn compare_and_commit(&mut self, expected: u64, record: Funding) -> (r: CommitOutcome)
        ensures
            *final(self) == old(self).committed(expected, record),
            r == CommitOutcome::Committed <==> expected == old(self).version && old(self).version
                < u64::MAX,
            r == CommitOutcome::Stale <==> expected != old(self).version,
            r == CommitOutcome::Exhausted <==> expected == old(self).version && old(self).version
                == u64::MAX,
    {
        if expected != self.version {
            CommitOutcome::Stale
        } else if self.version == u64::MAX {
            CommitOutcome::Exhausted
        } else {
            self.version = self.version + 1;
            self.record = record;
            CommitOutcome::Committed
        }
    }
}

/// One vault in the store: its address and its slot.
#[derive(Clone, Copy, Debug, PartialEq, Eq)]
pub struct Entry {
    pub id: Address,
    pub slot: VaultSlot,
}

/// The stored vaults, each under its address.
#[derive(Debug, PartialEq, Eq)]
pub struct VaultStore {
    pub entries: Vec<Entry>,
}

/// The slot that a list of entries holds for `id`: that of the last entry
/// under that address, if there is one.
pub open spec fn find(entries: Seq<Entry>, id: Address) -> Option<VaultSlot>
    decreases entries.len(),
{
    if entries.len() == 0 {
        None
    } else if entries.last().id == id {
        Some(entries.last().slot)
    } else {
        find(entries.drop_last(), id)
    }
}

proof fn find_skips_tail(entries: Seq<Entry>, id: Address, from: int)
    requires
        0 <= from <= entries.len(),
        forall|j: int| from <= j < entries.len() ==> entries[j].id != id,
    ensures
        find(entries, id) == find(entries.take(from), id),
    decreases entries.len() - from,
{
    if from == entries.len() {
        assert(entries.take(from) =~= entries);
    } else {
        find_skips_tail(entries.drop_last(), id, from);
        assert(entries.drop_last().take(from) =~= entries.take(from));
    }
}

proof fn find_after_update(entries: Seq<Entry>, at: int, slot: VaultSlot, other: Address)
    requires
        0 <= at < entries.len(),
        forall|j: int| at < j < entries.len() ==> entries[j].id != entries[at].id,
    ensures
        find(entries.update(at, Entry { id: entries[at].id, slot }), other) == if other
            == entries[at].id {
            Some(slot)
        } else {
            find(entries, other)
        },
    decreases entries.len(),
{
    let changed = entries.update(at, Entry { id: entries[at].id, slot });
    if at < entries.len() - 1 {
        assert(changed.last() == entries.last());
        assert(changed.drop_last() =~= entries.drop_last().update(
            at,
            Entry { id: entries[at].id, slot },
        ));
        find_after_update(entries.drop_last(), at, slot, other);
    } else {
        assert(changed.drop_last() =~= entries.drop_last());
    }
}

impl VaultStore {
    /// The slot stored for the vault at `id`, if there is one.
    pub open spec fn slot_of(self, id: Address) -> Option<VaultSlot> {
        find(self.entries@, id)
    }

    /// A store without vaults.
    pub fn new() -> (r: VaultStore)
        ensures
            forall|id: Address| r.slot_of(id).is_none(),
    {
        VaultStore { entries: Vec::new() }
    }

    fn position(&self, id: &Address) -> (r: Option<usize>)
        ensures
            match r {
                Some(at) => at < self.entries@.len() && self.entries@[at as int].id == *id
                    && self.slot_of(*id) == Some(self.entries@[at as int].slot) && forall|j: int|
                    at < j < self.entries@.len() ==> self.entries@[j].id != *id,
                None => self.slot_of(*id).is_none(),
            },
    {
        let mut i: usize = self.entries.len();
        while i > 0
            invariant
                i <= self.entries@.len(),
                forall|j: int| i <= j < self.entries@.len() ==> self.entries@[j].id != *id,
            decreases i,
        {
            if self.entries[i - 1].id.matches(id) {
                proof {
                    find_skips_tail(self.entries@, *id, i as int);
                }
                return Some(i - 1);
            }
            i -= 1;
        }
        proof {
            find_skips_tail(self.entries@, *id, 0);
        }
        None
    }

    /// The current version and record of the vault at `id`. A vault that
    /// was never created is reported as `UninitializedState`.
    pub fn get(&self, id: &Address) -> (r: Result<(u64, Funding), CustomError>)
        ensures
            match self.slot_of(*id) {
                Some(slot) => r == Ok::<(u64, Funding), CustomError>((slot.version, slot.record)),
                None => r == Err::<(u64, Funding), CustomError>(CustomError::UninitializedState),
            },
    {
        match self.position(id) {
            Some(at) => {
                let slot = self.entries[at].slot;
                Ok((slot.version, slot.record))
            },
            None => Err(CustomError::UninitializedState),
        }
    }

    /// Stores a freshly opened vault under `id`. An address that holds a
    /// vault already is refused with `AlreadyInUse`, and the store stays as
    /// it was. No other vault is touched.
    pub fn create(&mut self, id: Address, record: Funding) -> (r: Result<(), CustomError>)
        ensures
            old(self).slot_of(id).is_some() ==> r == Err::<(), CustomError>(
                CustomError::AlreadyInUse,
            ) && *final(self) == *old(self),
            old(self).slot_of(id).is_none() ==> r.is_ok() && final(self).slot_of(id) == Some(
                VaultSlot { version: 0, record },
            ),
            forall|other: Address| other != id ==> final(self).slot_of(other) == old(self).slot_of(
                other,
            ),
    {
        match self.position(&id) {
            Some(_) => Err(CustomError::AlreadyInUse),
            None => {
                self.entries.push(Entry { id, slot: VaultSlot::new(record) });
                proof {
                    assert(self.entries@.drop_last() =~= old(self).entries@);
                }
                Ok(())
            },
        }
    }

    /// Writes `record` for the vault at `id` if nothing was committed since
    /// version `expected` was read. A vault that was never created is
    /// reported as `UninitializedState`. A stale or uncountable commit leaves
    /// the vault as it was, and no other vault is ever touched.
    pub fn compare_and_commit(&mut self, id: &Address, expected: u64, record: Funding) -> (r:
        Result<CommitOutcome, CustomError>)
        ensures
            match old(self).slot_of(*id) {
                Some(slot) => {
                    &&& final(self).slot_of(*id) == Some(slot.committed(expected, record))
                    &&& r.is_ok()
                    &&& r.unwrap() == CommitOutcome::Committed <==> expected == slot.version
                        && slot.version < u64::MAX
                    &&& r.unwrap() == CommitOutcome::Stale <==> expected != slot.version
                    &&& r.unwrap() == CommitOutcome::Exhausted <==> expected == slot.version
                        && slot.version == u64::MAX
                },
                None => r == Err::<CommitOutcome, CustomError>(CustomError::UninitializedState)
                    && *final(self) == *old(self),
            },
            forall|other: Address| other != *id ==> final(self).slot_of(other) == old(
                self,
            ).slot_of(other),
    {
        match self.position(id) {
            None => Err(CustomError::UninitializedState),
            Some(at) => {
                let entry = self.entries[at];
                let mut slot = entry.slot;
                let outcome = slot.compare_and_commit(expected, record);
                self.entries.set(at, Entry { id: entry.id, slot });
                proof {
                    assert forall|other: Address| true implies #[trigger] final(self).slot_of(other)
                        == if other == *id {
                        Some(slot)
                    } else {
                        old(self).slot_of(other)
                    } by {
                        find_after_update(old(self).entries@, at as int, slot, other);
                    }
                }
                Ok(outcome)
            },
        }
    }
}

/// The record after the commits of a history, oldest first.
pub open spec fn replay(start: Funding, history: Seq<Commit>) -> Funding
    decreases history.len(),
{
    if history.len() == 0 {
        start
    } else {
        let before = replay(start, history.drop_last());
        match history.last() {
            Commit::Deposit(total) => before.with_deposit(total),
            Commit::Withdrawal(total) => before.with_withdrawal(total),
        }
    }
}

/// The number of deposits in a history.
pub open spec fn deposits_in(history: Seq<Commit>) -> nat
    decreases history.len(),
{
    if history.len() == 0 {
        0
    } else {
        deposits_in(history.drop_last()) + if history.last() is Deposit {
            1nat
        } else {
            0nat
        }
    }
}

/// After any history of deposits and withdrawals the counter has grown by
/// the number of deposits exactly, withdrawals leave it alone, and creator,
/// asset account, asset type, creation time and the terminal flag are those
/// of the start. The total is the one that the last commit wrote.
pub proof fn counter_counts_deposits(start: Funding, history: Seq<Commit>)
    requires
        start.contributor_count + deposits_in(history) <= u64::MAX,
    ensures
        replay(start, history).contributor_count == start.contributor_count + deposits_in(history),
        replay(start, history).creator == start.creator,
        replay(start, history).vault_ata == start.vault_ata,
        replay(start, history).mint == start.mint,
        replay(start, history).created_at == start.created_at,
        replay(start, history).is_finalized == start.is_finalized,
        history.len() > 0 ==> replay(start, history).enc_total_raised == match history.last() {
            Commit::Deposit(total) => total,
            Commit::Withdrawal(total) => total,
        },
    decreases history.len(),
{
    if history.len() > 0 {
        counter_counts_deposits(start, history.drop_last());
    }
}

/// Two deposits that read the same slot serialize. The one that commits
/// first wins; the other's commit is stale and changes nothing; computed
/// anew from a fresh read it commits, and then the counter has grown by two
/// and the total stands for the initial value plus both amounts. `sum` is the
/// registry's addition and `value` the plaintext behind a handle, of which
/// only that addition adds is used. As the two amounts are arbitrary, this
/// holds whichever deposit comes first.
pub proof fn concurrent_deposits_serialize(
    slot: VaultSlot,
    sum: spec_fn(EncryptedHandle, EncryptedHandle) -> EncryptedHandle,
    value: spec_fn(EncryptedHandle) -> int,
    first: EncryptedHandle,
    second: EncryptedHandle,
)
    requires
        slot.version + 2 <= u64::MAX,
        slot.record.contributor_count + 2 <= u64::MAX,
        forall|x: EncryptedHandle, y: EncryptedHandle| #[trigger] value(sum(x, y)) == value(x) + value(y),
    ensures
        ({
            let read = slot.record;
            let won = slot.committed(
                slot.version,
                read.with_deposit(sum(read.enc_total_raised, first)),
            );
            let lost = won.committed(
                slot.version,
                read.with_deposit(sum(read.enc_total_raised, second)),
            );
            let fresh = won.record;
            let end = won.committed(
                won.version,
                fresh.with_deposit(sum(fresh.enc_total_raised, second)),
            );
            &&& lost == won
            &&& end.version == slot.version + 2
            &&& end.record.contributor_count == read.contributor_count + 2
            &&& value(end.record.enc_total_raised) == value(read.enc_total_raised) + value(first)
                + value(second)
        }),
{
}

} // verus!
