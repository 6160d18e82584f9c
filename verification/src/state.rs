//! The vault record and the plain values it is made of.

use vstd::prelude::*;
use crate::error::CustomError;

verus! {

/// A 32-byte identity: a principal, an account or an asset type.
#[derive(Clone, Copy, Debug, PartialEq, Eq)]
pub struct Address {
    pub bytes: [u8; 32],
}

/// An opaque reference to a ciphertext held by the encryption engine.
#[derive(Clone, Copy, Debug, PartialEq, Eq, Structural)]
pub struct EncryptedHandle {
    pub raw: u128,
}

/// The persisted record of one vault.
#[derive(Clone, Copy, Debug, PartialEq, Eq)]
pub struct Funding {
    /// Vault creator and owner.
    pub creator: Address,
    /// Address of the vault's encrypted asset account.
    pub vault_ata: Address,
    /// Asset type that the vault accepts.
    pub mint: Address,
    /// Handle to the encrypted running total.
    pub enc_total_raised: EncryptedHandle,
    /// Number of successful deposits.
    pub contributor_count: u64,
    /// Unix timestamp of creation.
    pub created_at: i64,
    /// Terminal flag: a finalized vault takes no deposit and no withdrawal.
    pub is_finalized: bool,
}

impl Funding {
    /// Bytes reserved for one stored record.
    pub const LEN: usize = 32 + 32 + 32 + 16 + 1 + 32 + 8 + 8 + 1;

    /// The record of a vault that was just opened: nothing raised, nobody
    /// counted, not finalized.
    pub open spec fn opened(
        creator: Address,
        vault_ata: Address,
        mint: Address,
        zero: EncryptedHandle,
        now: i64,
    ) -> Funding {
        Funding {
            creator,
            vault_ata,
            mint,
            enc_total_raised: zero,
            contributor_count: 0,
            created_at: now,
            is_finalized: false,
        }
    }

    /// The record after one more deposit: the total replaced, the counter one
    /// higher, everything else as it was.
    pub open spec fn with_deposit(self, total: EncryptedHandle) -> Funding {
        Funding {
            enc_total_raised: total,
            contributor_count: (self.contributor_count + 1) as u64,
            ..self
        }
    }

    /// The record after a withdrawal: the total replaced, everything else as
    /// it was.
    pub open spec fn with_withdrawal(self, total: EncryptedHandle) -> Funding {
        Funding { enc_total_raised: total, ..self }
    }

    /// Builds the record of a vault that was just opened.
    pub fn open(
        creator: Address,
        vault_ata: Address,
        mint: Address,
        zero: EncryptedHandle,
        now: i64,
    ) -> (r: Funding)
        ensures
            r == Funding::opened(creator, vault_ata, mint, zero, now),
    {
        Funding {
            creator,
            vault_ata,
            mint,
            enc_total_raised: zero,
            contributor_count: 0,
            created_at: now,
            is_finalized: false,
        }
    }

    /// Writes a deposit into the record, total and counter together. A full
    /// counter refuses the deposit and leaves the record as it was.
    pub fn commit_deposit(&mut self, total: EncryptedHandle) -> (r: Result<(), CustomError>)
        ensures
            old(self).contributor_count < u64::MAX ==> r.is_ok() && *final(self) == old(
                self,
            ).with_deposit(total),
            old(self).contributor_count == u64::MAX ==> r == Err::<(), CustomError>(
                CustomError::Overflow,
            ) && *final(self) == *old(self),
    {
        if self.contributor_count == u64::MAX {
            return Err(CustomError::Overflow);
        }
        self.enc_total_raised = total;
        self.contributor_count = self.contributor_count + 1;
        Ok(())
    }

    /// The record once it is retired: the terminal flag set, everything else
    /// as it was.
    pub open spec fn finalized(self) -> Funding {
        Funding { is_finalized: true, ..self }
    }

    /// Retires the vault on the word of its creator. Anyone else is refused
    /// with `OwnerMismatch`, and a vault that is retired already with
    /// `InvalidState`; a refusal leaves the record as it was.
    pub fn finalize(&mut self, caller: &Address) -> (r: Result<(), CustomError>)
        ensures
            *caller != old(self).creator ==> r == Err::<(), CustomError>(
                CustomError::OwnerMismatch,
            ) && *final(self) == *old(self),
            *caller == old(self).creator && old(self).is_finalized ==> r == Err::<
                (),
                CustomError,
            >(CustomError::InvalidState) && *final(self) == *old(self),
            *caller == old(self).creator && !old(self).is_finalized ==> r.is_ok() && *final(self)
                == old(self).finalized(),
    {
        if !caller.matches(&self.creator) {
            return Err(CustomError::OwnerMismatch);
        }
        if self.is_finalized {
            return Err(CustomError::InvalidState);
        }
        self.is_finalized = true;
        Ok(())
    }

    /// Writes a withdrawal into the record: only the total changes.
    pub fn commit_withdrawal(&mut self, total: EncryptedHandle)
        ensures
            *final(self) == old(self).with_withdrawal(total),
    {
        self.enc_total_raised = total;
    }
}

impl Address {
    /// Whether two addresses hold the same bytes.
    pub fn matches(&self, other: &Address) -> (r: bool)
        ensures
            r == (*self == *other),
    {
        let mut i: usize = 0;
        while i < 32
            invariant
                i <= 32,
                forall|j: int| 0 <= j < i ==> self.bytes[j] == other.bytes[j],
            decreases 32 - i,
        {
            if self.bytes[i] != other.bytes[i] {
                return false;
            }
            i += 1;
        }
        proof {
            assert(self.bytes =~= other.bytes);
        }
        true
    }
}

} // verus!
