//! What a vault operation asks of its collaborators, and what they answer.

use vstd::prelude::*;
use crate::authority::Authority;
use crate::state::{Address, EncryptedHandle};

verus! {

/// The two slots that the registry needs for one grant.
#[derive(Clone, Copy, Debug, PartialEq, Eq)]
pub struct GrantTarget {
    /// Where the registry records the allowance.
    pub allowance_account: Address,
    /// The address that the allowance is recorded for.
    pub allowed_address: Address,
}

/// The value that a grant opens.
#[derive(Clone, Copy, Debug, PartialEq, Eq)]
pub enum GrantSubject {
    /// A handle that the vault holds.
    Handle(EncryptedHandle),
    /// The balance handle that the ledger now keeps for an account.
    BalanceOf(Address),
}

/// A capability grant: `grantee` may read (or no longer read) `subject`.
#[derive(Clone, Copy, Debug, PartialEq, Eq)]
pub struct GrantRequest {
    pub subject: GrantSubject,
    pub grantee: Address,
    pub can_read: bool,
    pub target: GrantTarget,
    /// The principal that authorizes the grant.
    pub authority: Authority,
}

/// One call that the caller makes for the vault. A transfer and an import
/// carry the ciphertext of the operation, the `amount` of its accounts.
#[derive(Clone, Copy, Debug, PartialEq, Eq)]
pub enum Action {
    /// Ledger: create the encrypted account `account` of `owner` for `mint`.
    InitializeAccount { account: Address, owner: Address, mint: Address, payer: Address, authority: Authority },
    /// Ledger: move the operation's ciphertext from `source` to `destination`.
    Transfer { source: Address, destination: Address, authority: Authority },
    /// Registry: make a handle to an encrypted zero.
    ImportZero { signer: Address },
    /// Registry: make a handle to the operation's ciphertext.
    Import { signer: Address },
    /// Registry: the handle to `total` plus `amount`.
    Add { total: EncryptedHandle, amount: EncryptedHandle, signer: Address },
    /// Registry: the handle to `total` minus `amount`.
    Sub { total: EncryptedHandle, amount: EncryptedHandle, signer: Address },
    /// Runtime: the current time.
    ReadClock,
    /// Registry: record a capability grant.
    Grant(GrantRequest),
    /// Nothing is left to do.
    Finish,
}

/// What a collaborator answered to the last action.
#[derive(Clone, Copy, Debug, PartialEq, Eq, Structural)]
pub enum Event {
    /// The call was acknowledged.
    Ack,
    /// The registry returned a handle.
    Handle(EncryptedHandle),
    /// The runtime returned the time.
    Time(i64),
    /// The call failed or was not acknowledged.
    Failed { code: u32 },
}

} // verus!
