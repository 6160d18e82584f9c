//! Confidential contribution vault: the vault record, the key-less authority
//! that acts for it, and the lifecycle of initialize, deposit and withdraw as
//! verified state machines over encrypted handles.

use vstd::prelude::*;

pub mod error;
pub mod state;
pub mod authority;
pub mod protocol;
pub mod access;
pub mod instructions;
pub mod store;

use crate::authority::Authority;
pub use crate::error::CustomError;
use crate::error::OpError;
use crate::instructions::deposit::{deposit_start, deposit_vault, Deposit, DepositStep};
use crate::instructions::initialize_vault::{
    initialize_start, initialize_vault, InitializeStep, InitializeVault,
};
use crate::state::Funding;

verus! {

/// Entry point of initialize: begins the initialization of the creator's
/// vault.
pub fn initialize(accounts: &InitializeVault) -> (r: Result<InitializeStep, OpError>)
    ensures
        exists|vault: Option<Authority>, vault_account: Option<Authority>| #[trigger]
            accounts.derives(vault, vault_account) && r == initialize_start(
                *accounts,
                vault,
                vault_account,
            ),
{
    initialize_vault(accounts)
}

/// Entry point of deposit: begins a deposit into the vault `funding`.
pub fn deposit(accounts: &Deposit, funding: &Funding) -> (r: Result<DepositStep, OpError>)
    ensures
        r == deposit_start(*accounts, *funding),
{
    deposit_vault(accounts, funding)
}

} // verus!
