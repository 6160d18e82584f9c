//! Initialize: open a vault for its creator, with its own asset account and
//! an encrypted total of zero.

use vstd::prelude::*;
use crate::authority::{derive_authority, derived, Authority, SeedChain};
use crate::error::{CustomError, OpError};
use crate::protocol::{Action, Event};
use crate::state::{Address, EncryptedHandle, Funding};

verus! {

/// The accounts of one initialization.
#[derive(Clone, Copy, Debug, PartialEq, Eq)]
pub struct InitializeVault {
    /// The program under which the vault's addresses are derived.
    pub program: Address,
    /// The creator, who signs and pays.
    pub signer: Address,
    /// The asset type that the vault will accept.
    pub mint: Address,
    /// What is stored at the vault's address so far.
    pub existing: Option<Funding>,
}

/// Where an initialization stands: the call that is awaited, and in the end
/// the record to store.
#[derive(Clone, Copy, Debug, PartialEq, Eq)]
pub enum InitializeStage {
    CreateAccount { vault_ata: Address },
    ImportZero { vault_ata: Address },
    Clock { vault_ata: Address, zero: EncryptedHandle },
    Created { record: Funding },
}

/// The next stage of an initialization and the call to make for it.
#[derive(Clone, Copy, Debug, PartialEq, Eq)]
pub struct InitializeStep {
    pub stage: InitializeStage,
    pub action: Action,
}

impl InitializeVault {
    /// The seed chain of the creator's vault.
    pub open spec fn vault_chain(self) -> SeedChain {
        SeedChain::Vault { creator: self.signer }
    }

    /// The seed chain of the asset account of the vault at `vault`.
    pub open spec fn account_chain(self, vault: Address) -> SeedChain {
        SeedChain::VaultAccount { vault, mint: self.mint }
    }

    /// Whether `vault` and `vault_account` are what the two derivations of
    /// these accounts yield: the vault from the creator, and the asset
    /// account from the vault's address and the asset type. Without a vault
    /// there is no asset account.
    pub open spec fn derives(self, vault: Option<Authority>, vault_account: Option<Authority>) -> bool {
        &&& derived(self.program, self.vault_chain(), vault)
        &&& vault.is_some() ==> derived(
            self.program,
            self.account_chain(vault.unwrap().principal()),
            vault_account,
        )
        &&& vault.is_none() ==> vault_account.is_none()
    }
}

/// How an initialization begins, given what deriving the vault and its asset
/// account gave. An address already in use refuses with `AlreadyInUse`, a
/// missing derivation with `AuthorityTypeNotSupported`. Otherwise the ledger
/// is asked to create the asset account, owned and authorized by the vault.
pub open spec fn initialize_start(
    accounts: InitializeVault,
    vault: Option<Authority>,
    vault_account: Option<Authority>,
) -> Result<InitializeStep, OpError> {
    if accounts.existing.is_some() {
        Err(OpError::Rejected(CustomError::AlreadyInUse))
    } else if vault.is_none() || vault_account.is_none() {
        Err(OpError::Rejected(CustomError::AuthorityTypeNotSupported))
    } else {
        Ok(
            InitializeStep {
                stage: InitializeStage::CreateAccount {
                    vault_ata: vault_account.unwrap().principal(),
                },
                action: Action::InitializeAccount {
                    account: vault_account.unwrap().principal(),
                    owner: vault.unwrap().principal(),
                    mint: accounts.mint,
                    payer: accounts.signer,
                    authority: vault.unwrap(),
                },
            },
        )
    }
}

/// What an initialization does next when `event` arrives at `stage`. The
/// record exists only once the account, the zero handle and the time are
/// there; a failure before that leaves nothing.
pub open spec fn initialize_next(
    accounts: InitializeVault,
    stage: InitializeStage,
    event: Event,
) -> Result<InitializeStep, OpError> {
    match (stage, event) {
        (InitializeStage::CreateAccount { vault_ata }, Event::Ack) => Ok(
            InitializeStep {
                stage: InitializeStage::ImportZero { vault_ata },
                action: Action::ImportZero { signer: accounts.signer },
            },
        ),
        (InitializeStage::ImportZero { vault_ata }, Event::Handle(zero)) => Ok(
            InitializeStep {
                stage: InitializeStage::Clock { vault_ata, zero },
                action: Action::ReadClock,
            },
        ),
        (InitializeStage::Clock { vault_ata, zero }, Event::Time(now)) => Ok(
            InitializeStep {
                stage: InitializeStage::Created {
                    record: Funding::opened(accounts.signer, vault_ata, accounts.mint, zero, now),
                },
                action: Action::Finish,
            },
        ),
        (InitializeStage::Created { .. }, _) => Err(
            OpError::Rejected(CustomError::InvalidInstruction),
        ),
        (_, Event::Failed { code }) => Err(OpError::Aborted { code }),
        _ => Err(OpError::Rejected(CustomError::InvalidInstruction)),
    }
}

/// Begins an initialization, given what deriving the vault and its asset
/// account gave.
pub fn initialize_begin(
    accounts: &InitializeVault,
    vault: Option<Authority>,
    vault_account: Option<Authority>,
) -> (r: Result<InitializeStep, OpError>)
    ensures
        r == initialize_start(*accounts, vault, vault_account),
{
    if accounts.existing.is_some() {
        return Err(OpError::Rejected(CustomError::AlreadyInUse));
    }
    match (vault, vault_account) {
        (Some(owner), Some(account)) => Ok(
            InitializeStep {
                stage: InitializeStage::CreateAccount { vault_ata: account.address() },
                action: Action::InitializeAccount {
                    account: account.address(),
                    owner: owner.address(),
                    mint: accounts.mint,
                    payer: accounts.signer,
                    authority: owner,
                },
            },
        ),
        _ => Err(OpError::Rejected(CustomError::AuthorityTypeNotSupported)),
    }
}

/// Begins the initialization of the creator's vault: derives the vault's
/// address from the creator, the asset account's address from the vault and
/// the asset type, and begins with them.
pub fn initialize_vault(accounts: &InitializeVault) -> (r: Result<InitializeStep, OpError>)
    ensures
        accounts.existing.is_some() ==> r == Err::<InitializeStep, OpError>(
            OpError::Rejected(CustomError::AlreadyInUse),
        ),
        exists|vault: Option<Authority>, vault_account: Option<Authority>| #[trigger]
            accounts.derives(vault, vault_account) && r == initialize_start(
                *accounts,
                vault,
                vault_account,
            ),
{
    let vault = derive_authority(&accounts.program, SeedChain::Vault { creator: accounts.signer });
    let vault_account = match vault {
        Some(owner) => derive_authority(
            &accounts.program,
            SeedChain::VaultAccount { vault: owner.address(), mint: accounts.mint },
        ),
        None => None,
    };
    let r = initialize_begin(accounts, vault, vault_account);
    proof {
        assert(accounts.derives(vault, vault_account));
    }
    r
}

/// Takes an initialization one step further: `event` is what came of the
/// action that was handed out with `stage`.
pub fn initialize_step(accounts: &InitializeVault, stage: InitializeStage, event: Event) -> (r:
    Result<InitializeStep, OpError>)
    ensures
        r == initialize_next(*accounts, stage, event),
{
    match (stage, event) {
        (InitializeStage::CreateAccount { vault_ata }, Event::Ack) => Ok(
            InitializeStep {
                stage: InitializeStage::ImportZero { vault_ata },
                action: Action::ImportZero { signer: accounts.signer },
            },
        ),
        (InitializeStage::ImportZero { vault_ata }, Event::Handle(zero)) => Ok(
            InitializeStep {
                stage: InitializeStage::Clock { vault_ata, zero },
                action: Action::ReadClock,
            },
        ),
        (InitializeStage::Clock { vault_ata, zero }, Event::Time(now)) => Ok(
            InitializeStep {
                stage: InitializeStage::Created {
                    record: Funding::open(accounts.signer, vault_ata, accounts.mint, zero, now),
                },
                action: Action::Finish,
            },
        ),
        (InitializeStage::Created { .. }, _) => Err(
            OpError::Rejected(CustomError::InvalidInstruction),
        ),
        (_, Event::Failed { code }) => Err(OpError::Aborted { code }),
        _ => Err(OpError::Rejected(CustomError::InvalidInstruction)),
    }
}

} // verus!
