//! Withdraw: the creator moves encrypted value out of the vault, and the
//! total is lowered by it.

use vstd::prelude::*;
use crate::access::{grant_for_vault, vault_grant};
use crate::authority::{derive_authority, derived, Authority, SeedChain};
use crate::error::{CustomError, OpError};
use crate::protocol::{Action, Event, GrantRequest, GrantSubject, GrantTarget};
use crate::state::{Address, EncryptedHandle, Funding};

verus! {

/// The accounts of one withdrawal.
#[derive(Debug, PartialEq, Eq)]
pub struct WithdrawAccounts {
    /// The program under which the vault's address is derived.
    pub program: Address,
    /// The principal that asks for the withdrawal, who signs.
    pub taker: Address,
    /// The encrypted asset account that receives the value.
    pub withdraw_account: Address,
    /// The ciphertext of the amount: what the transfer moves and the import
    /// turns into a handle. The vault never looks into it.
    pub amount: Vec<u8>,
    /// Grant slots: the first for the destination's balance, the second for
    /// the vault's total. With fewer than two no grant is issued.
    pub grant_targets: Vec<GrantTarget>,
}

/// Where a withdrawal stands: the call that is awaited.
#[derive(Clone, Copy, Debug, PartialEq, Eq)]
pub enum WithdrawStage {
    Transfer,
    Import,
    Combine { amount: EncryptedHandle },
    GrantDestination,
    GrantTotal,
    Done,
}

/// The next stage of a withdrawal and the call to make for it.
#[derive(Clone, Copy, Debug, PartialEq, Eq)]
pub struct WithdrawStep {
    pub stage: WithdrawStage,
    pub action: Action,
}

impl WithdrawAccounts {
    /// The seed chain of the vault that `funding` records.
    pub open spec fn vault_chain(funding: Funding) -> SeedChain {
        SeedChain::Vault { creator: funding.creator }
    }

    /// The grant that lets the creator read the destination's balance.
    pub open spec fn destination_grant(self, funding: Funding) -> GrantRequest
        recommends
            self.grant_targets@.len() >= 2,
    {
        GrantRequest {
            subject: GrantSubject::BalanceOf(self.withdraw_account),
            grantee: funding.creator,
            can_read: true,
            target: self.grant_targets@[0],
            authority: Authority::Signer { key: self.taker },
        }
    }

    /// The grant that lets the creator read the vault's current total, made
    /// on the word of the vault, given what deriving its authority gave.
    pub open spec fn total_grant(self, funding: Funding, vault: Option<Authority>) -> Result<
        GrantRequest,
        OpError,
    >
        recommends
            self.grant_targets@.len() >= 2,
    {
        vault_grant(
            vault,
            GrantSubject::Handle(funding.enc_total_raised),
            funding.creator,
            self.grant_targets@[1],
        )
    }
}

/// How a withdrawal begins, given what deriving the vault's authority gave.
/// Anyone but the creator is refused with `OwnerMismatch`, whatever else
/// holds; then a finalized vault with `InvalidState`, and a vault without a
/// derivable authority with `AuthorityTypeNotSupported`. Otherwise the vault
/// itself authorizes the transfer out of its account.
pub open spec fn withdraw_start(
    accounts: WithdrawAccounts,
    funding: Funding,
    vault: Option<Authority>,
) -> Result<WithdrawStep, OpError> {
    if accounts.taker != funding.creator {
        Err(OpError::Rejected(CustomError::OwnerMismatch))
    } else if funding.is_finalized {
        Err(OpError::Rejected(CustomError::InvalidState))
    } else if vault.is_none() {
        Err(OpError::Rejected(CustomError::AuthorityTypeNotSupported))
    } else {
        Ok(
            WithdrawStep {
                stage: WithdrawStage::Transfer,
                action: Action::Transfer {
                    source: funding.vault_ata,
                    destination: accounts.withdraw_account,
                    authority: vault.unwrap(),
                },
            },
        )
    }
}

/// The record after `event` arrives at `stage`: the creator's withdrawal
/// writes the new total when the registry returns it; nothing else writes.
pub open spec fn withdraw_record(
    accounts: WithdrawAccounts,
    funding: Funding,
    stage: WithdrawStage,
    event: Event,
) -> Funding {
    match (stage, event) {
        (WithdrawStage::Combine { .. }, Event::Handle(total)) => if accounts.taker
            == funding.creator && !funding.is_finalized {
            funding.with_withdrawal(total)
        } else {
            funding
        },
        _ => funding,
    }
}

/// What a withdrawal does next when `event` arrives at `stage`, given what
/// deriving the vault's authority gave. Only the grant on the vault's total
/// depends on that. Anyone but the creator is refused at every step, and
/// so is a finalized vault. Before the record is written a failed call
/// aborts and an answer out of turn is refused; after it, whatever goes
/// wrong is reported as a failed grant, a failed call under its own code and
/// the rest under that of `InvalidInstruction`.
pub open spec fn withdraw_next(
    accounts: WithdrawAccounts,
    funding: Funding,
    stage: WithdrawStage,
    event: Event,
    vault: Option<Authority>,
) -> Result<WithdrawStep, OpError> {
    if accounts.taker != funding.creator {
        Err(OpError::Rejected(CustomError::OwnerMismatch))
    } else if funding.is_finalized {
        Err(OpError::Rejected(CustomError::InvalidState))
    } else {
        match (stage, event) {
            (WithdrawStage::Transfer, Event::Ack) => Ok(
                WithdrawStep {
                    stage: WithdrawStage::Import,
                    action: Action::Import { signer: accounts.taker },
                },
            ),
            (WithdrawStage::Import, Event::Handle(amount)) => Ok(
                WithdrawStep {
                    stage: WithdrawStage::Combine { amount },
                    action: Action::Sub {
                        total: funding.enc_total_raised,
                        amount,
                        signer: accounts.taker,
                    },
                },
            ),
            (WithdrawStage::Combine { .. }, Event::Handle(_)) => if accounts.grant_targets@.len()
                >= 2 {
                Ok(
                    WithdrawStep {
                        stage: WithdrawStage::GrantDestination,
                        action: Action::Grant(accounts.destination_grant(funding)),
                    },
                )
            } else {
                Ok(WithdrawStep { stage: WithdrawStage::Done, action: Action::Finish })
            },
            (WithdrawStage::GrantDestination, Event::Ack) => if accounts.grant_targets@.len()
                >= 2 {
                match accounts.total_grant(funding, vault) {
                    Ok(request) => Ok(
                        WithdrawStep {
                            stage: WithdrawStage::GrantTotal,
                            action: Action::Grant(request),
                        },
                    ),
                    Err(e) => Err(e),
                }
            } else {
                Err(OpError::GrantFailed { code: 6012 })
            },
            (WithdrawStage::GrantTotal, Event::Ack) => Ok(
                WithdrawStep { stage: WithdrawStage::Done, action: Action::Finish },
            ),
            (WithdrawStage::Transfer, Event::Failed { code }) => Err(OpError::Aborted { code }),
            (WithdrawStage::Import, Event::Failed { code }) => Err(OpError::Aborted { code }),
            (WithdrawStage::Combine { .. }, Event::Failed { code }) => Err(
                OpError::Aborted { code },
            ),
            (WithdrawStage::GrantDestination, Event::Failed { code }) => Err(
                OpError::GrantFailed { code },
            ),
            (WithdrawStage::GrantTotal, Event::Failed { code }) => Err(
                OpError::GrantFailed { code },
            ),
            (WithdrawStage::GrantDestination, _) => Err(OpError::GrantFailed { code: 6012 }),
            (WithdrawStage::GrantTotal, _) => Err(OpError::GrantFailed { code: 6012 }),
            _ => Err(OpError::Rejected(CustomError::InvalidInstruction)),
        }
    }
}

/// Begins a withdrawal, given what deriving the vault's authority gave.
pub fn withdraw_begin(
    accounts: &WithdrawAccounts,
    funding: &Funding,
    vault: Option<Authority>,
) -> (r: Result<WithdrawStep, OpError>)
    ensures
        r == withdraw_start(*accounts, *funding, vault),
{
    if !accounts.taker.matches(&funding.creator) {
        return Err(OpError::Rejected(CustomError::OwnerMismatch));
    }
    if funding.is_finalized {
        return Err(OpError::Rejected(CustomError::InvalidState));
    }
    match vault {
        None => Err(OpError::Rejected(CustomError::AuthorityTypeNotSupported)),
        Some(authority) => Ok(
            WithdrawStep {
                stage: WithdrawStage::Transfer,
                action: Action::Transfer {
                    source: funding.vault_ata,
                    destination: accounts.withdraw_account,
                    authority,
                },
            },
        ),
    }
}

/// Begins a withdrawal from the vault `funding`: derives the vault's
/// authority from its creator and begins with it.
pub fn withdraw_amount(accounts: &WithdrawAccounts, funding: &Funding) -> (r: Result<
    WithdrawStep,
    OpError,
>)
    ensures
        accounts.taker != funding.creator ==> r == Err::<WithdrawStep, OpError>(
            OpError::Rejected(CustomError::OwnerMismatch),
        ),
        exists|vault: Option<Authority>| #[trigger]
            derived(accounts.program, WithdrawAccounts::vault_chain(*funding), vault) && r
                == withdraw_start(*accounts, *funding, vault),
{
    let vault = derive_authority(&accounts.program, SeedChain::Vault { creator: funding.creator });
    let r = withdraw_begin(accounts, funding, vault);
    proof {
        assert(derived(accounts.program, WithdrawAccounts::vault_chain(*funding), vault));
    }
    r
}

/// Whether a withdrawal at `stage` needs the vault's authority to go on
/// after `event`: only to grant on the vault's total.
pub open spec fn withdraw_needs_vault(stage: WithdrawStage, event: Event) -> bool {
    stage is GrantDestination && event is Ack
}

/// Takes a withdrawal one step further: `event` is what came of the action
/// that was handed out with `stage`. Only the creator's withdrawal moves, and
/// the record changes in one step only, the one that receives the new total.
/// The vault's authority is derived where the step needs it.
pub fn withdraw_step(
    accounts: &WithdrawAccounts,
    funding: &mut Funding,
    stage: WithdrawStage,
    event: Event,
) -> (r: Result<WithdrawStep, OpError>)
    ensures
        *final(funding) == withdraw_record(*accounts, *old(funding), stage, event),
        accounts.taker != old(funding).creator ==> r == Err::<WithdrawStep, OpError>(
            OpError::Rejected(CustomError::OwnerMismatch),
        ),
        !withdraw_needs_vault(stage, event) ==> r == withdraw_next(
            *accounts,
            *old(funding),
            stage,
            event,
            None,
        ),
        withdraw_needs_vault(stage, event) ==> exists|vault: Option<Authority>| #[trigger]
            derived(accounts.program, WithdrawAccounts::vault_chain(*old(funding)), vault) && r
                == withdraw_next(*accounts, *old(funding), stage, event, vault),
{
    let needed = match (stage, event) {
        (WithdrawStage::GrantDestination, Event::Ack) => true,
        _ => false,
    };
    let vault = if needed {
        derive_authority(&accounts.program, SeedChain::Vault { creator: funding.creator })
    } else {
        None
    };
    let r = withdraw_advance(accounts, funding, stage, event, vault);
    proof {
        if needed {
            assert(derived(accounts.program, WithdrawAccounts::vault_chain(*old(funding)), vault));
        }
    }
    r
}

/// Takes a withdrawal one step further, given what deriving the vault's
/// authority gave.
pub fn withdraw_advance(
    accounts: &WithdrawAccounts,
    funding: &mut Funding,
    stage: WithdrawStage,
    event: Event,
    vault: Option<Authority>,
) -> (r: Result<WithdrawStep, OpError>)
    ensures
        r == withdraw_next(*accounts, *old(funding), stage, event, vault),
        *final(funding) == withdraw_record(*accounts, *old(funding), stage, event),
{
    if !accounts.taker.matches(&funding.creator) {
        return Err(OpError::Rejected(CustomError::OwnerMismatch));
    }
    if funding.is_finalized {
        return Err(OpError::Rejected(CustomError::InvalidState));
    }
    match (stage, event) {
        (WithdrawStage::Transfer, Event::Ack) => Ok(
            WithdrawStep {
                stage: WithdrawStage::Import,
                action: Action::Import { signer: accounts.taker },
            },
        ),
        (WithdrawStage::Import, Event::Handle(amount)) => Ok(
            WithdrawStep {
                stage: WithdrawStage::Combine { amount },
                action: Action::Sub {
                    total: funding.enc_total_raised,
                    amount,
                    signer: accounts.taker,
                },
            },
        ),
        (WithdrawStage::Combine { .. }, Event::Handle(total)) => {
            funding.commit_withdrawal(total);
            if accounts.grant_targets.len() >= 2 {
                Ok(
                    WithdrawStep {
                        stage: WithdrawStage::GrantDestination,
                        action: Action::Grant(
                            GrantRequest {
                                subject: GrantSubject::BalanceOf(accounts.withdraw_account),
                                grantee: funding.creator,
                                can_read: true,
                                target: accounts.grant_targets[0],
                                authority: Authority::Signer { key: accounts.taker },
                            },
                        ),
                    },
                )
            } else {
                Ok(WithdrawStep { stage: WithdrawStage::Done, action: Action::Finish })
            }
        },
        (WithdrawStage::GrantDestination, Event::Ack) => {
            if accounts.grant_targets.len() >= 2 {
                match grant_for_vault(
                    vault,
                    GrantSubject::Handle(funding.enc_total_raised),
                    funding.creator,
                    accounts.grant_targets[1],
                ) {
                    Ok(request) => Ok(
                        WithdrawStep {
                            stage: WithdrawStage::GrantTotal,
                            action: Action::Grant(request),
                        },
                    ),
                    Err(e) => Err(e),
                }
            } else {
                Err(OpError::GrantFailed { code: CustomError::InvalidInstruction.code() })
            }
        },
        (WithdrawStage::GrantTotal, Event::Ack) => Ok(
            WithdrawStep { stage: WithdrawStage::Done, action: Action::Finish },
        ),
        (WithdrawStage::Transfer, Event::Failed { code }) => Err(OpError::Aborted { code }),
        (WithdrawStage::Import, Event::Failed { code }) => Err(OpError::Aborted { code }),
        (WithdrawStage::Combine { .. }, Event::Failed { code }) => Err(OpError::Aborted { code }),
        (WithdrawStage::GrantDestination, Event::Failed { code }) => Err(
            OpError::GrantFailed { code },
        ),
        (WithdrawStage::GrantTotal, Event::Failed { code }) => Err(OpError::GrantFailed { code }),
        (WithdrawStage::GrantDestination, _) => Err(
            OpError::GrantFailed { code: CustomError::InvalidInstruction.code() },
        ),
        (WithdrawStage::GrantTotal, _) => Err(
            OpError::GrantFailed { code: CustomError::InvalidInstruction.code() },
        ),
        _ => Err(OpError::Rejected(CustomError::InvalidInstruction)),
    }
}

/// Anyone but the creator is refused with `OwnerMismatch` at the start and at
/// every step, and the record stays as it was: for every record, every stage
/// and every answer.
pub proof fn withdraw_by_stranger_is_refused(
    accounts: WithdrawAccounts,
    funding: Funding,
    vault: Option<Authority>,
    stage: WithdrawStage,
    event: Event,
)
    requires
        accounts.taker != funding.creator,
    ensures
        withdraw_start(accounts, funding, vault) == Err::<WithdrawStep, OpError>(
            OpError::Rejected(CustomError::OwnerMismatch),
        ),
        withdraw_next(accounts, funding, stage, event, vault) == Err::<WithdrawStep, OpError>(
            OpError::Rejected(CustomError::OwnerMismatch),
        ),
        withdraw_record(accounts, funding, stage, event) == funding,
{
}

/// A withdrawal never touches the counter, nor anything but the total.
pub proof fn withdraw_never_counts(
    accounts: WithdrawAccounts,
    funding: Funding,
    stage: WithdrawStage,
    event: Event,
)
    ensures
        withdraw_record(accounts, funding, stage, event).contributor_count
            == funding.contributor_count,
        withdraw_record(accounts, funding, stage, event) == funding.with_withdrawal(
            withdraw_record(accounts, funding, stage, event).enc_total_raised,
        ),
{
}

/// A step that ends in an error writes nothing.
pub proof fn withdraw_error_commits_nothing(
    accounts: WithdrawAccounts,
    funding: Funding,
    stage: WithdrawStage,
    event: Event,
    vault: Option<Authority>,
)
    requires
        withdraw_next(accounts, funding, stage, event, vault).is_err(),
    ensures
        withdraw_record(accounts, funding, stage, event) == funding,
{
}

/// The order of the stages of a withdrawal.
pub open spec fn withdraw_rank(stage: WithdrawStage) -> nat {
    match stage {
        WithdrawStage::Transfer => 0,
        WithdrawStage::Import => 1,
        WithdrawStage::Combine { .. } => 2,
        WithdrawStage::GrantDestination => 3,
        WithdrawStage::GrantTotal => 4,
        WithdrawStage::Done => 5,
    }
}

/// A withdrawal from `stage` on, fed the answers `events` in turn, until it
/// is done, an answer ends it, or the answers run out: the record it leaves
/// and how it ended.
pub open spec fn withdraw_run(
    accounts: WithdrawAccounts,
    funding: Funding,
    stage: WithdrawStage,
    events: Seq<Event>,
    vault: Option<Authority>,
) -> (Funding, Result<WithdrawStage, OpError>)
    decreases events.len(),
{
    if events.len() == 0 || stage is Done {
        (funding, Ok(stage))
    } else {
        match withdraw_next(accounts, funding, stage, events.first(), vault) {
            Err(e) => (funding, Err(e)),
            Ok(step) => withdraw_run(
                accounts,
                withdraw_record(accounts, funding, stage, events.first()),
                step.stage,
                events.drop_first(),
                vault,
            ),
        }
    }
}

/// Whether `after` is `before` with exactly one withdrawal written into it.
pub open spec fn one_withdrawal(before: Funding, after: Funding) -> bool {
    after == before.with_withdrawal(after.enc_total_raised)
}

proof fn withdraw_run_from(
    accounts: WithdrawAccounts,
    funding: Funding,
    stage: WithdrawStage,
    events: Seq<Event>,
    vault: Option<Authority>,
)
    ensures
        ({
            let (after, end) = withdraw_run(accounts, funding, stage, events, vault);
            if withdraw_rank(stage) >= 3 {
                &&& after == funding
                &&& !funding.is_finalized && accounts.taker == funding.creator ==> !(end is Err
                    && end->Err_0 is Rejected)
                &&& !(end is Err && end->Err_0 is Aborted)
                &&& end is Ok ==> withdraw_rank(end->Ok_0) >= 3
            } else {
                &&& end is Err && !(end->Err_0 is GrantFailed) ==> after == funding
                &&& end is Err && end->Err_0 is GrantFailed ==> one_withdrawal(funding, after)
                &&& end is Ok && withdraw_rank(end->Ok_0) >= 3 ==> one_withdrawal(funding, after)
                &&& end is Ok && withdraw_rank(end->Ok_0) < 3 ==> after == funding
            }
        }),
    decreases events.len(),
{
    if events.len() == 0 || stage is Done {
    } else {
        match withdraw_next(accounts, funding, stage, events.first(), vault) {
            Err(e) => {},
            Ok(step) => {
                withdraw_run_from(
                    accounts,
                    withdraw_record(accounts, funding, stage, events.first()),
                    step.stage,
                    events.drop_first(),
                    vault,
                );
            },
        }
    }
}

/// What the end of a withdrawal says of the record, whatever the answers
/// were. Refused or aborted: nothing happened, the record is as it was. Done,
/// on the way through the grants, or ended by a failed grant: exactly one
/// withdrawal was written, the total replaced and the counter untouched.
/// Still before the difference: nothing was written yet.
pub proof fn withdraw_commits_once_or_never(
    accounts: WithdrawAccounts,
    funding: Funding,
    events: Seq<Event>,
    vault: Option<Authority>,
)
    ensures
        ({
            let (after, end) = withdraw_run(
                accounts,
                funding,
                WithdrawStage::Transfer,
                events,
                vault,
            );
            match end {
                Err(OpError::Rejected(_)) => after == funding,
                Err(OpError::Aborted { .. }) => after == funding,
                Err(OpError::GrantFailed { .. }) => one_withdrawal(funding, after),
                Ok(reached) => if withdraw_rank(reached) >= 3 {
                    one_withdrawal(funding, after)
                } else {
                    after == funding
                },
            }
        }),
{
    withdraw_run_from(accounts, funding, WithdrawStage::Transfer, events, vault);
}

/// A finalized vault gives nothing out: the creator's withdrawal is refused
/// with `InvalidState` at the start and at every step, and the record stays.
pub proof fn finalized_vault_gives_nothing_out(
    accounts: WithdrawAccounts,
    funding: Funding,
    vault: Option<Authority>,
    stage: WithdrawStage,
    event: Event,
)
    requires
        funding.is_finalized,
        accounts.taker == funding.creator,
    ensures
        withdraw_start(accounts, funding, vault) == Err::<WithdrawStep, OpError>(
            OpError::Rejected(CustomError::InvalidState),
        ),
        withdraw_next(accounts, funding, stage, event, vault) == Err::<WithdrawStep, OpError>(
            OpError::Rejected(CustomError::InvalidState),
        ),
        withdraw_record(accounts, funding, stage, event) == funding,
{
}

} // verus!
