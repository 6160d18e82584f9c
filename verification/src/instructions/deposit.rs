//! Deposit: move encrypted value into the vault, then add it to the total.

use vstd::prelude::*;
use crate::access::{grant_for_vault, vault_grant};
use crate::authority::{derive_authority, derived, Authority, SeedChain};
use crate::error::{CustomError, OpError};
use crate::protocol::{Action, Event, GrantRequest, GrantSubject, GrantTarget};
use crate::state::{Address, EncryptedHandle, Funding};

verus! {

/// The accounts of one deposit.
#[derive(Debug, PartialEq, Eq)]
pub struct Deposit {
    /// The program under which the vault's address is derived.
    pub program: Address,
    /// The depositor, who signs.
    pub signer: Address,
    /// The depositor's encrypted asset account.
    pub depositer_token_account: Address,
    /// The asset type of the depositor's account.
    pub mint: Address,
    /// The ciphertext of the amount: what the transfer moves and the import
    /// turns into a handle. The vault never looks into it.
    pub amount: Vec<u8>,
    /// Grant slots: the first for the depositor's balance, the second for the
    /// vault's. With fewer than two no grant is issued.
    pub grant_targets: Vec<GrantTarget>,
}

/// Where a deposit stands: the call that is awaited.
#[derive(Clone, Copy, Debug, PartialEq, Eq)]
pub enum DepositStage {
    Transfer,
    Import,
    Combine { amount: EncryptedHandle },
    GrantDepositor,
    GrantCreator,
    Done,
}

/// The next stage of a deposit and the call to make for it.
#[derive(Clone, Copy, Debug, PartialEq, Eq)]
pub struct DepositStep {
    pub stage: DepositStage,
    pub action: Action,
}

impl Deposit {
    /// The grant that lets the depositor read their own balance.
    pub open spec fn depositor_grant(self) -> GrantRequest
        recommends
            self.grant_targets@.len() >= 2,
    {
        GrantRequest {
            subject: GrantSubject::BalanceOf(self.depositer_token_account),
            grantee: self.signer,
            can_read: true,
            target: self.grant_targets@[0],
            authority: Authority::Signer { key: self.signer },
        }
    }

    /// The grant that lets the vault's creator read the vault's balance,
    /// made on the word of the vault, given what deriving its authority gave.
    pub open spec fn creator_grant(self, funding: Funding, vault: Option<Authority>) -> Result<
        GrantRequest,
        OpError,
    >
        recommends
            self.grant_targets@.len() >= 2,
    {
        vault_grant(
            vault,
            GrantSubject::BalanceOf(funding.vault_ata),
            funding.creator,
            self.grant_targets@[1],
        )
    }

    /// The seed chain of the vault that `funding` records.
    pub open spec fn vault_chain(funding: Funding) -> SeedChain {
        SeedChain::Vault { creator: funding.creator }
    }

    /// What follows the commit: the first grant, or the end where fewer than
    /// two slots were supplied.
    pub open spec fn after_commit(self) -> DepositStep {
        if self.grant_targets@.len() >= 2 {
            DepositStep {
                stage: DepositStage::GrantDepositor,
                action: Action::Grant(self.depositor_grant()),
            }
        } else {
            DepositStep { stage: DepositStage::Done, action: Action::Finish }
        }
    }
}

/// How a deposit begins. A finalized vault refuses with `InvalidState`, an
/// account of another asset type with `MintMismatch`, and a vault whose
/// counter is full with `Overflow`, before any value moves; otherwise the
/// depositor transfers into the vault's account under their own signature.
pub open spec fn deposit_start(accounts: Deposit, funding: Funding) -> Result<DepositStep, OpError> {
    if funding.is_finalized {
        Err(OpError::Rejected(CustomError::InvalidState))
    } else if accounts.mint != funding.mint {
        Err(OpError::Rejected(CustomError::MintMismatch))
    } else if funding.contributor_count == u64::MAX {
        Err(OpError::Rejected(CustomError::Overflow))
    } else {
        Ok(
            DepositStep {
                stage: DepositStage::Transfer,
                action: Action::Transfer {
                    source: accounts.depositer_token_account,
                    destination: funding.vault_ata,
                    authority: Authority::Signer { key: accounts.signer },
                },
            },
        )
    }
}

/// The record after `event` arrives at `stage`: written once, when the
/// registry returns the new total and the counter has room.
pub open spec fn deposit_record(funding: Funding, stage: DepositStage, event: Event) -> Funding {
    match (stage, event) {
        (DepositStage::Combine { .. }, Event::Handle(total)) => if !funding.is_finalized
            && funding.contributor_count < u64::MAX {
            funding.with_deposit(total)
        } else {
            funding
        },
        _ => funding,
    }
}

/// What a deposit does next when `event` arrives at `stage`, given what
/// deriving the vault's authority gave. Only the grant on the vault's balance
/// depends on that. A finalized vault refuses every step.
pub open spec fn deposit_next(
    accounts: Deposit,
    funding: Funding,
    stage: DepositStage,
    event: Event,
    vault: Option<Authority>,
) -> Result<DepositStep, OpError> {
    if funding.is_finalized {
        Err(OpError::Rejected(CustomError::InvalidState))
    } else {
        deposit_turn(accounts, funding, stage, event, vault)
    }
}

/// What a deposit into a vault that is not finalized does next. Before the
/// record is written a failed call aborts and an answer out of turn is
/// refused; after it, whatever goes wrong is reported as a failed grant, a
/// failed call under its own code and the rest under that of
/// `InvalidInstruction`.
pub open spec fn deposit_turn(
    accounts: Deposit,
    funding: Funding,
    stage: DepositStage,
    event: Event,
    vault: Option<Authority>,
) -> Result<DepositStep, OpError> {
    match (stage, event) {
        (DepositStage::Transfer, Event::Ack) => Ok(
            DepositStep {
                stage: DepositStage::Import,
                action: Action::Import { signer: accounts.signer },
            },
        ),
        (DepositStage::Import, Event::Handle(amount)) => Ok(
            DepositStep {
                stage: DepositStage::Combine { amount },
                action: Action::Add {
                    total: funding.enc_total_raised,
                    amount,
                    signer: accounts.signer,
                },
            },
        ),
        (DepositStage::Combine { .. }, Event::Handle(_)) => if funding.contributor_count
            < u64::MAX {
            Ok(accounts.after_commit())
        } else {
            Err(OpError::Rejected(CustomError::Overflow))
        },
        (DepositStage::GrantDepositor, Event::Ack) => if accounts.grant_targets@.len() >= 2 {
            match accounts.creator_grant(funding, vault) {
                Ok(request) => Ok(
                    DepositStep {
                        stage: DepositStage::GrantCreator,
                        action: Action::Grant(request),
                    },
                ),
                Err(e) => Err(e),
            }
        } else {
            Err(OpError::GrantFailed { code: 6012 })
        },
        (DepositStage::GrantCreator, Event::Ack) => Ok(
            DepositStep { stage: DepositStage::Done, action: Action::Finish },
        ),
        (DepositStage::Transfer, Event::Failed { code }) => Err(OpError::Aborted { code }),
        (DepositStage::Import, Event::Failed { code }) => Err(OpError::Aborted { code }),
        (DepositStage::Combine { .. }, Event::Failed { code }) => Err(OpError::Aborted { code }),
        (DepositStage::GrantDepositor, Event::Failed { code }) => Err(
            OpError::GrantFailed { code },
        ),
        (DepositStage::GrantCreator, Event::Failed { code }) => Err(OpError::GrantFailed { code }),
        (DepositStage::GrantDepositor, _) => Err(OpError::GrantFailed { code: 6012 }),
        (DepositStage::GrantCreator, _) => Err(OpError::GrantFailed { code: 6012 }),
        _ => Err(OpError::Rejected(CustomError::InvalidInstruction)),
    }
}

/// Begins a deposit into the vault `funding`.
pub fn deposit_vault(accounts: &Deposit, funding: &Funding) -> (r: Result<DepositStep, OpError>)
    ensures
        r == deposit_start(*accounts, *funding),
{
    if funding.is_finalized {
        return Err(OpError::Rejected(CustomError::InvalidState));
    }
    if !accounts.mint.matches(&funding.mint) {
        return Err(OpError::Rejected(CustomError::MintMismatch));
    }
    if funding.contributor_count == u64::MAX {
        return Err(OpError::Rejected(CustomError::Overflow));
    }
    Ok(
        DepositStep {
            stage: DepositStage::Transfer,
            action: Action::Transfer {
                source: accounts.depositer_token_account,
                destination: funding.vault_ata,
                authority: Authority::Signer { key: accounts.signer },
            },
        },
    )
}

/// Whether a deposit at `stage` needs the vault's authority to go on after
/// `event`: only to grant on the vault's balance.
pub open spec fn deposit_needs_vault(stage: DepositStage, event: Event) -> bool {
    stage is GrantDepositor && event is Ack
}

/// Takes a deposit one step further: `event` is what came of the action that
/// was handed out with `stage`. The record changes in one step only, the one
/// that receives the new total. The vault's authority is derived where the
/// step needs it.
pub fn deposit_step(
    accounts: &Deposit,
    funding: &mut Funding,
    stage: DepositStage,
    event: Event,
) -> (r: Result<DepositStep, OpError>)
    ensures
        *final(funding) == deposit_record(*old(funding), stage, event),
        !deposit_needs_vault(stage, event) ==> r == deposit_next(
            *accounts,
            *old(funding),
            stage,
            event,
            None,
        ),
        deposit_needs_vault(stage, event) ==> exists|vault: Option<Authority>| #[trigger]
            derived(accounts.program, Deposit::vault_chain(*old(funding)), vault) && r
                == deposit_next(*accounts, *old(funding), stage, event, vault),
{
    let needed = match (stage, event) {
        (DepositStage::GrantDepositor, Event::Ack) => true,
        _ => false,
    };
    let vault = if needed {
        derive_authority(&accounts.program, SeedChain::Vault { creator: funding.creator })
    } else {
        None
    };
    let r = deposit_advance(accounts, funding, stage, event, vault);
    proof {
        if needed {
            assert(derived(accounts.program, Deposit::vault_chain(*old(funding)), vault));
        }
    }
    r
}

/// Takes a deposit one step further, given what deriving the vault's
/// authority gave.
pub fn deposit_advance(
    accounts: &Deposit,
    funding: &mut Funding,
    stage: DepositStage,
    event: Event,
    vault: Option<Authority>,
) -> (r: Result<DepositStep, OpError>)
    ensures
        r == deposit_next(*accounts, *old(funding), stage, event, vault),
        *final(funding) == deposit_record(*old(funding), stage, event),
{
    if funding.is_finalized {
        return Err(OpError::Rejected(CustomError::InvalidState));
    }
    match (stage, event) {
        (DepositStage::Transfer, Event::Ack) => Ok(
            DepositStep {
                stage: DepositStage::Import,
                action: Action::Import { signer: accounts.signer },
            },
        ),
        (DepositStage::Import, Event::Handle(amount)) => Ok(
            DepositStep {
                stage: DepositStage::Combine { amount },
                action: Action::Add {
                    total: funding.enc_total_raised,
                    amount,
                    signer: accounts.signer,
                },
            },
        ),
        (DepositStage::Combine { .. }, Event::Handle(total)) => {
            match funding.commit_deposit(total) {
                Err(e) => Err(OpError::Rejected(e)),
                Ok(()) => {
                    if accounts.grant_targets.len() >= 2 {
                        Ok(
                            DepositStep {
                                stage: DepositStage::GrantDepositor,
                                action: Action::Grant(
                                    GrantRequest {
                                        subject: GrantSubject::BalanceOf(
                                            accounts.depositer_token_account,
                                        ),
                                        grantee: accounts.signer,
                                        can_read: true,
                                        target: accounts.grant_targets[0],
                                        authority: Authority::Signer { key: accounts.signer },
                                    },
                                ),
                            },
                        )
                    } else {
                        Ok(DepositStep { stage: DepositStage::Done, action: Action::Finish })
                    }
                },
            }
        },
        (DepositStage::GrantDepositor, Event::Ack) => {
            if accounts.grant_targets.len() >= 2 {
                match grant_for_vault(
                    vault,
                    GrantSubject::BalanceOf(funding.vault_ata),
                    funding.creator,
                    accounts.grant_targets[1],
                ) {
                    Ok(request) => Ok(
                        DepositStep {
                            stage: DepositStage::GrantCreator,
                            action: Action::Grant(request),
                        },
                    ),
                    Err(e) => Err(e),
                }
            } else {
                Err(OpError::GrantFailed { code: CustomError::InvalidInstruction.code() })
            }
        },
        (DepositStage::GrantCreator, Event::Ack) => Ok(
            DepositStep { stage: DepositStage::Done, action: Action::Finish },
        ),
        (DepositStage::Transfer, Event::Failed { code }) => Err(OpError::Aborted { code }),
        (DepositStage::Import, Event::Failed { code }) => Err(OpError::Aborted { code }),
        (DepositStage::Combine { .. }, Event::Failed { code }) => Err(OpError::Aborted { code }),
        (DepositStage::GrantDepositor, Event::Failed { code }) => Err(
            OpError::GrantFailed { code },
        ),
        (DepositStage::GrantCreator, Event::Failed { code }) => Err(OpError::GrantFailed { code }),
        (DepositStage::GrantDepositor, _) => Err(
            OpError::GrantFailed { code: CustomError::InvalidInstruction.code() },
        ),
        (DepositStage::GrantCreator, _) => Err(
            OpError::GrantFailed { code: CustomError::InvalidInstruction.code() },
        ),
        _ => Err(OpError::Rejected(CustomError::InvalidInstruction)),
    }
}

/// A step that ends in an error writes nothing: a failed transfer, import or
/// sum, a full counter, a failed grant or an answer out of turn all leave
/// total and counter as they were.
pub proof fn deposit_error_commits_nothing(
    accounts: Deposit,
    funding: Funding,
    stage: DepositStage,
    event: Event,
    vault: Option<Authority>,
)
    requires
        deposit_next(accounts, funding, stage, event, vault).is_err(),
    ensures
        deposit_record(funding, stage, event) == funding,
{
}

/// Whatever fails, and wherever, the record stays and the deposit ends: until
/// the new total has arrived nothing is written, so a failed transfer leaves
/// total and counter untouched.
pub proof fn deposit_failure_commits_nothing(
    accounts: Deposit,
    funding: Funding,
    stage: DepositStage,
    code: u32,
    vault: Option<Authority>,
)
    ensures
        deposit_record(funding, stage, Event::Failed { code }) == funding,
        deposit_next(accounts, funding, stage, Event::Failed { code }, vault).is_err(),
{
}

/// A step either leaves the record as it was, or it is the one step that
/// receives the new total: then the total is replaced by it, the counter goes
/// up by exactly one, and nothing else changes.
pub proof fn deposit_counts_once(
    accounts: Deposit,
    funding: Funding,
    stage: DepositStage,
    event: Event,
    vault: Option<Authority>,
)
    ensures
        ({
            let after = deposit_record(funding, stage, event);
            let next = deposit_next(accounts, funding, stage, event, vault);
            ||| after == funding
            ||| {
                &&& stage is Combine
                &&& next.is_ok()
                &&& event == Event::Handle(after.enc_total_raised)
                &&& after.contributor_count == funding.contributor_count + 1
                &&& after == funding.with_deposit(after.enc_total_raised)
            }
        }),
{
}

/// The order of the stages of a deposit.
pub open spec fn deposit_rank(stage: DepositStage) -> nat {
    match stage {
        DepositStage::Transfer => 0,
        DepositStage::Import => 1,
        DepositStage::Combine { .. } => 2,
        DepositStage::GrantDepositor => 3,
        DepositStage::GrantCreator => 4,
        DepositStage::Done => 5,
    }
}

/// A deposit only moves forward, so the step that writes the record is taken
/// at most once, and only after the transfer was acknowledged.
pub proof fn deposit_moves_forward(
    accounts: Deposit,
    funding: Funding,
    stage: DepositStage,
    event: Event,
    vault: Option<Authority>,
)
    requires
        deposit_next(accounts, funding, stage, event, vault).is_ok(),
    ensures
        deposit_rank(deposit_next(accounts, funding, stage, event, vault).unwrap().stage)
            > deposit_rank(stage),
{
}

/// A deposit from `stage` on, fed the answers `events` in turn, until it is
/// done, an answer ends it, or the answers run out: the record it leaves and
/// how it ended.
pub open spec fn deposit_run(
    accounts: Deposit,
    funding: Funding,
    stage: DepositStage,
    events: Seq<Event>,
    vault: Option<Authority>,
) -> (Funding, Result<DepositStage, OpError>)
    decreases events.len(),
{
    if events.len() == 0 || stage is Done {
        (funding, Ok(stage))
    } else {
        match deposit_next(accounts, funding, stage, events.first(), vault) {
            Err(e) => (funding, Err(e)),
            Ok(step) => deposit_run(
                accounts,
                deposit_record(funding, stage, events.first()),
                step.stage,
                events.drop_first(),
                vault,
            ),
        }
    }
}

/// Whether `after` is `before` with exactly one deposit written into it.
pub open spec fn one_deposit(before: Funding, after: Funding) -> bool {
    before.contributor_count < u64::MAX && after == before.with_deposit(after.enc_total_raised)
}

proof fn deposit_run_from(
    accounts: Deposit,
    funding: Funding,
    stage: DepositStage,
    events: Seq<Event>,
    vault: Option<Authority>,
)
    ensures
        ({
            let (after, end) = deposit_run(accounts, funding, stage, events, vault);
            if deposit_rank(stage) >= 3 {
                &&& after == funding
                &&& !funding.is_finalized ==> !(end is Err && end->Err_0 is Rejected)
                &&& !(end is Err && end->Err_0 is Aborted)
                &&& end is Ok ==> deposit_rank(end->Ok_0) >= 3
            } else {
                &&& end is Err && !(end->Err_0 is GrantFailed) ==> after == funding
                &&& end is Err && end->Err_0 is GrantFailed ==> one_deposit(funding, after)
                &&& end is Ok && deposit_rank(end->Ok_0) >= 3 ==> one_deposit(funding, after)
                &&& end is Ok && deposit_rank(end->Ok_0) < 3 ==> after == funding
            }
        }),
    decreases events.len(),
{
    if events.len() == 0 || stage is Done {
    } else {
        match deposit_next(accounts, funding, stage, events.first(), vault) {
            Err(e) => {},
            Ok(step) => {
                deposit_run_from(
                    accounts,
                    deposit_record(funding, stage, events.first()),
                    step.stage,
                    events.drop_first(),
                    vault,
                );
            },
        }
    }
}

/// What the end of a deposit says of the record, whatever the answers were.
/// Refused or aborted: nothing happened, the record is as it was. Done, on
/// the way through the grants, or ended by a failed grant: exactly one
/// deposit was written, the counter one higher and the total replaced. Still
/// before the sum: nothing was written yet.
pub proof fn deposit_commits_once_or_never(
    accounts: Deposit,
    funding: Funding,
    events: Seq<Event>,
    vault: Option<Authority>,
)
    ensures
        ({
            let (after, end) = deposit_run(
                accounts,
                funding,
                DepositStage::Transfer,
                events,
                vault,
            );
            match end {
                Err(OpError::Rejected(_)) => after == funding,
                Err(OpError::Aborted { .. }) => after == funding,
                Err(OpError::GrantFailed { .. }) => one_deposit(funding, after),
                Ok(reached) => if deposit_rank(reached) >= 3 {
                    one_deposit(funding, after)
                } else {
                    after == funding
                },
            }
        }),
{
    deposit_run_from(accounts, funding, DepositStage::Transfer, events, vault);
}

/// A finalized vault takes no deposit: the start and every step refuse with
/// `InvalidState`, and the record stays, still finalized.
pub proof fn finalized_vault_takes_no_deposit(
    accounts: Deposit,
    funding: Funding,
    stage: DepositStage,
    event: Event,
    vault: Option<Authority>,
)
    requires
        funding.is_finalized,
    ensures
        deposit_start(accounts, funding) == Err::<DepositStep, OpError>(
            OpError::Rejected(CustomError::InvalidState),
        ),
        deposit_next(accounts, funding, stage, event, vault) == Err::<DepositStep, OpError>(
            OpError::Rejected(CustomError::InvalidState),
        ),
        deposit_record(funding, stage, event) == funding,
{
}

} // verus!
