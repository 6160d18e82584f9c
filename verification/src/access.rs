//! Capability grants: who may open a handle to whom.

use vstd::prelude::*;
use crate::authority::{derive_authority, derived, Authority, SeedChain};
use crate::error::{CustomError, OpError};
use crate::protocol::{GrantRequest, GrantSubject, GrantTarget};
use crate::state::Address;

verus! {

/// The principal that the registry takes for the owner of a value: a user,
/// for the handle of their own account, or a vault, for what the vault owns.
#[derive(Clone, Copy, Debug, PartialEq, Eq)]
pub enum OwnerContext {
    User(Address),
    Vault(Address),
}

/// Whether `authority` may grant on a value of `owner` under `program`: a
/// user's value takes that user's signature, a vault's value the vault's
/// address with the seeds and bump it derives from. Neither stands in for the
/// other.
pub open spec fn may_grant(program: Address, owner: OwnerContext, authority: Authority) -> bool {
    match (owner, authority) {
        (OwnerContext::User(user), Authority::Signer { key }) => key == user,
        (OwnerContext::Vault(vault), Authority::Derived { address, .. }) => address == vault
            && authority.accepted_by(program),
        _ => false,
    }
}

/// Whether `authority` fits `owner`, given what deriving its seed chain
/// anew gave: a derived authority must be that very result.
pub open spec fn fits(owner: OwnerContext, authority: Authority, regenerated: Option<Authority>) -> bool {
    match (owner, authority) {
        (OwnerContext::User(user), Authority::Signer { key }) => key == user,
        (OwnerContext::Vault(vault), Authority::Derived { address, .. }) => address == vault
            && regenerated == Some(authority),
        _ => false,
    }
}

/// Checks `authority` against `owner`, given what deriving its seed chain
/// anew gave. What does not fit is refused with `OwnerMismatch`.
pub fn check_grant(owner: OwnerContext, authority: &Authority, regenerated: Option<Authority>) -> (r:
    Result<(), CustomError>)
    ensures
        fits(owner, *authority, regenerated) ==> r.is_ok(),
        !fits(owner, *authority, regenerated) ==> r == Err::<(), CustomError>(
            CustomError::OwnerMismatch,
        ),
{
    let fitting = match (owner, authority) {
        (OwnerContext::User(user), Authority::Signer { key }) => key.matches(&user),
        (OwnerContext::Vault(vault), Authority::Derived { address, chain, bump }) => {
            match regenerated {
                Some(Authority::Derived { address: a, chain: c, bump: b }) => address.matches(&vault)
                    && a.matches(address) && b == *bump && c.matches(chain),
                _ => false,
            }
        },
        _ => false,
    };
    if fitting {
        Ok(())
    } else {
        Err(CustomError::OwnerMismatch)
    }
}

/// Grants `grantee` the right to read `subject`, a value of `owner`, on the
/// word of `authority`. The grant is made exactly where the authority may
/// grant on that owner's values; a signature where a derivation is due, a
/// derivation where a signature is due, another principal's authority or
/// seeds that do not derive the address are refused with `OwnerMismatch`.
pub fn grant_read(
    program: &Address,
    owner: OwnerContext,
    authority: Authority,
    subject: GrantSubject,
    grantee: Address,
    target: GrantTarget,
) -> (r: Result<GrantRequest, CustomError>)
    ensures
        may_grant(*program, owner, authority) ==> r == Ok::<GrantRequest, CustomError>(
            GrantRequest { subject, grantee, can_read: true, target, authority },
        ),
        !may_grant(*program, owner, authority) ==> r == Err::<GrantRequest, CustomError>(
            CustomError::OwnerMismatch,
        ),
{
    let regenerated = match authority {
        Authority::Derived { chain, .. } => derive_authority(program, chain),
        Authority::Signer { .. } => None,
    };
    proof {
        if let Authority::Derived { address, chain, bump } = authority {
            if regenerated.is_some() {
                let again = regenerated.unwrap();
                if derived(*program, chain, Some(authority)) {
                    assert(again->address.bytes =~= address.bytes);
                }
            }
        }
    }
    match check_grant(owner, &authority, regenerated) {
        Ok(()) => Ok(GrantRequest { subject, grantee, can_read: true, target, authority }),
        Err(e) => Err(e),
    }
}

/// The grant on a value that a vault owns, given what deriving the vault's
/// authority gave: made on the word of that authority. Without a derivation
/// the grant fails under the code of `AuthorityTypeNotSupported`, and with
/// anything but a derived authority under that of `OwnerMismatch`.
pub open spec fn vault_grant(
    vault: Option<Authority>,
    subject: GrantSubject,
    grantee: Address,
    target: GrantTarget,
) -> Result<GrantRequest, OpError> {
    match vault {
        None => Err(OpError::GrantFailed { code: 6015 }),
        Some(authority) => if authority is Derived {
            Ok(GrantRequest { subject, grantee, can_read: true, target, authority })
        } else {
            Err(OpError::GrantFailed { code: 6004 })
        },
    }
}

/// Builds the grant on a value that a vault owns, given what deriving the
/// vault's authority gave.
pub fn grant_for_vault(
    vault: Option<Authority>,
    subject: GrantSubject,
    grantee: Address,
    target: GrantTarget,
) -> (r: Result<GrantRequest, OpError>)
    ensures
        r == vault_grant(vault, subject, grantee, target),
{
    match vault {
        None => Err(OpError::GrantFailed { code: CustomError::AuthorityTypeNotSupported.code() }),
        Some(authority) => {
            let owner = OwnerContext::Vault(authority.address());
            match check_grant(owner, &authority, vault) {
                Ok(()) => Ok(GrantRequest { subject, grantee, can_read: true, target, authority }),
                Err(e) => Err(OpError::GrantFailed { code: e.code() }),
            }
        },
    }
}

/// A grant that is made for a vault from what deriving its authority gave
/// is one that this authority may make on the vault's values.
pub proof fn vault_grant_is_permitted(
    program: Address,
    chain: SeedChain,
    vault: Option<Authority>,
    subject: GrantSubject,
    grantee: Address,
    target: GrantTarget,
)
    requires
        derived(program, chain, vault),
        vault_grant(vault, subject, grantee, target).is_ok(),
    ensures
        may_grant(
            program,
            OwnerContext::Vault(vault.unwrap().principal()),
            vault_grant(vault, subject, grantee, target).unwrap().authority,
        ),
{
}

/// A signature never grants on what a vault owns, and a derived address
/// never on what a user owns.
pub proof fn authorities_do_not_stand_in(program: Address, owner: OwnerContext, authority: Authority)
    ensures
        owner is Vault && authority is Signer ==> !may_grant(program, owner, authority),
        owner is User && authority is Derived ==> !may_grant(program, owner, authority),
{
}

} // verus!
