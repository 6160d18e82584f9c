use anchor_lang::prelude::Pubkey;
use inco_private_funding::authority::{derive_authority, Authority, SeedChain};
use inco_private_funding::access::{check_grant, grant_read, OwnerContext};
use inco_private_funding::error::CustomError;
use inco_private_funding::protocol::{GrantRequest, GrantSubject, GrantTarget};
use inco_private_funding::state::{Address, EncryptedHandle, Funding};

fn addr(b: u8) -> Address {
    Address { bytes: [b; 32] }
}

#[test]
fn derivation_is_idempotent() {
    let program = addr(9);
    let chain = SeedChain::Vault { creator: addr(1) };
    let first = derive_authority(&program, chain);
    let other = derive_authority(&program, SeedChain::Vault { creator: addr(2) });
    let second = derive_authority(&program, chain);
    assert!(first.is_some());
    assert_eq!(first, second);
    assert_ne!(first, other);
}

#[test]
fn vault_address_is_the_runtime_address() {
    let program = addr(9);
    let creator = addr(1);
    let chain = SeedChain::Vault { creator };
    let (key, bump) = Pubkey::find_program_address(
        &[b"vault", &creator.bytes],
        &Pubkey::new_from_array(program.bytes),
    );
    assert_eq!(
        derive_authority(&program, chain),
        Some(Authority::Derived { address: Address { bytes: key.to_bytes() }, chain, bump })
    );
    assert_ne!(key.to_bytes(), creator.bytes);
    assert_ne!(key.to_bytes(), program.bytes);
}

#[test]
fn vault_account_address_is_the_runtime_address() {
    let program = addr(9);
    let (vault, mint) = (addr(6), addr(2));
    let chain = SeedChain::VaultAccount { vault, mint };
    let (key, bump) = Pubkey::find_program_address(
        &[b"vault-ata", &vault.bytes, &mint.bytes],
        &Pubkey::new_from_array(program.bytes),
    );
    assert_eq!(
        derive_authority(&program, chain),
        Some(Authority::Derived { address: Address { bytes: key.to_bytes() }, chain, bump })
    );
}

#[test]
fn seed_layouts() {
    let vault = SeedChain::Vault { creator: addr(1) }.to_seeds();
    assert_eq!(vault, vec![b"vault".to_vec(), vec![1u8; 32]]);
    let account = SeedChain::VaultAccount { vault: addr(6), mint: addr(2) }.to_seeds();
    assert_eq!(account, vec![b"vault-ata".to_vec(), vec![6u8; 32], vec![2u8; 32]]);
}

#[test]
fn signer_seeds_prove_the_address() {
    let program = addr(9);
    let found = derive_authority(&program, SeedChain::Vault { creator: addr(1) }).unwrap();
    let seeds = found.signer_seeds().unwrap();
    assert_eq!(seeds.len(), 3);
    let parts: Vec<&[u8]> = seeds.iter().map(|s| s.as_slice()).collect();
    let key =
        Pubkey::create_program_address(&parts, &Pubkey::new_from_array(program.bytes)).unwrap();
    assert_eq!(found.address(), Address { bytes: key.to_bytes() });
    let user = Authority::Signer { key: addr(3) };
    assert_eq!(user.signer_seeds(), None);
    assert_eq!(user.address(), addr(3));
}

#[test]
fn addresses_compare_by_bytes() {
    let mut other = [7u8; 32];
    assert!(addr(7).matches(&Address { bytes: other }));
    other[31] = 8;
    assert!(!addr(7).matches(&Address { bytes: other }));
    other[31] = 7;
    other[0] = 0;
    assert!(!addr(7).matches(&Address { bytes: other }));
}

#[test]
fn record_length() {
    assert_eq!(Funding::LEN, 162);
}

#[test]
fn opened_record() {
    let r = Funding::open(addr(1), addr(5), addr(2), EncryptedHandle { raw: 9 }, 77);
    assert_eq!(
        r,
        Funding {
            creator: addr(1),
            vault_ata: addr(5),
            mint: addr(2),
            enc_total_raised: EncryptedHandle { raw: 9 },
            contributor_count: 0,
            created_at: 77,
            is_finalized: false,
        }
    );
    let mut w = r;
    w.commit_deposit(EncryptedHandle { raw: 10 }).unwrap();
    assert_eq!(w.contributor_count, 1);
    assert_eq!(w.enc_total_raised, EncryptedHandle { raw: 10 });
    w.commit_withdrawal(EncryptedHandle { raw: 11 });
    assert_eq!(w.contributor_count, 1);
    assert_eq!(w.enc_total_raised, EncryptedHandle { raw: 11 });
    assert_eq!(w.creator, r.creator);
}

#[test]
fn error_messages_and_codes() {
    assert_eq!(CustomError::NotRentExempt.code(), 6000);
    assert_eq!(CustomError::OwnerMismatch.code(), 6004);
    assert_eq!(CustomError::AlreadyInUse.code(), 6006);
    assert_eq!(CustomError::Overflow.code(), 6014);
    assert_eq!(CustomError::NonNativeNotSupported.code(), 6019);
    assert_eq!(CustomError::OwnerMismatch.message(), "Owner does not match");
    assert_eq!(CustomError::AlreadyInUse.message(), "Account already in use");
    assert_eq!(CustomError::MintMismatch.message(), "Account not associated with this Mint");
    assert_eq!(CustomError::InvalidMint.message(), "Invalid Mint");
    assert_eq!(CustomError::UninitializedState.message(), "State is uninitialized");
    assert_eq!(CustomError::InvalidState.message(), "Invalid state");
    assert_eq!(CustomError::Overflow.message(), "Overflow");
}

fn slot() -> GrantTarget {
    GrantTarget { allowance_account: addr(70), allowed_address: addr(71) }
}

#[test]
fn user_grants_on_own_value_only() {
    let program = addr(9);
    let subject = GrantSubject::BalanceOf(addr(50));
    let me = Authority::Signer { key: addr(3) };
    assert_eq!(
        grant_read(&program, OwnerContext::User(addr(3)), me, subject, addr(3), slot()),
        Ok(GrantRequest { subject, grantee: addr(3), can_read: true, target: slot(), authority: me })
    );
    assert_eq!(
        grant_read(&program, OwnerContext::User(addr(4)), me, subject, addr(3), slot()),
        Err(CustomError::OwnerMismatch)
    );
    assert_eq!(
        grant_read(&program, OwnerContext::Vault(addr(3)), me, subject, addr(3), slot()),
        Err(CustomError::OwnerMismatch)
    );
}

#[test]
fn vault_grants_take_the_exact_derivation() {
    let program = addr(9);
    let chain = SeedChain::Vault { creator: addr(1) };
    let vault = derive_authority(&program, chain).unwrap();
    let home = vault.address();
    let subject = GrantSubject::Handle(EncryptedHandle { raw: 5 });
    assert_eq!(
        grant_read(&program, OwnerContext::Vault(home), vault, subject, addr(1), slot()),
        Ok(GrantRequest {
            subject,
            grantee: addr(1),
            can_read: true,
            target: slot(),
            authority: vault
        })
    );
    assert_eq!(
        grant_read(&program, OwnerContext::User(home), vault, subject, addr(1), slot()),
        Err(CustomError::OwnerMismatch)
    );
    assert_eq!(
        grant_read(&program, OwnerContext::Vault(addr(8)), vault, subject, addr(1), slot()),
        Err(CustomError::OwnerMismatch)
    );
    let (address, bump) = match vault {
        Authority::Derived { address, bump, .. } => (address, bump),
        Authority::Signer { .. } => panic!("a derived authority was expected"),
    };
    let wrong_bump = Authority::Derived { address, chain, bump: bump.wrapping_sub(1) };
    assert_eq!(
        grant_read(&program, OwnerContext::Vault(home), wrong_bump, subject, addr(1), slot()),
        Err(CustomError::OwnerMismatch)
    );
    let wrong_seeds =
        Authority::Derived { address, chain: SeedChain::Vault { creator: addr(2) }, bump };
    assert_eq!(
        grant_read(&program, OwnerContext::Vault(home), wrong_seeds, subject, addr(1), slot()),
        Err(CustomError::OwnerMismatch)
    );
    assert_eq!(
        grant_read(&addr(10), OwnerContext::Vault(home), vault, subject, addr(1), slot()),
        Err(CustomError::OwnerMismatch)
    );
    assert_eq!(check_grant(OwnerContext::Vault(home), &vault, Some(vault)), Ok(()));
    assert_eq!(
        check_grant(OwnerContext::Vault(home), &vault, None),
        Err(CustomError::OwnerMismatch)
    );
}
