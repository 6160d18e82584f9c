//! Key-less authorities: addresses derived from a namespace tag and seeds.

use vstd::prelude::*;
use crate::state::Address;

verus! {

/// The address and bump seed that the runtime derives for `program` from
/// `seeds`, or `None` where it derives none.
pub uninterp spec fn program_address(seeds: Seq<Seq<u8>>, program: Seq<u8>) -> Option<(Seq<u8>, u8)>;

/// The byte strings held by a list of seeds.
pub open spec fn seed_bytes(seeds: Seq<Vec<u8>>) -> Seq<Seq<u8>> {
    seeds.map_values(|s: Vec<u8>| s@)
}

/// Calls `Pubkey::try_find_program_address`, which `anchor_lang` hands on
/// from `solana-pubkey`: the search for the highest bump seed under which the
/// seeds and the program hash to an address off the curve. Not verified: the
/// contract claims only that the result is a function of the seeds and the
/// program alone, and names it `program_address`.
#[verifier::external_body]
pub(crate) fn find_program_address(seeds: &Vec<Vec<u8>>, program: &Address) -> (r: Option<(Address, u8)>)
    ensures
        match r {
            Some((address, bump)) => program_address(seed_bytes(seeds@), program.bytes@) == Some(
                (address.bytes@, bump),
            ),
            None => program_address(seed_bytes(seeds@), program.bytes@).is_none(),
        },
{
    let parts: Vec<&[u8]> = seeds.iter().map(|s| s.as_slice()).collect();
    let id = anchor_lang::prelude::Pubkey::new_from_array(program.bytes);
    anchor_lang::prelude::Pubkey::try_find_program_address(&parts, &id).map(
        |(key, bump)| (Address { bytes: key.to_bytes() }, bump),
    )
}

/// The namespace tag of vault addresses: the bytes of `vault`.
pub open spec fn vault_tag() -> Seq<u8> {
    seq![118u8, 97u8, 117u8, 108u8, 116u8]
}

/// The namespace tag of vault asset accounts: the bytes of `vault-ata`.
pub open spec fn vault_account_tag() -> Seq<u8> {
    seq![118u8, 97u8, 117u8, 108u8, 116u8, 45u8, 97u8, 116u8, 97u8]
}

/// The canonical seed layouts: a vault hangs off its creator, and the vault's
/// asset account off the vault and the asset type.
#[derive(Clone, Copy, Debug, PartialEq, Eq)]
pub enum SeedChain {
    Vault { creator: Address },
    VaultAccount { vault: Address, mint: Address },
}

/// A principal that can authorize an action: a transacting user who signs, or
/// an address without a key that is vouched for by its seed chain and bump.
#[derive(Clone, Copy, Debug, PartialEq, Eq)]
pub enum Authority {
    Signer { key: Address },
    Derived { address: Address, chain: SeedChain, bump: u8 },
}

/// Whether `found` is what deriving `chain` under `program` yields: the
/// authority with the derived address and bump, or nothing where no address
/// can be derived.
pub open spec fn derived(program: Address, chain: SeedChain, found: Option<Authority>) -> bool {
    match found {
        Some(Authority::Derived { address, chain: c, bump }) => c == chain && program_address(
            chain.seeds(),
            program.bytes@,
        ) == Some((address.bytes@, bump)),
        Some(Authority::Signer { .. }) => false,
        None => program_address(chain.seeds(), program.bytes@).is_none(),
    }
}

fn address_seed(a: &Address) -> (r: Vec<u8>)
    ensures
        r@ == a.bytes@,
{
    let mut v: Vec<u8> = Vec::new();
    let mut i: usize = 0;
    while i < 32
        invariant
            i <= 32,
            v@.len() == i,
            forall|j: int| 0 <= j < i ==> v@[j] == a.bytes[j],
        decreases 32 - i,
    {
        v.push(a.bytes[i]);
        i += 1;
    }
    proof {
        assert(v@ =~= a.bytes@);
    }
    v
}

impl SeedChain {
    /// The seeds of the chain, tag first.
    pub open spec fn seeds(self) -> Seq<Seq<u8>> {
        match self {
            SeedChain::Vault { creator } => seq![vault_tag(), creator.bytes@],
            SeedChain::VaultAccount { vault, mint } => seq![
                vault_account_tag(),
                vault.bytes@,
                mint.bytes@,
            ],
        }
    }

    /// Whether two seed chains are the same.
    pub fn matches(&self, other: &SeedChain) -> (r: bool)
        ensures
            r == (*self == *other),
    {
        match (self, other) {
            (SeedChain::Vault { creator: x }, SeedChain::Vault { creator: y }) => x.matches(y),
            (
                SeedChain::VaultAccount { vault: v, mint: m },
                SeedChain::VaultAccount { vault: w, mint: n },
            ) => v.matches(w) && m.matches(n),
            _ => false,
        }
    }

    /// The seeds of the chain as byte strings, tag first.
    pub fn to_seeds(&self) -> (r: Vec<Vec<u8>>)
        ensures
            seed_bytes(r@) == self.seeds(),
    {
        let mut out: Vec<Vec<u8>> = Vec::new();
        match self {
            SeedChain::Vault { creator } => {
                let tag: Vec<u8> = vec![118u8, 97u8, 117u8, 108u8, 116u8];
                proof {
                    assert(tag@ =~= vault_tag());
                }
                out.push(tag);
                out.push(address_seed(creator));
            },
            SeedChain::VaultAccount { vault, mint } => {
                let tag: Vec<u8> = vec![118u8, 97u8, 117u8, 108u8, 116u8, 45u8, 97u8, 116u8, 97u8];
                proof {
                    assert(tag@ =~= vault_account_tag());
                }
                out.push(tag);
                out.push(address_seed(vault));
                out.push(address_seed(mint));
            },
        }
        proof {
            assert(seed_bytes(out@) =~= self.seeds());
        }
        out
    }
}

impl Authority {
    /// The address that the authority acts as.
    pub open spec fn principal(self) -> Address {
        match self {
            Authority::Signer { key } => key,
            Authority::Derived { address, .. } => address,
        }
    }

    /// Whether the runtime accepts the authority under `program`: a signer
    /// always, a derived address only with the seeds and bump it derives from.
    pub open spec fn accepted_by(self, program: Address) -> bool {
        match self {
            Authority::Signer { .. } => true,
            Authority::Derived { .. } => derived(program, self.chain(), Some(self)),
        }
    }

    /// The seed chain of a derived authority.
    pub open spec fn chain(self) -> SeedChain
        recommends
            self is Derived,
    {
        self->chain
    }

    /// The address that the authority acts as.
    pub fn address(&self) -> (r: Address)
        ensures
            r == self.principal(),
    {
        match self {
            Authority::Signer { key } => *key,
            Authority::Derived { address, .. } => *address,
        }
    }

    /// The seeds that prove a derived authority to the runtime: its chain and
    /// then its bump. A signer proves itself by signing and has none.
    pub fn signer_seeds(&self) -> (r: Option<Vec<Vec<u8>>>)
        ensures
            self is Signer ==> r.is_none(),
            self is Derived ==> r.is_some() && seed_bytes(r.unwrap()@) == self.chain().seeds().push(
                seq![self->bump],
            ),
    {
        match self {
            Authority::Signer { .. } => None,
            Authority::Derived { chain, bump, .. } => {
                let mut seeds = chain.to_seeds();
                let last: Vec<u8> = vec![*bump];
                proof {
                    assert(last@ =~= seq![*bump]);
                }
                seeds.push(last);
                proof {
                    assert(seed_bytes(seeds@) =~= chain.seeds().push(seq![*bump]));
                }
                Some(seeds)
            },
        }
    }
}

/// Derives the key-less authority of `chain` under `program`.
pub fn derive_authority(program: &Address, chain: SeedChain) -> (r: Option<Authority>)
    ensures
        derived(*program, chain, r),
{
    let seeds = chain.to_seeds();
    match find_program_address(&seeds, program) {
        Some((address, bump)) => Some(Authority::Derived { address, chain, bump }),
        None => None,
    }
}

/// Derivation is a function of its inputs: whatever two derivations of one
/// chain under one program yield, they yield the same.
pub proof fn derivation_is_deterministic(
    program: Address,
    chain: SeedChain,
    first: Option<Authority>,
    second: Option<Authority>,
)
    requires
        derived(program, chain, first),
        derived(program, chain, second),
    ensures
        first == second,
{
    if first is Some && second is Some {
        let a = first.unwrap();
        let b = second.unwrap();
        assert(a->address.bytes@ == b->address.bytes@);
        assert(a->address.bytes =~= b->address.bytes);
    }
}

} // verus!
