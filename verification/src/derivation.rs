use vstd::prelude::*;

use crate::principal::Principal;

verus! {

/// The fixed domain tag under which per-collection authorities are derived.
/// A fixed tag keeps identities derived for one purpose from colliding with
/// identities derived for another.
pub open spec fn authority_tag() -> Seq<char> {
    "collection_authority"@
}

/// The exec counterpart of [`authority_tag`].
pub fn authority_tag_str() -> (r: &'static str)
    ensures
        r@ == authority_tag(),
{
    "collection_authority"
}

/// What the derivation engine yields for one domain tag, one 32-byte seed and
/// one bump value under one program identity: the derived identity, or
/// nothing where that bump yields no valid address. The value is a function
/// of the arguments alone; nothing further is assumed about it.
pub uninterp spec fn pda_of(tag: Seq<char>, seed: Seq<u8>, bump: u8, program: Seq<u8>) -> Option<Seq<u8>>;

/// Relies on `Pubkey::create_program_address` of the Solana SDK: the result
/// is a deterministic function of the seed slices and the program identity,
/// and it is an error exactly when a seed is over the size limits or the
/// candidate address lies on the ed25519 curve.
#[verifier::external_body]
pub(crate) fn create_address(tag: &str, seed: &Principal, bump: u8, program: &Principal) -> (r: Option<
    Principal,
>)
    ensures
        (match r {
            Some(a) => pda_of(tag@, seed@, bump, program@) == Some(a@),
            None => pda_of(tag@, seed@, bump, program@) is None,
        }),
{
    let program_id = anchor_lang::solana_program::pubkey::Pubkey::new_from_array(program.bytes);
    let bump_seed: [u8; 1] = [bump];
    let seeds: [&[u8]; 3] = [tag.as_bytes(), &seed.bytes, &bump_seed];
    match anchor_lang::solana_program::pubkey::Pubkey::create_program_address(&seeds, &program_id) {
        Ok(address) => Some(Principal { bytes: address.to_bytes() }),
        Err(_) => None,
    }
}

/// The pair (address, bump) is the canonical derivation for (tag, seed,
/// program): the highest bump in 1..=255 whose candidate address is valid.
pub open spec fn derive_found(
    tag: Seq<char>,
    seed: Seq<u8>,
    program: Seq<u8>,
    address: Seq<u8>,
    bump: u8,
) -> bool {
    &&& 1 <= bump
    &&& pda_of(tag, seed, bump, program) == Some(address)
    &&& forall|b: u8| bump < b ==> pda_of(tag, seed, b, program) is None
}

/// Some bump in 1..=255 yields a valid derived address for these inputs.
pub open spec fn derivable(tag: Seq<char>, seed: Seq<u8>, program: Seq<u8>) -> bool {
    exists|b: u8| 1 <= b && pda_of(tag, seed, b, program) is Some
}

/// The identity of the canonical derivation, where one exists.
pub open spec fn derived_address(tag: Seq<char>, seed: Seq<u8>, program: Seq<u8>) -> Seq<u8> {
    (choose|p: (Seq<u8>, u8)| derive_found(tag, seed, program, p.0, p.1)).0
}

/// The nonce (bump) of the canonical derivation, where one exists.
pub open spec fn derived_bump(tag: Seq<char>, seed: Seq<u8>, program: Seq<u8>) -> u8 {
    (choose|p: (Seq<u8>, u8)| derive_found(tag, seed, program, p.0, p.1)).1
}

/// Law: derivation is deterministic. Any two pairs that are each a canonical
/// derivation for the same domain tag, seed and program identity are one and
/// the same pair.
pub proof fn lemma_derivation_deterministic(
    tag: Seq<char>,
    seed: Seq<u8>,
    program: Seq<u8>,
    a1: Seq<u8>,
    n1: u8,
    a2: Seq<u8>,
    n2: u8,
)
    requires
        derive_found(tag, seed, program, a1, n1),
        derive_found(tag, seed, program, a2, n2),
    ensures
        a1 == a2,
        n1 == n2,
{
    if n1 < n2 {
        assert(pda_of(tag, seed, n2, program) is None);
    }
    if n2 < n1 {
        assert(pda_of(tag, seed, n1, program) is None);
    }
}

/// A pair for which [`derive_found`] holds is the pair that
/// [`derived_address`] and [`derived_bump`] name.
pub proof fn lemma_derive_found_is_canonical(
    tag: Seq<char>,
    seed: Seq<u8>,
    program: Seq<u8>,
    address: Seq<u8>,
    bump: u8,
)
    requires
        derive_found(tag, seed, program, address, bump),
    ensures
        derived_address(tag, seed, program) == address,
        derived_bump(tag, seed, program) == bump,
{
    let p = choose|p: (Seq<u8>, u8)| derive_found(tag, seed, program, p.0, p.1);
    assert(derive_found(tag, seed, program, (address, bump).0, (address, bump).1));
    lemma_derivation_deterministic(tag, seed, program, p.0, p.1, address, bump);
}

/// Derive the delegated-authority identity and its nonce for one seed under
/// one program identity. Bumps are tried from 255 downward and the first
/// valid address wins, exactly as the hosting runtime re-derives them; so the
/// same inputs always name the same identity, and presenting (tag, seed,
/// nonce) later reproduces it without any stored secret.
pub fn derive_address(tag: &str, seed: &Principal, program: &Principal) -> (r: Option<
    (Principal, u8),
>)
    ensures
        r is Some <==> derivable(tag@, seed@, program@),
        (r matches Some(p) ==> p.0@ == derived_address(tag@, seed@, program@) && p.1
            == derived_bump(tag@, seed@, program@)),
{
    let mut bump: u8 = 255;
    loop
        invariant
            1 <= bump <= 255,
            forall|b: u8| bump < b ==> pda_of(tag@, seed@, b, program@) is None,
        decreases bump,
    {
        match create_address(tag, seed, bump, program) {
            Some(address) => {
                proof {
                    lemma_derive_found_is_canonical(tag@, seed@, program@, address@, bump);
                }
                return Some((address, bump));
            },
            None => {},
        }
        if bump == 1 {
            return None;
        }
        bump = bump - 1;
    }
}

} // verus!
