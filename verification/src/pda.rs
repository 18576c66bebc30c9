//! Program-derived addresses.
//!
//! A program-derived address is computed deterministically from a program
//! identity, a seed sequence and a one-byte bump. Only the canonical bump —
//! the highest bump for which the derivation succeeds — is accepted, so a
//! claim that re-derives the right address under a lower bump is still
//! rejected.

use vstd::prelude::*;

use crate::descriptor::Address;
use crate::errors::PolicyError;

use anchor_lang::solana_program::pubkey::Pubkey;

verus! {

/// What `Pubkey::create_program_address` returns for `seeds`, the extra
/// one-byte `bump` seed and `program`: the derived 32-byte address, or
/// nothing when the derivation is refused (seed limits exceeded, or the
/// digest lands on the ed25519 curve).
pub uninterp spec fn pda_derive(seeds: Seq<Seq<u8>>, bump: u8, program: Seq<u8>) -> Option<
    Seq<u8>,
>;

/// `bump` is the canonical bump for `(seeds, program)`: the derivation
/// succeeds under it and under no higher bump, and the bump search never
/// tries bump zero.
pub open spec fn canonical_bump_spec(seeds: Seq<Seq<u8>>, program: Seq<u8>, bump: u8) -> bool {
    &&& bump >= 1
    &&& pda_derive(seeds, bump, program) is Some
    &&& forall|b: u8| b > bump ==> pda_derive(seeds, b, program) is None
}

/// The claim `(seeds, bump)` derives `address` under `program` holds exactly
/// when `bump` is canonical and the derivation reproduces `address`.
pub open spec fn pda_claim_valid_spec(
    seeds: Seq<Seq<u8>>,
    bump: u8,
    program: Seq<u8>,
    address: Seq<u8>,
) -> bool {
    &&& canonical_bump_spec(seeds, program, bump)
    &&& pda_derive(seeds, bump, program) == Some(address)
}

/// Relies on `Pubkey::try_find_program_address` (via the `anchor_lang`
/// re-export of `solana_pubkey`): it tries the bumps from 255 down to 1 and
/// returns the first for which `create_program_address` succeeds, so the
/// returned bump is the canonical one; it returns nothing when no bump from
/// 255 down to 1 succeeds.
#[verifier::external_body]
fn try_find_canonical(seeds: &Vec<Vec<u8>>, program: &Address) -> (r: Option<(Address, u8)>)
    requires
        program.wf(),
    ensures
        (match r {
            Some(p) => p.0.wf() && p.1 >= 1 && pda_derive(seeds.deep_view(), p.1, program@)
                == Some(p.0@) && forall|b: u8|
                b > p.1 ==> pda_derive(seeds.deep_view(), b, program@) is None,
            None => forall|b: u8| b >= 1 ==> pda_derive(seeds.deep_view(), b, program@) is None,
        }),
{
    let mut refs: Vec<&[u8]> = Vec::new();
    for seed in seeds.iter() {
        refs.push(seed.as_slice());
    }
    let program_id = Pubkey::try_from(program.as_bytes().as_slice()).unwrap();
    match Pubkey::try_find_program_address(&refs, &program_id) {
        Some((address, bump)) => match Address::from_bytes(address.to_bytes().to_vec()) {
            Some(a) => Some((a, bump)),
            None => None,
        },
        None => None,
    }
}

/// Find the canonical derivation for `(seeds, program)`: the derived address
/// together with the canonical bump, or nothing when no bump is viable.
pub fn find_program_address(seeds: &Vec<Vec<u8>>, program: &Address) -> (r: Option<(Address, u8)>)
    requires
        program.wf(),
    ensures
        (match r {
            Some(p) => p.0.wf() && canonical_bump_spec(seeds.deep_view(), program@, p.1)
                && pda_derive(seeds.deep_view(), p.1, program@) == Some(p.0@),
            None => forall|b: u8| !canonical_bump_spec(seeds.deep_view(), program@, b),
        }),
{
    try_find_canonical(seeds, program)
}

/// The derivation-match rule: the claim `(seeds, bump)` must reproduce
/// `address` under the canonical bump, else the claim is rejected with
/// `InvalidPDA`.
pub fn check_pda(address: &Address, seeds: &Vec<Vec<u8>>, bump: u8, program: &Address) -> (r:
    Result<(), PolicyError>)
    requires
        program.wf(),
    ensures
        r is Ok <==> pda_claim_valid_spec(seeds.deep_view(), bump, program@, address@),
        r is Err ==> r == Err::<(), PolicyError>(PolicyError::InvalidPDA),
{
    match find_program_address(seeds, program) {
        Some((derived, canonical)) => {
            if canonical == bump && derived.equals(address) {
                Ok(())
            } else {
                proof {
                    if pda_claim_valid_spec(seeds.deep_view(), bump, program@, address@) {
                        lemma_canonical_bump_unique(
                            seeds.deep_view(),
                            program@,
                            bump,
                            canonical,
                        );
                    }
                }
                Err(PolicyError::InvalidPDA)
            }
        },
        None => Err(PolicyError::InvalidPDA),
    }
}

/// The canonical bump is unique: two bumps that are both canonical for the
/// same seeds and program are equal.
pub proof fn lemma_canonical_bump_unique(seeds: Seq<Seq<u8>>, program: Seq<u8>, b1: u8, b2: u8)
    requires
        canonical_bump_spec(seeds, program, b1),
        canonical_bump_spec(seeds, program, b2),
    ensures
        b1 == b2,
{
    if b1 < b2 {
        assert(pda_derive(seeds, b2, program) is None);
    } else if b2 < b1 {
        assert(pda_derive(seeds, b1, program) is None);
    }
}

/// A non-canonical bump is always rejected, even when its derivation
/// happens to reproduce the expected address.
pub proof fn lemma_non_canonical_bump_rejected(
    seeds: Seq<Seq<u8>>,
    program: Seq<u8>,
    address: Seq<u8>,
    canonical: u8,
    claimed: u8,
)
    requires
        canonical_bump_spec(seeds, program, canonical),
        claimed != canonical,
    ensures
        !pda_claim_valid_spec(seeds, claimed, program, address),
{
    if canonical_bump_spec(seeds, program, claimed) {
        lemma_canonical_bump_unique(seeds, program, claimed, canonical);
    }
}

} // verus!
