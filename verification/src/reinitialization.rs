//! Reinitialization.
//!
//! The vulnerable initializer overwrites whatever record is there. The
//! manual-flag initializer refuses when the data-carried flag is set — a
//! weaker guard, since raw-byte paths can spoof the flag. The
//! derivation-backed initializer applies the no-reinitialization rule to
//! the target account itself: a target that already holds an initialized
//! record of the type fails with `AlreadyInitialized` and keeps its data
//! unchanged, byte for byte.

use vstd::prelude::*;

use vstd::bytes::spec_u16_to_le_bytes;
use vstd::bytes::spec_u64_to_le_bytes;

use crate::descriptor::{AccountDescriptor, Address};
use crate::discriminator::record_tag_spec;
use crate::errors::PolicyError;
use crate::records::{config_name_spec, vault_name_spec, Config, Vault};
use crate::account_validation::{config_seed_spec, config_seeds};
use crate::pda::{find_program_address, lemma_canonical_bump_unique, pda_claim_valid_spec};
use crate::rules::{check_authority, check_not_initialized, check_signer, initialized_spec};

verus! {

/// The ASCII bytes of the vault seed `vault`.
pub open spec fn vault_seed_spec() -> Seq<u8> {
    seq![118u8, 97u8, 117u8, 108u8, 116u8]
}

/// The seed list a vault account is derived from: the `vault` seed
/// followed by the authority's address.
pub open spec fn vault_seeds_spec(authority: Seq<u8>) -> Seq<Seq<u8>> {
    seq![vault_seed_spec(), authority]
}

/// Build the seed list a vault account is derived from.
pub fn vault_seeds(authority: &Address) -> (r: Vec<Vec<u8>>)
    ensures
        r.deep_view() == vault_seeds_spec(authority@),
{
    let mut seed: Vec<u8> = Vec::new();
    seed.push(118); // 'v'
    seed.push(97); // 'a'
    seed.push(117); // 'u'
    seed.push(108); // 'l'
    seed.push(116); // 't'
    proof {
        assert(seed@ =~= vault_seed_spec());
    }
    let mut seeds: Vec<Vec<u8>> = Vec::new();
    seeds.push(seed);
    seeds.push(authority.to_bytes());
    proof {
        assert(seeds.deep_view() =~~= vault_seeds_spec(authority@));
    }
    seeds
}

/// The payload a fresh vault record is stamped with: its tag, the
/// authority, zeroed totals, a cleared flag byte and the bump.
pub open spec fn fresh_vault_bytes_spec(authority: Seq<u8>, bump: u8) -> Seq<u8> {
    record_tag_spec(vault_name_spec()) + authority + spec_u64_to_le_bytes(0)
        + spec_u64_to_le_bytes(0) + spec_u64_to_le_bytes(0) + seq![0u8, bump]
}

/// The payload a fresh config record is stamped with.
pub open spec fn fresh_config_bytes_spec(admin: Seq<u8>, fee_bps: u16, bump: u8) -> Seq<u8> {
    record_tag_spec(config_name_spec()) + admin + spec_u16_to_le_bytes(fee_bps)
        + spec_u64_to_le_bytes(0) + seq![bump]
}

/// VULNERABLE: overwrites the vault record unconditionally — a second call
/// resets the balance and hands the vault to whoever signed it.
pub fn initialize_vulnerable(vault: &mut Vault, authority: &AccountDescriptor) -> (r: Result<
    (),
    PolicyError,
>)
    requires
        authority.wf(),
    ensures
        !authority.is_signer ==> r == Err::<(), PolicyError>(PolicyError::MissingSignature)
            && *final(vault) == *old(vault),
        authority.is_signer ==> r == Ok::<(), PolicyError>(()) && final(vault).authority@
            == authority.address@ && final(vault).balance == 0 && final(vault).total_deposits == 0
            && final(vault).total_withdrawals == 0 && final(vault).is_initialized && final(vault).bump == old(vault).bump,
{
    match check_signer(authority) {
        Ok(()) => (),
        Err(e) => {
            return Err(e);
        },
    }
    vault.authority = authority.address.duplicate();
    vault.balance = 0;
    vault.total_deposits = 0;
    vault.total_withdrawals = 0;
    vault.is_initialized = true;
    Ok(())
}

/// SECURE (manual flag): refuses when the record's own initialization flag
/// is already set. Works, but the flag lives in the data and can be
/// spoofed through raw-byte paths that skip it; the derivation-backed
/// variant below is the stronger guard.
pub fn initialize_secure_manual(vault: &mut Vault, authority: &AccountDescriptor) -> (r: Result<
    (),
    PolicyError,
>)
    requires
        authority.wf(),
    ensures
        !authority.is_signer ==> r == Err::<(), PolicyError>(PolicyError::MissingSignature)
            && *final(vault) == *old(vault),
        authority.is_signer && old(vault).is_initialized ==> r == Err::<(), PolicyError>(
            PolicyError::AlreadyInitialized,
        ) && *final(vault) == *old(vault),
        authority.is_signer && !old(vault).is_initialized ==> r == Ok::<(), PolicyError>(())
            && final(vault).authority@ == authority.address@ && final(vault).balance == 0 && final(vault).total_deposits == 0 && final(vault).total_withdrawals == 0 && final(vault).is_initialized && final(vault).bump == old(vault).bump,
{
    match check_signer(authority) {
        Ok(()) => (),
        Err(e) => {
            return Err(e);
        },
    }
    if vault.is_initialized {
        return Err(PolicyError::AlreadyInitialized);
    }
    vault.authority = authority.address.duplicate();
    vault.balance = 0;
    vault.total_deposits = 0;
    vault.total_withdrawals = 0;
    vault.is_initialized = true;
    Ok(())
}

/// SECURE (derivation-backed): the create-once initializer. The target's
/// address must re-derive from the `vault` seeds under the canonical bump
/// — which the initializer derives itself and stamps into the record —
/// and the target may not already hold an initialized vault record (the
/// composite of the owner-match and discriminator-match rules). On any
/// failure the target is untouched, so the first record survives a second
/// attempt byte for byte.
pub fn initialize_secure_anchor(
    target: &mut AccountDescriptor,
    authority: &AccountDescriptor,
    program: &Address,
) -> (r: Result<(), PolicyError>)
    requires
        authority.wf(),
        program.wf(),
    ensures
        r is Ok <==> authority.is_signer && !initialized_spec(
            old(target),
            program@,
            record_tag_spec(vault_name_spec()),
        ) && (exists|b: u8|
            pda_claim_valid_spec(
                vault_seeds_spec(authority.address@),
                b,
                program@,
                old(target).address@,
            )),
        !authority.is_signer ==> r == Err::<(), PolicyError>(PolicyError::MissingSignature)
            && *final(target) == *old(target),
        authority.is_signer && initialized_spec(
            old(target),
            program@,
            record_tag_spec(vault_name_spec()),
        ) ==> r == Err::<(), PolicyError>(PolicyError::AlreadyInitialized) && *final(target)
            == *old(target),
        r is Err ==> *final(target) == *old(target),
        r is Err && authority.is_signer && !initialized_spec(
            old(target),
            program@,
            record_tag_spec(vault_name_spec()),
        ) ==> r == Err::<(), PolicyError>(PolicyError::InvalidPDA),
        r is Ok ==> (exists|b: u8|
            pda_claim_valid_spec(
                vault_seeds_spec(authority.address@),
                b,
                program@,
                old(target).address@,
            ) && final(target).data@ == fresh_vault_bytes_spec(authority.address@, b)) && final(target).owner_program@ == program@ && final(target).address == old(target).address && final(target).lamports == old(target).lamports && initialized_spec(
            final(target),
            program@,
            record_tag_spec(vault_name_spec()),
        ),
{
    match check_signer(authority) {
        Ok(()) => (),
        Err(e) => {
            return Err(e);
        },
    }
    let tag = Vault::type_tag();
    match check_not_initialized(target, program, &tag) {
        Ok(()) => (),
        Err(e) => {
            return Err(e);
        },
    }
    let seeds = vault_seeds(&authority.address);
    let ghost seeds_view = vault_seeds_spec(authority.address@);
    let (derived, canonical) = match find_program_address(&seeds, program) {
        Some(p) => p,
        None => {
            proof {
                assert forall|b: u8|
                    !pda_claim_valid_spec(seeds_view, b, program@, target.address@) by {
                    assert(!crate::pda::canonical_bump_spec(seeds_view, program@, b));
                }
            }
            return Err(PolicyError::InvalidPDA);
        },
    };
    if !derived.equals(&target.address) {
        proof {
            assert forall|b: u8|
                !pda_claim_valid_spec(seeds_view, b, program@, target.address@) by {
                if pda_claim_valid_spec(seeds_view, b, program@, target.address@) {
                    lemma_canonical_bump_unique(seeds_view, program@, b, canonical);
                }
            }
        }
        return Err(PolicyError::InvalidPDA);
    }
    proof {
        assert(pda_claim_valid_spec(seeds_view, canonical, program@, target.address@));
    }
    let record = Vault {
        authority: authority.address.duplicate(),
        balance: 0,
        total_deposits: 0,
        total_withdrawals: 0,
        is_initialized: false,
        bump: canonical,
    };
    let encoded = record.encode();
    proof {
        assert(encoded@ == fresh_vault_bytes_spec(authority.address@, canonical));
        assert(encoded@.subrange(0, 8) =~= record_tag_spec(vault_name_spec()));
    }
    target.data = encoded;
    target.owner_program = program.duplicate();
    Ok(())
}

/// VULNERABLE: trusts a raw byte as the initialization flag — an attacker
/// crafts data whose first byte is zero and the account passes for
/// uninitialized.
pub fn process_vault_vulnerable(vault_info: &AccountDescriptor) -> (r: Result<bool, PolicyError>)
    ensures
        vault_info.data@.len() >= 1 ==> r == Ok::<bool, PolicyError>(vault_info.data@[0] == 1),
        vault_info.data@.len() == 0 ==> r == Err::<bool, PolicyError>(
            PolicyError::AccountNotInitialized,
        ),
{
    if vault_info.data.len() == 0 {
        return Err(PolicyError::AccountNotInitialized);
    }
    Ok(*vault_info.data.get(0).unwrap() == 1)
}

/// SECURE: the account is interpreted only after the owner-match and
/// discriminator-match rules pass.
pub fn process_vault_secure(vault_info: &AccountDescriptor, program: &Address) -> (r: Result<
    Vault,
    PolicyError,
>)
    requires
        program.wf(),
    ensures
        r is Ok <==> crate::rules::owner_ok_spec(vault_info, program@)
            && crate::rules::has_tag_spec(
            vault_info.data@,
            record_tag_spec(vault_name_spec()),
        ) && vault_info.data@.len() == 66,
        r matches Ok(v) ==> v.wf() && v.authority@ == vault_info.data@.subrange(8, 40),
        !crate::rules::owner_ok_spec(vault_info, program@) ==> r == Err::<Vault, PolicyError>(
            PolicyError::InvalidOwner,
        ),
        crate::rules::owner_ok_spec(vault_info, program@) && !crate::rules::has_tag_spec(
            vault_info.data@,
            crate::discriminator::record_tag_spec(crate::records::vault_name_spec()),
        ) && crate::rules::untagged_spec(vault_info.data@) ==> r == Err::<Vault, PolicyError>(
            PolicyError::AccountNotInitialized,
        ),
        crate::rules::owner_ok_spec(vault_info, program@) && !crate::rules::has_tag_spec(
            vault_info.data@,
            crate::discriminator::record_tag_spec(crate::records::vault_name_spec()),
        ) && !crate::rules::untagged_spec(vault_info.data@) ==> r == Err::<Vault, PolicyError>(
            PolicyError::TypeMismatch,
        ),
        crate::rules::owner_ok_spec(vault_info, program@) && crate::rules::has_tag_spec(
            vault_info.data@,
            crate::discriminator::record_tag_spec(crate::records::vault_name_spec()),
        ) && vault_info.data@.len() != 66 ==> r == Err::<Vault, PolicyError>(
            PolicyError::TypeMismatch,
        ),
{
    Vault::decode(vault_info, program)
}

/// VULNERABLE: overwrites the protocol configuration unconditionally — a
/// second call replaces the admin and the fee.
pub fn initialize_config_vulnerable(
    config: &mut Config,
    admin: &AccountDescriptor,
    fee_bps: u16,
) -> (r: Result<(), PolicyError>)
    requires
        admin.wf(),
    ensures
        !admin.is_signer ==> r == Err::<(), PolicyError>(PolicyError::MissingSignature) && *final(config) == *old(config),
        admin.is_signer ==> r == Ok::<(), PolicyError>(()) && final(config).admin@
            == admin.address@ && final(config).fee_bps == fee_bps && final(config).price_per_unit
            == old(config).price_per_unit && final(config).bump == old(config).bump,
{
    match check_signer(admin) {
        Ok(()) => (),
        Err(e) => {
            return Err(e);
        },
    }
    config.admin = admin.address.duplicate();
    config.fee_bps = fee_bps;
    Ok(())
}

/// SECURE: the create-once initializer for the configuration account,
/// backed by the no-reinitialization rule on the target itself; the
/// target's address must re-derive from the `config` seed under the
/// canonical bump, which the initializer derives and stamps.
pub fn initialize_config_secure(
    target: &mut AccountDescriptor,
    admin: &AccountDescriptor,
    program: &Address,
    fee_bps: u16,
) -> (r: Result<(), PolicyError>)
    requires
        admin.wf(),
        program.wf(),
    ensures
        r is Ok <==> admin.is_signer && !initialized_spec(
            old(target),
            program@,
            record_tag_spec(config_name_spec()),
        ) && (exists|b: u8|
            pda_claim_valid_spec(
                seq![config_seed_spec()],
                b,
                program@,
                old(target).address@,
            )),
        !admin.is_signer ==> r == Err::<(), PolicyError>(PolicyError::MissingSignature) && *final(target) == *old(target),
        admin.is_signer && initialized_spec(
            old(target),
            program@,
            record_tag_spec(config_name_spec()),
        ) ==> r == Err::<(), PolicyError>(PolicyError::AlreadyInitialized) && *final(target)
            == *old(target),
        r is Err ==> *final(target) == *old(target),
        r is Err && admin.is_signer && !initialized_spec(
            old(target),
            program@,
            record_tag_spec(config_name_spec()),
        ) ==> r == Err::<(), PolicyError>(PolicyError::InvalidPDA),
        r is Ok ==> (exists|b: u8|
            pda_claim_valid_spec(
                seq![config_seed_spec()],
                b,
                program@,
                old(target).address@,
            ) && final(target).data@ == fresh_config_bytes_spec(admin.address@, fee_bps, b))
            && final(target).owner_program@ == program@ && final(target).address == old(target).address && final(target).lamports == old(target).lamports && initialized_spec(
            final(target),
            program@,
            record_tag_spec(config_name_spec()),
        ),
{
    match check_signer(admin) {
        Ok(()) => (),
        Err(e) => {
            return Err(e);
        },
    }
    let tag = Config::type_tag();
    match check_not_initialized(target, program, &tag) {
        Ok(()) => (),
        Err(e) => {
            return Err(e);
        },
    }
    let seeds = config_seeds();
    let ghost seeds_view = seq![config_seed_spec()];
    let (derived, canonical) = match find_program_address(&seeds, program) {
        Some(p) => p,
        None => {
            proof {
                assert forall|b: u8|
                    !pda_claim_valid_spec(seeds_view, b, program@, target.address@) by {
                    assert(!crate::pda::canonical_bump_spec(seeds_view, program@, b));
                }
            }
            return Err(PolicyError::InvalidPDA);
        },
    };
    if !derived.equals(&target.address) {
        proof {
            assert forall|b: u8|
                !pda_claim_valid_spec(seeds_view, b, program@, target.address@) by {
                if pda_claim_valid_spec(seeds_view, b, program@, target.address@) {
                    lemma_canonical_bump_unique(seeds_view, program@, b, canonical);
                }
            }
        }
        return Err(PolicyError::InvalidPDA);
    }
    proof {
        assert(pda_claim_valid_spec(seeds_view, canonical, program@, target.address@));
    }
    let record = Config {
        admin: admin.address.duplicate(),
        fee_bps,
        price_per_unit: 0,
        bump: canonical,
    };
    let encoded = record.encode();
    proof {
        assert(encoded@ == fresh_config_bytes_spec(admin.address@, fee_bps, canonical));
        assert(encoded@.subrange(0, 8) =~= record_tag_spec(config_name_spec()));
    }
    target.data = encoded;
    target.owner_program = program.duplicate();
    Ok(())
}

/// Deposit into the vault: both running totals move through checked
/// addition, and a failure leaves the vault untouched.
pub fn deposit(vault: &mut Vault, amount: u64) -> (r: Result<(), PolicyError>)
    ensures
        old(vault).balance + amount > u64::MAX || old(vault).total_deposits + amount > u64::MAX
            ==> r == Err::<(), PolicyError>(PolicyError::Overflow) && *final(vault) == *old(vault),
        old(vault).balance + amount <= u64::MAX && old(vault).total_deposits + amount <= u64::MAX
            ==> r == Ok::<(), PolicyError>(()) && *final(vault) == (Vault {
            balance: (old(vault).balance + amount) as u64,
            total_deposits: (old(vault).total_deposits + amount) as u64,
            ..*old(vault)
        }),
{
    let new_balance = match crate::safe_math::safe_add(vault.balance, amount) {
        Ok(v) => v,
        Err(e) => {
            return Err(e);
        },
    };
    let new_total = match crate::safe_math::safe_add(vault.total_deposits, amount) {
        Ok(v) => v,
        Err(e) => {
            return Err(e);
        },
    };
    vault.balance = new_balance;
    vault.total_deposits = new_total;
    Ok(())
}

/// Withdraw from the vault: the authority-match rule first, then checked
/// arithmetic on both totals; any failure leaves the vault untouched.
pub fn withdraw(vault: &mut Vault, authority: &AccountDescriptor, amount: u64) -> (r: Result<
    (),
    PolicyError,
>)
    ensures
        !authority.is_signer ==> r == Err::<(), PolicyError>(PolicyError::MissingSignature)
            && *final(vault) == *old(vault),
        authority.is_signer && old(vault).authority@ != authority.address@ ==> r == Err::<
            (),
            PolicyError,
        >(PolicyError::Unauthorized) && *final(vault) == *old(vault),
        crate::rules::authority_ok_spec(authority, old(vault).authority@) && amount > old(vault).balance ==> r == Err::<(), PolicyError>(PolicyError::InsufficientFunds) && *final(vault)
            == *old(vault),
        crate::rules::authority_ok_spec(authority, old(vault).authority@) && amount <= old(vault).balance && old(vault).total_withdrawals + amount > u64::MAX ==> r == Err::<
            (),
            PolicyError,
        >(PolicyError::Overflow) && *final(vault) == *old(vault),
        crate::rules::authority_ok_spec(authority, old(vault).authority@) && amount <= old(vault).balance && old(vault).total_withdrawals + amount <= u64::MAX ==> r == Ok::<
            (),
            PolicyError,
        >(()) && *final(vault) == (Vault {
            balance: (old(vault).balance - amount) as u64,
            total_withdrawals: (old(vault).total_withdrawals + amount) as u64,
            ..*old(vault)
        }),
{
    match check_authority(authority, &vault.authority) {
        Ok(()) => (),
        Err(e) => {
            return Err(e);
        },
    }
    let new_balance = match crate::safe_math::safe_sub(vault.balance, amount) {
        Ok(v) => v,
        Err(e) => {
            return Err(e);
        },
    };
    let new_total = match crate::safe_math::safe_add(vault.total_withdrawals, amount) {
        Ok(v) => v,
        Err(e) => {
            return Err(e);
        },
    };
    vault.balance = new_balance;
    vault.total_withdrawals = new_total;
    Ok(())
}

} // verus!
