//! Account validation and owner checks.
//!
//! The vulnerable handlers read fields straight out of unvalidated account
//! payloads — any account with the right byte layout is accepted. The
//! secure counterparts apply the owner-match, discriminator-match,
//! derivation-match and token-ownership rules before reading a single
//! field.

use vstd::prelude::*;

use vstd::bytes::{spec_u16_from_le_bytes, spec_u64_from_le_bytes};

use crate::codec::{read_u16_le, read_u64_le};
use crate::descriptor::{AccountDescriptor, Address};
use crate::discriminator::record_tag_spec;
use crate::errors::PolicyError;
use crate::pda::{check_pda, pda_claim_valid_spec};
use crate::records::{config_name_spec, pool_name_spec, Config, Pool};
use crate::rules::{check_signer, check_token_owner, has_tag_spec, owner_ok_spec};

verus! {

/// The fee the raw swap formula yields: `amount * fee_bps / 10000`,
/// computed in 128 bits and then silently truncated to 64 — the truncation
/// is part of the observed behaviour and is stated, not hidden.
pub open spec fn raw_swap_fee_spec(amount: u64, fee_bps: u16) -> int {
    ((amount * fee_bps) / 10000) % 0x1_0000_0000_0000_0000
}

/// The ASCII bytes of the configuration seed `config`.
pub open spec fn config_seed_spec() -> Seq<u8> {
    seq![99u8, 111u8, 110u8, 102u8, 105u8, 103u8]
}

/// The seed list a configuration account is derived from.
pub fn config_seeds() -> (r: Vec<Vec<u8>>)
    ensures
        r.deep_view() == seq![config_seed_spec()],
{
    let mut seed: Vec<u8> = Vec::new();
    seed.push(99); // 'c'
    seed.push(111); // 'o'
    seed.push(110); // 'n'
    seed.push(102); // 'f'
    seed.push(105); // 'i'
    seed.push(103); // 'g'
    proof {
        assert(seed@ =~= config_seed_spec());
    }
    let mut seeds: Vec<Vec<u8>> = Vec::new();
    seeds.push(seed);
    proof {
        assert(seeds.deep_view() =~~= seq![config_seed_spec()]);
    }
    seeds
}

/// VULNERABLE: reads the reward rate at its fixed offset out of whatever
/// payload was passed; no owner check, no discriminator check — the caller
/// fully controls the result.
pub fn claim_rewards_vulnerable(pool_info: &AccountDescriptor) -> (r: Result<u64, PolicyError>)
    ensures
        pool_info.data@.len() >= 56 ==> r == Ok::<u64, PolicyError>(
            spec_u64_from_le_bytes(pool_info.data@.subrange(48, 56)),
        ),
        pool_info.data@.len() < 56 ==> r == Err::<u64, PolicyError>(
            PolicyError::AccountNotInitialized,
        ),
{
    if pool_info.data.len() < 56 {
        return Err(PolicyError::AccountNotInitialized);
    }
    Ok(read_u64_le(&pool_info.data, 48))
}

/// The ASCII bytes of the pool seed `pool`.
pub open spec fn pool_seed_spec() -> Seq<u8> {
    seq![112u8, 111u8, 111u8, 108u8]
}

/// The seed list a pool account is derived from: the `pool` seed followed
/// by the pool authority's address.
pub open spec fn pool_seeds_spec(authority: Seq<u8>) -> Seq<Seq<u8>> {
    seq![pool_seed_spec(), authority]
}

/// Build the seed list a pool account is derived from.
pub fn pool_seeds(authority: &Address) -> (r: Vec<Vec<u8>>)
    ensures
        r.deep_view() == pool_seeds_spec(authority@),
{
    let mut seed: Vec<u8> = Vec::new();
    seed.push(112); // 'p'
    seed.push(111); // 'o'
    seed.push(111); // 'o'
    seed.push(108); // 'l'
    proof {
        assert(seed@ =~= pool_seed_spec());
    }
    let mut seeds: Vec<Vec<u8>> = Vec::new();
    seeds.push(seed);
    seeds.push(authority.to_bytes());
    proof {
        assert(seeds.deep_view() =~~= pool_seeds_spec(authority@));
    }
    seeds
}

/// SECURE: the pool is decoded only after the owner-match and
/// discriminator-match rules pass, and its address must re-derive from the
/// `pool` seeds — the seed word plus the record's own authority — under
/// the record's bump, before the reward rate is read.
pub fn claim_rewards_secure(pool_info: &AccountDescriptor, program: &Address) -> (r: Result<
    u64,
    PolicyError,
>)
    requires
        program.wf(),
    ensures
        r is Ok <==> owner_ok_spec(pool_info, program@) && has_tag_spec(
            pool_info.data@,
            record_tag_spec(pool_name_spec()),
        ) && pool_info.data@.len() == 57 && pda_claim_valid_spec(
            pool_seeds_spec(pool_info.data@.subrange(8, 40)),
            pool_info.data@[56],
            program@,
            pool_info.address@,
        ),
        r matches Ok(v) ==> v == spec_u64_from_le_bytes(pool_info.data@.subrange(48, 56)),
        !owner_ok_spec(pool_info, program@) ==> r == Err::<u64, PolicyError>(
            PolicyError::InvalidOwner,
        ),
        owner_ok_spec(pool_info, program@) && !has_tag_spec(
            pool_info.data@,
            record_tag_spec(pool_name_spec()),
        ) && crate::rules::untagged_spec(pool_info.data@) ==> r == Err::<u64, PolicyError>(
            PolicyError::AccountNotInitialized,
        ),
        owner_ok_spec(pool_info, program@) && !has_tag_spec(
            pool_info.data@,
            record_tag_spec(pool_name_spec()),
        ) && !crate::rules::untagged_spec(pool_info.data@) ==> r == Err::<u64, PolicyError>(
            PolicyError::TypeMismatch,
        ),
        owner_ok_spec(pool_info, program@) && has_tag_spec(
            pool_info.data@,
            record_tag_spec(pool_name_spec()),
        ) && pool_info.data@.len() != 57 ==> r == Err::<u64, PolicyError>(
            PolicyError::TypeMismatch,
        ),
        owner_ok_spec(pool_info, program@) && has_tag_spec(
            pool_info.data@,
            record_tag_spec(pool_name_spec()),
        ) && pool_info.data@.len() == 57 && !pda_claim_valid_spec(
            pool_seeds_spec(pool_info.data@.subrange(8, 40)),
            pool_info.data@[56],
            program@,
            pool_info.address@,
        ) ==> r == Err::<u64, PolicyError>(PolicyError::InvalidPDA),
{
    let pool = match Pool::decode(pool_info, program) {
        Ok(p) => p,
        Err(e) => {
            return Err(e);
        },
    };
    let seeds = pool_seeds(&pool.authority);
    match check_pda(&pool_info.address, &seeds, pool.bump, program) {
        Ok(()) => (),
        Err(e) => {
            return Err(e);
        },
    }
    Ok(pool.reward_rate)
}

/// VULNERABLE: reads the fee rate at its fixed offset out of any payload —
/// the config account's derivation is never checked, so a forged config
/// with a zero fee is accepted.
pub fn swap_vulnerable(config: &AccountDescriptor, amount: u64) -> (r: Result<u64, PolicyError>)
    ensures
        config.data@.len() >= 42 ==> r == Ok::<u64, PolicyError>(
            raw_swap_fee_spec(amount, spec_u16_from_le_bytes(config.data@.subrange(40, 42)))
                as u64,
        ),
        config.data@.len() < 42 ==> r == Err::<u64, PolicyError>(
            PolicyError::AccountNotInitialized,
        ),
{
    if config.data.len() < 42 {
        return Err(PolicyError::AccountNotInitialized);
    }
    let fee_bps = read_u16_le(&config.data, 40);
    Ok(raw_swap_fee(amount, fee_bps))
}

/// SECURE: decodes the config after the owner-match and discriminator
/// rules, then demands that the account's address re-derives from the
/// `config` seed under the record's bump — a substituted account fails the
/// derivation match.
pub fn swap_secure(config: &AccountDescriptor, program: &Address, amount: u64) -> (r: Result<
    u64,
    PolicyError,
>)
    requires
        program.wf(),
    ensures
        r is Ok <==> owner_ok_spec(config, program@) && has_tag_spec(
            config.data@,
            record_tag_spec(config_name_spec()),
        ) && config.data@.len() == 51 && pda_claim_valid_spec(
            seq![config_seed_spec()],
            config.data@[50],
            program@,
            config.address@,
        ),
        r matches Ok(v) ==> v == raw_swap_fee_spec(
            amount,
            spec_u16_from_le_bytes(config.data@.subrange(40, 42)),
        ) as u64,
        !owner_ok_spec(config, program@) ==> r == Err::<u64, PolicyError>(
            PolicyError::InvalidOwner,
        ),
        crate::rules::owner_ok_spec(config, program@) && !crate::rules::has_tag_spec(
            config.data@,
            crate::discriminator::record_tag_spec(crate::records::config_name_spec()),
        ) && crate::rules::untagged_spec(config.data@) ==> r == Err::<u64, PolicyError>(
            PolicyError::AccountNotInitialized,
        ),
        crate::rules::owner_ok_spec(config, program@) && !crate::rules::has_tag_spec(
            config.data@,
            crate::discriminator::record_tag_spec(crate::records::config_name_spec()),
        ) && !crate::rules::untagged_spec(config.data@) ==> r == Err::<u64, PolicyError>(
            PolicyError::TypeMismatch,
        ),
        crate::rules::owner_ok_spec(config, program@) && crate::rules::has_tag_spec(
            config.data@,
            crate::discriminator::record_tag_spec(crate::records::config_name_spec()),
        ) && config.data@.len() != 51 ==> r == Err::<u64, PolicyError>(
            PolicyError::TypeMismatch,
        ),
        owner_ok_spec(config, program@) && has_tag_spec(
            config.data@,
            record_tag_spec(config_name_spec()),
        ) && config.data@.len() == 51 && !pda_claim_valid_spec(
            seq![config_seed_spec()],
            config.data@[50],
            program@,
            config.address@,
        ) ==> r == Err::<u64, PolicyError>(PolicyError::InvalidPDA),
{
    let decoded = match Config::decode(config, program) {
        Ok(c) => c,
        Err(e) => {
            return Err(e);
        },
    };
    let seeds = config_seeds();
    match check_pda(&config.address, &seeds, decoded.bump, program) {
        Ok(()) => (),
        Err(e) => {
            return Err(e);
        },
    }
    Ok(raw_swap_fee(amount, decoded.fee_bps))
}

/// VULNERABLE: never verifies that the token account belongs to the user —
/// a deposit naming the victim's token account is accepted as-is.
pub fn deposit_vulnerable(
    token_account_owner: &Address,
    user: &AccountDescriptor,
    amount: u64,
) -> (r: Result<(), PolicyError>)
    ensures
        r == Ok::<(), PolicyError>(()),
{
    let _ = token_account_owner;
    let _ = user;
    let _ = amount;
    Ok(())
}

/// SECURE: the depositor must sign, and the token account's authority
/// field must be the depositor.
pub fn deposit_secure(token_account_owner: &Address, user: &AccountDescriptor, amount: u64) -> (r:
    Result<(), PolicyError>)
    ensures
        r is Ok <==> user.is_signer && token_account_owner@ == user.address@,
        !user.is_signer ==> r == Err::<(), PolicyError>(PolicyError::MissingSignature),
        user.is_signer && token_account_owner@ != user.address@ ==> r == Err::<(), PolicyError>(
            PolicyError::TokenAccountOwnerMismatch,
        ),
{
    let _ = amount;
    match check_signer(user) {
        Ok(()) => (),
        Err(e) => {
            return Err(e);
        },
    }
    check_token_owner(token_account_owner, &user.address)
}

/// Create a pool for its signing authority.
pub fn initialize_pool(authority: &AccountDescriptor, reward_rate: u64, bump: u8) -> (r: Result<
    Pool,
    PolicyError,
>)
    requires
        authority.wf(),
    ensures
        !authority.is_signer ==> r == Err::<Pool, PolicyError>(PolicyError::MissingSignature),
        authority.is_signer ==> (r matches Ok(v) && v.wf() && v.authority@ == authority.address@
            && v.total_deposited == 0 && v.reward_rate == reward_rate && v.bump == bump),
{
    match check_signer(authority) {
        Ok(()) => (),
        Err(e) => {
            return Err(e);
        },
    }
    Ok(
        Pool {
            authority: authority.address.duplicate(),
            total_deposited: 0,
            reward_rate,
            bump,
        },
    )
}

/// Create the protocol configuration for its signing admin.
pub fn initialize_config(admin: &AccountDescriptor, price: u64, fee_bps: u16, bump: u8) -> (r:
    Result<Config, PolicyError>)
    requires
        admin.wf(),
    ensures
        !admin.is_signer ==> r == Err::<Config, PolicyError>(PolicyError::MissingSignature),
        admin.is_signer ==> (r matches Ok(v) && v.wf() && v.admin@ == admin.address@ && v.fee_bps
            == fee_bps && v.price_per_unit == price && v.bump == bump),
{
    match check_signer(admin) {
        Ok(()) => (),
        Err(e) => {
            return Err(e);
        },
    }
    Ok(Config { admin: admin.address.duplicate(), fee_bps, price_per_unit: price, bump })
}

/// The raw swap-fee formula shared by both swap variants: multiply in 128
/// bits, divide, then truncate to 64 bits.
fn raw_swap_fee(amount: u64, fee_bps: u16) -> (r: u64)
    ensures
        r == raw_swap_fee_spec(amount, fee_bps),
{
    proof {
        assert(amount as int * fee_bps as int <= u64::MAX as int * u16::MAX as int)
            by (nonlinear_arith)
            requires
                amount <= u64::MAX,
                fee_bps <= u16::MAX,
        ;
    }
    let wide: u128 = (amount as u128) * (fee_bps as u128) / 10000;
    let low: u128 = wide % 0x1_0000_0000_0000_0000;
    low as u64
}

} // verus!
