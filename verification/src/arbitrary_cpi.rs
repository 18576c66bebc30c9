//! Cross-program invocation target validation.
//!
//! Invoking another program is host work; what these handlers own — and
//! what is verified here — is the decision whether the callee account may
//! be invoked at all. The vulnerable handlers accept any callee; the secure
//! counterparts apply the executable-match rule against a pinned expected
//! program identity before any state is touched, and never approve handing
//! derivation-signing authority to an unvalidated callee.

use vstd::prelude::*;

use crate::descriptor::{AccountDescriptor, Address};
use crate::errors::PolicyError;
use crate::records::{Treasury, Vault};
use crate::rules::{authority_ok_spec, check_authority, check_executable, check_signer,
    program_ok_spec};

verus! {

/// VULNERABLE: approves the swap against whatever callee account was
/// passed — no executable check, no identity check.
pub fn swap_vulnerable(
    swap_program: &AccountDescriptor,
    user: &AccountDescriptor,
    amount: u64,
) -> (r: Result<(), PolicyError>)
    ensures
        r == Ok::<(), PolicyError>(()),
{
    let _ = swap_program;
    let _ = user;
    let _ = amount;
    Ok(())
}

/// SECURE: the callee must be executable and must be exactly the pinned
/// swap program.
pub fn swap_secure(
    swap_program: &AccountDescriptor,
    expected_program: &Address,
    user: &AccountDescriptor,
    amount: u64,
) -> (r: Result<(), PolicyError>)
    ensures
        r is Ok <==> program_ok_spec(swap_program, expected_program@),
        r is Err ==> r == Err::<(), PolicyError>(PolicyError::InvalidProgram),
{
    let _ = user;
    let _ = amount;
    check_executable(swap_program, expected_program)
}

/// VULNERABLE: updates the vault as if the transfer succeeded without ever
/// validating the token program — a fake callee that moves nothing still
/// gets the state update.
pub fn transfer_tokens_vulnerable(
    vault: &mut Vault,
    token_program: &AccountDescriptor,
    amount: u64,
) -> (r: Result<(), PolicyError>)
    ensures
        amount > old(vault).balance ==> r == Err::<(), PolicyError>(
            PolicyError::InsufficientFunds,
        ) && *final(vault) == *old(vault),
        amount <= old(vault).balance ==> r == Ok::<(), PolicyError>(()) && *final(vault) == (
        Vault { balance: (old(vault).balance - amount) as u64, ..*old(vault) }),
{
    let _ = token_program;
    let updated = match crate::safe_math::safe_sub(vault.balance, amount) {
        Ok(v) => v,
        Err(e) => {
            return Err(e);
        },
    };
    vault.balance = updated;
    Ok(())
}

/// SECURE: the token program must pass the executable-match rule against
/// the pinned identity before the vault balance moves; on any failure the
/// vault is untouched.
pub fn transfer_tokens_secure(
    vault: &mut Vault,
    token_program: &AccountDescriptor,
    expected_token_program: &Address,
    amount: u64,
) -> (r: Result<(), PolicyError>)
    ensures
        !program_ok_spec(token_program, expected_token_program@) ==> r == Err::<(), PolicyError>(
            PolicyError::InvalidProgram,
        ) && *final(vault) == *old(vault),
        program_ok_spec(token_program, expected_token_program@) && amount > old(vault).balance
            ==> r == Err::<(), PolicyError>(PolicyError::InsufficientFunds) && *final(vault)
            == *old(vault),
        program_ok_spec(token_program, expected_token_program@) && amount <= old(vault).balance
            ==> r == Ok::<(), PolicyError>(()) && *final(vault) == (Vault {
            balance: (old(vault).balance - amount) as u64,
            ..*old(vault)
        }),
{
    match check_executable(token_program, expected_token_program) {
        Ok(()) => (),
        Err(e) => {
            return Err(e);
        },
    }
    let updated = match crate::safe_math::safe_sub(vault.balance, amount) {
        Ok(v) => v,
        Err(e) => {
            return Err(e);
        },
    };
    vault.balance = updated;
    Ok(())
}

/// VULNERABLE: approves a reward distribution that would hand the
/// treasury's derivation-signing authority to whatever program was passed.
pub fn distribute_rewards_vulnerable(
    treasury: &Treasury,
    reward_program: &AccountDescriptor,
) -> (r: Result<u64, PolicyError>)
    ensures
        r == Ok::<u64, PolicyError>(treasury.reward_amount),
{
    let _ = reward_program;
    Ok(treasury.reward_amount)
}

/// SECURE: the admin must sign and match the treasury's admin field, and
/// the callee must pass the executable-match rule against the pinned token
/// program, before the distribution amount is approved.
pub fn distribute_rewards_secure(
    treasury: &Treasury,
    token_program: &AccountDescriptor,
    expected_token_program: &Address,
    admin: &AccountDescriptor,
) -> (r: Result<u64, PolicyError>)
    ensures
        r is Ok <==> authority_ok_spec(admin, treasury.admin@) && program_ok_spec(
            token_program,
            expected_token_program@,
        ),
        r matches Ok(v) ==> v == treasury.reward_amount,
        !admin.is_signer ==> r == Err::<u64, PolicyError>(PolicyError::MissingSignature),
        admin.is_signer && admin.address@ != treasury.admin@ ==> r == Err::<u64, PolicyError>(
            PolicyError::Unauthorized,
        ),
        authority_ok_spec(admin, treasury.admin@) && !program_ok_spec(
            token_program,
            expected_token_program@,
        ) ==> r == Err::<u64, PolicyError>(PolicyError::InvalidProgram),
{
    match check_authority(admin, &treasury.admin) {
        Ok(()) => (),
        Err(e) => {
            return Err(e);
        },
    }
    match check_executable(token_program, expected_token_program) {
        Ok(()) => (),
        Err(e) => {
            return Err(e);
        },
    }
    Ok(treasury.reward_amount)
}

/// VULNERABLE: consults the oracle account without checking that it is
/// executable at all.
pub fn call_oracle_vulnerable(oracle_program: &AccountDescriptor) -> (r: Result<(), PolicyError>)
    ensures
        r == Ok::<(), PolicyError>(()),
{
    let _ = oracle_program;
    Ok(())
}

/// SECURE: the oracle must be executable and must be the pinned oracle
/// program.
pub fn call_oracle_secure(
    oracle_program: &AccountDescriptor,
    expected_oracle: &Address,
) -> (r: Result<(), PolicyError>)
    ensures
        r is Ok <==> program_ok_spec(oracle_program, expected_oracle@),
        r is Err ==> r == Err::<(), PolicyError>(PolicyError::InvalidProgram),
{
    check_executable(oracle_program, expected_oracle)
}

/// Create a treasury for its signing admin.
pub fn initialize_treasury(admin: &AccountDescriptor, reward_amount: u64, bump: u8) -> (r: Result<
    Treasury,
    PolicyError,
>)
    requires
        admin.wf(),
    ensures
        !admin.is_signer ==> r == Err::<Treasury, PolicyError>(PolicyError::MissingSignature),
        admin.is_signer ==> (r matches Ok(v) && v.wf() && v.admin@ == admin.address@
            && v.reward_amount == reward_amount && v.bump == bump),
{
    match check_signer(admin) {
        Ok(()) => (),
        Err(e) => {
            return Err(e);
        },
    }
    Ok(Treasury { admin: admin.address.duplicate(), reward_amount, bump })
}

} // verus!
