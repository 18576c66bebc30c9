//! Integer overflow, underflow, truncation and precision loss.
//!
//! The vulnerable handlers use raw arithmetic, whose silent wraparound and
//! truncation the contracts state explicitly; the secure counterparts route
//! every operation through the checked arithmetic library and propagate its
//! typed failures without mutating any state first.

use vstd::prelude::*;

use crate::descriptor::AccountDescriptor;
use crate::errors::PolicyError;
use crate::records::{Config, UserAccount, Vault, WithdrawalRecord};
use crate::rules::{check_authority, check_signer};
use crate::safe_math::bps_fee_spec;

verus! {

/// 64-bit wraparound addition, as release-mode raw `+` behaves.
pub open spec fn wrap_add_spec(a: u64, b: u64) -> int {
    (a + b) % 0x1_0000_0000_0000_0000
}

/// 64-bit wraparound subtraction: `b > a` wraps to the top of the range.
pub open spec fn wrap_sub_spec(a: u64, b: u64) -> int {
    (a - b + 0x1_0000_0000_0000_0000) % 0x1_0000_0000_0000_0000
}

/// 64-bit wraparound multiplication.
pub open spec fn wrap_mul_spec(a: u64, b: u64) -> int {
    (a * b) % 0x1_0000_0000_0000_0000
}

/// VULNERABLE: raw addition — when the running total overflows, it wraps
/// and the excess silently disappears.
pub fn deposit_vulnerable(vault: &mut Vault, amount: u64) -> (r: Result<(), PolicyError>)
    ensures
        r == Ok::<(), PolicyError>(()),
        *final(vault) == (Vault {
            total_deposits: wrap_add_spec(old(vault).total_deposits, amount) as u64,
            ..*old(vault)
        }),
{
    let wide: u128 = (vault.total_deposits as u128) + (amount as u128);
    let wrapped: u128 = wide % 0x1_0000_0000_0000_0000;
    vault.total_deposits = wrapped as u64;
    Ok(())
}

/// SECURE: checked addition — overflow reports `Overflow` and mutates
/// nothing.
pub fn deposit_secure(vault: &mut Vault, amount: u64) -> (r: Result<(), PolicyError>)
    ensures
        old(vault).total_deposits + amount > u64::MAX ==> r == Err::<(), PolicyError>(
            PolicyError::Overflow,
        ) && *final(vault) == *old(vault),
        old(vault).total_deposits + amount <= u64::MAX ==> r == Ok::<(), PolicyError>(())
            && *final(vault) == (Vault {
            total_deposits: (old(vault).total_deposits + amount) as u64,
            ..*old(vault)
        }),
{
    let updated = match crate::safe_math::safe_add(vault.total_deposits, amount) {
        Ok(v) => v,
        Err(e) => {
            return Err(e);
        },
    };
    vault.total_deposits = updated;
    Ok(())
}

/// VULNERABLE: raw subtraction — withdrawing more than the balance wraps
/// to a near-maximal balance, the classic infinite-money defect. The
/// owner's live signature is still demanded; the hole is purely in the
/// arithmetic.
pub fn withdraw_vulnerable(
    user_account: &mut UserAccount,
    owner: &AccountDescriptor,
    amount: u64,
) -> (r: Result<(), PolicyError>)
    ensures
        !owner.is_signer ==> r == Err::<(), PolicyError>(PolicyError::MissingSignature)
            && *final(user_account) == *old(user_account),
        owner.is_signer && owner.address@ != old(user_account).owner@ ==> r == Err::<
            (),
            PolicyError,
        >(PolicyError::Unauthorized) && *final(user_account) == *old(user_account),
        crate::rules::authority_ok_spec(owner, old(user_account).owner@) ==> r == Ok::<
            (),
            PolicyError,
        >(()) && *final(user_account) == (UserAccount {
            balance: wrap_sub_spec(old(user_account).balance, amount) as u64,
            ..*old(user_account)
        }),
{
    match check_authority(owner, &user_account.owner) {
        Ok(()) => (),
        Err(e) => {
            return Err(e);
        },
    }
    let wrapped: u64 = if amount <= user_account.balance {
        user_account.balance - amount
    } else {
        let wide: u128 = 0x1_0000_0000_0000_0000u128 + (user_account.balance as u128) - (
        amount as u128);
        wide as u64
    };
    user_account.balance = wrapped;
    Ok(())
}

/// SECURE: the owner's authority first, then checked subtraction —
/// overdrawing reports `InsufficientFunds` and mutates nothing.
pub fn withdraw_secure(
    user_account: &mut UserAccount,
    owner: &AccountDescriptor,
    amount: u64,
) -> (r: Result<(), PolicyError>)
    ensures
        !owner.is_signer ==> r == Err::<(), PolicyError>(PolicyError::MissingSignature)
            && *final(user_account) == *old(user_account),
        owner.is_signer && owner.address@ != old(user_account).owner@ ==> r == Err::<
            (),
            PolicyError,
        >(PolicyError::Unauthorized) && *final(user_account) == *old(user_account),
        crate::rules::authority_ok_spec(owner, old(user_account).owner@) && amount > old(user_account).balance ==> r == Err::<(), PolicyError>(PolicyError::InsufficientFunds) && *final(user_account) == *old(user_account),
        crate::rules::authority_ok_spec(owner, old(user_account).owner@) && amount <= old(user_account).balance ==> r == Ok::<(), PolicyError>(()) && *final(user_account) == (UserAccount {
            balance: (old(user_account).balance - amount) as u64,
            ..*old(user_account)
        }),
{
    match check_authority(owner, &user_account.owner) {
        Ok(()) => (),
        Err(e) => {
            return Err(e);
        },
    }
    let updated = match crate::safe_math::safe_sub(user_account.balance, amount) {
        Ok(v) => v,
        Err(e) => {
            return Err(e);
        },
    };
    user_account.balance = updated;
    Ok(())
}

/// VULNERABLE: raw multiplication — two individually reasonable factors
/// overflow and the total price wraps to a small number.
pub fn calculate_price_vulnerable(config: &Config, quantity: u64) -> (r: Result<u64, PolicyError>)
    ensures
        r == Ok::<u64, PolicyError>(wrap_mul_spec(config.price_per_unit, quantity) as u64),
{
    proof {
        assert(config.price_per_unit as int * quantity as int <= u64::MAX as int * u64::MAX as int)
            by (nonlinear_arith)
            requires
                config.price_per_unit <= u64::MAX,
                quantity <= u64::MAX,
        ;
    }
    let wide: u128 = (config.price_per_unit as u128) * (quantity as u128);
    let wrapped: u128 = wide % 0x1_0000_0000_0000_0000;
    Ok(wrapped as u64)
}

/// SECURE: checked multiplication — overflow reports `Overflow`.
pub fn calculate_price_secure(config: &Config, quantity: u64) -> (r: Result<u64, PolicyError>)
    ensures
        config.price_per_unit * quantity <= u64::MAX ==> r == Ok::<u64, PolicyError>(
            (config.price_per_unit * quantity) as u64,
        ),
        config.price_per_unit * quantity > u64::MAX ==> r == Err::<u64, PolicyError>(
            PolicyError::Overflow,
        ),
{
    crate::safe_math::safe_mul(config.price_per_unit, quantity)
}

/// VULNERABLE: the raw cast drops the high 32 bits, so a huge withdrawal
/// is recorded as a tiny one.
pub fn record_withdrawal_vulnerable(record: &mut WithdrawalRecord, amount: u64) -> (r: Result<
    (),
    PolicyError,
>)
    ensures
        r == Ok::<(), PolicyError>(()),
        *final(record) == (WithdrawalRecord {
            last_withdrawal: (amount % 0x1_0000_0000) as u32,
            ..*old(record)
        }),
{
    let truncated: u64 = amount % 0x1_0000_0000;
    record.last_withdrawal = truncated as u32;
    Ok(())
}

/// SECURE: the narrowing cast is checked — a value past the 32-bit range
/// reports `CastOverflow` and mutates nothing.
pub fn record_withdrawal_secure(record: &mut WithdrawalRecord, amount: u64) -> (r: Result<
    (),
    PolicyError,
>)
    ensures
        amount > u32::MAX ==> r == Err::<(), PolicyError>(PolicyError::CastOverflow)
            && *final(record) == *old(record),
        amount <= u32::MAX ==> r == Ok::<(), PolicyError>(()) && *final(record) == (
        WithdrawalRecord { last_withdrawal: amount as u32, ..*old(record) }),
{
    let narrowed = match crate::safe_math::narrow_cast_u32(amount) {
        Ok(v) => v,
        Err(e) => {
            return Err(e);
        },
    };
    record.last_withdrawal = narrowed;
    Ok(())
}

/// VULNERABLE: floor division after a wrapping multiply — small transfers
/// round the fee down to zero, and large ones wrap the numerator first.
pub fn calculate_fee_vulnerable(config: &Config, amount: u64) -> (r: Result<u64, PolicyError>)
    ensures
        r == Ok::<u64, PolicyError>((wrap_mul_spec(amount, config.fee_bps as u64) / 10000) as u64),
{
    proof {
        assert(amount as int * config.fee_bps as int <= u64::MAX as int * u16::MAX as int)
            by (nonlinear_arith)
            requires
                amount <= u64::MAX,
                config.fee_bps <= u16::MAX,
        ;
    }
    let wide: u128 = (amount as u128) * (config.fee_bps as u128);
    let wrapped: u128 = wide % 0x1_0000_0000_0000_0000;
    Ok((wrapped as u64) / 10000)
}

/// SECURE: a checked multiply followed by ceiling division, with a floor
/// of one unit, so no nonzero transfer ever pays a zero fee.
pub fn calculate_fee_secure(config: &Config, amount: u64) -> (r: Result<u64, PolicyError>)
    ensures
        amount * config.fee_bps + 9999 <= u64::MAX ==> r == Ok::<u64, PolicyError>(
            (if bps_fee_spec(amount as int, config.fee_bps as int) >= 1 {
                bps_fee_spec(amount as int, config.fee_bps as int)
            } else {
                1
            }) as u64,
        ),
        amount * config.fee_bps + 9999 > u64::MAX ==> r == Err::<u64, PolicyError>(
            PolicyError::Overflow,
        ),
{
    let fee = match crate::safe_math::calculate_bps_fee(amount, config.fee_bps) {
        Ok(v) => v,
        Err(e) => {
            return Err(e);
        },
    };
    let min_fee: u64 = 1;
    if fee >= min_fee {
        Ok(fee)
    } else {
        Ok(min_fee)
    }
}

/// Create a user account for its signing owner.
pub fn initialize_user_account(owner: &AccountDescriptor, initial_balance: u64, bump: u8) -> (r:
    Result<UserAccount, PolicyError>)
    requires
        owner.wf(),
    ensures
        !owner.is_signer ==> r == Err::<UserAccount, PolicyError>(PolicyError::MissingSignature),
        owner.is_signer ==> (r matches Ok(v) && v.wf() && v.owner@ == owner.address@ && v.balance
            == initial_balance && v.rewards_accrued == 0 && v.bump == bump),
{
    match check_signer(owner) {
        Ok(()) => (),
        Err(e) => {
            return Err(e);
        },
    }
    Ok(
        UserAccount {
            owner: owner.address.duplicate(),
            balance: initial_balance,
            rewards_accrued: 0,
            bump,
        },
    )
}

/// Create a withdrawal record for its signing user.
pub fn initialize_record(user: &AccountDescriptor, bump: u8) -> (r: Result<
    WithdrawalRecord,
    PolicyError,
>)
    requires
        user.wf(),
    ensures
        !user.is_signer ==> r == Err::<WithdrawalRecord, PolicyError>(
            PolicyError::MissingSignature,
        ),
        user.is_signer ==> (r matches Ok(v) && v.wf() && v.user@ == user.address@
            && v.last_withdrawal == 0 && v.bump == bump),
{
    match check_signer(user) {
        Ok(()) => (),
        Err(e) => {
            return Err(e);
        },
    }
    Ok(WithdrawalRecord { user: user.address.duplicate(), last_withdrawal: 0, bump })
}

} // verus!
