//! Missing signer check.
//!
//! The vulnerable withdraw trusts the authority field of the vault without
//! ever consulting the host-verified signer flag: anyone who knows the
//! authority's address can withdraw. The secure withdraw applies the
//! authority-match rule, which demands the signature first.

use vstd::prelude::*;

use crate::descriptor::AccountDescriptor;
use crate::errors::PolicyError;
use crate::records::Vault;
use crate::rules::{authority_ok_spec, check_authority, check_signer};

verus! {

/// The amount a withdrawal of `amount` actually moves: capped at the
/// balance.
pub open spec fn withdraw_amount_spec(amount: u64, balance: u64) -> u64 {
    if amount <= balance {
        amount
    } else {
        balance
    }
}

/// VULNERABLE: checks only that the authority field matches; the signer
/// flag is never consulted, so a request that merely names the vault's
/// authority — without that authority signing — still succeeds.
pub fn withdraw_vulnerable(vault: &mut Vault, authority: &AccountDescriptor, amount: u64) -> (r:
    Result<u64, PolicyError>)
    ensures
        old(vault).authority@ != authority.address@ ==> r == Err::<u64, PolicyError>(
            PolicyError::Unauthorized,
        ) && *final(vault) == *old(vault),
        old(vault).authority@ == authority.address@ ==> r == Ok::<u64, PolicyError>(
            withdraw_amount_spec(amount, old(vault).balance),
        ) && *final(vault) == (Vault {
            balance: (old(vault).balance - withdraw_amount_spec(amount, old(vault).balance)) as u64,
            ..*old(vault)
        }),
{
    if !vault.authority.equals(&authority.address) {
        return Err(PolicyError::Unauthorized);
    }
    let transfer_amount = if amount <= vault.balance {
        amount
    } else {
        vault.balance
    };
    vault.balance = vault.balance - transfer_amount;
    Ok(transfer_amount)
}

/// SECURE: applies the authority-match rule — signature presence first,
/// then field equality — before moving any funds.
pub fn withdraw_secure(vault: &mut Vault, authority: &AccountDescriptor, amount: u64) -> (r:
    Result<u64, PolicyError>)
    ensures
        !authority.is_signer ==> r == Err::<u64, PolicyError>(PolicyError::MissingSignature)
            && *final(vault) == *old(vault),
        authority.is_signer && old(vault).authority@ != authority.address@ ==> r == Err::<
            u64,
            PolicyError,
        >(PolicyError::Unauthorized) && *final(vault) == *old(vault),
        authority_ok_spec(authority, old(vault).authority@) ==> r == Ok::<u64, PolicyError>(
            withdraw_amount_spec(amount, old(vault).balance),
        ) && *final(vault) == (Vault {
            balance: (old(vault).balance - withdraw_amount_spec(amount, old(vault).balance)) as u64,
            ..*old(vault)
        }),
{
    match check_authority(authority, &vault.authority) {
        Ok(()) => (),
        Err(e) => {
            return Err(e);
        },
    }
    let transfer_amount = if amount <= vault.balance {
        amount
    } else {
        vault.balance
    };
    vault.balance = vault.balance - transfer_amount;
    Ok(transfer_amount)
}

/// Create a vault for its signing authority with an initial balance.
pub fn initialize_vault(authority: &AccountDescriptor, initial_balance: u64, bump: u8) -> (r:
    Result<Vault, PolicyError>)
    requires
        authority.wf(),
    ensures
        !authority.is_signer ==> r == Err::<Vault, PolicyError>(PolicyError::MissingSignature),
        authority.is_signer ==> (r matches Ok(v) && v.wf() && v.authority@ == authority.address@
            && v.balance == initial_balance && v.total_deposits == 0 && v.total_withdrawals == 0
            && v.is_initialized && v.bump == bump),
{
    match check_signer(authority) {
        Ok(()) => (),
        Err(e) => {
            return Err(e);
        },
    }
    Ok(
        Vault {
            authority: authority.address.duplicate(),
            balance: initial_balance,
            total_deposits: 0,
            total_withdrawals: 0,
            is_initialized: true,
            bump,
        },
    )
}

} // verus!
