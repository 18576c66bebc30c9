//! Type cosplay.
//!
//! Two record types can share one byte layout; what tells them apart is
//! the 8-byte type tag. The vulnerable handlers interpret raw bytes at
//! fixed offsets, or trust a one-byte type flag anybody can write; the
//! secure counterparts apply the discriminator-match rule before reading
//! any field, so a record of one type presented as another is rejected
//! with `TypeMismatch`.

use vstd::prelude::*;

use vstd::bytes::spec_u64_from_le_bytes;

use crate::codec::read_u64_le;
use crate::descriptor::{AccountDescriptor, Address};
use crate::discriminator::record_tag_spec;
use crate::errors::PolicyError;
use crate::records::{admin_config_name_spec, reward_vault_name_spec, AdminConfig, RewardVault,
    UserAccount};
use crate::rules::{check_authority, check_signer, has_tag_spec, owner_ok_spec};

verus! {

/// Which privilege level a raw one-byte type flag claims.
#[derive(Clone, Copy, Debug, PartialEq, Eq, Structural)]
pub enum AccountKind {
    /// The flag claims an ordinary user account.
    User,
    /// The flag claims an admin account.
    Admin,
}

/// VULNERABLE: reads the admin address and the admin flag at fixed
/// offsets of an unvalidated payload. A user record whose balance bytes
/// happen to put a 1 at offset 32 passes for an admin record.
pub fn admin_action_vulnerable(
    admin_config: &AccountDescriptor,
    signer: &AccountDescriptor,
) -> (r: Result<(), PolicyError>)
    ensures
        admin_config.data@.len() < 33 ==> r == Err::<(), PolicyError>(
            PolicyError::AccountNotInitialized,
        ),
        admin_config.data@.len() >= 33 ==> (r is Ok <==> signer.address@
            == admin_config.data@.subrange(0, 32) && admin_config.data@[32] == 1),
        admin_config.data@.len() >= 33 && !(signer.address@ == admin_config.data@.subrange(0, 32)
            && admin_config.data@[32] == 1) ==> r == Err::<(), PolicyError>(
            PolicyError::Unauthorized,
        ),
{
    if admin_config.data.len() < 33 {
        return Err(PolicyError::AccountNotInitialized);
    }
    let claimed_admin = crate::codec::read_bytes(&admin_config.data, 0, 32);
    let is_admin = *admin_config.data.get(32).unwrap() == 1;
    let signer_bytes = signer.address.to_bytes();
    if crate::codec::bytes_equal(&signer_bytes, &claimed_admin) && is_admin {
        Ok(())
    } else {
        Err(PolicyError::Unauthorized)
    }
}

/// SECURE: the admin record is decoded only after the owner-match and
/// discriminator-match rules, and the caller must sign and match the
/// record's admin field.
pub fn admin_action_secure(
    admin_config: &AccountDescriptor,
    signer: &AccountDescriptor,
    program: &Address,
) -> (r: Result<(), PolicyError>)
    requires
        program.wf(),
    ensures
        r is Ok <==> owner_ok_spec(admin_config, program@) && has_tag_spec(
            admin_config.data@,
            record_tag_spec(admin_config_name_spec()),
        ) && admin_config.data@.len() == 41 && signer.is_signer && signer.address@
            == admin_config.data@.subrange(8, 40),
        !owner_ok_spec(admin_config, program@) ==> r == Err::<(), PolicyError>(
            PolicyError::InvalidOwner,
        ),
        crate::rules::owner_ok_spec(admin_config, program@) && !crate::rules::has_tag_spec(
            admin_config.data@,
            crate::discriminator::record_tag_spec(crate::records::admin_config_name_spec()),
        ) && crate::rules::untagged_spec(admin_config.data@) ==> r == Err::<(), PolicyError>(
            PolicyError::AccountNotInitialized,
        ),
        crate::rules::owner_ok_spec(admin_config, program@) && !crate::rules::has_tag_spec(
            admin_config.data@,
            crate::discriminator::record_tag_spec(crate::records::admin_config_name_spec()),
        ) && !crate::rules::untagged_spec(admin_config.data@) ==> r == Err::<(), PolicyError>(
            PolicyError::TypeMismatch,
        ),
        crate::rules::owner_ok_spec(admin_config, program@) && crate::rules::has_tag_spec(
            admin_config.data@,
            crate::discriminator::record_tag_spec(crate::records::admin_config_name_spec()),
        ) && admin_config.data@.len() != 41 ==> r == Err::<(), PolicyError>(
            PolicyError::TypeMismatch,
        ),
        owner_ok_spec(admin_config, program@) && has_tag_spec(
            admin_config.data@,
            record_tag_spec(admin_config_name_spec()),
        ) && admin_config.data@.len() == 41 && !signer.is_signer ==> r == Err::<(), PolicyError>(
            PolicyError::MissingSignature,
        ),
        owner_ok_spec(admin_config, program@) && has_tag_spec(
            admin_config.data@,
            record_tag_spec(admin_config_name_spec()),
        ) && admin_config.data@.len() == 41 && signer.is_signer && signer.address@
            != admin_config.data@.subrange(8, 40) ==> r == Err::<(), PolicyError>(
            PolicyError::Unauthorized,
        ),
{
    let config = match AdminConfig::decode(admin_config, program) {
        Ok(c) => c,
        Err(e) => {
            return Err(e);
        },
    };
    check_authority(signer, &config.admin)
}

/// VULNERABLE: reads a balance at a fixed offset with no discriminator
/// check — a user account and a reward vault are interchangeable here.
pub fn claim_rewards_vulnerable(vault: &AccountDescriptor) -> (r: Result<u64, PolicyError>)
    ensures
        vault.data@.len() >= 40 ==> r == Ok::<u64, PolicyError>(
            spec_u64_from_le_bytes(vault.data@.subrange(32, 40)),
        ),
        vault.data@.len() < 40 ==> r == Err::<u64, PolicyError>(
            PolicyError::AccountNotInitialized,
        ),
{
    if vault.data.len() < 40 {
        return Err(PolicyError::AccountNotInitialized);
    }
    Ok(read_u64_le(&vault.data, 32))
}

/// SECURE: only a payload carrying the `RewardVault` tag, in an account
/// this program owns, is read as a reward vault.
pub fn claim_rewards_secure(reward_vault: &AccountDescriptor, program: &Address) -> (r: Result<
    u64,
    PolicyError,
>)
    requires
        program.wf(),
    ensures
        r is Ok <==> owner_ok_spec(reward_vault, program@) && has_tag_spec(
            reward_vault.data@,
            record_tag_spec(reward_vault_name_spec()),
        ) && reward_vault.data@.len() == 49,
        r matches Ok(v) ==> v == spec_u64_from_le_bytes(reward_vault.data@.subrange(40, 48)),
        !owner_ok_spec(reward_vault, program@) ==> r == Err::<u64, PolicyError>(
            PolicyError::InvalidOwner,
        ),
        crate::rules::owner_ok_spec(reward_vault, program@) && !crate::rules::has_tag_spec(
            reward_vault.data@,
            crate::discriminator::record_tag_spec(crate::records::reward_vault_name_spec()),
        ) && crate::rules::untagged_spec(reward_vault.data@) ==> r == Err::<u64, PolicyError>(
            PolicyError::AccountNotInitialized,
        ),
        crate::rules::owner_ok_spec(reward_vault, program@) && !crate::rules::has_tag_spec(
            reward_vault.data@,
            crate::discriminator::record_tag_spec(crate::records::reward_vault_name_spec()),
        ) && !crate::rules::untagged_spec(reward_vault.data@) ==> r == Err::<u64, PolicyError>(
            PolicyError::TypeMismatch,
        ),
        crate::rules::owner_ok_spec(reward_vault, program@) && crate::rules::has_tag_spec(
            reward_vault.data@,
            crate::discriminator::record_tag_spec(crate::records::reward_vault_name_spec()),
        ) && reward_vault.data@.len() != 49 ==> r == Err::<u64, PolicyError>(
            PolicyError::TypeMismatch,
        ),
{
    match RewardVault::decode(reward_vault, program) {
        Ok(vault) => Ok(vault.balance),
        Err(e) => Err(e),
    }
}

/// VULNERABLE: dispatches on a one-byte type flag that anyone can write
/// when creating the account — setting the first byte to 2 claims admin
/// processing.
pub fn process_account_vulnerable(account: &AccountDescriptor) -> (r: Result<
    AccountKind,
    PolicyError,
>)
    ensures
        account.data@.len() == 0 ==> r == Err::<AccountKind, PolicyError>(
            PolicyError::AccountNotInitialized,
        ),
        account.data@.len() >= 1 && account.data@[0] == 1 ==> r == Ok::<AccountKind, PolicyError>(
            AccountKind::User,
        ),
        account.data@.len() >= 1 && account.data@[0] == 2 ==> r == Ok::<AccountKind, PolicyError>(
            AccountKind::Admin,
        ),
        account.data@.len() >= 1 && account.data@[0] != 1 && account.data@[0] != 2 ==> r == Err::<
            AccountKind,
            PolicyError,
        >(PolicyError::TypeMismatch),
{
    if account.data.len() == 0 {
        return Err(PolicyError::AccountNotInitialized);
    }
    let flag = *account.data.get(0).unwrap();
    if flag == 1 {
        Ok(AccountKind::User)
    } else if flag == 2 {
        Ok(AccountKind::Admin)
    } else {
        Err(PolicyError::TypeMismatch)
    }
}

/// SECURE: only a payload carrying the `UserAccount` tag is processed as a
/// user account.
pub fn process_user_secure(account: &AccountDescriptor, program: &Address) -> (r: Result<
    UserAccount,
    PolicyError,
>)
    requires
        program.wf(),
    ensures
        r is Ok <==> owner_ok_spec(account, program@) && has_tag_spec(
            account.data@,
            record_tag_spec(crate::records::user_account_name_spec()),
        ) && account.data@.len() == 57,
        r matches Ok(v) ==> v.wf() && v.owner@ == account.data@.subrange(8, 40),
        !owner_ok_spec(account, program@) ==> r == Err::<UserAccount, PolicyError>(
            PolicyError::InvalidOwner,
        ),
        crate::rules::owner_ok_spec(account, program@) && !crate::rules::has_tag_spec(
            account.data@,
            crate::discriminator::record_tag_spec(crate::records::user_account_name_spec()),
        ) && crate::rules::untagged_spec(account.data@) ==> r == Err::<UserAccount, PolicyError>(
            PolicyError::AccountNotInitialized,
        ),
        crate::rules::owner_ok_spec(account, program@) && !crate::rules::has_tag_spec(
            account.data@,
            crate::discriminator::record_tag_spec(crate::records::user_account_name_spec()),
        ) && !crate::rules::untagged_spec(account.data@) ==> r == Err::<UserAccount, PolicyError>(
            PolicyError::TypeMismatch,
        ),
        crate::rules::owner_ok_spec(account, program@) && crate::rules::has_tag_spec(
            account.data@,
            crate::discriminator::record_tag_spec(crate::records::user_account_name_spec()),
        ) && account.data@.len() != 57 ==> r == Err::<UserAccount, PolicyError>(
            PolicyError::TypeMismatch,
        ),
{
    UserAccount::decode(account, program)
}

/// SECURE: only a payload carrying the `AdminConfig` tag is processed as
/// the admin record.
pub fn process_admin_secure(account: &AccountDescriptor, program: &Address) -> (r: Result<
    AdminConfig,
    PolicyError,
>)
    requires
        program.wf(),
    ensures
        r is Ok <==> owner_ok_spec(account, program@) && has_tag_spec(
            account.data@,
            record_tag_spec(admin_config_name_spec()),
        ) && account.data@.len() == 41,
        r matches Ok(v) ==> v.wf() && v.admin@ == account.data@.subrange(8, 40),
        !owner_ok_spec(account, program@) ==> r == Err::<AdminConfig, PolicyError>(
            PolicyError::InvalidOwner,
        ),
        crate::rules::owner_ok_spec(account, program@) && !crate::rules::has_tag_spec(
            account.data@,
            crate::discriminator::record_tag_spec(crate::records::admin_config_name_spec()),
        ) && crate::rules::untagged_spec(account.data@) ==> r == Err::<AdminConfig, PolicyError>(
            PolicyError::AccountNotInitialized,
        ),
        crate::rules::owner_ok_spec(account, program@) && !crate::rules::has_tag_spec(
            account.data@,
            crate::discriminator::record_tag_spec(crate::records::admin_config_name_spec()),
        ) && !crate::rules::untagged_spec(account.data@) ==> r == Err::<AdminConfig, PolicyError>(
            PolicyError::TypeMismatch,
        ),
        crate::rules::owner_ok_spec(account, program@) && crate::rules::has_tag_spec(
            account.data@,
            crate::discriminator::record_tag_spec(crate::records::admin_config_name_spec()),
        ) && account.data@.len() != 41 ==> r == Err::<AdminConfig, PolicyError>(
            PolicyError::TypeMismatch,
        ),
{
    AdminConfig::decode(account, program)
}

/// Create the admin record for its signing admin.
pub fn initialize_admin_config(admin: &AccountDescriptor, bump: u8) -> (r: Result<
    AdminConfig,
    PolicyError,
>)
    requires
        admin.wf(),
    ensures
        !admin.is_signer ==> r == Err::<AdminConfig, PolicyError>(PolicyError::MissingSignature),
        admin.is_signer ==> (r matches Ok(v) && v.wf() && v.admin@ == admin.address@ && v.bump
            == bump),
{
    match check_signer(admin) {
        Ok(()) => (),
        Err(e) => {
            return Err(e);
        },
    }
    Ok(AdminConfig { admin: admin.address.duplicate(), bump })
}

/// Create a reward vault for its signing authority.
pub fn initialize_reward_vault(
    authority: &AccountDescriptor,
    initial_balance: u64,
    bump: u8,
) -> (r: Result<RewardVault, PolicyError>)
    requires
        authority.wf(),
    ensures
        !authority.is_signer ==> r == Err::<RewardVault, PolicyError>(
            PolicyError::MissingSignature,
        ),
        authority.is_signer ==> (r matches Ok(v) && v.wf() && v.authority@ == authority.address@
            && v.balance == initial_balance && v.bump == bump),
{
    match check_signer(authority) {
        Ok(()) => (),
        Err(e) => {
            return Err(e);
        },
    }
    Ok(RewardVault { authority: authority.address.duplicate(), balance: initial_balance, bump })
}

} // verus!
