//! Closing accounts.
//!
//! A close must establish the close-completeness postcondition atomically
//! with the lamport transfer: no lamports left, every data byte zeroed and
//! the storage reassigned to the system owner. The vulnerable closers move
//! lamports and leave the data behind — the contracts say so — which is
//! what makes same-request revival possible. Closed derived addresses that
//! must never be reused additionally get a permanent tombstone.

use vstd::prelude::*;

use vstd::bytes::spec_u16_from_le_bytes;

use crate::codec::zeroed;
use crate::descriptor::{AccountDescriptor, Address};
use crate::discriminator::record_tag_spec;
use crate::errors::PolicyError;
use crate::records::{config_name_spec, user_account_name_spec, user_profile_name_spec, Config,
    ProfileTombstone, UserAccount, UserProfile};
use crate::rules::{authority_ok_spec, check_authority, check_signer, has_tag_spec, owner_ok_spec};

verus! {

/// The record held at `d` is a user account this program owns.
pub open spec fn holds_user_account_spec(d: &AccountDescriptor, program: Seq<u8>) -> bool {
    owner_ok_spec(d, program) && has_tag_spec(d.data@, record_tag_spec(user_account_name_spec()))
        && d.data@.len() == 57
}

/// The record held at `d` is a user profile this program owns.
pub open spec fn holds_user_profile_spec(d: &AccountDescriptor, program: Seq<u8>) -> bool {
    owner_ok_spec(d, program) && has_tag_spec(d.data@, record_tag_spec(user_profile_name_spec()))
        && d.data@.len() == 49
}

/// VULNERABLE: moves the lamports and stops — the data, tag included,
/// stays readable, so the account can be revived by re-funding it within
/// the same request.
pub fn close_vulnerable(
    user_account: &mut AccountDescriptor,
    recipient: &mut AccountDescriptor,
) -> (r: Result<(), PolicyError>)
    ensures
        old(user_account).lamports + old(recipient).lamports > u64::MAX ==> r == Err::<
            (),
            PolicyError,
        >(PolicyError::Overflow) && *final(user_account) == *old(user_account) && *final(recipient)
            == *old(recipient),
        old(user_account).lamports + old(recipient).lamports <= u64::MAX ==> r == Ok::<
            (),
            PolicyError,
        >(()) && *final(user_account) == (AccountDescriptor {
            lamports: 0,
            ..*old(user_account)
        }) && *final(recipient) == (AccountDescriptor {
            lamports: (old(recipient).lamports + old(user_account).lamports) as u64,
            ..*old(recipient)
        }),
{
    let moved = match crate::safe_math::safe_add(recipient.lamports, user_account.lamports) {
        Ok(v) => v,
        Err(e) => {
            return Err(e);
        },
    };
    recipient.lamports = moved;
    user_account.lamports = 0;
    Ok(())
}

/// VULNERABLE: the same incomplete close, and additionally nobody's
/// authority over the account is ever checked — anyone can close any
/// account and pocket its rent.
pub fn close_no_auth_check(
    user_account: &mut AccountDescriptor,
    recipient: &mut AccountDescriptor,
) -> (r: Result<(), PolicyError>)
    ensures
        old(user_account).lamports + old(recipient).lamports > u64::MAX ==> r == Err::<
            (),
            PolicyError,
        >(PolicyError::Overflow) && *final(user_account) == *old(user_account) && *final(recipient)
            == *old(recipient),
        old(user_account).lamports + old(recipient).lamports <= u64::MAX ==> r == Ok::<
            (),
            PolicyError,
        >(()) && *final(user_account) == (AccountDescriptor {
            lamports: 0,
            ..*old(user_account)
        }) && *final(recipient) == (AccountDescriptor {
            lamports: (old(recipient).lamports + old(user_account).lamports) as u64,
            ..*old(recipient)
        }),
{
    close_vulnerable(user_account, recipient)
}

/// SECURE: verifies the record and its owner's live signature, then
/// establishes close completeness atomically with the lamport transfer:
/// lamports out, every data byte zeroed, storage reassigned to the system
/// owner. On any failure neither account changes.
pub fn close_secure(
    user_account: &mut AccountDescriptor,
    recipient: &mut AccountDescriptor,
    owner: &AccountDescriptor,
    program: &Address,
) -> (r: Result<(), PolicyError>)
    requires
        program.wf(),
    ensures
        r is Ok <==> holds_user_account_spec(old(user_account), program@) && authority_ok_spec(
            owner,
            old(user_account).data@.subrange(8, 40),
        ) && old(user_account).lamports + old(recipient).lamports <= u64::MAX,
        r is Err ==> *final(user_account) == *old(user_account) && *final(recipient) == *old(recipient),
        !owner_ok_spec(old(user_account), program@) ==> r == Err::<(), PolicyError>(
            PolicyError::InvalidOwner,
        ),
        crate::rules::owner_ok_spec(old(user_account), program@) && !crate::rules::has_tag_spec(
            old(user_account).data@,
            crate::discriminator::record_tag_spec(crate::records::user_account_name_spec()),
        ) && crate::rules::untagged_spec(old(user_account).data@) ==> r == Err::<(), PolicyError>(
            PolicyError::AccountNotInitialized,
        ),
        crate::rules::owner_ok_spec(old(user_account), program@) && !crate::rules::has_tag_spec(
            old(user_account).data@,
            crate::discriminator::record_tag_spec(crate::records::user_account_name_spec()),
        ) && !crate::rules::untagged_spec(old(user_account).data@) ==> r == Err::<(), PolicyError>(
            PolicyError::TypeMismatch,
        ),
        crate::rules::owner_ok_spec(old(user_account), program@) && crate::rules::has_tag_spec(
            old(user_account).data@,
            crate::discriminator::record_tag_spec(crate::records::user_account_name_spec()),
        ) && old(user_account).data@.len() != 57 ==> r == Err::<(), PolicyError>(
            PolicyError::TypeMismatch,
        ),
        holds_user_account_spec(old(user_account), program@) && !owner.is_signer ==> r == Err::<
            (),
            PolicyError,
        >(PolicyError::MissingSignature),
        holds_user_account_spec(old(user_account), program@) && owner.is_signer && owner.address@
            != old(user_account).data@.subrange(8, 40) ==> r == Err::<(), PolicyError>(
            PolicyError::Unauthorized,
        ),
        r is Ok ==> final(user_account).closed_out_spec() && final(user_account).data@.len()
            == old(user_account).data@.len() && final(user_account).address == old(user_account).address && final(user_account).is_signer == old(user_account).is_signer && final(user_account).is_executable == old(user_account).is_executable && *final(recipient) == (
        AccountDescriptor {
            lamports: (old(recipient).lamports + old(user_account).lamports) as u64,
            ..*old(recipient)
        }),
{
    let record = match UserAccount::decode(user_account, program) {
        Ok(v) => v,
        Err(e) => {
            return Err(e);
        },
    };
    match check_authority(owner, &record.owner) {
        Ok(()) => (),
        Err(e) => {
            return Err(e);
        },
    }
    let moved = match crate::safe_math::safe_add(recipient.lamports, user_account.lamports) {
        Ok(v) => v,
        Err(e) => {
            return Err(e);
        },
    };
    recipient.lamports = moved;
    user_account.lamports = 0;
    let wiped = zeroed(user_account.data.len());
    user_account.data = wiped;
    user_account.owner_program = Address::system_owner();
    Ok(())
}

/// SECURE: the close with the explicit ownership check — only the
/// account's designated owner, signing live, may close it.
pub fn close_with_auth_check(
    user_account: &mut AccountDescriptor,
    recipient: &mut AccountDescriptor,
    owner: &AccountDescriptor,
    program: &Address,
) -> (r: Result<(), PolicyError>)
    requires
        program.wf(),
    ensures
        r is Ok <==> holds_user_account_spec(old(user_account), program@) && authority_ok_spec(
            owner,
            old(user_account).data@.subrange(8, 40),
        ) && old(user_account).lamports + old(recipient).lamports <= u64::MAX,
        r is Err ==> *final(user_account) == *old(user_account) && *final(recipient) == *old(recipient),
        r is Ok ==> final(user_account).closed_out_spec() && *final(recipient) == (
        AccountDescriptor {
            lamports: (old(recipient).lamports + old(user_account).lamports) as u64,
            ..*old(recipient)
        }),
{
    close_secure(user_account, recipient, owner, program)
}

/// VULNERABLE: reads the config account without checking that it is still
/// funded or even owned by this program.
pub fn read_config_vulnerable(config: &AccountDescriptor) -> (r: Result<(), PolicyError>)
    ensures
        r == Ok::<(), PolicyError>(()),
{
    let _ = config;
    Ok(())
}

/// SECURE: the config is decoded only after the owner-match and
/// discriminator-match rules pass.
pub fn read_config_secure(config: &AccountDescriptor, program: &Address) -> (r: Result<
    u16,
    PolicyError,
>)
    requires
        program.wf(),
    ensures
        r is Ok <==> owner_ok_spec(config, program@) && has_tag_spec(
            config.data@,
            record_tag_spec(config_name_spec()),
        ) && config.data@.len() == 51,
        r matches Ok(v) ==> v == spec_u16_from_le_bytes(config.data@.subrange(40, 42)),
        !owner_ok_spec(config, program@) ==> r == Err::<u16, PolicyError>(
            PolicyError::InvalidOwner,
        ),
        crate::rules::owner_ok_spec(config, program@) && !crate::rules::has_tag_spec(
            config.data@,
            crate::discriminator::record_tag_spec(crate::records::config_name_spec()),
        ) && crate::rules::untagged_spec(config.data@) ==> r == Err::<u16, PolicyError>(
            PolicyError::AccountNotInitialized,
        ),
        crate::rules::owner_ok_spec(config, program@) && !crate::rules::has_tag_spec(
            config.data@,
            crate::discriminator::record_tag_spec(crate::records::config_name_spec()),
        ) && !crate::rules::untagged_spec(config.data@) ==> r == Err::<u16, PolicyError>(
            PolicyError::TypeMismatch,
        ),
        crate::rules::owner_ok_spec(config, program@) && crate::rules::has_tag_spec(
            config.data@,
            crate::discriminator::record_tag_spec(crate::records::config_name_spec()),
        ) && config.data@.len() != 51 ==> r == Err::<u16, PolicyError>(
            PolicyError::TypeMismatch,
        ),
{
    match Config::decode(config, program) {
        Ok(c) => Ok(c.fee_bps),
        Err(e) => Err(e),
    }
}

/// VULNERABLE: a complete close of the profile — but nothing stops anyone
/// from re-deriving the same address and initializing a fresh profile,
/// claiming one-shot benefits again.
pub fn close_profile_vulnerable(
    profile: &mut AccountDescriptor,
    recipient: &mut AccountDescriptor,
    owner: &AccountDescriptor,
    program: &Address,
) -> (r: Result<(), PolicyError>)
    requires
        program.wf(),
    ensures
        r is Ok <==> holds_user_profile_spec(old(profile), program@) && authority_ok_spec(
            owner,
            old(profile).data@.subrange(8, 40),
        ) && old(profile).lamports + old(recipient).lamports <= u64::MAX,
        r is Err ==> *final(profile) == *old(profile) && *final(recipient) == *old(recipient),
        !owner_ok_spec(old(profile), program@) ==> r == Err::<(), PolicyError>(
            PolicyError::InvalidOwner,
        ),
        owner_ok_spec(old(profile), program@) && !has_tag_spec(
            old(profile).data@,
            record_tag_spec(user_profile_name_spec()),
        ) && crate::rules::untagged_spec(old(profile).data@) ==> r == Err::<(), PolicyError>(
            PolicyError::AccountNotInitialized,
        ),
        owner_ok_spec(old(profile), program@) && !has_tag_spec(
            old(profile).data@,
            record_tag_spec(user_profile_name_spec()),
        ) && !crate::rules::untagged_spec(old(profile).data@) ==> r == Err::<(), PolicyError>(
            PolicyError::TypeMismatch,
        ),
        owner_ok_spec(old(profile), program@) && has_tag_spec(
            old(profile).data@,
            record_tag_spec(user_profile_name_spec()),
        ) && old(profile).data@.len() != 49 ==> r == Err::<(), PolicyError>(
            PolicyError::TypeMismatch,
        ),
        holds_user_profile_spec(old(profile), program@) && !owner.is_signer ==> r == Err::<
            (),
            PolicyError,
        >(PolicyError::MissingSignature),
        holds_user_profile_spec(old(profile), program@) && owner.is_signer && owner.address@
            != old(profile).data@.subrange(8, 40) ==> r == Err::<(), PolicyError>(
            PolicyError::Unauthorized,
        ),
        r is Ok ==> final(profile).closed_out_spec() && *final(recipient) == (AccountDescriptor {
            lamports: (old(recipient).lamports + old(profile).lamports) as u64,
            ..*old(recipient)
        }),
{
    let record = match UserProfile::decode(profile, program) {
        Ok(v) => v,
        Err(e) => {
            return Err(e);
        },
    };
    match check_authority(owner, &record.owner) {
        Ok(()) => (),
        Err(e) => {
            return Err(e);
        },
    }
    let moved = match crate::safe_math::safe_add(recipient.lamports, profile.lamports) {
        Ok(v) => v,
        Err(e) => {
            return Err(e);
        },
    };
    recipient.lamports = moved;
    profile.lamports = 0;
    let wiped = zeroed(profile.data.len());
    profile.data = wiped;
    profile.owner_program = Address::system_owner();
    Ok(())
}

/// SECURE: the complete close, plus a permanent tombstone keyed by the
/// profile's owner, recorded as part of the same operation, so the
/// profile can never be re-created.
pub fn close_profile_secure(
    profile: &mut AccountDescriptor,
    recipient: &mut AccountDescriptor,
    owner: &AccountDescriptor,
    program: &Address,
    closed_at: i64,
    tombstone_bump: u8,
) -> (r: Result<ProfileTombstone, PolicyError>)
    requires
        program.wf(),
        owner.wf(),
    ensures
        r is Ok <==> holds_user_profile_spec(old(profile), program@) && authority_ok_spec(
            owner,
            old(profile).data@.subrange(8, 40),
        ) && old(profile).lamports + old(recipient).lamports <= u64::MAX,
        r is Err ==> *final(profile) == *old(profile) && *final(recipient) == *old(recipient),
        !owner_ok_spec(old(profile), program@) ==> r == Err::<ProfileTombstone, PolicyError>(
            PolicyError::InvalidOwner,
        ),
        owner_ok_spec(old(profile), program@) && !has_tag_spec(
            old(profile).data@,
            record_tag_spec(user_profile_name_spec()),
        ) && crate::rules::untagged_spec(old(profile).data@) ==> r == Err::<ProfileTombstone, PolicyError>(
            PolicyError::AccountNotInitialized,
        ),
        owner_ok_spec(old(profile), program@) && !has_tag_spec(
            old(profile).data@,
            record_tag_spec(user_profile_name_spec()),
        ) && !crate::rules::untagged_spec(old(profile).data@) ==> r == Err::<ProfileTombstone, PolicyError>(
            PolicyError::TypeMismatch,
        ),
        owner_ok_spec(old(profile), program@) && has_tag_spec(
            old(profile).data@,
            record_tag_spec(user_profile_name_spec()),
        ) && old(profile).data@.len() != 49 ==> r == Err::<ProfileTombstone, PolicyError>(
            PolicyError::TypeMismatch,
        ),
        holds_user_profile_spec(old(profile), program@) && !owner.is_signer ==> r == Err::<
            ProfileTombstone,
            PolicyError,
        >(PolicyError::MissingSignature),
        holds_user_profile_spec(old(profile), program@) && owner.is_signer && owner.address@
            != old(profile).data@.subrange(8, 40) ==> r == Err::<ProfileTombstone, PolicyError>(
            PolicyError::Unauthorized,
        ),
        r matches Ok(t) ==> t.wf() && t.original_owner@ == old(profile).data@.subrange(8, 40)
            && t.closed_at == closed_at && t.bump == tombstone_bump && final(profile).closed_out_spec() && *final(recipient) == (AccountDescriptor {
            lamports: (old(recipient).lamports + old(profile).lamports) as u64,
            ..*old(recipient)
        }),
{
    let record = match UserProfile::decode(profile, program) {
        Ok(v) => v,
        Err(e) => {
            return Err(e);
        },
    };
    match check_authority(owner, &record.owner) {
        Ok(()) => (),
        Err(e) => {
            return Err(e);
        },
    }
    let moved = match crate::safe_math::safe_add(recipient.lamports, profile.lamports) {
        Ok(v) => v,
        Err(e) => {
            return Err(e);
        },
    };
    recipient.lamports = moved;
    profile.lamports = 0;
    let wiped = zeroed(profile.data.len());
    profile.data = wiped;
    profile.owner_program = Address::system_owner();
    Ok(ProfileTombstone { original_owner: record.owner, closed_at, bump: tombstone_bump })
}

/// Create a profile for its signing owner — unless a tombstone proves a
/// profile for this owner was already closed for good.
pub fn initialize_profile(
    owner: &AccountDescriptor,
    bump: u8,
    tombstone: Option<&ProfileTombstone>,
) -> (r: Result<UserProfile, PolicyError>)
    requires
        owner.wf(),
    ensures
        !owner.is_signer ==> r == Err::<UserProfile, PolicyError>(PolicyError::MissingSignature),
        owner.is_signer && (match tombstone {
            Some(t) => t.original_owner@ == owner.address@,
            None => false,
        }) ==> r == Err::<UserProfile, PolicyError>(PolicyError::AlreadyInitialized),
        owner.is_signer && (match tombstone {
            Some(t) => t.original_owner@ != owner.address@,
            None => true,
        }) ==> (r matches Ok(v) && v.wf() && v.owner@ == owner.address@ && v.points == 0 && v.bump
            == bump),
{
    match check_signer(owner) {
        Ok(()) => (),
        Err(e) => {
            return Err(e);
        },
    }
    match tombstone {
        Some(t) => {
            if t.original_owner.equals(&owner.address) {
                return Err(PolicyError::AlreadyInitialized);
            }
        },
        None => (),
    }
    Ok(UserProfile { owner: owner.address.duplicate(), points: 0, bump })
}

/// Accrue rewards through checked addition; overflow reports `Overflow`
/// and mutates nothing.
pub fn accrue_rewards(user_account: &mut UserAccount, amount: u64) -> (r: Result<(), PolicyError>)
    ensures
        old(user_account).rewards_accrued + amount > u64::MAX ==> r == Err::<(), PolicyError>(
            PolicyError::Overflow,
        ) && *final(user_account) == *old(user_account),
        old(user_account).rewards_accrued + amount <= u64::MAX ==> r == Ok::<(), PolicyError>(())
            && *final(user_account) == (UserAccount {
            rewards_accrued: (old(user_account).rewards_accrued + amount) as u64,
            ..*old(user_account)
        }),
{
    let updated = match crate::safe_math::safe_add(user_account.rewards_accrued, amount) {
        Ok(v) => v,
        Err(e) => {
            return Err(e);
        },
    };
    user_account.rewards_accrued = updated;
    Ok(())
}

/// Pay out the accrued rewards to the signing owner and reset them to
/// zero.
pub fn claim_rewards(user_account: &mut UserAccount, owner: &AccountDescriptor) -> (r: Result<
    u64,
    PolicyError,
>)
    ensures
        !owner.is_signer ==> r == Err::<u64, PolicyError>(PolicyError::MissingSignature)
            && *final(user_account) == *old(user_account),
        owner.is_signer && owner.address@ != old(user_account).owner@ ==> r == Err::<
            u64,
            PolicyError,
        >(PolicyError::Unauthorized) && *final(user_account) == *old(user_account),
        authority_ok_spec(owner, old(user_account).owner@) ==> r == Ok::<u64, PolicyError>(
            old(user_account).rewards_accrued,
        ) && *final(user_account) == (UserAccount { rewards_accrued: 0, ..*old(user_account) }),
{
    match check_authority(owner, &user_account.owner) {
        Ok(()) => (),
        Err(e) => {
            return Err(e);
        },
    }
    let rewards = user_account.rewards_accrued;
    user_account.rewards_accrued = 0;
    Ok(rewards)
}

} // verus!
