//! The validation rule set.
//!
//! Each rule is a pure predicate over one or more descriptor or context
//! values; the rules are independent and handlers select the applicable
//! subset. Each rule's contract states exactly when it passes and which
//! typed error it fails with. The derivation-match rule lives in
//! [`crate::pda`].

use vstd::prelude::*;

use crate::codec::{all_zero, all_zero_spec, bytes_equal, read_bytes};
use crate::descriptor::{AccountDescriptor, Address};
use crate::errors::PolicyError;

verus! {

/// Signer presence: the descriptor's host-verified signer flag is set.
pub open spec fn signer_ok_spec(d: &AccountDescriptor) -> bool {
    d.is_signer
}

/// Authority match: the candidate's address equals the record's designated
/// authority AND the candidate actually signed. Field equality alone is the
/// vulnerable pattern; it never suffices.
pub open spec fn authority_ok_spec(signer: &AccountDescriptor, expected: Seq<u8>) -> bool {
    signer.is_signer && signer.address@ == expected
}

/// Owner match: the account's storage owner is the validating program.
pub open spec fn owner_ok_spec(d: &AccountDescriptor, program: Seq<u8>) -> bool {
    d.owner_program@ == program
}

/// Discriminator match: the payload starts with the expected 8-byte tag.
pub open spec fn has_tag_spec(data: Seq<u8>, tag: Seq<u8>) -> bool {
    data.len() >= 8 && data.subrange(0, 8) == tag
}

/// The payload carries no tag at all: too short, or a zeroed tag slot (the
/// state a secure close leaves behind).
pub open spec fn untagged_spec(data: Seq<u8>) -> bool {
    data.len() < 8 || all_zero_spec(data.subrange(0, 8))
}

/// Executable match: the callee descriptor is executable and its address is
/// the pinned expected program.
pub open spec fn program_ok_spec(d: &AccountDescriptor, expected: Seq<u8>) -> bool {
    d.is_executable && d.address@ == expected
}

/// The account already holds an initialized record of the given type: its
/// storage owner is the program and its payload carries the type's tag.
pub open spec fn initialized_spec(d: &AccountDescriptor, program: Seq<u8>, tag: Seq<u8>) -> bool {
    owner_ok_spec(d, program) && has_tag_spec(d.data@, tag)
}

/// Signer-presence rule: fails with `MissingSignature` when the descriptor
/// did not sign the request.
pub fn check_signer(d: &AccountDescriptor) -> (r: Result<(), PolicyError>)
    ensures
        r is Ok <==> signer_ok_spec(d),
        r is Err ==> r == Err::<(), PolicyError>(PolicyError::MissingSignature),
{
    if d.is_signer {
        Ok(())
    } else {
        Err(PolicyError::MissingSignature)
    }
}

/// Authority-match rule: requires signer presence first, then field
/// equality, so a non-signing caller fails regardless of field equality.
pub fn check_authority(signer: &AccountDescriptor, expected: &Address) -> (r: Result<
    (),
    PolicyError,
>)
    ensures
        r is Ok <==> authority_ok_spec(signer, expected@),
        !signer.is_signer ==> r == Err::<(), PolicyError>(PolicyError::MissingSignature),
        signer.is_signer && signer.address@ != expected@ ==> r == Err::<(), PolicyError>(
            PolicyError::Unauthorized,
        ),
{
    if !signer.is_signer {
        return Err(PolicyError::MissingSignature);
    }
    if signer.address.equals(expected) {
        Ok(())
    } else {
        Err(PolicyError::Unauthorized)
    }
}

/// Owner-match rule: fails with `InvalidOwner` when the account's storage is
/// owned by any program but the expected one.
pub fn check_owner(d: &AccountDescriptor, program: &Address) -> (r: Result<(), PolicyError>)
    ensures
        r is Ok <==> owner_ok_spec(d, program@),
        r is Err ==> r == Err::<(), PolicyError>(PolicyError::InvalidOwner),
{
    if d.owner_program.equals(program) {
        Ok(())
    } else {
        Err(PolicyError::InvalidOwner)
    }
}

/// Discriminator-match rule: the first 8 payload bytes must equal the
/// expected type tag. A payload with no tag at all (short or zeroed) fails
/// with `AccountNotInitialized`; a payload carrying some other tag fails
/// with `TypeMismatch`.
pub fn check_discriminator(data: &Vec<u8>, tag: &Vec<u8>) -> (r: Result<(), PolicyError>)
    ensures
        r is Ok <==> has_tag_spec(data@, tag@),
        !has_tag_spec(data@, tag@) && untagged_spec(data@) ==> r == Err::<(), PolicyError>(
            PolicyError::AccountNotInitialized,
        ),
        !has_tag_spec(data@, tag@) && !untagged_spec(data@) ==> r == Err::<(), PolicyError>(
            PolicyError::TypeMismatch,
        ),
{
    if data.len() < 8 {
        return Err(PolicyError::AccountNotInitialized);
    }
    let head = read_bytes(data, 0, 8);
    if bytes_equal(&head, tag) {
        Ok(())
    } else if all_zero(&head) {
        Err(PolicyError::AccountNotInitialized)
    } else {
        Err(PolicyError::TypeMismatch)
    }
}

/// Executable-match rule: the callee must be executable and must be exactly
/// the pinned program; anything else fails with `InvalidProgram`.
pub fn check_executable(d: &AccountDescriptor, expected: &Address) -> (r: Result<(), PolicyError>)
    ensures
        r is Ok <==> program_ok_spec(d, expected@),
        r is Err ==> r == Err::<(), PolicyError>(PolicyError::InvalidProgram),
{
    if !d.is_executable {
        return Err(PolicyError::InvalidProgram);
    }
    if d.address.equals(expected) {
        Ok(())
    } else {
        Err(PolicyError::InvalidProgram)
    }
}

/// Token-ownership rule: the token account's authority field must equal the
/// expected owner.
pub fn check_token_owner(token_authority: &Address, expected: &Address) -> (r: Result<
    (),
    PolicyError,
>)
    ensures
        r is Ok <==> token_authority@ == expected@,
        r is Err ==> r == Err::<(), PolicyError>(PolicyError::TokenAccountOwnerMismatch),
{
    if token_authority.equals(expected) {
        Ok(())
    } else {
        Err(PolicyError::TokenAccountOwnerMismatch)
    }
}

/// No-reinitialization rule: initialization may only proceed when the
/// target does not already hold an initialized record of the type — the
/// composite of the owner-match and discriminator-match checks.
pub fn check_not_initialized(d: &AccountDescriptor, program: &Address, tag: &Vec<u8>) -> (r:
    Result<(), PolicyError>)
    ensures
        r is Ok <==> !initialized_spec(d, program@, tag@),
        r is Err ==> r == Err::<(), PolicyError>(PolicyError::AlreadyInitialized),
{
    let owner_matches = d.owner_program.equals(program);
    if !owner_matches {
        return Ok(());
    }
    match check_discriminator(&d.data, tag) {
        Ok(()) => Err(PolicyError::AlreadyInitialized),
        Err(_) => Ok(()),
    }
}

/// Close-completeness rule: after a close the account must hold no
/// lamports, only zero data bytes, and its storage must be reassigned to the
/// system owner; anything less fails with `IncompleteClose`.
pub fn check_close_complete(d: &AccountDescriptor) -> (r: Result<(), PolicyError>)
    ensures
        r is Ok <==> d.closed_out_spec(),
        r is Err ==> r == Err::<(), PolicyError>(PolicyError::IncompleteClose),
{
    if d.lamports != 0 {
        return Err(PolicyError::IncompleteClose);
    }
    if !all_zero(&d.data) {
        return Err(PolicyError::IncompleteClose);
    }
    let system = Address::system_owner();
    if d.owner_program.equals(&system) {
        Ok(())
    } else {
        Err(PolicyError::IncompleteClose)
    }
}

/// Any rule chain that includes the authority-match rule fails for a
/// descriptor that did not sign, regardless of field equality.
pub proof fn lemma_authority_match_requires_signer(
    signer: &AccountDescriptor,
    expected: Seq<u8>,
)
    requires
        !signer.is_signer,
    ensures
        !authority_ok_spec(signer, expected),
{
}

/// Two record types with distinct tags can never cosplay as one another,
/// however alike their byte layouts: a payload stamped with one type's tag
/// fails the discriminator match against any other type's tag.
pub proof fn lemma_distinct_tags_reject_cosplay(data: Seq<u8>, tag: Seq<u8>, other: Seq<u8>)
    requires
        has_tag_spec(data, tag),
        tag.len() == 8,
        other.len() == 8,
        tag != other,
    ensures
        !has_tag_spec(data, other),
{
    assert(data.subrange(0, 8) == tag);
}

/// A fully zeroed payload matches no nonzero tag, so after a secure close
/// every later interpretation of the account as its original type fails —
/// and fails as uninitialized, not as some other type.
pub proof fn lemma_zeroed_data_matches_no_tag(data: Seq<u8>, tag: Seq<u8>)
    requires
        all_zero_spec(data),
        tag.len() == 8,
        exists|i: int| 0 <= i < 8 && tag[i] != 0,
    ensures
        !has_tag_spec(data, tag),
        untagged_spec(data),
{
    if data.len() >= 8 {
        let i = choose|i: int| 0 <= i < 8 && tag[i] != 0;
        assert(data.subrange(0, 8)[i] == data[i]);
        assert(data[i] == 0);
        assert(all_zero_spec(data.subrange(0, 8)));
    }
}

} // verus!
