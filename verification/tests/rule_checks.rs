use account_guard::descriptor::{AccountDescriptor, Address};
use account_guard::discriminator::record_tag;
use account_guard::errors::PolicyError;
use account_guard::pda::{check_pda, find_program_address};
use account_guard::records::{RewardVault, Treasury};
use account_guard::rules::{check_authority, check_close_complete, check_discriminator,
    check_executable, check_not_initialized, check_owner, check_signer, check_token_owner};

fn descriptor(address: u8, owner: u8, signer: bool) -> AccountDescriptor {
    AccountDescriptor {
        address: Address::filled(address),
        owner_program: Address::filled(owner),
        data: Vec::new(),
        is_signer: signer,
        is_executable: false,
        lamports: 0,
    }
}

#[test]
fn signer_rule() {
    assert_eq!(check_signer(&descriptor(1, 9, true)), Ok(()));
    assert_eq!(check_signer(&descriptor(1, 9, false)), Err(PolicyError::MissingSignature));
}

#[test]
fn authority_rule_demands_signature_before_equality() {
    let expected = Address::filled(1);
    // Field equality alone never suffices: the matching address without a
    // live signature still fails.
    let impostor = descriptor(1, 9, false);
    assert_eq!(check_authority(&impostor, &expected), Err(PolicyError::MissingSignature));
    let signer = descriptor(1, 9, true);
    assert_eq!(check_authority(&signer, &expected), Ok(()));
    let wrong = descriptor(2, 9, true);
    assert_eq!(check_authority(&wrong, &expected), Err(PolicyError::Unauthorized));
}

#[test]
fn owner_rule() {
    let program = Address::filled(9);
    assert_eq!(check_owner(&descriptor(1, 9, true), &program), Ok(()));
    assert_eq!(check_owner(&descriptor(1, 8, true), &program), Err(PolicyError::InvalidOwner));
}

#[test]
fn discriminator_rule_tells_types_apart() {
    let treasury_tag = record_tag(&b"Treasury".to_vec());
    let reward_tag = record_tag(&b"RewardVault".to_vec());
    assert_eq!(treasury_tag.len(), 8);
    assert_ne!(treasury_tag, reward_tag);

    let mut data = treasury_tag.clone();
    data.extend(vec![0u8; 41]);
    assert_eq!(check_discriminator(&data, &treasury_tag), Ok(()));
    // A payload tagged as one type, checked against another: a mismatch,
    // not an uninitialized account.
    assert_eq!(check_discriminator(&data, &reward_tag), Err(PolicyError::TypeMismatch));
    // A zeroed payload carries no tag at all.
    let zeroed = vec![0u8; 49];
    assert_eq!(check_discriminator(&zeroed, &reward_tag), Err(PolicyError::AccountNotInitialized));
    let short = vec![1u8; 4];
    assert_eq!(check_discriminator(&short, &reward_tag), Err(PolicyError::AccountNotInitialized));
}

#[test]
fn discriminator_differs_from_its_preimage() {
    // The tag is a digest of "account:" + name, not the name bytes.
    let tag = record_tag(&b"Vault".to_vec());
    assert_eq!(tag.len(), 8);
    assert_ne!(tag, b"account:".to_vec());
    assert_ne!(tag, b"Vault\0\0\0".to_vec());
}

#[test]
fn executable_rule() {
    let expected = Address::filled(7);
    let mut program_account = descriptor(7, 0, false);
    assert_eq!(check_executable(&program_account, &expected), Err(PolicyError::InvalidProgram));
    program_account.is_executable = true;
    assert_eq!(check_executable(&program_account, &expected), Ok(()));
    let wrong_id = AccountDescriptor { is_executable: true, ..descriptor(8, 0, false) };
    assert_eq!(check_executable(&wrong_id, &expected), Err(PolicyError::InvalidProgram));
}

#[test]
fn token_owner_rule() {
    let user = Address::filled(4);
    assert_eq!(check_token_owner(&Address::filled(4), &user), Ok(()));
    assert_eq!(
        check_token_owner(&Address::filled(5), &user),
        Err(PolicyError::TokenAccountOwnerMismatch)
    );
}

#[test]
fn no_reinitialization_rule() {
    let program = Address::filled(9);
    let tag = record_tag(&b"Treasury".to_vec());
    let fresh = descriptor(1, 0, false);
    assert_eq!(check_not_initialized(&fresh, &program, &tag), Ok(()));

    let record = Treasury { admin: Address::filled(2), reward_amount: 5, bump: 1 };
    let held = AccountDescriptor { data: record.encode(), ..descriptor(1, 9, false) };
    assert_eq!(
        check_not_initialized(&held, &program, &tag),
        Err(PolicyError::AlreadyInitialized)
    );
    // The same bytes under another program's ownership do not count as
    // initialized for this program.
    let foreign = AccountDescriptor { data: record.encode(), ..descriptor(1, 8, false) };
    assert_eq!(check_not_initialized(&foreign, &program, &tag), Ok(()));
}

#[test]
fn close_completeness_rule() {
    let closed = AccountDescriptor {
        address: Address::filled(1),
        owner_program: Address::filled(0),
        data: vec![0u8; 57],
        is_signer: false,
        is_executable: false,
        lamports: 0,
    };
    assert_eq!(check_close_complete(&closed), Ok(()));
    let funded = AccountDescriptor { lamports: 5, ..clone_descriptor(&closed) };
    assert_eq!(check_close_complete(&funded), Err(PolicyError::IncompleteClose));
    let dirty = AccountDescriptor { data: vec![0, 0, 1], ..clone_descriptor(&closed) };
    assert_eq!(check_close_complete(&dirty), Err(PolicyError::IncompleteClose));
    let wrong_owner = AccountDescriptor {
        owner_program: Address::filled(9),
        ..clone_descriptor(&closed)
    };
    assert_eq!(check_close_complete(&wrong_owner), Err(PolicyError::IncompleteClose));
}

#[test]
fn pda_rule_accepts_only_the_canonical_bump() {
    let program = Address::filled(9);
    let seeds = vec![b"vault".to_vec(), vec![1u8; 32]];
    let (address, bump) = find_program_address(&seeds, &program).expect("derivation");
    assert!(bump >= 1);
    assert_eq!(check_pda(&address, &seeds, bump, &program), Ok(()));
    // The right address under any other bump is rejected: the bump must be
    // canonical, not merely plausible.
    assert_eq!(
        check_pda(&address, &seeds, bump.wrapping_sub(1), &program),
        Err(PolicyError::InvalidPDA)
    );
    // A different address under the canonical bump is rejected too.
    assert_eq!(
        check_pda(&Address::filled(3), &seeds, bump, &program),
        Err(PolicyError::InvalidPDA)
    );
    // Other seeds derive a different address.
    let other = find_program_address(&vec![b"other".to_vec()], &program).expect("derivation");
    assert_ne!(other.0.to_bytes(), address.to_bytes());
}

#[test]
fn reward_vault_decode_rejects_treasury_bytes() {
    // Treasury and RewardVault share one byte layout; only the tag tells
    // them apart.
    let program = Address::filled(9);
    let treasury = Treasury { admin: Address::filled(2), reward_amount: 1000, bump: 3 };
    let encoded = treasury.encode();
    let cosplay = AccountDescriptor { data: encoded.clone(), ..descriptor(1, 9, false) };
    let err = RewardVault::decode(&cosplay, &program).unwrap_err();
    assert_eq!(err, PolicyError::TypeMismatch);
    // The genuine treasury decodes fine.
    let back = Treasury::decode(&cosplay, &program).unwrap();
    assert_eq!(back.reward_amount, 1000);
    assert_eq!(back.bump, 3);
    assert_eq!(back.admin.to_bytes(), Address::filled(2).to_bytes());
}

fn clone_descriptor(d: &AccountDescriptor) -> AccountDescriptor {
    AccountDescriptor {
        address: d.address.duplicate(),
        owner_program: d.owner_program.duplicate(),
        data: d.data.clone(),
        is_signer: d.is_signer,
        is_executable: d.is_executable,
        lamports: d.lamports,
    }
}

#[test]
fn pda_derivation_refuses_oversized_seeds() {
    let program = Address::filled(9);
    // A single seed longer than the 32-byte limit: no bump is viable.
    let long = vec![vec![7u8; 40]];
    assert!(find_program_address(&long, &program).is_none());
    assert_eq!(
        check_pda(&Address::filled(1), &long, 255, &program),
        Err(PolicyError::InvalidPDA)
    );
    // Too many seeds: same refusal.
    let many: Vec<Vec<u8>> = (0..16).map(|i| vec![i as u8]).collect();
    assert!(find_program_address(&many, &program).is_none());
}
