use account_guard::account_validation::{claim_rewards_secure, claim_rewards_vulnerable,
    deposit_secure, deposit_vulnerable, initialize_config, initialize_pool, swap_secure,
    swap_vulnerable};
use account_guard::arbitrary_cpi::{call_oracle_secure, call_oracle_vulnerable,
    distribute_rewards_secure, distribute_rewards_vulnerable, initialize_treasury, swap_secure
    as cpi_swap_secure, swap_vulnerable as cpi_swap_vulnerable, transfer_tokens_secure,
    transfer_tokens_vulnerable};
use account_guard::closing_accounts::{accrue_rewards, claim_rewards, close_no_auth_check,
    close_profile_secure, close_profile_vulnerable, close_secure, close_vulnerable,
    close_with_auth_check, initialize_profile, read_config_secure, read_config_vulnerable};
use account_guard::descriptor::{AccountDescriptor, Address};
use account_guard::errors::PolicyError;
use account_guard::integer_overflow::{calculate_fee_secure, calculate_fee_vulnerable,
    calculate_price_secure, calculate_price_vulnerable, deposit_secure as overflow_deposit_secure,
    deposit_vulnerable as overflow_deposit_vulnerable, initialize_record, initialize_user_account,
    record_withdrawal_secure, record_withdrawal_vulnerable, withdraw_secure
    as overflow_withdraw_secure, withdraw_vulnerable as overflow_withdraw_vulnerable};
use account_guard::missing_signer_check::{initialize_vault, withdraw_secure, withdraw_vulnerable};
use account_guard::pda::find_program_address;
use account_guard::records::{Config, Pool, UserAccount, Vault};
use account_guard::reinitialization::{deposit as reinit_deposit, initialize_config_secure,
    initialize_config_vulnerable, initialize_secure_anchor, initialize_secure_manual,
    initialize_vulnerable, process_vault_secure, process_vault_vulnerable, withdraw
    as reinit_withdraw};
use account_guard::type_cosplay::{admin_action_secure, admin_action_vulnerable, AccountKind,
    claim_rewards_secure as cosplay_claim_secure, claim_rewards_vulnerable
    as cosplay_claim_vulnerable, initialize_admin_config, initialize_reward_vault,
    process_account_vulnerable, process_admin_secure, process_user_secure};

fn account(address: u8, owner: u8, signer: bool) -> AccountDescriptor {
    AccountDescriptor {
        address: Address::filled(address),
        owner_program: Address::filled(owner),
        data: Vec::new(),
        is_signer: signer,
        is_executable: false,
        lamports: 0,
    }
}

fn sample_vault(authority: u8, balance: u64) -> Vault {
    Vault {
        authority: Address::filled(authority),
        balance,
        total_deposits: 0,
        total_withdrawals: 0,
        is_initialized: true,
        bump: 1,
    }
}

// Missing signer check: field equality without a signature drains the
// vault through the vulnerable path and is refused by the secure one.
#[test]
fn unsigned_withdraw_passes_vulnerable_fails_secure() {
    let impostor = account(1, 0, false);

    let mut vault = sample_vault(1, 500);
    assert_eq!(withdraw_vulnerable(&mut vault, &impostor, 200), Ok(200));
    assert_eq!(vault.balance, 300);

    let mut vault = sample_vault(1, 500);
    assert_eq!(withdraw_secure(&mut vault, &impostor, 200), Err(PolicyError::MissingSignature));
    assert_eq!(vault.balance, 500);

    let owner = account(1, 0, true);
    assert_eq!(withdraw_secure(&mut vault, &owner, 600), Ok(500));
    assert_eq!(vault.balance, 0);

    let wrong = account(2, 0, true);
    assert_eq!(withdraw_secure(&mut vault, &wrong, 1), Err(PolicyError::Unauthorized));
}

#[test]
fn vault_initialization_requires_signature() {
    let unsigned = account(1, 0, false);
    assert_eq!(
        initialize_vault(&unsigned, 10, 2).unwrap_err(),
        PolicyError::MissingSignature
    );
    let signed = account(1, 0, true);
    let vault = initialize_vault(&signed, 10, 2).unwrap();
    assert_eq!(vault.balance, 10);
    assert_eq!(vault.bump, 2);
    assert!(vault.authority.equals(&Address::filled(1)));
}

// Account validation: a forged pool is believed by the raw read and
// rejected by the decoding read.
#[test]
fn forged_pool_fools_only_the_vulnerable_reader() {
    let program = Address::filled(9);
    let mut forged = vec![0u8; 48];
    forged.extend(1_000_000u64.to_le_bytes());
    forged.push(1);
    let fake = AccountDescriptor { data: forged, ..account(1, 0, false) };
    assert_eq!(claim_rewards_vulnerable(&fake), Ok(1_000_000));
    assert_eq!(claim_rewards_secure(&fake, &program).unwrap_err(), PolicyError::InvalidOwner);

    // A genuine pool sits at the address derived from the pool seeds and
    // carries the canonical bump.
    let seeds = vec![b"pool".to_vec(), vec![2u8; 32]];
    let (derived, bump) = find_program_address(&seeds, &program).expect("derivation");
    let genuine_record = Pool {
        authority: Address::filled(2),
        total_deposited: 0,
        reward_rate: 777,
        bump,
    };
    let genuine = AccountDescriptor {
        address: derived,
        data: genuine_record.encode(),
        ..account(1, 9, false)
    };
    assert_eq!(claim_rewards_secure(&genuine, &program), Ok(777));

    // The right record type at the wrong address fails the derivation
    // match even though owner and tag are right.
    let misplaced = AccountDescriptor {
        data: genuine_record.encode(),
        ..account(1, 9, false)
    };
    assert_eq!(
        claim_rewards_secure(&misplaced, &program).unwrap_err(),
        PolicyError::InvalidPDA
    );
    assert_eq!(claim_rewards_vulnerable(&AccountDescriptor { data: vec![1, 2, 3], ..account(1, 0, false) })
        .unwrap_err(), PolicyError::AccountNotInitialized);
}

#[test]
fn swap_validates_the_config_derivation() {
    let program = Address::filled(9);
    let seeds = vec![b"config".to_vec()];
    let (derived, bump) = find_program_address(&seeds, &program).expect("derivation");

    let record = Config {
        admin: Address::filled(2),
        fee_bps: 100,
        price_per_unit: 0,
        bump,
    };
    let config = AccountDescriptor {
        address: derived,
        owner_program: Address::filled(9),
        data: record.encode(),
        is_signer: false,
        is_executable: false,
        lamports: 1,
    };
    // 1% of 5000 with floor division.
    assert_eq!(swap_secure(&config, &program, 5000), Ok(50));
    assert_eq!(swap_vulnerable(&config, 5000), Ok(50));

    // A config whose stored bump is not the canonical one is refused by
    // the secure path even though its address is the real derived address.
    let spoofed_record = Config { bump: bump.wrapping_sub(1), ..record };
    let spoofed = AccountDescriptor { data: spoofed_record.encode(), ..config };
    assert_eq!(swap_secure(&spoofed, &program, 5000).unwrap_err(), PolicyError::InvalidPDA);
    // The vulnerable path still believes it.
    assert_eq!(swap_vulnerable(&spoofed, 5000), Ok(50));

    // An arbitrary account with a zero fee at the right offset fools only
    // the vulnerable path.
    let forged = AccountDescriptor { data: vec![0u8; 51], ..account(3, 0, false) };
    assert_eq!(swap_vulnerable(&forged, 5000), Ok(0));
    assert_eq!(swap_secure(&forged, &program, 5000).unwrap_err(), PolicyError::InvalidOwner);
}

#[test]
fn deposit_checks_token_account_ownership() {
    let user = account(4, 0, true);
    assert_eq!(deposit_vulnerable(&Address::filled(5), &user, 10), Ok(()));
    assert_eq!(
        deposit_secure(&Address::filled(5), &user, 10).unwrap_err(),
        PolicyError::TokenAccountOwnerMismatch
    );
    assert_eq!(deposit_secure(&Address::filled(4), &user, 10), Ok(()));
    let unsigned = account(4, 0, false);
    assert_eq!(
        deposit_secure(&Address::filled(4), &unsigned, 10).unwrap_err(),
        PolicyError::MissingSignature
    );
}

#[test]
fn pool_and_config_initializers() {
    let authority = account(2, 0, true);
    let pool = initialize_pool(&authority, 55, 3).unwrap();
    assert_eq!(pool.reward_rate, 55);
    assert_eq!(pool.total_deposited, 0);
    let config = initialize_config(&authority, 40, 250, 6).unwrap();
    assert_eq!(config.price_per_unit, 40);
    assert_eq!(config.fee_bps, 250);
    assert_eq!(
        initialize_pool(&account(2, 0, false), 55, 3).unwrap_err(),
        PolicyError::MissingSignature
    );
}

// Integer overflow: the wrapped results the vulnerable handlers produce,
// next to the typed failures of the secure ones.
#[test]
fn deposit_overflow_wraps_only_in_the_vulnerable_path() {
    let mut vault = sample_vault(1, 0);
    vault.total_deposits = u64::MAX - 100;
    assert_eq!(overflow_deposit_vulnerable(&mut vault, 200), Ok(()));
    assert_eq!(vault.total_deposits, 99);

    let mut vault = sample_vault(1, 0);
    vault.total_deposits = u64::MAX - 100;
    assert_eq!(overflow_deposit_secure(&mut vault, 200), Err(PolicyError::Overflow));
    assert_eq!(vault.total_deposits, u64::MAX - 100);
    assert_eq!(overflow_deposit_secure(&mut vault, 100), Ok(()));
    assert_eq!(vault.total_deposits, u64::MAX);
}

#[test]
fn withdraw_underflow_wraps_only_in_the_vulnerable_path() {
    let mut user = UserAccount {
        owner: Address::filled(1),
        balance: 100,
        rewards_accrued: 0,
        bump: 1,
    };
    let owner = account(1, 0, true);
    assert_eq!(overflow_withdraw_vulnerable(&mut user, &owner, 101), Ok(()));
    assert_eq!(user.balance, u64::MAX);

    user.balance = 100;
    assert_eq!(
        overflow_withdraw_secure(&mut user, &owner, 101),
        Err(PolicyError::InsufficientFunds)
    );
    assert_eq!(user.balance, 100);
    assert_eq!(overflow_withdraw_secure(&mut user, &owner, 40), Ok(()));
    assert_eq!(user.balance, 60);
    // Both variants demand the owner's live signature.
    assert_eq!(
        overflow_withdraw_vulnerable(&mut user, &account(1, 0, false), 1),
        Err(PolicyError::MissingSignature)
    );
    assert_eq!(
        overflow_withdraw_secure(&mut user, &account(2, 0, true), 1),
        Err(PolicyError::Unauthorized)
    );
    assert_eq!(user.balance, 60);
}

#[test]
fn price_multiplication_overflow() {
    let config = Config {
        admin: Address::filled(1),
        fee_bps: 0,
        price_per_unit: 5_000_000_000,
        bump: 1,
    };
    let wrapped = calculate_price_vulnerable(&config, 4_000_000_000).unwrap();
    assert_eq!(wrapped, 20_000_000_000_000_000_000u128 as u64);
    assert_eq!(
        calculate_price_secure(&config, 4_000_000_000),
        Err(PolicyError::Overflow)
    );
    assert_eq!(calculate_price_secure(&config, 2), Ok(10_000_000_000));
}

#[test]
fn withdrawal_recording_truncation() {
    let mut record = initialize_record(&account(1, 0, true), 5).unwrap();
    assert_eq!(record_withdrawal_vulnerable(&mut record, 4_294_967_396), Ok(()));
    assert_eq!(record.last_withdrawal, 100);
    assert_eq!(
        record_withdrawal_secure(&mut record, 4_294_967_396),
        Err(PolicyError::CastOverflow)
    );
    assert_eq!(record.last_withdrawal, 100);
    assert_eq!(record_withdrawal_secure(&mut record, 123), Ok(()));
    assert_eq!(record.last_withdrawal, 123);
}

#[test]
fn fee_calculation_rounding() {
    let config = Config {
        admin: Address::filled(1),
        fee_bps: 100,
        price_per_unit: 0,
        bump: 1,
    };
    // 99 * 100 / 10000 floors to 0 in the vulnerable path.
    assert_eq!(calculate_fee_vulnerable(&config, 99), Ok(0));
    // The secure path gives the ceiling, and at least one unit.
    assert_eq!(calculate_fee_secure(&config, 99), Ok(1));
    assert_eq!(calculate_fee_secure(&config, 10000), Ok(100));
    assert_eq!(calculate_fee_secure(&config, 0), Ok(1));
}

#[test]
fn user_account_initializer() {
    let user = initialize_user_account(&account(3, 0, true), 25, 7).unwrap();
    assert_eq!(user.balance, 25);
    assert_eq!(user.rewards_accrued, 0);
    assert_eq!(
        initialize_user_account(&account(3, 0, false), 25, 7).unwrap_err(),
        PolicyError::MissingSignature
    );
}

// Arbitrary cross-program invocation: the callee must be executable and
// must be the pinned program.
#[test]
fn cpi_target_validation() {
    let expected = Address::filled(7);
    let user = account(1, 0, true);
    let fake = account(7, 0, false);
    assert_eq!(cpi_swap_vulnerable(&fake, &user, 10), Ok(()));
    assert_eq!(
        cpi_swap_secure(&fake, &expected, &user, 10).unwrap_err(),
        PolicyError::InvalidProgram
    );
    let genuine = AccountDescriptor { is_executable: true, ..account(7, 0, false) };
    assert_eq!(cpi_swap_secure(&genuine, &expected, &user, 10), Ok(()));
    let wrong_id = AccountDescriptor { is_executable: true, ..account(8, 0, false) };
    assert_eq!(
        cpi_swap_secure(&wrong_id, &expected, &user, 10).unwrap_err(),
        PolicyError::InvalidProgram
    );

    assert_eq!(call_oracle_vulnerable(&fake), Ok(()));
    assert_eq!(call_oracle_secure(&fake, &expected).unwrap_err(), PolicyError::InvalidProgram);
    assert_eq!(call_oracle_secure(&genuine, &expected), Ok(()));
}

#[test]
fn token_transfer_validates_the_token_program() {
    let expected = Address::filled(7);
    let fake = account(7, 0, false);
    let mut vault = sample_vault(1, 100);
    // The vulnerable transfer updates state against a fake token program.
    assert_eq!(transfer_tokens_vulnerable(&mut vault, &fake, 40), Ok(()));
    assert_eq!(vault.balance, 60);
    // The secure transfer refuses and leaves the vault untouched.
    assert_eq!(
        transfer_tokens_secure(&mut vault, &fake, &expected, 40),
        Err(PolicyError::InvalidProgram)
    );
    assert_eq!(vault.balance, 60);
    let genuine = AccountDescriptor { is_executable: true, ..account(7, 0, false) };
    assert_eq!(transfer_tokens_secure(&mut vault, &genuine, &expected, 40), Ok(()));
    assert_eq!(vault.balance, 20);
    assert_eq!(
        transfer_tokens_secure(&mut vault, &genuine, &expected, 40),
        Err(PolicyError::InsufficientFunds)
    );
    assert_eq!(vault.balance, 20);
}

#[test]
fn reward_distribution_checks_admin_and_program() {
    let treasury = initialize_treasury(&account(2, 0, true), 900, 1).unwrap();
    let expected = Address::filled(7);
    let token_program = AccountDescriptor { is_executable: true, ..account(7, 0, false) };
    let arbitrary = account(6, 0, false);

    assert_eq!(distribute_rewards_vulnerable(&treasury, &arbitrary), Ok(900));

    let admin = account(2, 0, true);
    assert_eq!(
        distribute_rewards_secure(&treasury, &token_program, &expected, &admin),
        Ok(900)
    );
    let unsigned_admin = account(2, 0, false);
    assert_eq!(
        distribute_rewards_secure(&treasury, &token_program, &expected, &unsigned_admin)
            .unwrap_err(),
        PolicyError::MissingSignature
    );
    assert_eq!(
        distribute_rewards_secure(&treasury, &arbitrary, &expected, &admin).unwrap_err(),
        PolicyError::InvalidProgram
    );
}

// Reinitialization: the second initialization of the same derived address
// fails, and the first record survives byte for byte.
#[test]
fn derived_initialization_happens_exactly_once() {
    let program = Address::filled(9);
    let authority = account(1, 0, true);
    // The target must sit at the address derived from the vault seeds.
    let seeds = vec![b"vault".to_vec(), vec![1u8; 32]];
    let (derived, bump) = find_program_address(&seeds, &program).expect("derivation");
    let mut target = AccountDescriptor { address: derived, ..account(5, 0, false) };

    assert_eq!(initialize_secure_anchor(&mut target, &authority, &program), Ok(()));
    assert_eq!(target.data.len(), 66);
    assert!(target.owner_program.equals(&program));
    let first_payload = target.data.clone();
    // The canonical bump was stamped into the record.
    assert_eq!(target.data[65], bump);

    let attacker = account(2, 0, true);
    assert_eq!(
        initialize_secure_anchor(&mut target, &attacker, &program),
        Err(PolicyError::AlreadyInitialized)
    );
    assert_eq!(target.data, first_payload);

    // The stamped record decodes back.
    let vault = process_vault_secure(&target, &program).unwrap();
    assert_eq!(vault.balance, 0);
    assert_eq!(vault.bump, bump);
    assert!(vault.authority.equals(&Address::filled(1)));

    // A target at any other address fails the derivation match untouched.
    let mut wrong = account(5, 0, false);
    assert_eq!(
        initialize_secure_anchor(&mut wrong, &authority, &program),
        Err(PolicyError::InvalidPDA)
    );
    assert_eq!(wrong.data.len(), 0);
}

#[test]
fn config_initialization_happens_exactly_once() {
    let program = Address::filled(9);
    let admin = account(1, 0, true);
    let seeds = vec![b"config".to_vec()];
    let (derived, bump) = find_program_address(&seeds, &program).expect("derivation");
    let mut target = AccountDescriptor { address: derived, ..account(5, 0, false) };
    assert_eq!(initialize_config_secure(&mut target, &admin, &program, 250), Ok(()));
    assert_eq!(target.data[50], bump);
    let first_payload = target.data.clone();
    assert_eq!(
        initialize_config_secure(&mut target, &account(2, 0, true), &program, 0),
        Err(PolicyError::AlreadyInitialized)
    );
    assert_eq!(target.data, first_payload);
}

#[test]
fn manual_flag_initialization() {
    let mut vault = sample_vault(1, 77);
    // The vulnerable initializer resets an initialized vault outright.
    assert_eq!(initialize_vulnerable(&mut vault, &account(2, 0, true)), Ok(()));
    assert_eq!(vault.balance, 0);
    assert!(vault.authority.equals(&Address::filled(2)));

    vault.is_initialized = true;
    vault.balance = 50;
    assert_eq!(
        initialize_secure_manual(&mut vault, &account(3, 0, true)),
        Err(PolicyError::AlreadyInitialized)
    );
    assert_eq!(vault.balance, 50);

    vault.is_initialized = false;
    assert_eq!(initialize_secure_manual(&mut vault, &account(3, 0, true)), Ok(()));
    assert!(vault.is_initialized);
    assert!(vault.authority.equals(&Address::filled(3)));
}

#[test]
fn raw_flag_processing_is_spoofable() {
    let crafted = AccountDescriptor { data: vec![0u8, 9, 9], ..account(1, 0, false) };
    // Byte zero says "uninitialized" no matter what the account is.
    assert_eq!(process_vault_vulnerable(&crafted), Ok(false));
    let crafted = AccountDescriptor { data: vec![1u8], ..account(1, 0, false) };
    assert_eq!(process_vault_vulnerable(&crafted), Ok(true));
    let empty = account(1, 0, false);
    assert_eq!(process_vault_vulnerable(&empty).unwrap_err(), PolicyError::AccountNotInitialized);
}

#[test]
fn config_overwrite_and_guarded_vault_ops() {
    let mut config = Config {
        admin: Address::filled(1),
        fee_bps: 100,
        price_per_unit: 5,
        bump: 2,
    };
    assert_eq!(initialize_config_vulnerable(&mut config, &account(8, 0, true), 0), Ok(()));
    assert_eq!(config.fee_bps, 0);
    assert!(config.admin.equals(&Address::filled(8)));

    let mut vault = sample_vault(1, 10);
    assert_eq!(reinit_deposit(&mut vault, 15), Ok(()));
    assert_eq!(vault.balance, 25);
    assert_eq!(vault.total_deposits, 15);
    assert_eq!(
        reinit_withdraw(&mut vault, &account(1, 0, false), 5),
        Err(PolicyError::MissingSignature)
    );
    assert_eq!(reinit_withdraw(&mut vault, &account(1, 0, true), 5), Ok(()));
    assert_eq!(vault.balance, 20);
    assert_eq!(vault.total_withdrawals, 5);
    assert_eq!(
        reinit_withdraw(&mut vault, &account(1, 0, true), 21),
        Err(PolicyError::InsufficientFunds)
    );
}

// Type cosplay: a user record whose balance byte lands on the admin flag
// escalates through the raw reader and is rejected by the tagged one.
#[test]
fn user_record_passes_for_admin_only_without_discriminators() {
    let program = Address::filled(9);
    let attacker = account(4, 0, true);
    // Raw layout: 32 bytes of owner, then a u64 balance of 1 — whose first
    // byte sits exactly where the raw reader expects the admin flag.
    let mut crafted = vec![4u8; 32];
    crafted.extend(1u64.to_le_bytes());
    let cosplay = AccountDescriptor { data: crafted, ..account(3, 9, false) };

    assert_eq!(admin_action_vulnerable(&cosplay, &attacker), Ok(()));
    assert_eq!(
        admin_action_secure(&cosplay, &attacker, &program).unwrap_err(),
        PolicyError::TypeMismatch
    );

    let genuine = initialize_admin_config(&account(4, 0, true), 1).unwrap();
    let held = AccountDescriptor { data: genuine.encode(), ..account(3, 9, false) };
    assert_eq!(admin_action_secure(&held, &attacker, &program), Ok(()));
    assert_eq!(
        admin_action_secure(&held, &account(5, 0, true), &program).unwrap_err(),
        PolicyError::Unauthorized
    );
    let unsigned = account(4, 0, false);
    assert_eq!(
        admin_action_secure(&held, &unsigned, &program).unwrap_err(),
        PolicyError::MissingSignature
    );
}

#[test]
fn user_vault_passes_for_reward_vault_only_without_discriminators() {
    let program = Address::filled(9);
    let user = initialize_user_account(&account(4, 0, true), 1000, 1).unwrap();
    let mut raw = vec![4u8; 32];
    raw.extend(user.balance.to_le_bytes());
    let cosplay = AccountDescriptor { data: raw, ..account(3, 9, false) };
    assert_eq!(cosplay_claim_vulnerable(&cosplay), Ok(1000));
    assert_eq!(
        cosplay_claim_secure(&cosplay, &program).unwrap_err(),
        PolicyError::TypeMismatch
    );

    let vault = initialize_reward_vault(&account(2, 0, true), 333, 1).unwrap();
    let held = AccountDescriptor { data: vault.encode(), ..account(3, 9, false) };
    assert_eq!(cosplay_claim_secure(&held, &program), Ok(333));
}

#[test]
fn one_byte_type_flags_are_spoofable() {
    let user_flag = AccountDescriptor { data: vec![1u8, 0, 0], ..account(1, 0, false) };
    assert_eq!(process_account_vulnerable(&user_flag), Ok(AccountKind::User));
    // Anyone can write a 2 and claim admin processing.
    let admin_flag = AccountDescriptor { data: vec![2u8, 0, 0], ..account(1, 0, false) };
    assert_eq!(process_account_vulnerable(&admin_flag), Ok(AccountKind::Admin));
    let junk = AccountDescriptor { data: vec![9u8], ..account(1, 0, false) };
    assert_eq!(process_account_vulnerable(&junk).unwrap_err(), PolicyError::TypeMismatch);
    let empty = account(1, 0, false);
    assert_eq!(
        process_account_vulnerable(&empty).unwrap_err(),
        PolicyError::AccountNotInitialized
    );
}

#[test]
fn tagged_processing_accepts_only_the_right_type() {
    let program = Address::filled(9);
    let user = initialize_user_account(&account(4, 0, true), 10, 1).unwrap();
    let held_user = AccountDescriptor { data: user.encode(), ..account(3, 9, false) };
    assert_eq!(process_user_secure(&held_user, &program).unwrap().balance, 10);
    assert_eq!(
        process_admin_secure(&held_user, &program).unwrap_err(),
        PolicyError::TypeMismatch
    );
}

// Closing accounts: a complete close zeroes the data and reassigns the
// owner, so a re-funded account reads as uninitialized.
#[test]
fn close_then_refund_reads_uninitialized() {
    let program = Address::filled(9);
    let user = initialize_user_account(&account(4, 0, true), 10, 1).unwrap();
    let mut held = AccountDescriptor {
        lamports: 5000,
        data: user.encode(),
        ..account(3, 9, false)
    };
    let mut recipient = account(6, 0, false);
    let owner = account(4, 0, true);

    assert_eq!(close_secure(&mut held, &mut recipient, &owner, &program), Ok(()));
    assert_eq!(held.lamports, 0);
    assert_eq!(recipient.lamports, 5000);
    assert!(held.data.iter().all(|b| *b == 0));
    assert!(held.owner_program.equals(&Address::filled(0)));

    // Re-fund the address — the data is still gone.
    held.lamports = 5000;
    assert_eq!(
        process_user_secure(&held, &program).unwrap_err(),
        PolicyError::InvalidOwner
    );
    // Even spoofing the storage owner back leaves a zeroed payload that
    // fails the discriminator match as uninitialized.
    held.owner_program = Address::filled(9);
    assert_eq!(
        process_user_secure(&held, &program).unwrap_err(),
        PolicyError::AccountNotInitialized
    );
}

#[test]
fn incomplete_close_leaves_the_record_readable() {
    let program = Address::filled(9);
    let user = initialize_user_account(&account(4, 0, true), 10, 1).unwrap();
    let mut held = AccountDescriptor {
        lamports: 5000,
        data: user.encode(),
        ..account(3, 9, false)
    };
    let mut recipient = account(6, 0, false);
    assert_eq!(close_vulnerable(&mut held, &mut recipient), Ok(()));
    assert_eq!(held.lamports, 0);
    assert_eq!(recipient.lamports, 5000);
    // The data survived: after re-funding, the account still decodes — the
    // revival window the secure close eliminates.
    held.lamports = 1;
    assert_eq!(process_user_secure(&held, &program).unwrap().balance, 10);

    let mut held2 = AccountDescriptor {
        lamports: 100,
        data: Vec::new(),
        ..account(3, 9, false)
    };
    let mut thief = account(8, 0, false);
    assert_eq!(close_no_auth_check(&mut held2, &mut thief), Ok(()));
    assert_eq!(thief.lamports, 100);
}

#[test]
fn close_requires_the_owner_to_sign() {
    let program = Address::filled(9);
    let user = initialize_user_account(&account(4, 0, true), 10, 1).unwrap();
    let mut held = AccountDescriptor {
        lamports: 5000,
        data: user.encode(),
        ..account(3, 9, false)
    };
    let mut recipient = account(6, 0, false);
    let stranger = account(5, 0, true);
    assert_eq!(
        close_with_auth_check(&mut held, &mut recipient, &stranger, &program),
        Err(PolicyError::Unauthorized)
    );
    assert_eq!(held.lamports, 5000);
    let unsigned_owner = account(4, 0, false);
    assert_eq!(
        close_with_auth_check(&mut held, &mut recipient, &unsigned_owner, &program),
        Err(PolicyError::MissingSignature)
    );
    let owner = account(4, 0, true);
    assert_eq!(close_with_auth_check(&mut held, &mut recipient, &owner, &program), Ok(()));
}

#[test]
fn profile_close_writes_a_tombstone_that_blocks_recreation() {
    let program = Address::filled(9);
    let owner = account(4, 0, true);
    let profile = initialize_profile(&owner, 2, None).unwrap();
    let mut held = AccountDescriptor {
        lamports: 700,
        data: profile.encode(),
        ..account(3, 9, false)
    };
    let mut recipient = account(6, 0, false);

    let tombstone =
        close_profile_secure(&mut held, &mut recipient, &owner, &program, 1_700_000_000, 5)
            .unwrap();
    assert_eq!(tombstone.closed_at, 1_700_000_000);
    assert!(tombstone.original_owner.equals(&Address::filled(4)));
    assert!(held.data.iter().all(|b| *b == 0));

    // Recreation is refused while the tombstone stands.
    assert_eq!(
        initialize_profile(&owner, 2, Some(&tombstone)).unwrap_err(),
        PolicyError::AlreadyInitialized
    );
    // Another user is unaffected.
    assert!(initialize_profile(&account(5, 0, true), 2, Some(&tombstone)).is_ok());
}

#[test]
fn vulnerable_profile_close_allows_recreation() {
    let program = Address::filled(9);
    let owner = account(4, 0, true);
    let profile = initialize_profile(&owner, 2, None).unwrap();
    let mut held = AccountDescriptor {
        lamports: 700,
        data: profile.encode(),
        ..account(3, 9, false)
    };
    let mut recipient = account(6, 0, false);
    assert_eq!(
        close_profile_vulnerable(&mut held, &mut recipient, &owner, &program),
        Ok(())
    );
    // No tombstone exists, so nothing blocks a fresh initialization.
    assert!(initialize_profile(&owner, 2, None).is_ok());
}

#[test]
fn rewards_accrue_and_claim() {
    let mut user = initialize_user_account(&account(4, 0, true), 0, 1).unwrap();
    assert_eq!(accrue_rewards(&mut user, 400), Ok(()));
    user.rewards_accrued = u64::MAX;
    assert_eq!(accrue_rewards(&mut user, 1), Err(PolicyError::Overflow));
    user.rewards_accrued = 400;
    assert_eq!(
        claim_rewards(&mut user, &account(4, 0, false)).unwrap_err(),
        PolicyError::MissingSignature
    );
    assert_eq!(user.rewards_accrued, 400);
    assert_eq!(claim_rewards(&mut user, &account(4, 0, true)), Ok(400));
    assert_eq!(user.rewards_accrued, 0);
}

#[test]
fn config_reads() {
    let program = Address::filled(9);
    let anything = account(1, 0, false);
    assert_eq!(read_config_vulnerable(&anything), Ok(()));
    let config = Config {
        admin: Address::filled(1),
        fee_bps: 42,
        price_per_unit: 0,
        bump: 1,
    };
    let held = AccountDescriptor { data: config.encode(), ..account(3, 9, false) };
    assert_eq!(read_config_secure(&held, &program), Ok(42));
    assert_eq!(
        read_config_secure(&anything, &program).unwrap_err(),
        PolicyError::InvalidOwner
    );
}

#[test]
fn error_messages_are_stable() {
    assert_eq!(PolicyError::Overflow.message(), "arithmetic overflow");
    assert_eq!(PolicyError::InsufficientFunds.message(), "insufficient funds");
    assert!(!PolicyError::InvalidPDA.message().is_empty());
    assert!(!PolicyError::IncompleteClose.message().is_empty());
}

#[test]
fn swap_fee_truncation_is_stated_not_hidden() {
    // The raw formula computes in 128 bits and truncates to 64; with the
    // maximal fee rate the truncation is observable.
    let mut data = vec![0u8; 40];
    data.extend(65535u16.to_le_bytes());
    let config = AccountDescriptor { data, ..account(1, 0, false) };
    let expected = ((u64::MAX as u128 * 65535) / 10000) as u64;
    assert_eq!(swap_vulnerable(&config, u64::MAX), Ok(expected));
}
