//! The scenario state records.
//!
//! Each record has one authority field — the sole entity authorized to
//! mutate it — plus its domain fields. A record's byte payload is its 8-byte
//! type tag followed by the fields in order, integers little-endian. The
//! decoders apply the owner-match and discriminator-match rules before
//! interpreting a single field byte.

use vstd::prelude::*;

use vstd::bytes::{spec_u16_from_le_bytes, spec_u16_to_le_bytes, spec_u64_from_le_bytes,
    spec_u64_to_le_bytes};

use crate::codec::{push_bytes, push_u16_le, push_u64_le, read_bytes, read_u16_le, read_u64_le};
use crate::descriptor::{AccountDescriptor, Address};
use crate::discriminator::{record_tag, record_tag_spec};
use crate::errors::PolicyError;
use crate::rules::{check_discriminator, check_owner, has_tag_spec, untagged_spec};

verus! {

/// The ASCII bytes of the type name `Vault`.
pub open spec fn vault_name_spec() -> Seq<u8> {
    seq![86u8, 97u8, 117u8, 108u8, 116u8]
}

/// The ASCII bytes of the type name `UserAccount`.
pub open spec fn user_account_name_spec() -> Seq<u8> {
    seq![85u8, 115u8, 101u8, 114u8, 65u8, 99u8, 99u8, 111u8, 117u8, 110u8, 116u8]
}

/// The ASCII bytes of the type name `Config`.
pub open spec fn config_name_spec() -> Seq<u8> {
    seq![67u8, 111u8, 110u8, 102u8, 105u8, 103u8]
}

/// The ASCII bytes of the type name `Pool`.
pub open spec fn pool_name_spec() -> Seq<u8> {
    seq![80u8, 111u8, 111u8, 108u8]
}

/// The ASCII bytes of the type name `Treasury`.
pub open spec fn treasury_name_spec() -> Seq<u8> {
    seq![84u8, 114u8, 101u8, 97u8, 115u8, 117u8, 114u8, 121u8]
}

/// The ASCII bytes of the type name `AdminConfig`.
pub open spec fn admin_config_name_spec() -> Seq<u8> {
    seq![65u8, 100u8, 109u8, 105u8, 110u8, 67u8, 111u8, 110u8, 102u8, 105u8, 103u8]
}

/// The ASCII bytes of the type name `RewardVault`.
pub open spec fn reward_vault_name_spec() -> Seq<u8> {
    seq![82u8, 101u8, 119u8, 97u8, 114u8, 100u8, 86u8, 97u8, 117u8, 108u8, 116u8]
}

/// The type name `Vault` as bytes.
pub fn vault_type_name() -> (r: Vec<u8>)
    ensures
        r@ == vault_name_spec(),
{
    let mut name: Vec<u8> = Vec::new();
    name.push(86); // 'V'
    name.push(97); // 'a'
    name.push(117); // 'u'
    name.push(108); // 'l'
    name.push(116); // 't'
    proof {
        assert(name@ =~= vault_name_spec());
    }
    name
}

/// The type name `UserAccount` as bytes.
pub fn user_account_type_name() -> (r: Vec<u8>)
    ensures
        r@ == user_account_name_spec(),
{
    let mut name: Vec<u8> = Vec::new();
    name.push(85); // 'U'
    name.push(115); // 's'
    name.push(101); // 'e'
    name.push(114); // 'r'
    name.push(65); // 'A'
    name.push(99); // 'c'
    name.push(99); // 'c'
    name.push(111); // 'o'
    name.push(117); // 'u'
    name.push(110); // 'n'
    name.push(116); // 't'
    proof {
        assert(name@ =~= user_account_name_spec());
    }
    name
}

/// The type name `Config` as bytes.
pub fn config_type_name() -> (r: Vec<u8>)
    ensures
        r@ == config_name_spec(),
{
    let mut name: Vec<u8> = Vec::new();
    name.push(67); // 'C'
    name.push(111); // 'o'
    name.push(110); // 'n'
    name.push(102); // 'f'
    name.push(105); // 'i'
    name.push(103); // 'g'
    proof {
        assert(name@ =~= config_name_spec());
    }
    name
}

/// The type name `Pool` as bytes.
pub fn pool_type_name() -> (r: Vec<u8>)
    ensures
        r@ == pool_name_spec(),
{
    let mut name: Vec<u8> = Vec::new();
    name.push(80); // 'P'
    name.push(111); // 'o'
    name.push(111); // 'o'
    name.push(108); // 'l'
    proof {
        assert(name@ =~= pool_name_spec());
    }
    name
}

/// The type name `Treasury` as bytes.
pub fn treasury_type_name() -> (r: Vec<u8>)
    ensures
        r@ == treasury_name_spec(),
{
    let mut name: Vec<u8> = Vec::new();
    name.push(84); // 'T'
    name.push(114); // 'r'
    name.push(101); // 'e'
    name.push(97); // 'a'
    name.push(115); // 's'
    name.push(117); // 'u'
    name.push(114); // 'r'
    name.push(121); // 'y'
    proof {
        assert(name@ =~= treasury_name_spec());
    }
    name
}

/// The type name `AdminConfig` as bytes.
pub fn admin_config_type_name() -> (r: Vec<u8>)
    ensures
        r@ == admin_config_name_spec(),
{
    let mut name: Vec<u8> = Vec::new();
    name.push(65); // 'A'
    name.push(100); // 'd'
    name.push(109); // 'm'
    name.push(105); // 'i'
    name.push(110); // 'n'
    name.push(67); // 'C'
    name.push(111); // 'o'
    name.push(110); // 'n'
    name.push(102); // 'f'
    name.push(105); // 'i'
    name.push(103); // 'g'
    proof {
        assert(name@ =~= admin_config_name_spec());
    }
    name
}

/// The type name `RewardVault` as bytes.
pub fn reward_vault_type_name() -> (r: Vec<u8>)
    ensures
        r@ == reward_vault_name_spec(),
{
    let mut name: Vec<u8> = Vec::new();
    name.push(82); // 'R'
    name.push(101); // 'e'
    name.push(119); // 'w'
    name.push(97); // 'a'
    name.push(114); // 'r'
    name.push(100); // 'd'
    name.push(86); // 'V'
    name.push(97); // 'a'
    name.push(117); // 'u'
    name.push(108); // 'l'
    name.push(116); // 't'
    proof {
        assert(name@ =~= reward_vault_name_spec());
    }
    name
}

/// The ASCII bytes of the type name `UserProfile`.
pub open spec fn user_profile_name_spec() -> Seq<u8> {
    seq![85u8, 115u8, 101u8, 114u8, 80u8, 114u8, 111u8, 102u8, 105u8, 108u8, 101u8]
}

/// The type name `UserProfile` as bytes.
pub fn user_profile_type_name() -> (r: Vec<u8>)
    ensures
        r@ == user_profile_name_spec(),
{
    let mut name: Vec<u8> = Vec::new();
    name.push(85); // 'U'
    name.push(115); // 's'
    name.push(101); // 'e'
    name.push(114); // 'r'
    name.push(80); // 'P'
    name.push(114); // 'r'
    name.push(111); // 'o'
    name.push(102); // 'f'
    name.push(105); // 'i'
    name.push(108); // 'l'
    name.push(101); // 'e'
    proof {
        assert(name@ =~= user_profile_name_spec());
    }
    name
}

/// A vault: a balance guarded by one authority, with running deposit and
/// withdrawal totals, the bypassable manual initialization flag and the
/// derivation bump.
#[derive(Debug)]
pub struct Vault {
    /// The only address authorized to move funds out of this vault.
    pub authority: Address,
    /// The current balance.
    pub balance: u64,
    /// Running total of deposits.
    pub total_deposits: u64,
    /// Running total of withdrawals.
    pub total_withdrawals: u64,
    /// The manual initialization flag; data-carried and therefore weaker
    /// than the derivation-backed create-once check.
    pub is_initialized: bool,
    /// The canonical derivation bump.
    pub bump: u8,
}

impl Vault {
    /// Well-formed vault records carry a well-formed authority address.
    pub open spec fn wf(&self) -> bool {
        self.authority.wf()
    }

    /// The byte payload of this record: tag, authority, the three totals,
    /// the flag byte and the bump.
    pub open spec fn bytes_spec(&self) -> Seq<u8> {
        record_tag_spec(vault_name_spec()) + self.authority@ + spec_u64_to_le_bytes(self.balance)
            + spec_u64_to_le_bytes(self.total_deposits) + spec_u64_to_le_bytes(
            self.total_withdrawals,
        ) + seq![if self.is_initialized { 1u8 } else { 0u8 }, self.bump]
    }

    /// The 8-byte tag of the `Vault` record type.
    pub fn type_tag() -> (r: Vec<u8>)
        ensures
            r@ == record_tag_spec(vault_name_spec()),
            r@.len() == 8,
    {
        record_tag(&vault_type_name())
    }

    /// Serialize this record, tag first.
    pub fn encode(&self) -> (r: Vec<u8>)
        requires
            self.wf(),
        ensures
            r@ == self.bytes_spec(),
            r@.len() == 66,
    {
        let mut out = Vault::type_tag();
        push_bytes(&mut out, self.authority.as_bytes());
        push_u64_le(&mut out, self.balance);
        push_u64_le(&mut out, self.total_deposits);
        push_u64_le(&mut out, self.total_withdrawals);
        out.push(if self.is_initialized { 1 } else { 0 });
        out.push(self.bump);
        proof {
            assert(out@ =~= self.bytes_spec());
        }
        out
    }

    /// Decode a vault record from an account, applying the owner-match and
    /// discriminator-match rules before reading any field.
    pub fn decode(d: &AccountDescriptor, program: &Address) -> (r: Result<Vault, PolicyError>)
        requires
            program.wf(),
        ensures
            r is Ok <==> crate::rules::owner_ok_spec(d, program@) && has_tag_spec(
                d.data@,
                record_tag_spec(vault_name_spec()),
            ) && d.data@.len() == 66,
            !crate::rules::owner_ok_spec(d, program@) ==> r == Err::<Vault, PolicyError>(
                PolicyError::InvalidOwner,
            ),
            r matches Ok(v) ==> v.wf() && v.authority@ == d.data@.subrange(8, 40) && v.balance
                == spec_u64_from_le_bytes(d.data@.subrange(40, 48)) && v.total_deposits
                == spec_u64_from_le_bytes(d.data@.subrange(48, 56)) && v.total_withdrawals
                == spec_u64_from_le_bytes(d.data@.subrange(56, 64)) && v.is_initialized == (
            d.data@[64] != 0) && v.bump == d.data@[65],
            crate::rules::owner_ok_spec(d, program@) && !has_tag_spec(
                d.data@,
                record_tag_spec(vault_name_spec()),
            ) && untagged_spec(d.data@) ==> r == Err::<Vault, PolicyError>(
                PolicyError::AccountNotInitialized,
            ),
            crate::rules::owner_ok_spec(d, program@) && !has_tag_spec(
                d.data@,
                record_tag_spec(vault_name_spec()),
            ) && !untagged_spec(d.data@) ==> r == Err::<Vault, PolicyError>(
                PolicyError::TypeMismatch,
            ),
            crate::rules::owner_ok_spec(d, program@) && has_tag_spec(
                d.data@,
                record_tag_spec(vault_name_spec()),
            ) && d.data@.len() != 66 ==> r == Err::<Vault, PolicyError>(
                PolicyError::TypeMismatch,
            ),
    {
        match check_owner(d, program) {
            Ok(()) => (),
            Err(e) => {
                return Err(e);
            },
        }
        let tag = Vault::type_tag();
        match check_discriminator(&d.data, &tag) {
            Ok(()) => (),
            Err(e) => {
                return Err(e);
            },
        }
        if d.data.len() != 66 {
            return Err(PolicyError::TypeMismatch);
        }
        let authority = Address::from_bytes(read_bytes(&d.data, 8, 32)).unwrap();
        let balance = read_u64_le(&d.data, 40);
        let total_deposits = read_u64_le(&d.data, 48);
        let total_withdrawals = read_u64_le(&d.data, 56);
        let is_initialized = *d.data.get(64).unwrap() != 0;
        let bump = *d.data.get(65).unwrap();
        Ok(Vault { authority, balance, total_deposits, total_withdrawals, is_initialized, bump })
    }
}

/// A user's balance record with accrued rewards.
#[derive(Debug)]
pub struct UserAccount {
    /// The account owner.
    pub owner: Address,
    /// The user's balance.
    pub balance: u64,
    /// Rewards accrued and not yet claimed.
    pub rewards_accrued: u64,
    /// The canonical derivation bump.
    pub bump: u8,
}

/// Protocol configuration: the admin, the fee rate and the unit price.
#[derive(Debug)]
pub struct Config {
    /// The admin address.
    pub admin: Address,
    /// The fee in basis points.
    pub fee_bps: u16,
    /// The price per unit.
    pub price_per_unit: u64,
    /// The canonical derivation bump.
    pub bump: u8,
}

/// A reward pool.
#[derive(Debug)]
pub struct Pool {
    /// The pool authority.
    pub authority: Address,
    /// Total amount deposited into the pool.
    pub total_deposited: u64,
    /// The reward rate.
    pub reward_rate: u64,
    /// The canonical derivation bump.
    pub bump: u8,
}

/// A treasury holding a reward budget. Its byte layout is identical to
/// [`RewardVault`]'s; only the type tags tell the two apart.
#[derive(Debug)]
pub struct Treasury {
    /// The treasury admin.
    pub admin: Address,
    /// The amount distributed per reward round.
    pub reward_amount: u64,
    /// The canonical derivation bump.
    pub bump: u8,
}

/// The admin record: whoever it names may perform admin actions.
#[derive(Debug)]
pub struct AdminConfig {
    /// The admin address.
    pub admin: Address,
    /// The canonical derivation bump.
    pub bump: u8,
}

/// A vault of claimable rewards. Its byte layout is identical to
/// [`Treasury`]'s; only the type tags tell the two apart.
#[derive(Debug)]
pub struct RewardVault {
    /// The vault authority.
    pub authority: Address,
    /// Rewards available to claim.
    pub balance: u64,
    /// The canonical derivation bump.
    pub bump: u8,
}

/// A user profile with accumulated points.
#[derive(Debug)]
pub struct UserProfile {
    /// The profile owner.
    pub owner: Address,
    /// Accumulated points.
    pub points: u64,
    /// The canonical derivation bump.
    pub bump: u8,
}

/// The permanent marker that a profile was closed: it blocks re-creation of
/// a profile for the same owner.
#[derive(Debug)]
pub struct ProfileTombstone {
    /// The owner of the closed profile.
    pub original_owner: Address,
    /// When the profile was closed, as a unix timestamp.
    pub closed_at: i64,
    /// The canonical derivation bump.
    pub bump: u8,
}

/// The most recent withdrawal, deliberately narrow to show the cast rule.
#[derive(Debug)]
pub struct WithdrawalRecord {
    /// The user this record belongs to.
    pub user: Address,
    /// The last withdrawal amount, narrowed to 32 bits.
    pub last_withdrawal: u32,
    /// The canonical derivation bump.
    pub bump: u8,
}

impl UserAccount {
    /// Well-formed records carry a well-formed `owner` address.
    pub open spec fn wf(&self) -> bool {
        self.owner.wf()
    }

    /// The byte payload of this record: tag first, then the fields in order.
    pub open spec fn bytes_spec(&self) -> Seq<u8> {
        record_tag_spec(user_account_name_spec()) + self.owner@ + spec_u64_to_le_bytes(self.balance) + spec_u64_to_le_bytes(self.rewards_accrued) + seq![self.bump]
    }

    /// The 8-byte tag of the `UserAccount` record type.
    pub fn type_tag() -> (r: Vec<u8>)
        ensures
            r@ == record_tag_spec(user_account_name_spec()),
            r@.len() == 8,
    {
        record_tag(&user_account_type_name())
    }

    /// Serialize this record, tag first.
    pub fn encode(&self) -> (r: Vec<u8>)
        requires
            self.wf(),
        ensures
            r@ == self.bytes_spec(),
            r@.len() == 57,
    {
        let mut out = UserAccount::type_tag();
        push_bytes(&mut out, self.owner.as_bytes());
        push_u64_le(&mut out, self.balance);
        push_u64_le(&mut out, self.rewards_accrued);
        out.push(self.bump);
        proof {
            assert(out@ =~= self.bytes_spec());
        }
        out
    }

    /// Decode a record from an account, applying the owner-match and
    /// discriminator-match rules before reading any field.
    pub fn decode(d: &AccountDescriptor, program: &Address) -> (r: Result<UserAccount, PolicyError>)
        requires
            program.wf(),
        ensures
            r is Ok <==> crate::rules::owner_ok_spec(d, program@) && has_tag_spec(
                d.data@,
                record_tag_spec(user_account_name_spec()),
            ) && d.data@.len() == 57,
            !crate::rules::owner_ok_spec(d, program@) ==> r == Err::<UserAccount, PolicyError>(
                PolicyError::InvalidOwner,
            ),
            r matches Ok(v) ==> v.wf() && v.owner@ == d.data@.subrange(8, 40) && v.balance == spec_u64_from_le_bytes(d.data@.subrange(40, 48)) && v.rewards_accrued == spec_u64_from_le_bytes(d.data@.subrange(48, 56)) && v.bump == d.data@[56],
            crate::rules::owner_ok_spec(d, program@) && !has_tag_spec(
                d.data@,
                record_tag_spec(user_account_name_spec()),
            ) && untagged_spec(d.data@) ==> r == Err::<UserAccount, PolicyError>(
                PolicyError::AccountNotInitialized,
            ),
            crate::rules::owner_ok_spec(d, program@) && !has_tag_spec(
                d.data@,
                record_tag_spec(user_account_name_spec()),
            ) && !untagged_spec(d.data@) ==> r == Err::<UserAccount, PolicyError>(
                PolicyError::TypeMismatch,
            ),
            crate::rules::owner_ok_spec(d, program@) && has_tag_spec(
                d.data@,
                record_tag_spec(user_account_name_spec()),
            ) && d.data@.len() != 57 ==> r == Err::<UserAccount, PolicyError>(
                PolicyError::TypeMismatch,
            ),
    {
        match check_owner(d, program) {
            Ok(()) => (),
            Err(e) => {
                return Err(e);
            },
        }
        let tag = UserAccount::type_tag();
        match check_discriminator(&d.data, &tag) {
            Ok(()) => (),
            Err(e) => {
                return Err(e);
            },
        }
        if d.data.len() != 57 {
            return Err(PolicyError::TypeMismatch);
        }
        let owner = Address::from_bytes(read_bytes(&d.data, 8, 32)).unwrap();
        let balance = read_u64_le(&d.data, 40);
        let rewards_accrued = read_u64_le(&d.data, 48);
        let bump = *d.data.get(56).unwrap();
        Ok(UserAccount { owner, balance, rewards_accrued, bump })
    }
}

impl Config {
    /// Well-formed records carry a well-formed `admin` address.
    pub open spec fn wf(&self) -> bool {
        self.admin.wf()
    }

    /// The byte payload of this record: tag first, then the fields in order.
    pub open spec fn bytes_spec(&self) -> Seq<u8> {
        record_tag_spec(config_name_spec()) + self.admin@ + spec_u16_to_le_bytes(self.fee_bps) + spec_u64_to_le_bytes(self.price_per_unit) + seq![self.bump]
    }

    /// The 8-byte tag of the `Config` record type.
    pub fn type_tag() -> (r: Vec<u8>)
        ensures
            r@ == record_tag_spec(config_name_spec()),
            r@.len() == 8,
    {
        record_tag(&config_type_name())
    }

    /// Serialize this record, tag first.
    pub fn encode(&self) -> (r: Vec<u8>)
        requires
            self.wf(),
        ensures
            r@ == self.bytes_spec(),
            r@.len() == 51,
    {
        let mut out = Config::type_tag();
        push_bytes(&mut out, self.admin.as_bytes());
        push_u16_le(&mut out, self.fee_bps);
        push_u64_le(&mut out, self.price_per_unit);
        out.push(self.bump);
        proof {
            assert(out@ =~= self.bytes_spec());
        }
        out
    }

    /// Decode a record from an account, applying the owner-match and
    /// discriminator-match rules before reading any field.
    pub fn decode(d: &AccountDescriptor, program: &Address) -> (r: Result<Config, PolicyError>)
        requires
            program.wf(),
        ensures
            r is Ok <==> crate::rules::owner_ok_spec(d, program@) && has_tag_spec(
                d.data@,
                record_tag_spec(config_name_spec()),
            ) && d.data@.len() == 51,
            !crate::rules::owner_ok_spec(d, program@) ==> r == Err::<Config, PolicyError>(
                PolicyError::InvalidOwner,
            ),
            r matches Ok(v) ==> v.wf() && v.admin@ == d.data@.subrange(8, 40) && v.fee_bps == spec_u16_from_le_bytes(d.data@.subrange(40, 42)) && v.price_per_unit == spec_u64_from_le_bytes(d.data@.subrange(42, 50)) && v.bump == d.data@[50],
            crate::rules::owner_ok_spec(d, program@) && !has_tag_spec(
                d.data@,
                record_tag_spec(config_name_spec()),
            ) && untagged_spec(d.data@) ==> r == Err::<Config, PolicyError>(
                PolicyError::AccountNotInitialized,
            ),
            crate::rules::owner_ok_spec(d, program@) && !has_tag_spec(
                d.data@,
                record_tag_spec(config_name_spec()),
            ) && !untagged_spec(d.data@) ==> r == Err::<Config, PolicyError>(
                PolicyError::TypeMismatch,
            ),
            crate::rules::owner_ok_spec(d, program@) && has_tag_spec(
                d.data@,
                record_tag_spec(config_name_spec()),
            ) && d.data@.len() != 51 ==> r == Err::<Config, PolicyError>(
                PolicyError::TypeMismatch,
            ),
    {
        match check_owner(d, program) {
            Ok(()) => (),
            Err(e) => {
                return Err(e);
            },
        }
        let tag = Config::type_tag();
        match check_discriminator(&d.data, &tag) {
            Ok(()) => (),
            Err(e) => {
                return Err(e);
            },
        }
        if d.data.len() != 51 {
            return Err(PolicyError::TypeMismatch);
        }
        let admin = Address::from_bytes(read_bytes(&d.data, 8, 32)).unwrap();
        let fee_bps = read_u16_le(&d.data, 40);
        let price_per_unit = read_u64_le(&d.data, 42);
        let bump = *d.data.get(50).unwrap();
        Ok(Config { admin, fee_bps, price_per_unit, bump })
    }
}

impl Pool {
    /// Well-formed records carry a well-formed `authority` address.
    pub open spec fn wf(&self) -> bool {
        self.authority.wf()
    }

    /// The byte payload of this record: tag first, then the fields in order.
    pub open spec fn bytes_spec(&self) -> Seq<u8> {
        record_tag_spec(pool_name_spec()) + self.authority@ + spec_u64_to_le_bytes(self.total_deposited) + spec_u64_to_le_bytes(self.reward_rate) + seq![self.bump]
    }

    /// The 8-byte tag of the `Pool` record type.
    pub fn type_tag() -> (r: Vec<u8>)
        ensures
            r@ == record_tag_spec(pool_name_spec()),
            r@.len() == 8,
    {
        record_tag(&pool_type_name())
    }

    /// Serialize this record, tag first.
    pub fn encode(&self) -> (r: Vec<u8>)
        requires
            self.wf(),
        ensures
            r@ == self.bytes_spec(),
            r@.len() == 57,
    {
        let mut out = Pool::type_tag();
        push_bytes(&mut out, self.authority.as_bytes());
        push_u64_le(&mut out, self.total_deposited);
        push_u64_le(&mut out, self.reward_rate);
        out.push(self.bump);
        proof {
            assert(out@ =~= self.bytes_spec());
        }
        out
    }

    /// Decode a record from an account, applying the owner-match and
    /// discriminator-match rules before reading any field.
    pub fn decode(d: &AccountDescriptor, program: &Address) -> (r: Result<Pool, PolicyError>)
        requires
            program.wf(),
        ensures
            r is Ok <==> crate::rules::owner_ok_spec(d, program@) && has_tag_spec(
                d.data@,
                record_tag_spec(pool_name_spec()),
            ) && d.data@.len() == 57,
            !crate::rules::owner_ok_spec(d, program@) ==> r == Err::<Pool, PolicyError>(
                PolicyError::InvalidOwner,
            ),
            r matches Ok(v) ==> v.wf() && v.authority@ == d.data@.subrange(8, 40) && v.total_deposited == spec_u64_from_le_bytes(d.data@.subrange(40, 48)) && v.reward_rate == spec_u64_from_le_bytes(d.data@.subrange(48, 56)) && v.bump == d.data@[56],
            crate::rules::owner_ok_spec(d, program@) && !has_tag_spec(
                d.data@,
                record_tag_spec(pool_name_spec()),
            ) && untagged_spec(d.data@) ==> r == Err::<Pool, PolicyError>(
                PolicyError::AccountNotInitialized,
            ),
            crate::rules::owner_ok_spec(d, program@) && !has_tag_spec(
                d.data@,
                record_tag_spec(pool_name_spec()),
            ) && !untagged_spec(d.data@) ==> r == Err::<Pool, PolicyError>(
                PolicyError::TypeMismatch,
            ),
            crate::rules::owner_ok_spec(d, program@) && has_tag_spec(
                d.data@,
                record_tag_spec(pool_name_spec()),
            ) && d.data@.len() != 57 ==> r == Err::<Pool, PolicyError>(
                PolicyError::TypeMismatch,
            ),
    {
        match check_owner(d, program) {
            Ok(()) => (),
            Err(e) => {
                return Err(e);
            },
        }
        let tag = Pool::type_tag();
        match check_discriminator(&d.data, &tag) {
            Ok(()) => (),
            Err(e) => {
                return Err(e);
            },
        }
        if d.data.len() != 57 {
            return Err(PolicyError::TypeMismatch);
        }
        let authority = Address::from_bytes(read_bytes(&d.data, 8, 32)).unwrap();
        let total_deposited = read_u64_le(&d.data, 40);
        let reward_rate = read_u64_le(&d.data, 48);
        let bump = *d.data.get(56).unwrap();
        Ok(Pool { authority, total_deposited, reward_rate, bump })
    }
}

impl Treasury {
    /// Well-formed records carry a well-formed `admin` address.
    pub open spec fn wf(&self) -> bool {
        self.admin.wf()
    }

    /// The byte payload of this record: tag first, then the fields in order.
    pub open spec fn bytes_spec(&self) -> Seq<u8> {
        record_tag_spec(treasury_name_spec()) + self.admin@ + spec_u64_to_le_bytes(self.reward_amount) + seq![self.bump]
    }

    /// The 8-byte tag of the `Treasury` record type.
    pub fn type_tag() -> (r: Vec<u8>)
        ensures
            r@ == record_tag_spec(treasury_name_spec()),
            r@.len() == 8,
    {
        record_tag(&treasury_type_name())
    }

    /// Serialize this record, tag first.
    pub fn encode(&self) -> (r: Vec<u8>)
        requires
            self.wf(),
        ensures
            r@ == self.bytes_spec(),
            r@.len() == 49,
    {
        let mut out = Treasury::type_tag();
        push_bytes(&mut out, self.admin.as_bytes());
        push_u64_le(&mut out, self.reward_amount);
        out.push(self.bump);
        proof {
            assert(out@ =~= self.bytes_spec());
        }
        out
    }

    /// Decode a record from an account, applying the owner-match and
    /// discriminator-match rules before reading any field.
    pub fn decode(d: &AccountDescriptor, program: &Address) -> (r: Result<Treasury, PolicyError>)
        requires
            program.wf(),
        ensures
            r is Ok <==> crate::rules::owner_ok_spec(d, program@) && has_tag_spec(
                d.data@,
                record_tag_spec(treasury_name_spec()),
            ) && d.data@.len() == 49,
            !crate::rules::owner_ok_spec(d, program@) ==> r == Err::<Treasury, PolicyError>(
                PolicyError::InvalidOwner,
            ),
            r matches Ok(v) ==> v.wf() && v.admin@ == d.data@.subrange(8, 40) && v.reward_amount == spec_u64_from_le_bytes(d.data@.subrange(40, 48)) && v.bump == d.data@[48],
            crate::rules::owner_ok_spec(d, program@) && !has_tag_spec(
                d.data@,
                record_tag_spec(treasury_name_spec()),
            ) && untagged_spec(d.data@) ==> r == Err::<Treasury, PolicyError>(
                PolicyError::AccountNotInitialized,
            ),
            crate::rules::owner_ok_spec(d, program@) && !has_tag_spec(
                d.data@,
                record_tag_spec(treasury_name_spec()),
            ) && !untagged_spec(d.data@) ==> r == Err::<Treasury, PolicyError>(
                PolicyError::TypeMismatch,
            ),
            crate::rules::owner_ok_spec(d, program@) && has_tag_spec(
                d.data@,
                record_tag_spec(treasury_name_spec()),
            ) && d.data@.len() != 49 ==> r == Err::<Treasury, PolicyError>(
                PolicyError::TypeMismatch,
            ),
    {
        match check_owner(d, program) {
            Ok(()) => (),
            Err(e) => {
                return Err(e);
            },
        }
        let tag = Treasury::type_tag();
        match check_discriminator(&d.data, &tag) {
            Ok(()) => (),
            Err(e) => {
                return Err(e);
            },
        }
        if d.data.len() != 49 {
            return Err(PolicyError::TypeMismatch);
        }
        let admin = Address::from_bytes(read_bytes(&d.data, 8, 32)).unwrap();
        let reward_amount = read_u64_le(&d.data, 40);
        let bump = *d.data.get(48).unwrap();
        Ok(Treasury { admin, reward_amount, bump })
    }
}

impl AdminConfig {
    /// Well-formed records carry a well-formed `admin` address.
    pub open spec fn wf(&self) -> bool {
        self.admin.wf()
    }

    /// The byte payload of this record: tag first, then the fields in order.
    pub open spec fn bytes_spec(&self) -> Seq<u8> {
        record_tag_spec(admin_config_name_spec()) + self.admin@ + seq![self.bump]
    }

    /// The 8-byte tag of the `AdminConfig` record type.
    pub fn type_tag() -> (r: Vec<u8>)
        ensures
            r@ == record_tag_spec(admin_config_name_spec()),
            r@.len() == 8,
    {
        record_tag(&admin_config_type_name())
    }

    /// Serialize this record, tag first.
    pub fn encode(&self) -> (r: Vec<u8>)
        requires
            self.wf(),
        ensures
            r@ == self.bytes_spec(),
            r@.len() == 41,
    {
        let mut out = AdminConfig::type_tag();
        push_bytes(&mut out, self.admin.as_bytes());
        out.push(self.bump);
        proof {
            assert(out@ =~= self.bytes_spec());
        }
        out
    }

    /// Decode a record from an account, applying the owner-match and
    /// discriminator-match rules before reading any field.
    pub fn decode(d: &AccountDescriptor, program: &Address) -> (r: Result<AdminConfig, PolicyError>)
        requires
            program.wf(),
        ensures
            r is Ok <==> crate::rules::owner_ok_spec(d, program@) && has_tag_spec(
                d.data@,
                record_tag_spec(admin_config_name_spec()),
            ) && d.data@.len() == 41,
            !crate::rules::owner_ok_spec(d, program@) ==> r == Err::<AdminConfig, PolicyError>(
                PolicyError::InvalidOwner,
            ),
            r matches Ok(v) ==> v.wf() && v.admin@ == d.data@.subrange(8, 40) && v.bump == d.data@[40],
            crate::rules::owner_ok_spec(d, program@) && !has_tag_spec(
                d.data@,
                record_tag_spec(admin_config_name_spec()),
            ) && untagged_spec(d.data@) ==> r == Err::<AdminConfig, PolicyError>(
                PolicyError::AccountNotInitialized,
            ),
            crate::rules::owner_ok_spec(d, program@) && !has_tag_spec(
                d.data@,
                record_tag_spec(admin_config_name_spec()),
            ) && !untagged_spec(d.data@) ==> r == Err::<AdminConfig, PolicyError>(
                PolicyError::TypeMismatch,
            ),
            crate::rules::owner_ok_spec(d, program@) && has_tag_spec(
                d.data@,
                record_tag_spec(admin_config_name_spec()),
            ) && d.data@.len() != 41 ==> r == Err::<AdminConfig, PolicyError>(
                PolicyError::TypeMismatch,
            ),
    {
        match check_owner(d, program) {
            Ok(()) => (),
            Err(e) => {
                return Err(e);
            },
        }
        let tag = AdminConfig::type_tag();
        match check_discriminator(&d.data, &tag) {
            Ok(()) => (),
            Err(e) => {
                return Err(e);
            },
        }
        if d.data.len() != 41 {
            return Err(PolicyError::TypeMismatch);
        }
        let admin = Address::from_bytes(read_bytes(&d.data, 8, 32)).unwrap();
        let bump = *d.data.get(40).unwrap();
        Ok(AdminConfig { admin, bump })
    }
}

impl RewardVault {
    /// Well-formed records carry a well-formed `authority` address.
    pub open spec fn wf(&self) -> bool {
        self.authority.wf()
    }

    /// The byte payload of this record: tag first, then the fields in order.
    pub open spec fn bytes_spec(&self) -> Seq<u8> {
        record_tag_spec(reward_vault_name_spec()) + self.authority@ + spec_u64_to_le_bytes(self.balance) + seq![self.bump]
    }

    /// The 8-byte tag of the `RewardVault` record type.
    pub fn type_tag() -> (r: Vec<u8>)
        ensures
            r@ == record_tag_spec(reward_vault_name_spec()),
            r@.len() == 8,
    {
        record_tag(&reward_vault_type_name())
    }

    /// Serialize this record, tag first.
    pub fn encode(&self) -> (r: Vec<u8>)
        requires
            self.wf(),
        ensures
            r@ == self.bytes_spec(),
            r@.len() == 49,
    {
        let mut out = RewardVault::type_tag();
        push_bytes(&mut out, self.authority.as_bytes());
        push_u64_le(&mut out, self.balance);
        out.push(self.bump);
        proof {
            assert(out@ =~= self.bytes_spec());
        }
        out
    }

    /// Decode a record from an account, applying the owner-match and
    /// discriminator-match rules before reading any field.
    pub fn decode(d: &AccountDescriptor, program: &Address) -> (r: Result<RewardVault, PolicyError>)
        requires
            program.wf(),
        ensures
            r is Ok <==> crate::rules::owner_ok_spec(d, program@) && has_tag_spec(
                d.data@,
                record_tag_spec(reward_vault_name_spec()),
            ) && d.data@.len() == 49,
            !crate::rules::owner_ok_spec(d, program@) ==> r == Err::<RewardVault, PolicyError>(
                PolicyError::InvalidOwner,
            ),
            r matches Ok(v) ==> v.wf() && v.authority@ == d.data@.subrange(8, 40) && v.balance == spec_u64_from_le_bytes(d.data@.subrange(40, 48)) && v.bump == d.data@[48],
            crate::rules::owner_ok_spec(d, program@) && !has_tag_spec(
                d.data@,
                record_tag_spec(reward_vault_name_spec()),
            ) && untagged_spec(d.data@) ==> r == Err::<RewardVault, PolicyError>(
                PolicyError::AccountNotInitialized,
            ),
            crate::rules::owner_ok_spec(d, program@) && !has_tag_spec(
                d.data@,
                record_tag_spec(reward_vault_name_spec()),
            ) && !untagged_spec(d.data@) ==> r == Err::<RewardVault, PolicyError>(
                PolicyError::TypeMismatch,
            ),
            crate::rules::owner_ok_spec(d, program@) && has_tag_spec(
                d.data@,
                record_tag_spec(reward_vault_name_spec()),
            ) && d.data@.len() != 49 ==> r == Err::<RewardVault, PolicyError>(
                PolicyError::TypeMismatch,
            ),
    {
        match check_owner(d, program) {
            Ok(()) => (),
            Err(e) => {
                return Err(e);
            },
        }
        let tag = RewardVault::type_tag();
        match check_discriminator(&d.data, &tag) {
            Ok(()) => (),
            Err(e) => {
                return Err(e);
            },
        }
        if d.data.len() != 49 {
            return Err(PolicyError::TypeMismatch);
        }
        let authority = Address::from_bytes(read_bytes(&d.data, 8, 32)).unwrap();
        let balance = read_u64_le(&d.data, 40);
        let bump = *d.data.get(48).unwrap();
        Ok(RewardVault { authority, balance, bump })
    }
}

impl UserProfile {
    /// Well-formed records carry a well-formed `owner` address.
    pub open spec fn wf(&self) -> bool {
        self.owner.wf()
    }

    /// The byte payload of this record: tag first, then the fields in order.
    pub open spec fn bytes_spec(&self) -> Seq<u8> {
        record_tag_spec(user_profile_name_spec()) + self.owner@ + spec_u64_to_le_bytes(self.points)
            + seq![self.bump]
    }

    /// The 8-byte tag of the `UserProfile` record type.
    pub fn type_tag() -> (r: Vec<u8>)
        ensures
            r@ == record_tag_spec(user_profile_name_spec()),
            r@.len() == 8,
    {
        record_tag(&user_profile_type_name())
    }

    /// Serialize this record, tag first.
    pub fn encode(&self) -> (r: Vec<u8>)
        requires
            self.wf(),
        ensures
            r@ == self.bytes_spec(),
            r@.len() == 49,
    {
        let mut out = UserProfile::type_tag();
        push_bytes(&mut out, self.owner.as_bytes());
        push_u64_le(&mut out, self.points);
        out.push(self.bump);
        proof {
            assert(out@ =~= self.bytes_spec());
        }
        out
    }

    /// Decode a record from an account, applying the owner-match and
    /// discriminator-match rules before reading any field.
    pub fn decode(d: &AccountDescriptor, program: &Address) -> (r: Result<UserProfile, PolicyError>)
        requires
            program.wf(),
        ensures
            r is Ok <==> crate::rules::owner_ok_spec(d, program@) && has_tag_spec(
                d.data@,
                record_tag_spec(user_profile_name_spec()),
            ) && d.data@.len() == 49,
            !crate::rules::owner_ok_spec(d, program@) ==> r == Err::<UserProfile, PolicyError>(
                PolicyError::InvalidOwner,
            ),
            r matches Ok(v) ==> v.wf() && v.owner@ == d.data@.subrange(8, 40) && v.points
                == spec_u64_from_le_bytes(d.data@.subrange(40, 48)) && v.bump == d.data@[48],
            crate::rules::owner_ok_spec(d, program@) && !has_tag_spec(
                d.data@,
                record_tag_spec(user_profile_name_spec()),
            ) && untagged_spec(d.data@) ==> r == Err::<UserProfile, PolicyError>(
                PolicyError::AccountNotInitialized,
            ),
            crate::rules::owner_ok_spec(d, program@) && !has_tag_spec(
                d.data@,
                record_tag_spec(user_profile_name_spec()),
            ) && !untagged_spec(d.data@) ==> r == Err::<UserProfile, PolicyError>(
                PolicyError::TypeMismatch,
            ),
            crate::rules::owner_ok_spec(d, program@) && has_tag_spec(
                d.data@,
                record_tag_spec(user_profile_name_spec()),
            ) && d.data@.len() != 49 ==> r == Err::<UserProfile, PolicyError>(
                PolicyError::TypeMismatch,
            ),
    {
        match check_owner(d, program) {
            Ok(()) => (),
            Err(e) => {
                return Err(e);
            },
        }
        let tag = UserProfile::type_tag();
        match check_discriminator(&d.data, &tag) {
            Ok(()) => (),
            Err(e) => {
                return Err(e);
            },
        }
        if d.data.len() != 49 {
            return Err(PolicyError::TypeMismatch);
        }
        let owner = Address::from_bytes(read_bytes(&d.data, 8, 32)).unwrap();
        let points = read_u64_le(&d.data, 40);
        let bump = *d.data.get(48).unwrap();
        Ok(UserProfile { owner, points, bump })
    }
}

impl ProfileTombstone {
    /// Well-formed records carry a well-formed `original_owner` address.
    pub open spec fn wf(&self) -> bool {
        self.original_owner.wf()
    }
}

impl WithdrawalRecord {
    /// Well-formed records carry a well-formed `user` address.
    pub open spec fn wf(&self) -> bool {
        self.user.wf()
    }
}

} // verus!
