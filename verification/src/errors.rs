//! The consolidated error taxonomy.
//!
//! Every rule failure and every arithmetic failure is reported to the
//! immediate caller as one of these typed values; nothing panics, nothing is
//! retried and nothing is silently recovered.

use vstd::prelude::*;

verus! {

/// One tag per failure class: validation-rule failures first, then the
/// checked-arithmetic failures.
#[derive(Clone, Copy, Debug, PartialEq, Eq, Structural)]
pub enum PolicyError {
    /// The account that must authorize the call did not sign it.
    MissingSignature,
    /// The signer is not the record's designated authority.
    Unauthorized,
    /// The account's storage owner is not the expected program.
    InvalidOwner,
    /// The account data carries the tag of a different record type.
    TypeMismatch,
    /// The account data carries no record tag at all.
    AccountNotInitialized,
    /// The claimed program-derived address or bump does not re-derive.
    InvalidPDA,
    /// The callee account is not the expected executable program.
    InvalidProgram,
    /// The token account's authority is not the expected owner.
    TokenAccountOwnerMismatch,
    /// The target address already holds an initialized record.
    AlreadyInitialized,
    /// A close left lamports, data bytes or the storage owner behind.
    IncompleteClose,
    /// An addition or multiplication exceeded the 64-bit range.
    Overflow,
    /// A subtraction went below zero.
    InsufficientFunds,
    /// A division had divisor zero.
    DivisionByZero,
    /// A narrowing cast would have truncated the value.
    CastOverflow,
}

impl PolicyError {
    /// The human-readable message paired with the machine-readable tag.
    pub fn message(&self) -> &'static str {
        match self {
            PolicyError::MissingSignature => "required signature is missing",
            PolicyError::Unauthorized => "signer is not the designated authority",
            PolicyError::InvalidOwner => "account owner validation failed",
            PolicyError::TypeMismatch => "account type mismatch",
            PolicyError::AccountNotInitialized => "account is not initialized",
            PolicyError::InvalidPDA => "program derived address mismatch",
            PolicyError::InvalidProgram => "invalid program for invocation",
            PolicyError::TokenAccountOwnerMismatch => "token account does not belong to user",
            PolicyError::AlreadyInitialized => "account is already initialized",
            PolicyError::IncompleteClose => "account close left state behind",
            PolicyError::Overflow => "arithmetic overflow",
            PolicyError::InsufficientFunds => "insufficient funds",
            PolicyError::DivisionByZero => "division by zero",
            PolicyError::CastOverflow => "value too large for target type",
        }
    }
}

} // verus!
