//! Verified account-model security rules.
//!
//! The crate pairs a checked-arithmetic library, an account-descriptor model
//! and a set of independent validation rules (signer presence, owner match,
//! discriminator match, program-derived-address match, executable match,
//! token-ownership match, no-reinitialization, close completeness) with
//! seven groups of instruction handlers. Each group shows a vulnerable
//! handler next to its secure counterpart; the contracts state exactly which
//! checks each variant performs and how it mutates state.

pub mod account_validation;
pub mod arbitrary_cpi;
pub mod closing_accounts;
pub mod codec;
pub mod descriptor;
pub mod discriminator;
pub mod errors;
pub mod integer_overflow;
pub mod missing_signer_check;
pub mod pda;
pub mod records;
pub mod reinitialization;
pub mod rules;
pub mod safe_math;
pub mod type_cosplay;
