//! Economic invariants of a share-based vault.
//!
//! The crate models a share/asset vault state machine, a basis-point transfer
//! fee with a cap and ceiling rounding, an inflation-attack scenario composed
//! from those primitives, and a ledger-account resource model with explicit
//! aliasing.  The operations carry exact contracts, and the cross-operation
//! invariants (solvency, no-dilution, fixed exchange rate, fee monotonicity,
//! the attacker's profit bound) are stated and proved as lemmas.

pub mod account;
pub mod arith;
pub mod fee;
pub mod fee_ceil;
pub mod fee_floor;
pub mod inflation;
pub mod some_fee;
pub mod vault;
pub mod very_simple_fee;
