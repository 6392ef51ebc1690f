//! An escrow custodian: a record binds funds to a single operator, and every
//! movement of native currency or tokens out of the escrow is gated on that
//! operator's signature.
//!
//! The ledger itself (balances, token accounts, the token program) stays
//! outside: native balances are handed in by `&mut`, and each token operation
//! is split into a request that the caller submits to the ledger and a
//! settlement of the ledger's answer.
//!
//! Two programs share the guard and the transfer engine: `bridge`, whose record
//! names only its operator, and `scoped`, whose record also names the one
//! program allowed to act on it.

pub mod bridge;
pub mod distribution;
pub mod error;
pub mod guard;
pub mod identity;
pub mod scoped;

pub use distribution::{AuthorityChange, TokenTransfer};
pub use error::CustomError;
pub use identity::Identity;
