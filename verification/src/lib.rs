//! A domain-name token registry.
//!
//! The library mints, transfers and burns ownership records for named
//! assets, enforces time-boxed ownership with a grace period before
//! reclamation, gates privileged mutations behind a two-tier authority
//! model (admins and maintainers), and resolves a registration price for
//! a name of a given length from either a fixed price or a tiered table.
//!
//! The hosting ledger environment (caller identification, block
//! timestamps, persistent storage, notification emission, asynchronous
//! cross-contract calls) stays outside: every operation takes the caller
//! address and the current time as plain arguments and returns the data
//! the host needs to act on.

use vstd::prelude::*;

pub mod authority;
pub mod common;
pub mod details;
pub mod nft;
pub mod price_oracle;
pub mod structs;

verus! {

/// An account address, reduced to its numeric identity. Addresses are
/// only ever compared for equality and collected into sets.
pub type Address = u64;

/// Every way an operation of this registry can be rejected. An error
/// aborts the requested operation; the callee's state is left unchanged.
#[derive(Clone, Copy, Debug, PartialEq, Eq, Structural)]
pub enum ContractError {
    /// A capability check failed: the caller lacks the required role.
    Unauthorized,
    /// No live token record exists under the given identifier.
    NotFound,
    /// A mint collided with a live record under the same identifier.
    AlreadyExists,
    /// The stored owner does not match the transfer's `from` and caller.
    NotOwner,
    /// A transfer batch entry carries an unsupported amount.
    InvalidAmount,
    /// A burn or transfer came before expiry and grace both elapsed.
    GracePeriodActive,
    /// A timestamp or duration addition would wrap the representation.
    DurationOverflow,
    /// A dynamic price configuration carries a non-positive base price.
    InvalidPrice,
    /// A dynamic price configuration carries an empty tier table.
    EmptyTierTable,
    /// The stored dynamic price table violates its validity rule.
    InvariantViolation,
    /// A payment token identifier is malformed.
    InvalidToken,
}

} // verus!
