//! A rental-deposit escrow between a tenant and a landlord.
//!
//! The vault keeps one lease record and the balance held for it, and moves the
//! lease through its lifecycle: the tenant pays the deposit, the landlord
//! confirms that the tenant has moved in, and the deposit is released when the
//! lease ends. Every operation is a total function with a contract over the
//! mathematical model in [`model`]; proving who a caller is and keeping the
//! vault between calls are left to the surrounding program.

pub mod identity;
pub mod laws;
pub mod lease;
pub mod model;
pub mod vault;

pub use identity::Identity;
pub use lease::{DataKey, LeaseError, LeaseInfo, LeaseRecord, LeaseState};
pub use model::VaultState;
pub use vault::LeaseVault;
