//! A stake house on Soroban: participants who join, an owner who authorizes the
//! house to move the native asset, and allowances by which a spender moves an
//! owner's funds through the asset's own contract.
//!
//! The crate decides; it does not keep anything. [`Contract`] is the whole
//! state as a value, and each operation on it says in its contract what the
//! state is afterwards and when the operation is refused. Loading and storing
//! the state, authenticating callers and publishing events are left to the
//! Soroban contract that is built around this crate.
//!
//! - [`ledger`] keeps the allowances.
//! - [`stake_house`] keeps the participants and the owner's authorization.
//! - [`gateway`] reads what the asset contract replies.
//! - [`distribution`] divides a pool among the participants.
//! - [`contract`] puts them together.
//! - [`host`] states what is assumed of the Soroban host.

pub mod contract;
pub mod distribution;
pub mod error;
pub mod gateway;
pub mod host;
pub mod ledger;
pub mod stake_house;

pub use contract::Contract;
pub use error::Error;
pub use ledger::AllowanceLedger;
pub use stake_house::StakeHouse;
