//! A conditional-vault escrow engine for futarchy-style governance.
//!
//! Members submit proposals. A proposal has two branches, pass and fail,
//! and a branch has a vault for each underlying asset. Who deposits into a
//! vault gets the same amount of the vault's claim asset and a slip over
//! the deposit. Once the proposal is resolved, the claims of the branch
//! that it resolved to are redeemed for the underlying asset, and the
//! slips of the other branch are.
//!
//! `state`, `token` and `registry` hold the records; `deposit`, `redeem`,
//! `setup` and `proposal` hold the operations on the records of one call;
//! `engine` keeps all records and runs the operations on them; `model`
//! says what each operation does, and `laws` what holds of them together.

pub mod address;
pub mod deposit;
pub mod engine;
pub mod error;
pub mod history;
pub mod laws;
pub mod model;
pub mod pda;
pub mod preservation;
pub mod proposal;
pub mod redeem;
pub mod registry;
pub mod setup;
pub mod state;
pub mod sums;
pub mod table;
pub mod token;
pub mod vault;
