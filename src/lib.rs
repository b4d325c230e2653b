//! A single-validator liquid staking pool: exchange-rate arithmetic, derived
//! pool addresses and their validation, and the decisions that each pool
//! instruction takes between its calls into the stake and token programs.

pub mod address;
pub mod cookies;
pub mod error;
pub mod math;
pub mod mint;
pub mod processor;
pub mod resolution_error;
pub mod stake;
pub mod token;
pub mod vote;
