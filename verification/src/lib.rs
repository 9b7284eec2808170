//! A two-asset automated market maker: a market is created from two
//! fungible-asset pools and then exchanges one asset for the other along a
//! constant-product curve, while a shadow ledger keeps the authoritative
//! reserves out of reach of tampering with the live pool balances.
//!
//! The core is pure: the processor validates an untrusted account list
//! against recomputed address derivations, runs the checked 128-bit swap
//! arithmetic with pool-favoring rounding, and answers with the exact
//! requests (account creations, transfers, the persisted ledger) that a
//! host must perform — or with the first broken rule, in which case nothing
//! is requested at all.

pub mod addr;
pub mod error;
pub mod instruction;
pub mod pda;
pub mod processor;
pub mod state;
pub mod swap;
