//! A peer-to-peer atomic-swap settlement engine.
//!
//! Two parties exchange assets (native currency or fungible tokens) without
//! trusting each other.  Deposits are held by a pooled custodial vault, and a
//! persistent offer record is the sole source of truth for who is entitled to
//! what inside the vault.  Besides the plain intra-chain swap, the engine
//! supports two cross-chain flows in which one leg of the trade is escrowed on
//! a foreign chain and a relayer bridges state between the chains.
//!
//! The crate models the host ledger (balances of parties and vaults) as part
//! of the engine state, so every entry point is specified and verified as an
//! atomic transition: it either commits in full or leaves the state unchanged.

pub mod assets;
pub mod engine;
pub mod errors;
pub mod events;
pub mod ids;
pub mod laws;
pub mod ledger;
pub mod offers;
pub mod tables;
