//! A charitable-marketplace ledger: vetted NGOs and sellers exchange
//! category-scoped donation tokens for goods, with staking-gated onboarding,
//! a governance-approved allow-list, and an escrow-backed settlement engine.
//!
//! The crate is organised after the ledger's components:
//! - [`balances`]: the native-currency backend (free/reserved balances,
//!   existential deposit, keep-alive transfers, staking reserves).
//! - [`assets`]: the category-token backend (per-asset balances, mint, burn,
//!   transfer with a minimum-balance policy).
//! - [`participant_handler`]: two-phase onboarding (waiting then active) of
//!   NGOs and sellers, gated by identity verification and a staked deposit.
//! - [`donation_handler`]: donation intake (currency to escrow, token mint)
//!   and token claims (token burn, escrow payout), plus the direct token
//!   transfer used by escrow-free sales.
//! - [`marketplace`]: product listings and atomic purchases settled through
//!   the donation handler.
//! - [`xcm_helper`]: the cross-chain asset bridge, mapping external locations
//!   to local asset identifiers and driving the same two backends.
//! - [`hashing`]: the content-addressed identifier derivation shared by the
//!   marketplace and the bridge.

pub mod assets;
pub mod balances;
pub mod donation_handler;
pub mod hashing;
pub mod marketplace;
pub mod participant_handler;
pub mod xcm_helper;

pub use hashing::keccak_256;
