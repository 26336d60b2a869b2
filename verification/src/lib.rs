//! Token-sale venue: fixed-price, bonding-curve and auction sales over a
//! ledger record, with checked fixed-point pricing and a bounded per-wallet
//! purchase table.

pub mod amm_cp;
pub mod authority;
pub mod bpf_sort;
pub mod curve;
pub mod decimals;
pub mod errors;
pub mod fee_router;
pub mod fees;
pub mod keccak;
pub mod launchpad;
pub mod merkle;
pub mod pubkey;
pub mod staking;
pub mod time;
pub mod vesting;
