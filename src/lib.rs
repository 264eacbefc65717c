//! A ledger of collectible kitties: minting, breeding with recorded lineage,
//! ownership transfer and a fixed-price marketplace, with every handler
//! all-or-nothing.

pub mod types;
pub mod dna;
pub mod currency;
pub mod pallet;
pub mod offchain;
pub mod lemmas;
