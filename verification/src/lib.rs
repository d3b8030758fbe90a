//! A capped, one-per-identity license ledger for a Solana program.
//!
//! The ledger counts the licenses issued against a fixed cap and remembers
//! who holds one. An issuance checks the ledger, enters the new holder,
//! and only then orders the token and its metadata from the two programs
//! that provide them; where either refuses, the ledger is put back as it
//! was.

pub mod address;
pub mod defaults;
pub mod error;
pub mod identity;
pub mod issuance;
pub mod laws;
pub mod orders;
pub mod record;
pub mod state;

pub use crate::defaults::{update_default_image_uri, update_default_provenance_cid};
pub use crate::issuance::mint_license;
pub use crate::record::{get_nft_metadata, get_provenance_trait};
pub use crate::state::{get_supply_info, has_license, initialize};
