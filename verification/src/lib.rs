//! A verified model of an NFT marketplace program: marketplaces that take a
//! fee on every sale, listings that hold an asset in escrow, and offers that
//! hold lamports in a vault until they are rejected or withdrawn, either of
//! which gives them back to the offer's maker.

pub mod state;
pub mod fees;
pub mod error;
pub mod pda;
pub mod effects;
pub mod constraints;
pub mod instructions;
pub mod nft_marketplace;
pub mod laws;
