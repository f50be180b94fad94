//! The `temple` program: incense, fortunes, the shop, donations, medals and
//! the Buddha NFT.
pub mod errors;
pub mod fortune;
pub mod config;
pub mod shop;
pub mod incense;
pub mod donation;
pub mod amulet;
pub mod laws;
pub mod admin;
pub mod state;
