//! The program's instructions, each a function of the accounts it reads and
//! writes.
pub mod donate;
pub mod draw_lots;
pub mod incense_burn;
pub mod incense_config;
pub mod nft_mint;
pub mod temple;
pub mod user;
pub mod wish;
