//! Account state of the `sol_ji` program and the rules that update it.
pub mod temple;
pub mod incense_config;
pub mod user;
pub mod donate;
pub mod draw_lots;
pub mod nft_mint;
pub mod wish;
