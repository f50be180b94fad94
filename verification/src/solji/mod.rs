//! The `sol_ji` program: temple, users, incense, lots, wishes and donations.
pub mod errors;
pub mod instructions;
pub mod laws;
pub mod randomness;
pub mod states;
