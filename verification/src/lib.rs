pub mod account;
pub mod cli;
pub mod codec;
pub mod error;
pub mod instruction;
pub mod laws;
pub mod pda;
pub mod processor;
pub mod state;
