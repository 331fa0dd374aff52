pub mod chain;
pub mod keys;
pub mod orchestrator;
pub mod poll;
pub mod retry;
pub mod txbuild;
pub mod utils;
