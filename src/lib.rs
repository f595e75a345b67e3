//! A small price-feed program: renders oracle prices as fixed-point decimals
//! and keeps the latest price in a state account's 16-byte record.

pub mod decimal;
pub mod error;
pub mod oracle;
pub mod processor;
pub mod record;

pub use decimal::Decimal;
pub use error::ProcessError;
pub use processor::{process_instruction, Account};
pub use record::PriceFeedAccount;
