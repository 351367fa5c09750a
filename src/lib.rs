//! Accounting and risk engine for collateralised, leveraged liquidity positions.
//!
//! The library holds the records of the protocol (configuration, lending vault,
//! liquidity-provider and borrower positions, collateral risk parameters) and the
//! verified rules that move them. Every operation works on an in-memory copy of
//! the records it touches and either succeeds as a whole or leaves them untouched;
//! the host commits the copy only on success and performs the transfers and the
//! external market-maker calls that an operation hands back.
use vstd::prelude::*;

pub mod address;
pub mod amm;
pub mod errors;
pub mod instructions;
pub mod state;
pub mod utils;

pub use address::Address;
pub use errors::ProtocolError;
