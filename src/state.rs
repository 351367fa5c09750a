//! The persistent records of the protocol.
pub mod mock_oracle;
pub mod lending_vault;
pub mod config;
pub mod lp_position;
pub mod position;
