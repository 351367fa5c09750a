//! Maintaining the protocol's own price feeds.
pub mod initialize_mock_oracle;
pub mod update_mock_oracle;
