//! The operations of the protocol. Each works on a context that holds copies
//! of the records it reads and writes; on failure the context is unchanged.
pub mod open_position;
pub mod close_position;
pub mod liquidate;
pub mod supply;
pub mod withdraw;
pub mod deposit_collateral;
pub mod deposit_sol_collateral;
pub mod deposit_token_collateral;
pub mod withdraw_collateral;
pub mod initialize;
pub mod initialize_lending_vault;
pub mod register_collateral;
pub mod update_config;
pub mod mock;
