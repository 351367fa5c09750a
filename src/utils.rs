//! Pure numeric and price helpers shared by the operations.
pub mod health;
pub mod oracle;
