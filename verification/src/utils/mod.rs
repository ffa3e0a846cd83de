//! Errors and the text helpers that the rest of the crate builds on.
pub mod decimal;
pub mod error;
pub mod text;

pub use error::ObsError;
