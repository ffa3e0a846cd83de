//! Verified core of a wrapper around libobs, the library behind OBS Studio.
//!
//! The modules here hold the decisions and conversions of the wrapper: the
//! numeric values of libobs enumerations, version checks, option builders,
//! the names of encoders and the outcome of output operations.
//! Everything that talks to libobs itself lives outside this crate.

pub mod enums;
pub mod logger;
pub mod bootstrap;
pub mod context;
pub mod crash_handler;
pub mod data;
pub mod display;
pub mod encoders;
pub mod utils;
