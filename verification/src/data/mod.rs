//! Settings and data that are handed to libobs.
pub mod audio;
pub mod output;
pub mod properties;
pub mod updater;
pub mod video;
