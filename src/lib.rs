//! Upgrades a Godot Rust CLI library's configuration through the historical
//! schema versions, one step at a time.
//!
//! The configuration directory is modelled by the contents of its canonical
//! files ([`config::ConfigFiles`]); reading and writing those files is left to
//! the caller.
pub mod config;
pub mod formats;
pub mod upgrade;
pub mod version;
