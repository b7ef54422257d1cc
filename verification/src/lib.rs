//! Layered configuration for a command-line trading client.
//!
//! The effective configuration is built from three layers, in increasing
//! priority: built-in defaults, the values of an optional configuration
//! file, and the options that the user supplied on the command line.
//! Quantities given on the command line are read as exact decimals.

pub mod cli;
pub mod config_file;
pub mod configuration;
pub mod error;
pub mod layer;
pub mod nesting;
pub mod quantity;
