//! OBS Studio integration: detection, configuration and installation
//! decisions for recording through OBS.

pub mod config_writer;
pub mod detector;
pub mod error;
pub mod installer;
pub mod manager;
pub mod types;
