//! Native audio capture: from device frames to 16-bit mono samples.

pub mod capture;
pub mod channel;
pub mod controller;
pub mod encoder;
pub mod error;
mod flags;
pub mod processor;
pub mod recorder;
pub mod sample;
