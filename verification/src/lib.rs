//! Verified core of the CogniScribe desktop recorder: the sample arithmetic,
//! the capture-to-encoder hand-off and the session state machines, and the
//! decisions of the services around them.

pub mod audio;
pub mod model_downloader;
pub mod obs;
pub mod ollama_pull;
pub mod platform;
pub mod process_manager;
pub mod text;
