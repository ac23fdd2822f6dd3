//! Model catalogue, local model discovery and the decision logic that drives
//! the local `llama-server` process of the meeting summariser.
//!
//! Everything that touches the file system, the network, the clock or the
//! Tauri runtime lives outside this crate; the functions here take the
//! observations made there as plain values and say exactly what follows.
pub mod text;
pub mod file_names;
pub mod model_download;
pub mod download;
pub mod local_models;
pub mod inference;
pub mod server_wait;
