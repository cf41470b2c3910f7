//! Core logic of a local speech-transcription service: resilient chunked
//! inference, the single-slot engine cache and its load coordination, and the
//! decisions of the worker-process adapter.
pub mod chunking;
pub mod languages;
pub mod model_slot;
pub mod probe;
pub mod repo_status;
pub mod sidecar;
pub mod text;
