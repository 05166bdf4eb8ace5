//! Evaluation of untrusted jq-like filters against JSON payloads inside a
//! resource-limited child process.

pub mod config;
pub mod decimal;
pub mod engine;
pub mod error;
pub mod limits;
pub mod reaper;
pub mod supervisor;
pub mod wire;

pub use config::SafeJaq;
pub use wire::{EvaluationRequest, EvaluationResult};
pub use error::SafeJaqError;
