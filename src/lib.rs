//! Image analysis pipeline: images are decoded, fitted and re-encoded for a
//! vision backend, an instruction prompt is built for the requested output
//! format, and each backend's request and answer formats are handled, with
//! token usage accounted across requests.
pub mod errors;
pub mod imaging;
pub mod json;
pub mod options;
pub mod processor;
pub mod prompts;
pub mod providers;
pub mod stats;
pub mod text;
pub mod web;

pub use errors::ProcessorError;
pub use imaging::enhance_image;
pub use processor::ImageProcessor;
pub use prompts::{AnalysisConfig, ContentCategory, ImagePrompt, PromptFormat};
pub use providers::{AIProvider, TokenUsage};
pub use stats::TokenStats;
