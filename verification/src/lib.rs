//! Supervision logic for converting media files with the FFmpeg command-line
//! tools: format policy, progress tracking, job bookkeeping and the
//! interpretation of what the tools report.
//!
//! Nothing here touches a file or a process. The caller looks, launches and
//! waits, and hands over what it found; the library decides.

pub mod text;
pub mod seconds;
pub mod types;
pub mod error;
pub mod conversion_settings;
pub mod progress;
pub mod job;
pub mod registry;
pub mod encoder;
pub mod conversion;
pub mod path;
pub mod ffmpeg;
pub mod settings;
pub mod json;
pub mod metadata;

pub use types::{ConversionOptions, ConversionProgress, ConversionResult, FileMetadata, Phase};
