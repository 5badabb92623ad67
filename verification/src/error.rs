//! What can go wrong, and how it is told.

use vstd::prelude::*;
use crate::text::{str_contains, trim, trimmed, occurs_in};

verus! {

/// Why the encoder gave up, as far as its error text tells.
#[derive(Clone, Copy, Debug, PartialEq, Eq, Structural)]
pub enum FailureReason {
    InputInaccessible,
    PermissionDenied,
    UnsupportedCodec,
    Unknown,
}

/// Whether the encoder's error text holds the phrase.
pub open spec fn mentions(stderr: Seq<char>, phrase: Seq<char>) -> bool {
    occurs_in(vstd::utf8::encode_utf8(phrase), vstd::utf8::encode_utf8(stderr))
}

/// The reason that an error text stands for. Where several phrases occur, a
/// missing input takes precedence over a refused permission, and that over an
/// unsupported codec.
pub open spec fn failure_reason(stderr: Seq<char>) -> FailureReason {
    if mentions(stderr, "No such file or directory"@) {
        FailureReason::InputInaccessible
    } else if mentions(stderr, "Permission denied"@) {
        FailureReason::PermissionDenied
    } else if mentions(stderr, "Invalid argument"@) || mentions(stderr, "Unknown encoder"@) {
        FailureReason::UnsupportedCodec
    } else {
        FailureReason::Unknown
    }
}

/// The sentence shown for a reason.
pub open spec fn reason_text(reason: FailureReason) -> Seq<char> {
    match reason {
        FailureReason::InputInaccessible => "Input file not found or inaccessible"@,
        FailureReason::PermissionDenied => "Permission denied - check file/directory permissions"@,
        FailureReason::UnsupportedCodec => "Invalid FFmpeg arguments or unsupported codec"@,
        FailureReason::Unknown => "General FFmpeg error"@,
    }
}

/// Reads the reason out of the encoder's error text.
pub fn classify_failure(stderr: &str) -> (reason: FailureReason)
    ensures
        reason == failure_reason(stderr@),
{
    if str_contains(stderr, "No such file or directory") {
        FailureReason::InputInaccessible
    } else if str_contains(stderr, "Permission denied") {
        FailureReason::PermissionDenied
    } else if str_contains(stderr, "Invalid argument") || str_contains(stderr, "Unknown encoder") {
        FailureReason::UnsupportedCodec
    } else {
        FailureReason::Unknown
    }
}

impl FailureReason {
    /// The sentence shown for the reason.
    pub fn describe(self) -> (text: &'static str)
        ensures
            text@ == reason_text(self),
    {
        match self {
            FailureReason::InputInaccessible => "Input file not found or inaccessible",
            FailureReason::PermissionDenied => "Permission denied - check file/directory permissions",
            FailureReason::UnsupportedCodec => "Invalid FFmpeg arguments or unsupported codec",
            FailureReason::Unknown => "General FFmpeg error",
        }
    }
}

/// Why a conversion did not produce its output.
#[derive(Debug)]
pub enum ConversionError {
    /// The source file was not there when the job began.
    InputMissing(String),
    /// The target format is none of `mp4`, `webm`, `avi`, `mov`.
    UnsupportedFormat(String),
    /// The encoder could not be launched; holds what the system said.
    SpawnFailed(String),
    /// Waiting for the encoder failed; holds what the system said.
    WaitFailed(String),
    /// The encoder ran and reported failure.
    EncodingFailed { exit_code: Option<i32>, reason: FailureReason, stderr: String },
    /// The encoder reported success and left no file behind.
    OutputMissing(String),
    /// The encoder reported success and left an empty file.
    OutputEmpty(String),
}

/// What a [`ConversionError`] holds, as plain text.
pub enum ConversionErrorView {
    InputMissing(Seq<char>),
    UnsupportedFormat(Seq<char>),
    SpawnFailed(Seq<char>),
    WaitFailed(Seq<char>),
    EncodingFailed { exit_code: Option<i32>, reason: FailureReason, stderr: Seq<char> },
    OutputMissing(Seq<char>),
    OutputEmpty(Seq<char>),
}

impl View for ConversionError {
    type V = ConversionErrorView;

    open spec fn view(&self) -> ConversionErrorView {
        match self {
            ConversionError::InputMissing(path) => ConversionErrorView::InputMissing(path@),
            ConversionError::UnsupportedFormat(format) => ConversionErrorView::UnsupportedFormat(
                format@,
            ),
            ConversionError::SpawnFailed(detail) => ConversionErrorView::SpawnFailed(detail@),
            ConversionError::WaitFailed(detail) => ConversionErrorView::WaitFailed(detail@),
            ConversionError::EncodingFailed { exit_code, reason, stderr } => {
                ConversionErrorView::EncodingFailed {
                    exit_code: *exit_code,
                    reason: *reason,
                    stderr: stderr@,
                }
            },
            ConversionError::OutputMissing(path) => ConversionErrorView::OutputMissing(path@),
            ConversionError::OutputEmpty(path) => ConversionErrorView::OutputEmpty(path@),
        }
    }
}

/// The message of an error, as a person reads it.
pub open spec fn error_message(error: ConversionErrorView) -> Seq<char> {
    match error {
        ConversionErrorView::InputMissing(path) => "Input file does not exist: "@ + path,
        ConversionErrorView::UnsupportedFormat(format) => "Unsupported output format: '"@ + format
            + "'. Supported formats: mp4, webm, avi, mov"@,
        ConversionErrorView::SpawnFailed(detail) => "Failed to start FFmpeg process: "@ + detail,
        ConversionErrorView::WaitFailed(detail) => "FFmpeg process failed to complete: "@ + detail,
        ConversionErrorView::EncodingFailed { exit_code, reason, stderr } =>
            "FFmpeg conversion failed: "@ + reason_text(reason) + " - "@ + trimmed(stderr),
        ConversionErrorView::OutputMissing(path) => "Output file was not created: "@ + path,
        ConversionErrorView::OutputEmpty(path) => "Output file is empty: "@ + path,
    }
}

impl ConversionError {
    /// The message of the error, as a person reads it.
    pub fn message(&self) -> (text: String)
        ensures
            text@ == error_message(self@),
    {
        match self {
            ConversionError::InputMissing(path) => {
                String::from_str("Input file does not exist: ").concat(path.as_str())
            },
            ConversionError::UnsupportedFormat(format) => {
                String::from_str("Unsupported output format: '").concat(format.as_str()).concat(
                    "'. Supported formats: mp4, webm, avi, mov",
                )
            },
            ConversionError::SpawnFailed(detail) => {
                String::from_str("Failed to start FFmpeg process: ").concat(detail.as_str())
            },
            ConversionError::WaitFailed(detail) => {
                String::from_str("FFmpeg process failed to complete: ").concat(detail.as_str())
            },
            ConversionError::EncodingFailed { exit_code, reason, stderr } => {
                String::from_str("FFmpeg conversion failed: ").concat(reason.describe()).concat(
                    " - ",
                ).concat(trim(stderr.as_str()))
            },
            ConversionError::OutputMissing(path) => {
                String::from_str("Output file was not created: ").concat(path.as_str())
            },
            ConversionError::OutputEmpty(path) => {
                String::from_str("Output file is empty: ").concat(path.as_str())
            },
        }
    }
}

} // verus!
