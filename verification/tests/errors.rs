use ffmpeg_converter::error::{classify_failure, ConversionError, FailureReason};

#[test]
fn failures_are_classified_by_phrase() {
    assert_eq!(
        classify_failure("in.mov: No such file or directory"),
        FailureReason::InputInaccessible
    );
    assert_eq!(classify_failure("out.mp4: Permission denied"), FailureReason::PermissionDenied);
    assert_eq!(
        classify_failure("Error opening output: Invalid argument"),
        FailureReason::UnsupportedCodec
    );
    assert_eq!(classify_failure("Unknown encoder 'x'"), FailureReason::UnsupportedCodec);
    assert_eq!(classify_failure("Conversion failed!"), FailureReason::Unknown);
    assert_eq!(classify_failure(""), FailureReason::Unknown);
    assert_eq!(classify_failure("no such file or directory"), FailureReason::Unknown);
}

#[test]
fn the_first_phrase_in_rank_decides() {
    assert_eq!(
        classify_failure("Permission denied\nNo such file or directory"),
        FailureReason::InputInaccessible
    );
    assert_eq!(
        classify_failure("Unknown encoder\nPermission denied"),
        FailureReason::PermissionDenied
    );
    assert_eq!(
        classify_failure("Conversion failed!\nInvalid argument"),
        FailureReason::UnsupportedCodec
    );
}

#[test]
fn reasons_are_described() {
    assert_eq!(
        FailureReason::InputInaccessible.describe(),
        "Input file not found or inaccessible"
    );
    assert_eq!(
        FailureReason::PermissionDenied.describe(),
        "Permission denied - check file/directory permissions"
    );
    assert_eq!(
        FailureReason::UnsupportedCodec.describe(),
        "Invalid FFmpeg arguments or unsupported codec"
    );
    assert_eq!(FailureReason::Unknown.describe(), "General FFmpeg error");
}

#[test]
fn conversion_error_messages() {
    assert_eq!(
        ConversionError::InputMissing("/a b/c.mov".to_string()).message(),
        "Input file does not exist: /a b/c.mov"
    );
    assert_eq!(
        ConversionError::UnsupportedFormat("flv".to_string()).message(),
        "Unsupported output format: 'flv'. Supported formats: mp4, webm, avi, mov"
    );
    assert_eq!(
        ConversionError::SpawnFailed("No such file or directory (os error 2)".to_string())
            .message(),
        "Failed to start FFmpeg process: No such file or directory (os error 2)"
    );
    assert_eq!(
        ConversionError::WaitFailed("broken pipe".to_string()).message(),
        "FFmpeg process failed to complete: broken pipe"
    );
    assert_eq!(
        ConversionError::OutputMissing("out.mp4".to_string()).message(),
        "Output file was not created: out.mp4"
    );
    assert_eq!(
        ConversionError::OutputEmpty("out.mp4".to_string()).message(),
        "Output file is empty: out.mp4"
    );
}

#[test]
fn the_encoder_s_error_text_is_trimmed_in_the_message() {
    let error = ConversionError::EncodingFailed {
        exit_code: Some(1),
        reason: FailureReason::Unknown,
        stderr: " \t\r\n something broke \u{a0}\u{2003}\n".to_string(),
    };
    assert_eq!(
        error.message(),
        "FFmpeg conversion failed: General FFmpeg error - something broke"
    );
    let error = ConversionError::EncodingFailed {
        exit_code: None,
        reason: FailureReason::InputInaccessible,
        stderr: "\n\n".to_string(),
    };
    assert_eq!(
        error.message(),
        "FFmpeg conversion failed: Input file not found or inaccessible - "
    );
    let error = ConversionError::EncodingFailed {
        exit_code: None,
        reason: FailureReason::Unknown,
        stderr: "a \u{200b} b".to_string(),
    };
    assert_eq!(error.message(), "FFmpeg conversion failed: General FFmpeg error - a \u{200b} b");
}
