use ffmpeg_converter::settings::{SettingsCommand, SettingsError, SettingsStep};
use ffmpeg_converter::types::{
    clone_opt, ConversionOptions, ConversionProgress, ConversionResult, FileMetadata, Phase,
};

#[test]
fn phases_have_names() {
    assert_eq!(Phase::Starting.name(), "Starting");
    assert_eq!(Phase::Converting.name(), "Converting");
    assert_eq!(Phase::Cancelling.name(), "Cancelling");
    assert_eq!(Phase::Completed.name(), "Completed");
    assert_eq!(Phase::Failed.name(), "Failed");
    assert_eq!(Phase::Cancelled.name(), "Cancelled");
}

#[test]
fn three_phases_are_final() {
    assert!(!Phase::Starting.ended());
    assert!(!Phase::Converting.ended());
    assert!(!Phase::Cancelling.ended());
    assert!(Phase::Completed.ended());
    assert!(Phase::Failed.ended());
    assert!(Phase::Cancelled.ended());
}

#[test]
fn records_can_be_copied() {
    let record = ConversionProgress {
        id: "job".to_string(),
        progress: 1_234,
        status: Phase::Converting,
        current_file: "in.mov".to_string(),
        output_path: Some("out.mp4".to_string()),
        eta: Some(9),
        speed: Some(125),
    };
    let copy = record.clone();
    assert_eq!(copy.id, "job");
    assert_eq!(copy.progress, 1_234);
    assert_eq!(copy.status, Phase::Converting);
    assert_eq!(copy.current_file, "in.mov");
    assert_eq!(copy.output_path.as_deref(), Some("out.mp4"));
    assert_eq!(copy.eta, Some(9));
    assert_eq!(copy.speed, Some(125));

    let result = ConversionResult {
        id: "job".to_string(),
        success: false,
        output_path: None,
        error: Some("broken".to_string()),
    };
    let copy = result.clone();
    assert_eq!(copy.id, "job");
    assert!(!copy.success);
    assert_eq!(copy.output_path, None);
    assert_eq!(copy.error.as_deref(), Some("broken"));

    let options = ConversionOptions {
        output_format: "webm".to_string(),
        quality: "low".to_string(),
        output_dir: Some("/out".to_string()),
        preserve_metadata: true,
    };
    let copy = options.clone();
    assert_eq!(copy.output_format, "webm");
    assert_eq!(copy.quality, "low");
    assert_eq!(copy.output_dir.as_deref(), Some("/out"));
    assert!(copy.preserve_metadata);

    let metadata = FileMetadata {
        dimensions: Some("1x2".to_string()),
        duration: None,
        bitrate: Some("3 kbps".to_string()),
        codec: None,
        format: Some("avi".to_string()),
        size: Some(4),
    };
    let copy = metadata.clone();
    assert_eq!(copy.dimensions.as_deref(), Some("1x2"));
    assert_eq!(copy.duration, None);
    assert_eq!(copy.bitrate.as_deref(), Some("3 kbps"));
    assert_eq!(copy.codec, None);
    assert_eq!(copy.format.as_deref(), Some("avi"));
    assert_eq!(copy.size, Some(4));

    assert_eq!(clone_opt(&Some("x".to_string())), Some("x".to_string()));
    assert_eq!(clone_opt(&None), None);
}

#[test]
fn settings_error_messages() {
    let detail = "permission denied".to_string();
    for (step, expected) in [
        (SettingsStep::FindDirectory, "Failed to get app data directory: permission denied"),
        (SettingsStep::CreateDirectory, "Failed to create app data directory: permission denied"),
        (SettingsStep::ReadFile, "Failed to read settings file: permission denied"),
        (SettingsStep::WriteFile, "Failed to write settings file: permission denied"),
    ] {
        let error = SettingsError::Io { step, detail: detail.clone() };
        assert_eq!(error.message(), expected);
    }
    assert_eq!(
        SettingsError::Parse("expected value at line 1 column 1".to_string()).message(),
        "Failed to parse settings file: expected value at line 1 column 1"
    );
    assert_eq!(
        SettingsError::Serialize("key must be a string".to_string()).message(),
        "Failed to serialize settings: key must be a string"
    );
}

#[test]
fn settings_errors_are_reported_by_command() {
    let error = SettingsError::Io { step: SettingsStep::ReadFile, detail: "gone".to_string() };
    assert_eq!(
        error.report(SettingsCommand::Load),
        "Failed to load settings: Failed to read settings file: gone"
    );
    let error = SettingsError::Io { step: SettingsStep::WriteFile, detail: "full".to_string() };
    assert_eq!(
        error.report(SettingsCommand::Save),
        "Failed to save settings: Failed to write settings file: full"
    );
    assert_eq!(
        error.report(SettingsCommand::Reset),
        "Failed to save default settings: Failed to write settings file: full"
    );
}
