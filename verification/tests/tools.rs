use ffmpeg_converter::ffmpeg::{check_ffmpeg_availability, version_arguments};
use ffmpeg_converter::path::{
    ffmpeg_name, ffmpeg_path, ffprobe_name, ffprobe_path, get_binary_path, open_failure,
    open_file_location, Platform, SidecarProbe,
};

#[test]
fn a_bundled_tool_is_preferred() {
    assert_eq!(
        ffmpeg_path(SidecarProbe::Found("/opt/app/ffmpeg".to_string())),
        "/opt/app/ffmpeg"
    );
    assert_eq!(
        ffprobe_path(SidecarProbe::Found("C:\\app\\ffprobe.exe".to_string())),
        "C:\\app\\ffprobe.exe"
    );
    assert_eq!(get_binary_path("sox", SidecarProbe::Found("/x/sox".to_string())), "/x/sox");
}

#[test]
fn the_system_s_tool_is_the_fallback() {
    assert_eq!(ffmpeg_path(SidecarProbe::Absent("/opt/app/ffmpeg".to_string())), "ffmpeg");
    assert_eq!(ffmpeg_path(SidecarProbe::Unknown), "ffmpeg");
    assert_eq!(ffprobe_path(SidecarProbe::Absent("/opt/app/ffprobe".to_string())), "ffprobe");
    assert_eq!(ffprobe_path(SidecarProbe::Unknown), "ffprobe");
    assert_eq!(get_binary_path("sox", SidecarProbe::Unknown), "sox");
    assert_eq!(ffmpeg_name(), "ffmpeg");
    assert_eq!(ffprobe_name(), "ffprobe");
}

#[test]
fn both_tools_must_answer() {
    assert!(check_ffmpeg_availability(Some(true), Some(true)));
    assert!(!check_ffmpeg_availability(Some(true), Some(false)));
    assert!(!check_ffmpeg_availability(Some(false), Some(true)));
    assert!(!check_ffmpeg_availability(None, Some(true)));
    assert!(!check_ffmpeg_availability(Some(true), None));
    assert!(!check_ffmpeg_availability(None, None));
    assert_eq!(version_arguments(), vec!["-version"]);
}

#[test]
fn a_file_is_shown_in_the_file_manager() {
    assert_eq!(
        open_file_location("C:\\v\\a.mp4", true, Some("C:\\v"), Platform::Windows).unwrap(),
        vec!["explorer", "/select,", "C:\\v\\a.mp4"]
    );
    assert_eq!(
        open_file_location("/v/a.mp4", true, Some("/v"), Platform::MacOs).unwrap(),
        vec!["open", "-R", "/v/a.mp4"]
    );
    assert_eq!(
        open_file_location("/v/a.mp4", true, Some("/v"), Platform::Other).unwrap(),
        vec!["xdg-open", "/v"]
    );
    assert_eq!(
        open_file_location("/v/a.mp4", true, None, Platform::MacOs).unwrap(),
        vec!["open", "-R", "/v/a.mp4"]
    );
}

#[test]
fn a_file_that_cannot_be_shown() {
    for platform in [Platform::Windows, Platform::MacOs, Platform::Other] {
        assert_eq!(
            open_file_location("/v/none.mp4", false, Some("/v"), platform).unwrap_err(),
            "File not found: /v/none.mp4"
        );
    }
    assert_eq!(
        open_file_location("/", true, None, Platform::Other).unwrap_err(),
        "Cannot determine parent directory"
    );
    assert_eq!(
        open_failure("No such file or directory (os error 2)"),
        "Failed to open file location: No such file or directory (os error 2)"
    );
}
