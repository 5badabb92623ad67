use ffmpeg_converter::conversion::{
    cancel_conversion, convert_file, finish_conversion, get_conversion_progress, kill_finished,
    process_spawned, report_progress, CancelError, KillOutcome,
};
use ffmpeg_converter::encoder::{
    apply_format_settings, judge_exit, kill_command, prepare_conversion, ExitReport,
};
use ffmpeg_converter::job::JobEvent;
use ffmpeg_converter::registry::{handle_event, register, release, ConversionState};
use ffmpeg_converter::error::{ConversionError, FailureReason};
use ffmpeg_converter::progress::ProgressSignal;
use ffmpeg_converter::types::{ConversionOptions, Phase};

fn options(format: &str, quality: &str, preserve_metadata: bool) -> ConversionOptions {
    ConversionOptions {
        output_format: format.to_string(),
        quality: quality.to_string(),
        output_dir: None,
        preserve_metadata,
    }
}

fn started(state: &mut ConversionState, source: &str, destination: &str) -> String {
    convert_file(
        state,
        source.to_string(),
        destination.to_string(),
        options("mp4", "medium", true),
    )
    .expect("a fresh id")
}

fn converting(state: &mut ConversionState, source: &str, destination: &str, pid: u32, total_us: u64) -> String {
    let id = started(state, source, destination);
    process_spawned(state, &id, pid, total_us).expect("the job was waiting to be launched");
    id
}

#[test]
fn a_new_job_starts_at_nothing() {
    let mut state = ConversionState::new();
    let id = started(&mut state, "/in/a.mov", "/out/a.mp4");
    let record = get_conversion_progress(&state, &id).unwrap();
    assert_eq!(record.id, id);
    assert_eq!(record.progress, 0);
    assert_eq!(record.status, Phase::Starting);
    assert_eq!(record.current_file, "/in/a.mov");
    assert_eq!(record.output_path.as_deref(), Some("/out/a.mp4"));
    assert_eq!(record.eta, None);
    assert_eq!(record.speed, None);
}

#[test]
fn job_ids_are_hyphenated_lower_case_hex() {
    let mut state = ConversionState::new();
    let id = started(&mut state, "a", "b");
    assert_eq!(id.len(), 36);
    for (i, c) in id.chars().enumerate() {
        if i == 8 || i == 13 || i == 18 || i == 23 {
            assert_eq!(c, '-');
        } else {
            assert!(c.is_ascii_digit() || ('a'..='f').contains(&c), "{:?} at {}", c, i);
        }
    }
}

#[test]
fn job_ids_differ_between_requests() {
    let mut state = ConversionState::new();
    let first = started(&mut state, "a", "b");
    let second = started(&mut state, "a", "b");
    let third = started(&mut state, "c", "d");
    assert_ne!(first, second);
    assert_ne!(first, third);
    assert_ne!(second, third);
    assert!(get_conversion_progress(&state, &first).is_some());
    assert!(get_conversion_progress(&state, &second).is_some());
    assert!(get_conversion_progress(&state, &third).is_some());
}

#[test]
fn a_request_is_taken_while_no_job_id_is_tracked() {
    let mut state = ConversionState::new();
    assert!(register(
        &mut state,
        "not-a-job-id".to_string(),
        "x".to_string(),
        "y".to_string(),
        options("mp4", "low", true)
    ));
    for _ in 0..50 {
        let mut fresh = ConversionState::new();
        let id = convert_file(
            &mut fresh,
            "/in/a.mov".to_string(),
            "/out/a.mp4".to_string(),
            options("mp4", "high", true),
        );
        assert!(id.is_some());
        let id = convert_file(
            &mut state,
            "/in/a.mov".to_string(),
            "/out/a.mp4".to_string(),
            options("mp4", "high", true),
        );
        assert!(id.is_some());
        release(&mut state, &id.unwrap()).unwrap();
    }
}

#[test]
fn two_requests_hold_their_own_sources() {
    let mut state = ConversionState::new();
    let first = started(&mut state, "/in/one.mov", "/out/one.mp4");
    let second = convert_file(
        &mut state,
        "/in/two.avi".to_string(),
        "/out/two.webm".to_string(),
        options("webm", "low", false),
    )
    .unwrap();
    assert_ne!(first, second);
    let one = state.job(&first).unwrap();
    let two = state.job(&second).unwrap();
    assert_eq!(one.progress.current_file, "/in/one.mov");
    assert_eq!(one.progress.output_path.as_deref(), Some("/out/one.mp4"));
    assert_eq!(one.options.output_format, "mp4");
    assert_eq!(one.progress.progress, 0);
    assert_eq!(one.progress.status, Phase::Starting);
    assert_eq!(two.progress.current_file, "/in/two.avi");
    assert_eq!(two.progress.output_path.as_deref(), Some("/out/two.webm"));
    assert_eq!(two.options.output_format, "webm");
    assert_eq!(two.progress.progress, 0);
    assert_eq!(two.progress.status, Phase::Starting);
}

#[test]
fn an_unknown_id_has_no_record() {
    let mut state = ConversionState::new();
    assert!(get_conversion_progress(&state, "nobody").is_none());
    started(&mut state, "a", "b");
    assert!(get_conversion_progress(&state, "nobody").is_none());
    assert!(get_conversion_progress(&state, "").is_none());
}

#[test]
fn an_id_is_registered_once() {
    let mut state = ConversionState::new();
    assert!(register(
        &mut state,
        "job".to_string(),
        "a".to_string(),
        "b".to_string(),
        options("webm", "low", false)
    ));
    process_spawned(&mut state, "job", 7, 10_000_000).unwrap();
    assert!(!register(
        &mut state,
        "job".to_string(),
        "c".to_string(),
        "d".to_string(),
        options("mp4", "high", true)
    ));
    let record = get_conversion_progress(&state, "job").unwrap();
    assert_eq!(record.status, Phase::Converting);
    assert_eq!(record.current_file, "a");
    assert_eq!(record.output_path.as_deref(), Some("b"));
    let job = state.job("job").unwrap();
    assert_eq!(job.options.output_format, "webm");
    assert_eq!(job.options.quality, "low");
    assert!(!job.options.preserve_metadata);
}

#[test]
fn a_released_job_is_handed_out() {
    let mut state = ConversionState::new();
    let id = converting(&mut state, "a", "b", 31, 2_000_000);
    assert!(release(&mut state, "nobody").is_none());
    let job = state.job(&id).unwrap();
    assert_eq!(job.pid, Some(31));
    assert_eq!(job.total_us, 2_000_000);
    let job = release(&mut state, &id).unwrap();
    assert_eq!(job.options.output_format, "mp4");
    assert_eq!(job.progress.id, id);
    assert_eq!(job.progress.status, Phase::Converting);
    assert_eq!(job.pid, Some(31));
    assert_eq!(job.total_us, 2_000_000);
    assert!(state.job(&id).is_none());
    assert!(release(&mut state, &id).is_none());
}

#[test]
fn launching_moves_a_job_to_converting() {
    let mut state = ConversionState::new();
    let id = started(&mut state, "a", "b");
    let record = process_spawned(&mut state, &id, 4242, 125_400_000).unwrap();
    assert_eq!(record.status, Phase::Converting);
    assert_eq!(record.progress, 0);
    assert_eq!(record.id, id);
    let seen = get_conversion_progress(&state, &id).unwrap();
    assert_eq!(seen.status, Phase::Converting);
}

#[test]
fn launching_twice_or_for_nobody_does_nothing() {
    let mut state = ConversionState::new();
    let id = converting(&mut state, "a", "b", 1, 1_000_000);
    assert!(process_spawned(&mut state, &id, 2, 5_000_000).is_none());
    assert!(process_spawned(&mut state, "nobody", 3, 5_000_000).is_none());
    assert!(get_conversion_progress(&state, "nobody").is_none());
    // the first launch still counts: the length is the one given then
    let record = report_progress(&mut state, &id, "out_time_us=500000", 1).unwrap();
    assert_eq!(record.progress, 5_000);
}

#[test]
fn progress_follows_the_status_stream() {
    let mut state = ConversionState::new();
    let id = converting(&mut state, "a", "b", 1, 125_400_000);
    let record = report_progress(&mut state, &id, "out_time_us=62700000", 31_350_000).unwrap();
    assert_eq!(record.progress, 5_000);
    assert_eq!(record.status, Phase::Converting);
    assert_eq!(record.eta, Some(62));
    assert_eq!(record.speed, Some(200));
    let seen = get_conversion_progress(&state, &id).unwrap();
    assert_eq!(seen.progress, 5_000);
    assert_eq!(seen.eta, Some(62));
    assert_eq!(seen.speed, Some(200));
}

#[test]
fn small_advances_are_not_published() {
    let mut state = ConversionState::new();
    let id = converting(&mut state, "a", "b", 1, 100_000_000);
    assert!(report_progress(&mut state, &id, "out_time_us=999999", 1).is_none());
    assert_eq!(get_conversion_progress(&state, &id).unwrap().progress, 0);
    let first = report_progress(&mut state, &id, "out_time_us=1000000", 1).unwrap();
    assert_eq!(first.progress, 100);
    assert!(report_progress(&mut state, &id, "out_time_us=1990000", 1).is_none());
    assert_eq!(get_conversion_progress(&state, &id).unwrap().progress, 100);
    let second = report_progress(&mut state, &id, "out_time_us=2000000", 1).unwrap();
    assert_eq!(second.progress, 200);
}

#[test]
fn progress_never_falls_while_a_job_runs() {
    let mut state = ConversionState::new();
    let id = converting(&mut state, "a", "b", 1, 10_000_000);
    let mut last = 0;
    for elapsed in [0u64, 1_000_000, 500_000, 3_000_000, 2_000_000, 9_999_999, 4_000_000, 20_000_000, 0] {
        let line = format!("out_time_us={}", elapsed);
        report_progress(&mut state, &id, &line, 1_000_000);
        let seen = get_conversion_progress(&state, &id).unwrap();
        assert!(seen.progress >= last, "{} after {}", seen.progress, last);
        assert!(seen.progress < 10_000);
        assert_eq!(seen.status, Phase::Converting);
        last = seen.progress;
    }
    assert_eq!(last, 9_900);
}

#[test]
fn a_running_job_is_held_below_full_progress() {
    let mut state = ConversionState::new();
    let id = converting(&mut state, "a", "b", 1, 10_000_000);
    let record = report_progress(&mut state, &id, "out_time_us=10000000", 5_000_000).unwrap();
    assert_eq!(record.progress, 9_900);
    assert_eq!(record.status, Phase::Converting);
    assert_eq!(record.eta, Some(0));
    assert!(report_progress(&mut state, &id, "out_time_us=11000000", 5_000_000).is_none());
}

#[test]
fn the_end_marker_completes_the_job() {
    let mut state = ConversionState::new();
    let id = converting(&mut state, "a", "b", 1, 10_000_000);
    report_progress(&mut state, &id, "out_time_us=5000000", 5_000_000).unwrap();
    let record = report_progress(&mut state, &id, "progress=end", 9_000_000).unwrap();
    assert_eq!(record.progress, 10_000);
    assert_eq!(record.status, Phase::Completed);
    assert_eq!(record.eta, None);
    assert_eq!(record.speed, None);
    // later lines are ignored
    assert!(report_progress(&mut state, &id, "out_time_us=1000000", 9_500_000).is_none());
    assert!(report_progress(&mut state, &id, "progress=end", 9_500_000).is_none());
    let seen = get_conversion_progress(&state, &id).unwrap();
    assert_eq!(seen.progress, 10_000);
    assert_eq!(seen.status, Phase::Completed);
}

#[test]
fn the_end_marker_completes_a_job_of_unknown_length() {
    let mut state = ConversionState::new();
    let id = converting(&mut state, "a", "b", 1, 0);
    assert!(report_progress(&mut state, &id, "out_time_us=5000000", 5_000_000).is_none());
    let seen = get_conversion_progress(&state, &id).unwrap();
    assert_eq!(seen.progress, 0);
    assert_eq!(seen.eta, None);
    assert_eq!(seen.speed, None);
    let record = report_progress(&mut state, &id, "progress=end", 9_000_000).unwrap();
    assert_eq!(record.progress, 10_000);
    assert_eq!(record.status, Phase::Completed);
}

#[test]
fn status_lines_before_the_launch_are_ignored() {
    let mut state = ConversionState::new();
    let id = started(&mut state, "a", "b");
    assert!(report_progress(&mut state, &id, "progress=end", 1).is_none());
    assert!(report_progress(&mut state, &id, "out_time_us=5000000", 1).is_none());
    let seen = get_conversion_progress(&state, &id).unwrap();
    assert_eq!(seen.status, Phase::Starting);
    assert_eq!(seen.progress, 0);
    assert!(report_progress(&mut state, "nobody", "progress=end", 1).is_none());
}

#[test]
fn speed_is_absent_before_time_has_passed() {
    let mut state = ConversionState::new();
    let id = converting(&mut state, "a", "b", 1, 10_000_000);
    let record = report_progress(&mut state, &id, "out_time_us=5000000", 0).unwrap();
    assert_eq!(record.progress, 5_000);
    assert_eq!(record.eta, Some(5));
    assert_eq!(record.speed, None);
}

#[test]
fn cancelling_a_converting_job() {
    let mut state = ConversionState::new();
    let id = converting(&mut state, "/in/a.mov", "/out/a.mp4", 4242, 10_000_000);
    report_progress(&mut state, &id, "out_time_us=5000000", 5_000_000).unwrap();
    let plan = cancel_conversion(&mut state, &id, false).unwrap();
    let shown = plan.progress.as_ref().unwrap();
    assert_eq!(shown.status, Phase::Cancelling);
    assert_eq!(shown.progress, 5_000);
    assert_eq!(shown.eta, None);
    assert_eq!(shown.speed, None);
    assert_eq!(plan.kill, Some(vec!["kill".to_string(), "-9".to_string(), "4242".to_string()]));
    assert_eq!(plan.output_path.as_deref(), Some("/out/a.mp4"));
    assert_eq!(get_conversion_progress(&state, &id).unwrap().status, Phase::Cancelling);

    let remove = kill_finished(&mut state, &id, &plan, &KillOutcome::Killed, false).unwrap();
    assert_eq!(remove.as_deref(), Some("/out/a.mp4"));
    let seen = get_conversion_progress(&state, &id).unwrap();
    assert_eq!(seen.status, Phase::Cancelled);
    assert_eq!(seen.progress, 5_000);

    // the encoder's exit is then observed, and the job leaves the registry
    let report = ExitReport {
        success: false,
        exit_code: None,
        stderr: "Exiting normally, received signal 9.".to_string(),
        output_exists: false,
        output_size: 0,
    };
    let done = finish_conversion(&mut state, &id, judge_exit(&report, "/out/a.mp4"));
    assert_eq!(done.progress.unwrap().status, Phase::Cancelled);
    assert!(!done.result.success);
    assert!(get_conversion_progress(&state, &id).is_none());
}

#[test]
fn cancelling_on_windows_uses_taskkill() {
    let mut state = ConversionState::new();
    let id = converting(&mut state, "a", "b", 77, 0);
    let plan = cancel_conversion(&mut state, &id, true).unwrap();
    assert_eq!(
        plan.kill,
        Some(vec![
            "taskkill".to_string(),
            "/F".to_string(),
            "/PID".to_string(),
            "77".to_string()
        ])
    );
    assert_eq!(kill_command(0, true), vec!["taskkill", "/F", "/PID", "0"]);
    assert_eq!(kill_command(u32::MAX, false), vec!["kill", "-9", "4294967295"]);
}

#[test]
fn cancelling_before_the_launch_cancels_at_once() {
    let mut state = ConversionState::new();
    let id = started(&mut state, "a", "b");
    let plan = cancel_conversion(&mut state, &id, false).unwrap();
    assert_eq!(plan.progress.as_ref().unwrap().status, Phase::Cancelling);
    assert_eq!(plan.kill, None);
    assert_eq!(plan.output_path, None);
    assert_eq!(get_conversion_progress(&state, &id).unwrap().status, Phase::Cancelled);
    // a launch that comes too late is refused, so that the caller ends the process
    assert!(process_spawned(&mut state, &id, 9, 1_000_000).is_none());
    assert_eq!(get_conversion_progress(&state, &id).unwrap().status, Phase::Cancelled);
}

#[test]
fn cancelling_twice() {
    let mut state = ConversionState::new();
    let id = converting(&mut state, "a", "b", 5, 0);
    let first = cancel_conversion(&mut state, &id, false).unwrap();
    assert!(first.kill.is_some());
    let second = cancel_conversion(&mut state, &id, false).unwrap();
    assert_eq!(second.progress.as_ref().unwrap().status, Phase::Cancelling);
    assert_eq!(second.kill, None);
    assert_eq!(second.output_path, None);
    assert_eq!(get_conversion_progress(&state, &id).unwrap().status, Phase::Cancelled);
    let third = cancel_conversion(&mut state, &id, false).unwrap();
    assert!(third.progress.is_none());
    assert_eq!(third.kill, None);
}

#[test]
fn cancelling_a_completed_job_changes_nothing() {
    let mut state = ConversionState::new();
    let id = converting(&mut state, "a", "b", 5, 0);
    report_progress(&mut state, &id, "progress=end", 1).unwrap();
    let plan = cancel_conversion(&mut state, &id, false).unwrap();
    assert!(plan.progress.is_none());
    assert_eq!(plan.kill, None);
    assert_eq!(plan.output_path, None);
    let seen = get_conversion_progress(&state, &id).unwrap();
    assert_eq!(seen.status, Phase::Completed);
    assert_eq!(seen.progress, 10_000);
}

#[test]
fn cancelling_an_unknown_job_fails() {
    let mut state = ConversionState::new();
    started(&mut state, "a", "b");
    match cancel_conversion(&mut state, "nobody", false) {
        Err(CancelError::NotFound) => {}
        _ => panic!("expected NotFound"),
    }
    assert_eq!(CancelError::NotFound.message(), "Conversion not found");
}

#[test]
fn a_failed_kill_is_reported_and_changes_nothing() {
    let mut state = ConversionState::new();
    let id = converting(&mut state, "a", "b", 5, 0);
    let plan = cancel_conversion(&mut state, &id, false).unwrap();
    let refused = KillOutcome::Refused("kill: (5) - No such process\n".to_string());
    let error = kill_finished(&mut state, &id, &plan, &refused, false).unwrap_err();
    assert_eq!(error.message(), "Failed to kill process: kill: (5) - No such process\n");
    assert_eq!(get_conversion_progress(&state, &id).unwrap().status, Phase::Cancelling);

    let not_run = KillOutcome::NotRun("No such file or directory (os error 2)".to_string());
    let error = kill_finished(&mut state, &id, &plan, &not_run, false).unwrap_err();
    assert_eq!(
        error.message(),
        "Failed to execute kill: No such file or directory (os error 2)"
    );
    let error = kill_finished(&mut state, &id, &plan, &not_run, true).unwrap_err();
    assert_eq!(
        error.message(),
        "Failed to execute taskkill: No such file or directory (os error 2)"
    );
    assert_eq!(get_conversion_progress(&state, &id).unwrap().status, Phase::Cancelling);
}

#[test]
fn a_kill_only_cancels_a_job_that_is_being_cancelled() {
    let mut state = ConversionState::new();
    let id = converting(&mut state, "a", "b", 5, 0);
    assert!(handle_event(&mut state, &id, &JobEvent::KillConfirmed).is_none());
    assert_eq!(get_conversion_progress(&state, &id).unwrap().status, Phase::Converting);
}

#[test]
fn events_can_be_given_directly() {
    let mut state = ConversionState::new();
    let id = started(&mut state, "a", "b");
    let record =
        handle_event(&mut state, &id, &JobEvent::Spawned { pid: 3, total_us: 4_000_000 }).unwrap();
    assert_eq!(record.status, Phase::Converting);
    let record = handle_event(
        &mut state,
        &id,
        &JobEvent::Status { signal: ProgressSignal::Elapsed(1_000_000), wall_us: 2_000_000 },
    )
    .unwrap();
    assert_eq!(record.progress, 2_500);
    assert_eq!(record.eta, Some(3));
    assert_eq!(record.speed, Some(50));
    assert!(handle_event(
        &mut state,
        &id,
        &JobEvent::Status { signal: ProgressSignal::Other, wall_us: 2_000_000 },
    )
    .is_none());
    let record = handle_event(&mut state, &id, &JobEvent::CancelRequested).unwrap();
    assert_eq!(record.status, Phase::Cancelling);
    assert!(handle_event(&mut state, &id, &JobEvent::KillConfirmed).is_none());
    assert_eq!(get_conversion_progress(&state, &id).unwrap().status, Phase::Cancelled);
}

#[test]
fn two_jobs_do_not_touch_each_other() {
    let mut state = ConversionState::new();
    let first = converting(&mut state, "/in/one.mov", "/out/one.mp4", 11, 10_000_000);
    let second = converting(&mut state, "/in/two.mov", "/out/two.webm", 22, 200_000_000);

    report_progress(&mut state, &first, "out_time_us=5000000", 5_000_000).unwrap();
    let other = get_conversion_progress(&state, &second).unwrap();
    assert_eq!(other.progress, 0);
    assert_eq!(other.eta, None);
    assert_eq!(other.speed, None);
    assert_eq!(other.current_file, "/in/two.mov");

    report_progress(&mut state, &second, "out_time_us=20000000", 40_000_000).unwrap();
    let one = get_conversion_progress(&state, &first).unwrap();
    assert_eq!(one.progress, 5_000);
    assert_eq!(one.eta, Some(5));
    assert_eq!(one.speed, Some(100));
    let two = get_conversion_progress(&state, &second).unwrap();
    assert_eq!(two.progress, 1_000);
    assert_eq!(two.eta, Some(180));
    assert_eq!(two.speed, Some(50));

    let plan = cancel_conversion(&mut state, &first, false).unwrap();
    assert_eq!(plan.kill.unwrap()[2], "11");
    assert_eq!(get_conversion_progress(&state, &second).unwrap().status, Phase::Converting);

    let done = finish_conversion(&mut state, &second, Ok("/out/two.webm".to_string()));
    assert!(done.result.success);
    assert!(get_conversion_progress(&state, &second).is_none());
    let one = get_conversion_progress(&state, &first).unwrap();
    assert_eq!(one.status, Phase::Cancelling);
    assert_eq!(one.progress, 5_000);
}

#[test]
fn a_successful_conversion_is_finalised() {
    let mut state = ConversionState::new();
    let id = converting(&mut state, "/in/a.mov", "/out/a.mp4", 1, 10_000_000);
    report_progress(&mut state, &id, "out_time_us=5000000", 5_000_000).unwrap();
    let report = ExitReport {
        success: true,
        exit_code: Some(0),
        stderr: String::new(),
        output_exists: true,
        output_size: 1024,
    };
    let outcome = judge_exit(&report, "/out/a.mp4");
    let done = finish_conversion(&mut state, &id, outcome);
    let last = done.progress.unwrap();
    assert_eq!(last.progress, 10_000);
    assert_eq!(last.status, Phase::Completed);
    assert_eq!(last.eta, None);
    assert_eq!(last.speed, None);
    assert_eq!(done.result.id, id);
    assert!(done.result.success);
    assert_eq!(done.result.output_path.as_deref(), Some("/out/a.mp4"));
    assert_eq!(done.result.error, None);
    assert!(get_conversion_progress(&state, &id).is_none());
}

#[test]
fn a_failed_conversion_is_finalised() {
    let mut state = ConversionState::new();
    let id = converting(&mut state, "/in/a.mov", "/out/a.mp4", 1, 10_000_000);
    report_progress(&mut state, &id, "out_time_us=5000000", 5_000_000).unwrap();
    let report = ExitReport {
        success: false,
        exit_code: Some(1),
        stderr: "  /in/a.mov: Permission denied\n".to_string(),
        output_exists: false,
        output_size: 0,
    };
    let done = finish_conversion(&mut state, &id, judge_exit(&report, "/out/a.mp4"));
    let last = done.progress.unwrap();
    assert_eq!(last.progress, 5_000);
    assert_eq!(last.status, Phase::Failed);
    assert!(!done.result.success);
    assert_eq!(done.result.output_path, None);
    assert_eq!(
        done.result.error.as_deref(),
        Some("FFmpeg conversion failed: Permission denied - check file/directory permissions - /in/a.mov: Permission denied")
    );
    assert!(get_conversion_progress(&state, &id).is_none());
}

#[test]
fn finishing_an_unknown_job_still_answers() {
    let mut state = ConversionState::new();
    let done = finish_conversion(&mut state, "nobody", Ok("/out/x.mp4".to_string()));
    assert!(done.progress.is_none());
    assert_eq!(done.result.id, "nobody");
    assert!(done.result.success);
}

#[test]
fn a_completed_job_stays_completed_when_it_leaves() {
    let mut state = ConversionState::new();
    let id = converting(&mut state, "a", "b", 1, 0);
    report_progress(&mut state, &id, "progress=end", 1).unwrap();
    let done = finish_conversion(
        &mut state,
        &id,
        Err(ConversionError::OutputMissing("b".to_string())),
    );
    let last = done.progress.unwrap();
    assert_eq!(last.status, Phase::Completed);
    assert_eq!(last.progress, 10_000);
    assert!(!done.result.success);
    assert_eq!(done.result.error.as_deref(), Some("Output file was not created: b"));
}

#[test]
fn a_missing_source_is_refused_before_anything_is_launched() {
    let plan = prepare_conversion("/in/none.mov", "/out/a.mp4", &options("mp4", "high", true), false);
    match plan {
        Err(ConversionError::InputMissing(path)) => assert_eq!(path, "/in/none.mov"),
        _ => panic!("expected InputMissing"),
    }
    // the missing source is found before the format is looked at
    let plan = prepare_conversion("/in/none.mov", "/out/a.gif", &options("gif", "high", true), false);
    assert!(matches!(plan, Err(ConversionError::InputMissing(_))));

    let mut state = ConversionState::new();
    let id = started(&mut state, "/in/none.mov", "/out/a.mp4");
    let error = prepare_conversion("/in/none.mov", "/out/a.mp4", &options("mp4", "high", true), false)
        .unwrap_err();
    let done = finish_conversion(&mut state, &id, Err(error));
    assert_eq!(done.progress.unwrap().status, Phase::Failed);
    assert!(!done.result.success);
    assert_eq!(
        done.result.error.as_deref(),
        Some("Input file does not exist: /in/none.mov")
    );
    assert!(get_conversion_progress(&state, &id).is_none());
}

#[test]
fn an_unsupported_format_is_refused() {
    let plan = prepare_conversion("/in/a.mov", "/out/a.gif", &options("gif", "high", true), true);
    match plan {
        Err(ConversionError::UnsupportedFormat(format)) => assert_eq!(format, "gif"),
        _ => panic!("expected UnsupportedFormat"),
    }
}

#[test]
fn encoder_arguments_in_order() {
    let plan = prepare_conversion("/in/a.mov", "/out/a.mp4", &options("mp4", "high", true), true);
    assert_eq!(
        plan.unwrap(),
        vec![
            "-y", "-i", "/in/a.mov", "-c:v", "libx264", "-c:a", "aac", "-preset", "slow", "-crf",
            "18", "-progress", "pipe:2", "/out/a.mp4"
        ]
    );
    let plan = prepare_conversion("in.avi", "out.webm", &options("webm", "low", false), true);
    assert_eq!(
        plan.unwrap(),
        vec![
            "-y", "-i", "in.avi", "-c:v", "libvpx-vp9", "-c:a", "libopus", "-b:v", "500k",
            "-map_metadata", "-1", "-progress", "pipe:2", "out.webm"
        ]
    );
    let plan = prepare_conversion("in.mp4", "out.mov", &options("mov", "nonsense", false), true);
    assert_eq!(
        plan.unwrap(),
        vec![
            "-y", "-i", "in.mp4", "-c:v", "libx264", "-c:a", "aac", "-map_metadata", "-1",
            "-progress", "pipe:2", "out.mov"
        ]
    );
}

#[test]
fn format_settings_are_appended() {
    let mut cmd = vec!["-y".to_string()];
    apply_format_settings(&mut cmd, &options("avi", "high", true)).unwrap();
    assert_eq!(cmd, vec!["-y", "-c:v", "libx264", "-c:a", "aac"]);
    let mut cmd = vec!["-y".to_string()];
    let error = apply_format_settings(&mut cmd, &options("flv", "high", true)).unwrap_err();
    assert!(matches!(error, ConversionError::UnsupportedFormat(_)));
    assert_eq!(cmd, vec!["-y"]);
}

#[test]
fn a_finished_encoder_is_judged() {
    let mut report = ExitReport {
        success: true,
        exit_code: Some(0),
        stderr: String::new(),
        output_exists: true,
        output_size: 1,
    };
    assert_eq!(judge_exit(&report, "out.mp4").unwrap(), "out.mp4");

    report.output_size = 0;
    match judge_exit(&report, "out.mp4") {
        Err(ConversionError::OutputEmpty(path)) => assert_eq!(path, "out.mp4"),
        _ => panic!("expected OutputEmpty"),
    }
    assert_eq!(
        judge_exit(&report, "out.mp4").unwrap_err().message(),
        "Output file is empty: out.mp4"
    );

    report.output_exists = false;
    report.output_size = 10;
    match judge_exit(&report, "out.mp4") {
        Err(ConversionError::OutputMissing(path)) => assert_eq!(path, "out.mp4"),
        _ => panic!("expected OutputMissing"),
    }

    report.success = false;
    report.exit_code = Some(234);
    report.output_exists = true;
    report.stderr = "Unknown encoder 'libx265'".to_string();
    match judge_exit(&report, "out.mp4") {
        Err(ConversionError::EncodingFailed { exit_code, reason, stderr }) => {
            assert_eq!(exit_code, Some(234));
            assert_eq!(reason, FailureReason::UnsupportedCodec);
            assert_eq!(stderr, "Unknown encoder 'libx265'");
        }
        _ => panic!("expected EncodingFailed"),
    }
}
