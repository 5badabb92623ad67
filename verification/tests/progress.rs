use ffmpeg_converter::progress::{
    eta_seconds, percent_of, read_progress_line, speed_hundredths, speed_string, strip_line_end,
    ProgressSignal,
};
use ffmpeg_converter::types::{PERCENT_CAP, PERCENT_FULL, PERCENT_STEP};

#[test]
fn end_marker_is_recognised() {
    assert_eq!(read_progress_line("progress=end"), ProgressSignal::End);
    assert_eq!(read_progress_line("progress=end\n"), ProgressSignal::End);
    assert_eq!(read_progress_line("progress=end\r\n"), ProgressSignal::End);
}

#[test]
fn lines_near_the_end_marker_are_passed_over() {
    assert_eq!(read_progress_line("progress=continue"), ProgressSignal::Other);
    assert_eq!(read_progress_line("progress=end "), ProgressSignal::Other);
    assert_eq!(read_progress_line(" progress=end"), ProgressSignal::Other);
    assert_eq!(read_progress_line("progress=ending"), ProgressSignal::Other);
    assert_eq!(read_progress_line("Progress=end"), ProgressSignal::Other);
}

#[test]
fn elapsed_time_is_read() {
    assert_eq!(read_progress_line("out_time_us=0"), ProgressSignal::Elapsed(0));
    assert_eq!(
        read_progress_line("out_time_us=62700000"),
        ProgressSignal::Elapsed(62_700_000)
    );
    assert_eq!(
        read_progress_line("out_time_us=62700000\n"),
        ProgressSignal::Elapsed(62_700_000)
    );
    assert_eq!(
        read_progress_line("out_time_us=18446744073709551615"),
        ProgressSignal::Elapsed(u64::MAX)
    );
}

#[test]
fn unusable_elapsed_time_is_passed_over() {
    assert_eq!(read_progress_line("out_time_us="), ProgressSignal::Other);
    assert_eq!(read_progress_line("out_time_us=N/A"), ProgressSignal::Other);
    assert_eq!(read_progress_line("out_time_us=-5"), ProgressSignal::Other);
    assert_eq!(read_progress_line("out_time_us=+5"), ProgressSignal::Other);
    assert_eq!(read_progress_line("out_time_us=5 "), ProgressSignal::Other);
    assert_eq!(read_progress_line("out_time_us=1.5"), ProgressSignal::Other);
    assert_eq!(
        read_progress_line("out_time_us=18446744073709551616"),
        ProgressSignal::Other
    );
}

#[test]
fn other_lines_are_passed_over() {
    for line in [
        "",
        "\n",
        "frame=120",
        "fps=29.97",
        "bitrate= 512.0kbits/s",
        "out_time=00:01:02.700000",
        "out_time_ms=62700000",
        "speed=1.5x",
        "Press [q] to stop, [?] for help",
        "out_time_us",
        "xout_time_us=5",
    ] {
        assert_eq!(read_progress_line(line), ProgressSignal::Other, "{:?}", line);
    }
}

#[test]
fn line_breaks_are_cut_off() {
    assert_eq!(strip_line_end(b"abc\r\n"), b"abc");
    assert_eq!(strip_line_end(b"abc\n\n"), b"abc");
    assert_eq!(strip_line_end(b"abc"), b"abc");
    assert_eq!(strip_line_end(b"\n"), b"");
    assert_eq!(strip_line_end(b""), b"");
    assert_eq!(strip_line_end(b"a\nb\n"), b"a\nb");
    assert_eq!(strip_line_end(b"abc \n"), b"abc ");
}

#[test]
fn percent_is_in_hundredths_and_capped() {
    assert_eq!(PERCENT_FULL, 10_000);
    assert_eq!(PERCENT_CAP, 9_900);
    assert_eq!(PERCENT_STEP, 100);
    assert_eq!(percent_of(0, 125_400_000), Some(0));
    assert_eq!(percent_of(62_700_000, 125_400_000), Some(5_000));
    assert_eq!(percent_of(1_254_000, 125_400_000), Some(100));
    assert_eq!(percent_of(1_253_999, 125_400_000), Some(99));
    assert_eq!(percent_of(124_146_000, 125_400_000), Some(9_900));
    assert_eq!(percent_of(124_145_999, 125_400_000), Some(9_899));
    assert_eq!(percent_of(125_400_000, 125_400_000), Some(9_900));
    assert_eq!(percent_of(u64::MAX, 1), Some(9_900));
    assert_eq!(percent_of(u64::MAX, u64::MAX), Some(9_900));
    assert_eq!(percent_of(1, u64::MAX), Some(0));
    assert_eq!(percent_of(1, 3), Some(3_333));
}

#[test]
fn there_is_no_percentage_of_an_unknown_length() {
    assert_eq!(percent_of(0, 0), None);
    assert_eq!(percent_of(5_000_000, 0), None);
    assert_eq!(percent_of(u64::MAX, 0), None);
}

#[test]
fn speed_is_written_as_a_factor() {
    assert_eq!(speed_string(150), "1.50x");
    assert_eq!(speed_string(100), "1.00x");
    assert_eq!(speed_string(5), "0.05x");
    assert_eq!(speed_string(0), "0.00x");
    assert_eq!(speed_string(12_345), "123.45x");
    assert_eq!(speed_string(u64::MAX), "184467440737095516.15x");
}

#[test]
fn eta_counts_whole_seconds_left() {
    assert_eq!(eta_seconds(0, 125_400_000), 125);
    assert_eq!(eta_seconds(62_700_000, 125_400_000), 62);
    assert_eq!(eta_seconds(125_400_000, 125_400_000), 0);
    assert_eq!(eta_seconds(200_000_000, 125_400_000), 0);
    assert_eq!(eta_seconds(0, 999_999), 0);
    assert_eq!(eta_seconds(0, 1_000_000), 1);
}

#[test]
fn speed_is_output_time_per_wall_time() {
    assert_eq!(speed_hundredths(10_000_000, 0), None);
    assert_eq!(speed_hundredths(10_000_000, 10_000_000), Some(100));
    assert_eq!(speed_hundredths(15_000_000, 10_000_000), Some(150));
    assert_eq!(speed_hundredths(5_000_000, 10_000_000), Some(50));
    assert_eq!(speed_hundredths(0, 10_000_000), Some(0));
    assert_eq!(speed_hundredths(1, 3), Some(33));
    assert_eq!(speed_hundredths(u64::MAX, 1), Some(u64::MAX));
}
