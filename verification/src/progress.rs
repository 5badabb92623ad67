//! The progress monitor: what one line of the encoder's status stream says,
//! and the figures derived from it.
//!
//! The encoder writes `key=value` lines. Two of them matter: the time of
//! output produced so far, in microseconds, and the marker that ends the
//! stream. Every other line is passed over.

use vstd::prelude::*;
use vstd::slice::slice_subrange;
use vstd::utf8::encode_utf8;
use crate::text::{
    begins_with, bytes_eq, bytes_match_at, decimal_text, number_from, parse_digits,
    push_two_digits, two_digit_text, u64_to_string,
};
use crate::types::PERCENT_CAP;

verus! {

/// What a status line tells the monitor.
#[derive(Clone, Copy, Debug, PartialEq, Eq, Structural)]
pub enum ProgressSignal {
    /// Output produced so far, in microseconds.
    Elapsed(u64),
    /// The encoder has written everything.
    End,
    /// A line that carries neither.
    Other,
}

/// A line without the line break at its end.
pub open spec fn line_body(line: Seq<u8>) -> Seq<u8>
    decreases line.len(),
{
    if line.len() > 0 && (line.last() == 0x0A || line.last() == 0x0D) {
        line_body(line.drop_last())
    } else {
        line
    }
}

/// The line that ends the stream.
pub open spec fn end_marker() -> Seq<u8> {
    encode_utf8("progress=end"@)
}

/// The key of the elapsed-time line.
pub open spec fn time_key() -> Seq<u8> {
    encode_utf8("out_time_us="@)
}

/// What a line says: the end marker, an elapsed time written as a plain
/// number, or nothing of interest.
pub open spec fn signal_of(line: Seq<u8>) -> ProgressSignal {
    let body = line_body(line);
    if body == end_marker() {
        ProgressSignal::End
    } else if begins_with(body, time_key()) {
        match number_from(body, time_key().len() as int) {
            Some(elapsed_us) => ProgressSignal::Elapsed(elapsed_us),
            None => ProgressSignal::Other,
        }
    } else {
        ProgressSignal::Other
    }
}

/// Cuts the line break off a line.
pub fn strip_line_end(line: &[u8]) -> (body: &[u8])
    ensures
        body@ == line_body(line@),
{
    let mut end: usize = line.len();
    assert(line@ == line@.subrange(0, end as int));
    while end > 0 && (line[end - 1] == 0x0A || line[end - 1] == 0x0D)
        invariant
            end <= line@.len(),
            line_body(line@) == line_body(line@.subrange(0, end as int)),
        decreases end,
    {
        assert(line@.subrange(0, end as int).drop_last() == line@.subrange(0, end - 1));
        end -= 1;
    }
    slice_subrange(line, 0, end)
}

/// Reads one line of the encoder's status stream.
pub fn read_progress_line(line: &str) -> (signal: ProgressSignal)
    ensures
        signal == signal_of(encode_utf8(line@)),
{
    let body = strip_line_end(line.as_bytes());
    let key = "out_time_us=".as_bytes();
    if bytes_eq(body, "progress=end".as_bytes()) {
        ProgressSignal::End
    } else if bytes_match_at(body, key, 0) {
        match parse_digits(body, key.len()) {
            Some(elapsed) => ProgressSignal::Elapsed(elapsed),
            None => ProgressSignal::Other,
        }
    } else {
        ProgressSignal::Other
    }
}

/// Progress in hundredths of a percent after `elapsed_us` of `total_us`
/// microseconds, rounded down and held at the cap. There is none where the
/// total is not known, which a total of zero stands for.
pub open spec fn percent_at(elapsed_us: u64, total_us: u64) -> Option<u32> {
    if total_us == 0 {
        None
    } else {
        let raw = (elapsed_us as int * 10_000) / (total_us as int);
        if raw >= PERCENT_CAP {
            Some(PERCENT_CAP)
        } else {
            Some(raw as u32)
        }
    }
}

/// Whole seconds of output still to come; zero once the total is reached.
pub open spec fn eta_at(elapsed_us: u64, total_us: u64) -> u64 {
    if elapsed_us >= total_us {
        0
    } else {
        ((total_us - elapsed_us) / 1_000_000) as u64
    }
}

/// Output time per wall-clock time, in hundredths, rounded down and held at
/// what a `u64` takes; absent before any wall-clock time has passed.
pub open spec fn speed_at(elapsed_us: u64, wall_us: u64) -> Option<u64> {
    if wall_us == 0 {
        None
    } else {
        let raw = (elapsed_us as int * 100) / (wall_us as int);
        if raw >= u64::MAX {
            Some(u64::MAX)
        } else {
            Some(raw as u64)
        }
    }
}

/// Progress in hundredths of a percent, where the total is known.
pub fn percent_of(elapsed_us: u64, total_us: u64) -> (percent: Option<u32>)
    ensures
        percent == percent_at(elapsed_us, total_us),
        percent matches Some(reached) ==> reached <= PERCENT_CAP,
{
    if total_us == 0 {
        return None;
    }
    let raw: u128 = (elapsed_us as u128 * 10_000) / (total_us as u128);
    if raw >= PERCENT_CAP as u128 {
        Some(PERCENT_CAP)
    } else {
        Some(raw as u32)
    }
}

/// Whole seconds of output still to come.
pub fn eta_seconds(elapsed_us: u64, total_us: u64) -> (eta: u64)
    ensures
        eta == eta_at(elapsed_us, total_us),
{
    if elapsed_us >= total_us {
        0
    } else {
        (total_us - elapsed_us) / 1_000_000
    }
}

/// Output time per wall-clock time, in hundredths.
pub fn speed_hundredths(elapsed_us: u64, wall_us: u64) -> (speed: Option<u64>)
    ensures
        speed == speed_at(elapsed_us, wall_us),
{
    if wall_us == 0 {
        None
    } else {
        let raw: u128 = (elapsed_us as u128 * 100) / (wall_us as u128);
        if raw >= u64::MAX as u128 {
            Some(u64::MAX)
        } else {
            Some(raw as u64)
        }
    }
}

/// A speed in hundredths as a factor with two decimals: `1.50x` for 150.
pub open spec fn speed_text(speed: u64) -> Seq<char> {
    decimal_text((speed / 100) as nat) + seq!['.'] + two_digit_text((speed % 100) as nat) + seq![
        'x',
    ]
}

/// Writes a speed in hundredths as a factor with two decimals.
pub fn speed_string(speed: u64) -> (text: String)
    ensures
        text@ == speed_text(speed),
{
    let mut text = u64_to_string(speed / 100);
    proof {
        reveal_strlit(".");
        reveal_strlit("x");
        assert("."@ =~= seq!['.']);
        assert("x"@ =~= seq!['x']);
    }
    text.append(".");
    push_two_digits(&mut text, speed % 100);
    text.append("x");
    text
}

} // verus!
