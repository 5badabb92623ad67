//! What the encoder is told, how it is ended, and how its exit is read.

use vstd::prelude::*;
use crate::conversion_settings::{config_arguments, format_config, get_format_config};
use crate::error::{classify_failure, failure_reason, ConversionError, ConversionErrorView};
use crate::text::{decimal_text, u64_to_string};
use crate::types::{ConversionOptions, ConversionOptionsView};

verus! {

/// The command that ends a process for good: its program and arguments.
pub open spec fn kill_arguments(pid: u32, windows: bool) -> Seq<Seq<char>> {
    if windows {
        seq!["taskkill"@, "/F"@, "/PID"@, decimal_text(pid as nat)]
    } else {
        seq!["kill"@, "-9"@, decimal_text(pid as nat)]
    }
}

/// The command that ends the process `pid` for good, on Windows or
/// elsewhere: the program first, then its arguments.
pub fn kill_command(pid: u32, windows: bool) -> (command: Vec<String>)
    ensures
        command.deep_view() == kill_arguments(pid, windows),
{
    let mut command: Vec<String> = Vec::new();
    if windows {
        command.push(String::from_str("taskkill"));
        command.push(String::from_str("/F"));
        command.push(String::from_str("/PID"));
    } else {
        command.push(String::from_str("kill"));
        command.push(String::from_str("-9"));
    }
    command.push(u64_to_string(pid as u64));
    assert(command.deep_view() =~= kill_arguments(pid, windows));
    command
}

/// The arguments that tell the encoder to drop the source's metadata.
pub open spec fn metadata_arguments(preserve_metadata: bool) -> Seq<Seq<char>> {
    if preserve_metadata {
        seq![]
    } else {
        seq!["-map_metadata"@, "-1"@]
    }
}

/// What launching a conversion takes: the encoder's arguments, or the reason
/// why there is nothing to launch. A missing source is found before the
/// format is looked at.
pub open spec fn conversion_plan(
    input_path: Seq<char>,
    output_path: Seq<char>,
    options: ConversionOptionsView,
    input_exists: bool,
) -> Result<Seq<Seq<char>>, ConversionErrorView> {
    if !input_exists {
        Err(ConversionErrorView::InputMissing(input_path))
    } else {
        match format_config(options.output_format, options.quality) {
            None => Err(ConversionErrorView::UnsupportedFormat(options.output_format)),
            Some(config) => Ok(
                seq!["-y"@, "-i"@, input_path] + config_arguments(config) + metadata_arguments(
                    options.preserve_metadata,
                ) + seq!["-progress"@, "pipe:2"@, output_path],
            ),
        }
    }
}

/// The plan in an executable plan.
pub open spec fn plan_view(plan: Result<Vec<String>, ConversionError>) -> Result<
    Seq<Seq<char>>,
    ConversionErrorView,
> {
    match plan {
        Ok(arguments) => Ok(arguments.deep_view()),
        Err(error) => Err(error@),
    }
}

/// Appends the arguments that the requested format and quality stand for.
pub fn apply_format_settings(cmd: &mut Vec<String>, options: &ConversionOptions) -> (result: Result<
    (),
    ConversionError,
>)
    ensures
        match result {
            Ok(_) => format_config(options@.output_format, options@.quality) is Some
                && final(cmd).deep_view() == old(cmd).deep_view() + config_arguments(
                format_config(options@.output_format, options@.quality)->0,
            ),
            Err(error) => format_config(options@.output_format, options@.quality) is None
                && error@ == ConversionErrorView::UnsupportedFormat(options@.output_format)
                && final(cmd).deep_view() == old(cmd).deep_view(),
        },
{
    match get_format_config(options.output_format.as_str(), options.quality.as_str()) {
        Ok(config) => {
            config.apply_to_command(cmd);
            Ok(())
        },
        Err(error) => Err(error),
    }
}

/// Decides how to launch the encoder for a request, given whether the source
/// exists: overwrite without asking, read the source, encode as the format
/// and quality say, drop the metadata unless it is to be kept, report
/// progress on the error stream, write the destination. Where this fails
/// there is nothing to launch.
pub fn prepare_conversion(
    input_path: &str,
    output_path: &str,
    options: &ConversionOptions,
    input_exists: bool,
) -> (plan: Result<Vec<String>, ConversionError>)
    ensures
        plan_view(plan) == conversion_plan(input_path@, output_path@, options@, input_exists),
{
    if !input_exists {
        return Err(ConversionError::InputMissing(String::from_str(input_path)));
    }
    let mut cmd: Vec<String> = Vec::new();
    cmd.push(String::from_str("-y"));
    cmd.push(String::from_str("-i"));
    cmd.push(String::from_str(input_path));
    assert(cmd.deep_view() =~= seq!["-y"@, "-i"@, input_path@]);
    match apply_format_settings(&mut cmd, options) {
        Ok(_) => {},
        Err(error) => {
            return Err(error);
        },
    }
    let ghost formatted = cmd.deep_view();
    if !options.preserve_metadata {
        cmd.push(String::from_str("-map_metadata"));
        cmd.push(String::from_str("-1"));
    }
    assert(cmd.deep_view() =~= formatted + metadata_arguments(options.preserve_metadata));
    let ghost selected = cmd.deep_view();
    cmd.push(String::from_str("-progress"));
    cmd.push(String::from_str("pipe:2"));
    cmd.push(String::from_str(output_path));
    assert(cmd.deep_view() =~= selected + seq!["-progress"@, "pipe:2"@, output_path@]);
    Ok(cmd)
}

/// What is known once the encoder has exited.
#[derive(Debug)]
pub struct ExitReport {
    /// Whether the encoder reported success.
    pub success: bool,
    /// Its exit code, where the system gave one.
    pub exit_code: Option<i32>,
    /// What it wrote to its error stream.
    pub stderr: String,
    /// Whether the destination file exists.
    pub output_exists: bool,
    /// The size of the destination file in bytes; zero if it cannot be told.
    pub output_size: u64,
}

/// Whether a finished encoder has done its work: it must report success and
/// leave a file that is not empty.
pub open spec fn conversion_outcome(
    success: bool,
    exit_code: Option<i32>,
    stderr: Seq<char>,
    output_exists: bool,
    output_size: u64,
    output_path: Seq<char>,
) -> Result<Seq<char>, ConversionErrorView> {
    if !success {
        Err(
            ConversionErrorView::EncodingFailed {
                exit_code,
                reason: failure_reason(stderr),
                stderr,
            },
        )
    } else if !output_exists {
        Err(ConversionErrorView::OutputMissing(output_path))
    } else if output_size == 0 {
        Err(ConversionErrorView::OutputEmpty(output_path))
    } else {
        Ok(output_path)
    }
}

/// The outcome in an executable outcome.
pub open spec fn outcome_view(outcome: Result<String, ConversionError>) -> Result<
    Seq<char>,
    ConversionErrorView,
> {
    match outcome {
        Ok(path) => Ok(path@),
        Err(error) => Err(error@),
    }
}

/// Judges a finished encoder: the destination on success, the error
/// otherwise.
pub fn judge_exit(report: &ExitReport, output_path: &str) -> (outcome: Result<
    String,
    ConversionError,
>)
    ensures
        outcome_view(outcome) == conversion_outcome(
            report.success,
            report.exit_code,
            report.stderr@,
            report.output_exists,
            report.output_size,
            output_path@,
        ),
{
    if !report.success {
        Err(
            ConversionError::EncodingFailed {
                exit_code: report.exit_code,
                reason: classify_failure(report.stderr.as_str()),
                stderr: report.stderr.clone(),
            },
        )
    } else if !report.output_exists {
        Err(ConversionError::OutputMissing(String::from_str(output_path)))
    } else if report.output_size == 0 {
        Err(ConversionError::OutputEmpty(String::from_str(output_path)))
    } else {
        Ok(String::from_str(output_path))
    }
}

} // verus!
