//! What the prober's report says about a media file.

use vstd::prelude::*;
use vstd::utf8::encode_utf8;
use crate::json::{
    elements, error_text, json_document, json_elements, json_fault, json_member, json_text,
    json_unsigned, member, parse_document, text, unsigned,
};
use crate::seconds::{micros_value, parse_micros, span_string, span_text, Span};
use crate::text::{decimal_text, parse_u64, str_eq, u64_to_string, unsigned_value};
use crate::types::{opt_str_view, FileMetadata, FileMetadataView};

verus! {

/// The text of the member `key` of a value, where the value is there, has
/// such a member, and the member is a string.
pub open spec fn member_text(value: Option<serde_json::Value>, key: Seq<char>) -> Option<
    Seq<char>,
> {
    match value {
        Some(object) => match json_member(object, key) {
            Some(inner) => json_text(inner),
            None => None,
        },
        None => None,
    }
}

/// The number of the member `key` of a value, where the value is there, has
/// such a member, and the member is an integer that fits a `u64`.
pub open spec fn member_unsigned(value: Option<serde_json::Value>, key: Seq<char>) -> Option<u64> {
    match value {
        Some(object) => match json_member(object, key) {
            Some(inner) => json_unsigned(inner),
            None => None,
        },
        None => None,
    }
}

/// What a report says in so many words: the texts and numbers that the
/// metadata is made of, each absent where the report lacks it or gives it in
/// another form.
#[derive(Clone, Copy, Debug)]
pub struct ProbeFields<'a> {
    /// The duration in seconds, from the format section.
    pub duration: Option<&'a str>,
    /// The bit rate in bits per second, from the format section.
    pub bit_rate: Option<&'a str>,
    /// The container's name, from the format section.
    pub format_name: Option<&'a str>,
    /// The size in bytes, from the format section.
    pub size: Option<&'a str>,
    /// The width in pixels, from the first video stream.
    pub width: Option<u64>,
    /// The height in pixels, from the first video stream.
    pub height: Option<u64>,
    /// The codec's name, from the first video stream.
    pub codec_name: Option<&'a str>,
}

/// What a [`ProbeFields`] holds, as plain values.
pub struct ProbeFieldsView {
    pub duration: Option<Seq<char>>,
    pub bit_rate: Option<Seq<char>>,
    pub format_name: Option<Seq<char>>,
    pub size: Option<Seq<char>>,
    pub width: Option<u64>,
    pub height: Option<u64>,
    pub codec_name: Option<Seq<char>>,
}

impl<'a> View for ProbeFields<'a> {
    type V = ProbeFieldsView;

    open spec fn view(&self) -> ProbeFieldsView {
        ProbeFieldsView {
            duration: opt_str_view(self.duration),
            bit_rate: opt_str_view(self.bit_rate),
            format_name: opt_str_view(self.format_name),
            size: opt_str_view(self.size),
            width: self.width,
            height: self.height,
            codec_name: opt_str_view(self.codec_name),
        }
    }
}

/// A duration as minutes and seconds, where it is given in seconds that
/// can be read as a number.
pub open spec fn duration_text(seconds: Option<Seq<char>>) -> Option<Seq<char>> {
    match seconds {
        Some(text) => match micros_value(encode_utf8(text)) {
            Some(span) => Some(span_text(span)),
            None => None,
        },
        None => None,
    }
}

/// A bit rate in whole thousands of bits per second, where it is given in
/// bits per second.
pub open spec fn bitrate_text(bits: Option<Seq<char>>) -> Option<Seq<char>> {
    match bits {
        Some(text) => match unsigned_value(encode_utf8(text)) {
            Some(rate) => Some(decimal_text((rate / 1000) as nat) + " kbps"@),
            None => None,
        },
        None => None,
    }
}

/// A size in bytes, where it is given as a number.
pub open spec fn size_value(bytes: Option<Seq<char>>) -> Option<u64> {
    match bytes {
        Some(text) => unsigned_value(encode_utf8(text)),
        None => None,
    }
}

/// Width and height as one text, where both are given.
pub open spec fn dimensions_text(width: Option<u64>, height: Option<u64>) -> Option<Seq<char>> {
    match (width, height) {
        (Some(w), Some(h)) => Some(decimal_text(w as nat) + "x"@ + decimal_text(h as nat)),
        _ => None,
    }
}

/// The metadata that the fields of a report make. Every field is read on its
/// own: one that is absent or unreadable leaves its place empty and nothing
/// else.
pub open spec fn described(fields: ProbeFieldsView) -> FileMetadataView {
    FileMetadataView {
        dimensions: dimensions_text(fields.width, fields.height),
        duration: duration_text(fields.duration),
        bitrate: bitrate_text(fields.bit_rate),
        codec: fields.codec_name,
        format: fields.format_name,
        size: size_value(fields.size),
    }
}

/// Whether a stream is a video stream.
pub open spec fn is_video(stream: serde_json::Value) -> bool {
    member_text(Some(stream), "codec_type"@) == Some("video"@)
}

/// The first video stream among the streams.
pub open spec fn first_video(streams: Seq<serde_json::Value>) -> Option<serde_json::Value>
    decreases streams.len(),
{
    if streams.len() == 0 {
        None
    } else if is_video(streams[0]) {
        Some(streams[0])
    } else {
        first_video(streams.drop_first())
    }
}

/// The first video stream of a report.
pub open spec fn video_of(report: serde_json::Value) -> Option<serde_json::Value> {
    match json_member(report, "streams"@) {
        Some(streams) => match json_elements(streams) {
            Some(items) => first_video(items),
            None => None,
        },
        None => None,
    }
}

/// The fields of a report: duration, bit rate, container and size from its
/// format section, dimensions and codec from its first video stream.
pub open spec fn fields_of(report: serde_json::Value) -> ProbeFieldsView {
    let format = json_member(report, "format"@);
    let video = video_of(report);
    ProbeFieldsView {
        duration: member_text(format, "duration"@),
        bit_rate: member_text(format, "bit_rate"@),
        format_name: member_text(format, "format_name"@),
        size: member_text(format, "size"@),
        width: member_unsigned(video, "width"@),
        height: member_unsigned(video, "height"@),
        codec_name: member_text(video, "codec_name"@),
    }
}

/// What a report says about a file.
pub open spec fn metadata_of(report: serde_json::Value) -> FileMetadataView {
    described(fields_of(report))
}

/// The value of an optional reference.
pub open spec fn found_value(found: Option<&serde_json::Value>) -> Option<serde_json::Value> {
    match found {
        Some(inner) => Some(*inner),
        None => None,
    }
}

/// The string member `key` of a value.
fn string_member<'a>(value: Option<&'a serde_json::Value>, key: &str) -> (found: Option<&'a str>)
    ensures
        opt_str_view(found) == member_text(found_value(value), key@),
{
    match value {
        Some(object) => match member(object, key) {
            Some(inner) => text(inner),
            None => None,
        },
        None => None,
    }
}

/// The integer member `key` of a value.
fn unsigned_member(value: Option<&serde_json::Value>, key: &str) -> (found: Option<u64>)
    ensures
        found == member_unsigned(found_value(value), key@),
{
    match value {
        Some(object) => match member(object, key) {
            Some(inner) => unsigned(inner),
            None => None,
        },
        None => None,
    }
}

/// The first video stream of a report.
fn find_video<'a>(report: &'a serde_json::Value) -> (found: Option<&'a serde_json::Value>)
    ensures
        found_value(found) == video_of(*report),
{
    let items = match member(report, "streams") {
        Some(streams) => match elements(streams) {
            Some(items) => items,
            None => {
                return None;
            },
        },
        None => {
            return None;
        },
    };
    let mut i: usize = 0;
    assert(items@ == items@.subrange(0, items@.len() as int));
    while i < items.len()
        invariant
            i <= items@.len(),
            video_of(*report) == first_video(items@),
            first_video(items@) == first_video(items@.subrange(i as int, items@.len() as int)),
        decreases items@.len() - i,
    {
        let ghost rest = items@.subrange(i as int, items@.len() as int);
        assert(rest[0] == items@[i as int]);
        assert(rest.drop_first() == items@.subrange(i + 1, items@.len() as int));
        match string_member(Some(&items[i]), "codec_type") {
            Some(kind) => {
                if str_eq(kind, "video") {
                    return Some(&items[i]);
                }
            },
            None => {},
        }
        i += 1;
    }
    None
}

/// Copies an optional text.
fn owned(text: Option<&str>) -> (copy: Option<String>)
    ensures
        crate::types::opt_view(copy) == opt_str_view(text),
{
    match text {
        Some(inner) => Some(String::from_str(inner)),
        None => None,
    }
}

/// Makes a file's metadata of the fields of a report.
pub fn describe(fields: &ProbeFields) -> (metadata: FileMetadata)
    ensures
        metadata@ == described(fields@),
{
    let duration = match fields.duration {
        Some(seconds) => match parse_micros(seconds.as_bytes()) {
            Some(span) => Some(span_string(span)),
            None => None,
        },
        None => None,
    };
    let bitrate = match fields.bit_rate {
        Some(bits) => match parse_u64(bits.as_bytes()) {
            Some(rate) => Some(u64_to_string(rate / 1000).concat(" kbps")),
            None => None,
        },
        None => None,
    };
    let size = match fields.size {
        Some(bytes) => parse_u64(bytes.as_bytes()),
        None => None,
    };
    let dimensions = match (fields.width, fields.height) {
        (Some(width), Some(height)) => Some(
            u64_to_string(width).concat("x").concat(u64_to_string(height).as_str()),
        ),
        _ => None,
    };
    FileMetadata {
        dimensions,
        duration,
        bitrate,
        codec: owned(fields.codec_name),
        format: owned(fields.format_name),
        size,
    }
}

/// Picks the fields out of the prober's report.
pub fn read_fields<'a>(report: &'a serde_json::Value) -> (fields: ProbeFields<'a>)
    ensures
        fields@ == fields_of(*report),
{
    let format = member(report, "format");
    let video = find_video(report);
    ProbeFields {
        duration: string_member(format, "duration"),
        bit_rate: string_member(format, "bit_rate"),
        format_name: string_member(format, "format_name"),
        size: string_member(format, "size"),
        width: unsigned_member(video, "width"),
        height: unsigned_member(video, "height"),
        codec_name: string_member(video, "codec_name"),
    }
}

/// Reads a file's metadata out of the prober's report.
pub fn parse_metadata_from_json(json_value: &serde_json::Value) -> (metadata: FileMetadata)
    ensures
        metadata@ == metadata_of(*json_value),
{
    describe(&read_fields(json_value))
}

/// Why a file's metadata could not be had.
#[derive(Debug)]
pub enum MetadataError {
    /// The file is not there; holds its path.
    NotFound(String),
    /// The prober could not be run; holds what the system said.
    ProbeNotRun(String),
    /// The prober reported failure; holds what it wrote.
    ProbeFailed(String),
    /// The prober's report is no JSON; holds what the parser said.
    ParseError(String),
}

/// What a [`MetadataError`] holds, as plain text.
pub enum MetadataErrorView {
    NotFound(Seq<char>),
    ProbeNotRun(Seq<char>),
    ProbeFailed(Seq<char>),
    ParseError(Seq<char>),
}

impl View for MetadataError {
    type V = MetadataErrorView;

    open spec fn view(&self) -> MetadataErrorView {
        match self {
            MetadataError::NotFound(path) => MetadataErrorView::NotFound(path@),
            MetadataError::ProbeNotRun(detail) => MetadataErrorView::ProbeNotRun(detail@),
            MetadataError::ProbeFailed(detail) => MetadataErrorView::ProbeFailed(detail@),
            MetadataError::ParseError(detail) => MetadataErrorView::ParseError(detail@),
        }
    }
}

/// The message of a metadata error.
pub open spec fn metadata_message(error: MetadataErrorView) -> Seq<char> {
    match error {
        MetadataErrorView::NotFound(path) => "File does not exist: "@ + path,
        MetadataErrorView::ProbeNotRun(detail) => "Failed to execute ffprobe: "@ + detail,
        MetadataErrorView::ProbeFailed(detail) => "FFprobe failed: "@ + detail,
        MetadataErrorView::ParseError(detail) => "Failed to parse ffprobe output: "@ + detail,
    }
}

impl MetadataError {
    /// The message of the error, as a person reads it.
    pub fn message(&self) -> (text: String)
        ensures
            text@ == metadata_message(self@),
    {
        match self {
            MetadataError::NotFound(path) => String::from_str("File does not exist: ").concat(
                path.as_str(),
            ),
            MetadataError::ProbeNotRun(detail) => String::from_str(
                "Failed to execute ffprobe: ",
            ).concat(detail.as_str()),
            MetadataError::ProbeFailed(detail) => String::from_str("FFprobe failed: ").concat(
                detail.as_str(),
            ),
            MetadataError::ParseError(detail) => String::from_str(
                "Failed to parse ffprobe output: ",
            ).concat(detail.as_str()),
        }
    }
}

/// The prober's arguments for a report on one file: quiet, in JSON, with the
/// format and the streams.
pub open spec fn probe_plan(file_path: Seq<char>, file_exists: bool) -> Result<
    Seq<Seq<char>>,
    MetadataErrorView,
> {
    if file_exists {
        Ok(
            seq![
                "-v"@,
                "quiet"@,
                "-print_format"@,
                "json"@,
                "-show_format"@,
                "-show_streams"@,
                file_path,
            ],
        )
    } else {
        Err(MetadataErrorView::NotFound(file_path))
    }
}

/// The plan in an executable plan.
pub open spec fn probe_plan_view(plan: Result<Vec<String>, MetadataError>) -> Result<
    Seq<Seq<char>>,
    MetadataErrorView,
> {
    match plan {
        Ok(arguments) => Ok(arguments.deep_view()),
        Err(error) => Err(error@),
    }
}

/// Decides how to ask the prober about a file, given whether the file
/// exists. A missing file is an error, and the prober is not to be run.
pub fn probe_arguments(file_path: &str, file_exists: bool) -> (plan: Result<
    Vec<String>,
    MetadataError,
>)
    ensures
        probe_plan_view(plan) == probe_plan(file_path@, file_exists),
{
    if !file_exists {
        return Err(MetadataError::NotFound(String::from_str(file_path)));
    }
    let mut arguments: Vec<String> = Vec::new();
    arguments.push(String::from_str("-v"));
    arguments.push(String::from_str("quiet"));
    arguments.push(String::from_str("-print_format"));
    arguments.push(String::from_str("json"));
    arguments.push(String::from_str("-show_format"));
    arguments.push(String::from_str("-show_streams"));
    arguments.push(String::from_str(file_path));
    assert(arguments.deep_view() =~= probe_plan(file_path@, file_exists)->Ok_0);
    Ok(arguments)
}

/// How running the prober went.
#[derive(Debug)]
pub enum ProbeRun {
    /// It could not be run; holds what the system said.
    NotRun(String),
    /// It ran: whether it reported success, and what it wrote to its output
    /// and to its error stream.
    Finished { success: bool, stdout: String, stderr: String },
}

/// What a run of the prober comes to.
pub enum ProbeVerdict {
    /// It could not be run; holds what the system said.
    NotRun(Seq<char>),
    /// It reported failure; holds what it wrote to its error stream.
    Failed(Seq<char>),
    /// It reported success and wrote something that is no JSON; holds what
    /// the parser said against it.
    Unreadable(Seq<char>),
    /// It reported success and wrote this document.
    Report(serde_json::Value),
}

/// What a run of the prober comes to.
pub open spec fn probe_verdict(run: ProbeRun) -> ProbeVerdict {
    match run {
        ProbeRun::NotRun(said) => ProbeVerdict::NotRun(said@),
        ProbeRun::Finished { success, stdout, stderr } => if !success {
            ProbeVerdict::Failed(stderr@)
        } else {
            match json_document(stdout@) {
                Some(report) => ProbeVerdict::Report(report),
                None => ProbeVerdict::Unreadable(json_fault(stdout@)),
            }
        },
    }
}

/// Reads a file's metadata out of a run of the prober. A prober that could
/// not be run or that reported failure is an error, with what was said; so
/// is a report that is no JSON, with what the parser said. Any JSON report
/// gives metadata, with whatever it lacks left absent.
pub fn extract_file_metadata(run: &ProbeRun) -> (result: Result<FileMetadata, MetadataError>)
    ensures
        match probe_verdict(*run) {
            ProbeVerdict::NotRun(said) => result matches Err(error) && error@
                == MetadataErrorView::ProbeNotRun(said),
            ProbeVerdict::Failed(said) => result matches Err(error) && error@
                == MetadataErrorView::ProbeFailed(said),
            ProbeVerdict::Unreadable(said) => result matches Err(error) && error@
                == MetadataErrorView::ParseError(said),
            ProbeVerdict::Report(report) => result matches Ok(metadata) && metadata@
                == metadata_of(report),
        },
{
    match run {
        ProbeRun::NotRun(said) => Err(MetadataError::ProbeNotRun(said.clone())),
        ProbeRun::Finished { success, stdout, stderr } => {
            if !*success {
                return Err(MetadataError::ProbeFailed(stderr.clone()));
            }
            match parse_document(stdout.as_str()) {
                Ok(report) => Ok(parse_metadata_from_json(&report)),
                Err(error) => Err(MetadataError::ParseError(error_text(&error))),
            }
        },
    }
}

/// The length of the source in microseconds that a run of the prober tells;
/// zero where it tells none.
pub open spec fn probed_micros(run: ProbeRun) -> u64 {
    match probe_verdict(run) {
        ProbeVerdict::Report(report) => length_micros(fields_of(report).duration),
        _ => 0,
    }
}

/// The microseconds in a duration given in seconds; zero where none is
/// given, where it cannot be read, and where it is endless.
pub open spec fn length_micros(seconds: Option<Seq<char>>) -> u64 {
    match seconds {
        Some(text) => match micros_value(encode_utf8(text)) {
            Some(Span::Micros(micros)) => micros,
            _ => 0,
        },
        None => 0,
    }
}

/// Reads a duration given in seconds, as microseconds; zero stands for a
/// length that is not known.
pub fn duration_micros(seconds: Option<&str>) -> (micros: u64)
    ensures
        micros == length_micros(opt_str_view(seconds)),
{
    match seconds {
        Some(text) => match parse_micros(text.as_bytes()) {
            Some(Span::Micros(micros)) => micros,
            _ => 0,
        },
        None => 0,
    }
}

/// Reads the length of the source out of a run of the prober, as far as it
/// can be had: zero stands for a length that is not known.
pub fn probe_duration(run: &ProbeRun) -> (micros: u64)
    ensures
        micros == probed_micros(*run),
{
    match run {
        ProbeRun::NotRun(_) => 0,
        ProbeRun::Finished { success, stdout, stderr } => {
            if !*success {
                return 0;
            }
            match parse_document(stdout.as_str()) {
                Ok(report) => duration_micros(read_fields(&report).duration),
                Err(_) => 0,
            }
        },
    }
}

} // verus!
