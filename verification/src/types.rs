//! The records that cross the command surface.

use vstd::prelude::*;

verus! {

/// The text of an optional string.
pub open spec fn opt_view(s: Option<String>) -> Option<Seq<char>> {
    match s {
        Some(t) => Some(t@),
        None => None,
    }
}

/// The text of an optional string slice.
pub open spec fn opt_str_view(s: Option<&str>) -> Option<Seq<char>> {
    match s {
        Some(t) => Some(t@),
        None => None,
    }
}

/// Copies an optional string.
pub fn clone_opt(s: &Option<String>) -> (copy: Option<String>)
    ensures
        opt_view(copy) == opt_view(*s),
{
    match s {
        Some(t) => Some(t.clone()),
        None => None,
    }
}

/// What a media file is, as far as the prober reports it. Every field is
/// absent when the report lacks it.
#[derive(Debug)]
pub struct FileMetadata {
    pub dimensions: Option<String>,
    pub duration: Option<String>,
    pub bitrate: Option<String>,
    pub codec: Option<String>,
    pub format: Option<String>,
    pub size: Option<u64>,
}

/// What a [`FileMetadata`] holds, as plain text.
pub struct FileMetadataView {
    pub dimensions: Option<Seq<char>>,
    pub duration: Option<Seq<char>>,
    pub bitrate: Option<Seq<char>>,
    pub codec: Option<Seq<char>>,
    pub format: Option<Seq<char>>,
    pub size: Option<u64>,
}

impl View for FileMetadata {
    type V = FileMetadataView;

    open spec fn view(&self) -> FileMetadataView {
        FileMetadataView {
            dimensions: opt_view(self.dimensions),
            duration: opt_view(self.duration),
            bitrate: opt_view(self.bitrate),
            codec: opt_view(self.codec),
            format: opt_view(self.format),
            size: self.size,
        }
    }
}

impl Clone for FileMetadata {
    fn clone(&self) -> (copy: Self)
        ensures
            copy@ == self@,
    {
        FileMetadata {
            dimensions: clone_opt(&self.dimensions),
            duration: clone_opt(&self.duration),
            bitrate: clone_opt(&self.bitrate),
            codec: clone_opt(&self.codec),
            format: clone_opt(&self.format),
            size: self.size,
        }
    }
}

/// What the caller asks of one conversion.
#[derive(Debug)]
pub struct ConversionOptions {
    pub output_format: String,
    pub quality: String,
    pub output_dir: Option<String>,
    pub preserve_metadata: bool,
}

/// What a [`ConversionOptions`] holds, as plain text.
pub struct ConversionOptionsView {
    pub output_format: Seq<char>,
    pub quality: Seq<char>,
    pub output_dir: Option<Seq<char>>,
    pub preserve_metadata: bool,
}

impl View for ConversionOptions {
    type V = ConversionOptionsView;

    open spec fn view(&self) -> ConversionOptionsView {
        ConversionOptionsView {
            output_format: self.output_format@,
            quality: self.quality@,
            output_dir: opt_view(self.output_dir),
            preserve_metadata: self.preserve_metadata,
        }
    }
}

impl Clone for ConversionOptions {
    fn clone(&self) -> (copy: Self)
        ensures
            copy@ == self@,
    {
        ConversionOptions {
            output_format: self.output_format.clone(),
            quality: self.quality.clone(),
            output_dir: clone_opt(&self.output_dir),
            preserve_metadata: self.preserve_metadata,
        }
    }
}

/// Where a job stands. `Completed`, `Failed` and `Cancelled` are final.
#[derive(Clone, Copy, Debug, PartialEq, Eq, Structural)]
pub enum Phase {
    Starting,
    Converting,
    Cancelling,
    Completed,
    Failed,
    Cancelled,
}

/// The name under which a phase is shown.
pub open spec fn phase_name(phase: Phase) -> Seq<char> {
    match phase {
        Phase::Starting => "Starting"@,
        Phase::Converting => "Converting"@,
        Phase::Cancelling => "Cancelling"@,
        Phase::Completed => "Completed"@,
        Phase::Failed => "Failed"@,
        Phase::Cancelled => "Cancelled"@,
    }
}

impl Phase {
    /// Whether no further phase can follow this one.
    pub open spec fn is_final(self) -> bool {
        self == Phase::Completed || self == Phase::Failed || self == Phase::Cancelled
    }

    /// Whether no further phase can follow this one.
    pub fn ended(self) -> (ended: bool)
        ensures
            ended == self.is_final(),
    {
        match self {
            Phase::Completed | Phase::Failed | Phase::Cancelled => true,
            _ => false,
        }
    }

    /// The name under which the phase is shown.
    pub fn name(self) -> (name: &'static str)
        ensures
            name@ == phase_name(self),
    {
        match self {
            Phase::Starting => "Starting",
            Phase::Converting => "Converting",
            Phase::Cancelling => "Cancelling",
            Phase::Completed => "Completed",
            Phase::Failed => "Failed",
            Phase::Cancelled => "Cancelled",
        }
    }
}

/// One hundred percent, in the unit of `ConversionProgress::progress`:
/// hundredths of a percent.
pub const PERCENT_FULL: u32 = 10_000;

/// The highest value a running job reports. Full progress is kept for a
/// conversion that is known to have completed.
pub const PERCENT_CAP: u32 = 9_900;

/// The least advance that is worth publishing: one percent.
pub const PERCENT_STEP: u32 = 100;

/// The observable state of one job.
///
/// `progress` counts hundredths of a percent, `eta` whole seconds and `speed`
/// hundredths of real time (150 is one and a half times real time).
#[derive(Debug)]
pub struct ConversionProgress {
    pub id: String,
    pub progress: u32,
    pub status: Phase,
    pub current_file: String,
    pub output_path: Option<String>,
    pub eta: Option<u64>,
    pub speed: Option<u64>,
}

/// What a [`ConversionProgress`] holds, as plain values.
pub struct ProgressView {
    pub id: Seq<char>,
    pub progress: u32,
    pub status: Phase,
    pub current_file: Seq<char>,
    pub output_path: Option<Seq<char>>,
    pub eta: Option<u64>,
    pub speed: Option<u64>,
}

impl ProgressView {
    /// The rules every record obeys: progress stays within range, is full
    /// exactly when the job has completed, and estimates are only given while
    /// the encoder runs.
    pub open spec fn well_formed(self) -> bool {
        &&& self.progress <= PERCENT_FULL
        &&& (self.progress == PERCENT_FULL <==> self.status == Phase::Completed)
        &&& (self.eta is Some || self.speed is Some) ==> self.status == Phase::Converting
    }
}

impl View for ConversionProgress {
    type V = ProgressView;

    open spec fn view(&self) -> ProgressView {
        ProgressView {
            id: self.id@,
            progress: self.progress,
            status: self.status,
            current_file: self.current_file@,
            output_path: opt_view(self.output_path),
            eta: self.eta,
            speed: self.speed,
        }
    }
}

impl Clone for ConversionProgress {
    fn clone(&self) -> (copy: Self)
        ensures
            copy@ == self@,
    {
        ConversionProgress {
            id: self.id.clone(),
            progress: self.progress,
            status: self.status,
            current_file: self.current_file.clone(),
            output_path: clone_opt(&self.output_path),
            eta: self.eta,
            speed: self.speed,
        }
    }
}

/// How a conversion ended, as told to whoever asked for it.
#[derive(Debug)]
pub struct ConversionResult {
    pub id: String,
    pub success: bool,
    pub output_path: Option<String>,
    pub error: Option<String>,
}

/// What a [`ConversionResult`] holds, as plain text.
pub struct ConversionResultView {
    pub id: Seq<char>,
    pub success: bool,
    pub output_path: Option<Seq<char>>,
    pub error: Option<Seq<char>>,
}

impl View for ConversionResult {
    type V = ConversionResultView;

    open spec fn view(&self) -> ConversionResultView {
        ConversionResultView {
            id: self.id@,
            success: self.success,
            output_path: opt_view(self.output_path),
            error: opt_view(self.error),
        }
    }
}

impl Clone for ConversionResult {
    fn clone(&self) -> (copy: Self)
        ensures
            copy@ == self@,
    {
        ConversionResult {
            id: self.id.clone(),
            success: self.success,
            output_path: clone_opt(&self.output_path),
            error: clone_opt(&self.error),
        }
    }
}

} // verus!
