//! The conversion supervisor: every decision taken while a file is
//! converted, from the request to the result.
//!
//! The supervisor does no I/O. Whoever drives it launches the encoder, reads
//! its status stream and waits for it to exit, and tells the supervisor what
//! happened; the supervisor keeps the books and answers with what to publish
//! and what to do next.

use vstd::prelude::*;
use crate::encoder::{conversion_plan, kill_arguments, kill_command, outcome_view};
use crate::error::{error_message, ConversionError, ConversionErrorView};
use crate::job::{
    apply, final_record, fresh_job, published, record_view, well_tracked, JobEvent, JobView,
};
use crate::progress::{read_progress_line, signal_of};
use crate::registry::{handle_event, register, release, ConversionState};
use crate::types::{
    clone_opt, opt_view, ConversionOptions, ConversionOptionsView, ConversionProgress,
    ConversionResult, ConversionResultView, Phase, ProgressView, PERCENT_FULL,
};

verus! {

/// Whether a text has the shape of a job id: 36 characters, hyphens after
/// the 8th, 12th, 16th and 20th hexadecimal digit, and lower-case hexadecimal
/// digits everywhere else.
pub open spec fn is_job_id(id: Seq<char>) -> bool {
    &&& id.len() == 36
    &&& forall|i: int|
        0 <= i < 36 ==> if i == 8 || i == 13 || i == 18 || i == 23 {
            #[trigger] id[i] == '-'
        } else {
            ('0' as u32 <= id[i] as u32 <= '9' as u32) || ('a' as u32 <= id[i] as u32 <= 'f' as u32)
        }
}

/// Draws a job id from `uuid::Uuid::new_v4` and writes it as
/// `Uuid::to_string` does. Taken on trust: the text is in the hyphenated
/// lower-case form. Nothing is claimed about which id is drawn; two draws may
/// even agree. The call stops the program if the system has no random bytes
/// to give.
#[verifier::external_body]
fn fresh_id() -> (id: String)
    ensures
        is_job_id(id@),
{
    uuid::Uuid::new_v4().to_string()
}

/// Accepts a conversion request: draws an id and starts tracking the job
/// under it, at no progress in phase `Starting`. Returns the id, or `None`
/// where the id drawn is already in use; nothing is tracked then. A draw
/// has the shape of a job id, so a registry that tracks nothing of that
/// shape always takes the request.
pub fn convert_file(
    state: &mut ConversionState,
    file_path: String,
    output_path: String,
    options: ConversionOptions,
) -> (id: Option<String>)
    ensures
        well_tracked(final(state)@),
        match id {
            Some(id) => is_job_id(id@) && !old(state)@.contains_key(id@) && final(state)@
                == old(state)@.insert(id@, fresh_job(id@, file_path@, output_path@, options@)),
            None => final(state)@ == old(state)@,
        },
        id is None ==> exists|taken: Seq<char>|
            is_job_id(taken) && #[trigger] old(state)@.contains_key(taken),
{
    let id = fresh_id();
    let answer = id.clone();
    if register(state, id, file_path, output_path, options) {
        Some(answer)
    } else {
        assert(is_job_id(answer@) && old(state)@.contains_key(answer@));
        None
    }
}

/// The current record of a job; `None` where no such job is tracked.
pub fn get_conversion_progress(state: &ConversionState, id: &str) -> (record: Option<
    ConversionProgress,
>)
    ensures
        record_view(record) == if state@.contains_key(id@) {
            Some(state@[id@].progress)
        } else {
            None
        },
        well_tracked(state@),
{
    match state.job(id) {
        Some(job) => Some(job.progress),
        None => None,
    }
}

/// Records that the encoder of job `id` runs as process `pid`, on a source of
/// `total_us` microseconds (zero if unknown). Returns the record to publish.
/// `None` means that the job is not waiting to be launched, because it was
/// cancelled or is not tracked: the process is then nobody's and should be
/// ended by the caller.
pub fn process_spawned(state: &mut ConversionState, id: &str, pid: u32, total_us: u64) -> (record:
    Option<ConversionProgress>)
    ensures
        final(state)@ == apply(old(state)@, id@, JobEvent::Spawned { pid, total_us }),
        well_tracked(final(state)@),
        record_view(record) == if old(state)@.contains_key(id@) {
            published(old(state)@[id@], JobEvent::Spawned { pid, total_us })
        } else {
            None
        },
{
    handle_event(state, id, &JobEvent::Spawned { pid, total_us })
}

/// Feeds one line of the encoder's status stream, read `wall_us` microseconds
/// after the launch, to the job `id`. Returns the record to publish, if the
/// line made a difference. Once the returned record is in phase `Completed`
/// the end marker has been seen and the stream need not be read further.
pub fn report_progress(state: &mut ConversionState, id: &str, line: &str, wall_us: u64) -> (record:
    Option<ConversionProgress>)
    ensures
        final(state)@ == apply(
            old(state)@,
            id@,
            JobEvent::Status { signal: signal_of(vstd::utf8::encode_utf8(line@)), wall_us },
        ),
        well_tracked(final(state)@),
        record_view(record) == if old(state)@.contains_key(id@) {
            published(
                old(state)@[id@],
                JobEvent::Status { signal: signal_of(vstd::utf8::encode_utf8(line@)), wall_us },
            )
        } else {
            None
        },
{
    let signal = read_progress_line(line);
    handle_event(state, id, &JobEvent::Status { signal, wall_us })
}

/// What is to be done for a request to cancel.
#[derive(Debug)]
pub struct CancelPlan {
    /// The record to publish, if the job was still live.
    pub progress: Option<ConversionProgress>,
    /// The command that kills the encoder, if it runs.
    pub kill: Option<Vec<String>>,
    /// The file to delete, if it exists, once the encoder has been killed.
    pub output_path: Option<String>,
}

/// What a [`CancelPlan`] holds, as plain values.
pub struct CancelPlanView {
    pub progress: Option<ProgressView>,
    pub kill: Option<Seq<Seq<char>>>,
    pub output_path: Option<Seq<char>>,
}

impl View for CancelPlan {
    type V = CancelPlanView;

    open spec fn view(&self) -> CancelPlanView {
        CancelPlanView {
            progress: record_view(self.progress),
            kill: match self.kill {
                Some(command) => Some(command.deep_view()),
                None => None,
            },
            output_path: opt_view(self.output_path),
        }
    }
}

/// The plan for cancelling a job: a live job is shown as `Cancelling`; where
/// it has a process, that process is to be killed and the partial output
/// removed afterwards.
pub open spec fn cancel_plan(job: JobView, windows: bool) -> CancelPlanView {
    let running = !job.progress.status.is_final() && job.pid is Some;
    CancelPlanView {
        progress: published(job, JobEvent::CancelRequested),
        kill: if running {
            Some(kill_arguments(job.pid->0, windows))
        } else {
            None
        },
        output_path: if running {
            job.progress.output_path
        } else {
            None
        },
    }
}

/// Cancelling a converting job shows it as `Cancelling`, asks for its
/// process to be killed, and, once the kill has succeeded, names its
/// destination as the file to remove.
pub proof fn lemma_cancel_plan_while_converting(job: JobView, windows: bool)
    requires
        job.well_formed(),
        job.progress.status == Phase::Converting,
    ensures
        job.pid is Some,
        cancel_plan(job, windows).kill == Some(kill_arguments(job.pid->0, windows)),
        cancel_plan(job, windows).progress is Some,
        cancel_plan(job, windows).progress->0.status == Phase::Cancelling,
        kill_answer(cancel_plan(job, windows), KillOutcome::Killed, windows) == Ok::<
            Option<Seq<char>>,
            CancelErrorView,
        >(job.progress.output_path),
{
}

/// How an attempt to kill the encoder went.
#[derive(Debug)]
pub enum KillOutcome {
    /// The kill command ran and reported success.
    Killed,
    /// The kill command ran and reported failure; holds what it wrote.
    Refused(String),
    /// The kill command could not be run; holds what the system said.
    NotRun(String),
}

/// Why a request to cancel failed.
#[derive(Debug)]
pub enum CancelError {
    /// No job goes by the id.
    NotFound,
    /// The kill command reported failure.
    KillRefused(String),
    /// The kill command could not be run.
    KillNotRun { windows: bool, detail: String },
}

/// What a [`CancelError`] holds, as plain text.
pub enum CancelErrorView {
    NotFound,
    KillRefused(Seq<char>),
    KillNotRun { windows: bool, detail: Seq<char> },
}

impl View for CancelError {
    type V = CancelErrorView;

    open spec fn view(&self) -> CancelErrorView {
        match self {
            CancelError::NotFound => CancelErrorView::NotFound,
            CancelError::KillRefused(detail) => CancelErrorView::KillRefused(detail@),
            CancelError::KillNotRun { windows, detail } => CancelErrorView::KillNotRun {
                windows: *windows,
                detail: detail@,
            },
        }
    }
}

/// The message of a failed cancellation.
pub open spec fn cancel_message(error: CancelErrorView) -> Seq<char> {
    match error {
        CancelErrorView::NotFound => "Conversion not found"@,
        CancelErrorView::KillRefused(detail) => "Failed to kill process: "@ + detail,
        CancelErrorView::KillNotRun { windows, detail } => if windows {
            "Failed to execute taskkill: "@ + detail
        } else {
            "Failed to execute kill: "@ + detail
        },
    }
}

impl CancelError {
    /// The message of the error, as a person reads it.
    pub fn message(&self) -> (text: String)
        ensures
            text@ == cancel_message(self@),
    {
        match self {
            CancelError::NotFound => String::from_str("Conversion not found"),
            CancelError::KillRefused(detail) => String::from_str("Failed to kill process: ").concat(
                detail.as_str(),
            ),
            CancelError::KillNotRun { windows, detail } => {
                if *windows {
                    String::from_str("Failed to execute taskkill: ").concat(detail.as_str())
                } else {
                    String::from_str("Failed to execute kill: ").concat(detail.as_str())
                }
            },
        }
    }
}

/// Asks for the job `id` to be cancelled. A live job gives up its process
/// and is shown as `Cancelling`; the plan says what to publish, which command
/// kills the encoder, and which file to remove after the kill. A live job
/// without a process is `Cancelled` at once. A job that has ended is left
/// alone. An id that is not tracked is an error.
pub fn cancel_conversion(state: &mut ConversionState, id: &str, windows: bool) -> (result: Result<
    CancelPlan,
    CancelError,
>)
    ensures
        final(state)@ == apply(old(state)@, id@, JobEvent::CancelRequested),
        well_tracked(final(state)@),
        match result {
            Ok(plan) => old(state)@.contains_key(id@) && plan@ == cancel_plan(
                old(state)@[id@],
                windows,
            ),
            Err(error) => !old(state)@.contains_key(id@) && error@ == CancelErrorView::NotFound,
        },
{
    let running = match state.job(id) {
        None => {
            return Err(CancelError::NotFound);
        },
        Some(job) => {
            if job.progress.status.ended() {
                None
            } else {
                match job.pid {
                    Some(pid) => Some((pid, job.progress.output_path)),
                    None => None,
                }
            }
        },
    };
    let progress = handle_event(state, id, &JobEvent::CancelRequested);
    match running {
        Some((pid, output_path)) => Ok(
            CancelPlan { progress, kill: Some(kill_command(pid, windows)), output_path },
        ),
        None => Ok(CancelPlan { progress, kill: None, output_path: None }),
    }
}

/// The answer to a kill: the file to remove where the kill succeeded, or the
/// error to report.
pub open spec fn kill_answer(plan: CancelPlanView, outcome: KillOutcome, windows: bool) -> Result<
    Option<Seq<char>>,
    CancelErrorView,
> {
    match outcome {
        KillOutcome::Killed => Ok(plan.output_path),
        KillOutcome::Refused(detail) => Err(CancelErrorView::KillRefused(detail@)),
        KillOutcome::NotRun(detail) => Err(
            CancelErrorView::KillNotRun { windows, detail: detail@ },
        ),
    }
}

/// The answer in an executable answer to a kill.
pub open spec fn answer_view(answer: Result<Option<String>, CancelError>) -> Result<
    Option<Seq<char>>,
    CancelErrorView,
> {
    match answer {
        Ok(path) => Ok(opt_view(path)),
        Err(error) => Err(error@),
    }
}

/// Records how the kill that a [`CancelPlan`] asked for went. After a
/// successful kill the job is `Cancelled` and the answer names the file to
/// remove, if it exists. A failed kill changes nothing and is reported.
pub fn kill_finished(
    state: &mut ConversionState,
    id: &str,
    plan: &CancelPlan,
    outcome: &KillOutcome,
    windows: bool,
) -> (answer: Result<Option<String>, CancelError>)
    ensures
        final(state)@ == if *outcome is Killed {
            apply(old(state)@, id@, JobEvent::KillConfirmed)
        } else {
            old(state)@
        },
        well_tracked(final(state)@),
        answer_view(answer) == kill_answer(plan@, *outcome, windows),
{
    match outcome {
        KillOutcome::Killed => {
            let _ = handle_event(state, id, &JobEvent::KillConfirmed);
            Ok(clone_opt(&plan.output_path))
        },
        KillOutcome::Refused(detail) => {
            state.recall_sound();
            Err(CancelError::KillRefused(detail.clone()))
        },
        KillOutcome::NotRun(detail) => {
            state.recall_sound();
            Err(CancelError::KillNotRun { windows, detail: detail.clone() })
        },
    }
}

/// What whoever asked for a conversion is told at its end.
pub open spec fn result_of(
    id: Seq<char>,
    outcome: Result<Seq<char>, ConversionErrorView>,
) -> ConversionResultView {
    match outcome {
        Ok(path) => ConversionResultView {
            id,
            success: true,
            output_path: Some(path),
            error: None,
        },
        Err(error) => ConversionResultView {
            id,
            success: false,
            output_path: None,
            error: Some(error_message(error)),
        },
    }
}

/// A conversion whose source is not there is accepted like any other, has
/// nothing to launch whatever else was asked, and ends as `Failed` with a
/// result that says so; the registry is then as it was before the request.
pub proof fn lemma_missing_source_fails(
    jobs: Map<Seq<char>, JobView>,
    id: Seq<char>,
    input_path: Seq<char>,
    output_path: Seq<char>,
    options: ConversionOptionsView,
)
    requires
        !jobs.contains_key(id),
    ensures
        conversion_plan(input_path, output_path, options, false) == Err::<
            Seq<Seq<char>>,
            ConversionErrorView,
        >(ConversionErrorView::InputMissing(input_path)),
        !result_of(id, Err(ConversionErrorView::InputMissing(input_path))).success,
        result_of(id, Err(ConversionErrorView::InputMissing(input_path))).output_path is None,
        result_of(id, Err(ConversionErrorView::InputMissing(input_path))).error == Some(
            "Input file does not exist: "@ + input_path,
        ),
        final_record(fresh_job(id, input_path, output_path, options), false).status
            == Phase::Failed,
        jobs.insert(id, fresh_job(id, input_path, output_path, options)).remove(id) == jobs,
{
    assert(jobs.insert(id, fresh_job(id, input_path, output_path, options)).remove(id) =~= jobs);
}

/// Two requests that are both accepted go by different ids, and each job
/// holds its own source, destination and options, at no progress, whatever
/// the other holds.
pub proof fn lemma_two_starts_are_apart(
    jobs: Map<Seq<char>, JobView>,
    first: JobView,
    second: JobView,
)
    requires
        !jobs.contains_key(first.progress.id),
        !jobs.insert(first.progress.id, first).contains_key(second.progress.id),
    ensures
        first.progress.id != second.progress.id,
        jobs.insert(first.progress.id, first).insert(second.progress.id, second)[first.progress.id]
            == first,
        jobs.insert(first.progress.id, first).insert(
            second.progress.id,
            second,
        )[second.progress.id] == second,
{
}

/// The end of a conversion: the job's last record, if it was still tracked,
/// and the result to announce.
#[derive(Debug)]
pub struct Completion {
    pub progress: Option<ConversionProgress>,
    pub result: ConversionResult,
}

/// Ends the job `id` with the given outcome: the job leaves the registry,
/// and the answer holds its last record and the result to announce.
pub fn finish_conversion(
    state: &mut ConversionState,
    id: &str,
    outcome: Result<String, ConversionError>,
) -> (done: Completion)
    ensures
        final(state)@ == old(state)@.remove(id@),
        well_tracked(final(state)@),
        done.result@ == result_of(id@, outcome_view(outcome)),
        record_view(done.progress) == if old(state)@.contains_key(id@) {
            Some(final_record(old(state)@[id@], outcome is Ok))
        } else {
            None
        },
{
    let success = outcome.is_ok();
    let progress = match release(state, id) {
        None => None,
        Some(job) => {
            let mut last = job.progress;
            if !last.status.ended() {
                last.status = if last.status == Phase::Cancelling {
                    Phase::Cancelled
                } else if success {
                    Phase::Completed
                } else {
                    Phase::Failed
                };
            }
            if last.status == Phase::Completed {
                last.progress = PERCENT_FULL;
            }
            last.eta = None;
            last.speed = None;
            Some(last)
        },
    };
    let result = match outcome {
        Ok(path) => ConversionResult {
            id: String::from_str(id),
            success: true,
            output_path: Some(path),
            error: None,
        },
        Err(error) => ConversionResult {
            id: String::from_str(id),
            success: false,
            output_path: None,
            error: Some(error.message()),
        },
    };
    Completion { progress, result }
}

} // verus!
