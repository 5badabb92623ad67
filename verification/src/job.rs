//! The life of one job: what it shows, what can happen to it, and what each
//! event makes of it.

use vstd::prelude::*;
use crate::progress::{eta_at, percent_at, speed_at, ProgressSignal};
use crate::types::{
    ConversionOptions, ConversionOptionsView, ConversionProgress, Phase, ProgressView,
    PERCENT_FULL, PERCENT_STEP,
};

verus! {

/// One tracked job: what was asked for, the record it shows, the encoder's
/// process id while the encoder may still be killed, and the length of the
/// source in microseconds (zero while unknown).
#[derive(Debug)]
pub struct Job {
    pub options: ConversionOptions,
    pub progress: ConversionProgress,
    pub pid: Option<u32>,
    pub total_us: u64,
}

/// What a [`Job`] holds, as plain values.
pub struct JobView {
    pub options: ConversionOptionsView,
    pub progress: ProgressView,
    pub pid: Option<u32>,
    pub total_us: u64,
}

impl View for Job {
    type V = JobView;

    open spec fn view(&self) -> JobView {
        JobView {
            options: self.options@,
            progress: self.progress@,
            pid: self.pid,
            total_us: self.total_us,
        }
    }
}

impl JobView {
    /// The rules every tracked job obeys: its record is well formed, a
    /// process is known exactly while the encoder converts or is about to
    /// leave after completing, and estimates need a known length.
    pub open spec fn well_formed(self) -> bool {
        &&& self.progress.well_formed()
        &&& self.progress.status == Phase::Converting ==> self.pid is Some
        &&& self.pid is Some ==> (self.progress.status == Phase::Converting || self.progress.status
            == Phase::Completed)
        &&& (self.progress.eta is Some || self.progress.speed is Some) ==> self.total_us > 0
    }
}

/// The job that a request starts as: nothing done, no process, length
/// unknown.
pub open spec fn fresh_job(
    id: Seq<char>,
    source: Seq<char>,
    destination: Seq<char>,
    options: ConversionOptionsView,
) -> JobView {
    JobView {
        options,
        progress: ProgressView {
            id,
            progress: 0,
            status: Phase::Starting,
            current_file: source,
            output_path: Some(destination),
            eta: None,
            speed: None,
        },
        pid: None,
        total_us: 0,
    }
}

/// What can happen to a tracked job.
#[derive(Clone, Copy, Debug, PartialEq, Eq, Structural)]
pub enum JobEvent {
    /// The encoder was launched as process `pid` on a source of `total_us`
    /// microseconds (zero if unknown).
    Spawned { pid: u32, total_us: u64 },
    /// The encoder wrote a status line, `wall_us` microseconds after it was
    /// launched.
    Status { signal: ProgressSignal, wall_us: u64 },
    /// Someone asked for the job to be cancelled.
    CancelRequested,
    /// The encoder's process was killed.
    KillConfirmed,
}

/// A job whose encoder has been launched.
pub open spec fn spawned(job: JobView, pid: u32, total_us: u64) -> JobView {
    JobView {
        progress: ProgressView { status: Phase::Converting, ..job.progress },
        pid: Some(pid),
        total_us,
        ..job
    }
}

/// A converting job after a status line. The end marker completes it at full
/// progress. An elapsed time moves it forward where the length is known and
/// the progress has grown by a step at least; otherwise nothing changes.
pub open spec fn after_signal(job: JobView, signal: ProgressSignal, wall_us: u64) -> JobView {
    match signal {
        ProgressSignal::End => JobView {
            progress: ProgressView {
                progress: PERCENT_FULL,
                status: Phase::Completed,
                eta: None,
                speed: None,
                ..job.progress
            },
            ..job
        },
        ProgressSignal::Elapsed(elapsed_us) => match percent_at(elapsed_us, job.total_us) {
            Some(reached) => if reached >= job.progress.progress + PERCENT_STEP {
                JobView {
                    progress: ProgressView {
                        progress: reached,
                        eta: Some(eta_at(elapsed_us, job.total_us)),
                        speed: speed_at(elapsed_us, wall_us),
                        ..job.progress
                    },
                    ..job
                }
            } else {
                job
            },
            None => job,
        },
        ProgressSignal::Other => job,
    }
}

/// A live job after a request to cancel it: it gives up its process, which
/// is to be killed, or is cancelled at once where it has none.
pub open spec fn cancel_requested(job: JobView) -> JobView {
    JobView {
        progress: ProgressView {
            status: if job.pid is Some {
                Phase::Cancelling
            } else {
                Phase::Cancelled
            },
            eta: None,
            speed: None,
            ..job.progress
        },
        pid: None,
        ..job
    }
}

/// The job after an event. Only a starting job can be launched, only a
/// converting job follows its status stream, only a live job can be
/// cancelled, and only a job that is being cancelled is cancelled by a kill.
/// Everything else leaves the job as it is.
pub open spec fn step(job: JobView, event: JobEvent) -> JobView {
    match event {
        JobEvent::Spawned { pid, total_us } => if job.progress.status == Phase::Starting {
            spawned(job, pid, total_us)
        } else {
            job
        },
        JobEvent::Status { signal, wall_us } => if job.progress.status == Phase::Converting {
            after_signal(job, signal, wall_us)
        } else {
            job
        },
        JobEvent::CancelRequested => if job.progress.status.is_final() {
            job
        } else {
            cancel_requested(job)
        },
        JobEvent::KillConfirmed => if job.progress.status == Phase::Cancelling {
            JobView { progress: ProgressView { status: Phase::Cancelled, ..job.progress }, ..job }
        } else {
            job
        },
    }
}

/// The record to publish after an event, if any: the new record where a
/// launch or a status line changed the job, and a record in phase
/// `Cancelling` where a live job is asked to cancel.
pub open spec fn published(job: JobView, event: JobEvent) -> Option<ProgressView> {
    match event {
        JobEvent::CancelRequested => if job.progress.status.is_final() {
            None
        } else {
            Some(
                ProgressView {
                    status: Phase::Cancelling,
                    ..cancel_requested(job).progress
                },
            )
        },
        JobEvent::KillConfirmed => None,
        _ => if step(job, event) == job {
            None
        } else {
            Some(step(job, event).progress)
        },
    }
}

/// The registry after an event for the job `id`; unchanged where no such job
/// is tracked.
pub open spec fn apply(jobs: Map<Seq<char>, JobView>, id: Seq<char>, event: JobEvent) -> Map<
    Seq<char>,
    JobView,
> {
    if jobs.contains_key(id) {
        jobs.insert(id, step(jobs[id], event))
    } else {
        jobs
    }
}

/// The phase in which a job leaves the registry: a job that has ended stays
/// as it ended, a job that was being cancelled is `Cancelled`, and any other
/// job is `Completed` or `Failed` as the conversion went.
pub open spec fn final_phase(job: JobView, success: bool) -> Phase {
    if job.progress.status.is_final() {
        job.progress.status
    } else if job.progress.status == Phase::Cancelling {
        Phase::Cancelled
    } else if success {
        Phase::Completed
    } else {
        Phase::Failed
    }
}

/// The last record of a job: its final phase, full progress if it completed,
/// and no estimates.
pub open spec fn final_record(job: JobView, success: bool) -> ProgressView {
    ProgressView {
        progress: if final_phase(job, success) == Phase::Completed {
            PERCENT_FULL
        } else {
            job.progress.progress
        },
        status: final_phase(job, success),
        eta: None,
        speed: None,
        ..job.progress
    }
}

/// Whether every job of a registry is well formed and goes by the id in its
/// own record.
pub open spec fn well_tracked(jobs: Map<Seq<char>, JobView>) -> bool {
    forall|id: Seq<char>| #[trigger]
        jobs.contains_key(id) ==> jobs[id].well_formed() && jobs[id].progress.id == id
}

/// The record in an optional record.
pub open spec fn record_view(record: Option<ConversionProgress>) -> Option<ProgressView> {
    match record {
        Some(r) => Some(r@),
        None => None,
    }
}

/// Whether the phase `to` can follow the phase `from`, at once or after
/// others: a job starts, converts, and completes or fails; it can be cancelled
/// until it has ended; nothing follows an end.
pub open spec fn phase_reaches(from: Phase, to: Phase) -> bool {
    match from {
        Phase::Starting => true,
        Phase::Converting => to != Phase::Starting,
        Phase::Cancelling => to == Phase::Cancelling || to == Phase::Cancelled,
        _ => to == from,
    }
}

/// Whether a later record of a job is a fair successor of an earlier one: the
/// same job, a phase that can follow, no less progress, and no change at all
/// once the job has ended.
pub open spec fn advances(before: ProgressView, after: ProgressView) -> bool {
    &&& after.id == before.id
    &&& after.current_file == before.current_file
    &&& after.output_path == before.output_path
    &&& phase_reaches(before.status, after.status)
    &&& after.progress >= before.progress
    &&& before.status.is_final() ==> after == before
}

/// No event breaks the rules of a job.
pub proof fn lemma_step_well_formed(job: JobView, event: JobEvent)
    requires
        job.well_formed(),
    ensures
        step(job, event).well_formed(),
{
}

/// Whatever happens to a job, its progress never falls, its phase only moves
/// forward, and once it has ended it stays as it is. Full progress is shown
/// by a completed job and by no other. What was asked for stays as it was
/// asked.
pub proof fn lemma_step_advances(job: JobView, event: JobEvent)
    requires
        job.well_formed(),
    ensures
        advances(job.progress, step(job, event).progress),
        step(job, event).options == job.options,
        step(job, event).progress.progress == PERCENT_FULL <==> step(job, event).progress.status
            == Phase::Completed,
{
}

/// Every published record is well formed and a fair successor of the record
/// that the job showed before.
pub proof fn lemma_published_advances(job: JobView, event: JobEvent)
    requires
        job.well_formed(),
        published(job, event) is Some,
    ensures
        published(job, event)->0.well_formed(),
        advances(job.progress, published(job, event)->0),
{
}

/// The job after a run of events, one after the other.
pub open spec fn after_events(job: JobView, events: Seq<JobEvent>) -> JobView
    decreases events.len(),
{
    if events.len() == 0 {
        job
    } else {
        step(after_events(job, events.drop_last()), events.last())
    }
}

/// A fair successor of a fair successor is a fair successor.
pub proof fn lemma_advances_transitive(
    first: ProgressView,
    second: ProgressView,
    third: ProgressView,
)
    requires
        advances(first, second),
        advances(second, third),
    ensures
        advances(first, third),
{
}

/// Over any run of events a job keeps the rules, and what it shows at any
/// point of the run is followed fairly by what it shows at the end: seen at
/// two moments, its progress has not fallen and its phase has not gone back.
pub proof fn lemma_history_advances(job: JobView, events: Seq<JobEvent>, seen: int)
    requires
        job.well_formed(),
        0 <= seen <= events.len(),
    ensures
        after_events(job, events).well_formed(),
        after_events(job, events.take(seen)).well_formed(),
        advances(
            after_events(job, events.take(seen)).progress,
            after_events(job, events).progress,
        ),
    decreases events.len(),
{
    if seen == events.len() {
        assert(events.take(seen) == events);
        if events.len() > 0 {
            lemma_history_advances(job, events.drop_last(), 0);
            lemma_step_well_formed(after_events(job, events.drop_last()), events.last());
        }
    } else {
        let before = events.drop_last();
        lemma_history_advances(job, before, seen);
        assert(before.take(seen) == events.take(seen));
        lemma_step_well_formed(after_events(job, before), events.last());
        lemma_step_advances(after_events(job, before), events.last());
        lemma_advances_transitive(
            after_events(job, events.take(seen)).progress,
            after_events(job, before).progress,
            after_events(job, events).progress,
        );
    }
}

/// Whether two registries differ in the job `id` at most.
pub open spec fn same_but(
    before: Map<Seq<char>, JobView>,
    after: Map<Seq<char>, JobView>,
    id: Seq<char>,
) -> bool {
    forall|other: Seq<char>|
        other != id ==> (#[trigger] after.contains_key(other) == before.contains_key(other))
            && (before.contains_key(other) ==> after[other] == before[other])
}

/// Whatever is done for one job leaves every other job as it was: an event,
/// the start of tracking, and the end of it.
pub proof fn lemma_jobs_are_independent(
    jobs: Map<Seq<char>, JobView>,
    id: Seq<char>,
    event: JobEvent,
    job: JobView,
)
    ensures
        same_but(jobs, apply(jobs, id, event), id),
        same_but(jobs, jobs.insert(id, job), id),
        same_but(jobs, jobs.remove(id), id),
{
}

/// An event neither adds nor removes a job, and keeps the registry sound.
pub proof fn lemma_apply_well_tracked(
    jobs: Map<Seq<char>, JobView>,
    id: Seq<char>,
    event: JobEvent,
)
    requires
        well_tracked(jobs),
    ensures
        well_tracked(apply(jobs, id, event)),
        apply(jobs, id, event).dom() == jobs.dom(),
{
    if jobs.contains_key(id) {
        lemma_step_well_formed(jobs[id], event);
        lemma_step_advances(jobs[id], event);
        assert(apply(jobs, id, event).dom() =~= jobs.dom());
    }
}

/// Cancelling a converting job asks for its process to be killed, shows it
/// as `Cancelling`, and a confirmed kill leaves it `Cancelled`.
pub proof fn lemma_cancel_while_converting(job: JobView)
    requires
        job.well_formed(),
        job.progress.status == Phase::Converting,
    ensures
        job.pid is Some,
        step(job, JobEvent::CancelRequested).progress.status == Phase::Cancelling,
        step(job, JobEvent::CancelRequested).pid is None,
        published(job, JobEvent::CancelRequested) == Some(
            step(job, JobEvent::CancelRequested).progress,
        ),
        step(step(job, JobEvent::CancelRequested), JobEvent::KillConfirmed).progress.status
            == Phase::Cancelled,
{
}

/// The last record of a job is well formed and a fair successor of the
/// record before it.
pub proof fn lemma_final_record_advances(job: JobView, success: bool)
    requires
        job.well_formed(),
    ensures
        final_record(job, success).well_formed(),
        final_record(job, success).status.is_final(),
        advances(job.progress, final_record(job, success)),
{
}

} // verus!
