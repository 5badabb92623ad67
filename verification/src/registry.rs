//! The registry of jobs: who is tracked, under which id.

use vstd::prelude::*;
use crate::job::{
    apply, fresh_job, lemma_step_well_formed, published, record_view, step, well_tracked, Job,
    JobEvent, JobView,
};
use crate::progress::{eta_seconds, percent_of, speed_hundredths, ProgressSignal};
use crate::text::str_eq;
use crate::types::{ConversionOptions, ConversionProgress, Phase, PERCENT_FULL, PERCENT_STEP};

verus! {

/// Whether the job at index `i` goes by `id`.
spec fn tracked_at(jobs: Seq<Job>, id: Seq<char>, i: int) -> bool {
    0 <= i < jobs.len() && jobs[i].progress.id@ == id
}

/// The jobs by id.
spec fn registry(jobs: Seq<Job>) -> Map<Seq<char>, JobView> {
    Map::new(
        |id: Seq<char>| exists|i: int| tracked_at(jobs, id, i),
        |id: Seq<char>| jobs[choose|i: int| tracked_at(jobs, id, i)]@,
    )
}

/// Whether no id occurs twice.
spec fn distinct(jobs: Seq<Job>) -> bool {
    forall|i: int, j: int|
        0 <= i < jobs.len() && 0 <= j < jobs.len() && i != j ==> jobs[i].progress.id@
            != jobs[j].progress.id@
}

proof fn lemma_registry_at(jobs: Seq<Job>, i: int)
    requires
        distinct(jobs),
        0 <= i < jobs.len(),
    ensures
        registry(jobs).contains_key(jobs[i].progress.id@),
        registry(jobs)[jobs[i].progress.id@] == jobs[i]@,
{
    let id = jobs[i].progress.id@;
    assert(tracked_at(jobs, id, i));
}

proof fn lemma_registry_absent(jobs: Seq<Job>, id: Seq<char>)
    requires
        forall|i: int| 0 <= i < jobs.len() ==> jobs[i].progress.id@ != id,
    ensures
        !registry(jobs).contains_key(id),
{
}

proof fn lemma_registry_push(jobs: Seq<Job>, job: Job)
    requires
        distinct(jobs),
        forall|i: int| 0 <= i < jobs.len() ==> jobs[i].progress.id@ != job.progress.id@,
    ensures
        distinct(jobs.push(job)),
        registry(jobs.push(job)) == registry(jobs).insert(job.progress.id@, job@),
{
    let after = jobs.push(job);
    assert(distinct(after));
    assert forall|id: Seq<char>|
        registry(after).contains_key(id) == registry(jobs).insert(
            job.progress.id@,
            job@,
        ).contains_key(id) by {
        if registry(after).contains_key(id) {
            let k = choose|k: int| tracked_at(after, id, k);
            if k < jobs.len() {
                assert(tracked_at(jobs, id, k));
            }
        }
        if registry(jobs).contains_key(id) {
            let k = choose|k: int| tracked_at(jobs, id, k);
            assert(tracked_at(after, id, k));
        }
        if id == job.progress.id@ {
            assert(tracked_at(after, id, jobs.len() as int));
        }
    }
    assert forall|id: Seq<char>| registry(after).contains_key(id) implies registry(after)[id]
        == registry(jobs).insert(job.progress.id@, job@)[id] by {
        let k = choose|k: int| tracked_at(after, id, k);
        lemma_registry_at(after, k);
        if id != job.progress.id@ {
            lemma_registry_at(jobs, k);
        }
    }
    assert(registry(after) =~= registry(jobs).insert(job.progress.id@, job@));
}

proof fn lemma_registry_remove(jobs: Seq<Job>, i: int)
    requires
        distinct(jobs),
        0 <= i < jobs.len(),
    ensures
        distinct(jobs.remove(i)),
        registry(jobs.remove(i)) == registry(jobs).remove(jobs[i].progress.id@),
{
    let after = jobs.remove(i);
    let gone = jobs[i].progress.id@;
    assert forall|a: int, b: int|
        0 <= a < after.len() && 0 <= b < after.len() && a != b implies after[a].progress.id@
        != after[b].progress.id@ by {
        let a0 = if a < i { a } else { a + 1 };
        let b0 = if b < i { b } else { b + 1 };
        assert(after[a] == jobs[a0]);
        assert(after[b] == jobs[b0]);
    }
    assert forall|id: Seq<char>|
        registry(after).contains_key(id) == registry(jobs).remove(gone).contains_key(id) by {
        if registry(after).contains_key(id) {
            let k = choose|k: int| tracked_at(after, id, k);
            let k0 = if k < i { k } else { k + 1 };
            assert(after[k] == jobs[k0]);
            assert(tracked_at(jobs, id, k0));
        }
        if registry(jobs).contains_key(id) && id != gone {
            let k = choose|k: int| tracked_at(jobs, id, k);
            let k1 = if k < i { k } else { k - 1 };
            assert(after[k1] == jobs[k]);
            assert(tracked_at(after, id, k1));
        }
    }
    assert forall|id: Seq<char>| registry(after).contains_key(id) implies registry(after)[id]
        == registry(jobs).remove(gone)[id] by {
        let k = choose|k: int| tracked_at(after, id, k);
        let k0 = if k < i { k } else { k + 1 };
        assert(after[k] == jobs[k0]);
        lemma_registry_at(after, k);
        lemma_registry_at(jobs, k0);
    }
    assert(registry(after) =~= registry(jobs).remove(gone));
}

proof fn lemma_well_tracked(jobs: Seq<Job>)
    requires
        distinct(jobs),
        forall|i: int| 0 <= i < jobs.len() ==> (#[trigger] jobs[i])@.well_formed(),
    ensures
        well_tracked(registry(jobs)),
{
    assert forall|id: Seq<char>| #[trigger] registry(jobs).contains_key(id) implies registry(
        jobs,
    )[id].well_formed() && registry(jobs)[id].progress.id == id by {
        let k = choose|k: int| tracked_at(jobs, id, k);
        lemma_registry_at(jobs, k);
    }
}

/// The registry of jobs, by id. No id is tracked twice, and every tracked job
/// is well formed.
pub struct ConversionState {
    jobs: Vec<Job>,
}

impl ConversionState {
    #[verifier::type_invariant]
    spec fn sound(self) -> bool {
        &&& distinct(self.jobs@)
        &&& forall|i: int| 0 <= i < self.jobs@.len() ==> (#[trigger] self.jobs@[i])@.well_formed()
    }

    /// The tracked jobs, by id.
    pub closed spec fn view(&self) -> Map<Seq<char>, JobView> {
        registry(self.jobs@)
    }

    /// A registry that tracks nothing.
    pub fn new() -> (state: Self)
        ensures
            state@ == Map::<Seq<char>, JobView>::empty(),
            well_tracked(state@),
    {
        let state = ConversionState { jobs: Vec::new() };
        assert(state@ =~= Map::<Seq<char>, JobView>::empty());
        state
    }

    /// A copy of the job that goes by `id`; `None` where no such job is
    /// tracked.
    pub fn job(&self, id: &str) -> (found: Option<Job>)
        ensures
            well_tracked(self@),
            match found {
                Some(job) => self@.contains_key(id@) && job@ == self@[id@],
                None => !self@.contains_key(id@),
            },
    {
        proof {
            use_type_invariant(self);
            lemma_well_tracked(self.jobs@);
        }
        match self.find(id) {
            Some(i) => Some(
                Job {
                    options: self.jobs[i].options.clone(),
                    progress: self.jobs[i].progress.clone(),
                    pid: self.jobs[i].pid,
                    total_us: self.jobs[i].total_us,
                },
            ),
            None => None,
        }
    }

    /// Recalls that the registry is sound. Has no effect when run.
    pub(crate) fn recall_sound(&self)
        ensures
            well_tracked(self@),
    {
        proof {
            use_type_invariant(self);
            lemma_well_tracked(self.jobs@);
        }
    }

    /// The index of the job that goes by `id`.
    fn find(&self, id: &str) -> (found: Option<usize>)
        ensures
            match found {
                Some(i) => tracked_at(self.jobs@, id@, i as int) && self@.contains_key(id@)
                    && self@[id@] == self.jobs@[i as int]@,
                None => !self@.contains_key(id@),
            },
    {
        proof {
            use_type_invariant(self);
        }
        let mut i: usize = 0;
        while i < self.jobs.len()
            invariant
                distinct(self.jobs@),
                i <= self.jobs@.len(),
                forall|k: int| 0 <= k < i ==> self.jobs@[k].progress.id@ != id@,
            decreases self.jobs@.len() - i,
        {
            if str_eq(self.jobs[i].progress.id.as_str(), id) {
                proof {
                    lemma_registry_at(self.jobs@, i as int);
                }
                return Some(i);
            }
            i += 1;
        }
        proof {
            lemma_registry_absent(self.jobs@, id@);
        }
        None
    }
}

/// Takes the job at index `i` out of the registry.
fn take(state: &mut ConversionState, i: usize) -> (job: Job)
    requires
        i < old(state).jobs@.len(),
    ensures
        job == old(state).jobs@[i as int],
        job@.well_formed(),
        old(state)@.contains_key(job.progress.id@),
        old(state)@[job.progress.id@] == job@,
        final(state)@ == old(state)@.remove(job.progress.id@),
{
    proof {
        use_type_invariant(&*state);
        lemma_registry_at(state.jobs@, i as int);
        lemma_registry_remove(state.jobs@, i as int);
    }
    let mut jobs: Vec<Job> = Vec::new();
    std::mem::swap(&mut jobs, &mut state.jobs);
    let job = jobs.remove(i);
    assert forall|k: int| 0 <= k < jobs@.len() implies (#[trigger] jobs@[k])@.well_formed() by {
        let k0 = if k < i { k } else { k + 1 };
        assert(jobs@[k] == old(state).jobs@[k0]);
    }
    state.jobs = jobs;
    job
}

/// Puts a job under an id that is not tracked.
fn put(state: &mut ConversionState, job: Job)
    requires
        !old(state)@.contains_key(job.progress.id@),
        job@.well_formed(),
    ensures
        final(state)@ == old(state)@.insert(job.progress.id@, job@),
{
    proof {
        use_type_invariant(&*state);
        assert forall|k: int| 0 <= k < state.jobs@.len() implies state.jobs@[k].progress.id@
            != job.progress.id@ by {
            lemma_registry_at(state.jobs@, k);
        }
        lemma_registry_push(state.jobs@, job);
    }
    let mut jobs: Vec<Job> = Vec::new();
    std::mem::swap(&mut jobs, &mut state.jobs);
    jobs.push(job);
    state.jobs = jobs;
}

/// Carries one job through one event: the job afterwards, and the record to
/// publish.
fn step_job(job: Job, event: &JobEvent) -> (next: (Job, Option<ConversionProgress>))
    requires
        job@.well_formed(),
    ensures
        next.0@ == step(job@, *event),
        next.0.progress.id@ == job.progress.id@,
        record_view(next.1) == published(job@, *event),
{
    let mut job = job;
    match event {
        JobEvent::Spawned { pid, total_us } => {
            if job.progress.status == Phase::Starting {
                job.progress.status = Phase::Converting;
                job.pid = Some(*pid);
                job.total_us = *total_us;
                let record = job.progress.clone();
                (job, Some(record))
            } else {
                (job, None)
            }
        },
        JobEvent::Status { signal, wall_us } => {
            if job.progress.status == Phase::Converting {
                match signal {
                    ProgressSignal::End => {
                        job.progress.progress = PERCENT_FULL;
                        job.progress.status = Phase::Completed;
                        job.progress.eta = None;
                        job.progress.speed = None;
                        let record = job.progress.clone();
                        return (job, Some(record));
                    },
                    ProgressSignal::Elapsed(elapsed_us) => {
                        if let Some(reached) = percent_of(*elapsed_us, job.total_us) {
                            if reached >= job.progress.progress && reached - job.progress.progress
                                >= PERCENT_STEP {
                                job.progress.progress = reached;
                                job.progress.eta = Some(eta_seconds(*elapsed_us, job.total_us));
                                job.progress.speed = speed_hundredths(*elapsed_us, *wall_us);
                                let record = job.progress.clone();
                                return (job, Some(record));
                            }
                        }
                    },
                    ProgressSignal::Other => {},
                }
            }
            (job, None)
        },
        JobEvent::CancelRequested => {
            if job.progress.status.ended() {
                (job, None)
            } else {
                job.progress.eta = None;
                job.progress.speed = None;
                job.progress.status = Phase::Cancelling;
                let record = job.progress.clone();
                if job.pid.is_none() {
                    job.progress.status = Phase::Cancelled;
                }
                job.pid = None;
                (job, Some(record))
            }
        },
        JobEvent::KillConfirmed => {
            if job.progress.status == Phase::Cancelling {
                job.progress.status = Phase::Cancelled;
            }
            (job, None)
        },
    }
}

/// Tells the registry what happened to the job `id`, and returns the record
/// to publish, if there is one. An event for an id that is not tracked
/// changes nothing and publishes nothing.
pub fn handle_event(state: &mut ConversionState, id: &str, event: &JobEvent) -> (record: Option<
    ConversionProgress,
>)
    ensures
        final(state)@ == apply(old(state)@, id@, *event),
        well_tracked(final(state)@),
        record_view(record) == if old(state)@.contains_key(id@) {
            published(old(state)@[id@], *event)
        } else {
            None
        },
{
    let record = match state.find(id) {
        None => None,
        Some(i) => {
            let job = take(state, i);
            let (next, record) = step_job(job, event);
            proof {
                lemma_step_well_formed(job@, *event);
            }
            put(state, next);
            assert(state@ =~= apply(old(state)@, id@, *event));
            record
        },
    };
    proof {
        use_type_invariant(&*state);
        lemma_well_tracked(state.jobs@);
    }
    record
}

/// Starts tracking a job under `id`, unless that id is taken.
pub fn register(
    state: &mut ConversionState,
    id: String,
    file_path: String,
    output_path: String,
    options: ConversionOptions,
) -> (added: bool)
    ensures
        added == !old(state)@.contains_key(id@),
        final(state)@ == if added {
            old(state)@.insert(id@, fresh_job(id@, file_path@, output_path@, options@))
        } else {
            old(state)@
        },
        well_tracked(final(state)@),
{
    let added = match state.find(id.as_str()) {
        Some(_) => false,
        None => {
            let job = Job {
                options,
                progress: ConversionProgress {
                    id,
                    progress: 0,
                    status: Phase::Starting,
                    current_file: file_path,
                    output_path: Some(output_path),
                    eta: None,
                    speed: None,
                },
                pid: None,
                total_us: 0,
            };
            put(state, job);
            true
        },
    };
    proof {
        use_type_invariant(&*state);
        lemma_well_tracked(state.jobs@);
    }
    added
}

/// Stops tracking the job `id` and hands it out; `None` where no such job
/// is tracked.
pub fn release(state: &mut ConversionState, id: &str) -> (released: Option<Job>)
    ensures
        final(state)@ == old(state)@.remove(id@),
        well_tracked(final(state)@),
        match released {
            Some(job) => old(state)@.contains_key(id@) && job@ == old(state)@[id@]
                && job@.well_formed() && job.progress.id@ == id@,
            None => !old(state)@.contains_key(id@),
        },
{
    let released = match state.find(id) {
        None => {
            assert(state@ =~= old(state)@.remove(id@));
            None
        },
        Some(i) => Some(take(state, i)),
    };
    proof {
        use_type_invariant(&*state);
        lemma_well_tracked(state.jobs@);
    }
    released
}

} // verus!
