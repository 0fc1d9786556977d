//! The background runner of one job: a state machine that is told when a
//! phase of work has ended and writes the job's progress to the registry.

use vstd::prelude::*;
use crate::job::{text_view, JobMutation, JobRecord, JobStatusEnum, Transition};
use crate::registry::{all_well_formed, lemma_store_stays_well_formed, updated, JobRegistry};

verus! {

/// Number of phases that a job runs through.
pub const PHASE_COUNT: usize = 3;

/// Seconds to wait before the work of `phase` counts as done.
pub open spec fn phase_delay(phase: nat) -> u64 {
    if phase == 0 {
        2
    } else if phase == 1 {
        3
    } else {
        2
    }
}

/// Progress that the job reports once `phase` has ended.
pub open spec fn phase_progress(phase: nat) -> u32 {
    if phase == 0 {
        25
    } else if phase == 1 {
        75
    } else {
        100
    }
}

/// The result text of a job that ran through all its phases.
pub open spec fn completion_message() -> Seq<char> {
    "Long job finished successfully!"@
}

/// The change that the end of `phase` makes to the job's record: a fault
/// fails the job, the last phase completes it, any other phase advances it.
pub open spec fn phase_transition(phase: nat, fault: Option<Seq<char>>) -> Transition {
    match fault {
        Some(cause) => Transition::Fail(cause),
        None => if phase + 1 >= PHASE_COUNT {
            Transition::Complete(completion_message())
        } else {
            Transition::Advance(phase_progress(phase))
        },
    }
}

/// What the runner's host has to do next.
#[derive(Debug, Clone, Copy, PartialEq, Eq, Structural)]
pub enum RunnerAction {
    /// Suspend for this many seconds, then report the end of the phase.
    Wait { seconds: u64 },
    /// The job has reached a terminal state: nothing is left to do.
    Stop,
}

/// The runner of the job `job_id`: `phase` counts the phases that have
/// ended, and `halted` says that one of them ended with a fault.
#[derive(Debug, Clone, PartialEq, Eq)]
pub struct JobRunner {
    pub job_id: String,
    pub phase: usize,
    pub halted: bool,
}

/// Model of one job's execution: the runner's position together with the
/// job's record.
pub struct JobRun {
    pub phase: nat,
    pub halted: bool,
    pub record: JobRecord,
}

impl JobRun {
    /// A job right after submission.
    pub open spec fn start() -> JobRun {
        JobRun { phase: 0, halted: false, record: JobRecord::pending() }
    }

    pub open spec fn finished(self) -> bool {
        self.halted || self.phase >= PHASE_COUNT
    }

    /// The execution after one more phase has ended, with or without a
    /// fault. A finished execution does not change any more.
    pub open spec fn step(self, fault: Option<Seq<char>>) -> JobRun {
        if self.finished() {
            self
        } else {
            JobRun {
                phase: self.phase + 1,
                halted: fault.is_some(),
                record: phase_transition(self.phase, fault).apply(self.record),
            }
        }
    }

    /// The execution after the phases whose outcomes are `faults`, in order.
    pub open spec fn after(faults: Seq<Option<Seq<char>>>) -> JobRun
        decreases faults.len(),
    {
        if faults.len() == 0 {
            JobRun::start()
        } else {
            JobRun::after(faults.drop_last()).step(faults.last())
        }
    }

    /// What holds of every execution that began with a submission: the
    /// record is well formed and says where the runner stands.
    pub open spec fn consistent(self) -> bool {
        &&& self.phase <= PHASE_COUNT
        &&& self.record.well_formed()
        &&& self.finished() <==> self.record.terminal()
        &&& self.halted <==> self.record.status == JobStatusEnum::Failed
        &&& self.halted ==> self.phase >= 1
        &&& self.phase == 0 ==> self.record == JobRecord::pending()
        &&& !self.halted && 0 < self.phase < PHASE_COUNT ==> self.record.status
            == JobStatusEnum::InProgress && self.record.progress == Some(
            phase_progress((self.phase - 1) as nat),
        )
        &&& !self.halted && self.phase == PHASE_COUNT ==> self.record.status
            == JobStatusEnum::Completed && self.record.progress == Some(100u32)
            && self.record.result == Some(completion_message())
        &&& self.halted ==> self.record.progress_level() <= phase_progress(
            (self.phase - 1) as nat,
        )
    }
}

impl JobRunner {
    /// The runner's position together with the record `record`.
    pub open spec fn run_with(&self, record: JobRecord) -> JobRun {
        JobRun { phase: self.phase as nat, halted: self.halted, record }
    }

    pub open spec fn finished(&self) -> bool {
        self.halted || self.phase >= PHASE_COUNT
    }

    /// A runner for the job `job_id` that has not begun its first phase.
    pub fn new(job_id: String) -> (r: JobRunner)
        ensures
            r.job_id@ == job_id@,
            r.phase == 0,
            !r.halted,
            r.run_with(JobRecord::pending()) == JobRun::start(),
    {
        JobRunner { job_id, phase: 0, halted: false }
    }

    /// Whether the job has reached a terminal state.
    pub fn is_finished(&self) -> (r: bool)
        ensures
            r == self.finished(),
    {
        self.halted || self.phase >= PHASE_COUNT
    }

    /// What the host does next: wait for the current phase, or stop.
    pub fn next_action(&self) -> (r: RunnerAction)
        ensures
            self.finished() ==> r == RunnerAction::Stop,
            !self.finished() ==> r == (RunnerAction::Wait {
                seconds: phase_delay(self.phase as nat),
            }),
    {
        if self.halted || self.phase >= PHASE_COUNT {
            RunnerAction::Stop
        } else if self.phase == 1 {
            RunnerAction::Wait { seconds: 3 }
        } else {
            RunnerAction::Wait { seconds: 2 }
        }
    }

    /// The change to write once phase number `phase` has ended, with the
    /// cause of the fault in `fault` if it ended with one.
    pub fn phase_mutation(phase: usize, fault: Option<String>) -> (r: JobMutation)
        ensures
            r@ == phase_transition(phase as nat, text_view(fault)),
    {
        match fault {
            Some(cause) => JobMutation::Fail(cause),
            None => {
                if phase >= PHASE_COUNT - 1 {
                    JobMutation::Complete("Long job finished successfully!".to_owned())
                } else if phase == 0 {
                    JobMutation::Advance(25)
                } else {
                    JobMutation::Advance(75)
                }
            },
        }
    }

    /// Records the end of the current phase: the job's record in `registry`
    /// is changed as the phase and its outcome demand, and the runner moves
    /// on. A finished runner changes nothing, and a registry that holds no
    /// record of the job is left as it is.
    pub fn on_phase_elapsed(&mut self, registry: &mut JobRegistry, fault: Option<String>)
        ensures
            final(self).job_id@ == old(self).job_id@,
            old(self).finished() ==> *final(self) == *old(self)
                && final(registry)@ == old(registry)@,
            !old(self).finished() ==> final(self).phase == old(self).phase + 1
                && final(self).halted == fault.is_some()
                && final(registry)@ == updated(
                    old(registry)@,
                    old(self).job_id@,
                    phase_transition(old(self).phase as nat, text_view(fault)),
                ),
            old(registry)@.contains_key(old(self).job_id@) ==> final(registry)@.contains_key(
                old(self).job_id@,
            ) && final(self).run_with(final(registry)@[old(self).job_id@])
                == old(self).run_with(old(registry)@[old(self).job_id@]).step(text_view(fault)),
    {
        if !self.is_finished() {
            let failed: bool = fault.is_some();
            let mutation: JobMutation = JobRunner::phase_mutation(self.phase, fault);
            registry.update(self.job_id.as_str(), &mutation);
            self.phase = self.phase + 1;
            self.halted = failed;
        }
    }
}

/// One more phase keeps an execution consistent and moves neither its
/// status nor its progress backwards.
pub proof fn lemma_step_moves_forward(run: JobRun, fault: Option<Seq<char>>)
    requires
        run.consistent(),
    ensures
        run.step(fault).consistent(),
        run.record.status.rank() <= run.step(fault).record.status.rank(),
        run.record.progress_level() <= run.step(fault).record.progress_level(),
        run.phase <= run.step(fault).phase,
        run.finished() ==> run.step(fault) == run,
        !run.finished() ==> phase_transition(run.phase, fault).admissible(run.record),
{
}

/// The end of a phase keeps every record of the store well formed, where
/// the job's record says where its runner stands.
pub proof fn lemma_phase_keeps_store_well_formed(
    jobs: Map<Seq<char>, JobRecord>,
    id: Seq<char>,
    run: JobRun,
    fault: Option<Seq<char>>,
)
    requires
        all_well_formed(jobs),
        !run.finished(),
        jobs.contains_key(id) ==> run.record == jobs[id] && run.consistent(),
    ensures
        all_well_formed(updated(jobs, id, phase_transition(run.phase, fault))),
{
    if jobs.contains_key(id) {
        lemma_step_moves_forward(run, fault);
    }
    lemma_store_stays_well_formed(
        jobs,
        id,
        phase_transition(run.phase, fault),
        JobRecord::pending(),
    );
}

/// Every execution is consistent: whatever the outcomes of its phases, the
/// record is well formed, a result is set exactly on `Completed` and an
/// error exactly on `Failed`, never both.
pub proof fn lemma_run_consistent(faults: Seq<Option<Seq<char>>>)
    ensures
        JobRun::after(faults).consistent(),
        !(JobRun::after(faults).record.result.is_some() && JobRun::after(
            faults,
        ).record.error.is_some()),
    decreases faults.len(),
{
    if faults.len() > 0 {
        lemma_run_consistent(faults.drop_last());
        lemma_step_moves_forward(JobRun::after(faults.drop_last()), faults.last());
    }
}

/// The progress and the status seen after `earlier` phases are at most
/// those seen after `later` phases of the same execution.
pub proof fn lemma_progress_never_decreases(
    faults: Seq<Option<Seq<char>>>,
    earlier: int,
    later: int,
)
    requires
        0 <= earlier <= later <= faults.len(),
    ensures
        JobRun::after(faults.take(earlier)).record.progress_level() <= JobRun::after(
            faults.take(later),
        ).record.progress_level(),
        JobRun::after(faults.take(earlier)).record.status.rank() <= JobRun::after(
            faults.take(later),
        ).record.status.rank(),
    decreases later - earlier,
{
    if earlier < later {
        let longer = faults.take(later);
        assert(longer.drop_last() =~= faults.take(later - 1));
        lemma_progress_never_decreases(faults, earlier, later - 1);
        lemma_run_consistent(faults.take(later - 1));
        lemma_step_moves_forward(JobRun::after(faults.take(later - 1)), longer.last());
    }
}

/// After as many phases as a job has, the execution is finished and its
/// record terminal: `Completed` with a result and no error where no phase
/// ended with a fault, else `Failed` with an error and no result.
pub proof fn lemma_run_reaches_terminal(faults: Seq<Option<Seq<char>>>)
    requires
        faults.len() >= PHASE_COUNT,
    ensures
        JobRun::after(faults).finished(),
        JobRun::after(faults).record.terminal(),
        JobRun::after(faults).record.status == JobStatusEnum::Completed ==> JobRun::after(
            faults,
        ).record.result.is_some() && JobRun::after(faults).record.error.is_none(),
        JobRun::after(faults).record.status == JobStatusEnum::Failed ==> JobRun::after(
            faults,
        ).record.error.is_some() && JobRun::after(faults).record.result.is_none(),
{
    lemma_phase_count(faults);
    lemma_run_consistent(faults);
}

/// An unfinished execution has seen as many phases as outcomes were given.
proof fn lemma_phase_count(faults: Seq<Option<Seq<char>>>)
    ensures
        !JobRun::after(faults).finished() ==> JobRun::after(faults).phase == faults.len(),
    decreases faults.len(),
{
    if faults.len() > 0 {
        lemma_phase_count(faults.drop_last());
    }
}

/// Once an execution has finished, further phase ends leave the record as
/// it is: no transition leaves a terminal state.
pub proof fn lemma_finished_run_is_stable(
    faults: Seq<Option<Seq<char>>>,
    more: Seq<Option<Seq<char>>>,
)
    requires
        JobRun::after(faults).finished(),
    ensures
        JobRun::after(faults + more) == JobRun::after(faults),
    decreases more.len(),
{
    if more.len() == 0 {
        assert(faults + more =~= faults);
    } else {
        assert((faults + more).drop_last() =~= faults + more.drop_last());
        assert((faults + more).last() == more.last());
        lemma_finished_run_is_stable(faults, more.drop_last());
    }
}

/// A job that runs through all its phases without a fault ends `Completed`,
/// at progress 100, with the completion message as its result.
pub proof fn lemma_faultless_run_completes(faults: Seq<Option<Seq<char>>>)
    requires
        faults.len() >= PHASE_COUNT,
        forall|i: int| 0 <= i < faults.len() ==> (#[trigger] faults[i]).is_none(),
    ensures
        JobRun::after(faults).record == (JobRecord {
            status: JobStatusEnum::Completed,
            progress: Some(100u32),
            result: Some(completion_message()),
            error: None,
        }),
    decreases faults.len(),
{
    lemma_never_halts_without_fault(faults);
    lemma_phase_count(faults);
    lemma_run_consistent(faults);
}

/// An execution in which no phase ended with a fault has not halted.
proof fn lemma_never_halts_without_fault(faults: Seq<Option<Seq<char>>>)
    requires
        forall|i: int| 0 <= i < faults.len() ==> (#[trigger] faults[i]).is_none(),
    ensures
        !JobRun::after(faults).halted,
    decreases faults.len(),
{
    if faults.len() > 0 {
        lemma_never_halts_without_fault(faults.drop_last());
    }
}

} // verus!
