//! The record kept for one job and the transitions that change it.

use vstd::prelude::*;

verus! {

/// Where a job stands in its life: `Pending`, then `InProgress`, then one of
/// the two terminal states.
#[derive(Debug, Clone, Copy, PartialEq, Eq, Structural)]
pub enum JobStatusEnum {
    Pending,
    InProgress,
    Completed,
    Failed,
}

impl JobStatusEnum {
    /// Position of a status along `Pending -> InProgress -> terminal`.
    pub open spec fn rank(self) -> nat {
        match self {
            JobStatusEnum::Pending => 0,
            JobStatusEnum::InProgress => 1,
            JobStatusEnum::Completed => 2,
            JobStatusEnum::Failed => 2,
        }
    }

    pub open spec fn terminal(self) -> bool {
        self == JobStatusEnum::Completed || self == JobStatusEnum::Failed
    }

    /// Whether no further transition is expected from this status.
    pub fn is_terminal(&self) -> (r: bool)
        ensures
            r == self.terminal(),
    {
        match self {
            JobStatusEnum::Completed => true,
            JobStatusEnum::Failed => true,
            _ => false,
        }
    }
}

/// Mathematical model of a job record: texts are sequences of characters.
pub struct JobRecord {
    pub status: JobStatusEnum,
    pub progress: Option<u32>,
    pub result: Option<Seq<char>>,
    pub error: Option<Seq<char>>,
}

impl JobRecord {
    /// The record every job starts with.
    pub open spec fn pending() -> JobRecord {
        JobRecord {
            status: JobStatusEnum::Pending,
            progress: Some(0u32),
            result: None,
            error: None,
        }
    }

    /// A result is present exactly on `Completed`, an error exactly on
    /// `Failed`, and progress is a percentage.
    pub open spec fn well_formed(self) -> bool {
        &&& self.result.is_some() <==> self.status == JobStatusEnum::Completed
        &&& self.error.is_some() <==> self.status == JobStatusEnum::Failed
        &&& self.progress matches Some(p) ==> p <= 100
    }

    pub open spec fn terminal(self) -> bool {
        self.status.terminal()
    }

    /// The progress as a number, an absent progress counting as zero.
    pub open spec fn progress_level(self) -> nat {
        match self.progress {
            Some(p) => p as nat,
            None => 0,
        }
    }
}

/// Model of an optional text.
pub open spec fn text_view(text: Option<String>) -> Option<Seq<char>> {
    match text {
        Some(s) => Some(s@),
        None => None,
    }
}

/// Copies an optional text.
pub fn copy_text(text: &Option<String>) -> (r: Option<String>)
    ensures
        text_view(r) == text_view(*text),
{
    match text {
        Some(s) => Some(s.clone()),
        None => None,
    }
}

/// The status of one job as callers see it.
#[derive(Debug, Clone, PartialEq, Eq)]
pub struct JobUpdate {
    pub status: JobStatusEnum,
    pub progress: Option<u32>,
    pub result: Option<String>,
    pub error: Option<String>,
}

impl View for JobUpdate {
    type V = JobRecord;

    open spec fn view(&self) -> JobRecord {
        JobRecord {
            status: self.status,
            progress: self.progress,
            result: text_view(self.result),
            error: text_view(self.error),
        }
    }
}

impl JobUpdate {
    /// The record of a job that was just submitted.
    pub fn pending() -> (r: JobUpdate)
        ensures
            r@ == JobRecord::pending(),
            r@.well_formed(),
    {
        JobUpdate { status: JobStatusEnum::Pending, progress: Some(0u32), result: None, error: None }
    }

    /// An independent copy of this record.
    pub fn snapshot(&self) -> (r: JobUpdate)
        ensures
            r@ == self@,
    {
        JobUpdate {
            status: self.status,
            progress: self.progress,
            result: copy_text(&self.result),
            error: copy_text(&self.error),
        }
    }

    /// Whether the record satisfies the record invariants.
    pub fn is_well_formed(&self) -> (r: bool)
        ensures
            r == self@.well_formed(),
    {
        let has_result: bool = self.result.is_some();
        let has_error: bool = self.error.is_some();
        let bounded: bool = match self.progress {
            Some(p) => p <= 100,
            None => true,
        };
        let completed: bool = match self.status {
            JobStatusEnum::Completed => true,
            _ => false,
        };
        let failed: bool = match self.status {
            JobStatusEnum::Failed => true,
            _ => false,
        };
        has_result == completed && has_error == failed && bounded
    }
}

/// Model of a change to a record.
pub enum Transition {
    Advance(u32),
    Complete(Seq<char>),
    Fail(Seq<char>),
}

impl Transition {
    /// The record that results from applying the change to `record`.
    pub open spec fn apply(self, record: JobRecord) -> JobRecord {
        match self {
            Transition::Advance(p) => JobRecord {
                status: JobStatusEnum::InProgress,
                progress: Some(p),
                ..record
            },
            Transition::Complete(text) => JobRecord {
                status: JobStatusEnum::Completed,
                progress: Some(100u32),
                result: Some(text),
                ..record
            },
            Transition::Fail(cause) => JobRecord {
                status: JobStatusEnum::Failed,
                error: Some(cause),
                ..record
            },
        }
    }

    /// The change keeps a record's invariants and never moves it backwards.
    pub open spec fn admissible(self, record: JobRecord) -> bool {
        &&& !record.terminal()
        &&& self matches Transition::Advance(p) ==> record.progress_level() <= p <= 100
    }
}

/// A change to apply to a stored record.
#[derive(Debug, Clone, PartialEq, Eq)]
pub enum JobMutation {
    /// Mark the job as running and set its progress.
    Advance(u32),
    /// Finish the job with a result.
    Complete(String),
    /// Finish the job with the cause of its failure.
    Fail(String),
}

impl View for JobMutation {
    type V = Transition;

    open spec fn view(&self) -> Transition {
        match *self {
            JobMutation::Advance(p) => Transition::Advance(p),
            JobMutation::Complete(text) => Transition::Complete(text@),
            JobMutation::Fail(cause) => Transition::Fail(cause@),
        }
    }
}

impl JobMutation {
    /// Applies the change to `record` and returns the changed record.
    pub fn apply(&self, record: &JobUpdate) -> (r: JobUpdate)
        ensures
            r@ == self@.apply(record@),
    {
        match self {
            JobMutation::Advance(p) => JobUpdate {
                status: JobStatusEnum::InProgress,
                progress: Some(*p),
                result: copy_text(&record.result),
                error: copy_text(&record.error),
            },
            JobMutation::Complete(text) => JobUpdate {
                status: JobStatusEnum::Completed,
                progress: Some(100u32),
                result: Some(text.clone()),
                error: copy_text(&record.error),
            },
            JobMutation::Fail(cause) => JobUpdate {
                status: JobStatusEnum::Failed,
                progress: record.progress,
                result: copy_text(&record.result),
                error: Some(cause.clone()),
            },
        }
    }
}

/// An admissible change to a well-formed record gives a well-formed record
/// whose status and progress are at least what they were.
pub proof fn lemma_admissible_moves_forward(change: Transition, record: JobRecord)
    requires
        record.well_formed(),
        change.admissible(record),
    ensures
        change.apply(record).well_formed(),
        record.status.rank() <= change.apply(record).status.rank(),
        record.progress_level() <= change.apply(record).progress_level(),
{
}

} // verus!
