//! The store of job records, keyed by job identifier.

use vstd::prelude::*;
use vstd::hash_map::StringHashMap;
use crate::job::{lemma_admissible_moves_forward, JobMutation, JobRecord, JobUpdate, Transition};

verus! {

/// Why an operation on the job store was refused.
#[derive(Debug, Clone, Copy, PartialEq, Eq, Structural)]
pub enum JobError {
    /// The lock that guards the store could not be acquired.
    LockFailure,
    /// A record is already stored under the identifier.
    AlreadyExists,
}

impl JobError {
    pub open spec fn message_spec(self) -> Seq<char> {
        match self {
            JobError::LockFailure => "Failed to acquire lock on job states"@,
            JobError::AlreadyExists => "A job with this identifier already exists"@,
        }
    }

    /// A description of the error for callers to report.
    pub fn message(&self) -> (r: String)
        ensures
            r@ == self.message_spec(),
    {
        match self {
            JobError::LockFailure => "Failed to acquire lock on job states".to_owned(),
            JobError::AlreadyExists => "A job with this identifier already exists".to_owned(),
        }
    }
}

/// Model of a read: the record stored under `id`, if any.
pub open spec fn lookup(jobs: Map<Seq<char>, JobRecord>, id: Seq<char>) -> Option<JobRecord> {
    if jobs.contains_key(id) {
        Some(jobs[id])
    } else {
        None
    }
}

/// Model of an update: the record under `id` is changed, and a store
/// without `id` stays as it is.
pub open spec fn updated(
    jobs: Map<Seq<char>, JobRecord>,
    id: Seq<char>,
    change: Transition,
) -> Map<Seq<char>, JobRecord> {
    if jobs.contains_key(id) {
        jobs.insert(id, change.apply(jobs[id]))
    } else {
        jobs
    }
}

/// Every record in the store satisfies the record invariants.
pub open spec fn all_well_formed(jobs: Map<Seq<char>, JobRecord>) -> bool {
    forall|id: Seq<char>| jobs.contains_key(id) ==> (#[trigger] jobs[id]).well_formed()
}

/// Model of an optional snapshot.
pub open spec fn snapshot_view(snapshot: Option<JobUpdate>) -> Option<JobRecord> {
    match snapshot {
        Some(record) => Some(record@),
        None => None,
    }
}

/// The records of all jobs submitted so far. Records are never removed.
pub struct JobRegistry {
    jobs: StringHashMap<JobUpdate>,
}

impl View for JobRegistry {
    type V = Map<Seq<char>, JobRecord>;

    closed spec fn view(&self) -> Map<Seq<char>, JobRecord> {
        Map::new(|id: Seq<char>| self.jobs@.contains_key(id), |id: Seq<char>| self.jobs@[id]@)
    }
}

impl JobRegistry {
    /// An empty store.
    pub fn new() -> (r: JobRegistry)
        ensures
            r@ == Map::<Seq<char>, JobRecord>::empty(),
    {
        let r = JobRegistry { jobs: StringHashMap::new() };
        assert(r@ =~= Map::<Seq<char>, JobRecord>::empty());
        r
    }

    /// Whether a record is stored under `id`.
    pub fn contains(&self, id: &str) -> (r: bool)
        ensures
            r == self@.contains_key(id@),
    {
        self.jobs.contains_key(id)
    }

    /// Stores `record` under `id`, unless a record is already stored there:
    /// then the store is left as it is and `AlreadyExists` is returned.
    pub fn insert(&mut self, id: String, record: JobUpdate) -> (r: Result<(), JobError>)
        ensures
            old(self)@.contains_key(id@) ==> r == Err::<(), JobError>(JobError::AlreadyExists)
                && final(self)@ == old(self)@,
            !old(self)@.contains_key(id@) ==> r.is_ok() && final(self)@ == old(self)@.insert(
                id@,
                record@,
            ),
    {
        if self.jobs.contains_key(id.as_str()) {
            Err(JobError::AlreadyExists)
        } else {
            let ghost key = id@;
            let ghost value = record@;
            self.jobs.insert(id, record);
            assert(self@ =~= old(self)@.insert(key, value));
            Ok(())
        }
    }

    /// Applies `mutation` to the record stored under `id`. A store without
    /// `id` is left as it is.
    pub fn update(&mut self, id: &str, mutation: &JobMutation)
        ensures
            final(self)@ == updated(old(self)@, id@, mutation@),
    {
        let next: Option<JobUpdate> = match self.jobs.get(id) {
            Some(record) => Some(mutation.apply(record)),
            None => None,
        };
        match next {
            Some(record) => {
                let ghost value = record@;
                self.jobs.insert(id.to_owned(), record);
                assert(self@ =~= old(self)@.insert(id@, value));
            },
            None => {},
        }
    }

    /// A copy of the record stored under `id`, or `None` where there is none.
    pub fn get(&self, id: &str) -> (r: Option<JobUpdate>)
        ensures
            snapshot_view(r) == lookup(self@, id@),
    {
        match self.jobs.get(id) {
            Some(record) => Some(record.snapshot()),
            None => None,
        }
    }
}

/// An update of one job leaves the record of every other job as it was, and
/// adds or removes no job.
pub proof fn lemma_update_is_local(
    jobs: Map<Seq<char>, JobRecord>,
    id: Seq<char>,
    change: Transition,
    other: Seq<char>,
)
    ensures
        other != id ==> lookup(updated(jobs, id, change), other) == lookup(jobs, other),
        updated(jobs, id, change).dom() =~= jobs.dom(),
        !jobs.contains_key(id) ==> updated(jobs, id, change) == jobs,
{
}

/// An update keeps every record well formed where the change is admissible
/// for the record it meets, and so does an insert of a well-formed record.
pub proof fn lemma_store_stays_well_formed(
    jobs: Map<Seq<char>, JobRecord>,
    id: Seq<char>,
    change: Transition,
    record: JobRecord,
)
    requires
        all_well_formed(jobs),
    ensures
        (jobs.contains_key(id) ==> change.admissible(jobs[id])) ==> all_well_formed(
            updated(jobs, id, change),
        ),
        record.well_formed() ==> all_well_formed(jobs.insert(id, record)),
{
    if jobs.contains_key(id) && change.admissible(jobs[id]) {
        lemma_admissible_moves_forward(change, jobs[id]);
    }
}

/// A read right after an insert returns the inserted record, a read of any
/// other identifier returns what it returned before, and a read of an
/// identifier that was never inserted returns nothing.
pub proof fn lemma_lookup_after_insert(
    jobs: Map<Seq<char>, JobRecord>,
    id: Seq<char>,
    record: JobRecord,
    other: Seq<char>,
)
    ensures
        lookup(jobs.insert(id, record), id) == Some(record),
        other != id ==> lookup(jobs.insert(id, record), other) == lookup(jobs, other),
        other != id && !jobs.contains_key(other) ==> lookup(jobs.insert(id, record), other)
            == None::<JobRecord>,
        lookup(Map::<Seq<char>, JobRecord>::empty(), other) == None::<JobRecord>,
{
}

} // verus!
