//! The surface that callers use: submitting a job and polling its status.

use vstd::prelude::*;
use crate::job::{JobRecord, JobStatusEnum, JobUpdate};
use crate::registry::{lookup, snapshot_view, JobError, JobRegistry};

verus! {

/// The shape of a job identifier: 36 characters in five groups that hyphens
/// separate.
pub open spec fn is_job_id(id: Seq<char>) -> bool {
    &&& id.len() == 36
    &&& id[8] == '-'
    &&& id[13] == '-'
    &&& id[18] == '-'
    &&& id[23] == '-'
}

/// Mints a job identifier with `uuid::Uuid::now_v7`, written out by the
/// `Display` impl of `uuid::Uuid`. Trusted: the text is the hyphenated form,
/// 36 characters with hyphens after the 8th, 12th, 16th and 20th digit.
/// Nothing is claimed of the digits, which depend on the clock and on
/// random bytes. The call panics where the system clock stands before 1970
/// or the operating system hands out no random bytes.
#[verifier::external_body]
fn fresh_job_id() -> (id: String)
    ensures
        is_job_id(id@),
{
    uuid::Uuid::now_v7().to_string()
}

/// Model of a submission of `id` to the store `jobs`.
pub open spec fn submitted(jobs: Map<Seq<char>, JobRecord>, id: Seq<char>) -> Map<
    Seq<char>,
    JobRecord,
> {
    jobs.insert(id, JobRecord::pending())
}

/// A client with the setting it was created with.
#[derive(Debug, Clone, PartialEq, Eq)]
pub struct ClientExample {
    pub env_value: String,
}

impl ClientExample {
    /// The setting of a client that was given none.
    pub open spec fn default_value() -> Seq<char> {
        "DEFAULT_VALUE_IF_NOT_SET"@
    }

    /// A client whose setting is `setting`, or the default where it is absent.
    pub fn new(setting: Option<String>) -> (r: ClientExample)
        ensures
            r.env_value@ == match setting {
                Some(value) => value@,
                None => ClientExample::default_value(),
            },
    {
        match setting {
            Some(value) => ClientExample { env_value: value },
            None => ClientExample { env_value: "DEFAULT_VALUE_IF_NOT_SET".to_owned() },
        }
    }

    /// The client's setting.
    pub fn get_value(&self) -> (r: String)
        ensures
            r@ == self.env_value@,
    {
        self.env_value.clone()
    }

    /// Submits a job under the identifier `job_id`: stores a pending record
    /// and returns the identifier. Where the identifier is taken, nothing
    /// changes and `AlreadyExists` is returned.
    pub fn submit_with_id(registry: &mut JobRegistry, job_id: String) -> (r: Result<
        String,
        JobError,
    >)
        ensures
            old(registry)@.contains_key(job_id@) ==> r == Err::<String, JobError>(
                JobError::AlreadyExists,
            ) && final(registry)@ == old(registry)@,
            !old(registry)@.contains_key(job_id@) ==> r.is_ok() && r.unwrap()@ == job_id@
                && final(registry)@ == submitted(old(registry)@, job_id@),
    {
        let id: String = job_id.clone();
        match registry.insert(job_id, JobUpdate::pending()) {
            Ok(()) => Ok(id),
            Err(e) => Err(e),
        }
    }

    /// Submits a job under a fresh identifier and returns the identifier,
    /// under which the job can be polled at once. `registry` is the job
    /// store, or `None` where its lock could not be acquired: then
    /// `LockFailure` is returned. `AlreadyExists` is returned only where the
    /// store already holds the identifier that was minted. On any error the
    /// store is left as it is.
    pub fn start_long_job(&self, registry: Option<&mut JobRegistry>) -> (r: Result<
        String,
        JobError,
    >)
        ensures
            match (registry, r) {
                (None, res) => res == Err::<String, JobError>(JobError::LockFailure),
                (Some(reg), Ok(id)) => is_job_id(id@) && !reg@.contains_key(id@) && final(reg)@
                    == submitted(reg@, id@),
                (Some(reg), Err(e)) => e == JobError::AlreadyExists && final(reg)@ == reg@
                    && exists|id: Seq<char>| is_job_id(id) && #[trigger] reg@.contains_key(id),
            },
    {
        let job_id: String = fresh_job_id();
        match registry {
            None => Err(JobError::LockFailure),
            Some(reg) => {
                let ghost minted = job_id@;
                let ghost before = reg@;
                let r = ClientExample::submit_with_id(reg, job_id);
                proof {
                    if r.is_err() {
                        assert(is_job_id(minted) && before.contains_key(minted));
                    }
                }
                r
            },
        }
    }

    /// The current record of the job `job_id`, or `None` where no such job
    /// was submitted. `registry` is the job store, or `None` where its lock
    /// could not be acquired: then `LockFailure` is returned.
    pub fn poll_job_status(&self, registry: Option<&JobRegistry>, job_id: String) -> (r: Result<
        Option<JobUpdate>,
        JobError,
    >)
        ensures
            match registry {
                None => r == Err::<Option<JobUpdate>, JobError>(JobError::LockFailure),
                Some(reg) => r.is_ok() && snapshot_view(r.unwrap()) == lookup(reg@, job_id@),
            },
    {
        match registry {
            None => Err(JobError::LockFailure),
            Some(reg) => Ok(reg.get(job_id.as_str())),
        }
    }
}

/// The store after the jobs `ids` were submitted to `jobs`, in order.
pub open spec fn after_submissions(jobs: Map<Seq<char>, JobRecord>, ids: Seq<Seq<char>>) -> Map<
    Seq<char>,
    JobRecord,
>
    decreases ids.len(),
{
    if ids.len() == 0 {
        jobs
    } else {
        submitted(after_submissions(jobs, ids.drop_last()), ids.last())
    }
}

/// Every submission of `ids` to `jobs`, in order, was accepted: none found
/// its identifier in the store.
pub open spec fn all_accepted(jobs: Map<Seq<char>, JobRecord>, ids: Seq<Seq<char>>) -> bool {
    forall|k: int|
        0 <= k < ids.len() ==> !(#[trigger] after_submissions(jobs, ids.take(k))).contains_key(
            ids[k],
        )
}

/// A poll right after a submission finds the job pending at progress 0.
pub proof fn lemma_poll_after_submit(jobs: Map<Seq<char>, JobRecord>, id: Seq<char>)
    ensures
        lookup(submitted(jobs, id), id) == Some(JobRecord::pending()),
        JobRecord::pending().status == JobStatusEnum::Pending,
        JobRecord::pending().progress == Some(0u32),
{
}

/// A poll of an identifier that was never submitted finds nothing, however
/// many other jobs were submitted.
pub proof fn lemma_poll_unknown_is_empty(ids: Seq<Seq<char>>, id: Seq<char>)
    requires
        !ids.contains(id),
    ensures
        lookup(after_submissions(Map::empty(), ids), id) == None::<JobRecord>,
    decreases ids.len(),
{
    if ids.len() > 0 {
        assert(ids.last() == ids[ids.len() - 1]);
        assert forall|i: int| 0 <= i < ids.drop_last().len() implies ids.drop_last()[i] != id by {
            assert(ids.drop_last()[i] == ids[i]);
        }
        lemma_poll_unknown_is_empty(ids.drop_last(), id);
    }
}

/// The store after some submissions holds each submitted identifier.
proof fn lemma_submissions_are_kept(jobs: Map<Seq<char>, JobRecord>, ids: Seq<Seq<char>>, i: int)
    requires
        0 <= i < ids.len(),
    ensures
        after_submissions(jobs, ids).contains_key(ids[i]),
    decreases ids.len(),
{
    if i < ids.len() - 1 {
        assert(ids.drop_last()[i] == ids[i]);
        lemma_submissions_are_kept(jobs, ids.drop_last(), i);
    }
}

/// The identifiers of accepted submissions to one store are pairwise
/// distinct.
pub proof fn lemma_accepted_ids_distinct(
    jobs: Map<Seq<char>, JobRecord>,
    ids: Seq<Seq<char>>,
    i: int,
    j: int,
)
    requires
        all_accepted(jobs, ids),
        0 <= i < j < ids.len(),
    ensures
        ids[i] != ids[j],
{
    assert(ids.take(j)[i] == ids[i]);
    lemma_submissions_are_kept(jobs, ids.take(j), i);
    assert(!after_submissions(jobs, ids.take(j)).contains_key(ids[j]));
}

} // verus!
