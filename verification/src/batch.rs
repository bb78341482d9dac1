//! The download-and-verify coordinator's logic. Each job of a batch hands
//! in the filename under which the manifest records it and what its
//! transfer produced: the persisted content, or the error that ended it.
//! Judging a job — manifest lookup, content hash, case-sensitive
//! comparison — and aggregating the per-job outcomes into batch success is
//! verified here; performing the transfers, concurrently and without one
//! job's failure cancelling a sibling, is the application's work.

use vstd::prelude::*;
use crate::checksum::{hash_content, hex_of, md5_of};
use crate::manifest::{bytes_eq, entries_of, lookup_spec, Manifest};
use crate::progress::{ProgressSink, ProgressTracker};

verus! {

/// Why a transfer ended without a persisted file.
#[derive(Clone, Copy, Debug, PartialEq, Eq, Structural)]
pub enum TransferError {
    /// The connection or the remote read failed.
    Network,
    /// The local file could not be created, written or read back.
    Filesystem,
}

/// The verdict on one job of a batch.
#[derive(Clone, Debug, PartialEq, Eq)]
pub enum VerificationOutcome {
    /// The persisted file's hash equals the hash the manifest records.
    Match,
    /// Both hashes exist and differ.
    Mismatch { expected: Vec<u8>, actual: Vec<u8> },
    /// The manifest records no hash under the job's filename.
    ManifestLookupFailed,
    /// The transfer itself failed; nothing was verified.
    TransferFailed { cause: TransferError },
}

/// The abstract value of a verdict.
#[verifier::ext_equal]
pub ghost enum OutcomeModel {
    Match,
    Mismatch { expected: Seq<u8>, actual: Seq<u8> },
    ManifestLookupFailed,
    TransferFailed { cause: TransferError },
}

impl View for VerificationOutcome {
    type V = OutcomeModel;

    open spec fn view(&self) -> OutcomeModel {
        match self {
            VerificationOutcome::Match => OutcomeModel::Match,
            VerificationOutcome::Mismatch { expected, actual } => OutcomeModel::Mismatch {
                expected: expected@,
                actual: actual@,
            },
            VerificationOutcome::ManifestLookupFailed => OutcomeModel::ManifestLookupFailed,
            VerificationOutcome::TransferFailed { cause } => OutcomeModel::TransferFailed {
                cause: *cause,
            },
        }
    }
}

/// The abstract value of one job handed to the coordinator.
#[verifier::ext_equal]
pub ghost struct JobModel {
    pub manifest_key: Seq<u8>,
    pub fetched: Result<Seq<u8>, TransferError>,
}

/// One job of a batch: the filename under which the manifest records the
/// file — the manifest-relative path, not the local one — and what the
/// job's transfer produced.
pub struct BatchJob {
    pub manifest_key: Vec<u8>,
    pub fetched: Result<Vec<u8>, TransferError>,
}

impl View for BatchJob {
    type V = JobModel;

    open spec fn view(&self) -> JobModel {
        JobModel {
            manifest_key: self.manifest_key@,
            fetched: match self.fetched {
                Result::Ok(content) => Result::Ok(content@),
                Result::Err(cause) => Result::Err(cause),
            },
        }
    }
}

/// The verdict on one job, as a function of the manifest entries and the
/// job alone: a failed transfer is reported as such; a filename the
/// manifest does not record fails the lookup; otherwise the content's hash
/// is compared, case-sensitively, with the recorded one.
pub open spec fn judge_spec(entries: Seq<(Seq<u8>, Seq<u8>)>, job: JobModel) -> OutcomeModel {
    match job.fetched {
        Result::Err(cause) => OutcomeModel::TransferFailed { cause },
        Result::Ok(content) => match lookup_spec(entries, job.manifest_key) {
            Option::None => OutcomeModel::ManifestLookupFailed,
            Option::Some(expected) => if hex_of(md5_of(content)) == expected {
                OutcomeModel::Match
            } else {
                OutcomeModel::Mismatch { expected, actual: hex_of(md5_of(content)) }
            },
        },
    }
}

/// The verdicts of a whole batch, one per job, in job order.
pub open spec fn batch_spec(entries: Seq<(Seq<u8>, Seq<u8>)>, jobs: Seq<JobModel>) -> Seq<
    OutcomeModel,
> {
    jobs.map_values(|j: JobModel| judge_spec(entries, j))
}

/// The element-wise models of a sequence of jobs.
pub open spec fn job_views(jobs: Seq<BatchJob>) -> Seq<JobModel> {
    jobs.map_values(|j: BatchJob| j@)
}

/// The element-wise models of a sequence of verdicts.
pub open spec fn outcome_views(outcomes: Seq<VerificationOutcome>) -> Seq<OutcomeModel> {
    outcomes.map_values(|o: VerificationOutcome| o@)
}

/// A batch succeeds only when every job's verdict is a match.
pub open spec fn all_match(outcomes: Seq<OutcomeModel>) -> bool {
    forall|i: int| 0 <= i < outcomes.len() ==> outcomes[i] is Match
}

/// One verdict per job of a finished batch, in job order.
pub struct BatchResult {
    pub outcomes: Vec<VerificationOutcome>,
}

impl BatchResult {
    /// Whether the batch as a whole succeeded: true exactly when every
    /// job's verdict is a match. Any other verdict fails the batch, though
    /// it never cancelled a sibling job.
    pub fn success(&self) -> (r: bool)
        ensures
            r == all_match(outcome_views(self.outcomes@)),
    {
        let n = self.outcomes.len();
        let mut i: usize = 0;
        while i < n
            invariant
                n == self.outcomes@.len(),
                i <= n,
                forall|k: int| 0 <= k < i ==> outcome_views(self.outcomes@)[k] is Match,
            decreases n - i,
        {
            match self.outcomes[i] {
                VerificationOutcome::Match => {},
                _ => {
                    assert(!(outcome_views(self.outcomes@)[i as int] is Match));
                    return false;
                },
            }
            i += 1;
        }
        true
    }
}

/// Judges one job against the shared manifest: looks its filename up,
/// hashes the persisted content block by block against the job's own
/// tracker, and compares. A failed transfer is judged without touching the
/// tracker's counter.
pub fn verify_job(manifest: &Manifest, job: &BatchJob, tracker: &mut ProgressTracker) -> (r:
    VerificationOutcome)
    requires
        !old(tracker).finished,
        old(tracker).transferred_bytes == 0,
    ensures
        r@ == judge_spec(manifest@, job@),
        !final(tracker).finished,
        final(tracker).total_bytes == old(tracker).total_bytes,
        (job@.fetched matches Result::Err(_) ==> final(tracker).transferred_bytes == 0),
        (r@ matches OutcomeModel::Match ==> final(tracker).transferred_bytes
            == job@.fetched->Ok_0.len()),
        (r@ matches OutcomeModel::Mismatch { .. } ==> final(tracker).transferred_bytes
            == job@.fetched->Ok_0.len()),
{
    match &job.fetched {
        Result::Err(cause) => VerificationOutcome::TransferFailed { cause: *cause },
        Result::Ok(content) => {
            match manifest.lookup(&job.manifest_key) {
                Option::None => VerificationOutcome::ManifestLookupFailed,
                Option::Some(expected) => {
                    let n = content.len();
                    assert(content@.len() <= u64::MAX) by {
                        assert(n <= usize::MAX);
                        assert(usize::MAX <= u64::MAX);
                    }
                    let actual = hash_content(content, tracker);
                    if bytes_eq(&actual, &expected) {
                        VerificationOutcome::Match
                    } else {
                        VerificationOutcome::Mismatch { expected, actual }
                    }
                },
            }
        },
    }
}

/// Runs a batch's verification: parses the manifest text once, then judges
/// every job in order against that shared read-only mapping, registering a
/// fresh tracker for each job before it is judged and marking it finished
/// after. The verdicts — and so the batch's success — are a function of
/// the manifest text and the jobs alone.
pub fn run_batch(manifest_text: &Vec<u8>, jobs: &Vec<BatchJob>, sink: &mut ProgressSink) -> (r:
    BatchResult)
    requires
        old(sink).registered + jobs@.len() <= u64::MAX,
    ensures
        r.outcomes@.len() == jobs@.len(),
        outcome_views(r.outcomes@) == batch_spec(entries_of(manifest_text@), job_views(jobs@)),
        final(sink).registered == old(sink).registered + jobs@.len(),
{
    let manifest = Manifest::parse(manifest_text);
    let mut outcomes: Vec<VerificationOutcome> = Vec::new();
    let n = jobs.len();
    let ghost s0 = *sink;
    let mut i: usize = 0;
    while i < n
        invariant
            n == jobs@.len(),
            i <= n,
            manifest@ == entries_of(manifest_text@),
            outcomes@.len() == i,
            forall|k: int| 0 <= k < i ==> outcome_views(outcomes@)[k] == judge_spec(
                entries_of(manifest_text@),
                jobs@[k]@,
            ),
            sink.registered == s0.registered + i,
            s0.registered + n <= u64::MAX,
        decreases n - i,
    {
        let mut tracker = sink.register(0);
        let o = verify_job(&manifest, &jobs[i], &mut tracker);
        tracker.finish();
        let ghost pre = outcomes@;
        let ghost ov = o@;
        outcomes.push(o);
        proof {
            assert(outcome_views(outcomes@) =~= outcome_views(pre).push(ov));
        }
        i += 1;
    }
    proof {
        assert(outcome_views(outcomes@) =~= batch_spec(entries_of(manifest_text@), job_views(jobs@)));
    }
    BatchResult { outcomes }
}

/// No false positives: a job is judged a match only when its transfer
/// persisted content whose hash equals exactly the hash the manifest
/// records for the job's filename.
pub proof fn lemma_no_false_positive(entries: Seq<(Seq<u8>, Seq<u8>)>, job: JobModel)
    ensures
        (judge_spec(entries, job) is Match ==> job.fetched is Ok && lookup_spec(
            entries,
            job.manifest_key,
        ) == Option::Some(hex_of(md5_of(job.fetched->Ok_0)))),
{
}

/// A transfer that failed is judged as failed, with its own cause — never
/// as a hash mismatch, and never as a match.
pub proof fn lemma_failed_transfer_judged_failed(
    entries: Seq<(Seq<u8>, Seq<u8>)>,
    job: JobModel,
    cause: TransferError,
)
    requires
        job.fetched == Result::<Seq<u8>, TransferError>::Err(cause),
    ensures
        judge_spec(entries, job) == (OutcomeModel::TransferFailed { cause }),
{
}

/// Jobs are judged independently: whatever happens to the other jobs of
/// either batch — a failing transfer among them included — two batches
/// over the same manifest that agree on one job agree on that job's
/// verdict. A job's progress tracker is likewise its own: judging takes it
/// exclusively, so no sibling can touch it.
pub proof fn lemma_job_independence(
    entries: Seq<(Seq<u8>, Seq<u8>)>,
    jobs1: Seq<JobModel>,
    jobs2: Seq<JobModel>,
    j: int,
)
    requires
        jobs1.len() == jobs2.len(),
        0 <= j < jobs1.len(),
        jobs1[j] == jobs2[j],
    ensures
        batch_spec(entries, jobs1)[j] == batch_spec(entries, jobs2)[j],
{
}

/// Re-running a batch is stable: over the same manifest text and the same
/// persisted contents — an already-fully-downloaded, already-verified set
/// among them — the verdicts come out identical.
pub proof fn lemma_batch_idempotent(
    text1: Seq<u8>,
    text2: Seq<u8>,
    jobs1: Seq<JobModel>,
    jobs2: Seq<JobModel>,
)
    requires
        text1 == text2,
        jobs1 == jobs2,
    ensures
        batch_spec(entries_of(text1), jobs1) == batch_spec(entries_of(text2), jobs2),
{
}

} // verus!
