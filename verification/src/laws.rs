//! Laws of the ledger that relate several operations: how identifiers grow
//! across a run of calls, idempotence of closing, and what a lookup observes
//! after a write.

use vstd::prelude::*;

use crate::records::{closed, with_status, JobApplication, JobListing};

verus! {

/// `ids` is the run of identifiers handed out by successive issuing calls
/// starting from counter value `count`: each call returns `count + 1` and
/// leaves the counter at the returned identifier. This is exactly the
/// counter discipline that the contracts of `post_job` (for
/// `job_listing_count`) and successful `apply_for_job` (for
/// `application_count`) state.
pub open spec fn ids_issued_from(count: u64, ids: Seq<u64>) -> bool
    decreases ids.len(),
{
    ids.len() == 0 || (count < u64::MAX && ids[0] == count + 1 && ids_issued_from(
        (count + 1) as u64,
        ids.skip(1),
    ))
}

/// Law: identifiers handed out by successive issuing calls are consecutive —
/// the call after `i` earlier calls returns `count + i + 1`. So the run is
/// strictly increasing with no gaps or repeats, and from a fresh ledger
/// (counter 0) it is 1, 2, 3, ... This holds of the `job_id`s that `post_job`
/// returns and of the `application_id`s that successful `apply_for_job` calls
/// return.
pub proof fn lemma_issued_ids_consecutive(count: u64, ids: Seq<u64>)
    requires
        ids_issued_from(count, ids),
    ensures
        forall|i: int| 0 <= i < ids.len() ==> ids[i] == count + i + 1,
        forall|i: int, j: int| 0 <= i < j < ids.len() ==> ids[i] < ids[j],
        count == 0 && ids.len() > 0 ==> ids[0] == 1,
    decreases ids.len(),
{
    if ids.len() > 0 {
        lemma_issued_ids_consecutive((count + 1) as u64, ids.skip(1));
        assert forall|i: int| 0 <= i < ids.len() implies ids[i] == count + i + 1 by {
            if i > 0 {
                assert(ids.skip(1)[i - 1] == ids[i]);
            }
        }
    }
}

/// A run of issuing calls extended by one more call: the next call returns
/// one past the counter the run left behind. This is how a caller that
/// chains operations grows the hypothesis of `lemma_issued_ids_consecutive`.
pub proof fn lemma_issued_ids_extend(count: u64, ids: Seq<u64>, next: u64)
    requires
        ids_issued_from(count, ids),
        count + ids.len() < u64::MAX,
        next == count + ids.len() + 1,
    ensures
        ids_issued_from(count, ids.push(next)),
    decreases ids.len(),
{
    if ids.len() == 0 {
        assert(ids.push(next)[0] == next);
        assert(ids.push(next).skip(1) =~= Seq::<u64>::empty());
        assert(ids_issued_from((count + 1) as u64, Seq::<u64>::empty()));
        assert(ids_issued_from((count + 1) as u64, ids.push(next).skip(1)));
    } else {
        lemma_issued_ids_extend((count + 1) as u64, ids.skip(1), next);
        assert(ids.push(next).skip(1) =~= ids.skip(1).push(next));
        assert(ids_issued_from((count + 1) as u64, ids.push(next).skip(1)));
        assert(ids.push(next)[0] == ids[0]);
    }
}

/// Law: `close_job` is idempotent. Closing the listing under `job_id` a
/// second time succeeds again (the listing still exists) and produces exactly
/// the listings that the first close produced; either way the listing ends
/// closed with every other field and every other listing kept.
pub proof fn lemma_close_job_idempotent(jobs: Seq<JobListing>, job_id: u64)
    requires
        1 <= job_id <= jobs.len(),
    ensures
        ({
            let once = jobs.update(job_id - 1, closed(jobs[job_id - 1]));
            let twice = once.update(job_id - 1, closed(once[job_id - 1]));
            &&& twice == once
            &&& once.len() == jobs.len()
            &&& !once[job_id - 1].is_active
            &&& once[job_id - 1].job_id == jobs[job_id - 1].job_id
            &&& once[job_id - 1].title == jobs[job_id - 1].title
            &&& once[job_id - 1].description == jobs[job_id - 1].description
            &&& once[job_id - 1].employer == jobs[job_id - 1].employer
            &&& once[job_id - 1].application_fee == jobs[job_id - 1].application_fee
            &&& forall|k: int| 0 <= k < jobs.len() && k != job_id - 1 ==> once[k] == jobs[k]
        }),
{
    let once = jobs.update(job_id - 1, closed(jobs[job_id - 1]));
    let twice = once.update(job_id - 1, closed(once[job_id - 1]));
    assert(closed(once[job_id - 1]) == closed(jobs[job_id - 1]));
    assert(twice =~= once);
}

/// Law: a lookup sees exactly the last write to a listing. After a close of
/// `job_id`, the record under `job_id` — which `view_job` returns verbatim —
/// is the old record with `is_active` false, and every other listing is
/// untouched.
pub proof fn lemma_view_job_after_close(jobs: Seq<JobListing>, job_id: u64)
    requires
        1 <= job_id <= jobs.len(),
    ensures
        ({
            let after = jobs.update(job_id - 1, closed(jobs[job_id - 1]));
            &&& after.len() == jobs.len()
            &&& after[job_id - 1] == closed(jobs[job_id - 1])
            &&& forall|k: int| 0 <= k < jobs.len() && k != job_id - 1 ==> after[k] == jobs[k]
        }),
{
}

/// Law: a lookup sees exactly the last write to an application. After a
/// status update of `application_id`, the record under that identifier —
/// which `view_application` returns verbatim — carries the new status and
/// keeps its identity fields, and every other application is untouched.
pub proof fn lemma_view_application_after_update(
    apps: Seq<JobApplication>,
    application_id: u64,
    status: String,
)
    requires
        1 <= application_id <= apps.len(),
    ensures
        ({
            let after = apps.update(application_id - 1, with_status(apps[application_id - 1], status));
            &&& after.len() == apps.len()
            &&& after[application_id - 1].status == status
            &&& after[application_id - 1].application_id == apps[application_id - 1].application_id
            &&& after[application_id - 1].job_id == apps[application_id - 1].job_id
            &&& after[application_id - 1].applicant == apps[application_id - 1].applicant
            &&& forall|k: int|
                0 <= k < apps.len() && k != application_id - 1 ==> after[k] == apps[k]
        }),
{
}

} // verus!
