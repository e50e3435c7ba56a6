//! The job-board ledger: two counters and two keyed collections, with the
//! mutation rules of each operation stated and proved.
//!
//! Identifiers are issued sequentially from 1 with no gaps or reuse, so the
//! record with identifier `i` lives at index `i - 1` of its collection and the
//! counter equals the collection's length. `wf` states exactly that, every
//! constructor establishes it, and every operation preserves it.

use vstd::prelude::*;

use crate::records::{closed, with_status, JobApplication, JobListing, LedgerError};

verus! {

/// The ledger behind the recruitment marketplace. It exclusively owns the two
/// counters and the two collections; records are never deleted, only mutated
/// in place.
pub struct TalentRecruitmentContract {
    /// High-water mark of job identifiers issued so far.
    pub job_listing_count: u64,
    /// High-water mark of application identifiers issued so far.
    pub application_count: u64,
    /// All listings ever posted; the listing with `job_id == i + 1` is at index `i`.
    pub jobs: Vec<JobListing>,
    /// All applications ever submitted; the one with `application_id == i + 1`
    /// is at index `i`.
    pub applications: Vec<JobApplication>,
}

impl TalentRecruitmentContract {
    /// Well-formedness: counters equal the collection lengths, identifiers are
    /// dense from 1, and every application points at an existing listing.
    pub open spec fn wf(self) -> bool {
        &&& self.job_listing_count == self.jobs@.len()
        &&& self.application_count == self.applications@.len()
        &&& forall|i: int|
            0 <= i < self.jobs@.len() ==> (#[trigger] self.jobs@[i]).job_id == i + 1
        &&& forall|i: int|
            0 <= i < self.applications@.len() ==> (#[trigger] self.applications@[i]).application_id
                == i + 1
        &&& forall|i: int|
            0 <= i < self.applications@.len() ==> 1 <= (#[trigger] self.applications@[i]).job_id
                <= self.jobs@.len()
    }

    /// Whether a listing with this identifier exists.
    pub open spec fn has_job(self, job_id: u64) -> bool {
        1 <= job_id <= self.jobs@.len()
    }

    /// The listing stored under `job_id` (meaningful when `has_job` holds).
    pub open spec fn job(self, job_id: u64) -> JobListing {
        self.jobs@[job_id - 1]
    }

    /// Whether an application with this identifier exists.
    pub open spec fn has_application(self, application_id: u64) -> bool {
        1 <= application_id <= self.applications@.len()
    }

    /// The application stored under `application_id` (meaningful when
    /// `has_application` holds).
    pub open spec fn application(self, application_id: u64) -> JobApplication {
        self.applications@[application_id - 1]
    }

    /// Observable state equality: both counters and both collections agree.
    pub open spec fn unchanged_from(self, pre: TalentRecruitmentContract) -> bool {
        &&& self.job_listing_count == pre.job_listing_count
        &&& self.application_count == pre.application_count
        &&& self.jobs@ == pre.jobs@
        &&& self.applications@ == pre.applications@
    }

    /// A fresh ledger: no listings, no applications, both counters at zero.
    pub fn new() -> (ledger: TalentRecruitmentContract)
        ensures
            ledger.wf(),
            ledger.job_listing_count == 0,
            ledger.application_count == 0,
            ledger.jobs@ == Seq::<JobListing>::empty(),
            ledger.applications@ == Seq::<JobApplication>::empty(),
    {
        TalentRecruitmentContract {
            job_listing_count: 0,
            application_count: 0,
            jobs: Vec::new(),
            applications: Vec::new(),
        }
    }

    /// Post a new job. Always succeeds: the inputs are recorded as given, the
    /// job counter advances by one, and the returned identifier is strictly
    /// greater than every identifier issued before.
    pub fn post_job(
        &mut self,
        title: String,
        description: String,
        employer: String,
        application_fee: u64,
    ) -> (job_id: u64)
        requires
            old(self).wf(),
            old(self).job_listing_count < u64::MAX,
        ensures
            final(self).wf(),
            job_id == old(self).job_listing_count + 1,
            final(self).job_listing_count == job_id,
            final(self).jobs@ == old(self).jobs@.push(
                (JobListing {
                    job_id: job_id,
                    title: title,
                    description: description,
                    employer: employer,
                    application_fee: application_fee,
                    is_active: true,
                }),
            ),
            final(self).application_count == old(self).application_count,
            final(self).applications@ == old(self).applications@,
    {
        let job_id = self.job_listing_count + 1;
        let listing = JobListing {
            job_id,
            title,
            description,
            employer,
            application_fee,
            is_active: true,
        };
        self.jobs.push(listing);
        self.job_listing_count = job_id;
        job_id
    }

    /// Apply for a job. Fails with `NotFound` when no listing has `job_id`,
    /// with `InvalidState` when the listing is closed; either failure leaves
    /// the whole state untouched. On success the application counter advances
    /// by one and a new application with status `"Pending"` is recorded under
    /// the returned identifier.
    pub fn apply_for_job(&mut self, job_id: u64, applicant: String) -> (result: Result<
        u64,
        LedgerError,
    >)
        requires
            old(self).wf(),
            old(self).application_count < u64::MAX,
        ensures
            final(self).wf(),
            !old(self).has_job(job_id) ==> result == Err::<u64, LedgerError>(LedgerError::NotFound)
                && final(self).unchanged_from(*old(self)),
            old(self).has_job(job_id) && !old(self).job(job_id).is_active ==> result == Err::<
                u64,
                LedgerError,
            >(LedgerError::InvalidState) && final(self).unchanged_from(*old(self)),
            old(self).has_job(job_id) && old(self).job(job_id).is_active ==> {
                &&& result == Ok::<u64, LedgerError>((old(self).application_count + 1) as u64)
                &&& final(self).application_count == old(self).application_count + 1
                &&& final(self).applications@ == old(self).applications@.push(
                    final(self).applications@.last(),
                )
                &&& final(self).applications@.last().application_id == old(self).application_count
                    + 1
                &&& final(self).applications@.last().job_id == job_id
                &&& final(self).applications@.last().applicant == applicant
                &&& final(self).applications@.last().status@ == "Pending"@
                &&& final(self).jobs@ == old(self).jobs@
                &&& final(self).job_listing_count == old(self).job_listing_count
            },
    {
        let n = self.jobs.len();
        if job_id < 1 || job_id > n as u64 {
            return Err(LedgerError::NotFound);
        }
        let idx = (job_id - 1) as usize;
        if !self.jobs[idx].is_active {
            return Err(LedgerError::InvalidState);
        }
        let application_id = self.application_count + 1;
        let application = JobApplication {
            application_id,
            job_id,
            applicant,
            status: String::from_str("Pending"),
        };
        self.applications.push(application);
        self.application_count = application_id;
        Ok(application_id)
    }

    /// Overwrite the status of an existing application with the caller's
    /// value, as given and unvalidated; every other field and record is kept.
    /// Fails with `NotFound`, touching nothing, when no application has
    /// `application_id`.
    pub fn update_application_status(&mut self, application_id: u64, status: String) -> (result:
        Result<(), LedgerError>)
        requires
            old(self).wf(),
        ensures
            final(self).wf(),
            !old(self).has_application(application_id) ==> result == Err::<(), LedgerError>(
                LedgerError::NotFound,
            ) && final(self).unchanged_from(*old(self)),
            old(self).has_application(application_id) ==> {
                &&& result == Ok::<(), LedgerError>(())
                &&& final(self).applications@ == old(self).applications@.update(
                    application_id - 1,
                    with_status(old(self).application(application_id), status),
                )
                &&& final(self).jobs@ == old(self).jobs@
                &&& final(self).job_listing_count == old(self).job_listing_count
                &&& final(self).application_count == old(self).application_count
            },
    {
        let n = self.applications.len();
        if application_id < 1 || application_id > n as u64 {
            return Err(LedgerError::NotFound);
        }
        let idx = (application_id - 1) as usize;
        self.applications[idx].status = status;
        Ok(())
    }

    /// Close a listing: set `is_active` to false, keeping every other field
    /// and record. Closing is terminal and idempotent — closing an already
    /// closed listing succeeds and leaves the same state. Fails with
    /// `NotFound`, touching nothing, when no listing has `job_id`.
    pub fn close_job(&mut self, job_id: u64) -> (result: Result<(), LedgerError>)
        requires
            old(self).wf(),
        ensures
            final(self).wf(),
            !old(self).has_job(job_id) ==> result == Err::<(), LedgerError>(LedgerError::NotFound)
                && final(self).unchanged_from(*old(self)),
            old(self).has_job(job_id) ==> {
                &&& result == Ok::<(), LedgerError>(())
                &&& final(self).jobs@ == old(self).jobs@.update(
                    job_id - 1,
                    closed(old(self).job(job_id)),
                )
                &&& final(self).applications@ == old(self).applications@
                &&& final(self).job_listing_count == old(self).job_listing_count
                &&& final(self).application_count == old(self).application_count
            },
    {
        let n = self.jobs.len();
        if job_id < 1 || job_id > n as u64 {
            return Err(LedgerError::NotFound);
        }
        let idx = (job_id - 1) as usize;
        self.jobs[idx].is_active = false;
        Ok(())
    }

    /// Look up a listing. Pure read: returns exactly the stored record, or
    /// `NotFound` when no listing has `job_id`.
    pub fn view_job(&self, job_id: u64) -> (result: Result<JobListing, LedgerError>)
        ensures
            self.has_job(job_id) ==> result == Ok::<JobListing, LedgerError>(self.job(job_id)),
            !self.has_job(job_id) ==> result == Err::<JobListing, LedgerError>(
                LedgerError::NotFound,
            ),
    {
        let n = self.jobs.len();
        if job_id < 1 || job_id > n as u64 {
            return Err(LedgerError::NotFound);
        }
        let idx = (job_id - 1) as usize;
        let stored = &self.jobs[idx];
        Ok(
            JobListing {
                job_id: stored.job_id,
                title: stored.title.clone(),
                description: stored.description.clone(),
                employer: stored.employer.clone(),
                application_fee: stored.application_fee,
                is_active: stored.is_active,
            },
        )
    }

    /// Look up an application. Pure read: returns exactly the stored record,
    /// or `NotFound` when no application has `application_id`.
    pub fn view_application(&self, application_id: u64) -> (result: Result<
        JobApplication,
        LedgerError,
    >)
        ensures
            self.has_application(application_id) ==> result == Ok::<JobApplication, LedgerError>(
                self.application(application_id),
            ),
            !self.has_application(application_id) ==> result == Err::<JobApplication, LedgerError>(
                LedgerError::NotFound,
            ),
    {
        let n = self.applications.len();
        if application_id < 1 || application_id > n as u64 {
            return Err(LedgerError::NotFound);
        }
        let idx = (application_id - 1) as usize;
        let stored = &self.applications[idx];
        Ok(
            JobApplication {
                application_id: stored.application_id,
                job_id: stored.job_id,
                applicant: stored.applicant.clone(),
                status: stored.status.clone(),
            },
        )
    }
}

} // verus!
