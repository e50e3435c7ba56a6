//! The two record kinds the ledger stores, and the errors its operations report.

use vstd::prelude::*;

verus! {

/// A single job posting.
#[derive(Clone, Debug, PartialEq, Eq)]
pub struct JobListing {
    /// Unique identifier, assigned sequentially starting at 1.
    pub job_id: u64,
    /// Job title.
    pub title: String,
    /// Job description.
    pub description: String,
    /// Opaque identifier of the posting party.
    pub employer: String,
    /// Fee a candidate must pay to apply; recorded only, never settled here.
    pub application_fee: u64,
    /// True while the listing accepts applications; closing is one-way.
    pub is_active: bool,
}

/// A single candidate submission against a listing.
#[derive(Clone, Debug, PartialEq, Eq)]
pub struct JobApplication {
    /// Unique identifier, assigned sequentially starting at 1,
    /// independent of job numbering.
    pub application_id: u64,
    /// The listing this application was submitted against.
    pub job_id: u64,
    /// Opaque identifier of the candidate.
    pub applicant: String,
    /// Free text; starts at "Pending" and may be overwritten by any later value.
    pub status: String,
}

/// Why an operation was refused. Every failure aborts the whole operation
/// with no partial state written.
#[derive(Clone, Copy, Debug, PartialEq, Eq)]
pub enum LedgerError {
    /// The referenced job or application identifier does not exist.
    NotFound,
    /// The operation was attempted against a listing that is closed.
    InvalidState,
}

/// `l` with its listing closed and every other field kept.
pub open spec fn closed(l: JobListing) -> JobListing {
    JobListing {
        job_id: l.job_id,
        title: l.title,
        description: l.description,
        employer: l.employer,
        application_fee: l.application_fee,
        is_active: false,
    }
}

/// `a` with its status replaced and every other field kept.
pub open spec fn with_status(a: JobApplication, status: String) -> JobApplication {
    JobApplication {
        application_id: a.application_id,
        job_id: a.job_id,
        applicant: a.applicant,
        status: status,
    }
}

} // verus!
