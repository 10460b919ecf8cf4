//! The data model: persisted job postings, in-flight normalized records, the
//! caller-supplied queries, and the summary one ingestion run returns.

use vstd::prelude::*;

verus! {

/// Abstract value of a persisted [`Job`]: each text field as a sequence of
/// characters, the identifier as a mathematical integer.
pub ghost struct JobView {
    pub id: int,
    pub title: Seq<char>,
    pub company: Seq<char>,
    pub location: Seq<char>,
    pub url: Seq<char>,
    pub description: Seq<char>,
}

/// A persisted job posting.  The identifier is assigned by the store on
/// insert and never changes; the URL is the posting's identity: no two
/// postings in a store may share one.
#[derive(Debug)]
pub struct Job {
    pub id: i32,
    pub title: String,
    pub company: String,
    pub location: String,
    pub url: String,
    pub description: String,
}

impl View for Job {
    type V = JobView;

    open spec fn view(&self) -> JobView {
        JobView {
            id: self.id as int,
            title: self.title@,
            company: self.company@,
            location: self.location@,
            url: self.url@,
            description: self.description@,
        }
    }
}

impl DeepView for Job {
    type V = JobView;

    open spec fn deep_view(&self) -> JobView {
        self.view()
    }
}

impl Clone for Job {
    fn clone(&self) -> (r: Job)
        ensures
            r == *self,
    {
        Job {
            id: self.id,
            title: self.title.clone(),
            company: self.company.clone(),
            location: self.location.clone(),
            url: self.url.clone(),
            description: self.description.clone(),
        }
    }
}

/// Abstract value of a [`NewJob`].
pub ghost struct NewJobView {
    pub title: Seq<char>,
    pub company: Seq<char>,
    pub location: Seq<char>,
    pub url: Seq<char>,
    pub description: Seq<char>,
}

/// A normalized job record that has not been persisted yet: the fields of a
/// [`Job`] minus the identifier.  It becomes a [`Job`] only on a successful
/// insert.
#[derive(Debug)]
pub struct NewJob {
    pub title: String,
    pub company: String,
    pub location: String,
    pub url: String,
    pub description: String,
}

impl View for NewJob {
    type V = NewJobView;

    open spec fn view(&self) -> NewJobView {
        NewJobView {
            title: self.title@,
            company: self.company@,
            location: self.location@,
            url: self.url@,
            description: self.description@,
        }
    }
}

impl DeepView for NewJob {
    type V = NewJobView;

    open spec fn deep_view(&self) -> NewJobView {
        self.view()
    }
}

impl Clone for NewJob {
    fn clone(&self) -> (r: NewJob)
        ensures
            r == *self,
    {
        NewJob {
            title: self.title.clone(),
            company: self.company.clone(),
            location: self.location.clone(),
            url: self.url.clone(),
            description: self.description.clone(),
        }
    }
}

/// A field-by-field copy of each posting, in order.
pub fn clone_jobs(jobs: &Vec<Job>) -> (r: Vec<Job>)
    ensures
        r@ == jobs@,
{
    let mut r: Vec<Job> = Vec::new();
    let mut i: usize = 0;
    while i < jobs.len()
        invariant
            i <= jobs@.len(),
            r@ == jobs@.take(i as int),
        decreases jobs@.len() - i,
    {
        r.push(jobs[i].clone());
        proof {
            assert(r@ =~= jobs@.take(i as int + 1));
        }
        i += 1;
    }
    proof {
        assert(jobs@.take(jobs@.len() as int) =~= jobs@);
    }
    r
}

/// The posting a [`NewJob`] becomes when the store assigns it `id`.
pub open spec fn job_of(rec: NewJobView, id: int) -> JobView {
    JobView {
        id: id,
        title: rec.title,
        company: rec.company,
        location: rec.location,
        url: rec.url,
        description: rec.description,
    }
}

/// Query parameters of the job-listing endpoint: an optional keyword to
/// filter by.
#[derive(Debug)]
pub struct JobQuery {
    pub keyword: Option<String>,
}

/// Abstract value of an [`IngestQuery`].
pub ghost struct IngestQueryView {
    pub keyword: Seq<char>,
    pub location: Seq<char>,
    pub remote_only: Option<bool>,
    pub max_days_old: Option<u32>,
}

/// The caller-supplied search that drives one ingestion run.
#[derive(Debug)]
pub struct IngestQuery {
    pub keyword: String,
    pub location: String,
    pub remote_only: Option<bool>,
    pub max_days_old: Option<u32>,
}

impl View for IngestQuery {
    type V = IngestQueryView;

    open spec fn view(&self) -> IngestQueryView {
        IngestQueryView {
            keyword: self.keyword@,
            location: self.location@,
            remote_only: self.remote_only,
            max_days_old: self.max_days_old,
        }
    }
}

/// The summary of one ingestion run or one bulk create: the newly created
/// postings with their assigned identifiers, how many records were inserted,
/// and how many were skipped as duplicate URLs.
#[derive(Debug)]
pub struct BulkJobResponse {
    pub jobs: Vec<Job>,
    pub inserted: usize,
    pub skipped: usize,
}

/// The health endpoint's response body.
#[derive(Debug)]
pub struct HealthResponse {
    pub status: String,
}

impl HealthResponse {
    /// The healthy answer.
    pub fn ok() -> (r: HealthResponse)
        ensures
            r.status@ == "ok"@,
    {
        HealthResponse { status: String::from_str("ok") }
    }
}

} // verus!
