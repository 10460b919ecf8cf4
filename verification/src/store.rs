//! The transactional job store and its dedup ingest writer.
//!
//! [`JobStore`] is an in-memory store with exactly the semantics the
//! ingestion core relies on from its relational backend: URL uniqueness
//! enforced at insert time, identifiers assigned sequentially by the store,
//! and batches that commit or roll back as one transaction.  A fault hook
//! stands in for the backend failing mid-transaction, so that rollback can be
//! exercised.

use vstd::prelude::*;

use crate::errors::{IngestError, ValidationFault};
use crate::models::{clone_jobs, job_of, BulkJobResponse, Job, JobView, NewJob, NewJobView};

verus! {

/// Largest batch the direct bulk-create entry point accepts in one
/// transaction.
pub const MAX_BULK_BATCH: usize = 500;

/// Largest number of postings a store can hold: identifiers are `i32` values
/// assigned sequentially from 1.
pub const MAX_STORE_LEN: usize = 0x7fff_ffff;

/// Does some posting in `jobs` carry `url`?
pub open spec fn has_url(jobs: Seq<JobView>, url: Seq<char>) -> bool {
    exists|i: int| 0 <= i < jobs.len() && jobs[i].url == url
}

/// No two postings share a URL: the store's uniqueness invariant.
pub open spec fn urls_unique(jobs: Seq<JobView>) -> bool {
    forall|i: int, j: int| 0 <= i < j < jobs.len() ==> jobs[i].url != jobs[j].url
}

/// The set of URLs present in `jobs`.
pub open spec fn url_set(jobs: Seq<JobView>) -> Set<Seq<char>> {
    Set::new(|u: Seq<char>| has_url(jobs, u))
}

/// The postings one batch creates, processed in input order against the URLs
/// in `urls`: a record whose URL is already taken is skipped; any other is
/// inserted, takes the next identifier, and from then on its URL is taken —
/// also for later records of the same batch.
pub open spec fn run_jobs(urls: Set<Seq<char>>, recs: Seq<NewJobView>, next_id: int) -> Seq<JobView>
    decreases recs.len(),
{
    if recs.len() == 0 {
        Seq::empty()
    } else if urls.contains(recs[0].url) {
        run_jobs(urls, recs.drop_first(), next_id)
    } else {
        seq![job_of(recs[0], next_id)] + run_jobs(
            urls.insert(recs[0].url),
            recs.drop_first(),
            next_id + 1,
        )
    }
}

/// Does some record in `recs` carry `url`?
pub open spec fn batch_has_url(recs: Seq<NewJobView>, url: Seq<char>) -> bool {
    exists|i: int| 0 <= i < recs.len() && recs[i].url == url
}

/// What a committed batch guarantees: how the summary `resp` relates the
/// store contents before (`pre`) and after (`post`) one transaction over
/// `recs`.
pub open spec fn batch_committed(
    pre: Seq<JobView>,
    recs: Seq<NewJobView>,
    post: Seq<JobView>,
    resp: BulkJobResponse,
) -> bool {
    &&& resp.jobs.deep_view() == run_jobs(url_set(pre), recs, pre.len() as int + 1)
    &&& post == pre + resp.jobs.deep_view()
    &&& resp.inserted == resp.jobs@.len()
    &&& resp.inserted + resp.skipped == recs.len()
    &&& forall|u: Seq<char>|
        #[trigger] has_url(post, u) <==> has_url(pre, u) || batch_has_url(recs, u)
}

/// Does a fault armed as `fault` fire within the next `attempts` insert
/// attempts?
pub open spec fn fault_fires(fault: Option<u64>, attempts: nat) -> bool {
    match fault {
        Some(k) => 1 <= k <= attempts,
        None => false,
    }
}

/// The armed fault after `attempts` insert attempts that did not reach it.
pub open spec fn fault_after(fault: Option<u64>, attempts: nat) -> Option<u64> {
    match fault {
        Some(k) => Some((k - attempts) as u64),
        None => None,
    }
}

/// An in-memory job store: postings with store-assigned sequential
/// identifiers, at most one posting per URL, transactional batch writes.
pub struct JobStore {
    jobs: Vec<Job>,
    fault_countdown: Option<u64>,
}

impl JobStore {
    /// The stored postings, in insertion order.
    pub closed spec fn jobs_view(&self) -> Seq<JobView> {
        self.jobs.deep_view()
    }

    /// The armed fault: `Some(k)` makes the k-th insert attempt from now
    /// fail the way a lost connection would.
    pub closed spec fn fault(&self) -> Option<u64> {
        self.fault_countdown
    }

    /// Well-formedness: no two postings share a URL, identifiers run 1, 2,
    /// 3, … in insertion order, the store is within capacity, and an armed
    /// fault is at least one attempt away.
    pub open spec fn wf(&self) -> bool {
        &&& urls_unique(self.jobs_view())
        &&& self.jobs_view().len() <= MAX_STORE_LEN
        &&& forall|i: int|
            0 <= i < self.jobs_view().len() ==> (#[trigger] self.jobs_view()[i]).id == i + 1
        &&& match self.fault() {
            Some(k) => k >= 1,
            None => true,
        }
    }

    /// An empty store with no fault armed.
    pub fn new() -> (s: JobStore)
        ensures
            s.wf(),
            s.jobs_view() == Seq::<JobView>::empty(),
            s.fault() is None,
    {
        JobStore { jobs: Vec::new(), fault_countdown: None }
    }

    /// How many postings the store holds.
    pub fn len(&self) -> (n: usize)
        ensures
            n == self.jobs_view().len(),
    {
        self.jobs.len()
    }

    /// The stored postings, in insertion order.
    pub fn postings(&self) -> (r: &Vec<Job>)
        ensures
            r.deep_view() == self.jobs_view(),
    {
        &self.jobs
    }

    /// Is some posting with this URL already stored?
    pub fn contains_url(&self, url: &String) -> (r: bool)
        ensures
            r == has_url(self.jobs_view(), url@),
    {
        vec_has_url(&self.jobs, url)
    }

    /// Arm the fault hook: the k-th insert attempt from now will fail as the
    /// backend would on a lost connection.
    pub fn arm_failure(&mut self, k: u64)
        requires
            k >= 1,
        ensures
            final(self).jobs_view() == old(self).jobs_view(),
            final(self).fault() == Some(k),
            old(self).wf() ==> final(self).wf(),
    {
        self.fault_countdown = Some(k);
    }

    /// One insert attempt begins: burn one tick of the fault hook and report
    /// whether the attempt fails.
    fn note_attempt(&mut self) -> (failed: bool)
        requires
            match old(self).fault() {
                Some(k) => k >= 1,
                None => true,
            },
        ensures
            final(self).jobs_view() == old(self).jobs_view(),
            failed == fault_fires(old(self).fault(), 1),
            final(self).fault() == if failed {
                None::<u64>
            } else {
                fault_after(old(self).fault(), 1)
            },
    {
        match self.fault_countdown {
            None => false,
            Some(k) => {
                if k <= 1 {
                    self.fault_countdown = None;
                    true
                } else {
                    self.fault_countdown = Some(k - 1);
                    false
                }
            },
        }
    }

    /// Direct single-record create: one insert attempt, with the store's
    /// URL-uniqueness constraint rejecting a duplicate.  On success the new
    /// posting's identifier is returned.
    pub fn insert_job(&mut self, new_job: &NewJob) -> (r: Result<i32, IngestError>)
        requires
            old(self).wf(),
            old(self).jobs_view().len() < MAX_STORE_LEN,
        ensures
            final(self).wf(),
            r is Err <==> fault_fires(old(self).fault(), 1) || has_url(
                old(self).jobs_view(),
                new_job@.url,
            ),
            r is Err ==> r == Err::<i32, IngestError>(IngestError::PersistenceError)
                && final(self).jobs_view() == old(self).jobs_view(),
            r matches Ok(id) ==> id == old(self).jobs_view().len() + 1
                && final(self).jobs_view() == old(self).jobs_view().push(
                job_of(new_job@, old(self).jobs_view().len() as int + 1),
            ),
            !fault_fires(old(self).fault(), 1) ==> final(self).fault() == fault_after(
                old(self).fault(),
                1,
            ),
            fault_fires(old(self).fault(), 1) ==> final(self).fault() is None,
    {
        let failed = self.note_attempt();
        if failed {
            return Err(IngestError::PersistenceError);
        }
        if vec_has_url(&self.jobs, &new_job.url) {
            return Err(IngestError::PersistenceError);
        }
        let id = (self.jobs.len() + 1) as i32;
        let job = Job {
            id,
            title: new_job.title.clone(),
            company: new_job.company.clone(),
            location: new_job.location.clone(),
            url: new_job.url.clone(),
            description: new_job.description.clone(),
        };
        let ghost jv = job@;
        self.jobs.push(job);
        proof {
            assert(jv == job_of(new_job@, old(self).jobs_view().len() as int + 1));
            assert(self.jobs.deep_view() =~= old(self).jobs_view().push(jv));
        }
        Ok(id)
    }

    /// The dedup ingest writer: one transaction over the whole batch.  Each
    /// record, in input order, is inserted if its URL is fresh — fresh
    /// against the store and against records staged earlier in this same
    /// batch — and skipped otherwise.  A store fault mid-batch rolls the
    /// whole transaction back: nothing is committed and the caller gets a
    /// persistence failure instead of a partial summary.
    pub fn ingest_batch(&mut self, batch: &Vec<NewJob>) -> (r: Result<BulkJobResponse, IngestError>)
        requires
            old(self).wf(),
            old(self).jobs_view().len() + batch@.len() <= MAX_STORE_LEN,
        ensures
            final(self).wf(),
            r is Err <==> fault_fires(old(self).fault(), batch@.len()),
            r is Err ==> r == Err::<BulkJobResponse, IngestError>(IngestError::PersistenceError)
                && final(self).jobs_view() == old(self).jobs_view() && final(self).fault() is None,
            r matches Ok(resp) ==> batch_committed(
                old(self).jobs_view(),
                batch.deep_view(),
                final(self).jobs_view(),
                resp,
            ) && final(self).fault() == fault_after(old(self).fault(), batch@.len()),
    {
        let ghost old_jobs = self.jobs.deep_view();
        let ghost old_urls = url_set(old_jobs);
        let ghost recs = batch.deep_view();
        let ghost base_id = old_jobs.len() as int + 1;

        let mut staged: Vec<Job> = Vec::new();
        let mut skipped: usize = 0;
        let mut i: usize = 0;

        proof {
            assert(staged.deep_view() =~= Seq::<JobView>::empty());
            assert(old_jobs + staged.deep_view() =~= old_jobs);
            assert(recs.skip(0) =~= recs);
            assert(staged.deep_view() + run_jobs(url_set(old_jobs), recs, base_id) =~= run_jobs(
                url_set(old_jobs),
                recs,
                base_id,
            ));
        }

        while i < batch.len()
            invariant
                old(self).wf(),
                old_jobs == old(self).jobs_view(),
                self.jobs.deep_view() == old_jobs,
                self.wf(),
                batch.deep_view() == recs,
                batch@.len() == recs.len(),
                old_jobs.len() + recs.len() <= MAX_STORE_LEN,
                old_urls == url_set(old_jobs),
                base_id == old_jobs.len() as int + 1,
                i <= recs.len(),
                staged@.len() + skipped == i,
                urls_unique(old_jobs + staged.deep_view()),
                forall|j: int|
                    0 <= j < (old_jobs + staged.deep_view()).len() ==> (#[trigger] (old_jobs
                        + staged.deep_view())[j]).id == j + 1,
                run_jobs(old_urls, recs, base_id) == staged.deep_view() + run_jobs(
                    url_set(old_jobs + staged.deep_view()),
                    recs.skip(i as int),
                    base_id + staged@.len(),
                ),
                forall|j: int|
                    0 <= j < i ==> url_set(old_jobs + staged.deep_view()).contains(
                        (#[trigger] recs[j]).url,
                    ),
                forall|j: int|
                    0 <= j < staged.deep_view().len() ==> batch_has_url(
                        recs,
                        (#[trigger] staged.deep_view()[j]).url,
                    ),
                !fault_fires(old(self).fault(), i as nat),
                self.fault() == fault_after(old(self).fault(), i as nat),
            decreases batch@.len() - i,
        {
            let ghost pre_staged = staged.deep_view();
            let ghost cur_urls = url_set(old_jobs + pre_staged);
            let ghost next_id = base_id + pre_staged.len();
            proof {
                assert(recs.skip(i as int)[0] == recs[i as int]);
                assert(recs.skip(i as int).drop_first() =~= recs.skip(i as int + 1));
            }

            let failed = self.note_attempt();
            if failed {
                proof {
                    match old(self).fault() {
                        Some(k0) => {
                            assert(k0 > i);
                            assert(fault_after(old(self).fault(), i as nat) == Some(
                                (k0 - i) as u64,
                            ));
                            assert(k0 - i == 1);
                            assert(fault_fires(old(self).fault(), batch@.len()));
                        },
                        None => {
                            assert(!failed);
                        },
                    }
                }
                return Err(IngestError::PersistenceError);
            }

            let rec = &batch[i];
            proof {
                assert(rec.deep_view() == recs[i as int]);
            }
            let dup = vec_has_url(&self.jobs, &rec.url) || vec_has_url(&staged, &rec.url);
            proof {
                lemma_has_url_concat(old_jobs, pre_staged, recs[i as int].url);
                assert(dup == cur_urls.contains(recs[i as int].url));
            }

            if dup {
                skipped += 1;
            } else {
                let id_val = self.jobs.len() + staged.len() + 1;
                let job = Job {
                    id: id_val as i32,
                    title: rec.title.clone(),
                    company: rec.company.clone(),
                    location: rec.location.clone(),
                    url: rec.url.clone(),
                    description: rec.description.clone(),
                };
                let ghost jv = job@;
                staged.push(job);
                proof {
                    assert(jv == job_of(recs[i as int], next_id));
                    assert(staged.deep_view() =~= pre_staged.push(jv));
                    assert(old_jobs + staged.deep_view() =~= (old_jobs + pre_staged).push(jv));
                    lemma_has_url_push(old_jobs + pre_staged, jv, jv.url);
                    // uniqueness and identifiers of the grown combined sequence
                    assert forall|a: int, b: int|
                        0 <= a < b < (old_jobs + staged.deep_view()).len() implies (old_jobs
                        + staged.deep_view())[a].url != (old_jobs + staged.deep_view())[b].url by {
                        if b < (old_jobs + pre_staged).len() {
                        } else {
                            assert((old_jobs + staged.deep_view())[b] == jv);
                            assert(!has_url(old_jobs + pre_staged, jv.url));
                            assert((old_jobs + staged.deep_view())[a] == (old_jobs
                                + pre_staged)[a]);
                        }
                    }
                    // the URL set grows by exactly this record's URL
                    assert forall|w: Seq<char>|
                        url_set(old_jobs + staged.deep_view()).contains(w)
                            == cur_urls.insert(jv.url).contains(w) by {
                        lemma_has_url_push(old_jobs + pre_staged, jv, w);
                    }
                    assert(url_set(old_jobs + staged.deep_view()) =~= cur_urls.insert(jv.url));
                    // re-associate the fold equation
                    assert(pre_staged + (seq![jv] + run_jobs(
                        cur_urls.insert(jv.url),
                        recs.skip(i as int + 1),
                        next_id + 1,
                    )) =~= staged.deep_view() + run_jobs(
                        cur_urls.insert(jv.url),
                        recs.skip(i as int + 1),
                        next_id + 1,
                    ));
                }
            }
            i += 1;
        }

        proof {
            assert(recs.skip(recs.len() as int) =~= Seq::<NewJobView>::empty());
            assert(run_jobs(old_urls, recs, base_id) =~= staged.deep_view());
        }

        let inserted = staged.len();
        let committed = clone_jobs(&staged);
        proof {
            assert(committed.deep_view() =~= staged.deep_view());
        }
        self.jobs.append(&mut staged);
        proof {
            assert(self.jobs.deep_view() =~= old_jobs + committed.deep_view());
            assert forall|u: Seq<char>| #[trigger]
                has_url(self.jobs.deep_view(), u) == (has_url(old_jobs, u) || batch_has_url(
                    recs,
                    u,
                )) by {
                lemma_has_url_concat(old_jobs, committed.deep_view(), u);
                if batch_has_url(recs, u) {
                    let j = choose|j: int| 0 <= j < recs.len() && recs[j].url == u;
                    assert(url_set(old_jobs + committed.deep_view()).contains(recs[j].url));
                }
            }
        }
        Ok(BulkJobResponse { jobs: committed, inserted, skipped })
    }

    /// The direct bulk-create entry point: reject an empty or oversized
    /// batch before any store interaction, otherwise run the dedup ingest
    /// writer over it.
    pub fn bulk_create(&mut self, batch: &Vec<NewJob>) -> (r: Result<BulkJobResponse, IngestError>)
        requires
            old(self).wf(),
            old(self).jobs_view().len() + batch@.len() <= MAX_STORE_LEN,
        ensures
            final(self).wf(),
            batch@.len() == 0 ==> r == Err::<BulkJobResponse, IngestError>(
                IngestError::ValidationError(ValidationFault::EmptyBatch),
            ) && *final(self) == *old(self),
            batch@.len() > MAX_BULK_BATCH ==> r == Err::<BulkJobResponse, IngestError>(
                IngestError::ValidationError(ValidationFault::OversizedBatch),
            ) && *final(self) == *old(self),
            1 <= batch@.len() <= MAX_BULK_BATCH ==> {
                &&& r is Err <==> fault_fires(old(self).fault(), batch@.len())
                &&& r is Err ==> r == Err::<BulkJobResponse, IngestError>(
                    IngestError::PersistenceError,
                ) && final(self).jobs_view() == old(self).jobs_view() && final(self).fault() is None
                &&& r matches Ok(resp) ==> batch_committed(
                    old(self).jobs_view(),
                    batch.deep_view(),
                    final(self).jobs_view(),
                    resp,
                ) && final(self).fault() == fault_after(old(self).fault(), batch@.len())
            },
    {
        match validate_batch(batch) {
            Err(e) => Err(e),
            Ok(()) => self.ingest_batch(batch),
        }
    }
}

/// The admission rule of a direct bulk create: a batch must hold at least
/// one record and at most [`MAX_BULK_BATCH`].  It runs before any store
/// interaction.
pub fn validate_batch(batch: &Vec<NewJob>) -> (r: Result<(), IngestError>)
    ensures
        batch@.len() == 0 ==> r == Err::<(), IngestError>(
            IngestError::ValidationError(ValidationFault::EmptyBatch),
        ),
        batch@.len() > MAX_BULK_BATCH ==> r == Err::<(), IngestError>(
            IngestError::ValidationError(ValidationFault::OversizedBatch),
        ),
        1 <= batch@.len() <= MAX_BULK_BATCH ==> r is Ok,
{
    if batch.len() == 0 {
        Err(IngestError::ValidationError(ValidationFault::EmptyBatch))
    } else if batch.len() > MAX_BULK_BATCH {
        Err(IngestError::ValidationError(ValidationFault::OversizedBatch))
    } else {
        Ok(())
    }
}

/// A batch whose every URL is already taken inserts nothing, whatever
/// identifier would come next.
pub proof fn lemma_ingest_idempotent(urls: Set<Seq<char>>, recs: Seq<NewJobView>, next_id: int)
    requires
        forall|i: int| 0 <= i < recs.len() ==> urls.contains((#[trigger] recs[i]).url),
    ensures
        run_jobs(urls, recs, next_id).len() == 0,
    decreases recs.len(),
{
    if recs.len() > 0 {
        assert(urls.contains(recs[0].url));
        assert forall|i: int| 0 <= i < recs.drop_first().len() implies urls.contains(
            (#[trigger] recs.drop_first()[i]).url,
        ) by {
            assert(recs.drop_first()[i] == recs[i + 1]);
        }
        lemma_ingest_idempotent(urls, recs.drop_first(), next_id);
    }
}

/// Idempotence of ingestion: after one committed run of a batch, running the
/// identical batch against the unchanged store inserts nothing.
pub proof fn lemma_second_run_inserts_nothing(
    pre: Seq<JobView>,
    recs: Seq<NewJobView>,
    post: Seq<JobView>,
    resp: BulkJobResponse,
    next_id: int,
)
    requires
        batch_committed(pre, recs, post, resp),
    ensures
        run_jobs(url_set(post), recs, next_id).len() == 0,
{
    assert forall|i: int| 0 <= i < recs.len() implies url_set(post).contains(
        (#[trigger] recs[i]).url,
    ) by {
        assert(batch_has_url(recs, recs[i].url));
        assert(has_url(post, recs[i].url));
    }
    lemma_ingest_idempotent(url_set(post), recs, next_id);
}

/// One run never inserts more records than it was handed.
pub proof fn lemma_inserted_at_most_total(urls: Set<Seq<char>>, recs: Seq<NewJobView>, next_id: int)
    ensures
        run_jobs(urls, recs, next_id).len() <= recs.len(),
    decreases recs.len(),
{
    if recs.len() > 0 {
        if urls.contains(recs[0].url) {
            lemma_inserted_at_most_total(urls, recs.drop_first(), next_id);
        } else {
            lemma_inserted_at_most_total(
                urls.insert(recs[0].url),
                recs.drop_first(),
                next_id + 1,
            );
        }
    }
}

proof fn lemma_has_url_concat(a: Seq<JobView>, b: Seq<JobView>, url: Seq<char>)
    ensures
        has_url(a + b, url) <==> has_url(a, url) || has_url(b, url),
{
    if has_url(a, url) {
        let i = choose|i: int| 0 <= i < a.len() && a[i].url == url;
        assert((a + b)[i].url == url);
    }
    if has_url(b, url) {
        let i = choose|i: int| 0 <= i < b.len() && b[i].url == url;
        assert((a + b)[a.len() + i].url == url);
    }
    if has_url(a + b, url) {
        let i = choose|i: int| 0 <= i < (a + b).len() && (a + b)[i].url == url;
        if i < a.len() {
            assert(a[i].url == url);
        } else {
            assert(b[i - a.len()].url == url);
        }
    }
}

proof fn lemma_has_url_push(jobs: Seq<JobView>, j: JobView, url: Seq<char>)
    ensures
        has_url(jobs.push(j), url) <==> has_url(jobs, url) || j.url == url,
{
    assert(jobs.push(j)[jobs.len() as int] == j);
    if has_url(jobs, url) {
        let i = choose|i: int| 0 <= i < jobs.len() && jobs[i].url == url;
        assert(jobs.push(j)[i].url == url);
    }
    if has_url(jobs.push(j), url) {
        let i = choose|i: int| 0 <= i < jobs.push(j).len() && jobs.push(j)[i].url == url;
        if i < jobs.len() {
            assert(jobs[i].url == url);
        }
    }
}

/// Does some posting in `jobs` carry `url`?
fn vec_has_url(jobs: &Vec<Job>, url: &String) -> (r: bool)
    ensures
        r == has_url(jobs.deep_view(), url@),
{
    let mut i: usize = 0;
    while i < jobs.len()
        invariant
            i <= jobs.deep_view().len(),
            forall|j: int| 0 <= j < i ==> (#[trigger] jobs.deep_view()[j]).url != url@,
        decreases jobs.len() - i,
    {
        proof {
            assert(jobs.deep_view()[i as int] == jobs@[i as int].deep_view());
        }
        if *url == jobs[i].url {
            return true;
        }
        i += 1;
    }
    false
}

} // verus!
