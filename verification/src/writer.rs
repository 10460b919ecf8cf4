//! The dedup ingest writer's ledger for a store that lives outside the
//! library.
//!
//! When the backing store is a real database, the conditional inserts run
//! there, inside one transaction, and only the per-record outcome — inserted
//! with an assigned identifier, or skipped on a duplicate URL — comes back.
//! [`BatchWriter`] keeps that run honest: it hands out the records strictly
//! in input order, tallies each reported outcome exactly once, and closes
//! into a summary that conserves the batch (inserted + skipped == total).
//! On a store failure the caller rolls the transaction back and drops the
//! writer, so no partial summary can escape.

use vstd::prelude::*;

use crate::models::{job_of, BulkJobResponse, Job, JobView, NewJob, NewJobView};

verus! {

/// One transaction's ledger: the batch, how far it is processed, and the
/// outcomes tallied so far.
pub struct BatchWriter {
    records: Vec<NewJob>,
    next: usize,
    jobs: Vec<Job>,
    skipped: usize,
}

impl BatchWriter {
    /// The whole batch, in input order.
    pub closed spec fn records_view(&self) -> Seq<NewJobView> {
        self.records.deep_view()
    }

    /// How many records have their outcome tallied.
    pub closed spec fn processed(&self) -> nat {
        self.next as nat
    }

    /// The postings created so far, in insertion order, with the
    /// identifiers the store assigned.
    pub closed spec fn jobs_view(&self) -> Seq<JobView> {
        self.jobs.deep_view()
    }

    /// How many records were skipped so far as duplicate URLs.
    pub closed spec fn spec_skipped(&self) -> nat {
        self.skipped as nat
    }

    /// Outcomes are tallied one per processed record: conservation holds at
    /// every step.
    pub open spec fn wf(&self) -> bool {
        &&& self.processed() <= self.records_view().len()
        &&& self.jobs_view().len() + self.spec_skipped() == self.processed()
    }

    /// Open a batch: every record pending, nothing tallied.
    pub fn begin(records: Vec<NewJob>) -> (w: BatchWriter)
        ensures
            w.wf(),
            w.records_view() == records.deep_view(),
            w.processed() == 0,
            w.jobs_view() == Seq::<JobView>::empty(),
            w.spec_skipped() == 0,
    {
        let w = BatchWriter { records, next: 0, jobs: Vec::new(), skipped: 0 };
        proof {
            assert(w.jobs.deep_view() =~= Seq::<JobView>::empty());
        }
        w
    }

    /// Is every record's outcome tallied?
    pub fn is_done(&self) -> (r: bool)
        ensures
            r == (self.processed() == self.records_view().len()),
    {
        self.next == self.records.len()
    }

    /// The record whose insert the store attempts next.
    pub fn current(&self) -> (r: &NewJob)
        requires
            self.processed() < self.records_view().len(),
        ensures
            r.deep_view() == self.records_view()[self.processed() as int],
    {
        &self.records[self.next]
    }

    /// The store inserted the current record and assigned it `id`: tally the
    /// posting the store now holds and move on.
    pub fn record_inserted(&mut self, id: i32)
        requires
            old(self).wf(),
            old(self).processed() < old(self).records_view().len(),
        ensures
            final(self).wf(),
            final(self).records_view() == old(self).records_view(),
            final(self).processed() == old(self).processed() + 1,
            final(self).spec_skipped() == old(self).spec_skipped(),
            final(self).jobs_view() == old(self).jobs_view().push(
                job_of(old(self).records_view()[old(self).processed() as int], id as int),
            ),
    {
        let ghost old_jobs = self.jobs.deep_view();
        let rec = &self.records[self.next];
        let job = Job {
            id,
            title: rec.title.clone(),
            company: rec.company.clone(),
            location: rec.location.clone(),
            url: rec.url.clone(),
            description: rec.description.clone(),
        };
        let ghost jv = job@;
        self.jobs.push(job);
        proof {
            assert(self.records.len() == self.records@.len());
            assert(self.records.deep_view().len() == self.records@.len());
        }
        self.next = self.next + 1;
        proof {
            assert(jv == job_of(old(self).records_view()[old(self).processed() as int], id as int));
            assert(self.jobs.deep_view() =~= old_jobs.push(jv));
        }
    }

    /// The store reported a duplicate URL for the current record: tally it
    /// as skipped and move on.  A duplicate is a normal outcome, not an
    /// error.
    pub fn record_skipped(&mut self)
        requires
            old(self).wf(),
            old(self).processed() < old(self).records_view().len(),
        ensures
            final(self).wf(),
            final(self).records_view() == old(self).records_view(),
            final(self).processed() == old(self).processed() + 1,
            final(self).spec_skipped() == old(self).spec_skipped() + 1,
            final(self).jobs_view() == old(self).jobs_view(),
    {
        proof {
            assert(self.records.len() == self.records@.len());
            assert(self.records.deep_view().len() == self.records@.len());
        }
        self.skipped = self.skipped + 1;
        self.next = self.next + 1;
    }

    /// Close the batch once every record's outcome is in: the summary of one
    /// committed run, conserving the batch — inserted plus skipped is
    /// exactly the number of records handed in.
    pub fn finish(self) -> (r: BulkJobResponse)
        requires
            self.wf(),
            self.processed() == self.records_view().len(),
        ensures
            r.jobs.deep_view() == self.jobs_view(),
            r.inserted == self.jobs_view().len(),
            r.skipped == self.spec_skipped(),
            r.inserted + r.skipped == self.records_view().len(),
    {
        let inserted = self.jobs.len();
        BulkJobResponse { jobs: self.jobs, inserted, skipped: self.skipped }
    }
}

} // verus!
