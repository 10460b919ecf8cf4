//! The paginating fetcher's control state.
//!
//! One ingestion run walks the remote provider page by page: page 1, 2, 3, …
//! strictly in order, never twice, at most [`MAX_PAGES`] pages, stopping
//! early as soon as a page comes back with fewer than [`PAGE_SIZE`] records —
//! the accepted signal that the provider has no more results.  The machine
//! here makes every one of those decisions; the caller only performs the
//! fetches.  A fetch failure aborts the run by dropping the machine, so
//! partial results are discarded, as the pipeline demands.

use vstd::prelude::*;

use crate::models::{NewJob, NewJobView};

verus! {

/// The fixed number of records one full provider page carries; a shorter
/// page means the results are exhausted.
pub const PAGE_SIZE: usize = 50;

/// The most pages one ingestion run may request.
pub const MAX_PAGES: u32 = 10;

/// The state of one pagination run: which page comes next, whether the run
/// is over, and every record gathered so far, in fetch order.
pub struct Pagination {
    next_page: u32,
    done: bool,
    records: Vec<NewJob>,
    pages_fetched: u32,
}

impl Pagination {
    /// The page the run requests next (meaningful while the run is not done).
    pub closed spec fn spec_next_page(&self) -> u32 {
        self.next_page
    }

    /// Is the run over?
    pub closed spec fn spec_done(&self) -> bool {
        self.done
    }

    /// Every record gathered so far, in fetch order.
    pub closed spec fn records_view(&self) -> Seq<NewJobView> {
        self.records.deep_view()
    }

    /// How many pages were fetched so far.
    pub closed spec fn spec_pages_fetched(&self) -> u32 {
        self.pages_fetched
    }

    /// Pages are counted one by one from 1, and a run never passes the page
    /// limit: at most [`MAX_PAGES`] requests ever leave one run.
    pub open spec fn wf(&self) -> bool {
        &&& 1 <= self.spec_next_page() <= MAX_PAGES + 1
        &&& self.spec_pages_fetched() == self.spec_next_page() - 1
        &&& !self.spec_done() ==> self.spec_next_page() <= MAX_PAGES
    }

    /// A fresh run: page 1 comes first, nothing gathered yet.
    pub fn new() -> (p: Pagination)
        ensures
            p.wf(),
            !p.spec_done(),
            p.spec_next_page() == 1,
            p.spec_pages_fetched() == 0,
            p.records_view() == Seq::<NewJobView>::empty(),
    {
        let p = Pagination { next_page: 1, done: false, records: Vec::new(), pages_fetched: 0 };
        proof {
            assert(p.records.deep_view() =~= Seq::<NewJobView>::empty());
        }
        p
    }

    /// Is the run over — because a partial page signalled exhausted results,
    /// or because the page limit was reached?
    pub fn is_done(&self) -> (r: bool)
        ensures
            r == self.spec_done(),
    {
        self.done
    }

    /// The page to request next.
    pub fn current_page(&self) -> (r: u32)
        requires
            !self.spec_done(),
        ensures
            r == self.spec_next_page(),
    {
        self.next_page
    }

    /// How many pages were fetched so far.
    pub fn pages_fetched(&self) -> (r: u32)
        ensures
            r == self.spec_pages_fetched(),
    {
        self.pages_fetched
    }

    /// Absorb one fetched page: its records are appended in order, and the
    /// run ends exactly when the page was partial (strictly fewer than
    /// [`PAGE_SIZE`] records) or the page limit has now been reached.
    pub fn record_page(&mut self, page: Vec<NewJob>)
        requires
            old(self).wf(),
            !old(self).spec_done(),
        ensures
            final(self).wf(),
            final(self).records_view() == old(self).records_view() + page.deep_view(),
            final(self).spec_pages_fetched() == old(self).spec_pages_fetched() + 1,
            final(self).spec_next_page() == old(self).spec_next_page() + 1,
            final(self).spec_done() == (page@.len() < PAGE_SIZE || old(self).spec_next_page()
                == MAX_PAGES),
    {
        let ghost old_records = self.records.deep_view();
        let ghost page_dv = page.deep_view();
        let partial = page.len() < PAGE_SIZE;
        let mut incoming = page;
        self.records.append(&mut incoming);
        proof {
            assert(self.records.deep_view() =~= old_records + page_dv);
        }
        self.done = partial || self.next_page == MAX_PAGES;
        self.next_page = self.next_page + 1;
        self.pages_fetched = self.pages_fetched + 1;
    }

    /// Hand over everything the run gathered, in fetch order.
    pub fn into_records(self) -> (r: Vec<NewJob>)
        ensures
            r.deep_view() == self.records_view(),
    {
        self.records
    }
}

} // verus!
