use job_ingest::models::NewJob;
use job_ingest::pagination::{Pagination, MAX_PAGES, PAGE_SIZE};
use job_ingest::writer::BatchWriter;

fn stub_page(page: u32, count: usize) -> Vec<NewJob> {
    let mut records = Vec::new();
    let mut i = 0;
    while i < count {
        records.push(NewJob {
            title: format!("job {} on page {}", i, page),
            company: "acme".to_string(),
            location: "anywhere".to_string(),
            url: format!("https://jobs.example/p{}/{}", page, i),
            description: "listing".to_string(),
        });
        i += 1;
    }
    records
}

#[test]
fn full_then_partial_page_means_two_requests() {
    // the provider stub answers with a full page, then a partial one
    let responses = [PAGE_SIZE, 30];
    let mut fetcher = Pagination::new();
    let mut requests: u32 = 0;
    while !fetcher.is_done() {
        let page = fetcher.current_page();
        requests += 1;
        assert_eq!(page, requests);
        fetcher.record_page(stub_page(page, responses[(requests - 1) as usize]));
    }
    assert_eq!(requests, 2);
    assert_eq!(fetcher.pages_fetched(), 2);
    assert_eq!(fetcher.into_records().len(), PAGE_SIZE + 30);
}

#[test]
fn always_full_pages_stop_at_the_page_limit() {
    let mut fetcher = Pagination::new();
    let mut requests: u32 = 0;
    while !fetcher.is_done() {
        let page = fetcher.current_page();
        requests += 1;
        assert_eq!(page, requests);
        fetcher.record_page(stub_page(page, PAGE_SIZE));
    }
    assert_eq!(requests, MAX_PAGES);
    assert_eq!(fetcher.pages_fetched(), MAX_PAGES);
    assert_eq!(fetcher.into_records().len(), PAGE_SIZE * MAX_PAGES as usize);
}

#[test]
fn an_empty_first_page_ends_the_run_at_once() {
    let mut fetcher = Pagination::new();
    assert!(!fetcher.is_done());
    assert_eq!(fetcher.current_page(), 1);
    fetcher.record_page(Vec::new());
    assert!(fetcher.is_done());
    assert_eq!(fetcher.pages_fetched(), 1);
    assert!(fetcher.into_records().is_empty());
}

#[test]
fn records_accumulate_in_fetch_order() {
    let mut fetcher = Pagination::new();
    fetcher.record_page(stub_page(1, PAGE_SIZE));
    fetcher.record_page(stub_page(2, 1));
    assert!(fetcher.is_done());
    let records = fetcher.into_records();
    assert_eq!(records.len(), PAGE_SIZE + 1);
    assert_eq!(records[0].url, "https://jobs.example/p1/0");
    assert_eq!(records[PAGE_SIZE].url, "https://jobs.example/p2/0");
}

#[test]
fn batch_writer_conserves_the_batch() {
    let records = stub_page(1, 3);
    let mut writer = BatchWriter::begin(records);
    assert!(!writer.is_done());
    assert_eq!(writer.current().url, "https://jobs.example/p1/0");
    writer.record_inserted(41);
    assert_eq!(writer.current().url, "https://jobs.example/p1/1");
    writer.record_skipped();
    assert_eq!(writer.current().url, "https://jobs.example/p1/2");
    writer.record_inserted(77);
    assert!(writer.is_done());
    let summary = writer.finish();
    assert_eq!(summary.inserted, 2);
    assert_eq!(summary.skipped, 1);
    assert_eq!(summary.inserted + summary.skipped, 3);
    assert_eq!(summary.jobs.len(), 2);
    assert_eq!(summary.jobs[0].id, 41);
    assert_eq!(summary.jobs[0].url, "https://jobs.example/p1/0");
    assert_eq!(summary.jobs[1].id, 77);
    assert_eq!(summary.jobs[1].url, "https://jobs.example/p1/2");
}

#[test]
fn batch_writer_on_an_empty_batch_is_done_at_once() {
    let writer = BatchWriter::begin(Vec::new());
    assert!(writer.is_done());
    let summary = writer.finish();
    assert_eq!(summary.inserted, 0);
    assert_eq!(summary.skipped, 0);
    assert!(summary.jobs.is_empty());
}
