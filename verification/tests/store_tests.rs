use job_ingest::errors::{IngestError, ValidationFault};
use job_ingest::models::NewJob;
use job_ingest::store::{validate_batch, JobStore, MAX_BULK_BATCH};

fn record(title: &str, url: &str) -> NewJob {
    NewJob {
        title: title.to_string(),
        company: format!("{} inc", title),
        location: "remote".to_string(),
        url: url.to_string(),
        description: format!("work on {}", title),
    }
}

fn numbered(n: usize) -> Vec<NewJob> {
    let mut batch = Vec::new();
    let mut i = 0;
    while i < n {
        batch.push(record("role", &format!("https://jobs.example/{}", i)));
        i += 1;
    }
    batch
}

#[test]
fn ingest_batch_conserves_the_batch() {
    let mut store = JobStore::new();
    let batch = vec![
        record("a", "https://jobs.example/1"),
        record("b", "https://jobs.example/2"),
        record("c", "https://jobs.example/1"),
        record("d", "https://jobs.example/3"),
        record("e", "https://jobs.example/2"),
    ];
    let summary = store.ingest_batch(&batch).unwrap();
    assert_eq!(summary.inserted, 3);
    assert_eq!(summary.skipped, 2);
    assert_eq!(summary.inserted + summary.skipped, 5);
    assert_eq!(summary.jobs.len(), 3);
    assert_eq!(summary.jobs[0].id, 1);
    assert_eq!(summary.jobs[1].id, 2);
    assert_eq!(summary.jobs[2].id, 3);
    assert_eq!(summary.jobs[0].url, "https://jobs.example/1");
    assert_eq!(summary.jobs[1].url, "https://jobs.example/2");
    assert_eq!(summary.jobs[2].url, "https://jobs.example/3");
    assert_eq!(store.len(), 3);
}

#[test]
fn ingest_twice_inserts_nothing_the_second_time() {
    let mut store = JobStore::new();
    let batch = vec![
        record("a", "https://jobs.example/1"),
        record("b", "https://jobs.example/2"),
        record("c", "https://jobs.example/3"),
    ];
    let first = store.ingest_batch(&batch).unwrap();
    assert_eq!(first.inserted, 3);
    assert_eq!(first.skipped, 0);
    let second = store.ingest_batch(&batch).unwrap();
    assert_eq!(second.inserted, 0);
    assert_eq!(second.skipped, 3);
    assert!(second.jobs.is_empty());
    assert_eq!(store.len(), 3);
}

#[test]
fn no_two_postings_share_a_url() {
    let mut store = JobStore::new();
    store
        .ingest_batch(&vec![
            record("a", "https://jobs.example/1"),
            record("b", "https://jobs.example/2"),
        ])
        .unwrap();
    let _ = store.insert_job(&record("c", "https://jobs.example/3"));
    // a duplicate direct create is rejected
    assert!(store.insert_job(&record("d", "https://jobs.example/2")).is_err());
    store
        .bulk_create(&vec![
            record("e", "https://jobs.example/2"),
            record("f", "https://jobs.example/4"),
        ])
        .unwrap();
    let postings = store.postings();
    for i in 0..postings.len() {
        for j in (i + 1)..postings.len() {
            assert_ne!(postings[i].url, postings[j].url);
        }
    }
    assert_eq!(store.len(), 4);
}

#[test]
fn insert_job_assigns_sequential_ids() {
    let mut store = JobStore::new();
    let id1 = store.insert_job(&record("a", "https://jobs.example/1")).unwrap();
    let id2 = store.insert_job(&record("b", "https://jobs.example/2")).unwrap();
    assert_eq!(id1, 1);
    assert_eq!(id2, 2);
    assert!(store.contains_url(&"https://jobs.example/1".to_string()));
    assert!(!store.contains_url(&"https://jobs.example/9".to_string()));
}

#[test]
fn duplicate_direct_create_is_a_persistence_error() {
    let mut store = JobStore::new();
    store.insert_job(&record("a", "https://jobs.example/1")).unwrap();
    let err = store.insert_job(&record("b", "https://jobs.example/1")).unwrap_err();
    assert_eq!(err, IngestError::PersistenceError);
    assert_eq!(store.len(), 1);
}

#[test]
fn mid_batch_failure_rolls_back_everything() {
    let mut store = JobStore::new();
    store.insert_job(&record("seed", "https://jobs.example/seed")).unwrap();
    store.arm_failure(3);
    let batch = numbered(5);
    let result = store.ingest_batch(&batch);
    assert_eq!(result.unwrap_err(), IngestError::PersistenceError);
    // full rollback: none of the five staged records was committed
    assert_eq!(store.len(), 1);
    for rec in &batch {
        assert!(!store.contains_url(&rec.url));
    }
}

#[test]
fn bulk_create_accepts_a_full_batch() {
    let mut store = JobStore::new();
    let batch = numbered(MAX_BULK_BATCH);
    let summary = store.bulk_create(&batch).unwrap();
    assert_eq!(summary.inserted, 500);
    assert_eq!(summary.skipped, 0);
    assert_eq!(store.len(), 500);
}

#[test]
fn bulk_create_rejects_an_oversized_batch() {
    let mut store = JobStore::new();
    let batch = numbered(MAX_BULK_BATCH + 1);
    let err = store.bulk_create(&batch).unwrap_err();
    assert_eq!(err, IngestError::ValidationError(ValidationFault::OversizedBatch));
    // rejected before any store interaction
    assert_eq!(store.len(), 0);
}

#[test]
fn bulk_create_rejects_an_empty_batch() {
    let mut store = JobStore::new();
    let err = store.bulk_create(&Vec::new()).unwrap_err();
    assert_eq!(err, IngestError::ValidationError(ValidationFault::EmptyBatch));
    assert_eq!(store.len(), 0);
}

#[test]
fn validate_batch_draws_the_boundary() {
    assert_eq!(
        validate_batch(&Vec::new()),
        Err(IngestError::ValidationError(ValidationFault::EmptyBatch))
    );
    assert_eq!(validate_batch(&numbered(1)), Ok(()));
    assert_eq!(validate_batch(&numbered(500)), Ok(()));
    assert_eq!(
        validate_batch(&numbered(501)),
        Err(IngestError::ValidationError(ValidationFault::OversizedBatch))
    );
}
