use job_ingest::models::{Job, JobQuery};
use job_ingest::search::{filter_jobs, job_matches};

fn posting(id: i32, title: &str, company: &str, location: &str, description: &str) -> Job {
    Job {
        id,
        title: title.to_string(),
        company: company.to_string(),
        location: location.to_string(),
        url: format!("https://jobs.example/{}", id),
        description: description.to_string(),
    }
}

fn sample() -> Vec<Job> {
    vec![
        posting(1, "Software Engineer", "Acme", "Boston", "Build things"),
        posting(2, "Baker", "Crumb & Co", "Paris", "Sourdough specialist"),
        posting(3, "Data Analyst", "Engineering Partners", "Remote", "Dashboards"),
    ]
}

#[test]
fn no_keyword_keeps_every_posting() {
    let jobs = sample();
    let kept = filter_jobs(&jobs, &JobQuery { keyword: None });
    assert_eq!(kept.len(), 3);
    assert_eq!(kept[0].id, 1);
    assert_eq!(kept[2].id, 3);
}

#[test]
fn keyword_matching_ignores_case_on_both_sides() {
    let jobs = sample();
    // an upper-case keyword still finds lower-case text: both sides are
    // lowercased before comparing
    let kept = filter_jobs(&jobs, &JobQuery { keyword: Some("ENGINEER".to_string()) });
    assert_eq!(kept.len(), 2);
    assert_eq!(kept[0].id, 1);
    assert_eq!(kept[1].id, 3);
}

#[test]
fn keyword_matches_inside_words_and_any_field() {
    let jobs = sample();
    // a fragment in the middle of a description field
    let kept = filter_jobs(&jobs, &JobQuery { keyword: Some("dough".to_string()) });
    assert_eq!(kept.len(), 1);
    assert_eq!(kept[0].id, 2);
    // a location match
    let by_location = filter_jobs(&jobs, &JobQuery { keyword: Some("paris".to_string()) });
    assert_eq!(by_location.len(), 1);
    assert_eq!(by_location[0].id, 2);
}

#[test]
fn unmatched_keyword_keeps_nothing() {
    let jobs = sample();
    let kept = filter_jobs(&jobs, &JobQuery { keyword: Some("astronaut".to_string()) });
    assert!(kept.is_empty());
}

#[test]
fn job_matches_checks_all_four_fields() {
    let job = posting(9, "Chef", "Pan & Pot", "Lyon", "Plating artistry");
    let lower = |s: &str| s.to_lowercase();
    assert!(job_matches(&job, &lower("CHEF")));
    assert!(job_matches(&job, &lower("pot")));
    assert!(job_matches(&job, &lower("LyOn")));
    assert!(job_matches(&job, &lower("artist")));
    assert!(!job_matches(&job, &lower("pilot")));
}
