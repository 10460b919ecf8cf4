//! Case-insensitive keyword filtering of stored postings, as the listing
//! endpoint applies it: a posting matches when any of its four text fields
//! contains the keyword, both sides lowercased.

use vstd::prelude::*;

use crate::models::{clone_jobs, Job, JobQuery, JobView};

verus! {

/// The lowercase image of a sequence of characters, exactly as
/// `str::to_lowercase` computes it.
pub uninterp spec fn lower_of(s: Seq<char>) -> Seq<char>;

/// Relies on `str::to_lowercase`: the result is a function of the characters
/// alone.
#[verifier::external_body]
fn to_lowercase(s: &str) -> (r: String)
    ensures
        r@ == lower_of(s@),
{
    s.to_lowercase()
}

/// Does `needle` occur in `hay` as a contiguous run of characters?
pub open spec fn contains_seq(hay: Seq<char>, needle: Seq<char>) -> bool {
    exists|i: int|
        0 <= i && i + needle.len() <= hay.len() && #[trigger] hay.subrange(i, i + needle.len())
            == needle
}

/// Relies on `str::contains` with a `&str` pattern: true exactly when the
/// pattern occurs as a substring.
#[verifier::external_body]
fn str_contains(hay: &str, needle: &str) -> (r: bool)
    ensures
        r == contains_seq(hay@, needle@),
{
    hay.contains(needle)
}

/// Does the posting match the (already lowercased) keyword in its title,
/// company, location or description, compared case-insensitively?
pub open spec fn job_matches_spec(j: JobView, kw_lower: Seq<char>) -> bool {
    ||| contains_seq(lower_of(j.title), kw_lower)
    ||| contains_seq(lower_of(j.company), kw_lower)
    ||| contains_seq(lower_of(j.location), kw_lower)
    ||| contains_seq(lower_of(j.description), kw_lower)
}

/// Does the posting match the (already lowercased) keyword?
pub fn job_matches(job: &Job, keyword_lower: &String) -> (r: bool)
    ensures
        r == job_matches_spec(job@, keyword_lower@),
{
    let title_l = to_lowercase(job.title.as_str());
    let company_l = to_lowercase(job.company.as_str());
    let location_l = to_lowercase(job.location.as_str());
    let description_l = to_lowercase(job.description.as_str());
    str_contains(title_l.as_str(), keyword_lower.as_str()) || str_contains(
        company_l.as_str(),
        keyword_lower.as_str(),
    ) || str_contains(location_l.as_str(), keyword_lower.as_str()) || str_contains(
        description_l.as_str(),
        keyword_lower.as_str(),
    )
}

/// Filter postings by the listing query: no keyword keeps every posting; a
/// keyword keeps, in order, exactly the postings that match it
/// case-insensitively.
pub fn filter_jobs(jobs: &Vec<Job>, query: &JobQuery) -> (r: Vec<Job>)
    ensures
        query.keyword is None ==> r@ == jobs@,
        query.keyword matches Some(kw) ==> r@ == jobs@.filter(
            |j: Job| job_matches_spec(j@, lower_of(kw@)),
        ),
{
    match &query.keyword {
        None => clone_jobs(jobs),
        Some(kw) => {
            let ghost pred = |j: Job| job_matches_spec(j@, lower_of(kw@));
            let kw_lower = to_lowercase(kw.as_str());
            let mut r: Vec<Job> = Vec::new();
            let mut i: usize = 0;
            proof {
                reveal(Seq::filter);
                assert(jobs@.take(0) =~= Seq::<Job>::empty());
            }
            while i < jobs.len()
                invariant
                    pred == (|j: Job| job_matches_spec(j@, lower_of(kw@))),
                    kw_lower@ == lower_of(kw@),
                    i <= jobs@.len(),
                    r@ == jobs@.take(i as int).filter(pred),
                decreases jobs@.len() - i,
            {
                if job_matches(&jobs[i], &kw_lower) {
                    r.push(jobs[i].clone());
                }
                proof {
                    reveal(Seq::filter);
                    assert(jobs@.take(i as int + 1).drop_last() =~= jobs@.take(i as int));
                    assert(jobs@.take(i as int + 1).last() == jobs@[i as int]);
                }
                i += 1;
            }
            proof {
                assert(jobs@.take(jobs@.len() as int) =~= jobs@);
            }
            r
        },
    }
}

} // verus!
