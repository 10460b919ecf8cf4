//! The remote source client's pure side: the provider's response shape, the
//! normalization of a provider record into the internal schema, and the
//! construction of the search URL for one page of results.
//!
//! The one network call per page, and the decoding of the response body into
//! these structs, happen outside the library; what they rely on — which URL
//! to request, and what each record becomes — is decided and proved here.

use vstd::prelude::*;

use crate::models::{IngestQuery, IngestQueryView, NewJob, NewJobView};
use crate::pagination::PAGE_SIZE;

verus! {

/// Abstract value of an [`AdzunaCompany`].
pub ghost struct AdzunaCompanyView {
    pub display_name: Seq<char>,
}

/// The provider's nested company object.
#[derive(Debug)]
pub struct AdzunaCompany {
    pub display_name: String,
}

impl View for AdzunaCompany {
    type V = AdzunaCompanyView;

    open spec fn view(&self) -> AdzunaCompanyView {
        AdzunaCompanyView { display_name: self.display_name@ }
    }
}

impl DeepView for AdzunaCompany {
    type V = AdzunaCompanyView;

    open spec fn deep_view(&self) -> AdzunaCompanyView {
        self.view()
    }
}

/// Abstract value of an [`AdzunaLocation`].
pub ghost struct AdzunaLocationView {
    pub display_name: Seq<char>,
}

/// The provider's nested location object.
#[derive(Debug)]
pub struct AdzunaLocation {
    pub display_name: String,
}

impl View for AdzunaLocation {
    type V = AdzunaLocationView;

    open spec fn view(&self) -> AdzunaLocationView {
        AdzunaLocationView { display_name: self.display_name@ }
    }
}

impl DeepView for AdzunaLocation {
    type V = AdzunaLocationView;

    open spec fn deep_view(&self) -> AdzunaLocationView {
        self.view()
    }
}

/// Abstract value of an [`AdzunaJob`].
pub ghost struct AdzunaJobView {
    pub title: Seq<char>,
    pub company: AdzunaCompanyView,
    pub location: AdzunaLocationView,
    pub redirect_url: Seq<char>,
    pub description: Seq<char>,
}

/// One job record as the provider reports it, with company and location as
/// nested objects.
#[derive(Debug)]
pub struct AdzunaJob {
    pub title: String,
    pub company: AdzunaCompany,
    pub location: AdzunaLocation,
    pub redirect_url: String,
    pub description: String,
}

impl View for AdzunaJob {
    type V = AdzunaJobView;

    open spec fn view(&self) -> AdzunaJobView {
        AdzunaJobView {
            title: self.title@,
            company: self.company@,
            location: self.location@,
            redirect_url: self.redirect_url@,
            description: self.description@,
        }
    }
}

impl DeepView for AdzunaJob {
    type V = AdzunaJobView;

    open spec fn deep_view(&self) -> AdzunaJobView {
        self.view()
    }
}

/// The provider's response body: an array of job records.
#[derive(Debug)]
pub struct AdzunaResponse {
    pub results: Vec<AdzunaJob>,
}

impl View for AdzunaResponse {
    type V = Seq<AdzunaJobView>;

    open spec fn view(&self) -> Seq<AdzunaJobView> {
        self.results.deep_view()
    }
}

impl DeepView for AdzunaResponse {
    type V = Seq<AdzunaJobView>;

    open spec fn deep_view(&self) -> Seq<AdzunaJobView> {
        self.view()
    }
}

/// Flattening one provider record into the internal schema: the nested
/// display names become the flat company and location fields, and the
/// redirect URL becomes the record's identity.
pub open spec fn normalize_spec(a: AdzunaJobView) -> NewJobView {
    NewJobView {
        title: a.title,
        company: a.company.display_name,
        location: a.location.display_name,
        url: a.redirect_url,
        description: a.description,
    }
}

impl From<AdzunaJob> for NewJob {
    /// Flatten one provider record into the internal schema.
    fn from(adzuna_job: AdzunaJob) -> (r: NewJob) {
        NewJob {
            title: adzuna_job.title,
            company: adzuna_job.company.display_name,
            location: adzuna_job.location.display_name,
            url: adzuna_job.redirect_url,
            description: adzuna_job.description,
        }
    }
}

impl vstd::std_specs::convert::FromSpecImpl<AdzunaJob> for NewJob {
    open spec fn obeys_from_spec() -> bool {
        true
    }

    open spec fn from_spec(a: AdzunaJob) -> NewJob {
        NewJob {
            title: a.title,
            company: a.company.display_name,
            location: a.location.display_name,
            url: a.redirect_url,
            description: a.description,
        }
    }
}

/// Normalize one fetched page: every provider record, in page order, flattened
/// into the internal schema.
pub fn normalize_page(page: Vec<AdzunaJob>) -> (r: Vec<NewJob>)
    ensures
        r.deep_view() == page.deep_view().map_values(|a: AdzunaJobView| normalize_spec(a)),
{
    let ghost page_dv = page.deep_view();
    let ghost f = |a: AdzunaJobView| normalize_spec(a);
    let mut rest = page;
    let mut r: Vec<NewJob> = Vec::new();
    let mut i: usize = 0;
    proof {
        assert(r.deep_view() =~= page_dv.take(0).map_values(f));
        assert(rest.len() == rest@.len());
        assert(page_dv.len() == rest@.len());
    }
    while rest.len() > 0
        invariant
            f == |a: AdzunaJobView| normalize_spec(a),
            page_dv.len() <= usize::MAX,
            page_dv == page_dv.take(i as int) + rest@.map_values(|a: AdzunaJob| a.deep_view()),
            i + rest@.len() == page_dv.len(),
            r.deep_view() == page_dv.take(i as int).map_values(f),
        decreases rest@.len(),
    {
        let ghost r_dv = r.deep_view();
        let a = rest.remove(0);
        let ghost av = a;
        proof {
            assert(av.deep_view() == page_dv[i as int]);
        }
        let nj = NewJob::from(a);
        proof {
            assert(nj == <NewJob as vstd::std_specs::convert::FromSpec<AdzunaJob>>::from_spec(av));
            assert(nj.deep_view() == normalize_spec(page_dv[i as int]));
        }
        r.push(nj);
        proof {
            assert(rest@.map_values(|x: AdzunaJob| x.deep_view()) =~= page_dv.skip(i as int + 1));
            assert(page_dv =~= page_dv.take(i as int + 1) + page_dv.skip(i as int + 1));
            assert(r.deep_view() =~= r_dv.push(nj.deep_view()));
            assert(r.deep_view() =~= page_dv.take(i as int + 1).map_values(f));
        }
        i += 1;
    }
    proof {
        assert(page_dv.take(i as int) =~= page_dv);
    }
    r
}

/// The credentials the provider demands on every request, supplied
/// explicitly at startup rather than read from hidden process state.
#[derive(Debug)]
pub struct AdzunaConfig {
    pub app_id: String,
    pub app_key: String,
}

/// The decimal digits of `n`, most significant first.
pub open spec fn spec_decimal(n: nat) -> Seq<char>
    decreases n,
{
    if n < 10 {
        seq![digit_char(n)]
    } else {
        spec_decimal(n / 10).push(digit_char(n % 10))
    }
}

/// The character of one decimal digit.
pub open spec fn digit_char(d: nat) -> char {
    if d == 0 {
        '0'
    } else if d == 1 {
        '1'
    } else if d == 2 {
        '2'
    } else if d == 3 {
        '3'
    } else if d == 4 {
        '4'
    } else if d == 5 {
        '5'
    } else if d == 6 {
        '6'
    } else if d == 7 {
        '7'
    } else if d == 8 {
        '8'
    } else {
        '9'
    }
}

/// One decimal digit as a string slice.
fn digit_str(d: u32) -> (r: &'static str)
    requires
        d < 10,
    ensures
        r@ == seq![digit_char(d as nat)],
{
    proof {
        reveal_strlit("0");
        reveal_strlit("1");
        reveal_strlit("2");
        reveal_strlit("3");
        reveal_strlit("4");
        reveal_strlit("5");
        reveal_strlit("6");
        reveal_strlit("7");
        reveal_strlit("8");
        reveal_strlit("9");
    }
    let r: &'static str = if d == 0 {
        "0"
    } else if d == 1 {
        "1"
    } else if d == 2 {
        "2"
    } else if d == 3 {
        "3"
    } else if d == 4 {
        "4"
    } else if d == 5 {
        "5"
    } else if d == 6 {
        "6"
    } else if d == 7 {
        "7"
    } else if d == 8 {
        "8"
    } else {
        "9"
    };
    proof {
        assert(r@ =~= seq![digit_char(d as nat)]);
    }
    r
}

/// Render `n` in decimal.
pub fn u32_to_string(n: u32) -> (r: String)
    ensures
        r@ == spec_decimal(n as nat),
    decreases n,
{
    if n < 10 {
        String::from_str(digit_str(n))
    } else {
        let mut s = u32_to_string(n / 10);
        s.append(digit_str(n % 10));
        proof {
            assert(s@ =~= spec_decimal((n / 10) as nat).push(digit_char((n % 10) as nat)));
        }
        s
    }
}

/// The URL one page request carries: the page number in the path; the
/// credentials, the fixed page size and the keyword always as query
/// parameters; the location filter, the remote-only refinements and the
/// maximum-age filter only when the query asks for them.
pub open spec fn spec_search_url(
    app_id: Seq<char>,
    app_key: Seq<char>,
    q: IngestQueryView,
    page: nat,
) -> Seq<char> {
    "http://api.adzuna.com/v1/api/jobs/us/search/"@ + spec_decimal(page) + "?app_id="@ + app_id
        + "&app_key="@ + app_key + "&results_per_page="@ + spec_decimal(PAGE_SIZE as nat)
        + "&what="@ + q.keyword + (if q.location.len() > 0 {
        "&where="@ + q.location
    } else {
        Seq::<char>::empty()
    }) + (if q.remote_only == Some(true) {
        "&what_phrase=remote&full_time=1&permanent=1"@
    } else {
        Seq::<char>::empty()
    }) + (match q.max_days_old {
        Some(days) => "&max_days_old="@ + spec_decimal(days as nat),
        None => Seq::<char>::empty(),
    })
}

/// Build the search URL for one page of results for `query`.
pub fn build_search_url(config: &AdzunaConfig, query: &IngestQuery, page: u32) -> (r: String)
    ensures
        r@ == spec_search_url(config.app_id@, config.app_key@, query@, page as nat),
{
    let mut url = String::from_str("http://api.adzuna.com/v1/api/jobs/us/search/");
    url.append(u32_to_string(page).as_str());
    url.append("?app_id=");
    url.append(config.app_id.as_str());
    url.append("&app_key=");
    url.append(config.app_key.as_str());
    url.append("&results_per_page=");
    url.append(u32_to_string(PAGE_SIZE as u32).as_str());
    url.append("&what=");
    url.append(query.keyword.as_str());
    if !query.location.as_str().is_empty() {
        url.append("&where=");
        url.append(query.location.as_str());
    }
    if matches!(query.remote_only, Some(true)) {
        url.append("&what_phrase=remote&full_time=1&permanent=1");
    }
    if let Some(days) = query.max_days_old {
        url.append("&max_days_old=");
        url.append(u32_to_string(days).as_str());
    }
    proof {
        assert(url@ =~= spec_search_url(config.app_id@, config.app_key@, query@, page as nat));
    }
    url
}

} // verus!
