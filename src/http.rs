//! What each request of a batch is made of, and what one exchange returns.
use vstd::prelude::*;

use reqwest::header::{HeaderMap, HeaderValue};

use crate::cli::{is_bodiless, Cli, CliMethod};
use crate::text::opt_text;

verus! {

#[verifier::external_type_specification]
#[verifier::external_body]
#[verifier::reject_recursive_types(T)]
pub struct ExHeaderMap<T>(HeaderMap<T>);

#[verifier::external_type_specification]
#[verifier::external_body]
pub struct ExHeaderValue(HeaderValue);

/// The outcome of one completed exchange.
pub struct HttpResult {
    /// The status code, from 100 to 999.
    pub status: u16,
    pub headers: HeaderMap,
    /// The declared length of the body, if any.
    pub content_length: Option<u64>,
    pub body: String,
    /// The time from sending to having read the whole response.
    pub latency_nanos: u64,
}

impl HttpResult {
    pub open spec fn wf(&self) -> bool {
        100 <= self.status && self.status <= 999
    }
}

/// Success-class statuses: 200 to 299.
pub open spec fn is_success_status(code: u16) -> bool {
    200 <= code && code <= 299
}

pub fn success_status(code: u16) -> (r: bool)
    ensures
        r == is_success_status(code),
{
    200 <= code && code <= 299
}

/// The text that names a status code: the code and its reason phrase.
pub uninterp spec fn status_display(code: u16) -> Seq<char>;

/// Relies on `reqwest::StatusCode::from_u16`, which accepts every code from
/// 100 to 999, and on the `Display` of `StatusCode`: the code and its
/// canonical reason, which depend on the code alone.
#[verifier::external_body]
pub(crate) fn status_text(code: u16) -> (r: String)
    requires
        100 <= code && code <= 999,
    ensures
        r@ == status_display(code),
{
    match reqwest::StatusCode::from_u16(code) {
        Ok(s) => s.to_string(),
        Err(e) => e.to_string(),
    }
}

/// The text that names a duration given in nanoseconds.
pub uninterp spec fn duration_display(nanos: u64) -> Seq<char>;

/// Relies on `std::time::Duration::from_nanos` and the `Debug` of
/// `Duration` (such as `42ms`), which depend on the count alone.
#[verifier::external_body]
pub(crate) fn latency_text(nanos: u64) -> (r: String)
    ensures
        r@ == duration_display(nanos),
{
    format!("{:?}", std::time::Duration::from_nanos(nanos))
}

/// Relies on the alternate `Debug` of `reqwest::header::HeaderMap`: a dump of
/// every header. Nothing is assumed of the text.
#[verifier::external_body]
pub(crate) fn headers_text(h: &HeaderMap) -> String {
    format!("{:#?}", h)
}

/// The body a run sends: the JSON body, else the raw body, else the form body.
pub open spec fn chosen_body(cli: Cli) -> Option<Seq<char>> {
    if cli.json is Some {
        opt_text(cli.json)
    } else if cli.body is Some {
        opt_text(cli.body)
    } else {
        opt_text(cli.form)
    }
}

pub fn request_body(cli: &Cli) -> (r: Option<String>)
    ensures
        opt_text(r) == chosen_body(*cli),
{
    match &cli.json {
        Some(j) => Some(j.clone()),
        None => match &cli.body {
            Some(b) => Some(b.clone()),
            None => match &cli.form {
                Some(f) => Some(f.clone()),
                None => None,
            },
        },
    }
}

/// One request of a batch, before it is sent.
pub struct PlannedRequest {
    pub url: String,
    pub method: CliMethod,
    /// The body to attach; never one for GET or DELETE.
    pub body: Option<String>,
}

/// What the request to `url` carries in a batch with this method and body.
pub open spec fn planned(p: PlannedRequest, url: Seq<char>, method: CliMethod, body: Option<
    Seq<char>,
>) -> bool {
    &&& p.url@ == url
    &&& p.method == method
    &&& opt_text(p.body) == if is_bodiless(method) {
        None
    } else {
        body
    }
}

/// One request per URL, in the order of the URLs: request `i` goes to URL
/// `i`. GET and DELETE carry no body, whatever was given.
pub fn plan_requests(urls: &Vec<String>, method: CliMethod, body: &Option<String>) -> (r: Vec<
    PlannedRequest,
>)
    ensures
        r@.len() == urls@.len(),
        forall|i: int|
            0 <= i < urls@.len() ==> planned(#[trigger] r@[i], urls@[i]@, method, opt_text(*body)),
{
    let mut plans: Vec<PlannedRequest> = Vec::new();
    let mut i: usize = 0;
    while i < urls.len()
        invariant
            i <= urls@.len(),
            plans@.len() == i,
            forall|k: int|
                0 <= k < i ==> planned(#[trigger] plans@[k], urls@[k]@, method, opt_text(*body)),
        decreases urls@.len() - i,
    {
        let b = if method == CliMethod::Get || method == CliMethod::Delete {
            None
        } else {
            match body {
                Some(t) => Some(t.clone()),
                None => None,
            }
        };
        plans.push(PlannedRequest { url: urls[i].clone(), method, body: b });
        i = i + 1;
    }
    plans
}

} // verus!
