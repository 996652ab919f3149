//! The record written for each completed exchange, and the summary of a
//! batch: records in URL order, problem reports, and whether any URL failed.
use vstd::prelude::*;

use crate::cli::texts;
use crate::http::{
    headers_text, is_success_status, latency_text, status_display, status_text, success_status,
    duration_display, HttpResult,
};
use crate::text::{decimal, decimal_text};

verus! {

/// `Some(n)` or `None`, with `n` in decimal.
pub open spec fn content_length_text(cl: Option<u64>) -> Seq<char> {
    match cl {
        Some(n) => "Some("@ + decimal(n as nat) + ")"@,
        None => "None"@,
    }
}

pub open spec fn latency_line(latency: Option<Seq<char>>) -> Seq<char> {
    match latency {
        Some(t) => "Latency: "@ + t + "\n"@,
        None => Seq::empty(),
    }
}

/// A record: status, content length, headers, body, and the latency when it
/// is reported, one field after the other.
pub open spec fn record_text(
    status: Seq<char>,
    content_length: Option<u64>,
    headers: Seq<char>,
    body: Seq<char>,
    latency: Option<Seq<char>>,
) -> Seq<char> {
    "Status: "@ + status + "\nContent-Length: "@ + content_length_text(content_length)
        + "\nHeaders: "@ + headers + "\nBody:\n"@ + body + "\n"@ + latency_line(latency)
}

/// Assembles a record from the texts of its fields.
pub fn compose_record(
    status: &str,
    content_length: Option<u64>,
    headers: &str,
    body: &str,
    latency: Option<&str>,
) -> (r: String)
    ensures
        r@ == record_text(
            status@,
            content_length,
            headers@,
            body@,
            match latency {
                Some(t) => Some(t@),
                None => None,
            },
        ),
{
    let mut r = String::from_str("Status: ");
    r.append(status);
    r.append("\nContent-Length: ");
    match content_length {
        Some(n) => {
            r.append("Some(");
            let d = decimal_text(n);
            r.append(d.as_str());
            r.append(")");
        },
        None => {
            r.append("None");
        },
    }
    r.append("\nHeaders: ");
    r.append(headers);
    r.append("\nBody:\n");
    r.append(body);
    r.append("\n");
    match latency {
        Some(t) => {
            r.append("Latency: ");
            r.append(t);
            r.append("\n");
        },
        None => {},
    }
    assert(r@ =~= record_text(
        status@,
        content_length,
        headers@,
        body@,
        match latency {
            Some(t) => Some(t@),
            None => None,
        },
    ));
    r
}

pub open spec fn latency_of(result: HttpResult, output_latency: bool) -> Option<Seq<char>> {
    if output_latency {
        Some(duration_display(result.latency_nanos))
    } else {
        None
    }
}

/// `text` is the record of `result`, for some dump of its headers.
pub open spec fn is_record_of(text: Seq<char>, result: HttpResult, output_latency: bool) -> bool {
    exists|h: Seq<char>|
        text == #[trigger] record_text(
            status_display(result.status),
            result.content_length,
            h,
            result.body@,
            latency_of(result, output_latency),
        )
}

/// The record of one completed exchange; the latency only when asked for.
pub fn format_record(result: &HttpResult, output_latency: bool) -> (r: String)
    requires
        result.wf(),
    ensures
        is_record_of(r@, *result, output_latency),
{
    let status = status_text(result.status);
    let headers = headers_text(&result.headers);
    let r = if output_latency {
        let latency = latency_text(result.latency_nanos);
        compose_record(
            status.as_str(),
            result.content_length,
            headers.as_str(),
            result.body.as_str(),
            Some(latency.as_str()),
        )
    } else {
        compose_record(
            status.as_str(),
            result.content_length,
            headers.as_str(),
            result.body.as_str(),
            None,
        )
    };
    assert(r@ == record_text(
        status_display(result.status),
        result.content_length,
        headers@,
        result.body@,
        latency_of(*result, output_latency),
    ));
    r
}

/// An outcome fails when the exchange never completed or its status is not
/// success-class.
pub open spec fn outcome_failed(o: Result<HttpResult, String>) -> bool {
    match o {
        Ok(r) => !is_success_status(r.status),
        Err(_) => true,
    }
}

/// The report of a failed outcome for `url`; none for a success.
pub open spec fn problem_of(url: Seq<char>, o: Result<HttpResult, String>) -> Seq<Seq<char>> {
    match o {
        Ok(r) => if is_success_status(r.status) {
            Seq::empty()
        } else {
            seq!["Request to "@ + url + " returned "@ + status_display(r.status)]
        },
        Err(e) => seq!["Request to "@ + url + " failed: "@ + e@],
    }
}

/// The problem reports of the first `n` outcomes, in order.
pub open spec fn problems_upto(
    urls: Seq<String>,
    results: Seq<Result<HttpResult, String>>,
    n: nat,
) -> Seq<Seq<char>>
    decreases n,
{
    if n == 0 {
        Seq::empty()
    } else {
        problems_upto(urls, results, (n - 1) as nat) + problem_of(
            urls[n - 1]@,
            results[n - 1],
        )
    }
}

/// The completed exchanges among the first `n` outcomes, in order.
pub open spec fn successes_upto(results: Seq<Result<HttpResult, String>>, n: nat) -> Seq<
    HttpResult,
>
    decreases n,
{
    if n == 0 {
        Seq::empty()
    } else {
        let prev = successes_upto(results, (n - 1) as nat);
        match results[n - 1] {
            Ok(r) => prev.push(r),
            Err(_) => prev,
        }
    }
}

/// How many URL/outcome pairs a batch has.
pub open spec fn batch_len(urls: Seq<String>, results: Seq<Result<HttpResult, String>>) -> nat {
    if urls.len() < results.len() {
        urls.len()
    } else {
        results.len()
    }
}

/// What a batch leaves to be written.
pub struct BatchReport {
    /// One record per completed exchange, in URL order.
    pub records: Vec<String>,
    /// One report per failed URL, in URL order.
    pub problems: Vec<String>,
    /// Whether any URL failed.
    pub had_failure: bool,
}

/// Summarises the outcomes of a batch, URL `i` with outcome `i`: a record for
/// every completed exchange (success-class or not), a problem report for
/// every failure, and whether there was any.
pub fn summarize_results(
    urls: &Vec<String>,
    results: &Vec<Result<HttpResult, String>>,
    output_latency: bool,
) -> (r: BatchReport)
    requires
        forall|i: int| 0 <= i < results@.len() ==> (#[trigger] results@[i] matches Ok(h) ==> h.wf()),
    ensures
        r.had_failure == exists|i: int|
            0 <= i < batch_len(urls@, results@) && outcome_failed(#[trigger] results@[i]),
        texts(r.problems@) == problems_upto(urls@, results@, batch_len(urls@, results@)),
        r.records@.len() == successes_upto(results@, batch_len(urls@, results@)).len(),
        forall|k: int|
            0 <= k < r.records@.len() ==> is_record_of(
                #[trigger] r.records@[k]@,
                successes_upto(results@, batch_len(urls@, results@))[k],
                output_latency,
            ),
{
    let n = if urls.len() < results.len() {
        urls.len()
    } else {
        results.len()
    };
    let mut records: Vec<String> = Vec::new();
    let mut problems: Vec<String> = Vec::new();
    let mut had_failure = false;
    let mut i: usize = 0;
    while i < n
        invariant
            n == batch_len(urls@, results@),
            n <= urls@.len(),
            n <= results@.len(),
            i <= n,
            forall|j: int|
                0 <= j < results@.len() ==> (#[trigger] results@[j] matches Ok(h) ==> h.wf()),
            had_failure == exists|j: int| 0 <= j < i && outcome_failed(#[trigger] results@[j]),
            texts(problems@) == problems_upto(urls@, results@, i as nat),
            records@.len() == successes_upto(results@, i as nat).len(),
            forall|k: int|
                0 <= k < records@.len() ==> is_record_of(
                    #[trigger] records@[k]@,
                    successes_upto(results@, i as nat)[k],
                    output_latency,
                ),
        decreases n - i,
    {
        let url = &urls[i];
        let ghost old_problems = problems@;
        let ghost old_records = records@;
        match &results[i] {
            Ok(h) => {
                let rec = format_record(h, output_latency);
                records.push(rec);
                if !success_status(h.status) {
                    let mut p = String::from_str("Request to ");
                    p.append(url.as_str());
                    p.append(" returned ");
                    let st = status_text(h.status);
                    p.append(st.as_str());
                    problems.push(p);
                    had_failure = true;
                    assert(texts(problems@) =~= texts(old_problems) + problem_of(
                        urls@[i as int]@,
                        results@[i as int],
                    ));
                } else {
                    assert(texts(problems@) =~= texts(old_problems) + problem_of(
                        urls@[i as int]@,
                        results@[i as int],
                    ));
                }
                assert forall|k: int|
                    0 <= k < records@.len() implies is_record_of(
                    #[trigger] records@[k]@,
                    successes_upto(results@, (i + 1) as nat)[k],
                    output_latency,
                ) by {
                    if k < old_records.len() {
                        assert(records@[k] == old_records[k]);
                    }
                }
            },
            Err(e) => {
                let mut p = String::from_str("Request to ");
                p.append(url.as_str());
                p.append(" failed: ");
                p.append(e.as_str());
                problems.push(p);
                had_failure = true;
                assert(texts(problems@) =~= texts(old_problems) + problem_of(
                    urls@[i as int]@,
                    results@[i as int],
                ));
            },
        }
        i = i + 1;
    }
    BatchReport { records, problems, had_failure }
}

} // verus!
