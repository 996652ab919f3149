//! The parsed command line, header parsing, and the validation that runs
//! before any request is sent.
use vstd::prelude::*;

use crate::text::{
    contains_text, has_prefix, lemma_prefix_contained, opt_text, starts_with, trim, trimmed,
};

verus! {

/// The HTTP method chosen on the command line.
#[derive(Clone, Copy, Debug, PartialEq, Eq, Structural)]
pub enum CliMethod {
    Get,
    Post,
    Put,
    Delete,
}

impl Default for CliMethod {
    fn default() -> (r: CliMethod)
        ensures
            r == CliMethod::Get,
    {
        CliMethod::Get
    }
}

/// Methods that carry no request body.
pub open spec fn is_bodiless(m: CliMethod) -> bool {
    m == CliMethod::Get || m == CliMethod::Delete
}

/// The inputs of one run: the URLs and what every request to them shares.
pub struct Cli {
    /// The file that receives the records; standard output when absent.
    pub output: Option<String>,
    /// A raw request body.
    pub body: Option<String>,
    /// A JSON request body.
    pub json: Option<String>,
    /// A form request body.
    pub form: Option<String>,
    /// Header key/value pairs, in the order given; keys may repeat.
    pub headers: Vec<(String, String)>,
    pub method: CliMethod,
    /// Whether each record reports the latency.
    pub latency: bool,
    pub urls: Vec<String>,
}

impl Default for Cli {
    fn default() -> (r: Cli)
        ensures
            r.output is None,
            r.body is None,
            r.json is None,
            r.form is None,
            r.headers@.len() == 0,
            r.method == CliMethod::Get,
            !r.latency,
            r.urls@.len() == 0,
    {
        Cli {
            output: None,
            body: None,
            json: None,
            form: None,
            headers: Vec::new(),
            method: CliMethod::Get,
            latency: false,
            urls: Vec::new(),
        }
    }
}

/// How many of the three body sources are present.
pub open spec fn payload_count(cli: Cli) -> nat {
    (if cli.body is Some { 1nat } else { 0nat }) + (if cli.json is Some { 1nat } else { 0nat }) + (
    if cli.form is Some { 1nat } else { 0nat })
}

/// What validation found: blocking errors and non-blocking warnings.
pub struct ValidationReport {
    pub errors: Vec<String>,
    pub warnings: Vec<String>,
}

/// The texts of a report, in order.
pub struct ReportModel {
    pub errors: Seq<Seq<char>>,
    pub warnings: Seq<Seq<char>>,
}

pub open spec fn texts(v: Seq<String>) -> Seq<Seq<char>> {
    v.map_values(|s: String| s@)
}

impl View for ValidationReport {
    type V = ReportModel;

    open spec fn view(&self) -> ReportModel {
        ReportModel { errors: texts(self.errors@), warnings: texts(self.warnings@) }
    }
}

impl Default for ValidationReport {
    fn default() -> (r: ValidationReport)
        ensures
            r.errors@.len() == 0,
            r.warnings@.len() == 0,
    {
        ValidationReport { errors: Vec::new(), warnings: Vec::new() }
    }
}

impl ValidationReport {
    pub fn has_errors(&self) -> (r: bool)
        ensures
            r == (self.errors@.len() > 0),
    {
        self.errors.len() > 0
    }

    pub fn has_warnings(&self) -> (r: bool)
        ensures
            r == (self.warnings@.len() > 0),
    {
        self.warnings.len() > 0
    }

    /// Decides whether the run may send requests: `Ok` exactly when there is no error.
    /// Warnings never block.
    pub fn check_and_exit(&self) -> (r: Result<(), String>)
        ensures
            r is Ok <==> self.errors@.len() == 0,
            r matches Err(m) ==> m@ == "Exiting with errors"@,
    {
        if self.has_errors() {
            Err(String::from_str("Exiting with errors"))
        } else {
            Ok(())
        }
    }
}

/// A URL is accepted when it starts with `http://` or `https://`.
pub open spec fn is_valid_url(u: Seq<char>) -> bool {
    has_prefix(u, "http://"@) || has_prefix(u, "https://"@)
}

pub fn valid_url(url: &str) -> (r: bool)
    ensures
        r == is_valid_url(url@),
{
    starts_with(url, "http://") || starts_with(url, "https://")
}

pub open spec fn url_error(u: Seq<char>) -> Seq<char> {
    "Invalid URL "@ + u + ": must start with http:// or https://"@
}

/// One error per URL that is not accepted, in the order of the URLs.
pub open spec fn url_errors(urls: Seq<String>) -> Seq<Seq<char>>
    decreases urls.len(),
{
    if urls.len() == 0 {
        Seq::empty()
    } else {
        let prev = url_errors(urls.drop_last());
        if is_valid_url(urls.last()@) {
            prev
        } else {
            prev.push(url_error(urls.last()@))
        }
    }
}

pub open spec fn conflict_error() -> Seq<char> {
    "Can't have more than one of body, json, and form"@
}

pub open spec fn body_warning() -> Seq<char> {
    "Body not allowed for GET or DELETE"@
}

pub open spec fn json_error_text(m: Seq<char>) -> Seq<char> {
    "JSON is not valid: "@ + m
}

/// `k` is the position of the first colon of `s`.
pub open spec fn is_first_colon(s: Seq<char>, k: int) -> bool {
    0 <= k < s.len() && s[k] == ':' && forall|j: int| 0 <= j < k ==> s[j] != ':'
}

pub open spec fn no_colon_error(s: Seq<char>) -> Seq<char> {
    "invalid KEY:VALUE: no `:` found in `"@ + s + "`"@
}

/// A `KEY:VALUE` argument split at its first colon, both sides trimmed of
/// whitespace; an error when there is no colon.
pub open spec fn header_pair(s: Seq<char>) -> Result<(Seq<char>, Seq<char>), Seq<char>> {
    if exists|k: int| is_first_colon(s, k) {
        let k = choose|k: int| is_first_colon(s, k);
        Ok((trim(s.subrange(0, k)), trim(s.subrange(k + 1, s.len() as int))))
    } else {
        Err(no_colon_error(s))
    }
}

/// Splits a header argument `KEY:VALUE` into its trimmed key and value.
pub fn parse_key_val(s: &str) -> (r: Result<(String, String), String>)
    ensures
        header_pair(s@) == match r {
            Ok((k, v)) => Ok((k@, v@)),
            Err(m) => Err(m@),
        },
{
    let n = s.unicode_len();
    let mut i: usize = 0;
    while i < n && s.get_char(i) != ':'
        invariant
            n == s@.len(),
            i <= n,
            forall|j: int| 0 <= j < i ==> s@[j] != ':',
        decreases n - i,
    {
        i = i + 1;
    }
    if i == n {
        let mut m = String::from_str("invalid KEY:VALUE: no `:` found in `");
        m.append(s);
        m.append("`");
        assert(!exists|k: int| is_first_colon(s@, k));
        return Err(m);
    }
    assert(is_first_colon(s@, i as int));
    proof {
        let k = choose|k: int| is_first_colon(s@, k);
        assert(k == i);
    }
    let key = trimmed(s.substring_char(0, i));
    let value = trimmed(s.substring_char(i + 1, n));
    Ok((key, value))
}

/// The errors of a run, given the JSON parser's message on the JSON body
/// (`None` when it parsed).
pub open spec fn validation_errors(cli: Cli, json_err: Option<Seq<char>>) -> Seq<Seq<char>> {
    url_errors(cli.urls@) + (if payload_count(cli) > 1 {
        seq![conflict_error()]
    } else {
        Seq::empty()
    }) + (if cli.json is Some && json_err is Some {
        seq![json_error_text(json_err->0)]
    } else {
        Seq::empty()
    })
}

pub open spec fn validation_warnings(cli: Cli) -> Seq<Seq<char>> {
    if is_bodiless(cli.method) && payload_count(cli) > 0 {
        seq![body_warning()]
    } else {
        Seq::empty()
    }
}

pub open spec fn validation(cli: Cli, json_err: Option<Seq<char>>) -> ReportModel {
    ReportModel {
        errors: validation_errors(cli, json_err),
        warnings: validation_warnings(cli),
    }
}

/// What the JSON parser says of a text: `None` when it is JSON, else the
/// parser's message.
pub uninterp spec fn json_syntax_error(text: Seq<char>) -> Option<Seq<char>>;

/// Relies on `serde_json::from_str::<serde_json::Value>`: whether the text
/// parses, and the message of its error, depend on the text alone.
#[verifier::external_body]
fn json_check(text: &str) -> (r: Option<String>)
    ensures
        r is None <==> json_syntax_error(text@) is None,
        r matches Some(m) ==> json_syntax_error(text@) == Some(m@),
{
    match serde_json::from_str::<serde_json::Value>(text) {
        Ok(_) => None,
        Err(e) => Some(e.to_string()),
    }
}

/// The parser's verdict on the JSON body of a run, if there is one.
pub open spec fn json_verdict(cli: Cli) -> Option<Seq<char>> {
    match cli.json {
        Some(j) => json_syntax_error(j@),
        None => None,
    }
}

fn push_text(v: &mut Vec<String>, t: String)
    ensures
        texts(final(v)@) == texts(old(v)@).push(t@),
        final(v)@.len() == old(v)@.len() + 1,
{
    v.push(t);
    assert(texts(final(v)@) =~= texts(old(v)@).push(t@));
}

/// Validation of a run, given what the JSON parser said of its JSON body
/// (`None` when it parsed; ignored when there is no JSON body). Every rule
/// is checked; none stops the others.
pub fn validate_with_json_verdict(cli: &Cli, json_err: &Option<String>) -> (report:
    ValidationReport)
    ensures
        report@ == validation(*cli, opt_text(*json_err)),
{
    let mut report = ValidationReport::default();
    let mut i: usize = 0;
    while i < cli.urls.len()
        invariant
            i <= cli.urls@.len(),
            texts(report.errors@) == url_errors(cli.urls@.take(i as int)),
            report.warnings@.len() == 0,
        decreases cli.urls@.len() - i,
    {
        assert(cli.urls@.take(i + 1).drop_last() =~= cli.urls@.take(i as int));
        let url = &cli.urls[i];
        if !valid_url(url.as_str()) {
            let mut e = String::from_str("Invalid URL ");
            e.append(url.as_str());
            e.append(": must start with http:// or https://");
            push_text(&mut report.errors, e);
        }
        i = i + 1;
    }
    assert(cli.urls@.take(i as int) =~= cli.urls@);
    let ghost url_part = texts(report.errors@);

    let bodiless = cli.method == CliMethod::Get || cli.method == CliMethod::Delete;
    let has_body = cli.body.is_some() || cli.json.is_some() || cli.form.is_some();
    if bodiless && has_body {
        push_text(&mut report.warnings, String::from_str("Body not allowed for GET or DELETE"));
    }
    assert(texts(report.warnings@) =~= validation_warnings(*cli));

    let mut present: usize = 0;
    if cli.body.is_some() {
        present = present + 1;
    }
    if cli.json.is_some() {
        present = present + 1;
    }
    if cli.form.is_some() {
        present = present + 1;
    }
    if present > 1 {
        push_text(&mut report.errors, String::from_str("Can't have more than one of body, json, and form"));
    }
    let ghost conflict_part = texts(report.errors@);

    if cli.json.is_some() {
        match json_err {
            Some(m) => {
                let mut e = String::from_str("JSON is not valid: ");
                e.append(m.as_str());
                push_text(&mut report.errors, e);
            },
            None => {},
        }
    }
    assert(texts(report.errors@) =~= validation_errors(*cli, opt_text(*json_err)));
    report
}

/// Validation of a run: the URLs, the body sources, the method and the JSON
/// body, with no side effect.
pub fn validate_cli(cli: &Cli) -> (report: ValidationReport)
    ensures
        report@ == validation(*cli, json_verdict(*cli)),
{
    let verdict = match &cli.json {
        Some(j) => json_check(j.as_str()),
        None => None,
    };
    validate_with_json_verdict(cli, &verdict)
}

} // verus!

verus! {

proof fn lemma_url_errors_complete(urls: Seq<String>, i: int)
    requires
        0 <= i < urls.len(),
        !is_valid_url(urls[i]@),
    ensures
        url_errors(urls).contains(url_error(urls[i]@)),
    decreases urls.len(),
{
    let prev = url_errors(urls.drop_last());
    if i == urls.len() - 1 {
        assert(url_errors(urls)[prev.len() as int] == url_error(urls[i]@));
    } else {
        lemma_url_errors_complete(urls.drop_last(), i);
        let k = choose|k: int| 0 <= k < prev.len() && prev[k] == url_error(urls[i]@);
        assert(url_errors(urls)[k] == url_error(urls[i]@));
    }
}

proof fn lemma_url_errors_sound(urls: Seq<String>, j: int)
    requires
        0 <= j < url_errors(urls).len(),
    ensures
        exists|i: int|
            0 <= i < urls.len() && !is_valid_url(urls[i]@) && url_errors(urls)[j] == url_error(
                #[trigger] urls[i]@,
            ),
    decreases urls.len(),
{
    let prev = url_errors(urls.drop_last());
    if j < prev.len() {
        lemma_url_errors_sound(urls.drop_last(), j);
        let i = choose|i: int|
            0 <= i < urls.drop_last().len() && !is_valid_url(urls.drop_last()[i]@) && prev[j]
                == url_error(#[trigger] urls.drop_last()[i]@);
        assert(urls[i] == urls.drop_last()[i]);
    } else {
        assert(url_errors(urls)[j] == url_error(urls[urls.len() - 1]@));
    }
}

/// A URL that does not start with `http://` or `https://` is reported by an
/// error that contains "Invalid URL", so the report holds an error and the
/// check before any request refuses the run.
pub proof fn lemma_invalid_url_reported(cli: Cli, json_err: Option<Seq<char>>, i: int)
    requires
        0 <= i < cli.urls@.len(),
        !is_valid_url(cli.urls@[i]@),
    ensures
        validation(cli, json_err).errors.contains(url_error(cli.urls@[i]@)),
        contains_text(url_error(cli.urls@[i]@), "Invalid URL"@),
        validation(cli, json_err).errors.len() > 0,
{
    let errs = validation(cli, json_err).errors;
    let ue = url_errors(cli.urls@);
    lemma_url_errors_complete(cli.urls@, i);
    let k = choose|k: int| 0 <= k < ue.len() && ue[k] == url_error(cli.urls@[i]@);
    assert(errs[k] == ue[k]);
    let e = url_error(cli.urls@[i]@);
    reveal_strlit("Invalid URL ");
    reveal_strlit("Invalid URL");
    assert(e.subrange(0, 11) =~= "Invalid URL"@);
    lemma_prefix_contained(e, "Invalid URL"@);
}

/// When two or more of body, JSON and form are given, exactly one error
/// contains "Can't have more than one of body, json, and form". This needs
/// that no other error quotes that sentence: neither the error of an invalid
/// URL nor the one that carries the JSON parser's message.
pub proof fn lemma_conflict_reported_once(cli: Cli, json_err: Option<Seq<char>>)
    requires
        payload_count(cli) > 1,
        forall|i: int|
            0 <= i < cli.urls@.len() && !is_valid_url(cli.urls@[i]@) ==> !contains_text(
                url_error(#[trigger] cli.urls@[i]@),
                conflict_error(),
            ),
        cli.json is Some && json_err is Some ==> !contains_text(
            json_error_text(json_err->0),
            conflict_error(),
        ),
    ensures
        exists|k: int|
            0 <= k < validation(cli, json_err).errors.len() && validation(cli, json_err).errors[k]
                == conflict_error() && forall|j: int|
                0 <= j < validation(cli, json_err).errors.len() && contains_text(
                    #[trigger] validation(cli, json_err).errors[j],
                    conflict_error(),
                ) ==> j == k,
{
    let errs = validation(cli, json_err).errors;
    let ue = url_errors(cli.urls@);
    let k = ue.len() as int;
    assert(errs[k] == conflict_error());
    assert forall|j: int|
        0 <= j < errs.len() && contains_text(#[trigger] errs[j], conflict_error()) implies j
        == k by {
        if j < k {
            lemma_url_errors_sound(cli.urls@, j);
            assert(errs[j] == ue[j]);
        } else if j > k {
            assert(errs[j] == json_error_text(json_err->0));
        }
    }
}

/// A body on GET or DELETE gives exactly one warning, which contains
/// "Body not allowed"; the errors are those the same input gets with any
/// other method.
pub proof fn lemma_bodiless_warning(cli: Cli, json_err: Option<Seq<char>>, other: CliMethod)
    requires
        is_bodiless(cli.method),
        payload_count(cli) > 0,
    ensures
        validation(cli, json_err).warnings == seq![body_warning()],
        contains_text(body_warning(), "Body not allowed"@),
        validation((Cli { method: other, ..cli }), json_err).errors == validation(
            cli,
            json_err,
        ).errors,
{
    reveal_strlit("Body not allowed for GET or DELETE");
    reveal_strlit("Body not allowed");
    assert(body_warning().subrange(0, 16) =~= "Body not allowed"@);
    lemma_prefix_contained(body_warning(), "Body not allowed"@);
}

/// A JSON body that does not parse gives an error that contains
/// "JSON is not valid".
pub proof fn lemma_invalid_json_reported(cli: Cli, json_err: Option<Seq<char>>)
    requires
        cli.json is Some,
        json_err is Some,
    ensures
        validation(cli, json_err).errors.contains(json_error_text(json_err->0)),
        contains_text(json_error_text(json_err->0), "JSON is not valid"@),
{
    let errs = validation(cli, json_err).errors;
    assert(errs[errs.len() - 1] == json_error_text(json_err->0));
    reveal_strlit("JSON is not valid: ");
    reveal_strlit("JSON is not valid");
    assert(json_error_text(json_err->0).subrange(0, 17) =~= "JSON is not valid"@);
    lemma_prefix_contained(json_error_text(json_err->0), "JSON is not valid"@);
}

/// Validating the same input twice gives identical reports.
pub proof fn lemma_validation_repeatable(cli: Cli, first: ReportModel, second: ReportModel)
    requires
        first == validation(cli, json_verdict(cli)),
        second == validation(cli, json_verdict(cli)),
    ensures
        first == second,
{
}

} // verus!
