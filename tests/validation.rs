use rusty_curl::cli::{parse_key_val, valid_url, validate_cli, validate_with_json_verdict, Cli, CliMethod};

fn cli_with_urls(urls: &[&str]) -> Cli {
    let mut cli = Cli::default();
    for u in urls {
        cli.urls.push(u.to_string());
    }
    cli
}

#[test]
fn http_scheme_is_accepted() {
    assert!(valid_url("http://example.com"));
    assert!(valid_url("https://"));
    assert!(!valid_url("http:/example.com"));
    assert!(!valid_url("HTTP://example.com"));
    assert!(!valid_url(""));
}

#[test]
fn each_invalid_url_gets_its_own_error_in_order() {
    let cli = cli_with_urls(&["ftp://a", "https://ok", "b"]);
    let report = validate_cli(&cli);
    assert_eq!(
        report.errors,
        vec![
            "Invalid URL ftp://a: must start with http:// or https://".to_string(),
            "Invalid URL b: must start with http:// or https://".to_string(),
        ]
    );
    assert!(report.warnings.is_empty());
    assert!(report.check_and_exit().is_err());
}

#[test]
fn all_three_body_sources_give_one_conflict_error() {
    let mut cli = cli_with_urls(&["https://example.com"]);
    cli.method = CliMethod::Put;
    cli.body = Some("b".to_string());
    cli.json = Some("{}".to_string());
    cli.form = Some("f".to_string());
    let report = validate_cli(&cli);
    let n = report
        .errors
        .iter()
        .filter(|e| e.contains("Can't have more than one of body, json, and form"))
        .count();
    assert_eq!(n, 1);
    assert_eq!(report.errors.len(), 1);
}

#[test]
fn json_and_form_conflict() {
    let mut cli = cli_with_urls(&["https://example.com"]);
    cli.method = CliMethod::Post;
    cli.json = Some("[1, 2]".to_string());
    cli.form = Some("a=1".to_string());
    let report = validate_cli(&cli);
    assert_eq!(report.errors, vec!["Can't have more than one of body, json, and form".to_string()]);
}

#[test]
fn body_on_get_warns_once_without_error() {
    let mut cli = cli_with_urls(&["https://example.com"]);
    cli.body = Some("x".to_string());
    cli.form = Some("y".to_string());
    let report = validate_cli(&cli);
    assert_eq!(report.warnings, vec!["Body not allowed for GET or DELETE".to_string()]);
    let mut post = cli_with_urls(&["https://example.com"]);
    post.method = CliMethod::Post;
    post.body = Some("x".to_string());
    post.form = Some("y".to_string());
    assert_eq!(validate_cli(&post).errors, report.errors);
}

#[test]
fn warnings_alone_do_not_block() {
    let mut cli = cli_with_urls(&["https://example.com"]);
    cli.method = CliMethod::Delete;
    cli.json = Some("{\"a\": 1}".to_string());
    let report = validate_cli(&cli);
    assert!(report.errors.is_empty());
    assert_eq!(report.warnings.len(), 1);
    assert!(report.check_and_exit().is_ok());
}

#[test]
fn body_on_post_gives_no_warning() {
    let mut cli = cli_with_urls(&["https://example.com"]);
    cli.method = CliMethod::Post;
    cli.body = Some("x".to_string());
    let report = validate_cli(&cli);
    assert!(report.warnings.is_empty());
    assert!(report.errors.is_empty());
}

#[test]
fn valid_json_gives_no_error() {
    let mut cli = cli_with_urls(&["https://example.com"]);
    cli.method = CliMethod::Post;
    cli.json = Some("{\"hello\":\"world\"}".to_string());
    assert!(validate_cli(&cli).errors.is_empty());
}

#[test]
fn invalid_json_error_carries_the_parser_message() {
    let mut cli = cli_with_urls(&["https://example.com"]);
    cli.method = CliMethod::Post;
    cli.json = Some("{".to_string());
    let report = validate_cli(&cli);
    assert_eq!(report.errors.len(), 1);
    assert!(report.errors[0].starts_with("JSON is not valid: "));
    assert!(report.errors[0].len() > "JSON is not valid: ".len());
    assert_ne!(report.errors[0], "JSON is not valid: {");
}

#[test]
fn json_verdict_is_appended_last() {
    let mut cli = cli_with_urls(&["bad"]);
    cli.method = CliMethod::Post;
    cli.json = Some("x".to_string());
    cli.body = Some("y".to_string());
    let report = validate_with_json_verdict(&cli, &Some("oops".to_string()));
    assert_eq!(
        report.errors,
        vec![
            "Invalid URL bad: must start with http:// or https://".to_string(),
            "Can't have more than one of body, json, and form".to_string(),
            "JSON is not valid: oops".to_string(),
        ]
    );
}

#[test]
fn json_verdict_is_ignored_without_json_body() {
    let cli = cli_with_urls(&["https://example.com"]);
    let report = validate_with_json_verdict(&cli, &Some("oops".to_string()));
    assert!(report.errors.is_empty());
}

#[test]
fn validation_twice_gives_identical_reports() {
    let mut cli = cli_with_urls(&["nope", "https://example.com"]);
    cli.json = Some("not json".to_string());
    cli.body = Some("b".to_string());
    let first = validate_cli(&cli);
    let second = validate_cli(&cli);
    assert_eq!(first.errors, second.errors);
    assert_eq!(first.warnings, second.warnings);
}

#[test]
fn header_round_trip_examples() {
    assert_eq!(parse_key_val("Key: Value  ").unwrap(), ("Key".to_string(), "Value".to_string()));
    assert_eq!(parse_key_val(":").unwrap(), ("".to_string(), "".to_string()));
    assert!(parse_key_val("novaluehere").is_err());
}

#[test]
fn header_splits_at_first_colon() {
    assert_eq!(
        parse_key_val("Host: example.com:8080").unwrap(),
        ("Host".to_string(), "example.com:8080".to_string())
    );
}

#[test]
fn header_trims_unicode_whitespace() {
    assert_eq!(
        parse_key_val("\t\u{3000}k\u{a0}:\n v \u{2003}").unwrap(),
        ("k".to_string(), "v".to_string())
    );
}

#[test]
fn header_error_on_empty_input() {
    assert_eq!(parse_key_val("").unwrap_err(), "invalid KEY:VALUE: no `:` found in ``");
}
