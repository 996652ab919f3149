use rusty_curl::cli::{Cli, CliMethod};
use rusty_curl::http::{plan_requests, request_body};

fn urls(n: usize) -> Vec<String> {
    (0..n).map(|i| format!("https://host.test/{}", i)).collect()
}

#[test]
fn one_request_per_url_in_order() {
    let u = urls(5);
    let plans = plan_requests(&u, CliMethod::Post, &Some("data".to_string()));
    assert_eq!(plans.len(), 5);
    for (i, p) in plans.iter().enumerate() {
        assert_eq!(p.url, u[i]);
        assert_eq!(p.method, CliMethod::Post);
        assert_eq!(p.body.as_deref(), Some("data"));
    }
}

#[test]
fn get_and_delete_drop_the_body() {
    let u = urls(2);
    for m in [CliMethod::Get, CliMethod::Delete] {
        let plans = plan_requests(&u, m, &Some("data".to_string()));
        assert!(plans.iter().all(|p| p.body.is_none() && p.method == m));
    }
    let plans = plan_requests(&u, CliMethod::Put, &Some("data".to_string()));
    assert!(plans.iter().all(|p| p.body.as_deref() == Some("data")));
}

#[test]
fn empty_batch_plans_nothing() {
    assert!(plan_requests(&vec![], CliMethod::Get, &None).is_empty());
}

#[test]
fn json_body_takes_precedence() {
    let mut cli = Cli::default();
    cli.form = Some("form".to_string());
    assert_eq!(request_body(&cli).as_deref(), Some("form"));
    cli.body = Some("raw".to_string());
    assert_eq!(request_body(&cli).as_deref(), Some("raw"));
    cli.json = Some("{}".to_string());
    assert_eq!(request_body(&cli).as_deref(), Some("{}"));
    assert_eq!(request_body(&Cli::default()), None);
}
