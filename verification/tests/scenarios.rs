//! Answers as a server gives them, read the way a client reads them.

use writ_client::call::{Call, Stamp};
use writ_client::client::WritAgent;
use writ_client::cloud::{answer, CloudClient, CloudEnv};
use writ_client::discovery::{candidate, candidate_paths};
use writ_client::error::{api_error, WritError};
use writ_client::json::{parse, Json};
use writ_client::models::{
    CancelOutcome, CrawlCancel, CrawlJob, CrawlStartParams, RunCompleted, RunFeedItem, Workflow,
};
use writ_client::page::page_of;
use writ_client::request::{accepts, Method, Request};
use writ_client::resources::RunOptions;
use writ_client::retry::Next;
use writ_client::streams::run_wait_result;

fn agent() -> WritAgent {
    WritAgent::builder()
        .token("wlt_test".to_string())
        .build(None, None)
        .unwrap()
}

fn query(r: &Request) -> Vec<(&str, &str)> {
    r.query
        .iter()
        .map(|(k, v)| (k.as_str(), v.as_str()))
        .collect()
}

fn sent(r: &Request) -> &Json {
    r.body.as_ref().unwrap()
}

fn json(text: &str) -> Json {
    parse(text).unwrap()
}

fn crawl_view(id: i64, status: &str, more: &str) -> Json {
    json(&format!(
        r#"{{"id": {id}, "name": "Dragnet: example.com", "seed_url": "https://example.com",
        "include_paths": ["^/docs"], "exclude_paths": [], "max_depth": 3, "same_domain": 1,
        "allow_subdomains": 1, "extract_mode": "markdown", "extract_schema": null,
        "persona_id": null, "respect_robots": 1, "delay_ms": 250, "max_concurrent": 4,
        "page_budget": 500, "workflow_id": 77, "data_workflow_id": 77,
        "concierge_session_id": null, "status": "{status}", "pages_discovered": 0,
        "pages_done": 0, "pages_failed": 0, "pages_skipped": 0, "workers_active": 0,
        "current_depth": 0, "error": null, "cancel_requested": 0, "brand": "Dragnet",
        "is_terminal": false, "created_at": "2026-07-13T00:00:00Z", "updated_at": null,
        "started_at": null, "completed_at": null{more}}}"#
    ))
}

#[test]
fn page_from_data_count_envelope() {
    let page = page_of(&json(
        r#"{"data": [{"id": 1, "name": "a", "steps": []}, {"id": 2, "name": "b", "steps": []}],
        "count": 2}"#,
    ))
    .unwrap();
    assert_eq!(page.count, 2);
    assert_eq!(page.total, None);
    assert_eq!(Workflow::from_json(&page.data[1]).unwrap().name, "b");
}

#[test]
fn page_from_data_count_total_envelope() {
    let page = page_of(&json(
        r#"{"data": [{"id": "workflow-3", "run_type": "workflow", "status": "success"}],
        "count": 1, "total": 40}"#,
    ))
    .unwrap();
    assert_eq!(page.count, 1);
    assert_eq!(page.total, Some(40));
    assert_eq!(RunFeedItem::from_json(&page.data[0]).unwrap().row_id(), Some(3));
    assert_eq!(
        query(&agent().runs().list_with(&[("limit", "1")])),
        vec![("limit", "1")]
    );
}

#[test]
fn page_from_bare_array() {
    let page = page_of(&json(
        r#"[{"id": 10, "url": "https://a.test", "enabled": 1},
        {"id": 11, "url": "https://b.test", "enabled": 0},
        {"id": 12, "url": "https://c.test"}]"#,
    ))
    .unwrap();
    assert_eq!(page.count, 3, "bare array synthesizes count");
    assert_eq!(page.total, None);
    assert_eq!(page.data[0].str_at("url"), Some("https://a.test"));
}

#[test]
fn json_domain_error_maps_to_api_error() {
    let r = agent().workflows().get(999_999);
    assert_eq!(r.path, "/v1/workflows/999999");
    assert!(!accepts(404, &r.extra_ok));
    match api_error(
        404,
        "Not Found",
        r#"{"error": "not found: workflow 999999", "code": "not_found"}"#,
    ) {
        WritError::Api {
            status,
            code,
            message,
            body,
        } => {
            assert_eq!(status, 404);
            assert_eq!(code, "not_found");
            assert_eq!(message, "not found: workflow 999999");
            assert_eq!(body.str_at("code"), Some("not_found"));
        }
        other => panic!("expected Api error, got {other:?}"),
    }
}

#[test]
fn plain_text_axum_rejection_maps_with_status_derived_code() {
    let text = "Failed to deserialize the JSON body into the target type: missing field `url`";
    match api_error(422, "Unprocessable Entity", text) {
        WritError::Api {
            status,
            code,
            message,
            body,
        } => {
            assert_eq!(status, 422);
            assert_eq!(code, "unprocessable");
            assert_eq!(message, text);
            assert_eq!(body, Json::Str(text.to_string()));
        }
        other => panic!("expected Api error, got {other:?}"),
    }
}

#[test]
fn a_run_carries_what_is_set_and_no_more() {
    let r = agent().workflows().run(
        7,
        &RunOptions {
            inputs: Some(json(r#"{"city": "Paris"}"#)),
            persona_id: Some(2),
            ..Default::default()
        },
    );
    assert_eq!(r.path, "/v1/workflows/7/run");
    let body = sent(&r);
    assert_eq!(body.get("inputs").unwrap().str_at("city"), Some("Paris"));
    assert_eq!(body.i64_at("persona_id"), Some(2));
    assert!(body.get("dry_run").is_none());
}

#[test]
fn cancel_409_not_running_is_ok() {
    let r = agent().runs().cancel(3);
    assert_eq!((r.method, r.path.as_str()), (Method::Post, "/v1/runs/3/cancel"));
    assert!(accepts(409, &r.extra_ok) && accepts(202, &r.extra_ok));
    let done = CancelOutcome::from_json(&json(
        r#"{"run_id": 3, "status": "not_running", "run_status": "success"}"#,
    ))
    .unwrap();
    assert_eq!(done.status, "not_running");
    assert_eq!(done.run_status.as_deref(), Some("success"));
    assert!(!done.cancel_requested());

    let live =
        CancelOutcome::from_json(&json(r#"{"run_id": 4, "status": "cancel_requested"}"#)).unwrap();
    assert!(live.cancel_requested());
    assert_eq!(live.run_id, Some(4));
}

#[test]
fn rows_as_csv_are_asked_for_by_format() {
    let r = agent().runs().data_csv(3);
    assert_eq!((r.method, r.path.as_str()), (Method::Get, "/v1/runs/3/data"));
    assert_eq!(query(&r), vec![("format", "csv")]);
}

#[test]
fn tickets_name_their_route_and_channel() {
    let r = agent().ws_ticket("ai-preview", Some("ai-7"));
    assert_eq!((r.method, r.path.as_str()), (Method::Post, "/v1/ws-ticket"));
    assert_eq!(sent(&r).str_at("route"), Some("ai-preview"));
    assert_eq!(sent(&r).str_at("channel"), Some("ai-7"));
    let r = agent().ws_ticket("record", None);
    assert!(sent(&r).get("channel").is_none());
}

#[test]
fn crawl_lists_are_limited_and_keep_their_columns() {
    assert_eq!(query(&agent().crawl().list(Some(50))), vec![("limit", "50")]);
    assert!(agent().crawl().list(None).query.is_empty());
    let job = CrawlJob::from_json(&crawl_view(2, "crawling", "")).unwrap();
    assert_eq!(job.status, "crawling");
    assert_eq!(job.brand.crawl(), "Dragnet");
    assert_eq!(job.same_domain, 1);
}

#[test]
fn crawl_start_sends_body_and_parses_view() {
    let r = agent().crawl().start(&CrawlStartParams {
        url: "https://example.com".into(),
        extract_mode: Some("markdown".into()),
        include_paths: Some(vec!["^/docs".into()]),
        max_depth: Some(2),
        respect_robots: Some(true),
        ..Default::default()
    });
    assert_eq!((r.method, r.path.as_str()), (Method::Post, "/v1/crawl"));
    let job = CrawlJob::from_json(&crawl_view(5, "queued", "")).unwrap();
    assert_eq!(job.id, 5);
    assert_eq!(job.brand.crawl(), "Dragnet");
    assert_eq!(job.data_workflow_id, Some(77));
    assert_eq!(job.include_paths, vec!["^/docs".to_string()]);

    let body = sent(&r);
    assert_eq!(body.str_at("url"), Some("https://example.com"));
    assert_eq!(body.str_at("extract_mode"), Some("markdown"));
    assert_eq!(body.get("include_paths"), Some(&json(r#"["^/docs"]"#)));
    assert_eq!(body.i64_at("max_depth"), Some(2));
    assert_eq!(body.get("respect_robots"), Some(&Json::Bool(true)));
    assert!(body.get("persona_id").is_none());
    assert!(body.get("page_budget").is_none());
    assert!(body.get("name").is_none());
}

#[test]
fn crawl_get_fetches_one() {
    let r = agent().crawl().get(5);
    assert_eq!((r.method, r.path.as_str()), (Method::Get, "/v1/crawl/5"));
    let job = CrawlJob::from_json(&crawl_view(5, "crawling", "")).unwrap();
    assert_eq!(job.id, 5);
    assert_eq!(job.status, "crawling");
    assert_eq!(job.max_concurrent, 4);
}

#[test]
fn crawl_cancel_parses_cancel_requested_now() {
    let r = agent().crawl().cancel(5);
    assert_eq!((r.method, r.path.as_str()), (Method::Post, "/v1/crawl/5/cancel"));
    let view = crawl_view(5, "stopping", r#", "cancel_requested_now": true"#);
    let out = CrawlCancel::from_json(&view).unwrap();
    assert!(out.cancel_requested_now);
    assert_eq!(out.job.id, 5);
    assert_eq!(out.job.status, "stopping");
    assert_eq!(out.job.brand.crawl(), "Dragnet");
}

#[test]
fn crawl_get_missing_maps_to_api_error() {
    assert_eq!(agent().crawl().get(999_999).path, "/v1/crawl/999999");
    match api_error(
        404,
        "Not Found",
        r#"{"error": "not found: crawl 999999", "code": "not_found"}"#,
    ) {
        WritError::Api {
            status,
            code,
            message,
            ..
        } => {
            assert_eq!(status, 404);
            assert_eq!(code, "not_found");
            assert_eq!(message, "not found: crawl 999999");
        }
        other => panic!("expected Api error, got {other:?}"),
    }
}

fn path(text: &str) -> Vec<String> {
    text.split('/').map(str::to_string).collect()
}

#[test]
fn discovery_resolves_active_profile_runtime_json() {
    let paths = candidate_paths(None, Some(path("home")), Some("acct_1\n"), &vec![]);
    assert_eq!(paths[0].join("/"), "home/.writ/profiles/acct_1/runtime.json");
    let mut search = writ_client::client::Search::new(
        None,
        None,
        vec![candidate(4242, "wlt_test".into(), paths[0].join("/"))],
    );
    let probe = search.next_probe().unwrap();
    assert_eq!(probe.url, "http://127.0.0.1:4242");
    assert_eq!(probe.token, "wlt_test");
    let built = WritAgent::builder().assemble(&probe.url, &probe.token).unwrap();
    assert_eq!(built.base_url(), "http://127.0.0.1:4242");
    assert_eq!(built.authorization, "Bearer wlt_test");
}

#[test]
fn discovery_writ_home_candidate_is_first() {
    let paths = candidate_paths(Some(path("elsewhere")), Some(path("home")), None, &vec![]);
    assert_eq!(paths[0].join("/"), "elsewhere/runtime.json");
    assert_eq!(paths[1].join("/"), "home/.writ/runtime.json");
}

#[test]
fn run_wait_failed_run_is_ok_with_status_failed() {
    let r = agent().workflows().run_wait(9, &RunOptions::default(), None);
    assert_eq!(r.path, "/v1/workflows/9/run");
    let out = RunCompleted::from_json(&json(
        r#"{"run_id": 43, "status": "failed", "done": true, "error": "login step timed out"}"#,
    ))
    .unwrap();
    let done = run_wait_result(out).expect("a failed run must not be an Err");
    assert_eq!(done.status, "failed");
    assert_eq!(done.error.as_deref(), Some("login step timed out"));
}

fn cloud(api_key: Option<&str>) -> CloudClient {
    CloudClient::builder().build(CloudEnv {
        api_key,
        cloud_url: None,
        client_id: None,
    })
}

#[test]
fn keyless_429_maps_to_rate_limited_with_reset_at() {
    assert_eq!(
        cloud(None).scrape("https://example.com").path,
        "/v1/keyless/scrape"
    );
    let err = answer(
        429,
        r#"{"detail": {"code": "rate_limited", "message": "daily keyless allowance exhausted",
        "reset_at": "2026-07-17T00:00:00Z", "requests_remaining": 0, "pages_remaining": 0}}"#,
    )
    .unwrap_err();
    match err {
        WritError::RateLimited {
            status,
            code,
            message,
            reset_at,
            requests_remaining,
            pages_remaining,
            ..
        } => {
            assert_eq!(status, 429);
            assert_eq!(code, "rate_limited");
            assert_eq!(message, "daily keyless allowance exhausted");
            assert_eq!(reset_at.as_deref(), Some("2026-07-17T00:00:00Z"));
            assert_eq!(requests_remaining, Some(0));
            assert_eq!(pages_remaining, Some(0));
        }
        other => panic!("expected RateLimited, got {other:?}"),
    }
}

#[test]
fn unsafe_cloud_call_retries_under_one_stable_idempotency_key() {
    let client = cloud(Some("wt_secret"));
    let stamp = |count| Stamp {
        nanos: 0xabc,
        count,
        process: 7,
    };
    let begin = |count| {
        let r = client
            .monitors()
            .create(json(r#"{"url": "https://example.com"}"#))
            .unwrap();
        client.begin(r, "", None, stamp(count))
    };
    let key = |call: &Call| -> Vec<String> {
        call.headers
            .iter()
            .filter(|(name, _)| name.eq_ignore_ascii_case("idempotency-key"))
            .map(|(_, value)| value.clone())
            .collect()
    };
    let mut call = begin(1);
    assert_eq!(call.request.method, Method::Post);
    assert_eq!(call.request.path, "/api/targets");
    let first = (key(&call), call.request.body.clone());
    assert_eq!(first.0, vec!["writ-abc-1-7".to_string()]);
    assert!(matches!(call.on_answer(502, None, 0), Next::Repeat(_)));
    let second = (key(&call), call.request.body.clone());
    assert_eq!(first, second, "the retry changed the message");
    assert!(matches!(call.on_answer(200, None, 0), Next::Finish));
    assert_eq!(call.attempts.attempt, 2, "expected exactly one retry");
    assert_ne!(key(&begin(2)), first.0);
}

#[test]
fn a_call_without_answers_ends_with_its_policy() {
    let client = cloud(Some("wt_secret"));
    let mut call = client.begin(client.map("u", &Default::default()), "", None, Stamp {
        nanos: 0,
        count: 0,
        process: 0,
    });
    let mut sent = 1;
    while let Next::Repeat(_) = call.on_failure(0) {
        sent += 1;
    }
    assert_eq!(sent, 4);
}
