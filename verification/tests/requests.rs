use writ_client::client::WritAgent;
use writ_client::error::WritError;
use writ_client::json::{parse, Json};
use writ_client::models::{CrawlStartParams, DatasetFormat, RunCompleted};
use writ_client::request::{accepts, Method, Request};
use writ_client::resources::RunOptions;
use writ_client::streams::{
    build_action, closing_action, default_wait, run_wait_result, wait_action, wait_timeout,
    BuildAction, BuildEvent, ClosingAction, ClosingEvent, WaitAction, WaitEvent,
};
use writ_client::time::Duration;

fn agent() -> WritAgent {
    WritAgent::builder()
        .token("t".to_string())
        .build(None, None)
        .unwrap()
}

fn line(r: &Request) -> (Method, &str) {
    (r.method, r.path.as_str())
}

fn query(r: &Request) -> Vec<(&str, &str)> {
    r.query
        .iter()
        .map(|(k, v)| (k.as_str(), v.as_str()))
        .collect()
}

fn body(r: &Request) -> &Json {
    r.body.as_ref().unwrap()
}

#[test]
fn run_defaults_to_async_and_sends_no_wait_query() {
    let r = agent().workflows().run(9, &RunOptions::default());
    assert_eq!(line(&r), (Method::Post, "/v1/workflows/9/run"));
    assert!(r.query.is_empty());
    assert_eq!(body(&r), &Json::Object(vec![]));
}

#[test]
fn run_options_are_sent_where_set() {
    let opts = RunOptions {
        inputs: Some(parse(r#"{"q":1}"#).unwrap()),
        persona_id: Some(3),
        files: Some(parse(r#"{"cv":"file_1"}"#).unwrap()),
        ..Default::default()
    };
    let r = agent().workflows().dry_run(2, &opts);
    assert_eq!(
        body(&r),
        &Json::Object(vec![
            ("inputs".into(), parse(r#"{"q":1}"#).unwrap()),
            ("persona_id".into(), parse("3").unwrap()),
            ("files".into(), parse(r#"{"cv":"file_1"}"#).unwrap()),
            ("dry_run".into(), Json::Bool(true)),
        ])
    );
    assert!(body(&agent().workflows().run(2, &opts)).get("dry_run").is_none());
}

#[test]
fn run_wait_sends_query_and_returns_terminal_document() {
    let w = agent().workflows();
    let r = w.run_wait(9, &RunOptions::default(), Some(Duration::from_secs(5)));
    assert_eq!(query(&r), vec![("wait", "true"), ("timeout", "5")]);
    assert_eq!(r.extra_ok, vec![504]);
    let r = w.run_wait(9, &RunOptions::default(), Some(Duration::from_millis(10)));
    assert_eq!(query(&r), vec![("wait", "true"), ("timeout", "1")]);
    let r = w.run_wait(9, &RunOptions::default(), None);
    assert_eq!(query(&r), vec![("wait", "true")]);
    let out = RunCompleted::from_json(
        &parse(r#"{"run_id": 43, "status": "failed", "done": true, "error": "e"}"#).unwrap(),
    )
    .unwrap();
    let out = run_wait_result(out).unwrap();
    assert_eq!(out.status, "failed");
    assert_eq!(out.error.as_deref(), Some("e"));
}

#[test]
fn run_wait_timeout_carries_the_still_running_run_id() {
    let out = RunCompleted::from_json(
        &parse(
            r#"{"run_id": 44, "status": "running", "done": false,
                "status_url": "/v1/runs/44", "events_url": "/v1/runs/44/events"}"#,
        )
        .unwrap(),
    )
    .unwrap();
    match run_wait_result(out).unwrap_err() {
        WritError::RunTimeout {
            run_id,
            status_url,
            events_url,
        } => {
            assert_eq!(run_id, 44);
            assert_eq!(status_url.as_deref(), Some("/v1/runs/44"));
            assert_eq!(events_url.as_deref(), Some("/v1/runs/44/events"));
        }
        other => panic!("wrong error variant: {other:?}"),
    }
}

#[test]
fn statuses_that_are_answers() {
    let cancel = agent().runs().cancel(3);
    assert_eq!(line(&cancel), (Method::Post, "/v1/runs/3/cancel"));
    assert!(accepts(200, &cancel.extra_ok));
    assert!(accepts(299, &cancel.extra_ok));
    assert!(accepts(409, &cancel.extra_ok));
    assert!(!accepts(300, &cancel.extra_ok));
    assert!(!accepts(404, &cancel.extra_ok));
    assert!(!accepts(409, &agent().runs().get(3).extra_ok));
}

#[test]
fn workflows_and_runs_route_to_their_paths() {
    let w = agent().workflows();
    assert_eq!(line(&w.list()), (Method::Get, "/v1/workflows"));
    assert_eq!(query(&w.list_with(&[("limit", "5")])), vec![("limit", "5")]);
    assert_eq!(line(&w.create(Json::Null)), (Method::Post, "/v1/workflows"));
    assert_eq!(line(&w.get(-1)), (Method::Get, "/v1/workflows/-1"));
    assert_eq!(line(&w.update(1, Json::Null)), (Method::Patch, "/v1/workflows/1"));
    assert_eq!(line(&w.delete(1)), (Method::Delete, "/v1/workflows/1"));
    assert_eq!(line(&w.cancel(1)), (Method::Post, "/v1/workflows/1/cancel"));
    assert_eq!(line(&w.session(1)), (Method::Get, "/v1/workflows/1/session"));
    assert_eq!(line(&w.clear_session(1)), (Method::Delete, "/v1/workflows/1/session"));
    let r = agent().runs();
    assert_eq!(line(&r.results(7)), (Method::Get, "/v1/runs/7/results"));
    assert_eq!(line(&r.data(7)), (Method::Get, "/v1/runs/7/data"));
    assert_eq!(query(&r.data_csv(7)), vec![("format", "csv")]);
    assert_eq!(line(&r.events(7)), (Method::Get, "/v1/runs/7/events"));
}

#[test]
fn monitors_selectors_and_extractors_route_to_their_paths() {
    let m = agent().monitors();
    assert_eq!(line(&m.changes(2)), (Method::Get, "/v1/monitors/2/changes"));
    assert_eq!(line(&m.capacity()), (Method::Get, "/v1/monitors/capacity"));
    assert_eq!(line(&m.recent_changes()), (Method::Get, "/v1/changes/recent"));
    assert_eq!(query(&m.recent_changes_with(&[("a", "b"), ("a", "c")])), vec![("a", "b"), ("a", "c")]);
    let s = agent().selectors();
    assert_eq!(line(&s.list(2)), (Method::Get, "/v1/monitors/2/selectors"));
    assert_eq!(line(&s.get(2, 3)), (Method::Get, "/v1/monitors/2/selectors/3"));
    assert_eq!(
        line(&s.set_baseline(2, 3)),
        (Method::Post, "/v1/monitors/2/selectors/3/set-baseline")
    );
    assert_eq!(line(&s.update(2, 3, Json::Null)).0, Method::Patch);
    let e = agent().extractors();
    assert_eq!(line(&e.list(4)), (Method::Get, "/v1/selectors/4/extractors"));
    assert_eq!(line(&e.toggle(4)), (Method::Patch, "/v1/extractors/4/toggle"));
    assert_eq!(line(&e.test(4, Json::Null)), (Method::Post, "/v1/extractors/4/test"));
}

#[test]
fn automations_and_secrets_carry_their_bodies() {
    let a = agent().automations();
    assert_eq!(
        body(&a.enable(1, false)),
        &Json::Object(vec![("enabled".into(), Json::Bool(false))])
    );
    assert_eq!(
        body(&a.run(1, None)),
        &Json::Object(vec![("inputs".into(), Json::Null)])
    );
    let s = agent().secrets();
    let set = s.set("k", "v");
    assert_eq!(line(&set), (Method::Post, "/v1/secrets"));
    assert_eq!(body(&set).str_at("name"), Some("k"));
    assert_eq!(body(&set).str_at("value"), Some("v"));
    assert_eq!(line(&s.get("k")), (Method::Get, "/v1/secrets/k"));
    assert_eq!(body(&agent().vault().unlock("p")).str_at("passphrase"), Some("p"));
    let keys = agent().keys();
    assert_eq!(body(&keys.create("n", Some("read"))).str_at("scopes"), Some("read"));
    assert!(body(&keys.create("n", None)).get("scopes").is_none());
    let ticket = agent().ws_ticket("/ws", Some("c"));
    assert_eq!(line(&ticket), (Method::Post, "/v1/ws-ticket"));
    assert_eq!(body(&ticket).str_at("route"), Some("/ws"));
    assert_eq!(body(&ticket).str_at("channel"), Some("c"));
}

#[test]
fn files_data_and_crawls_route_to_their_paths() {
    assert_eq!(
        line(&agent().files().content("file_1")),
        (Method::Get, "/v1/files/file_1/content")
    );
    assert_eq!(line(&agent().data().facets(3)), (Method::Get, "/v1/workflows/3/data/facets"));
    assert_eq!(query(&agent().crawl().list(Some(2))), vec![("limit", "2")]);
    assert!(agent().crawl().list(None).query.is_empty());
    let start = agent().crawl().start(&CrawlStartParams {
        url: "https://example.com".into(),
        ..Default::default()
    });
    assert_eq!(line(&start), (Method::Post, "/v1/crawl"));
    assert_eq!(body(&start).str_at("url"), Some("https://example.com"));
    let d = agent().datasets();
    let r = d.search_one_text(5, "x", DatasetFormat::Csv, &[("limit", "1")]);
    assert_eq!(r.path, "/v1/datasets/5/search");
    assert_eq!(query(&r), vec![("q", "x"), ("format", "csv"), ("limit", "1")]);
    assert_eq!(
        query(&d.records_text(5, DatasetFormat::Html, &[])),
        vec![("format", "html")]
    );
    assert_eq!(query(&d.search("x", &[])), vec![("q", "x")]);
}

fn ms(n: u64) -> Duration {
    Duration::from_millis(n)
}

#[test]
fn run_and_wait_over_sse() {
    let limit = ms(2000);
    assert!(matches!(
        wait_action(limit, WaitEvent::Started { elapsed: ms(500) }),
        WaitAction::OpenStream(d) if d == ms(1500)
    ));
    assert!(matches!(
        wait_action(limit, WaitEvent::StreamOpened),
        WaitAction::ReadStream
    ));
    assert!(matches!(
        wait_action(limit, WaitEvent::StreamEvent { terminal: false, elapsed: ms(1999) }),
        WaitAction::ReadStream
    ));
    assert!(matches!(
        wait_action(limit, WaitEvent::StreamEvent { terminal: true, elapsed: ms(9999) }),
        WaitAction::Finish
    ));
}

#[test]
fn run_and_wait_polling_fallback_when_sse_drops() {
    let limit = ms(1500);
    assert!(matches!(
        wait_action(limit, WaitEvent::StreamLost { elapsed: ms(10) }),
        WaitAction::Poll
    ));
    assert!(matches!(
        wait_action(limit, WaitEvent::Polled { running: true, elapsed: ms(10) }),
        WaitAction::Nap(d) if d == ms(1000)
    ));
    assert!(matches!(
        wait_action(limit, WaitEvent::Polled { running: true, elapsed: ms(1100) }),
        WaitAction::Nap(d) if d == ms(400)
    ));
    assert!(matches!(
        wait_action(limit, WaitEvent::Napped { elapsed: ms(1100) }),
        WaitAction::Poll
    ));
    assert!(matches!(
        wait_action(limit, WaitEvent::Polled { running: false, elapsed: ms(5000) }),
        WaitAction::Finish
    ));
}

#[test]
fn run_and_wait_times_out_and_does_not_cancel() {
    let limit = ms(1500);
    for event in [
        WaitEvent::Started { elapsed: limit },
        WaitEvent::StreamEvent { terminal: false, elapsed: limit },
        WaitEvent::StreamLost { elapsed: limit },
        WaitEvent::Polled { running: true, elapsed: limit },
        WaitEvent::Napped { elapsed: limit },
    ] {
        assert!(matches!(wait_action(limit, event), WaitAction::GiveUp));
    }
    match wait_timeout(13, limit) {
        WritError::Connection(m) => assert_eq!(
            m,
            "run_and_wait: run 13 not terminal after 1s — the run was NOT cancelled and continues on the daemon"
        ),
        other => panic!("got {other:?}"),
    }
    assert_eq!(default_wait(), Duration::from_secs(600));
}

#[test]
fn builds_are_polled_until_they_end() {
    let limit = ms(100);
    let next = |e| build_action(limit, e);
    assert_eq!(next(BuildEvent::Started { build_id: None }), BuildAction::Finish);
    assert_eq!(next(BuildEvent::Started { build_id: Some(1) }), BuildAction::Poll);
    assert_eq!(
        next(BuildEvent::Polled { terminal: true, elapsed: ms(500) }),
        BuildAction::Finish
    );
    assert_eq!(
        next(BuildEvent::Polled { terminal: false, elapsed: ms(99) }),
        BuildAction::Pause
    );
    assert_eq!(
        next(BuildEvent::Polled { terminal: false, elapsed: ms(100) }),
        BuildAction::GiveUp
    );
    assert_eq!(next(BuildEvent::Paused), BuildAction::Poll);
}

#[test]
fn limits_default_to_ten_minutes() {
    assert_eq!(RunOptions::default().wait_limit(), Duration::from_secs(600));
    let opts = RunOptions {
        wait_timeout: Some(ms(250)),
        ..Default::default()
    };
    assert_eq!(opts.wait_limit(), ms(250));
}

#[test]
fn results_are_read_where_they_are_wanted() {
    let reads = |include_results| {
        let opts = RunOptions {
            include_results,
            ..Default::default()
        };
        [
            closing_action(&opts, ClosingEvent::Over),
            closing_action(&opts, ClosingEvent::RunRead),
            closing_action(&opts, ClosingEvent::ResultsRead),
        ]
    };
    let (run, results, back) = (
        ClosingAction::ReadRun,
        ClosingAction::ReadResults,
        ClosingAction::HandBack,
    );
    assert_eq!(reads(false), [run, back, back]);
    assert_eq!(reads(true), [run, results, back]);
}
