use writ_client::cloud::{
    choose_client_id, choose_device_token, normalize_map, normalize_quota, normalize_scrape,
    Absorbed, CloudClient, CloudEnv,
};
use writ_client::cloud_models::{
    ChangeListOptions, CloudAutomationListOptions, CloudBuild, CloudBuildParams,
    CloudMonitorListOptions, CloudTier, KeylessCrawlOptions, MapOptions, ScrapeOptions,
    TERMINAL_BUILD_STATUSES,
};
use writ_client::error::WritError;
use writ_client::json::{parse, Json, Number};
use writ_client::models::{CrawlJob, CrawlStartParams};
use writ_client::request::{Method, Request};
use writ_client::wire::{base64_url_nopad, encode_path_segment, join_halves, random_bytes_16};

const NO_ENV: CloudEnv<'static> = CloudEnv {
    api_key: None,
    cloud_url: None,
    client_id: None,
};

fn keyless() -> CloudClient {
    CloudClient::builder().build(NO_ENV)
}

fn metered() -> CloudClient {
    CloudClient::builder()
        .api_key("wt_secret".to_string())
        .build(NO_ENV)
}

fn body(r: &Request) -> &Json {
    r.body.as_ref().unwrap()
}

fn query(r: &Request) -> Vec<(&str, &str)> {
    r.query
        .iter()
        .map(|(k, v)| (k.as_str(), v.as_str()))
        .collect()
}

#[test]
fn tier_from_credential() {
    let client = CloudClient::builder().api_key("wt_x".to_string()).build(NO_ENV);
    assert_eq!(client.tier(), CloudTier::Metered);
    assert_eq!(client.tier().as_str(), "metered");
    assert_eq!(keyless().tier(), CloudTier::Keyless);
    assert_eq!(keyless().tier().as_str(), "keyless");
    let from_env = CloudClient::builder().build(CloudEnv {
        api_key: Some(" wt_env "),
        ..NO_ENV
    });
    assert_eq!(from_env.api_key.as_deref(), Some("wt_env"));
    let blank = CloudClient::builder().build(CloudEnv {
        api_key: Some("  "),
        ..NO_ENV
    });
    assert_eq!(blank.tier(), CloudTier::Keyless);
}

#[test]
fn cloud_url_default_and_trim() {
    assert_eq!(keyless().base_url(), "https://api.usewrit.app");
    let c = CloudClient::builder()
        .cloud_url("https://example.test/".to_string())
        .build(NO_ENV);
    assert_eq!(c.base_url(), "https://example.test");
    assert_eq!(c.url("/x"), "https://example.test/x");
    let c = CloudClient::builder().build(CloudEnv {
        cloud_url: Some("http://h//"),
        client_id: Some("cid"),
        ..NO_ENV
    });
    assert_eq!(c.base_url(), "http://h");
    assert_eq!(c.client_id("kept"), "cid");
    assert_eq!(keyless().client_id("kept"), "kept");
}

#[test]
fn unsafe_methods_may_be_repeated_in_the_cloud() {
    assert!(keyless().retry.retry_unsafe_methods);
    assert_eq!(keyless().retry.max_attempts, 4);
}

#[test]
fn base64_url_nopad_matches_reference() {
    assert_eq!(base64_url_nopad(b""), "");
    assert_eq!(base64_url_nopad(b"f"), "Zg");
    assert_eq!(base64_url_nopad(b"fo"), "Zm8");
    assert_eq!(base64_url_nopad(b"foo"), "Zm9v");
    assert_eq!(base64_url_nopad(b"foob"), "Zm9vYg");
    assert_eq!(base64_url_nopad(&[0u8; 16]).len(), 22);
}

#[test]
fn base64_uses_the_url_safe_alphabet() {
    assert_eq!(base64_url_nopad(&[0xfb, 0xff, 0xfe]), "-__-");
    assert_eq!(base64_url_nopad(&[0xff]), "_w");
}

#[test]
fn random_ids_are_distinct_and_url_safe() {
    let a = base64_url_nopad(&random_bytes_16(1, 0));
    let b = base64_url_nopad(&random_bytes_16(1, 1));
    assert_ne!(a, b, "two mints must differ");
    assert_eq!(a.len(), 22);
    assert!(a
        .chars()
        .all(|c| c.is_ascii_alphanumeric() || c == '-' || c == '_'));
}

#[test]
fn halves_are_little_endian() {
    let r = join_halves(0x0807060504030201, 0x100f0e0d0c0b0a09);
    assert_eq!(r, [1, 2, 3, 4, 5, 6, 7, 8, 9, 10, 11, 12, 13, 14, 15, 16]);
}

#[test]
fn path_segments_are_escaped() {
    assert_eq!(encode_path_segment("a-Z_0.~"), "a-Z_0.~");
    assert_eq!(encode_path_segment("a/b?c#d%"), "a%2Fb%3Fc%23d%25");
    assert_eq!(encode_path_segment("é x"), "%C3%A9%20x");
    assert_eq!(encode_path_segment(""), "");
}

#[test]
fn keyless_scrape_uses_keyless_path_and_client_id_header() {
    let cloud = keyless();
    let r = cloud.scrape("https://example.com");
    assert_eq!(r.method, Method::Post);
    assert_eq!(r.path, "/v1/keyless/scrape");
    assert_eq!(body(&r).str_at("url"), Some("https://example.com"));
    let h = cloud.headers(r.method, true, "cid_test_123", None, "key");
    assert_eq!(h[0], ("X-Writ-Client-Id".into(), "cid_test_123".into()));
    assert!(h.iter().all(|(k, _)| k != "Authorization"));

    let raw = parse(
        r##"{"url": "https://example.com", "title": "Example", "format": "markdown",
            "markdown": "# Example", "counts": {"headings": 1},
            "quota": {"requests_remaining": 9, "pages_remaining": 49,
                      "requests_per_day": 10, "pages_per_day": 50,
                      "reset_at": "2026-07-17T00:00:00Z"}}"##,
    )
    .unwrap();
    let res = normalize_scrape(&raw, cloud.tier());
    assert_eq!(res.url, "https://example.com");
    assert_eq!(res.title.as_deref(), Some("Example"));
    assert_eq!(res.markdown, "# Example");
    assert_eq!(res.tier, CloudTier::Keyless);
    assert_eq!(res.counts.len(), 1);
    let quota = res.quota.expect("keyless call echoes quota");
    assert_eq!(quota.requests_remaining, 9);
    assert_eq!(quota.pages_remaining, 49);
}

#[test]
fn metered_scrape_uses_authed_path_and_bearer() {
    let cloud = metered();
    let r = cloud.scrape("https://example.com");
    assert_eq!(r.path, "/api/crawl/scrape");
    let h = cloud.headers(r.method, true, "cid", Some("tok"), "key-1");
    assert_eq!(
        h,
        vec![
            ("Authorization".to_string(), "Bearer wt_secret".to_string()),
            ("Content-Type".to_string(), "application/json".to_string()),
            ("Idempotency-Key".to_string(), "key-1".to_string()),
        ]
    );
    let raw = parse(
        r#"{"url": "https://example.com", "title": null, "format": "", "markdown": "hello", "counts": {}}"#,
    )
    .unwrap();
    let res = normalize_scrape(&raw, cloud.tier());
    assert_eq!(res.tier, CloudTier::Metered);
    assert_eq!(res.markdown, "hello");
    assert_eq!(res.format, "markdown");
    assert!(res.title.is_none());
    assert!(res.quota.is_none(), "metered calls carry no keyless quota");
}

#[test]
fn headers_of_a_keyless_read() {
    let h = keyless().headers(Method::Get, false, "cid", Some("tok"), "unused");
    assert_eq!(
        h,
        vec![
            ("X-Writ-Client-Id".to_string(), "cid".to_string()),
            ("X-Writ-Device-Token".to_string(), "tok".to_string()),
        ]
    );
}

#[test]
fn scrape_options_are_sent_where_set() {
    let r = keyless().scrape_with(
        "u",
        &ScrapeOptions {
            persona_id: Some(4),
            use_residential: true,
        },
    );
    assert_eq!(body(&r).i64_at("persona_id"), Some(4));
    assert_eq!(body(&r).get("use_residential"), Some(&Json::Bool(true)));
    let r = keyless().scrape_with("u", &ScrapeOptions::default());
    assert!(body(&r).get("persona_id").is_none());
    assert!(body(&r).get("use_residential").is_none());
}

#[test]
fn keyless_map_sends_search_and_limit() {
    let r = keyless().map(
        "https://example.com",
        &MapOptions {
            search: Some("pricing".into()),
            limit: Some(5),
        },
    );
    assert_eq!(r.path, "/v1/keyless/map");
    assert_eq!(body(&r).str_at("url"), Some("https://example.com"));
    assert_eq!(body(&r).str_at("search"), Some("pricing"));
    assert_eq!(body(&r).i64_at("limit"), Some(5));
    let r = metered().map("u", &MapOptions::default());
    assert_eq!(r.path, "/api/crawl/map");
    assert_eq!(body(&r).str_at("search"), Some(""));
    assert!(body(&r).get("limit").is_none());

    let raw = parse(
        r#"{"url": "https://example.com", "host": "example.com",
            "urls": [{"url": "https://example.com/a", "score": 0.5, "title": "A"}, {}],
            "counts": {"returned": 1, "total": 1}}"#,
    )
    .unwrap();
    let res = normalize_map(&raw, CloudTier::Keyless);
    assert_eq!(res.host.as_deref(), Some("example.com"));
    assert_eq!(res.urls.len(), 2);
    assert_eq!(res.urls[0].url, "https://example.com/a");
    assert_eq!(res.urls[0].score, Number::Float(0.5f64.to_bits()));
    assert_eq!(res.urls[1].score, Number::PosInt(0));
    assert_eq!(res.counts.total, 1);
    assert!(res.quota.is_none());
}

#[test]
fn keyless_crawl_refused_client_side_with_zero_requests() {
    let cloud = keyless();
    let params = CrawlStartParams {
        url: "https://example.com".into(),
        ..Default::default()
    };
    match cloud.crawl(&params).unwrap_err() {
        WritError::ApiKeyRequired {
            status,
            code,
            body,
            message,
        } => {
            assert_eq!(status, 402);
            assert_eq!(code, "api_key_required");
            assert_eq!(body, Json::Null, "client-side refusal carries a null body");
            assert!(message.starts_with("Whole-site crawl needs an API key"));
        }
        other => panic!("expected ApiKeyRequired, got {other:?}"),
    }
    assert!(matches!(
        cloud.crawl_status(1).unwrap_err(),
        WritError::ApiKeyRequired { .. }
    ));
    assert!(cloud.crawl_files(1, None).is_err());
    assert!(cloud.saved_crawl_files("x", None, None).is_err());
}

#[test]
fn metered_crawl_posts_and_parses_job() {
    let r = metered()
        .crawl(&CrawlStartParams {
            url: "https://example.com".into(),
            max_depth: Some(3),
            ..Default::default()
        })
        .unwrap();
    assert_eq!(r.path, "/api/crawl");
    assert_eq!(body(&r).str_at("url"), Some("https://example.com"));
    assert_eq!(body(&r).i64_at("max_depth"), Some(3));
    let job = CrawlJob::from_json(
        &parse(
            r#"{
                "id": 42, "name": "Dragnet: example.com", "seed_url": "https://example.com",
                "include_paths": [], "exclude_paths": [], "max_depth": 3,
                "same_domain": 1, "allow_subdomains": 1, "extract_mode": "markdown",
                "extract_schema": null, "persona_id": null, "respect_robots": 1,
                "delay_ms": 250, "max_concurrent": 4, "page_budget": 500,
                "workflow_id": 77, "data_workflow_id": 77, "concierge_session_id": null,
                "status": "queued", "pages_discovered": 0, "pages_done": 0,
                "pages_failed": 0, "pages_skipped": 0, "workers_active": 0,
                "current_depth": 0, "error": null, "cancel_requested": 0,
                "brand": "Dragnet", "is_terminal": false, "created_at": "2026-07-16T00:00:00Z"
            }"#,
        )
        .unwrap(),
    )
    .unwrap();
    assert_eq!(job.id, 42);
    assert_eq!(job.brand.crawl(), "Dragnet");
    assert_eq!(job.data_workflow_id, Some(77));
    assert!(job.extra.is_empty());
}

#[test]
fn crawl_reads_route_to_their_paths() {
    let cloud = metered();
    assert_eq!(cloud.crawl_status(7).unwrap().path, "/api/crawl/7");
    let files = cloud.crawl_files(-7, Some(3)).unwrap();
    assert_eq!(files.path, "/api/crawl/-7/files");
    assert_eq!(query(&files), vec![("limit", "3")]);
    let saved = cloud.saved_crawl_files("a/b", None, Some(2)).unwrap();
    assert_eq!(saved.path, "/api/crawl/definitions/a%2Fb/files");
    assert_eq!(query(&saved), vec![("runs", "2")]);
    let keyless_crawl = cloud.crawl_keyless(
        "u",
        &KeylessCrawlOptions {
            search: Some("s".into()),
            limit: None,
        },
    );
    assert_eq!(keyless_crawl.path, "/v1/keyless/crawl");
    assert_eq!(body(&keyless_crawl).str_at("search"), Some("s"));
}

#[test]
fn quota_keyless_fetches_metered_none() {
    let r = keyless().quota().expect("keyless has a quota");
    assert_eq!(r.path, "/v1/keyless/quota");
    assert_eq!(r.method, Method::Get);
    assert!(metered().quota().is_none());
    let inner = r#"{"requests_remaining": 7, "pages_remaining": 40, "requests_per_day": 10,
        "pages_per_day": 50, "reset_at": "2026-07-17T00:00:00Z",
        "upgrade_url": "https://usewrit.app/pricing"}"#;
    for text in [format!(r#"{{"quota": {inner}}}"#), inner.to_string()] {
        let quota = normalize_quota(&parse(&text).unwrap());
        assert_eq!(quota.requests_remaining, 7);
        assert_eq!(quota.pages_per_day, 50);
        assert_eq!(
            quota.upgrade_url.as_deref(),
            Some("https://usewrit.app/pricing")
        );
        assert_eq!(quota.tier, CloudTier::Keyless);
    }
}

#[test]
fn cloud_monitor_verbs_route_to_real_paths() {
    let cloud = metered();
    let m = cloud.monitors();
    let list = m
        .list(&CloudMonitorListOptions {
            enabled_only: true,
            check_type: Some("content".into()),
            limit: Some(5),
            offset: Some(10),
        })
        .unwrap();
    assert_eq!(list.path, "/api/targets");
    assert_eq!(
        query(&list),
        vec![
            ("enabled_only", "true"),
            ("check_type", "content"),
            ("limit", "5"),
            ("offset", "10")
        ]
    );
    assert!(m.list(&CloudMonitorListOptions::default()).unwrap().query.is_empty());
    let created = m.create(parse(r#"{"url":"u"}"#).unwrap()).unwrap();
    assert_eq!((created.method, created.path.as_str()), (Method::Post, "/api/targets"));
    assert_eq!(m.get(3).unwrap().path, "/api/targets/3");
    assert_eq!(m.update(3, Json::Null).unwrap().method, Method::Patch);
    assert_eq!(m.delete(3).unwrap().method, Method::Delete);
    let toggle = m.toggle(3, false).unwrap();
    assert_eq!(toggle.path, "/api/targets/3/toggle");
    assert_eq!(query(&toggle), vec![("enabled", "false")]);
    assert_eq!(m.run(3).unwrap().path, "/api/targets/3/run");
    let changes = m.changes(3, &ChangeListOptions::limit(2)).unwrap();
    assert_eq!(changes.path, "/api/targets/3/changes");
    assert_eq!(query(&changes), vec![("limit", "2")]);
}

#[test]
fn cloud_monitors_keyless_refuses_without_any_request() {
    let cloud = keyless();
    let m = cloud.monitors();
    let err = m.list(&CloudMonitorListOptions::default()).unwrap_err();
    assert_eq!(
        err.message(),
        "writ api key required [api_key_required]: Listing cloud monitors needs an API key — set api_key or WRIT_API_KEY. Keyless access covers scrape and map only."
    );
    assert!(m.create(Json::Null).is_err());
    assert!(m.get(1).is_err());
    assert!(m.update(1, Json::Null).is_err());
    assert!(m.delete(1).is_err());
    assert!(m.toggle(1, true).is_err());
    assert!(m.run(1).is_err());
    assert!(m.changes(1, &ChangeListOptions::default()).is_err());
    assert!(m.recent_changes(&ChangeListOptions::default()).is_err());
    assert!(cloud.automations().get(1).is_err());
    assert!(cloud.personas().get(1).is_err());
    assert!(cloud.builds().get(1).is_err());
}

#[test]
fn change_cursor_reaches_the_wire() {
    let r = metered()
        .monitors()
        .recent_changes(&ChangeListOptions {
            limit: Some(10),
            since: Some("2026-08-05T00:00:00Z".into()),
            since_id: Some(4),
        })
        .unwrap();
    assert_eq!(r.path, "/api/targets/changes/recent");
    assert_eq!(
        query(&r),
        vec![
            ("limit", "10"),
            ("since", "2026-08-05T00:00:00Z"),
            ("since_id", "4")
        ]
    );
}

#[test]
fn automations_and_personas_route_to_their_paths() {
    let cloud = metered();
    let a = cloud.automations();
    let list = a
        .list(&CloudAutomationListOptions {
            enabled_only: true,
            event_type: None,
            workflow_id: Some(9),
        })
        .unwrap();
    assert_eq!(list.path, "/api/triggers/all");
    assert_eq!(query(&list), vec![("enabled_only", "true"), ("workflow_id", "9")]);
    assert_eq!(a.toggle(2).unwrap().path, "/api/triggers/2/toggle");
    assert!(a.run(2, None).unwrap().body.is_none());
    assert!(a.run(2, Some(Json::Null)).unwrap().body.is_some());
    assert_eq!(a.test(2, Json::Null).unwrap().path, "/api/triggers/2/test");
    let ex = a.executions(2, Some(1)).unwrap();
    assert_eq!(ex.path, "/api/triggers/2/executions");
    let of = a.for_monitor(5, true).unwrap();
    assert_eq!(of.path, "/api/triggers/target/5");
    assert_eq!(query(&of), vec![("enabled_only", "true")]);
    let p = cloud.personas();
    assert_eq!(query(&p.list(Some("x.test")).unwrap()), vec![("domain", "x.test")]);
    assert_eq!(p.runs(1, None).unwrap().path, "/api/personas/1/runs");
    assert_eq!(p.test_2fa(1).unwrap().path, "/api/personas/1/test-2fa");
    let totp = p.validate_totp("SEED", Some("123456")).unwrap();
    assert_eq!(totp.path, "/api/personas/validate-totp");
    assert_eq!(body(&totp).str_at("totp_seed"), Some("SEED"));
    assert_eq!(body(&totp).str_at("code"), Some("123456"));
}

#[test]
fn builds_are_asked_for_and_end() {
    let cloud = metered();
    let r = cloud
        .builds()
        .start(&CloudBuildParams {
            url: "u".into(),
            goal: "g".into(),
            max_steps: Some(3),
            skip_marketplace: true,
            ..Default::default()
        })
        .unwrap();
    assert_eq!(r.path, "/api/v1/website-to-api");
    assert_eq!(body(&r).str_at("goal"), Some("g"));
    assert_eq!(body(&r).i64_at("max_steps"), Some(3));
    assert_eq!(body(&r).get("skip_marketplace"), Some(&Json::Bool(true)));
    assert!(body(&r).get("skip_existing").is_none());
    assert_eq!(cloud.builds().get(4).unwrap().path, "/api/v1/website-to-api/4");
    for (status, over) in [
        ("succeeded", true),
        ("failed", true),
        ("cancelled", true),
        ("running", false),
        ("", false),
    ] {
        let build = CloudBuild {
            status: status.into(),
            ..Default::default()
        };
        assert_eq!(build.is_terminal(), over, "{}", status);
        assert_eq!(TERMINAL_BUILD_STATUSES.contains(&status), over);
    }
}

#[test]
fn ids_and_tokens_are_chosen() {
    let kept = choose_client_id(Some(" abc\n"), "new");
    assert_eq!((kept.id.as_str(), kept.is_new), ("abc", false));
    let minted = choose_client_id(Some("  "), "new");
    assert_eq!((minted.id.as_str(), minted.is_new), ("new", true));
    assert!(choose_client_id(None, "new").is_new);
    assert_eq!(choose_device_token(Some("e"), Some("k")).as_deref(), Some("e"));
    assert_eq!(choose_device_token(Some(" "), Some("k\n")).as_deref(), Some("k"));
    assert_eq!(choose_device_token(None, None), None);
    let c = keyless();
    assert!(matches!(c.absorb_device_token(None, None), Absorbed::Nothing));
    assert!(matches!(c.absorb_device_token(Some(""), None), Absorbed::Nothing));
    assert!(matches!(c.absorb_device_token(Some("t"), Some("t")), Absorbed::Same));
    assert!(matches!(c.absorb_device_token(Some("t"), Some("u")), Absorbed::New(s) if s == "t"));
    assert!(matches!(metered().absorb_device_token(Some("t"), None), Absorbed::Nothing));
}
