use writ_client::client::{Discovery, Search, Sought, WritAgent};
use writ_client::discovery::{
    candidate, candidate_paths, env_value, is_safe_profile, Candidate, ProfileEntry,
};
use writ_client::error::WritError;
use writ_client::retry::RetryPolicy;
use writ_client::time::Duration;

#[test]
fn profile_id_validation_mirrors_daemon() {
    assert!(is_safe_profile("acct_42-A"));
    assert!(!is_safe_profile(""));
    assert!(!is_safe_profile("local"));
    assert!(!is_safe_profile("../evil"));
    assert!(!is_safe_profile("a b"));
    assert!(!is_safe_profile(&"x".repeat(129)));
    assert!(is_safe_profile(&"x".repeat(128)));
}

fn path(text: &str) -> Vec<String> {
    text.split('/').map(str::to_string).collect()
}

fn dir(name: &str) -> ProfileEntry {
    ProfileEntry {
        name: name.into(),
        is_dir: true,
    }
}

fn shown(paths: Vec<Vec<String>>) -> Vec<String> {
    paths.into_iter().map(|p| p.join("/")).collect()
}

#[test]
fn paths_are_tried_in_order_and_once() {
    let entries = vec![
        dir("acct"),
        ProfileEntry {
            name: "file".into(),
            is_dir: false,
        },
        dir("other"),
    ];
    let got = candidate_paths(
        Some(path("w")),
        Some(path("h")),
        Some(" acct\n"),
        &entries,
    );
    assert_eq!(
        shown(got),
        vec![
            "w/runtime.json",
            "h/.writ/profiles/acct/runtime.json",
            "h/.writ/runtime.json",
            "h/.writ/profiles/other/runtime.json",
        ]
    );
}

#[test]
fn writ_home_may_be_the_base_directory() {
    let got = candidate_paths(Some(path("h/.writ")), Some(path("h")), None, &vec![]);
    assert_eq!(shown(got), vec!["h/.writ/runtime.json"]);
    assert!(candidate_paths(None, None, Some("p"), &vec![dir("x")]).is_empty());
}

#[test]
fn unsafe_active_profiles_are_passed_over_and_the_scan_is_capped() {
    let entries: Vec<ProfileEntry> = (0..40).map(|i| dir(&format!("p{i}"))).collect();
    let got = candidate_paths(None, Some(path("h")), Some("../x"), &entries);
    assert_eq!(got.len(), 33);
    assert_eq!(got[32].join("/"), "h/.writ/profiles/p31/runtime.json");
}

#[test]
fn candidates_are_on_the_loopback_interface() {
    let c = candidate(8131, "wlt_x".into(), "h/runtime.json".into());
    assert_eq!(c.base_url, "http://127.0.0.1:8131");
    assert_eq!(c.token, "wlt_x");
    assert_eq!(candidate(0, String::new(), String::new()).base_url, "http://127.0.0.1:0");
}

#[test]
fn blank_environment_values_are_absent() {
    assert_eq!(env_value(Some(" x ")).as_deref(), Some("x"));
    assert_eq!(env_value(Some("\u{2003}\t")), None);
    assert_eq!(env_value(None), None);
}

fn message(e: WritError) -> String {
    match e {
        WritError::Discovery(m) => m,
        other => panic!("expected Discovery, got {other:?}"),
    }
}

#[test]
fn trailing_slash_on_base_url_is_stripped() {
    let agent = WritAgent::builder()
        .base_url("http://127.0.0.1:9///".to_string())
        .token("t".to_string())
        .build(None, None)
        .unwrap();
    assert_eq!(agent.base_url(), "http://127.0.0.1:9");
    assert_eq!(agent.url("/v1/agent"), "http://127.0.0.1:9/v1/agent");
    assert_eq!(agent.authorization, "Bearer t");
    assert_eq!(agent.timeout, Duration::from_secs(30));
}

#[test]
fn building_needs_a_token() {
    let err = WritAgent::builder().build(None, Some(" ")).unwrap_err();
    assert_eq!(
        message(err),
        "no token configured — is the Writ agent running? pass .token(...) or set WRIT_TOKEN"
    );
    let agent = WritAgent::builder().build(None, Some("env")).unwrap();
    assert_eq!(agent.base_url(), "http://127.0.0.1:8131");
    assert_eq!(agent.authorization, "Bearer env");
    let err = WritAgent::builder()
        .token("a\nb".to_string())
        .build(None, None)
        .unwrap_err();
    assert_eq!(
        message(err),
        "token contains characters invalid in an HTTP header"
    );
    assert!(WritAgent::builder()
        .token("tab\tand é".to_string())
        .build(None, None)
        .is_ok());
}

#[test]
fn unsafe_retries_are_forced_off_for_the_daemon() {
    let mut policy = RetryPolicy::off();
    policy.retry_unsafe_methods = true;
    let agent = WritAgent::builder()
        .token("t".to_string())
        .retry(policy)
        .timeout(Duration::from_secs(1))
        .build(None, None)
        .unwrap();
    assert!(!agent.retry.retry_unsafe_methods);
    assert_eq!(agent.retry.max_attempts, 1);
    assert_eq!(agent.timeout, Duration::from_secs(1));
}

#[test]
fn discovery_env_override_wins_without_filesystem() {
    match WritAgent::builder().discover(Some("http://e/"), Some("tok")) {
        Discovery::Known(Ok(agent)) => {
            assert_eq!(agent.base_url(), "http://e");
            assert_eq!(agent.authorization, "Bearer tok");
        }
        other => panic!("expected a client, got {other:?}"),
    }
}

fn candidates() -> Vec<Candidate> {
    vec![
        candidate(1, "a".into(), "one".into()),
        candidate(2, "b".into(), "two".into()),
    ]
}

#[test]
fn discovery_stale_candidate_falls_through_to_next() {
    let (url, token) = match WritAgent::builder().discover(None, None) {
        Discovery::Search { url, token } => (url, token),
        other => panic!("expected a search, got {other:?}"),
    };
    let mut search = Search::new(url, token, candidates());
    let first = search.next_probe().unwrap();
    assert_eq!((first.url.as_str(), first.token.as_str()), ("http://127.0.0.1:1", "a"));
    let second = search.next_probe().unwrap();
    assert_eq!((second.url.as_str(), second.token.as_str()), ("http://127.0.0.1:2", "b"));
    assert_eq!(
        message(search.next_probe().unwrap_err()),
        "no live Writ agent answered the probe (stale runtime.json candidates: one, two) — is the Writ agent running? pass token=... or set WRIT_TOKEN"
    );
}

#[test]
fn known_halves_are_kept_while_searching() {
    let mut search = Search::new(Some("http://x/".into()), None, candidates());
    let p = search.next_probe().unwrap();
    assert_eq!((p.url.as_str(), p.token.as_str()), ("http://x", "a"));
    let mut search = Search::new(None, Some("mine".into()), candidates());
    let p = search.next_probe().unwrap();
    assert_eq!((p.url.as_str(), p.token.as_str()), ("http://127.0.0.1:1", "mine"));
}

#[test]
fn discovery_with_nothing_found_is_a_discovery_error() {
    let mut search = Search::new(None, None, vec![]);
    assert_eq!(
        message(search.next_probe().unwrap_err()),
        "no runtime.json found under $WRIT_HOME or ~/.writ — is the Writ agent running? pass base_url/token explicitly or set WRIT_API_URL/WRIT_TOKEN"
    );
}

#[test]
fn the_first_live_candidate_is_taken() {
    let c = |port| candidate(port, format!("wlt_{port}"), format!("{port}/runtime.json"));
    let mut search = Search::new(None, None, vec![c(1), c(2), c(3)]);
    let first = search.next_probe().unwrap();
    let second = match search.on_probe(first, None) {
        Sought::Probe(p) => p,
        other => panic!("unexpected {other:?}"),
    };
    let third = match search.on_probe(second, Some(401)) {
        Sought::Probe(p) => p,
        other => panic!("unexpected {other:?}"),
    };
    assert_eq!(third.url, "http://127.0.0.1:3");
    assert!(matches!(
        search.on_probe(third.clone(), Some(204)),
        Sought::Found(p) if p.token == "wlt_3"
    ));
    match search.on_probe(third, Some(500)) {
        Sought::Nothing(e) => assert!(message(e).contains("1/runtime.json, 2/runtime.json")),
        other => panic!("unexpected {other:?}"),
    }
}
