use writ_client::cloud::{answer, cloud_error_from, no_answer};
use writ_client::error::{api_error, code_for_status, truncate_message, WritError, MESSAGE_CAP};
use writ_client::json::Json;

#[test]
fn json_domain_error_maps_code_and_message() {
    let err = api_error(
        404,
        "Not Found",
        r#"{"error":"not found: workflow 999999","code":"not_found"}"#,
    );
    match err {
        WritError::Api {
            status,
            code,
            message,
            body,
        } => {
            assert_eq!(status, 404);
            assert_eq!(code, "not_found");
            assert_eq!(message, "not found: workflow 999999");
            assert_eq!(body.str_at("code"), Some("not_found"));
        }
        other => panic!("expected Api, got {other:?}"),
    }
}

#[test]
fn plain_text_body_derives_code_from_status() {
    let text = "Failed to deserialize the JSON body into the target type: missing field `url`";
    let err = api_error(422, "Unprocessable Entity", text);
    match err {
        WritError::Api {
            status,
            code,
            message,
            body,
        } => {
            assert_eq!(status, 422);
            assert_eq!(code, "unprocessable");
            assert_eq!(message, text);
            assert_eq!(body, Json::Str(text.to_string()));
        }
        other => panic!("expected Api, got {other:?}"),
    }
}

#[test]
fn message_resolution_falls_through_error_detail_message() {
    let err = api_error(400, "Bad Request", r#"{"detail":"nope"}"#);
    match err {
        WritError::Api { message, code, .. } => {
            assert_eq!(message, "nope");
            assert_eq!(code, "bad_request");
        }
        other => panic!("expected Api, got {other:?}"),
    }
    let err = api_error(500, "Internal Server Error", r#"{"message":"boom"}"#);
    match err {
        WritError::Api { message, code, .. } => {
            assert_eq!(message, "boom");
            assert_eq!(code, "internal");
        }
        other => panic!("expected Api, got {other:?}"),
    }
    let err = api_error(429, "Too Many Requests", "");
    match err {
        WritError::Api { message, code, .. } => {
            assert_eq!(message, "Too Many Requests");
            assert_eq!(code, "rate_limited");
        }
        other => panic!("expected Api, got {other:?}"),
    }
}

#[test]
fn long_plain_text_is_truncated_to_about_500_chars() {
    let text = "x".repeat(2000);
    let err = api_error(500, "Internal Server Error", &text);
    match err {
        WritError::Api { message, body, .. } => {
            assert!(message.chars().count() <= MESSAGE_CAP + 1);
            assert_eq!(body, Json::Str(text));
        }
        other => panic!("expected Api, got {other:?}"),
    }
}

#[test]
fn bodies_that_are_json_but_no_object_are_messages() {
    match api_error(400, "Bad Request", "[1]") {
        WritError::Api { message, body, .. } => {
            assert_eq!(message, "[1]");
            assert_eq!(body.as_array().unwrap().len(), 1);
        }
        other => panic!("expected Api, got {other:?}"),
    }
    match api_error(418, "I'm a teapot", r#"{"error": 7, "code": 8}"#) {
        WritError::Api { message, code, .. } => {
            assert_eq!(message, "I'm a teapot");
            assert_eq!(code, "http_418");
        }
        other => panic!("expected Api, got {other:?}"),
    }
}

#[test]
fn truncation_counts_characters() {
    assert_eq!(truncate_message(&"é".repeat(500)), "é".repeat(500));
    assert_eq!(
        truncate_message(&"é".repeat(501)),
        format!("{}…", "é".repeat(500))
    );
}

#[test]
fn codes_follow_statuses() {
    for (status, code) in [
        (400, "bad_request"),
        (401, "unauthorized"),
        (403, "forbidden"),
        (404, "not_found"),
        (409, "conflict"),
        (422, "unprocessable"),
        (429, "rate_limited"),
        (500, "internal"),
        (599, "internal"),
        (418, "http_418"),
        (302, "http_302"),
    ] {
        assert_eq!(code_for_status(status), code);
    }
}

#[test]
fn run_timeout_message_says_do_not_retry() {
    let err = WritError::RunTimeout {
        run_id: 7,
        status_url: None,
        events_url: None,
    };
    let msg = err.message();
    assert!(msg.contains("STILL RUNNING"), "message = {msg}");
    assert!(msg.contains("do not retry"), "message = {msg}");
    assert_eq!(
        msg,
        "writ: run 7 did not finish within the requested budget and is STILL RUNNING — observe it with runs().events(7) or runs().get(7); do not retry, that would start a second run"
    );
}

#[test]
fn errors_are_put_in_words() {
    assert_eq!(
        api_error(404, "Not Found", "gone").message(),
        "writ api error 404 [not_found]: gone"
    );
    assert_eq!(
        cloud_error_from(429, "{}").message(),
        "writ rate limited [rate_limited]: HTTP 429"
    );
    assert_eq!(
        WritError::Connection("c".into()).message(),
        "writ connection error: c"
    );
    assert_eq!(
        WritError::Discovery("d".into()).message(),
        "writ discovery error: d"
    );
    assert!(WritError::BuildTimeout { build_id: -4 }
        .message()
        .contains("build -4"));
    assert_eq!(
        cloud_error_from(402, r#"{"message":"m"}"#).message(),
        "writ insufficient credits [http_402]: m"
    );
    assert_eq!(
        cloud_error_from(402, r#"{"message":"m","code":"api_key_required"}"#).message(),
        "writ api key required [api_key_required]: m"
    );
    assert_eq!(
        cloud_error_from(402, r#"{"message":"m","limit":1}"#).message(),
        "writ plan limit [http_402]: m"
    );
}

#[test]
fn error_mapping_covers_each_tier_shape() {
    let err = cloud_error_from(
        429,
        r#"{"detail":{"code":"rate_limited","message":"slow down","reset_at":"2026-07-16T00:00:00Z","requests_remaining":0,"pages_remaining":3}}"#,
    );
    match err {
        WritError::RateLimited {
            reset_at,
            requests_remaining,
            pages_remaining,
            message,
            ..
        } => {
            assert_eq!(reset_at.as_deref(), Some("2026-07-16T00:00:00Z"));
            assert_eq!(requests_remaining, Some(0));
            assert_eq!(pages_remaining, Some(3));
            assert_eq!(message, "slow down");
        }
        other => panic!("expected RateLimited, got {other:?}"),
    }

    let err = cloud_error_from(
        402,
        r#"{"detail":{"code":"api_key_required","message":"key please"}}"#,
    );
    assert!(
        matches!(err, WritError::ApiKeyRequired { .. }),
        "got {err:?}"
    );

    let err = cloud_error_from(
        402,
        r#"{"detail":{"code":"insufficient_credits","message":"broke"}}"#,
    );
    assert!(
        matches!(err, WritError::InsufficientCredits { .. }),
        "got {err:?}"
    );

    let err = cloud_error_from(400, r#"{"code":"bad_request","message":"nope"}"#);
    match err {
        WritError::Api { code, message, .. } => {
            assert_eq!(code, "bad_request");
            assert_eq!(message, "nope");
        }
        other => panic!("expected Api, got {other:?}"),
    }
}

#[test]
fn payment_required_splits_plan_limit_from_credits() {
    let err = cloud_error_from(
        402,
        r#"{"detail": "Check interval too short. Minimum for your plan: 10s.",
            "code": "interval_too_short", "current": 1000, "limit": 10000,
            "upgrade_hint": "growth"}"#,
    );
    match err {
        WritError::PlanLimit {
            code,
            limit,
            current,
            upgrade_hint,
            message,
            ..
        } => {
            assert_eq!(code, "interval_too_short");
            assert_eq!(limit, 10_000);
            assert_eq!(current, 1_000);
            assert_eq!(upgrade_hint.as_deref(), Some("growth"));
            assert_eq!(message, "Check interval too short. Minimum for your plan: 10s.");
        }
        other => panic!("expected PlanLimit, got {other:?}"),
    }
    let err = cloud_error_from(
        402,
        r#"{"detail": {"message": "allotment spent", "code": "insufficient_credits"}}"#,
    );
    assert!(matches!(err, WritError::InsufficientCredits { .. }));
}

#[test]
fn bodies_that_are_no_json_are_reasons() {
    match cloud_error_from(503, "down") {
        WritError::Api {
            code,
            message,
            body,
            status,
        } => {
            assert_eq!(status, 503);
            assert_eq!(code, "internal");
            assert_eq!(message, "down");
            assert_eq!(body, Json::Str("down".into()));
        }
        other => panic!("expected Api, got {other:?}"),
    }
}

#[test]
fn cloud_answers() {
    assert_eq!(answer(204, " \n").unwrap(), Json::Object(vec![]));
    assert_eq!(answer(200, "[1]").unwrap().as_array().unwrap().len(), 1);
    match answer(200, "{") {
        Err(WritError::Connection(m)) => {
            let reason = serde_json::from_str::<serde_json::Value>("{").unwrap_err();
            assert_eq!(m, format!("decoding cloud response body: {reason}"));
        }
        other => panic!("expected Connection, got {other:?}"),
    }
    assert!(matches!(
        answer(429, "{}"),
        Err(WritError::RateLimited { .. })
    ));
    assert_eq!(
        no_answer("/api/x", "timed out").message(),
        "writ connection error: cloud request to /api/x failed: timed out"
    );
}
