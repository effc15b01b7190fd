use writ_client::time::Duration;
use writ_client::webhook::{
    check_for, decode_hex, headers_for, mac_hex, sign_at, sign_webhook_request, unix_now, verify_delivery, verify_webhook,
    VerifyOptions, WebhookError, SIGNATURE_HEADER, SIGNATURE_V1_HEADER, TIMESTAMP_HEADER,
};

const SECRET: &str = "whsec_test";
const BODY: &[u8] = br#"{"event":"change_detected","target":{"id":42}}"#;

fn hex(bytes: &[u8]) -> String {
    bytes.iter().map(|b| format!("{b:02x}")).collect()
}

fn v1(ts: &str) -> String {
    let mut signed = ts.as_bytes().to_vec();
    signed.push(b'.');
    signed.extend_from_slice(BODY);
    format!("sha256={}", hex(&mac_hex(SECRET, &signed)))
}

fn lookup<'a>(pairs: &'a [(&'a str, String)]) -> impl Fn(&str) -> Option<&'a str> + 'a {
    move |name| {
        pairs
            .iter()
            .find(|(k, _)| k.eq_ignore_ascii_case(name))
            .map(|(_, v)| v.as_str())
    }
}

#[test]
fn accepts_a_valid_v1_delivery() {
    let ts = unix_now().to_string();
    let pairs = vec![
        (TIMESTAMP_HEADER, ts.clone()),
        (SIGNATURE_V1_HEADER, v1(&ts)),
    ];
    verify_webhook(lookup(&pairs), BODY, SECRET, &VerifyOptions::default()).unwrap();
}

#[test]
fn rejects_a_tampered_body_and_a_wrong_secret() {
    let ts = unix_now().to_string();
    let pairs = vec![
        (TIMESTAMP_HEADER, ts.clone()),
        (SIGNATURE_V1_HEADER, v1(&ts)),
    ];
    let mut tampered = BODY.to_vec();
    tampered.push(b' ');
    assert_eq!(
        verify_webhook(lookup(&pairs), &tampered, SECRET, &VerifyOptions::default()),
        Err(WebhookError::SignatureMismatch)
    );
    assert_eq!(
        verify_webhook(lookup(&pairs), BODY, "nope", &VerifyOptions::default()),
        Err(WebhookError::SignatureMismatch)
    );
}

#[test]
fn rejects_a_correctly_signed_but_stale_delivery() {
    let old = (unix_now() - 3600).to_string();
    let pairs = vec![
        (TIMESTAMP_HEADER, old.clone()),
        (SIGNATURE_V1_HEADER, v1(&old)),
    ];
    assert!(matches!(
        verify_webhook(lookup(&pairs), BODY, SECRET, &VerifyOptions::default()),
        Err(WebhookError::Stale { .. })
    ));
}

#[test]
fn refuses_body_only_unless_opted_in() {
    let pairs = vec![(
        SIGNATURE_HEADER,
        format!("sha256={}", hex(&mac_hex(SECRET, BODY))),
    )];
    assert!(matches!(
        verify_webhook(lookup(&pairs), BODY, SECRET, &VerifyOptions::default()),
        Err(WebhookError::NoSignature(_))
    ));
    verify_webhook(
        lookup(&pairs),
        BODY,
        SECRET,
        &VerifyOptions {
            allow_legacy_body_only: true,
            ..VerifyOptions::default()
        },
    )
    .unwrap();
}

#[test]
fn signed_inbound_request_round_trips_through_the_verifier() {
    let headers = sign_webhook_request(BODY, SECRET);
    let ts = headers[0].1.clone();
    let sig = headers[1].1.clone();
    let pairs = vec![(TIMESTAMP_HEADER, ts), (SIGNATURE_V1_HEADER, sig)];
    verify_webhook(lookup(&pairs), BODY, SECRET, &VerifyOptions::default()).unwrap();
}

#[test]
fn tag_is_hmac_sha256() {
    // A vector of RFC 4231.
    assert_eq!(
        hex(&mac_hex("Jefe", b"what do ya want for nothing?")),
        "5bdcc146bf60754e6a042426089575c75a003f089d2739839dec58b964ec3843"
    );
}

#[test]
fn signing_at_a_time_gives_that_time() {
    let headers = sign_at(BODY, SECRET, 1_700_000_000);
    assert_eq!(headers[0], (TIMESTAMP_HEADER, "1700000000".to_string()));
    assert_eq!(headers[1], (SIGNATURE_HEADER, v1("1700000000")));
}

#[test]
fn an_unsigned_request_is_refused() {
    let none: Vec<(&str, String)> = vec![];
    assert_eq!(
        verify_webhook(lookup(&none), b"{}", "whsec_x", &VerifyOptions::default()),
        Err(WebhookError::NoSignature(
            "request carries no Writ webhook signature".into()
        ))
    );
    assert_eq!(
        verify_webhook(lookup(&none), b"{}", "", &VerifyOptions::default()),
        Err(WebhookError::NoSecret)
    );
}

fn at(now: u64, tolerance: Option<u64>) -> VerifyOptions {
    VerifyOptions {
        tolerance: tolerance.map(Duration::from_secs),
        allow_legacy_body_only: false,
        now: Some(now),
    }
}

#[test]
fn the_window_is_symmetric_and_inclusive() {
    let sig = v1("1000");
    let judge = |now, tolerance| {
        verify_delivery(
            Some(&sig),
            Some("1000"),
            None,
            BODY,
            SECRET,
            &at(now, tolerance),
            now,
        )
    };
    assert_eq!(judge(1300, Some(300)), Ok(()));
    assert_eq!(judge(700, Some(300)), Ok(()));
    assert_eq!(
        judge(1301, Some(300)),
        Err(WebhookError::Stale {
            drift_secs: 301,
            tolerance_secs: 300
        })
    );
    assert_eq!(
        judge(699, Some(300)),
        Err(WebhookError::Stale {
            drift_secs: 301,
            tolerance_secs: 300
        })
    );
    assert_eq!(judge(9_999_999, None), Ok(()));
}

#[test]
fn timestamps_must_be_numbers_where_they_are_checked() {
    let judge = |ts: Option<&str>, tolerance| {
        let sig = v1(ts.unwrap_or("").trim());
        verify_delivery(Some(&sig), ts, None, BODY, SECRET, &at(5, tolerance), 5)
    };
    let bad = Err(WebhookError::BadTimestamp(TIMESTAMP_HEADER.to_string()));
    assert_eq!(judge(None, Some(300)), bad);
    assert_eq!(judge(Some("  "), Some(300)), bad);
    assert_eq!(judge(Some("soon"), Some(300)), bad);
    assert_eq!(judge(Some("-5"), Some(300)), bad);
    assert_eq!(judge(Some("99999999999999999999"), Some(300)), bad);
    assert_eq!(judge(Some("soon"), None), Ok(()));
    assert_eq!(judge(Some(" +5 "), Some(300)), Ok(()));
}

#[test]
fn signature_headers_are_read_in_every_form() {
    assert_eq!(decode_hex("sha256=00fF"), Some(vec![0, 255]));
    assert_eq!(decode_hex("0a"), Some(vec![10]));
    assert_eq!(decode_hex("+a"), Some(vec![10]));
    assert_eq!(decode_hex(""), Some(vec![]));
    assert_eq!(decode_hex("abc"), None);
    assert_eq!(decode_hex("zz"), None);
    assert_eq!(decode_hex("-a"), None);
    assert_eq!(decode_hex("é"), None);
    let upper = v1("7").replace("sha256=", "").to_uppercase();
    assert_eq!(
        verify_delivery(
            Some(&format!("  {upper} ")),
            Some("7"),
            None,
            BODY,
            SECRET,
            &at(7, Some(0)),
            7
        ),
        Ok(())
    );
    assert_eq!(
        verify_delivery(
            Some("not hex"),
            Some("7"),
            None,
            BODY,
            SECRET,
            &at(7, Some(0)),
            7
        ),
        Err(WebhookError::SignatureMismatch)
    );
    assert_eq!(
        verify_delivery(
            Some("aéb"),
            Some("7"),
            None,
            BODY,
            SECRET,
            &at(7, Some(0)),
            7
        ),
        Err(WebhookError::SignatureMismatch)
    );
}

#[test]
fn reasons_are_put_in_words() {
    assert_eq!(
        WebhookError::NoSecret.message(),
        "writ: webhook secret is empty"
    );
    assert_eq!(
        WebhookError::NoSignature("x".into()).message(),
        "writ: x"
    );
    assert_eq!(
        WebhookError::BadTimestamp(TIMESTAMP_HEADER.into()).message(),
        "writ: X-Writ-Timestamp is missing or malformed"
    );
    assert_eq!(
        WebhookError::Stale {
            drift_secs: 3600,
            tolerance_secs: 300
        }
        .message(),
        "writ: webhook timestamp is 3600s away from now (tolerance 300s) — treat it as a replay"
    );
    assert_eq!(
        WebhookError::SignatureMismatch.message(),
        "writ: webhook signature does not match — treat this request as hostile"
    );
}

#[test]
fn what_is_signed_is_known_before_the_tag() {
    let opts = VerifyOptions {
        now: Some(100),
        ..Default::default()
    };
    let check = check_for(Some(" sha256=0aFF "), Some("90"), None, b"body", SECRET, &opts, 100)
        .unwrap();
    assert_eq!(check.given, Some(vec![0x0a, 0xff]));
    assert_eq!(check.signed, b"90.body".to_vec());
    let check = check_for(Some("zz"), Some("90"), None, b"body", SECRET, &opts, 100).unwrap();
    assert_eq!(check.given, None);
    assert_eq!(
        check_for(Some("00"), Some("90"), None, b"", SECRET, &opts, 391).unwrap_err(),
        WebhookError::Stale {
            drift_secs: 301,
            tolerance_secs: 300
        }
    );
    let legacy = VerifyOptions {
        allow_legacy_body_only: true,
        ..Default::default()
    };
    let check = check_for(None, None, Some("00"), b"body", SECRET, &legacy, 0).unwrap();
    assert_eq!(check.given, Some(vec![0]));
    assert_eq!(check.signed, b"body".to_vec());
}

#[test]
fn tags_are_written_in_lower_case() {
    assert_eq!(
        headers_for(1700000000, &vec![0x00, 0x9f, 0xff]),
        vec![
            (TIMESTAMP_HEADER, "1700000000".to_string()),
            (SIGNATURE_HEADER, "sha256=009fff".to_string()),
        ]
    );
}
