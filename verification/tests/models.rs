use writ_client::files::{file_slots, first_non_empty, output_files};
use writ_client::json::{parse, Json, Number};
use writ_client::models::{
    Brand, CancelOutcome, CrawlCancel, CrawlStartParams, DatasetFormat, RunCompleted, RunEvent,
    RunFeedItem, Workflow,
};
use writ_client::page::{page_of, Page};

fn json(text: &str) -> Json {
    parse(text).unwrap()
}

fn extra<'a>(fields: &'a [(String, Json)], name: &str) -> &'a Json {
    &fields.iter().find(|(k, _)| k == name).unwrap().1
}

#[test]
fn run_feed_item_row_id_parses_composite() {
    let item = RunFeedItem::from_json(&json(r#"{"id": "workflow-3", "status": "success"}"#)).unwrap();
    assert_eq!(item.row_id(), Some(3));
    let item = RunFeedItem::from_json(&json(r#"{"id": "check-142", "status": "running"}"#)).unwrap();
    assert_eq!(item.row_id(), Some(142));
    assert!(item.is_running());
    let bare = RunFeedItem::from_json(&json(r#"{"id": "7", "status": "success"}"#)).unwrap();
    assert_eq!(bare.row_id(), Some(7));
}

#[test]
fn row_ids_of_odd_texts() {
    let row = |id: &str| {
        RunFeedItem {
            id: id.to_string(),
            ..Default::default()
        }
        .row_id()
    };
    assert_eq!(row(""), None);
    assert_eq!(row("abc"), None);
    assert_eq!(row("a-b"), None);
    assert_eq!(row("a-"), None);
    assert_eq!(row("-5"), Some(5));
    assert_eq!(row("a-+5"), Some(5));
    assert_eq!(row("a-9223372036854775807"), Some(i64::MAX));
    assert_eq!(row("a-9223372036854775808"), None);
    assert_eq!(row("-9223372036854775808"), Some(i64::MIN));
}

#[test]
fn run_event_parses_known_and_unknown() {
    let ev = RunEvent::parse(r#"{"event":"started","run_id":9,"total_steps":4}"#);
    assert_eq!(
        ev,
        RunEvent::Started {
            run_id: 9,
            total_steps: 4
        }
    );
    assert!(!ev.is_terminal());

    let ev = RunEvent::parse(
        r#"{"event":"step","run_id":9,"index":1,"step_type":"click","status":"succeeded"}"#,
    );
    assert_eq!(ev.run_id(), Some(9));

    let ev = RunEvent::parse(r#"{"event":"finished","run_id":9,"status":"success"}"#);
    assert!(ev.is_terminal());

    let ev = RunEvent::parse(r#"{"event":"error","run_id":9,"message":"navigation failed"}"#);
    assert!(ev.is_terminal());

    let ev = RunEvent::parse(r#"{"event":"warp","run_id":9,"factor":5}"#);
    assert!(matches!(ev, RunEvent::Unknown(_)));
    assert_eq!(ev.run_id(), Some(9));
    assert!(!ev.is_terminal());

    let ev = RunEvent::parse("not json");
    assert_eq!(ev, RunEvent::Unknown(Json::Str("not json".into())));
}

#[test]
fn events_of_the_wrong_shape_are_unknown() {
    for text in [
        r#"{"event":"started","run_id":9}"#,
        r#"{"event":"started","run_id":"9","total_steps":4}"#,
        r#"{"event":"started","run_id":9,"total_steps":-1}"#,
        r#"{"event":"progress","run_id":9,"completed":1.5,"total":3}"#,
        r#"["started",9]"#,
        r#"["started",9,4,5]"#,
        r#"{"run_id":9}"#,
        "[]",
        "null",
    ] {
        assert!(
            matches!(RunEvent::parse(text), RunEvent::Unknown(_)),
            "{}",
            text
        );
    }
    assert_eq!(
        RunEvent::parse(r#"["started",9,4]"#),
        RunEvent::Started {
            run_id: 9,
            total_steps: 4
        }
    );
    assert_eq!(
        RunEvent::parse(r#"{"event":"progress","run_id":-2,"completed":1,"total":3,"more":0}"#),
        RunEvent::Progress {
            run_id: -2,
            completed: 1,
            total: 3
        }
    );
}

#[test]
fn crawl_cancel_flattens_job_and_splits_cancel_flag() {
    let c = CrawlCancel::from_json(&json(
        r#"{
            "id": 5, "name": "Dragnet: example.com", "seed_url": "https://example.com",
            "include_paths": ["^/docs"], "exclude_paths": [], "status": "stopping",
            "brand": "Dragnet", "is_terminal": false, "workflow_id": 77,
            "data_workflow_id": 77, "cancel_requested_now": true, "some_future": 1
        }"#,
    ))
    .unwrap();
    assert!(c.cancel_requested_now);
    assert_eq!(c.job.id, 5);
    assert_eq!(c.job.status, "stopping");
    assert_eq!(c.job.brand.crawl(), "Dragnet");
    assert_eq!(c.job.data_workflow_id, Some(77));
    assert_eq!(c.job.include_paths, vec!["^/docs".to_string()]);
    assert_eq!(extra(&c.job.extra, "some_future").as_i64(), Some(1));
    assert!(!c.job.extra.iter().any(|(k, _)| k == "cancel_requested_now"));
}

#[test]
fn crawl_start_params_omit_unset_fields() {
    let body = CrawlStartParams {
        url: "https://example.com".into(),
        max_depth: Some(2),
        respect_robots: Some(true),
        ..Default::default()
    }
    .to_body();
    assert_eq!(body.str_at("url"), Some("https://example.com"));
    assert_eq!(body.i64_at("max_depth"), Some(2));
    assert_eq!(body.get("respect_robots"), Some(&Json::Bool(true)));
    assert!(body.get("name").is_none());
    assert!(body.get("persona_id").is_none());
    assert!(body.get("page_budget").is_none());
    assert!(body.get("include_paths").is_none());
    assert_eq!(
        body,
        json(r#"{"url":"https://example.com","max_depth":2,"respect_robots":true}"#).sorted_as(&body)
    );
}

trait SortedAs {
    fn sorted_as(self, other: &Json) -> Json;
}

impl SortedAs for Json {
    /// The same members in the order of another object.
    fn sorted_as(self, other: &Json) -> Json {
        match (self, other) {
            (Json::Object(mut m), Json::Object(o)) => {
                m.sort_by_key(|(k, _)| o.iter().position(|(name, _)| name == k));
                Json::Object(m)
            }
            (j, _) => j,
        }
    }
}

#[test]
fn every_crawl_setting_is_sent_under_its_name() {
    let body = CrawlStartParams {
        url: "u".into(),
        name: Some("n".into()),
        extract_mode: Some("m".into()),
        extract_schema: Some(json(r#"{"a":[1]}"#)),
        persona_id: Some(-3),
        executor: Some("e".into()),
        extract_prompt: Some("p".into()),
        render_mode: Some("r".into()),
        ocr_mode: Some("o".into()),
        intent: Some("i".into()),
        include_paths: Some(vec!["a".into(), "b".into()]),
        exclude_paths: Some(vec![]),
        max_depth: Some(1),
        page_budget: Some(2),
        max_concurrent: Some(3),
        delay_ms: Some(4),
        respect_robots: Some(false),
        same_domain: Some(true),
        allow_subdomains: Some(false),
        shard_size: Some(5),
        use_residential: Some(true),
        speed: Some("s".into()),
    }
    .to_body();
    let expected = json(
        r#"{"url":"u","name":"n","extract_mode":"m","extract_schema":{"a":[1]},"persona_id":-3,
            "executor":"e","extract_prompt":"p","render_mode":"r","ocr_mode":"o","intent":"i",
            "include_paths":["a","b"],"exclude_paths":[],"max_depth":1,"page_budget":2,
            "max_concurrent":3,"delay_ms":4,"respect_robots":false,"same_domain":true,
            "allow_subdomains":false,"shard_size":5,"use_residential":true,"speed":"s"}"#,
    );
    assert_eq!(body, expected.sorted_as(&body));
}

fn upload_workflow() -> Workflow {
    Workflow::from_json(&json(
        r#"{
            "id": 1, "name": "wf",
            "steps": [
                {"id":"s1","type":"upload","config":{"file_slot":"resume","label":"Your CV"}},
                {"id":"s2","type":"upload","config":{"file_id":"file_pinned","file_name":"invoice.pdf"}},
                {"id":"s3","type":"upload","options":{"file_id":"file_rec","filename":"scan.png"}},
                {"id":"s4","type":"click","config":{"selector":".go"}}
            ]
        }"#,
    ))
    .unwrap()
}

#[test]
fn file_slots_covers_every_upload_step() {
    let slots = file_slots(&upload_workflow());
    assert_eq!(
        slots.iter().map(|s| s.slot.as_str()).collect::<Vec<_>>(),
        ["resume", "step:s2", "step:s3"]
    );
    assert!(slots[0].declared);
    assert_eq!(slots[0].default_file_id, None);
    assert_eq!(slots[0].label, "Your CV");
    assert!(!slots[1].declared);
    assert_eq!(slots[1].default_file_id.as_deref(), Some("file_pinned"));
    assert_eq!(slots[1].default_filename.as_deref(), Some("invoice.pdf"));
    assert_eq!(slots[2].default_file_id.as_deref(), Some("file_rec"));
    assert_eq!(slots[2].default_filename.as_deref(), Some("scan.png"));
}

#[test]
fn file_slots_config_wins_over_options_and_dedupes() {
    let wf = Workflow::from_json(&json(
        r#"{
            "id": 1, "name": "wf",
            "steps": [
                {"id":"a","type":"upload","config":{"file_id":"edited"},"options":{"file_id":"recorded"}},
                {"id":"b","type":"upload","config":{"file_slot":"cv"}},
                {"id":"c","type":"upload","config":{"file_slot":"cv"}}
            ]
        }"#,
    ))
    .unwrap();
    let slots = file_slots(&wf);
    assert_eq!(slots.len(), 2, "the duplicate `cv` slot collapses");
    assert_eq!(slots[0].default_file_id.as_deref(), Some("edited"));
    assert_eq!(slots[1].slot, "cv");
}

#[test]
fn file_slots_is_empty_without_uploads_and_never_panics() {
    for steps in ["[]", r#"[{"id":"x","type":"click"}]"#, r#""junk""#, "null"] {
        let wf = Workflow::from_json(&json(&format!(
            r#"{{"id":1,"name":"wf","steps": {steps}}}"#
        )))
        .unwrap();
        assert!(file_slots(&wf).is_empty());
    }
}

#[test]
fn slots_without_names_fall_back() {
    let wf = Workflow {
        steps: Some(json(
            r#"[
                {"type":"upload"},
                {"type":"upload","config":{"file_slot":"tax_form"},"options":{"is_multiple":true}},
                {"type":"upload","id":"","config":{"file_slot":"","label":""},"options":{"label":"L"}},
                7
            ]"#,
        )),
        ..Default::default()
    };
    let slots = file_slots(&wf);
    assert_eq!(slots.len(), 3);
    assert_eq!(slots[0].slot, "upload:1");
    assert_eq!(slots[0].label, "File 1");
    assert!(!slots[0].is_multiple);
    assert_eq!(slots[1].label, "tax form");
    assert!(slots[1].is_multiple && slots[1].declared);
    assert_eq!(slots[2].slot, "upload:3");
    assert_eq!(slots[2].label, "L");
}

#[test]
fn first_filled_text_wins() {
    assert_eq!(first_non_empty([None, Some(""), Some("c")]), Some("c".into()));
    assert_eq!(first_non_empty([Some("a"), Some("b"), None]), Some("a".into()));
    assert_eq!(first_non_empty([None, Some(""), None]), None);
}

#[test]
fn output_files_reads_every_envelope() {
    let captured = r#"{
        "file_id":"file_dl","filename":"report.csv","size":12,
        "content_type":"text/csv","output_key":"report"
    }"#;
    for payload in [
        format!(r#"{{"result_data": {{"output_files": [{captured}]}}}}"#),
        format!(r#"{{"output_files": [{captured}]}}"#),
        format!(r#"{{"results": {{"output_files": [{captured}]}}}}"#),
    ] {
        let files = output_files(&json(&payload));
        assert_eq!(files.len(), 1);
        assert_eq!(files[0].file_id, "file_dl");
        assert_eq!(files[0].size, 12);
        assert_eq!(files[0].output_key.as_deref(), Some("report"));
    }
}

#[test]
fn output_files_is_empty_when_nothing_captured() {
    for payload in [r#"{"result_data": {}}"#, "{}", r#""junk""#] {
        assert!(output_files(&json(payload)).is_empty());
    }
}

#[test]
fn captured_files_of_the_wrong_shape_are_passed_over() {
    let files = output_files(&json(
        r#"{"output_files": [
            {"filename":"no id"}, {"file_id":7}, {"file_id":"a","size":"big"},
            {"file_id":"b","output_key":null}, ["c","d.txt",3], "junk",
            ["e","f",1,"g","h","i"]
        ]}"#,
    ));
    assert_eq!(files.len(), 2);
    assert_eq!(files[0].file_id, "b");
    assert_eq!(files[0].filename, "");
    assert_eq!(files[0].size, 0);
    assert_eq!(files[1].file_id, "c");
    assert_eq!(files[1].filename, "d.txt");
    assert_eq!(files[1].size, 3);
}

#[test]
fn workflow_unknown_fields_land_in_extra() {
    let wf = Workflow::from_json(&json(
        r#"{"id": 5, "name": "scrape", "steps": [], "some_future_field": {"x": 1}}"#,
    ))
    .unwrap();
    assert_eq!(wf.id, 5);
    assert_eq!(
        extra(&wf.extra, "some_future_field").i64_at("x"),
        Some(1)
    );
    assert_eq!(wf.extra.len(), 1);
}

#[test]
fn fields_of_the_wrong_type_make_a_model_unreadable() {
    assert!(Workflow::from_json(&json(r#"{"id": "5"}"#)).is_none());
    assert!(Workflow::from_json(&json(r#"{"name": null}"#)).is_none());
    assert!(Workflow::from_json(&json(r#"{"credential_keys": ["a", 1]}"#)).is_none());
    assert!(Workflow::from_json(&json("[]")).is_none());
    let wf = Workflow::from_json(&json(
        r#"{"description": null, "credential_keys": ["a"], "placeholders": [1, {}], "has_login": true}"#,
    ))
    .unwrap();
    assert_eq!(wf.id, 0);
    assert_eq!(wf.description, None);
    assert_eq!(wf.credential_keys, Some(vec!["a".to_string()]));
    assert_eq!(wf.placeholders.unwrap().len(), 2);
    assert_eq!(wf.has_login, Some(true));
    assert!(RunCompleted::from_json(&json(r#"{"run_id": 1}"#)).is_none());
    let done = RunCompleted::from_json(&json(r#"{"run_id": 1, "status": "success"}"#)).unwrap();
    assert!(!done.done);
}

#[test]
fn cancel_outcomes_are_told_apart() {
    let refused = CancelOutcome::from_json(&json(
        r#"{"run_id": 3, "status": "not_running", "run_status": "success"}"#,
    ))
    .unwrap();
    assert!(!refused.cancel_requested());
    assert_eq!(refused.run_status.as_deref(), Some("success"));
    let accepted =
        CancelOutcome::from_json(&json(r#"{"run_id": 4, "status": "cancel_requested"}"#)).unwrap();
    assert!(accepted.cancel_requested());
}

#[test]
fn wrapped_envelope_with_count() {
    let page: Page<Json> =
        page_of(&json(r#"{"data": [{"id": 1}, {"id": 2}], "count": 2}"#)).unwrap();
    assert_eq!(page.len(), 2);
    assert_eq!(page.count, 2);
    assert_eq!(page.total, None);
}

#[test]
fn wrapped_envelope_with_total() {
    let page: Page<Json> =
        page_of(&json(r#"{"data": [{"id": 1}], "count": 1, "total": 41}"#)).unwrap();
    assert_eq!(page.count, 1);
    assert_eq!(page.total, Some(41));
}

#[test]
fn bare_array_synthesizes_count() {
    let page: Page<Json> = page_of(&json(r#"[{"id": 1}, {"id": 2}, {"id": 3}]"#)).unwrap();
    assert_eq!(page.count, 3);
    assert_eq!(page.total, None);
}

#[test]
fn odd_envelopes() {
    assert!(page_of(&json("{}")).is_none());
    assert!(page_of(&json(r#"{"data": 7}"#)).is_none());
    assert!(page_of(&json(r#"{"data": [], "count": -1}"#)).is_none());
    assert!(page_of(&json(r#""x""#)).is_none());
    let page = page_of(&json(r#"{"data": [1, 2], "count": null, "next": 3}"#)).unwrap();
    assert_eq!(page.count, 2);
    let empty = page_of(&json("[]")).unwrap();
    assert!(empty.is_empty());
    assert_eq!(page.iter().map(|j| j.as_i64().unwrap()).sum::<i64>(), 3);
}

#[test]
fn page_of_run_feed_items_keeps_unknown_fields() {
    let page = page_of(&json(
        r#"{
            "data": [{"id": "workflow-8", "status": "failed", "brand_new_field": true}],
            "count": 1, "total": 1
        }"#,
    ))
    .unwrap();
    let items: Vec<RunFeedItem> = page
        .iter()
        .map(|j| RunFeedItem::from_json(j).unwrap())
        .collect();
    assert_eq!(items[0].row_id(), Some(8));
    assert_eq!(
        extra(&items[0].extra, "brand_new_field"),
        &Json::Bool(true)
    );
}

#[test]
fn crawl_job_brand_accepts_string_and_object() {
    let brand = |text: &str| Brand::from_json(&json(text));
    assert_eq!(brand(r#""Dragnet""#).unwrap().crawl(), "Dragnet");
    let pair = brand(r#"{"crawl": "Dragnet", "agent": "Scout"}"#).unwrap();
    assert_eq!(pair.crawl(), "Dragnet");
    assert_eq!(pair.agent(), Some("Scout"));
    assert_eq!(brand(r#"{"crawl": "D", "agent": null}"#).unwrap().agent(), None);
    assert_eq!(brand("null").unwrap().crawl(), "");
    let read = |text: &str| writ_client::CrawlJob::from_json(&json(text)).unwrap().brand;
    assert!(matches!(read(r#"{"brand": "Dragnet"}"#), Brand::Name(n) if n == "Dragnet"));
    assert!(matches!(read(r#"{"brand": null}"#), Brand::Name(n) if n.is_empty()));
    assert!(matches!(read("{}"), Brand::Name(n) if n.is_empty()));
    assert!(
        matches!(read(r#"{"brand": {"crawl": "D"}}"#), Brand::Pair { agent: None, crawl } if crawl == "D")
    );
    assert!(brand(r#"{"agent": "Scout"}"#).is_none());
    assert!(brand("7").is_none());
    assert_eq!(Brand::default().crawl(), "");
}

#[test]
fn dataset_formats_have_names() {
    assert_eq!(DatasetFormat::Json.as_str(), "json");
    assert_eq!(DatasetFormat::Csv.as_str(), "csv");
    assert_eq!(DatasetFormat::Markdown.as_str(), "markdown");
    assert_eq!(DatasetFormat::Html.as_str(), "html");
}

#[test]
fn json_documents_are_read() {
    assert_eq!(
        json(r#"{"b":[true,null,-3,18446744073709551615,0.5,"é"],"a":{}}"#),
        Json::Object(vec![
            ("a".into(), Json::Object(vec![])),
            (
                "b".into(),
                Json::Array(vec![
                    Json::Bool(true),
                    Json::Null,
                    Json::Number(Number::NegInt(-3)),
                    Json::Number(Number::PosInt(u64::MAX)),
                    Json::Number(Number::Float(0.5f64.to_bits())),
                    Json::Str("é".into()),
                ])
            ),
        ])
    );
    assert!(parse("{").is_none());
    assert!(parse("").is_none());
    assert_eq!(json("9223372036854775808").as_i64(), None);
    assert_eq!(json("1.0").as_i64(), None);
    assert_eq!(json("-1").as_u64(), None);
    assert_eq!(json("[1]").clone(), json("[1]").copy());
}
