use writ_client::cloud_models::RecentChange;
use writ_client::time::Duration;
use writ_client::watch::{error_wait, Action, WatchOptions, Watcher, CURSOR_FLOOR};

fn rows(ids: &[i64]) -> Vec<RecentChange> {
    ids.iter()
        .map(|i| RecentChange {
            id: *i,
            target_id: 1,
            target_url: "https://a".into(),
            first_detected_at: format!("2026-08-05T00:00:0{i}Z"),
            last_detected_at: format!("2026-08-05T00:00:0{i}Z"),
            ..Default::default()
        })
        .collect()
}

#[test]
fn watch_walks_the_cursor_without_gaps_or_repeats() {
    let mut w = Watcher::new(&WatchOptions {
        page_size: 2,
        interval: Duration::from_millis(5),
        replay_history: true,
        ..WatchOptions::default()
    });
    let mut pages = vec![rows(&[5]), rows(&[3, 4]), rows(&[1, 2])];
    let mut seen = Vec::new();
    let mut asked = Vec::new();
    while seen.len() < 5 {
        match w.step() {
            Action::Deliver(row) => seen.push(row.id),
            Action::FetchPage(o) => {
                assert_eq!(o.limit, Some(2));
                asked.push((o.since.unwrap(), o.since_id.unwrap()));
                w.on_page(pages.pop().unwrap());
            }
            other => panic!("unexpected {other:?}"),
        }
    }
    assert_eq!(seen, vec![1, 2, 3, 4, 5]);
    assert_eq!(
        asked,
        vec![
            (CURSOR_FLOOR.to_string(), 0),
            ("2026-08-05T00:00:02Z".to_string(), 2),
            ("2026-08-05T00:00:04Z".to_string(), 4),
        ]
    );
}

#[test]
fn watch_starts_at_the_head_by_default() {
    let mut w = Watcher::new(&WatchOptions {
        interval: Duration::from_millis(5),
        ..WatchOptions::default()
    });
    match w.step() {
        Action::FetchHead(o) => {
            assert_eq!(o.limit, Some(1));
            assert!(o.since.is_none() && o.since_id.is_none());
        }
        other => panic!("unexpected {other:?}"),
    }
    w.on_head(&rows(&[3]));
    match w.step() {
        Action::FetchPage(o) => {
            assert_eq!(o.since.as_deref(), Some("2026-08-05T00:00:03Z"));
            assert_eq!(o.since_id, Some(3));
        }
        other => panic!("unexpected {other:?}"),
    }
    w.on_page(rows(&[]));
    assert!(matches!(w.step(), Action::Rest(d) if d == Duration::from_millis(5)));
    assert!(matches!(w.step(), Action::FetchPage(_)));
}

#[test]
fn an_empty_feed_starts_at_the_floor() {
    let mut w = Watcher::new(&WatchOptions::default());
    w.step();
    w.on_head(&vec![]);
    assert_eq!(w.since.as_deref(), Some(CURSOR_FLOOR));
    assert_eq!(w.since_id, 0);
}

#[test]
fn a_watcher_resumes_where_it_stopped() {
    let mut w = Watcher::new(&WatchOptions {
        since: Some("2026-08-05T00:00:02Z".into()),
        since_id: 2,
        replay_history: true,
        ..WatchOptions::default()
    });
    match w.step() {
        Action::FetchPage(o) => {
            assert_eq!(o.since.as_deref(), Some("2026-08-05T00:00:02Z"));
            assert_eq!(o.since_id, Some(2));
            assert_eq!(o.limit, Some(100));
        }
        other => panic!("unexpected {other:?}"),
    }
}

#[test]
fn rows_at_or_before_the_cursor_are_dropped() {
    let mut w = Watcher::new(&WatchOptions {
        since: Some("2026-08-05T00:00:02Z".into()),
        since_id: 2,
        page_size: 3,
        ..WatchOptions::default()
    });
    let mut twin = rows(&[2]);
    twin[0].id = 7;
    let mut page = rows(&[1, 2]);
    page.append(&mut twin);
    w.on_page(page);
    assert!(matches!(w.step(), Action::Deliver(row) if row.id == 7));
    assert!(matches!(w.step(), Action::FetchPage(_)));
}

#[test]
fn only_a_backlog_is_drained_at_once() {
    let mut w = Watcher::new(&WatchOptions {
        since: Some("2026-08-05T00:00:02Z".into()),
        since_id: 2,
        page_size: 2,
        ..WatchOptions::default()
    });
    let is_rest = |a: Action| matches!(a, Action::Rest(d) if d == Duration::from_secs(30));
    // Full, with something new: the next page follows at once.
    w.on_page(rows(&[3, 4]));
    assert!(matches!(w.step(), Action::Deliver(row) if row.id == 3));
    assert!(matches!(w.step(), Action::Deliver(row) if row.id == 4));
    assert!(matches!(w.step(), Action::FetchPage(_)));
    // Short, with something new: a rest once it is handed out.
    w.on_page(rows(&[5]));
    assert!(matches!(w.step(), Action::Deliver(row) if row.id == 5));
    assert!(is_rest(w.step()));
    assert!(matches!(w.step(), Action::FetchPage(_)));
    // Nothing new, full or short.
    for page in [rows(&[4, 5]), rows(&[5]), rows(&[])] {
        w.on_page(page);
        assert!(is_rest(w.step()));
        assert!(matches!(w.step(), Action::FetchPage(_)));
    }
}

#[test]
fn errors_back_off_and_leave_the_cursor() {
    let mut w = Watcher::new(&WatchOptions {
        since: Some("x".into()),
        ..WatchOptions::default()
    });
    let waits: Vec<u64> = (0..6)
        .map(|_| w.on_page_error().unwrap().as_secs())
        .collect();
    assert_eq!(waits, vec![30, 60, 120, 240, 300, 300]);
    assert_eq!(w.since.as_deref(), Some("x"));
    w.on_page(vec![]);
    assert_eq!(w.failures, 0);
}

#[test]
fn errors_end_a_watcher_that_stops_on_them() {
    let opts = WatchOptions {
        stop_on_error: true,
        ..WatchOptions::default()
    };
    let mut w = Watcher::new(&opts);
    w.step();
    assert_eq!(w.on_head_error(), None);
    assert!(matches!(w.step(), Action::End));
    let mut w = Watcher::new(&opts);
    assert_eq!(w.on_page_error(), None);
    assert!(matches!(w.step(), Action::End));
}

#[test]
fn a_failed_head_is_asked_for_again() {
    let mut w = Watcher::new(&WatchOptions::default());
    for secs in [30, 60, 120] {
        assert!(matches!(w.step(), Action::FetchHead(o) if o.limit == Some(1)));
        assert_eq!(w.on_head_error(), Some(Duration::from_secs(secs)));
        assert_eq!(w.since, None);
    }
    assert!(matches!(w.step(), Action::FetchHead(_)));
    w.on_head(&rows(&[3]));
    assert_eq!(w.failures, 0);
    assert!(matches!(w.step(), Action::FetchPage(o) if o.since_id == Some(3)));
    // Rows at or before the head are not delivered, whatever a page holds.
    w.on_page(rows(&[1, 2, 3, 4]));
    assert!(matches!(w.step(), Action::Deliver(row) if row.id == 4));
    assert!(matches!(w.step(), Action::Rest(_)));
}

#[test]
fn error_waits_are_capped_at_ten_intervals() {
    let s = Duration::from_secs;
    assert_eq!(error_wait(s(3), 0), s(3));
    assert_eq!(error_wait(s(3), 4), s(24));
    assert_eq!(error_wait(s(3), 5), s(30));
    assert_eq!(error_wait(s(3), u32::MAX), s(30));
    assert_eq!(error_wait(s(u64::MAX), 9), Duration::new(u64::MAX, 999_999_999));
}

#[test]
fn page_sizes_are_at_least_one() {
    let w = Watcher::new(&WatchOptions {
        page_size: -3,
        ..WatchOptions::default()
    });
    assert_eq!(w.page_size, 1);
}
