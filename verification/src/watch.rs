//! Watching the change feed by its cursor.
//!
//! The newest-first view with a limit drops changes whenever more than the limit land
//! between two polls, and a row is updated, not inserted again, when the same difference
//! recurs. A watcher therefore walks the server's keyset cursor, the pair of
//! `last_detected_at` and `id`, which makes "everything after this point" exact. A row
//! that resurfaces is what it is: a fresh detection with a later cursor value.

use crate::cloud_models::{ChangeListOptions, RecentChange};
use crate::retry::{doubling_factor, doublings};
use crate::text::{
    lemma_text_before_irreflexive, lemma_text_before_total, lemma_text_before_transitive,
    opt_string, text_before, text_eq, text_lt,
};
use crate::time::{min_nat, Duration, MAX_NANOS, NANOS_PER_SEC};
use std::collections::VecDeque;
use vstd::arithmetic::power2::pow2;
use vstd::prelude::*;

verus! {

broadcast use vstd::string::group_string_axioms;

/// The cursor before every row. With it a request stays in keyset order, oldest first;
/// a request without a cursor gets the newest-first view.
pub const CURSOR_FLOOR: &'static str = "1970-01-01T00:00:00+00:00";

/// Tuning of a watcher.
#[derive(Debug, Clone)]
pub struct WatchOptions {
    /// Poll cadence: a full page with something new is followed by the next page at once,
    /// to drain the backlog; every other page is followed by a rest of this length.
    pub interval: Duration,
    /// Rows per request.
    pub page_size: i64,
    /// Resume after this row: the last delivered change's `last_detected_at` and `id`.
    pub since: Option<String>,
    pub since_id: i64,
    /// Start from the beginning of the feed, not from its head. Of no effect where
    /// `since` is set.
    pub replay_history: bool,
    /// End on the first error.
    pub stop_on_error: bool,
}

impl Default for WatchOptions {
    fn default() -> (r: Self)
        ensures
            r.interval@ == 30 * NANOS_PER_SEC,
            r.page_size == 100,
            r.since is None,
            r.since_id == 0,
            !r.replay_history,
            !r.stop_on_error,
    {
        WatchOptions {
            interval: Duration::from_secs(30),
            page_size: 100,
            since: None,
            since_id: 0,
            replay_history: false,
            stop_on_error: false,
        }
    }
}

/// The wait after consecutive failures: the interval, doubled for each, up to ten of it.
pub open spec fn error_nanos(interval: nat, failures: u32) -> nat {
    min_nat(
        min_nat(interval * pow2(doublings(failures, 10)), MAX_NANOS as nat),
        min_nat(interval * 10, MAX_NANOS as nat),
    )
}

/// The wait after consecutive failures.
pub fn error_wait(interval: Duration, failures: u32) -> (r: Duration)
    ensures
        r@ == error_nanos(interval@, failures),
{
    let factor: u32 = doubling_factor(failures, 10);
    interval.saturating_mul(factor).min(&interval.saturating_mul(10))
}

/// A place in the feed.
#[verifier::ext_equal]
pub struct Cursor {
    pub at: Seq<char>,
    pub id: int,
}

/// Whether one place comes before another.
pub open spec fn precedes(a: Cursor, b: Cursor) -> bool {
    text_before(a.at, b.at) || (a.at == b.at && a.id < b.id)
}

/// The place of a row.
pub open spec fn place(row: RecentChange) -> Cursor {
    Cursor { at: row.last_detected_at@, id: row.id as int }
}

/// The place before every row.
pub open spec fn floor() -> Cursor {
    Cursor { at: CURSOR_FLOOR@, id: 0 }
}

/// Whether a row is new: not before the cursor, nor at it.
pub open spec fn is_new(row: RecentChange, cursor: Cursor) -> bool {
    !text_before(row.last_detected_at@, cursor.at) && !(row.last_detected_at@ == cursor.at
        && row.id <= cursor.id)
}

/// A row is new exactly where its place comes after the cursor.
pub proof fn lemma_new_is_after(row: RecentChange, cursor: Cursor)
    ensures
        is_new(row, cursor) == precedes(cursor, place(row)),
{
    lemma_text_before_total(row.last_detected_at@, cursor.at);
    lemma_text_before_irreflexive(cursor.at);
    if text_before(row.last_detected_at@, cursor.at) && text_before(
        cursor.at,
        row.last_detected_at@,
    ) {
        lemma_text_before_transitive(cursor.at, row.last_detected_at@, cursor.at);
    }
}

/// The order of places is transitive.
pub proof fn lemma_precedes_transitive(a: Cursor, b: Cursor, c: Cursor)
    requires
        precedes(a, b),
        precedes(b, c),
    ensures
        precedes(a, c),
{
    if text_before(a.at, b.at) && text_before(b.at, c.at) {
        lemma_text_before_transitive(a.at, b.at, c.at);
    }
}

/// The rows of a page that are new, in order.
pub open spec fn new_rows(rows: Seq<RecentChange>, cursor: Cursor) -> Seq<RecentChange>
    decreases rows.len(),
{
    if rows.len() == 0 {
        seq![]
    } else if is_new(rows.last(), cursor) {
        new_rows(rows.drop_last(), cursor).push(rows.last())
    } else {
        new_rows(rows.drop_last(), cursor)
    }
}

/// What the watcher wants done.
#[derive(Debug)]
pub enum Action {
    /// The feed has ended.
    End,
    /// Hand out this change.
    Deliver(RecentChange),
    /// Fetch the newest row, to start after it.
    FetchHead(ChangeListOptions),
    /// Fetch the next page.
    FetchPage(ChangeListOptions),
    /// Wait before the next poll.
    Rest(Duration),
}

/// A watcher. It decides; fetching, waiting and handing out is its caller's part.
#[derive(Debug)]
pub struct Watcher {
    pub interval: Duration,
    pub page_size: i64,
    pub replay: bool,
    pub stop_on_error: bool,
    /// The place after which rows are still to come.
    pub since: Option<String>,
    pub since_id: i64,
    /// Rows fetched and not yet handed out.
    pub buffered: VecDeque<RecentChange>,
    /// Consecutive failures.
    pub failures: u32,
    /// Whether the starting place was set.
    pub bootstrapped: bool,
    /// Whether a rest is due once everything is handed out.
    pub resting: bool,
    pub done: bool,
}

/// The failures after one more.
pub open spec fn one_more(failures: u32) -> u32 {
    if failures == u32::MAX {
        u32::MAX
    } else {
        (failures + 1) as u32
    }
}

/// Where a watcher opens that read this head: after its row, or at the floor where the
/// feed is empty.
pub open spec fn opening(head: Seq<RecentChange>) -> Cursor {
    if head.len() > 0 {
        place(head[0])
    } else {
        floor()
    }
}

impl Watcher {
    /// The place after which rows are still to come.
    pub open spec fn cursor(self) -> Cursor {
        Cursor {
            at: match self.since {
                Some(s) => s@,
                None => seq![],
            },
            id: self.since_id as int,
        }
    }

    /// What the options fix for good.
    pub open spec fn settings(self) -> (Duration, i64, bool, bool) {
        (self.interval, self.page_size, self.replay, self.stop_on_error)
    }

    /// A watcher before its first step.
    pub fn new(opts: &WatchOptions) -> (r: Watcher)
        ensures
            r.settings() == (
                opts.interval,
                if opts.page_size < 1 {
                    1i64
                } else {
                    opts.page_size
                },
                opts.replay_history,
                opts.stop_on_error,
            ),
            opt_string(r.since) == opt_string(opts.since),
            r.since_id == opts.since_id,
            r.buffered@ == Seq::<RecentChange>::empty(),
            r.failures == 0,
            r.bootstrapped == opts.since is Some,
            !r.resting,
            !r.done,
    {
        Watcher {
            interval: opts.interval,
            page_size: if opts.page_size < 1 {
                1
            } else {
                opts.page_size
            },
            replay: opts.replay_history,
            stop_on_error: opts.stop_on_error,
            since: opts.since.clone(),
            since_id: opts.since_id,
            buffered: VecDeque::new(),
            failures: 0,
            bootstrapped: opts.since.is_some(),
            resting: false,
            done: false,
        }
    }

    /// Whether `options` ask for the page after a place.
    pub open spec fn asks_after(self, options: ChangeListOptions, since: Option<Seq<char>>, id: int)
        -> bool {
        &&& options.limit == Some(self.page_size)
        &&& opt_string(options.since) == since
        &&& options.since_id is Some
        &&& options.since_id->0 == id
    }

    /// That the place after which rows are still to come is as it was.
    pub open spec fn stays(self, after: Watcher) -> bool {
        &&& opt_string(after.since) == opt_string(self.since)
        &&& after.since_id == self.since_id
    }

    /// What a step does: it ends a feed that is over; else hands out the first row that
    /// is waiting and moves the cursor to it; else rests where a rest is due; else sets
    /// the starting place, from the floor or by asking for the head; else asks for the
    /// page after the cursor.
    pub open spec fn stepped(self, action: Action, after: Watcher) -> bool {
        &&& after.settings() == self.settings()
        &&& after.failures == self.failures
        &&& after.done == self.done
        &&& if self.done {
            &&& action is End
            &&& self.stays(after)
            &&& after.buffered@ == self.buffered@
            &&& after.bootstrapped == self.bootstrapped
            &&& after.resting == self.resting
        } else if self.buffered@.len() > 0 {
            &&& action == Action::Deliver(self.buffered@[0])
            &&& after.cursor() == place(self.buffered@[0])
            &&& after.since is Some
            &&& after.buffered@ == self.buffered@.drop_first()
            &&& after.bootstrapped == self.bootstrapped
            &&& after.resting == self.resting
        } else if self.resting {
            &&& action == Action::Rest(self.interval)
            &&& self.stays(after)
            &&& after.buffered@ == self.buffered@
            &&& after.bootstrapped == self.bootstrapped
            &&& !after.resting
        } else if !self.bootstrapped && !self.replay {
            &&& action matches Action::FetchHead(o) && o.limit == Some(1i64) && o.since is None
                && o.since_id is None
            &&& self.stays(after)
            &&& after.buffered@ == self.buffered@
            &&& after.bootstrapped
            &&& !after.resting
        } else if !self.bootstrapped {
            &&& action matches Action::FetchPage(o) && self.asks_after(o, Some(floor().at), 0)
            &&& after.cursor() == floor()
            &&& after.since is Some
            &&& after.buffered@ == self.buffered@
            &&& after.bootstrapped
            &&& !after.resting
        } else {
            &&& action matches Action::FetchPage(o) && self.asks_after(
                o,
                opt_string(self.since),
                self.since_id as int,
            )
            &&& self.stays(after)
            &&& after.buffered@ == self.buffered@
            &&& after.bootstrapped
            &&& !after.resting
        }
    }

    /// Says what is to be done next.
    pub fn step(&mut self) -> (r: Action)
        ensures
            old(self).stepped(r, *final(self)),
    {
        if self.done {
            return Action::End;
        }
        match self.buffered.pop_front() {
            Some(row) => {
                self.since = Some(row.last_detected_at.clone());
                self.since_id = row.id;
                assert(self.buffered@ == old(self).buffered@.drop_first());
                return Action::Deliver(row);
            },
            None => {},
        }
        if self.resting {
            self.resting = false;
            return Action::Rest(self.interval);
        }
        if !self.bootstrapped {
            self.bootstrapped = true;
            if !self.replay {
                return Action::FetchHead(ChangeListOptions::limit(1));
            }
            self.set_floor();
        }
        Action::FetchPage(
            ChangeListOptions {
                limit: Some(self.page_size),
                since: self.since.clone(),
                since_id: Some(self.since_id),
            },
        )
    }

    fn set_floor(&mut self)
        ensures
            final(self).cursor() == floor(),
            final(self).since is Some,
            final(self).settings() == old(self).settings(),
            final(self).buffered@ == old(self).buffered@,
            final(self).failures == old(self).failures,
            final(self).bootstrapped == old(self).bootstrapped,
            final(self).resting == old(self).resting,
            final(self).done == old(self).done,
    {
        self.since = Some(CURSOR_FLOOR.to_owned());
        self.since_id = 0;
    }

    /// What the head of the feed does: the watcher starts after it.
    pub open spec fn headed(self, rows: Seq<RecentChange>, after: Watcher) -> bool {
        &&& after.cursor() == opening(rows)
        &&& after.since is Some
        &&& after.settings() == self.settings()
        &&& after.buffered@ == self.buffered@
        &&& after.failures == 0
        &&& after.bootstrapped
        &&& after.resting == self.resting
        &&& after.done == self.done
    }

    /// Takes the head of the feed: the watcher starts after it, or at the floor where the
    /// feed is empty.
    pub fn on_head(&mut self, rows: &Vec<RecentChange>)
        ensures
            old(self).headed(rows@, *final(self)),
    {
        self.failures = 0;
        self.bootstrapped = true;
        if rows.len() > 0 {
            self.since = Some(rows[0].last_detected_at.clone());
            self.since_id = rows[0].id;
        } else {
            self.set_floor();
        }
    }

    /// The wait after a failure, where failures do not end the watcher.
    pub open spec fn failure_wait(self, wait: Option<Duration>) -> bool {
        if self.stop_on_error {
            wait is None
        } else {
            wait matches Some(d) && d@ == error_nanos(self.interval@, one_more(self.failures))
        }
    }

    /// What a failure does: it is counted, or ends the watcher. No place is moved and
    /// nothing that was queued is lost.
    pub open spec fn failed(self, after: Watcher) -> bool {
        &&& self.stays(after)
        &&& after.settings() == self.settings()
        &&& after.buffered@ == self.buffered@
        &&& after.resting == self.resting
        &&& after.done == (self.done || self.stop_on_error)
        &&& after.failures == if self.stop_on_error {
            self.failures
        } else {
            one_more(self.failures)
        }
    }

    fn fail(&mut self) -> (r: Option<Duration>)
        ensures
            old(self).failed(*final(self)),
            old(self).failure_wait(r),
            final(self).bootstrapped == old(self).bootstrapped,
    {
        if self.stop_on_error {
            self.done = true;
            return None;
        }
        if self.failures < u32::MAX {
            self.failures = self.failures + 1;
        }
        Some(error_wait(self.interval, self.failures))
    }

    /// What a failure to fetch the head does: the starting place is still to be set, so
    /// the head is asked for again.
    pub open spec fn head_failed(self, after: Watcher) -> bool {
        self.failed(after) && !after.bootstrapped
    }

    /// Takes a failure to fetch the head. The watcher ends where errors end it; else the
    /// result is how long to wait before the error is handed out and the head is asked for
    /// again. History is not replayed on that account.
    pub fn on_head_error(&mut self) -> (r: Option<Duration>)
        ensures
            old(self).head_failed(*final(self)),
            old(self).failure_wait(r),
    {
        self.bootstrapped = false;
        self.fail()
    }

    /// What a page does: its new rows are queued, and unless it was full and brought
    /// something new, a rest is due.
    pub open spec fn paged(self, rows: Seq<RecentChange>, after: Watcher) -> bool {
        &&& after.buffered@ == self.buffered@ + new_rows(rows, self.cursor())
        &&& after.failures == 0
        &&& self.stays(after)
        &&& after.settings() == self.settings()
        &&& after.bootstrapped == self.bootstrapped
        &&& after.done == self.done
        &&& after.resting == (rows.len() != self.page_size || after.buffered@.len() == 0)
    }

    /// Takes a page: its new rows are queued. A rest is due once they are handed out,
    /// unless the page was full and more may be waiting.
    pub fn on_page(&mut self, rows: Vec<RecentChange>)
        ensures
            old(self).paged(rows@, *final(self)),
    {
        self.failures = 0;
        let full: bool = rows.len() as i128 == self.page_size as i128;
        let cursor: String = match &self.since {
            Some(s) => s.clone(),
            None => String::new(),
        };
        let ghost at = self.cursor();
        let ghost all = rows@;
        let ghost before = *self;
        assert(all.take(0).len() == 0);
        assert(self.buffered@ + Seq::<RecentChange>::empty() == self.buffered@);
        for row in it: rows
            invariant
                it.seq() == all,
                at == before.cursor(),
                cursor@ == at.at,
                self.buffered@ == before.buffered@ + new_rows(all.take(it.index()), at),
                self.since == before.since,
                self.since_id == before.since_id,
                self.settings() == before.settings(),
                self.failures == 0,
                self.bootstrapped == before.bootstrapped,
                self.done == before.done,
        {
            let ghost upto = all.take(it.index() + 1);
            assert(upto.drop_last() == all.take(it.index()));
            assert(upto.last() == row);
            let old_row: bool = text_lt(row.last_detected_at.as_str(), cursor.as_str()) || (text_eq(
                row.last_detected_at.as_str(),
                cursor.as_str(),
            ) && row.id <= self.since_id);
            if !old_row {
                self.buffered.push_back(row);
                assert(self.buffered@ == before.buffered@ + new_rows(upto, at));
            }
        }
        assert(all.take(all.len() as int) == all);
        self.resting = !full || self.buffered.len() == 0;
    }

    /// What a failure to fetch a page does.
    pub open spec fn page_failed(self, after: Watcher) -> bool {
        self.failed(after) && after.bootstrapped == self.bootstrapped
    }

    /// Takes a failure to fetch a page. The watcher ends where errors end it; else the
    /// result is how long to wait before the error is handed out and polling goes on. The
    /// cursor stays, so nothing is missed.
    pub fn on_page_error(&mut self) -> (r: Option<Duration>)
        ensures
            old(self).page_failed(*final(self)),
            old(self).failure_wait(r),
    {
        self.fail()
    }
}

/// Rows in the order of the feed: each place before the next.
pub open spec fn ascending(rows: Seq<RecentChange>) -> bool {
    forall|i: int, j: int|
        0 <= i < j < rows.len() ==> precedes(place(#[trigger] rows[i]), place(#[trigger] rows[j]))
}

/// What waits to be handed out is in the order of the feed and comes after the cursor.
pub open spec fn in_order(w: Watcher) -> bool {
    &&& ascending(w.buffered@)
    &&& forall|i: int|
        0 <= i < w.buffered@.len() ==> precedes(w.cursor(), place(#[trigger] w.buffered@[i]))
}

/// A page of the feed holds its new rows and no others, each as it was.
pub proof fn law_new_rows_are_those_after_the_cursor(rows: Seq<RecentChange>, cursor: Cursor)
    ensures
        forall|row: RecentChange|
            #[trigger] new_rows(rows, cursor).contains(row) <==> rows.contains(row) && precedes(
                cursor,
                place(row),
            ),
    decreases rows.len(),
{
    if rows.len() > 0 {
        let init = rows.drop_last();
        let kept = new_rows(init, cursor);
        law_new_rows_are_those_after_the_cursor(init, cursor);
        lemma_new_is_after(rows.last(), cursor);
        assert forall|row: RecentChange| #[trigger]
            new_rows(rows, cursor).contains(row) <==> rows.contains(row) && precedes(
            cursor,
            place(row),
        ) by {
            assert(rows == init.push(rows.last()));
            if new_rows(rows, cursor).contains(row) {
                let i = choose|i: int|
                    0 <= i < new_rows(rows, cursor).len() && new_rows(rows, cursor)[i] == row;
                if i < kept.len() {
                    assert(kept[i] == row);
                    assert(kept.contains(row));
                    let j = choose|j: int| 0 <= j < init.len() && init[j] == row;
                    assert(rows[j] == row);
                } else {
                    assert(rows[rows.len() - 1] == row);
                }
            }
            if rows.contains(row) && precedes(cursor, place(row)) {
                let j = choose|j: int| 0 <= j < rows.len() && rows[j] == row;
                if j < init.len() {
                    assert(init[j] == row);
                    assert(kept.contains(row));
                    let i = choose|i: int| 0 <= i < kept.len() && kept[i] == row;
                    assert(new_rows(rows, cursor)[i] == row);
                } else {
                    assert(new_rows(rows, cursor)[kept.len() as int] == row);
                }
            }
        }
    }
}

/// Taking a page of the feed into an empty queue leaves the queue in order: a page in
/// the order of the feed loses its old rows and nothing else.
pub proof fn law_pages_keep_the_order(rows: Seq<RecentChange>, cursor: Cursor)
    requires
        ascending(rows),
    ensures
        ascending(new_rows(rows, cursor)),
        forall|i: int|
            0 <= i < new_rows(rows, cursor).len() ==> precedes(
                cursor,
                place(#[trigger] new_rows(rows, cursor)[i]),
            ),
    decreases rows.len(),
{
    if rows.len() > 0 {
        let init = rows.drop_last();
        let kept = new_rows(init, cursor);
        let now = new_rows(rows, cursor);
        assert(ascending(init)) by {
            assert forall|i: int, j: int| 0 <= i < j < init.len() implies precedes(
                place(#[trigger] init[i]),
                place(#[trigger] init[j]),
            ) by {
                assert(rows[i] == init[i] && rows[j] == init[j]);
            }
        }
        law_pages_keep_the_order(init, cursor);
        law_new_rows_are_those_after_the_cursor(init, cursor);
        lemma_new_is_after(rows.last(), cursor);
        assert forall|i: int, j: int| 0 <= i < j < now.len() implies precedes(
            place(#[trigger] now[i]),
            place(#[trigger] now[j]),
        ) by {
            assert(now[i] == kept[i]);
            if j < kept.len() {
                assert(now[j] == kept[j]);
            } else {
                assert(kept.contains(kept[i]));
                let k = choose|k: int| 0 <= k < init.len() && init[k] == kept[i];
                assert(rows[k] == kept[i]);
                assert(now[j] == rows[rows.len() - 1]);
            }
        }
        assert forall|i: int| 0 <= i < now.len() implies precedes(
            cursor,
            place(#[trigger] now[i]),
        ) by {
            if i < kept.len() {
                assert(now[i] == kept[i]);
            }
        }
    }
}

/// Delivery strictly advances: from a queue in order, each change handed out comes after
/// the cursor, the cursor moves to it, and the queue stays in order. So no change is
/// handed out twice.
pub proof fn law_delivery_advances(before: Watcher, action: Action, after: Watcher)
    requires
        in_order(before),
        before.stepped(action, after),
        action is Deliver,
    ensures
        precedes(before.cursor(), place(action->Deliver_0)),
        after.cursor() == place(action->Deliver_0),
        in_order(after),
{
    let row = before.buffered@[0];
    assert forall|i: int| 0 <= i < after.buffered@.len() implies precedes(
        after.cursor(),
        place(#[trigger] after.buffered@[i]),
    ) by {
        assert(after.buffered@[i] == before.buffered@[i + 1]);
    }
    assert forall|i: int, j: int| 0 <= i < j < after.buffered@.len() implies precedes(
        place(#[trigger] after.buffered@[i]),
        place(#[trigger] after.buffered@[j]),
    ) by {
        assert(after.buffered@[i] == before.buffered@[i + 1]);
        assert(after.buffered@[j] == before.buffered@[j + 1]);
    }
}

/// Steps of one watcher, one after the other.
pub open spec fn is_trace(states: Seq<Watcher>, actions: Seq<Action>) -> bool {
    &&& states.len() == actions.len() + 1
    &&& forall|i: int|
        0 <= i < actions.len() ==> (#[trigger] states[i]).stepped(actions[i], states[i + 1])
}

proof fn lemma_trace_drains(states: Seq<Watcher>, actions: Seq<Action>, n: int)
    requires
        is_trace(states, actions),
        !states[0].done,
        0 <= n <= actions.len(),
        n <= states[0].buffered@.len(),
    ensures
        !states[n].done,
        states[n].buffered@ == states[0].buffered@.skip(n),
        states[n].resting == states[0].resting,
        states[n].settings() == states[0].settings(),
        n > 0 ==> states[n].cursor() == place(states[0].buffered@[n - 1]),
        forall|i: int|
            0 <= i < n ==> #[trigger] actions[i] == Action::Deliver(states[0].buffered@[i]),
    decreases n,
{
    let queue = states[0].buffered@;
    if n > 0 {
        lemma_trace_drains(states, actions, n - 1);
        assert(states[n - 1].stepped(actions[n - 1], states[n]));
        assert(queue.skip(n - 1)[0] == queue[n - 1]);
        assert(queue.skip(n - 1).drop_first() == queue.skip(n));
    } else {
        assert(queue.skip(0) == queue);
    }
}

/// What was queued is handed out in order, whole, before anything else is done, and the
/// cursor ends at its last row.
pub proof fn law_the_queue_is_drained_first(states: Seq<Watcher>, actions: Seq<Action>)
    requires
        is_trace(states, actions),
        !states[0].done,
        actions.len() == states[0].buffered@.len(),
    ensures
        forall|i: int|
            0 <= i < actions.len() ==> #[trigger] actions[i] == Action::Deliver(
                states[0].buffered@[i],
            ),
        states.last().buffered@.len() == 0,
        actions.len() > 0 ==> states.last().cursor() == place(states[0].buffered@.last()),
{
    lemma_trace_drains(states, actions, actions.len() as int);
}

/// Where a rest is due, the watcher hands out what is queued, rests for the interval, and
/// only then asks for anything: a watcher does not poll faster than its interval once the
/// backlog is drained.
pub proof fn law_the_cadence_is_kept(states: Seq<Watcher>, actions: Seq<Action>)
    requires
        is_trace(states, actions),
        !states[0].done,
        states[0].resting,
        actions.len() == states[0].buffered@.len() + 1,
    ensures
        forall|i: int|
            0 <= i < actions.len() - 1 ==> #[trigger] actions[i] == Action::Deliver(
                states[0].buffered@[i],
            ),
        actions.last() == Action::Rest(states[0].interval),
        !states.last().resting,
{
    let n = actions.len() - 1;
    lemma_trace_drains(states, actions, n);
    assert(states[n].buffered@.len() == 0);
    assert(states[n].stepped(actions[n], states[n + 1]));
}

/// A rest is due after every page but a full one that brought something new.
pub proof fn law_only_a_backlog_is_drained_at_once(
    before: Watcher,
    rows: Seq<RecentChange>,
    after: Watcher,
)
    requires
        before.paged(rows, after),
        !after.resting,
    ensures
        rows.len() == before.page_size,
        after.buffered@.len() > 0,
{
}

/// In a feed in order, the rows after a place are its end from some row on.
proof fn lemma_rest_is_a_suffix(feed: Seq<RecentChange>, cursor: Cursor) -> (j: int)
    requires
        ascending(feed),
    ensures
        0 <= j <= feed.len(),
        new_rows(feed, cursor) == feed.skip(j),
        forall|i: int| 0 <= i < j ==> !is_new(#[trigger] feed[i], cursor),
        forall|i: int| j <= i < feed.len() ==> is_new(#[trigger] feed[i], cursor),
    decreases feed.len(),
{
    if feed.len() == 0 {
        assert(feed.skip(0) == Seq::<RecentChange>::empty());
        0
    } else {
        let init = feed.drop_last();
        let last = feed.last();
        assert(ascending(init)) by {
            assert forall|i: int, k: int| 0 <= i < k < init.len() implies precedes(
                place(#[trigger] init[i]),
                place(#[trigger] init[k]),
            ) by {
                assert(feed[i] == init[i] && feed[k] == init[k]);
            }
        }
        let j = lemma_rest_is_a_suffix(init, cursor);
        assert forall|i: int| 0 <= i < init.len() implies feed[i] == init[i] by {}
        if is_new(last, cursor) {
            assert(init.skip(j).push(last) == feed.skip(j));
            assert forall|i: int| 0 <= i < j implies !is_new(#[trigger] feed[i], cursor) by {
                assert(feed[i] == init[i]);
            }
            assert forall|i: int| j <= i < feed.len() implies is_new(
                #[trigger] feed[i],
                cursor,
            ) by {
                if i < init.len() {
                    assert(feed[i] == init[i]);
                }
            }
            j
        } else {
            if j < init.len() {
                assert(is_new(init[j], cursor));
                lemma_new_is_after(init[j], cursor);
                assert(feed[j] == init[j] && feed[feed.len() - 1] == last);
                lemma_precedes_transitive(cursor, place(init[j]), place(last));
                lemma_new_is_after(last, cursor);
            }
            assert(init.skip(j) == Seq::<RecentChange>::empty());
            assert(feed.skip(feed.len() as int) == Seq::<RecentChange>::empty());
            assert forall|i: int| 0 <= i < feed.len() implies !is_new(
                #[trigger] feed[i],
                cursor,
            ) by {
                if i < init.len() {
                    assert(feed[i] == init[i]);
                }
            }
            feed.len() as int
        }
    }
}

/// The page that a server with this feed answers with: the first rows after the cursor.
pub open spec fn page_after(feed: Seq<RecentChange>, cursor: Cursor, limit: nat) -> Seq<
    RecentChange,
> {
    let rest = new_rows(feed, cursor);
    if rest.len() <= limit {
        rest
    } else {
        rest.take(limit as int)
    }
}

/// No gaps and no repeats between pages: every row of a page is new, and what comes after
/// the page's last row is exactly what was left of the feed.
pub proof fn law_pages_cover_the_feed(feed: Seq<RecentChange>, cursor: Cursor, limit: nat)
    requires
        ascending(feed),
        limit > 0,
    ensures
        ({
            let page = page_after(feed, cursor, limit);
            &&& new_rows(page, cursor) == page
            &&& ascending(page)
            &&& new_rows(feed, cursor).len() > 0 ==> page.len() > 0
            &&& page.len() > 0 ==> new_rows(feed, cursor) == page + new_rows(
                feed,
                place(page.last()),
            )
        }),
{
    let page = page_after(feed, cursor, limit);
    let rest = new_rows(feed, cursor);
    let j = lemma_rest_is_a_suffix(feed, cursor);
    let k = page.len() as int;
    assert forall|i: int| 0 <= i < page.len() implies page[i] == feed[j + i] by {}
    assert(ascending(page)) by {
        assert forall|a: int, b: int| 0 <= a < b < page.len() implies precedes(
            place(#[trigger] page[a]),
            place(#[trigger] page[b]),
        ) by {
            assert(page[a] == feed[j + a] && page[b] == feed[j + b]);
        }
    }
    lemma_all_new(page, cursor);
    if k > 0 {
        let last = feed[j + k - 1];
        assert(page.last() == last);
        let m = lemma_rest_is_a_suffix(feed, place(last));
        assert(m == j + k) by {
            lemma_new_is_after(last, place(last));
            lemma_text_before_irreflexive(last.last_detected_at@);
            if m < j + k {
                assert(is_new(feed[j + k - 1], place(last)));
            }
            if m > j + k {
                assert(precedes(place(feed[j + k - 1]), place(feed[j + k])));
                lemma_new_is_after(feed[j + k], place(last));
            }
        }
        assert(rest == page + feed.skip(j + k));
    }
}

proof fn lemma_all_new(rows: Seq<RecentChange>, cursor: Cursor)
    requires
        forall|i: int| 0 <= i < rows.len() ==> is_new(#[trigger] rows[i], cursor),
    ensures
        new_rows(rows, cursor) == rows,
    decreases rows.len(),
{
    if rows.len() > 0 {
        let init = rows.drop_last();
        assert forall|i: int| 0 <= i < init.len() implies is_new(#[trigger] init[i], cursor) by {
            assert(init[i] == rows[i]);
        }
        lemma_all_new(init, cursor);
        assert(init.push(rows.last()) == rows);
    } else {
        assert(rows == Seq::<RecentChange>::empty());
    }
}

/// What is handed out over a number of pages.
pub open spec fn walked(feed: Seq<RecentChange>, cursor: Cursor, limit: nat, pages: nat) -> Seq<
    RecentChange,
>
    decreases pages,
{
    let page = page_after(feed, cursor, limit);
    if pages == 0 || page.len() == 0 {
        seq![]
    } else {
        page + walked(feed, place(page.last()), limit, (pages - 1) as nat)
    }
}

/// A watcher walks the feed without gaps or repeats: after enough pages, what was handed
/// out is everything after the starting place, in the order of the feed.
pub proof fn law_the_whole_feed_is_walked(
    feed: Seq<RecentChange>,
    cursor: Cursor,
    limit: nat,
    pages: nat,
)
    requires
        ascending(feed),
        limit > 0,
        pages >= new_rows(feed, cursor).len(),
    ensures
        walked(feed, cursor, limit, pages) == new_rows(feed, cursor),
    decreases pages,
{
    law_pages_cover_the_feed(feed, cursor, limit);
    let page = page_after(feed, cursor, limit);
    if page.len() > 0 {
        law_the_whole_feed_is_walked(feed, place(page.last()), limit, (pages - 1) as nat);
    } else {
        assert(new_rows(feed, cursor) == Seq::<RecentChange>::empty());
    }
}

/// A watcher that resumes after a delivered change asks for exactly what the watcher that
/// delivered it asks for, once that one has rested where a rest was due.
pub proof fn law_resuming_asks_for_the_same(
    running: Watcher,
    resumed: Watcher,
    a: Action,
    b: Action,
    running_after: Watcher,
    resumed_after: Watcher,
)
    requires
        !running.done,
        running.buffered@.len() == 0,
        running.bootstrapped,
        !running.resting,
        running.since is Some,
        !resumed.done,
        resumed.buffered@.len() == 0,
        resumed.bootstrapped,
        !resumed.resting,
        resumed.since is Some,
        resumed.page_size == running.page_size,
        resumed.cursor() == running.cursor(),
        running.stepped(a, running_after),
        resumed.stepped(b, resumed_after),
    ensures
        a is FetchPage,
        b is FetchPage,
        a->FetchPage_0.limit == b->FetchPage_0.limit,
        opt_string(a->FetchPage_0.since) == opt_string(b->FetchPage_0.since),
        a->FetchPage_0.since_id == b->FetchPage_0.since_id,
{
}

/// One turn of a watcher: a step, or what came of the fetch that it asked for.
pub enum Turn {
    Step(Action),
    Head(Seq<RecentChange>),
    HeadError,
    Page(Seq<RecentChange>),
    PageError,
}

/// What a turn makes of a watcher.
pub open spec fn turned(before: Watcher, turn: Turn, after: Watcher) -> bool {
    match turn {
        Turn::Step(action) => before.stepped(action, after),
        Turn::Head(rows) => before.headed(rows, after),
        Turn::HeadError => before.head_failed(after),
        Turn::Page(rows) => before.paged(rows, after),
        Turn::PageError => before.page_failed(after),
    }
}

/// Whether a turn asks for the head.
pub open spec fn asks_head(turn: Turn) -> bool {
    turn matches Turn::Step(action) && action is FetchHead
}

/// Whether a turn asks for a page.
pub open spec fn asks_page(turn: Turn) -> bool {
    turn matches Turn::Step(action) && action is FetchPage
}

/// Whether one turn may follow another: what was asked for comes or fails, and nothing
/// comes that was not asked for.
pub open spec fn follows(turn: Turn, next: Turn) -> bool {
    &&& (next is Head || next is HeadError) <==> asks_head(turn)
    &&& (next is Page || next is PageError) <==> asks_page(turn)
}

/// That the turn with number `i` makes of one state the next.
pub open spec fn turned_at(states: Seq<Watcher>, turns: Seq<Turn>, i: int) -> bool {
    turned(states[i], turns[i], states[i + 1])
}

/// That the turn with number `i` may follow the one before.
pub open spec fn follows_at(turns: Seq<Turn>, i: int) -> bool {
    follows(turns[i - 1], turns[i])
}

/// The turns of one watcher, from its first step on.
pub open spec fn is_run(states: Seq<Watcher>, turns: Seq<Turn>) -> bool {
    &&& states.len() == turns.len() + 1
    &&& turns.len() > 0 ==> turns[0] is Step
    &&& forall|i: int| 0 <= i < turns.len() ==> #[trigger] turned_at(states, turns, i)
    &&& forall|i: int| 0 < i < turns.len() ==> #[trigger] follows_at(turns, i)
}

/// A watcher before its first step, without a saved place and with replay off.
pub open spec fn is_fresh(w: Watcher) -> bool {
    &&& !w.bootstrapped
    &&& !w.replay
    &&& !w.resting
    &&& w.buffered@.len() == 0
}

/// Whether one place is not before another.
pub open spec fn reaches(a: Cursor, b: Cursor) -> bool {
    a == b || precedes(b, a)
}

/// That the turn with number `h` is the first head that was read.
pub open spec fn is_first_head(turns: Seq<Turn>, h: int) -> bool {
    &&& 0 <= h < turns.len()
    &&& turns[h] is Head
    &&& forall|i: int| 0 <= i < h ==> !(#[trigger] turns[i] is Head)
}

/// What holds of a fresh watcher after `n` turns of which none was a head.
proof fn lemma_before_the_head(states: Seq<Watcher>, turns: Seq<Turn>, n: int)
    requires
        is_run(states, turns),
        is_fresh(states[0]),
        0 <= n <= turns.len(),
        forall|i: int| 0 <= i < n ==> !(#[trigger] turns[i] is Head),
    ensures
        !states[n].replay,
        !states[n].resting,
        states[n].buffered@.len() == 0,
        states[n].bootstrapped ==> n > 0 && asks_head(turns[n - 1]),
        n > 0 ==> !asks_page(turns[n - 1]),
        forall|i: int| 0 <= i < n ==> !(#[trigger] turns[i] matches Turn::Step(a) && a is Deliver),
    decreases n,
{
    if n > 0 {
        lemma_before_the_head(states, turns, n - 1);
        assert(turned_at(states, turns, n - 1));
        if n > 1 {
            assert(follows_at(turns, n - 1));
        }
    }
}

/// What holds of a fresh watcher after the first head was read.
proof fn lemma_after_the_head(states: Seq<Watcher>, turns: Seq<Turn>, h: int, n: int)
    requires
        is_run(states, turns),
        is_fresh(states[0]),
        is_first_head(turns, h),
        h < n <= turns.len(),
    ensures
        ({
            let base = opening(turns[h]->Head_0);
            &&& states[n].bootstrapped
            &&& !asks_head(turns[n - 1])
            &&& reaches(states[n].cursor(), base)
            &&& forall|i: int|
                0 <= i < states[n].buffered@.len() ==> precedes(
                    base,
                    place(#[trigger] states[n].buffered@[i]),
                )
        }),
    decreases n,
{
    let base = opening(turns[h]->Head_0);
    let before = states[n - 1];
    let after = states[n];
    assert(turned_at(states, turns, n - 1));
    if n == h + 1 {
        lemma_before_the_head(states, turns, h);
    } else {
        lemma_after_the_head(states, turns, h, n - 1);
        assert(follows_at(turns, n - 1));
        match turns[n - 1] {
            Turn::Step(action) => {
                if action is Deliver {
                    assert(precedes(base, place(before.buffered@[0])));
                    assert forall|i: int| 0 <= i < after.buffered@.len() implies precedes(
                        base,
                        place(#[trigger] after.buffered@[i]),
                    ) by {
                        assert(after.buffered@[i] == before.buffered@[i + 1]);
                    }
                } else {
                    assert(before.stays(after));
                }
            },
            Turn::Page(rows) => {
                let fresh = new_rows(rows, before.cursor());
                law_new_rows_are_those_after_the_cursor(rows, before.cursor());
                assert forall|i: int| 0 <= i < after.buffered@.len() implies precedes(
                    base,
                    place(#[trigger] after.buffered@[i]),
                ) by {
                    let k = before.buffered@.len() as int;
                    if i < k {
                        assert(after.buffered@[i] == before.buffered@[i]);
                    } else {
                        assert(after.buffered@[i] == fresh[i - k]);
                        assert(fresh.contains(fresh[i - k]));
                        if before.cursor() != base {
                            lemma_precedes_transitive(
                                base,
                                before.cursor(),
                                place(fresh[i - k]),
                            );
                        }
                    }
                }
            },
            _ => {},
        }
    }
}

/// A watcher without a saved place and with replay off opens at the head of the feed,
/// whatever fails on the way: nothing is delivered before a head was read, and nothing at
/// or before the first head that was read is ever delivered.
pub proof fn law_fresh_watchers_open_at_the_head(
    states: Seq<Watcher>,
    turns: Seq<Turn>,
    k: int,
    row: RecentChange,
) -> (h: int)
    requires
        is_run(states, turns),
        is_fresh(states[0]),
        0 <= k < turns.len(),
        turns[k] == Turn::Step(Action::Deliver(row)),
    ensures
        is_first_head(turns, h),
        h < k,
        precedes(opening(turns[h]->Head_0), place(row)),
{
    if forall|i: int| 0 <= i < k ==> !(#[trigger] turns[i] is Head) {
        lemma_before_the_head(states, turns, k);
        assert(turned_at(states, turns, k));
        0
    } else {
        let h = lemma_first_head(turns, k);
        lemma_after_the_head(states, turns, h, k);
        assert(turned_at(states, turns, k));
        assert(states[k].buffered@[0] == row);
        h
    }
}

proof fn lemma_first_head(turns: Seq<Turn>, k: int) -> (h: int)
    requires
        0 <= k <= turns.len(),
        exists|i: int| 0 <= i < k && #[trigger] turns[i] is Head,
    ensures
        is_first_head(turns, h),
        h < k,
    decreases k,
{
    if exists|i: int| 0 <= i < k - 1 && #[trigger] turns[i] is Head {
        lemma_first_head(turns, k - 1)
    } else {
        k - 1
    }
}

/// A watcher before its first step.
pub open spec fn is_unstarted(w: Watcher) -> bool {
    !w.resting && w.buffered@.len() == 0
}

/// Whether a run of a watcher opens at a place: the saved one, the floor where history is
/// replayed, else that of the first head that was read.
pub open spec fn opens_at(w: Watcher, turns: Seq<Turn>, start: Cursor) -> bool {
    if w.bootstrapped {
        start == w.cursor()
    } else if w.replay {
        start == floor()
    } else {
        exists|h: int|
            #[trigger] is_first_head(turns, h) && start == opening(turns[h]->Head_0)
    }
}

/// Whether the starting place is set after `n` turns.
pub open spec fn is_open(states: Seq<Watcher>, turns: Seq<Turn>, n: int) -> bool {
    states[n].bootstrapped && !(n > 0 && asks_head(turns[n - 1]))
}

/// The rows handed out in the first `n` turns, in order.
pub open spec fn delivered(turns: Seq<Turn>, n: int) -> Seq<RecentChange>
    decreases n,
{
    if n <= 0 {
        seq![]
    } else {
        match turns[n - 1] {
            Turn::Step(Action::Deliver(row)) => delivered(turns, n - 1).push(row),
            _ => delivered(turns, n - 1),
        }
    }
}

/// What the pages of the first `n` turns gave after the cursor that each was asked for
/// with, page after page.
pub open spec fn gathered(states: Seq<Watcher>, turns: Seq<Turn>, n: int) -> Seq<RecentChange>
    decreases n,
{
    if n <= 0 {
        seq![]
    } else {
        match turns[n - 1] {
            Turn::Page(rows) => gathered(states, turns, n - 1) + new_rows(
                rows,
                states[n - 1].cursor(),
            ),
            _ => gathered(states, turns, n - 1),
        }
    }
}

/// What a run has come to after `n` turns.
pub open spec fn has_come_to(
    states: Seq<Watcher>,
    turns: Seq<Turn>,
    start: Cursor,
    n: int,
) -> bool {
    let out = delivered(turns, n);
    if is_open(states, turns, n) {
        &&& gathered(states, turns, n) == out + states[n].buffered@
        &&& states[n].cursor() == if out.len() > 0 {
            place(out.last())
        } else {
            start
        }
        &&& n > 0 && asks_page(turns[n - 1]) ==> states[n].buffered@.len() == 0
    } else {
        &&& out.len() == 0
        &&& gathered(states, turns, n).len() == 0
        &&& states[n].buffered@.len() == 0
        &&& !states[n].resting
        &&& n > 0 ==> !asks_page(turns[n - 1])
    }
}

/// What a run has come to; and once open, it stays open.
proof fn lemma_run_step(states: Seq<Watcher>, turns: Seq<Turn>, start: Cursor, n: int)
    requires
        is_run(states, turns),
        is_unstarted(states[0]),
        opens_at(states[0], turns, start),
        0 <= n <= turns.len(),
    ensures
        has_come_to(states, turns, start, n),
        states[n].settings() == states[0].settings(),
        n > 0 && is_open(states, turns, n - 1) ==> is_open(states, turns, n),
        states[0].bootstrapped ==> is_open(states, turns, n),
        n > 0 && asks_head(turns[n - 1]) ==> !states[0].replay && !states[0].bootstrapped,
        !is_open(states, turns, n) ==> forall|i: int| 0 <= i < n ==> !(#[trigger] turns[i] is Head),
    decreases n,
{
    if n > 0 {
        lemma_run_step(states, turns, start, n - 1);
        let before = states[n - 1];
        let after = states[n];
        let turn = turns[n - 1];
        let out = delivered(turns, n - 1);
        assert(turned_at(states, turns, n - 1));
        assert(before.replay == states[0].replay);
        if n > 1 {
            assert(follows_at(turns, n - 1));
        }
        match turn {
            Turn::Step(action) => {
                if let Action::Deliver(row) = action {
                    assert(delivered(turns, n) == out.push(row));
                    assert(before.buffered@ == seq![row] + after.buffered@);
                    assert(out + before.buffered@ == delivered(turns, n) + after.buffered@);
                } else {
                    assert(delivered(turns, n) == out);
                    if !is_open(states, turns, n - 1) {
                        assert(out + after.buffered@ == gathered(states, turns, n));
                    }
                }
            },
            Turn::Head(rows) => {
                let h = choose|h: int|
                    #[trigger] is_first_head(turns, h) && start == opening(turns[h]->Head_0);
                assert(!is_open(states, turns, n - 1));
                assert(is_first_head(turns, h));
                assert(h == n - 1) by {
                    if h < n - 1 {
                        assert(turns[h] is Head);
                    }
                    if n - 1 < h {
                        assert(turns[n - 1] is Head);
                    }
                }
                assert(out + after.buffered@ == gathered(states, turns, n));
            },
            Turn::Page(rows) => {
                let fresh = new_rows(rows, before.cursor());
                assert(before.buffered@ + fresh == fresh);
                assert(out + before.buffered@ == out);
                assert(gathered(states, turns, n) == out + fresh);
            },
            _ => {},
        }
    } else {
        assert(delivered(turns, 0) + states[0].buffered@ == Seq::<RecentChange>::empty());
    }
}

/// The pages of a run, each in the order of the feed.
pub open spec fn pages_ascend(turns: Seq<Turn>) -> bool {
    forall|i: int|
        0 <= i < turns.len() ==> (#[trigger] turns[i] matches Turn::Page(rows) ==> ascending(rows))
}

proof fn lemma_run_advances(states: Seq<Watcher>, turns: Seq<Turn>, start: Cursor, n: int)
    requires
        is_run(states, turns),
        is_unstarted(states[0]),
        opens_at(states[0], turns, start),
        pages_ascend(turns),
        0 <= n <= turns.len(),
    ensures
        has_come_to(states, turns, start, n),
        ascending(delivered(turns, n)),
        forall|i: int|
            0 <= i < delivered(turns, n).len() ==> precedes(
                start,
                place(#[trigger] delivered(turns, n)[i]),
            ),
        in_order(states[n]),
    decreases n,
{
    lemma_run_step(states, turns, start, n);
    if n > 0 {
        lemma_run_step(states, turns, start, n - 1);
        lemma_run_advances(states, turns, start, n - 1);
        let before = states[n - 1];
        let after = states[n];
        let out = delivered(turns, n - 1);
        assert(turned_at(states, turns, n - 1));
        if n > 1 {
            assert(follows_at(turns, n - 1));
        }
        match turns[n - 1] {
            Turn::Step(action) => {
                if let Action::Deliver(row) = action {
                    law_delivery_advances(before, action, after);
                    let now = delivered(turns, n);
                    assert(now == out.push(row));
                    assert(is_open(states, turns, n - 1));
                    assert forall|i: int, j: int| 0 <= i < j < now.len() implies precedes(
                        place(#[trigger] now[i]),
                        place(#[trigger] now[j]),
                    ) by {
                        assert(now[i] == out[i]);
                        if j < out.len() {
                            assert(now[j] == out[j]);
                        } else {
                            let k = out.len() - 1;
                            assert(before.cursor() == place(out[k]));
                            if i < k {
                                assert(precedes(place(out[i]), place(out[k])));
                                lemma_precedes_transitive(
                                    place(out[i]),
                                    place(out[k]),
                                    place(row),
                                );
                            }
                        }
                    }
                    assert forall|i: int| 0 <= i < now.len() implies precedes(
                        start,
                        place(#[trigger] now[i]),
                    ) by {
                        if i < out.len() {
                            assert(now[i] == out[i]);
                        } else if out.len() > 0 {
                            let k = out.len() - 1;
                            assert(precedes(start, place(out[k])));
                            lemma_precedes_transitive(start, place(out[k]), place(row));
                        }
                    }
                } else {
                    assert(delivered(turns, n) == out);
                    if after.buffered@.len() > 0 {
                        assert(before.stays(after));
                    }
                }
            },
            Turn::Page(rows) => {
                law_pages_keep_the_order(rows, before.cursor());
                assert(after.buffered@ == new_rows(rows, before.cursor()));
            },
            _ => {},
        }
    }
}

/// What a watcher hands out, over any run of it: where pages come in the order of the
/// feed, the rows advance strictly from the opening place on, so none comes twice. They
/// are, with what still waits, exactly what the pages gave after that place, in order.
/// Before the watcher is open it hands out nothing.
pub proof fn law_runs_advance_strictly(states: Seq<Watcher>, turns: Seq<Turn>, start: Cursor)
    requires
        is_run(states, turns),
        is_unstarted(states[0]),
        opens_at(states[0], turns, start),
        pages_ascend(turns),
    ensures
        ({
            let n = turns.len() as int;
            let out = delivered(turns, n);
            &&& ascending(out)
            &&& forall|i: int|
                0 <= i < out.len() ==> precedes(start, place(#[trigger] out[i]))
            &&& gathered(states, turns, n) == out + states[n].buffered@
            &&& is_open(states, turns, n) || out.len() == 0
        }),
{
    let n = turns.len() as int;
    lemma_run_advances(states, turns, start, n);
    if !is_open(states, turns, n) {
        assert(gathered(states, turns, n) == delivered(turns, n) + states[n].buffered@);
    }
}

/// That the pages of a run come from a feed: each holds the first rows after the cursor
/// that it was asked for with, however many. The feed may grow at its end meanwhile:
/// `feed` is what it has grown to.
pub open spec fn pages_come_from(
    states: Seq<Watcher>,
    turns: Seq<Turn>,
    feed: Seq<RecentChange>,
) -> bool {
    forall|i: int|
        0 <= i < turns.len() ==> (#[trigger] turns[i] matches Turn::Page(rows) ==> rows.len()
            <= new_rows(feed, states[i].cursor()).len() && rows == new_rows(
            feed,
            states[i].cursor(),
        ).take(rows.len() as int))
}

/// That what waits is what the feed holds next after the cursor.
pub open spec fn queue_comes_from(w: Watcher, feed: Seq<RecentChange>) -> bool {
    let rest = new_rows(feed, w.cursor());
    w.buffered@.len() <= rest.len() && w.buffered@ == rest.take(w.buffered@.len() as int)
}

proof fn lemma_delivery_covers(
    before: Watcher,
    row: RecentChange,
    after: Watcher,
    feed: Seq<RecentChange>,
)
    requires
        ascending(feed),
        queue_comes_from(before, feed),
        before.stepped(Action::Deliver(row), after),
    ensures
        queue_comes_from(after, feed),
        new_rows(feed, before.cursor()) == seq![row] + new_rows(feed, after.cursor()),
{
    let left = new_rows(feed, before.cursor());
    let rest = new_rows(feed, after.cursor());
    let k = before.buffered@.len() as int;
    law_pages_cover_the_feed(feed, before.cursor(), 1);
    assert(before.buffered@[0] == row);
    assert(left[0] == row);
    assert(page_after(feed, before.cursor(), 1) == seq![row]);
    assert(left == seq![row] + rest);
    assert(after.buffered@ == rest.take(k - 1)) by {
        assert forall|i: int| 0 <= i < k - 1 implies after.buffered@[i] == rest[i] by {
            assert(after.buffered@[i] == before.buffered@[i + 1]);
            assert(before.buffered@[i + 1] == left[i + 1]);
        }
    }
}

proof fn lemma_page_covers(
    before: Watcher,
    rows: Seq<RecentChange>,
    after: Watcher,
    feed: Seq<RecentChange>,
)
    requires
        before.buffered@.len() == 0,
        before.paged(rows, after),
        rows.len() <= new_rows(feed, before.cursor()).len(),
        rows == new_rows(feed, before.cursor()).take(rows.len() as int),
    ensures
        queue_comes_from(after, feed),
        after.cursor() == before.cursor(),
{
    let left = new_rows(feed, before.cursor());
    lemma_new_rows_are_new(feed, before.cursor());
    assert forall|i: int| 0 <= i < rows.len() implies is_new(
        #[trigger] rows[i],
        before.cursor(),
    ) by {
        assert(rows[i] == left[i]);
    }
    lemma_all_new(rows, before.cursor());
    assert(after.buffered@ == rows);
}

proof fn lemma_run_covers(
    states: Seq<Watcher>,
    turns: Seq<Turn>,
    start: Cursor,
    feed: Seq<RecentChange>,
    n: int,
)
    requires
        is_run(states, turns),
        is_unstarted(states[0]),
        opens_at(states[0], turns, start),
        ascending(feed),
        pages_come_from(states, turns, feed),
        0 <= n <= turns.len(),
        is_open(states, turns, n),
    ensures
        new_rows(feed, start) == delivered(turns, n) + new_rows(feed, states[n].cursor()),
        queue_comes_from(states[n], feed),
    decreases n,
{
    let rest = new_rows(feed, states[n].cursor());
    if n > 0 && is_open(states, turns, n - 1) {
        let before = states[n - 1];
        let after = states[n];
        let turn = turns[n - 1];
        let out = delivered(turns, n - 1);
        lemma_run_covers(states, turns, start, feed, n - 1);
        lemma_open_turn(states, turns, start, n);
        match turn {
            Turn::Step(Action::Deliver(row)) => {
                lemma_delivery_covers(before, row, after, feed);
                assert(out + (seq![row] + rest) == out.push(row) + rest);
            },
            Turn::Page(rows) => {
                assert(turns[n - 1] is Page);
                lemma_page_covers(before, rows, after, feed);
            },
            _ => {},
        }
    } else {
        lemma_opening(states, turns, start, n);
        assert(delivered(turns, n) + rest == rest);
        assert(states[n].buffered@ == rest.take(0));
    }
}

/// What a turn does once the watcher is open.
proof fn lemma_open_turn(states: Seq<Watcher>, turns: Seq<Turn>, start: Cursor, n: int)
    requires
        is_run(states, turns),
        is_unstarted(states[0]),
        opens_at(states[0], turns, start),
        0 < n <= turns.len(),
        is_open(states, turns, n - 1),
    ensures
        match turns[n - 1] {
            Turn::Step(Action::Deliver(row)) => states[n - 1].stepped(
                Action::Deliver(row),
                states[n],
            ),
            Turn::Page(rows) => states[n - 1].paged(rows, states[n])
                && states[n - 1].buffered@.len() == 0,
            _ => states[n].cursor() == states[n - 1].cursor() && states[n].buffered@
                == states[n - 1].buffered@,
        },
{
    lemma_run_step(states, turns, start, n - 1);
    assert(turned_at(states, turns, n - 1));
    if n > 1 {
        assert(follows_at(turns, n - 1));
    }
}

/// What holds at the moment at which the watcher is first open.
proof fn lemma_opening(states: Seq<Watcher>, turns: Seq<Turn>, start: Cursor, n: int)
    requires
        is_run(states, turns),
        is_unstarted(states[0]),
        opens_at(states[0], turns, start),
        0 <= n <= turns.len(),
        is_open(states, turns, n),
        n > 0 ==> !is_open(states, turns, n - 1),
    ensures
        delivered(turns, n).len() == 0,
        states[n].buffered@.len() == 0,
        states[n].cursor() == start,
{
    lemma_run_step(states, turns, start, n);
    if n > 0 {
        lemma_run_step(states, turns, start, n - 1);
        assert(turned_at(states, turns, n - 1));
        if n > 1 {
            assert(follows_at(turns, n - 1));
        }
    }
}

proof fn lemma_new_rows_are_new(rows: Seq<RecentChange>, cursor: Cursor)
    ensures
        forall|i: int|
            0 <= i < new_rows(rows, cursor).len() ==> is_new(
                #[trigger] new_rows(rows, cursor)[i],
                cursor,
            ),
    decreases rows.len(),
{
    if rows.len() > 0 {
        let kept = new_rows(rows.drop_last(), cursor);
        lemma_new_rows_are_new(rows.drop_last(), cursor);
        assert forall|i: int| 0 <= i < new_rows(rows, cursor).len() implies is_new(
            #[trigger] new_rows(rows, cursor)[i],
            cursor,
        ) by {
            if i < kept.len() {
                assert(new_rows(rows, cursor)[i] == kept[i]);
            }
        }
    }
}

/// A watcher walks the feed without gaps or repeats: at every moment of every run, what it
/// has handed out, followed by what the feed holds after its cursor, is exactly what the
/// feed holds after the opening place. Where nothing is left after the cursor, everything
/// was handed out.
pub proof fn law_runs_have_no_gaps_or_repeats(
    states: Seq<Watcher>,
    turns: Seq<Turn>,
    start: Cursor,
    feed: Seq<RecentChange>,
)
    requires
        is_run(states, turns),
        is_unstarted(states[0]),
        opens_at(states[0], turns, start),
        ascending(feed),
        pages_come_from(states, turns, feed),
        is_open(states, turns, turns.len() as int),
    ensures
        ({
            let out = delivered(turns, turns.len() as int);
            let rest = new_rows(feed, states.last().cursor());
            &&& new_rows(feed, start) == out + rest
            &&& rest.len() == 0 ==> out == new_rows(feed, start)
        }),
{
    lemma_run_covers(states, turns, start, feed, turns.len() as int);
    let out = delivered(turns, turns.len() as int);
    let rest = new_rows(feed, states.last().cursor());
    if rest.len() == 0 {
        assert(out + rest == out);
    }
}

/// A row of a page is queued exactly where it was last detected after the cursor, or at the
/// very time of the cursor under a higher id. When it was first detected, and whether its
/// id was delivered before, makes no difference: a change that resurfaces is queued again.
pub proof fn law_rows_are_new_by_their_last_detection(
    before: Watcher,
    rows: Seq<RecentChange>,
    after: Watcher,
    since: Seq<char>,
    row: RecentChange,
)
    requires
        before.paged(rows, after),
        opt_string(before.since) == Some(since),
        rows.contains(row),
    ensures
        after.buffered@.skip(before.buffered@.len() as int).contains(row) <==> text_before(
            since,
            row.last_detected_at@,
        ) || (row.last_detected_at@ == since && row.id > before.since_id),
        after.buffered@.take(before.buffered@.len() as int) == before.buffered@,
{
    let fresh = new_rows(rows, before.cursor());
    law_new_rows_are_those_after_the_cursor(rows, before.cursor());
    assert(after.buffered@.skip(before.buffered@.len() as int) == fresh);
    assert(fresh.contains(row) <==> precedes(before.cursor(), place(row)));
}

/// Nothing is queued that the page did not hold.
pub proof fn law_only_the_rows_of_a_page_are_queued(
    before: Watcher,
    rows: Seq<RecentChange>,
    after: Watcher,
    row: RecentChange,
)
    requires
        before.paged(rows, after),
        after.buffered@.contains(row),
    ensures
        before.buffered@.contains(row) || rows.contains(row),
{
    let fresh = new_rows(rows, before.cursor());
    let n = before.buffered@.len() as int;
    law_new_rows_are_those_after_the_cursor(rows, before.cursor());
    let i = choose|i: int| 0 <= i < after.buffered@.len() && after.buffered@[i] == row;
    if i < n {
        assert(before.buffered@[i] == row);
    } else {
        assert(fresh[i - n] == row);
        assert(fresh.contains(row));
    }
}

/// The cursor is the last detection and the id of the change that was delivered last; and a
/// page is asked for after exactly that, or after the saved place before any delivery.
pub proof fn law_the_cursor_is_the_last_delivery(
    before: Watcher,
    row: RecentChange,
    after: Watcher,
    next: Action,
    later: Watcher,
)
    requires
        before.stepped(Action::Deliver(row), after),
        after.stepped(next, later),
    ensures
        opt_string(after.since) == Some(row.last_detected_at@),
        after.since_id == row.id,
        before.buffered@.len() > 0 && before.buffered@[0] == row,
        next matches Action::FetchPage(o) ==> after.bootstrapped ==> {
            &&& opt_string(o.since) == Some(row.last_detected_at@)
            &&& o.since_id == Some(row.id)
            &&& o.limit == Some(before.page_size)
        },
{
}

/// A watcher that read the head starts after the last detection of the head's row.
pub proof fn law_the_head_is_where_a_watcher_starts(
    before: Watcher,
    rows: Seq<RecentChange>,
    after: Watcher,
)
    requires
        before.headed(rows, after),
    ensures
        rows.len() > 0 ==> opt_string(after.since) == Some(rows[0].last_detected_at@)
            && after.since_id == rows[0].id,
        rows.len() == 0 ==> opt_string(after.since) == Some("1970-01-01T00:00:00+00:00"@)
            && after.since_id == 0,
{
}

/// After a failed read of the head the head is asked for again.
pub proof fn law_a_failed_head_is_asked_for_again(
    before: Watcher,
    failed: Watcher,
    action: Action,
    after: Watcher,
)
    requires
        before.buffered@.len() == 0,
        !before.resting,
        !before.replay,
        !before.stop_on_error,
        !before.done,
        before.head_failed(failed),
        failed.stepped(action, after),
    ensures
        action is FetchHead,
{
}

/// The wait after failures is at least one interval and at most ten, and more failures
/// never make it shorter. `interval` is any that a span can have.
pub proof fn law_error_waits_are_bounded(interval: nat, failures: u32, more: u32)
    requires
        interval <= MAX_NANOS,
        failures <= more,
    ensures
        interval <= error_nanos(interval, failures) <= interval * 10,
        error_nanos(interval, failures) <= error_nanos(interval, more),
{
    let a = doublings(failures, 10);
    let b = doublings(more, 10);
    let (k, m) = (pow2(a), pow2(b));
    vstd::arithmetic::power2::lemma_pow2_pos(a);
    if a < b {
        vstd::arithmetic::power2::lemma_pow2_strictly_increases(a, b);
    }
    assert(interval <= interval * k <= interval * m) by (nonlinear_arith)
        requires
            1 <= k <= m,
    ;
}

} // verus!
