//! What the operations are for, stated of the operations themselves: how a call's result
//! answers its arguments, and how the results of two calls belong together.

use crate::cloud_models::{ChangeListOptions, RecentChange};
use crate::files::{
    file_slots, filled, law_captured_files_are_all_listed, law_captured_files_are_read_by_name,
    law_slots_are_read_by_name, listed_outputs, output_files, output_of, output_views, outputs_of,
    slot_of, slot_views, slots_of, FileSlot, OutputFile,
};
use crate::json::{document, opt_tree, Json, Tree};
use crate::models::{
    law_events_are_read_by_name, law_events_are_what_they_are_called, EventView, RunEvent, Workflow,
};
use crate::request::Method;
use crate::retry::{
    full_wait, law_attempts_are_spaced, law_full_waits_double, law_transient_answers_are_repeated,
    Attempts, Next, RetryPolicy,
};
use crate::text::{decimal, opt_string, text_before};
use crate::time::{Duration, MAX_NANOS};
use crate::watch::{law_rows_are_new_by_their_last_detection, Action, Watcher};
use vstd::prelude::*;

verus! {

broadcast use vstd::string::group_string_axioms;

/// A page queues each of its rows exactly where the row was last detected after the cursor's
/// time, or at that very time under a higher id. When the row was first detected makes no
/// difference, nor whether its id was seen before: a change that resurfaces is queued again.
/// What was queued before stays first.
pub proof fn law_a_page_queues_what_was_detected_since(
    w: &mut Watcher,
    rows: Vec<RecentChange>,
    since: Seq<char>,
    row: RecentChange,
)
    requires
        call_ensures(Watcher::on_page, (w, rows), ()),
        opt_string(old(w).since) == Some(since),
        rows@.contains(row),
    ensures
        final(w).buffered@.skip(old(w).buffered@.len() as int).contains(row) <==> text_before(
            since,
            row.last_detected_at@,
        ) || (row.last_detected_at@ == since && row.id > old(w).since_id),
        final(w).buffered@.take(old(w).buffered@.len() as int) == old(w).buffered@,
        opt_string(final(w).since) == Some(since),
        final(w).since_id == old(w).since_id,
        final(w).failures == 0,
{
    law_rows_are_new_by_their_last_detection(*old(w), rows@, *final(w), since, row);
}

/// A step that delivers a change hands out the first that is queued, and moves the cursor to
/// the time at which that change was last detected, and to its id.
pub proof fn law_a_delivery_moves_the_cursor(w: &mut Watcher, row: RecentChange)
    requires
        call_ensures(Watcher::step, (w,), Action::Deliver(row)),
    ensures
        old(w).buffered@.len() > 0,
        row == old(w).buffered@[0],
        final(w).buffered@ == old(w).buffered@.drop_first(),
        opt_string(final(w).since) == Some(row.last_detected_at@),
        final(w).since_id == row.id,
{
}

/// A step that asks for a page asks for what comes after the cursor, as many rows as a page
/// has; and only where nothing is queued, no rest is due and the feed goes on.
pub proof fn law_a_page_is_asked_for_after_the_cursor(w: &mut Watcher, o: ChangeListOptions)
    requires
        call_ensures(Watcher::step, (w,), Action::FetchPage(o)),
    ensures
        old(w).buffered@.len() == 0,
        !old(w).resting,
        !old(w).done,
        o.limit == Some(old(w).page_size),
        opt_string(o.since) == opt_string(final(w).since),
        o.since_id == Some(final(w).since_id),
        old(w).bootstrapped ==> opt_string(o.since) == opt_string(old(w).since) && o.since_id == Some(
            old(w).since_id,
        ),
        !old(w).bootstrapped ==> opt_string(o.since) == Some("1970-01-01T00:00:00+00:00"@)
            && o.since_id == Some(0i64) && old(w).replay,
{
}

/// The head sets the cursor to the time at which its row was last detected, and to its id.
pub proof fn law_the_head_sets_the_cursor(w: &mut Watcher, rows: Vec<RecentChange>)
    requires
        call_ensures(Watcher::on_head, (w, &rows), ()),
    ensures
        rows@.len() > 0 ==> opt_string(final(w).since) == Some(rows@[0].last_detected_at@)
            && final(w).since_id == rows@[0].id,
        rows@.len() == 0 ==> opt_string(final(w).since) == Some("1970-01-01T00:00:00+00:00"@)
            && final(w).since_id == 0,
        final(w).buffered@ == old(w).buffered@,
{
}

/// A failure moves nothing: the cursor and what is queued stay, and the wait is at least the
/// interval unless failures end the watcher.
pub proof fn law_failures_move_nothing(w: &mut Watcher, wait: Option<Duration>)
    requires
        call_ensures(Watcher::on_page_error, (w,), wait),
        old(w).interval@ <= MAX_NANOS,
    ensures
        opt_string(final(w).since) == opt_string(old(w).since),
        final(w).since_id == old(w).since_id,
        final(w).buffered@ == old(w).buffered@,
        wait is None <==> old(w).stop_on_error,
        wait matches Some(d) ==> old(w).interval@ <= d@ <= 10 * old(w).interval@,
        old(w).stop_on_error ==> final(w).done,
{
    let n = crate::watch::one_more(old(w).failures);
    crate::watch::law_error_waits_are_bounded(old(w).interval@, n, n);
}

/// A payload that reads as an object is the event of its name, with each field from the member
/// of that field's own name.
pub proof fn law_payloads_are_read_by_name(data: &str, t: Tree, e: RunEvent)
    requires
        call_ensures(RunEvent::parse, (data,), e),
        document(data@) == Some(t),
        t is Object,
    ensures
        t.str_at("event"@) == Some("started"@) && t.i64_at("run_id"@) is Some && t.get(
            "total_steps"@,
        ) is Some && t.get("total_steps"@)->0.as_u64() is Some ==> e@ == (EventView::Started {
            run_id: t.i64_at("run_id"@)->0,
            total_steps: t.get("total_steps"@)->0.as_u64()->0,
        }),
        t.str_at("event"@) == Some("step"@) && t.i64_at("run_id"@) is Some && t.get("index"@) is Some
            && t.get("index"@)->0.as_u64() is Some && t.str_at("step_type"@) is Some && t.str_at(
            "status"@,
        ) is Some ==> e@ == (EventView::Step {
            run_id: t.i64_at("run_id"@)->0,
            index: t.get("index"@)->0.as_u64()->0,
            step_type: t.str_at("step_type"@)->0,
            status: t.str_at("status"@)->0,
        }),
        t.str_at("event"@) == Some("progress"@) && t.i64_at("run_id"@) is Some && t.get(
            "completed"@,
        ) is Some && t.get("completed"@)->0.as_u64() is Some && t.get("total"@) is Some && t.get(
            "total"@,
        )->0.as_u64() is Some ==> e@ == (EventView::Progress {
            run_id: t.i64_at("run_id"@)->0,
            completed: t.get("completed"@)->0.as_u64()->0,
            total: t.get("total"@)->0.as_u64()->0,
        }),
        t.str_at("event"@) == Some("finished"@) && t.i64_at("run_id"@) is Some && t.str_at(
            "status"@,
        ) is Some ==> e@ == (EventView::Finished {
            run_id: t.i64_at("run_id"@)->0,
            status: t.str_at("status"@)->0,
        }),
        t.str_at("event"@) == Some("error"@) && t.i64_at("run_id"@) is Some && t.str_at(
            "message"@,
        ) is Some ==> e@ == (EventView::Error {
            run_id: t.i64_at("run_id"@)->0,
            message: t.str_at("message"@)->0,
        }),
        e@ matches EventView::Unknown(kept) ==> kept == t,
{
    law_events_are_read_by_name(t);
    law_events_are_what_they_are_called(t);
}

/// A payload that is no JSON is kept as its text. Only events that end a run are terminal,
/// and every event but an unknown one names its run.
pub proof fn law_events_tell_what_they_are(
    data: &str,
    e: RunEvent,
    terminal: bool,
    run: Option<i64>,
)
    requires
        call_ensures(RunEvent::parse, (data,), e),
        call_ensures(RunEvent::is_terminal, (&e,), terminal),
        call_ensures(RunEvent::run_id, (&e,), run),
    ensures
        document(data@) is None ==> e@ == EventView::Unknown(Tree::Str(data@)),
        terminal <==> (e@ is Finished || e@ is Error),
        match e@ {
            EventView::Started { run_id, .. } => run == Some(run_id),
            EventView::Step { run_id, .. } => run == Some(run_id),
            EventView::Progress { run_id, .. } => run == Some(run_id),
            EventView::Finished { run_id, .. } => run == Some(run_id),
            EventView::Error { run_id, .. } => run == Some(run_id),
            EventView::Unknown(t) => run == t.i64_at("run_id"@),
        },
{
}

/// The captured files of a payload that lists them are the listed ones, each in its place with
/// what stands under its own names.
pub proof fn law_captured_files_say_what_was_listed(
    payload: Json,
    r: Vec<OutputFile>,
    items: Seq<Tree>,
    i: int,
)
    requires
        call_ensures(output_files, (&payload,), r),
        payload.tree().get("output_files"@) == Some(Tree::Array(items)),
        0 <= i < items.len(),
        forall|k: int|
            0 <= k < items.len() ==> {
                let t = #[trigger] items[k];
                &&& t is Object
                &&& t.str_at("file_id"@) is Some
                &&& t.str_at("filename"@) is Some
                &&& t.i64_at("size"@) is Some
                &&& t.str_at("content_type"@) is Some
                &&& t.get("output_key"@) is None || t.str_at("output_key"@) is Some
            },
    ensures
        r@.len() == items.len(),
        items[i].str_at("file_id"@) == Some(r@[i].file_id@),
        items[i].str_at("filename"@) == Some(r@[i].filename@),
        items[i].i64_at("size"@) == Some(r@[i].size),
        items[i].str_at("content_type"@) == Some(r@[i].content_type@),
        items[i].str_at("output_key"@) == opt_string(r@[i].output_key),
{
    let n = items.len() as int;
    assert forall|k: int| 0 <= k < n implies #[trigger] output_of(items[k]) is Some by {
        assert(items[k] is Object);
        law_captured_files_are_read_by_name(items[k]);
    }
    law_captured_files_are_all_listed(items, n);
    law_captured_files_are_read_by_name(items[i]);
    assert(items[i] is Object);
    assert(outputs_of(items, n).len() == n);
    assert(listed_outputs(payload.tree()) == outputs_of(items, n));
    assert(output_views(r@) == outputs_of(items, n));
    assert(output_views(r@)[i] == r@[i]@);
    assert(Some(outputs_of(items, n)[i]) == output_of(items[i]));
}

/// It makes no difference whether the files of a run are listed at the top, under
/// `result_data` or under `results`.
pub proof fn law_captured_files_are_found_in_every_envelope(
    payload: Json,
    r: Vec<OutputFile>,
    inner: Json,
    direct: Vec<OutputFile>,
)
    requires
        call_ensures(output_files, (&payload,), r),
        call_ensures(output_files, (&inner,), direct),
        payload.tree().get("output_files"@) is None,
        payload.tree().get("result_data"@) == Some(inner.tree()) || (payload.tree().get(
            "result_data"@,
        ) is None && payload.tree().get("results"@) == Some(inner.tree())),
        inner.tree().get("result_data"@) is None,
        inner.tree().get("results"@) is None,
        direct@.len() > 0,
    ensures
        output_views(r@) == output_views(direct@),
{
    assert(output_views(direct@).len() == direct@.len());
}

/// A workflow whose first step is an upload has that step's slot first: what the step says in
/// its configuration, else in its recorded options, under the names of its settings.
pub proof fn law_slots_say_what_their_steps_say(
    workflow: Workflow,
    r: Vec<FileSlot>,
    items: Seq<Tree>,
    c: Tree,
    o: Tree,
)
    requires
        call_ensures(file_slots, (&workflow,), r),
        opt_tree(workflow.steps) == Some(Tree::Array(items)),
        items.len() > 0,
        items[0].str_at("type"@) == Some("upload"@),
        items[0].get("config"@) == Some(c),
        items[0].get("options"@) == Some(o),
    ensures
        r@.len() > 0,
        filled(c.str_at("file_slot"@)) matches Some(k) ==> r@[0].slot@ == k && r@[0].declared,
        filled(c.str_at("file_slot"@)) is None ==> (filled(o.str_at("file_slot"@)) matches Some(k)
            ==> r@[0].slot@ == k && r@[0].declared),
        filled(c.str_at("file_slot"@)) is None && filled(o.str_at("file_slot"@)) is None ==> {
            &&& !r@[0].declared
            &&& r@[0].slot@ == match filled(items[0].str_at("id"@)) {
                Some(id) => "step:"@ + id,
                None => "upload:"@ + decimal(1),
            }
        },
        filled(c.str_at("label"@)) matches Some(l) ==> r@[0].label@ == l,
        filled(c.str_at("label"@)) is None ==> (filled(o.str_at("label"@)) matches Some(l)
            ==> r@[0].label@ == l),
        r@[0].is_multiple <==> c.get("is_multiple"@) == Some(Tree::Bool(true)) || o.get(
            "is_multiple"@,
        ) == Some(Tree::Bool(true)),
        filled(c.str_at("file_id"@)) matches Some(id) ==> opt_string(r@[0].default_file_id) == Some(
            id,
        ),
        filled(c.str_at("file_id"@)) is None ==> opt_string(r@[0].default_file_id) == filled(
            o.str_at("file_id"@),
        ),
        filled(c.str_at("file_name"@)) matches Some(f) ==> opt_string(r@[0].default_filename)
            == Some(f),
        filled(c.str_at("file_name"@)) is None && filled(o.str_at("filename"@)) is Some
            ==> opt_string(r@[0].default_filename) == filled(o.str_at("filename"@)),
{
    let step = items[0];
    let n = items.len() as int;
    law_slots_are_read_by_name(step, 0, c, o);
    lemma_first_slot(items, n);
    assert(slot_views(r@) == slots_of(items, n));
    assert(slot_views(r@)[0] == r@[0]@);
}

proof fn lemma_first_slot(items: Seq<Tree>, n: int)
    requires
        0 < n <= items.len(),
        slot_of(items[0], 0) is Some,
    ensures
        slots_of(items, n).len() > 0,
        slots_of(items, n)[0] == slot_of(items[0], 0)->0,
    decreases n,
{
    if n > 1 {
        lemma_first_slot(items, n - 1);
    } else {
        assert(slots_of(items, 0).len() == 0);
        assert(slots_of(items, 1) == seq![slot_of(items[0], 0)->0]);
    }
}

/// After an answer that is repeated without a wait asked for, and after a failure, the wait is
/// at least half of the full wait of the attempt and at most the whole. The full wait is the
/// policy's first wait after the first attempt, and doubles with each further one up to the
/// policy's cap.
pub proof fn law_repetitions_are_backed_off(
    a: &mut Attempts,
    status: u16,
    jitter: u64,
    next: Next,
    b: &mut Attempts,
    after_failure: Next,
)
    requires
        call_ensures(Attempts::on_answer, (a, status, None::<Duration>, jitter), next),
        call_ensures(Attempts::on_failure, (b, jitter), after_failure),
        old(a).policy.max_delay@ <= MAX_NANOS,
        1 <= old(a).attempt < u32::MAX,
        full_wait(old(a).policy, old(a).attempt) < 0x1_0000_0000_0000_0000,
        *old(b) == *old(a),
    ensures
        next matches Next::Repeat(d) ==> full_wait(old(a).policy, old(a).attempt) / 2 <= d@
            <= full_wait(old(a).policy, old(a).attempt),
        after_failure matches Next::Repeat(d) ==> full_wait(old(a).policy, old(a).attempt) / 2
            <= d@ <= full_wait(old(a).policy, old(a).attempt),
        next is Repeat ==> final(a).attempt == old(a).attempt + 1,
        next is Repeat ==> after_failure is Repeat,
        full_wait(old(a).policy, 1) > 0,
        old(a).policy.base_delay@ > 0 && old(a).policy.base_delay@ <= old(a).policy.max_delay@
            ==> full_wait(old(a).policy, 1) == old(a).policy.base_delay@,
        old(a).attempt <= 20 && old(a).policy.max_delay@ > 0 ==> full_wait(
            old(a).policy,
            (old(a).attempt + 1) as u32,
        ) == if 2 * full_wait(old(a).policy, old(a).attempt) <= old(a).policy.max_delay@ {
            2 * full_wait(old(a).policy, old(a).attempt)
        } else {
            old(a).policy.max_delay@
        },
{
    law_attempts_are_spaced(*old(a), status, jitter);
    law_full_waits_double(old(a).policy, old(a).attempt);
    law_full_waits_double(old(a).policy, 1);
    law_transient_answers_are_repeated(*old(a), status, None, jitter);
}

/// Which answers are repeated: those with a transient status, while attempts are left, where
/// the server asks for no more time than the policy allows. The wait that it asks for is the
/// wait.
pub proof fn law_answers_are_repeated_as_asked(
    a: &mut Attempts,
    status: u16,
    requested: Option<Duration>,
    jitter: u64,
    next: Next,
)
    requires
        call_ensures(Attempts::on_answer, (a, status, requested, jitter), next),
    ensures
        next is Repeat <==> {
            &&& status == 408 || status == 425 || status == 429 || status == 500 || (502 <= status
                <= 504)
            &&& old(a).replayable
            &&& old(a).attempt < old(a).limit
            &&& requested matches Some(d) ==> d@ <= old(a).policy.max_retry_after@
        },
        next matches Next::Repeat(w) ==> (requested matches Some(d) ==> w@ == d@),
        next is Finish ==> *final(a) == *old(a),
        final(a).policy == old(a).policy && final(a).limit == old(a).limit,
{
    law_transient_answers_are_repeated(*old(a), status, requested, jitter);
}

/// How many attempts a request gets: what the policy says for a safe method, and for any
/// method where unsafe ones may be repeated; else one.
pub proof fn law_requests_start_with_their_attempts(
    policy: RetryPolicy,
    method: Method,
    replayable: bool,
    a: Attempts,
)
    requires
        call_ensures(Attempts::start, (policy, method, replayable), a),
    ensures
        a.attempt == 1,
        a.policy == policy,
        a.replayable == replayable,
        (method is Get || method is Head || method is Options || policy.retry_unsafe_methods)
            && policy.max_attempts >= 1 ==> a.limit == policy.max_attempts,
        !(method is Get || method is Head || method is Options || policy.retry_unsafe_methods)
            ==> a.limit == 1,
        a.limit >= 1,
{
}

} // verus!
