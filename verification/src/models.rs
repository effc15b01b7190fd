//! What the daemon and the cloud answer with, and the rules on it.

use crate::json::{
    bool_json, copy_opt, document, int_json, int_tree, member_from, member_trees, opt_bool_tree,
    opt_int_tree, opt_member, opt_texts_json, opt_texts_tree, opt_tree, parse, put, put_opt,
    text_json, text_tree, trees, Json, Tree,
};
use crate::text::{
    decimal, i64_value, lemma_decimal, opt_string, opt_text, own, parse_i64, rsplit_once,
    split_last, text_eq,
};
use crate::time::Duration;
use vstd::prelude::*;

verus! {

broadcast use vstd::string::group_string_axioms;

/// Fields that a model does not know by name, as the server sent them.
pub type Extra = Vec<(String, Json)>;

/// A saved workflow.
#[derive(Debug, Clone, Default)]
pub struct Workflow {
    pub id: i64,
    pub name: String,
    pub description: Option<String>,
    pub workflow_type: Option<String>,
    pub entry_url: Option<String>,
    pub steps: Option<Json>,
    pub form_data: Option<Json>,
    pub functions: Option<Json>,
    pub is_active: Option<i64>,
    pub is_verified: Option<i64>,
    pub timeout_ms: Option<i64>,
    pub retry_count: Option<i64>,
    pub headless: Option<i64>,
    pub schedule_enabled: Option<i64>,
    pub schedule_interval_ms: Option<i64>,
    pub schedule_kind: Option<String>,
    pub schedule_time: Option<String>,
    pub schedule_days: Option<String>,
    pub schedule_tz: Option<String>,
    pub last_scheduled_at: Option<String>,
    pub next_scheduled_at: Option<String>,
    pub default_persona_id: Option<i64>,
    pub http_capable: Option<i64>,
    pub usage_count: Option<i64>,
    pub total_run_count: Option<i64>,
    pub total_failure_count: Option<i64>,
    pub consecutive_failures: Option<i64>,
    pub last_run_at: Option<String>,
    pub last_run_status: Option<String>,
    pub last_run_duration_ms: Option<i64>,
    pub last_failure_at: Option<String>,
    pub last_failure_error: Option<String>,
    pub cloud_callable: Option<i64>,
    pub execution_target: Option<String>,
    pub marketplace_slug: Option<String>,
    pub created_at: Option<String>,
    pub updated_at: Option<String>,
    pub has_credentials: Option<bool>,
    pub credential_keys: Option<Vec<String>>,
    pub placeholders: Option<Vec<Json>>,
    pub has_login: Option<bool>,
    pub extra: Extra,
}

/// One run in the feed of runs.
#[derive(Debug, Clone, Default)]
pub struct RunFeedItem {
    /// Composite id, `<run type>-<row id>`.
    pub id: String,
    pub run_type: Option<String>,
    pub entity_id: Option<i64>,
    pub entity_name: Option<String>,
    pub status: String,
    pub started_at: Option<String>,
    pub finished_at: Option<String>,
    pub duration_ms: Option<i64>,
    pub trigger_source: Option<String>,
    pub error: Option<String>,
    pub detail_url_hint: Option<String>,
    pub data_url_hint: Option<String>,
    pub rows_extracted: Option<i64>,
    pub change_detected: Option<bool>,
    pub engine: Option<String>,
    pub extra: Extra,
}

/// The row id in a composite id: what follows the last dash, else the whole, read as a
/// number.
pub open spec fn row_id_of(id: Seq<char>) -> Option<i64> {
    match split_last(id, '-') {
        Some((_, tail)) => match i64_value(tail) {
            Some(n) => Some(n),
            None => i64_value(id),
        },
        None => i64_value(id),
    }
}

impl RunFeedItem {
    /// The row id of the run.
    pub fn row_id(&self) -> (r: Option<i64>)
        ensures
            r == row_id_of(self.id@),
    {
        if let Some((_, tail)) = rsplit_once(self.id.as_str(), '-') {
            if let Some(n) = parse_i64(tail) {
                return Some(n);
            }
        }
        parse_i64(self.id.as_str())
    }

    /// Whether the run is still going on.
    pub fn is_running(&self) -> (r: bool)
        ensures
            r == (self.status@ == "running"@),
    {
        text_eq(self.status.as_str(), "running")
    }
}

/// A composite id gives back the row id it was made of, whatever the run type.
pub proof fn law_row_id_of_composite(run_type: Seq<char>, row: nat)
    requires
        row <= i64::MAX,
    ensures
        row_id_of(run_type + seq!['-'] + decimal(row)) == Some(row as i64),
{
    let id = run_type + seq!['-'] + decimal(row);
    lemma_decimal(row);
    let k = run_type.len() as int;
    assert(id[k] == '-');
    assert(forall|j: int| k < j < id.len() ==> id[j] == decimal(row)[j - k - 1]);
    lemma_last_dash(id, k, id.len() as int);
    assert(id.skip(k + 1) == decimal(row));
    assert(decimal(row)[0] != '-' && decimal(row)[0] != '+');
}

proof fn lemma_last_dash(s: Seq<char>, k: int, i: int)
    requires
        0 <= k < i <= s.len(),
        s[k] == '-',
        forall|j: int| k < j < i ==> s[j] != '-',
    ensures
        crate::text::find_back(s, '-', i) == k,
    decreases i,
{
    if i - 1 > k {
        lemma_last_dash(s, k, i - 1);
    }
}

/// What a cancellation request came to.
#[derive(Debug, Clone, Default)]
pub struct CancelOutcome {
    pub run_id: Option<i64>,
    pub id: Option<i64>,
    pub status: String,
    pub run_status: Option<String>,
    pub extra: Extra,
}

impl CancelOutcome {
    /// Whether the cancellation was accepted and is under way.
    pub fn cancel_requested(&self) -> (r: bool)
        ensures
            r == (self.status@ == "cancel_requested"@),
    {
        text_eq(self.status.as_str(), "cancel_requested")
    }
}

/// The result of a run that was waited for.
#[derive(Debug, Clone)]
pub struct RunCompleted {
    pub run_id: i64,
    pub status: String,
    pub done: bool,
    pub data: Option<Json>,
    pub error: Option<String>,
    pub duration_ms: Option<i64>,
    pub status_url: Option<String>,
    pub events_url: Option<String>,
    pub extra: Extra,
}

/// One event of a run.
#[derive(Debug, Clone, PartialEq)]
pub enum RunEvent {
    Started { run_id: i64, total_steps: u64 },
    Step { run_id: i64, index: u64, step_type: String, status: String },
    Progress { run_id: i64, completed: u64, total: u64 },
    Finished { run_id: i64, status: String },
    Error { run_id: i64, message: String },
    /// An event of a later vocabulary, or a payload that is not an event.
    Unknown(Json),
}

/// The contents of an event.
#[verifier::ext_equal]
pub enum EventView {
    Started { run_id: i64, total_steps: u64 },
    Step { run_id: i64, index: u64, step_type: Seq<char>, status: Seq<char> },
    Progress { run_id: i64, completed: u64, total: u64 },
    Finished { run_id: i64, status: Seq<char> },
    Error { run_id: i64, message: Seq<char> },
    Unknown(Tree),
}

impl View for RunEvent {
    type V = EventView;

    open spec fn view(&self) -> EventView {
        match *self {
            RunEvent::Started { run_id, total_steps } => EventView::Started { run_id, total_steps },
            RunEvent::Step { run_id, index, step_type, status } => EventView::Step {
                run_id,
                index,
                step_type: step_type@,
                status: status@,
            },
            RunEvent::Progress { run_id, completed, total } => EventView::Progress {
                run_id,
                completed,
                total,
            },
            RunEvent::Finished { run_id, status } => EventView::Finished {
                run_id,
                status: status@,
            },
            RunEvent::Error { run_id, message } => EventView::Error { run_id, message: message@ },
            RunEvent::Unknown(j) => EventView::Unknown(j.tree()),
        }
    }
}

/// An event's name: the member `event`, or the first item where an event is written by
/// position.
pub open spec fn event_name(t: Tree) -> Option<Seq<char>> {
    match t {
        Tree::Array(items) => if items.len() > 0 {
            items[0].as_str()
        } else {
            None
        },
        _ => t.str_at("event"@),
    }
}

/// The value of an event's field, by its name or by its position, where the event may
/// have exactly `count` fields.
pub open spec fn event_field(t: Tree, name: Seq<char>, position: int, count: int) -> Option<Tree> {
    match t {
        Tree::Array(items) => if items.len() == count + 1 {
            Some(items[position])
        } else {
            None
        },
        _ => t.get(name),
    }
}

/// A field that is a whole number which fits.
pub open spec fn event_i64(t: Tree, name: Seq<char>, position: int, count: int) -> Option<i64> {
    match event_field(t, name, position, count) {
        Some(v) => v.as_i64(),
        None => None,
    }
}

/// A field that is a whole number which is not negative.
pub open spec fn event_u64(t: Tree, name: Seq<char>, position: int, count: int) -> Option<u64> {
    match event_field(t, name, position, count) {
        Some(v) => v.as_u64(),
        None => None,
    }
}

/// A field that is a string.
pub open spec fn event_str(t: Tree, name: Seq<char>, position: int, count: int) -> Option<
    Seq<char>,
> {
    match event_field(t, name, position, count) {
        Some(v) => v.as_str(),
        None => None,
    }
}

/// The event of the known vocabulary that a payload is, if it is one.
pub open spec fn known_event(t: Tree) -> Option<EventView> {
    let name = event_name(t);
    if name == Some("started"@) {
        match (event_i64(t, "run_id"@, 1, 2), event_u64(t, "total_steps"@, 2, 2)) {
            (Some(run_id), Some(total_steps)) => Some(EventView::Started { run_id, total_steps }),
            _ => None,
        }
    } else if name == Some("step"@) {
        match (
            event_i64(t, "run_id"@, 1, 4),
            event_u64(t, "index"@, 2, 4),
            event_str(t, "step_type"@, 3, 4),
            event_str(t, "status"@, 4, 4),
        ) {
            (Some(run_id), Some(index), Some(step_type), Some(status)) => Some(
                EventView::Step { run_id, index, step_type, status },
            ),
            _ => None,
        }
    } else if name == Some("progress"@) {
        match (
            event_i64(t, "run_id"@, 1, 3),
            event_u64(t, "completed"@, 2, 3),
            event_u64(t, "total"@, 3, 3),
        ) {
            (Some(run_id), Some(completed), Some(total)) => Some(
                EventView::Progress { run_id, completed, total },
            ),
            _ => None,
        }
    } else if name == Some("finished"@) {
        match (event_i64(t, "run_id"@, 1, 2), event_str(t, "status"@, 2, 2)) {
            (Some(run_id), Some(status)) => Some(EventView::Finished { run_id, status }),
            _ => None,
        }
    } else if name == Some("error"@) {
        match (event_i64(t, "run_id"@, 1, 2), event_str(t, "message"@, 2, 2)) {
            (Some(run_id), Some(message)) => Some(EventView::Error { run_id, message }),
            _ => None,
        }
    } else {
        None
    }
}

/// The event that a payload is; unknown where it is none of the vocabulary.
pub open spec fn event_of(t: Tree) -> EventView {
    match known_event(t) {
        Some(e) => e,
        None => EventView::Unknown(t),
    }
}

/// The event of a payload's text, given what it reads as.
pub open spec fn event_of_text(text: Seq<char>, parsed: Option<Tree>) -> EventView {
    match parsed {
        Some(t) => event_of(t),
        None => EventView::Unknown(Tree::Str(text)),
    }
}

fn name_of(j: &Json) -> (r: Option<&str>)
    ensures
        opt_text(r) == event_name(j.tree()),
{
    broadcast use crate::json::lemma_array_tree;

    match j {
        Json::Array(items) => {
            if items.len() > 0 {
                assert(trees(items@)[0] == items@[0].tree());
                items[0].as_str()
            } else {
                None
            }
        },
        _ => j.str_at("event"),
    }
}

fn field<'a>(j: &'a Json, name: &str, position: usize, count: usize) -> (r: Option<&'a Json>)
    requires
        position <= count < 10,
    ensures
        match (r, event_field(j.tree(), name@, position as int, count as int)) {
            (Some(v), Some(t)) => v.tree() == t,
            (None, None) => true,
            _ => false,
        },
{
    broadcast use crate::json::lemma_array_tree;

    match j {
        Json::Array(items) => {
            if items.len() == count + 1 {
                assert(trees(items@)[position as int] == items@[position as int].tree());
                Some(&items[position])
            } else {
                None
            }
        },
        _ => j.get(name),
    }
}

fn i64_field(j: &Json, name: &str, position: usize, count: usize) -> (r: Option<i64>)
    requires
        position <= count < 10,
    ensures
        r == event_i64(j.tree(), name@, position as int, count as int),
{
    match field(j, name, position, count) {
        Some(v) => v.as_i64(),
        None => None,
    }
}

fn u64_field(j: &Json, name: &str, position: usize, count: usize) -> (r: Option<u64>)
    requires
        position <= count < 10,
    ensures
        r == event_u64(j.tree(), name@, position as int, count as int),
{
    match field(j, name, position, count) {
        Some(v) => v.as_u64(),
        None => None,
    }
}

fn str_field(j: &Json, name: &str, position: usize, count: usize) -> (r: Option<String>)
    requires
        position <= count < 10,
    ensures
        opt_string(r) == event_str(j.tree(), name@, position as int, count as int),
{
    match field(j, name, position, count) {
        Some(v) => own(v.as_str()),
        None => None,
    }
}

/// The event of the known vocabulary that a value is.
fn known(j: &Json) -> (r: Option<RunEvent>)
    ensures
        match (r, known_event(j.tree())) {
            (Some(e), Some(v)) => e@ == v,
            (None, None) => true,
            _ => false,
        },
{
    let name: &str = match name_of(j) {
        Some(n) => n,
        None => {
            return None;
        },
    };
    if text_eq(name, "started") {
        match (i64_field(j, "run_id", 1, 2), u64_field(j, "total_steps", 2, 2)) {
            (Some(run_id), Some(total_steps)) => Some(RunEvent::Started { run_id, total_steps }),
            _ => None,
        }
    } else if text_eq(name, "step") {
        match (
            i64_field(j, "run_id", 1, 4),
            u64_field(j, "index", 2, 4),
            str_field(j, "step_type", 3, 4),
            str_field(j, "status", 4, 4),
        ) {
            (Some(run_id), Some(index), Some(step_type), Some(status)) => Some(
                RunEvent::Step { run_id, index, step_type, status },
            ),
            _ => None,
        }
    } else if text_eq(name, "progress") {
        match (
            i64_field(j, "run_id", 1, 3),
            u64_field(j, "completed", 2, 3),
            u64_field(j, "total", 3, 3),
        ) {
            (Some(run_id), Some(completed), Some(total)) => Some(
                RunEvent::Progress { run_id, completed, total },
            ),
            _ => None,
        }
    } else if text_eq(name, "finished") {
        match (i64_field(j, "run_id", 1, 2), str_field(j, "status", 2, 2)) {
            (Some(run_id), Some(status)) => Some(RunEvent::Finished { run_id, status }),
            _ => None,
        }
    } else if text_eq(name, "error") {
        match (i64_field(j, "run_id", 1, 2), str_field(j, "message", 2, 2)) {
            (Some(run_id), Some(message)) => Some(RunEvent::Error { run_id, message }),
            _ => None,
        }
    } else {
        None
    }
}

impl RunEvent {
    /// The event that a value is; unknown where it is none of the vocabulary.
    pub fn from_json(j: Json) -> (r: RunEvent)
        ensures
            r@ == event_of(j.tree()),
    {
        match known(&j) {
            Some(e) => e,
            None => RunEvent::Unknown(j),
        }
    }

    /// The event of a payload that was read as JSON, where it could be.
    pub fn from_payload(data: &str, parsed: Option<Json>) -> (r: RunEvent)
        ensures
            r@ == event_of_text(data@, opt_tree(parsed)),
    {
        match parsed {
            Some(j) => RunEvent::from_json(j),
            None => RunEvent::Unknown(Json::Str(data.to_owned())),
        }
    }

    /// The event of one `data` payload. A payload that is not JSON is kept as its text.
    pub fn parse(data: &str) -> (r: RunEvent)
        ensures
            r@ == event_of_text(data@, document(data@)),
    {
        RunEvent::from_payload(data, parse(data))
    }

    /// The run that the event belongs to.
    pub fn run_id(&self) -> (r: Option<i64>)
        ensures
            r == self@.run_id(),
    {
        match self {
            RunEvent::Started { run_id, .. } => Some(*run_id),
            RunEvent::Step { run_id, .. } => Some(*run_id),
            RunEvent::Progress { run_id, .. } => Some(*run_id),
            RunEvent::Finished { run_id, .. } => Some(*run_id),
            RunEvent::Error { run_id, .. } => Some(*run_id),
            RunEvent::Unknown(v) => v.i64_at("run_id"),
        }
    }

    /// Whether no event follows this one.
    pub fn is_terminal(&self) -> (r: bool)
        ensures
            r == self@.is_terminal(),
    {
        matches!(self, RunEvent::Finished { .. } | RunEvent::Error { .. })
    }
}

impl EventView {
    /// The run that the event belongs to.
    pub open spec fn run_id(self) -> Option<i64> {
        match self {
            EventView::Started { run_id, .. } => Some(run_id),
            EventView::Step { run_id, .. } => Some(run_id),
            EventView::Progress { run_id, .. } => Some(run_id),
            EventView::Finished { run_id, .. } => Some(run_id),
            EventView::Error { run_id, .. } => Some(run_id),
            EventView::Unknown(t) => t.i64_at("run_id"@),
        }
    }

    /// Whether no event follows this one.
    pub open spec fn is_terminal(self) -> bool {
        self is Finished || self is Error
    }
}

/// An object's run id stays readable whatever the event's name is, so a vocabulary that
/// grows loses no event.
pub proof fn law_unknown_events_keep_their_run(t: Tree)
    requires
        t is Object,
        t.i64_at("run_id"@) is Some,
    ensures
        event_of(t).run_id() == t.i64_at("run_id"@),
{
}

/// An event as the daemon sends it.
pub open spec fn event_tree(e: EventView) -> Tree {
    match e {
        EventView::Started { run_id, total_steps } => Tree::Object(
            seq![
                ("event"@, Tree::Str("started"@)),
                ("run_id"@, int_tree(run_id as int)),
                ("total_steps"@, int_tree(total_steps as int)),
            ],
        ),
        EventView::Step { run_id, index, step_type, status } => Tree::Object(
            seq![
                ("event"@, Tree::Str("step"@)),
                ("run_id"@, int_tree(run_id as int)),
                ("index"@, int_tree(index as int)),
                ("step_type"@, Tree::Str(step_type)),
                ("status"@, Tree::Str(status)),
            ],
        ),
        EventView::Progress { run_id, completed, total } => Tree::Object(
            seq![
                ("event"@, Tree::Str("progress"@)),
                ("run_id"@, int_tree(run_id as int)),
                ("completed"@, int_tree(completed as int)),
                ("total"@, int_tree(total as int)),
            ],
        ),
        EventView::Finished { run_id, status } => Tree::Object(
            seq![
                ("event"@, Tree::Str("finished"@)),
                ("run_id"@, int_tree(run_id as int)),
                ("status"@, Tree::Str(status)),
            ],
        ),
        EventView::Error { run_id, message } => Tree::Object(
            seq![
                ("event"@, Tree::Str("error"@)),
                ("run_id"@, int_tree(run_id as int)),
                ("message"@, Tree::Str(message)),
            ],
        ),
        EventView::Unknown(t) => t,
    }
}

proof fn lemma_event_names()
    ensures
        "started"@ != "step"@,
        "started"@ != "progress"@,
        "started"@ != "finished"@,
        "started"@ != "error"@,
        "step"@ != "progress"@,
        "step"@ != "finished"@,
        "step"@ != "error"@,
        "progress"@ != "finished"@,
        "progress"@ != "error"@,
        "finished"@ != "error"@,
{
    reveal_strlit("started");
    reveal_strlit("step");
    reveal_strlit("progress");
    reveal_strlit("finished");
    reveal_strlit("error");
    assert("started"@.len() == 7);
    assert("step"@.len() == 4);
    assert("progress"@.len() == 8);
    assert("finished"@.len() == 8);
    assert("error"@.len() == 5);
    assert("progress"@[0] == 'p' && "finished"@[0] == 'f');
}

/// An event is told by its members, whatever their order and whatever stands beside them:
/// each field is the member of its own name.
pub proof fn law_events_are_read_by_name(t: Tree)
    requires
        t is Object,
    ensures
        t.str_at("event"@) == Some("started"@) ==> t.i64_at("run_id"@) is Some ==> t.get(
            "total_steps"@,
        ) is Some ==> t.get("total_steps"@)->0.as_u64() is Some ==> event_of(t)
            == (EventView::Started {
            run_id: t.i64_at("run_id"@)->0,
            total_steps: t.get("total_steps"@)->0.as_u64()->0,
        }),
        t.str_at("event"@) == Some("step"@) ==> t.i64_at("run_id"@) is Some ==> t.get(
            "index"@,
        ) is Some ==> t.get("index"@)->0.as_u64() is Some ==> t.str_at("step_type"@) is Some
            ==> t.str_at("status"@) is Some ==> event_of(t) == (EventView::Step {
            run_id: t.i64_at("run_id"@)->0,
            index: t.get("index"@)->0.as_u64()->0,
            step_type: t.str_at("step_type"@)->0,
            status: t.str_at("status"@)->0,
        }),
        t.str_at("event"@) == Some("progress"@) ==> t.i64_at("run_id"@) is Some ==> t.get(
            "completed"@,
        ) is Some ==> t.get("completed"@)->0.as_u64() is Some ==> t.get("total"@) is Some ==> t.get(
            "total"@,
        )->0.as_u64() is Some ==> event_of(t) == (EventView::Progress {
            run_id: t.i64_at("run_id"@)->0,
            completed: t.get("completed"@)->0.as_u64()->0,
            total: t.get("total"@)->0.as_u64()->0,
        }),
        t.str_at("event"@) == Some("finished"@) ==> t.i64_at("run_id"@) is Some ==> t.str_at(
            "status"@,
        ) is Some ==> event_of(t) == (EventView::Finished {
            run_id: t.i64_at("run_id"@)->0,
            status: t.str_at("status"@)->0,
        }),
        t.str_at("event"@) == Some("error"@) ==> t.i64_at("run_id"@) is Some ==> t.str_at(
            "message"@,
        ) is Some ==> event_of(t) == (EventView::Error {
            run_id: t.i64_at("run_id"@)->0,
            message: t.str_at("message"@)->0,
        }),
{
    lemma_event_names();
}

/// Nothing is taken for an event that it is not: the name is that of the event, the run is
/// the one named, and whatever is no event of the vocabulary is kept whole.
pub proof fn law_events_are_what_they_are_called(t: Tree)
    requires
        t is Object,
    ensures
        event_of(t) is Started ==> t.str_at("event"@) == Some("started"@),
        event_of(t) is Step ==> t.str_at("event"@) == Some("step"@),
        event_of(t) is Progress ==> t.str_at("event"@) == Some("progress"@),
        event_of(t) is Finished ==> t.str_at("event"@) == Some("finished"@),
        event_of(t) is Error ==> t.str_at("event"@) == Some("error"@),
        event_of(t) matches EventView::Unknown(kept) ==> kept == t,
        event_of(t).is_terminal() <==> (event_of(t) is Finished || event_of(t) is Error),
{
    lemma_event_names();
}

/// Every event of the vocabulary survives being sent.
#[verifier::spinoff_prover]
pub proof fn law_events_round_trip(e: EventView)
    requires
        !(e is Unknown),
    ensures
        event_of(event_tree(e)) == e,
{
    let t = event_tree(e);
    let m = t->Object_0;
    reveal_with_fuel(member_from, 7);
    reveal_strlit("event");
    reveal_strlit("run_id");
    reveal_strlit("total_steps");
    reveal_strlit("index");
    reveal_strlit("step_type");
    reveal_strlit("status");
    reveal_strlit("completed");
    reveal_strlit("total");
    reveal_strlit("message");
    assert("event"@.len() == 5);
    assert("run_id"@.len() == 6);
    assert("total_steps"@.len() == 11);
    assert("index"@.len() == 5);
    assert("step_type"@.len() == 9);
    assert("status"@.len() == 6);
    assert("completed"@.len() == 9);
    assert("total"@.len() == 5);
    assert("message"@.len() == 7);
    assert("run_id"@[0] == 'r' && "status"@[0] == 's');
    assert("event"@[0] == 'e' && "index"@[0] == 'i' && "total"@[0] == 't');
    assert("step_type"@[0] == 's' && "completed"@[0] == 'c');
    match e {
        EventView::Started { run_id, total_steps } => {
            assert(t.get("event"@) == Some(m[0].1));
            assert(t.get("run_id"@) == Some(m[1].1));
            assert(t.get("total_steps"@) == Some(m[2].1));
        },
        EventView::Step { run_id, index, step_type, status } => {
            assert(t.get("event"@) == Some(m[0].1));
            assert(t.get("run_id"@) == Some(m[1].1));
            assert(t.get("index"@) == Some(m[2].1));
            assert(t.get("step_type"@) == Some(m[3].1));
            assert(t.get("status"@) == Some(m[4].1));
        },
        EventView::Progress { run_id, completed, total } => {
            assert(t.get("event"@) == Some(m[0].1));
            assert(t.get("run_id"@) == Some(m[1].1));
            assert(t.get("completed"@) == Some(m[2].1));
            assert(t.get("total"@) == Some(m[3].1));
        },
        EventView::Finished { run_id, status } => {
            assert(t.get("event"@) == Some(m[0].1));
            assert(t.get("run_id"@) == Some(m[1].1));
            assert(t.get("status"@) == Some(m[2].1));
        },
        EventView::Error { run_id, message } => {
            assert(t.get("event"@) == Some(m[0].1));
            assert(t.get("run_id"@) == Some(m[1].1));
            assert(t.get("message"@) == Some(m[2].1));
        },
        EventView::Unknown(_) => {},
    }
    law_events_are_read_by_name(t);
}

/// A payload that is no JSON is kept as its text.
pub proof fn law_unreadable_payloads_are_kept(text: Seq<char>, t: Tree)
    ensures
        event_of_text(text, None) == EventView::Unknown(Tree::Str(text)),
        event_of_text(text, Some(t)) == event_of(t),
{
}

/// An event that is written by position has its fields in their order.
pub proof fn law_events_are_read_by_position(a: Tree, b: Tree, c: Tree, d: Tree)
    ensures
        a.as_i64() is Some && b.as_u64() is Some ==> event_of(
            Tree::Array(seq![Tree::Str("started"@), a, b]),
        ) == (EventView::Started { run_id: a.as_i64()->0, total_steps: b.as_u64()->0 }),
        a.as_i64() is Some && b.as_u64() is Some && c is Str && d is Str ==> event_of(
            Tree::Array(seq![Tree::Str("step"@), a, b, c, d]),
        ) == (EventView::Step {
            run_id: a.as_i64()->0,
            index: b.as_u64()->0,
            step_type: c->Str_0,
            status: d->Str_0,
        }),
        a.as_i64() is Some && b.as_u64() is Some && c.as_u64() is Some ==> event_of(
            Tree::Array(seq![Tree::Str("progress"@), a, b, c]),
        ) == (EventView::Progress {
            run_id: a.as_i64()->0,
            completed: b.as_u64()->0,
            total: c.as_u64()->0,
        }),
        a.as_i64() is Some && b is Str ==> event_of(
            Tree::Array(seq![Tree::Str("finished"@), a, b]),
        ) == (EventView::Finished { run_id: a.as_i64()->0, status: b->Str_0 }),
        a.as_i64() is Some && b is Str ==> event_of(
            Tree::Array(seq![Tree::Str("error"@), a, b]),
        ) == (EventView::Error { run_id: a.as_i64()->0, message: b->Str_0 }),
{
    lemma_event_names();
}

/// The name a dataset export format goes by.
#[derive(Debug, Clone, Copy, PartialEq, Eq, Structural)]
pub enum DatasetFormat {
    Json,
    Csv,
    Markdown,
    Html,
}

impl DatasetFormat {
    /// The name of the format.
    pub open spec fn name(self) -> Seq<char> {
        match self {
            DatasetFormat::Json => "json"@,
            DatasetFormat::Csv => "csv"@,
            DatasetFormat::Markdown => "markdown"@,
            DatasetFormat::Html => "html"@,
        }
    }

    /// The name of the format.
    pub fn as_str(self) -> (r: &'static str)
        ensures
            r@ == self.name(),
    {
        match self {
            DatasetFormat::Json => "json",
            DatasetFormat::Csv => "csv",
            DatasetFormat::Markdown => "markdown",
            DatasetFormat::Html => "html",
        }
    }
}

/// Branding of a crawl: one name, or one for the crawl and one for its agent.
#[derive(Debug, Clone)]
pub enum Brand {
    Name(String),
    Pair { crawl: String, agent: Option<String> },
}

impl Default for Brand {
    fn default() -> (r: Self)
        ensures
            r@ == BrandView::Name(seq![]),
    {
        Brand::Name(String::new())
    }
}

/// The contents of a brand.
#[verifier::ext_equal]
pub enum BrandView {
    Name(Seq<char>),
    Pair { crawl: Seq<char>, agent: Option<Seq<char>> },
}

impl BrandView {
    /// The crawl's name.
    pub open spec fn crawl(self) -> Seq<char> {
        match self {
            BrandView::Name(name) => name,
            BrandView::Pair { crawl, .. } => crawl,
        }
    }

    /// The agent's name, where there is one.
    pub open spec fn agent(self) -> Option<Seq<char>> {
        match self {
            BrandView::Name(_) => None,
            BrandView::Pair { agent, .. } => agent,
        }
    }
}

impl View for Brand {
    type V = BrandView;

    open spec fn view(&self) -> BrandView {
        match *self {
            Brand::Name(name) => BrandView::Name(name@),
            Brand::Pair { crawl, agent } => BrandView::Pair {
                crawl: crawl@,
                agent: opt_string(agent),
            },
        }
    }
}

/// The brand that a value is: a string, or an object with a name for the crawl and
/// perhaps one for the agent. Null is the empty name.
pub open spec fn brand_of(t: Tree) -> Option<BrandView> {
    match t {
        Tree::Null => Some(BrandView::Name(seq![])),
        Tree::Str(s) => Some(BrandView::Name(s)),
        Tree::Object(_) => match (t.str_at("crawl"@), t.get("agent"@)) {
            (Some(crawl), None) => Some(BrandView::Pair { crawl, agent: None }),
            (Some(crawl), Some(Tree::Null)) => Some(BrandView::Pair { crawl, agent: None }),
            (Some(crawl), Some(Tree::Str(agent))) => Some(
                BrandView::Pair { crawl, agent: Some(agent) },
            ),
            _ => None,
        },
        _ => None,
    }
}

impl Brand {
    /// The crawl's name.
    pub fn crawl(&self) -> (r: &str)
        ensures
            r@ == self@.crawl(),
    {
        match self {
            Brand::Name(name) => name.as_str(),
            Brand::Pair { crawl, .. } => crawl.as_str(),
        }
    }

    /// The agent's name, where there is one.
    pub fn agent(&self) -> (r: Option<&str>)
        ensures
            opt_text(r) == self@.agent(),
    {
        match self {
            Brand::Name(_) => None,
            Brand::Pair { agent, .. } => match agent {
                Some(a) => Some(a.as_str()),
                None => None,
            },
        }
    }

    /// Reads a brand.
    pub fn from_json(j: &Json) -> (r: Option<Brand>)
        ensures
            match (r, brand_of(j.tree())) {
                (Some(b), Some(v)) => b@ == v,
                (None, None) => true,
                _ => false,
            },
    {
        match j {
            Json::Null => Some(Brand::Name(String::new())),
            Json::Str(s) => Some(Brand::Name(s.clone())),
            Json::Object(_) => {
                let crawl: String = match j.str_at("crawl") {
                    Some(c) => c.to_owned(),
                    None => {
                        return None;
                    },
                };
                match j.get("agent") {
                    None => Some(Brand::Pair { crawl, agent: None }),
                    Some(Json::Null) => Some(Brand::Pair { crawl, agent: None }),
                    Some(Json::Str(a)) => Some(Brand::Pair { crawl, agent: Some(a.clone()) }),
                    Some(_) => None,
                }
            },
            _ => None,
        }
    }
}

/// A crawl.
#[derive(Debug, Clone, Default)]
pub struct CrawlJob {
    pub id: i64,
    pub name: String,
    pub seed_url: String,
    pub include_paths: Vec<String>,
    pub exclude_paths: Vec<String>,
    pub max_depth: i64,
    pub same_domain: i64,
    pub allow_subdomains: i64,
    pub extract_mode: String,
    pub extract_schema: Option<Json>,
    pub persona_id: Option<i64>,
    pub respect_robots: i64,
    pub delay_ms: i64,
    pub max_concurrent: i64,
    pub page_budget: i64,
    pub workflow_id: Option<i64>,
    pub data_workflow_id: Option<i64>,
    pub concierge_session_id: Option<i64>,
    pub status: String,
    pub pages_discovered: i64,
    pub pages_done: i64,
    pub pages_failed: i64,
    pub pages_skipped: i64,
    pub workers_active: i64,
    pub current_depth: i64,
    pub error: Option<String>,
    pub cancel_requested: i64,
    pub brand: Brand,
    pub is_terminal: bool,
    pub created_at: String,
    pub updated_at: Option<String>,
    pub started_at: Option<String>,
    pub completed_at: Option<String>,
    pub extra: Extra,
}

/// The outcome of a crawl's cancellation.
#[derive(Debug, Clone, Default)]
pub struct CrawlCancel {
    pub job: CrawlJob,
    /// Whether this call is the one that asked for it.
    pub cancel_requested_now: bool,
}

/// A file that a crawl collected.
#[derive(Debug, Clone, Default)]
pub struct CrawlFileEntry {
    pub file_id: String,
    pub filename: String,
    pub content_type: Option<String>,
    pub size: i64,
    pub version: i64,
    pub source_url: Option<String>,
    pub crawl_ids: Vec<i64>,
    pub created_at: Option<String>,
    pub download_url: Option<String>,
}

/// The files of a crawl.
#[derive(Debug, Clone, Default)]
pub struct CrawlFilesResult {
    pub crawl_id: i64,
    pub files: Vec<CrawlFileEntry>,
    pub total: i64,
}

/// How a saved crawl is run.
#[derive(Debug, Clone, Default)]
pub struct RunSavedCrawlParams {
    /// Accept data that is at most this old in place of a run.
    pub max_age: Option<Duration>,
    /// Wait for the end of the run.
    pub wait: bool,
    /// Wait at most this long.
    pub timeout: Option<Duration>,
    pub limit: Option<i64>,
}

/// Whether an answer came from data that was there already.
#[derive(Debug, Clone, Default)]
pub struct CacheStamp {
    pub hit: bool,
    pub age_seconds: Option<i64>,
    pub source_crawl_id: Option<i64>,
}

/// Settings of a crawl. What is unset is not sent.
#[derive(Debug, Clone, Default)]
pub struct CrawlStartParams {
    pub url: String,
    pub name: Option<String>,
    pub extract_mode: Option<String>,
    pub extract_schema: Option<Json>,
    pub persona_id: Option<i64>,
    pub executor: Option<String>,
    pub extract_prompt: Option<String>,
    pub render_mode: Option<String>,
    pub ocr_mode: Option<String>,
    pub intent: Option<String>,
    pub include_paths: Option<Vec<String>>,
    pub exclude_paths: Option<Vec<String>>,
    pub max_depth: Option<i64>,
    pub page_budget: Option<i64>,
    pub max_concurrent: Option<i64>,
    pub delay_ms: Option<i64>,
    pub respect_robots: Option<bool>,
    pub same_domain: Option<bool>,
    pub allow_subdomains: Option<bool>,
    pub shard_size: Option<i64>,
    pub use_residential: Option<bool>,
    pub speed: Option<String>,
}

/// The members of a crawl's request body.
pub open spec fn crawl_members(p: CrawlStartParams) -> Seq<(Seq<char>, Tree)> {
    seq![("url"@, Tree::Str(p.url@))] + opt_member("name"@, text_tree(p.name)) + opt_member(
        "extract_mode"@,
        text_tree(p.extract_mode),
    ) + opt_member("extract_schema"@, opt_tree(p.extract_schema)) + opt_member(
        "persona_id"@,
        opt_int_tree(p.persona_id),
    ) + opt_member("executor"@, text_tree(p.executor)) + opt_member(
        "extract_prompt"@,
        text_tree(p.extract_prompt),
    ) + opt_member("render_mode"@, text_tree(p.render_mode)) + opt_member(
        "ocr_mode"@,
        text_tree(p.ocr_mode),
    ) + opt_member("intent"@, text_tree(p.intent)) + opt_member(
        "include_paths"@,
        opt_texts_tree(p.include_paths),
    ) + opt_member("exclude_paths"@, opt_texts_tree(p.exclude_paths)) + opt_member(
        "max_depth"@,
        opt_int_tree(p.max_depth),
    ) + opt_member("page_budget"@, opt_int_tree(p.page_budget)) + opt_member(
        "max_concurrent"@,
        opt_int_tree(p.max_concurrent),
    ) + opt_member("delay_ms"@, opt_int_tree(p.delay_ms)) + opt_member(
        "respect_robots"@,
        opt_bool_tree(p.respect_robots),
    ) + opt_member("same_domain"@, opt_bool_tree(p.same_domain)) + opt_member(
        "allow_subdomains"@,
        opt_bool_tree(p.allow_subdomains),
    ) + opt_member("shard_size"@, opt_int_tree(p.shard_size)) + opt_member(
        "use_residential"@,
        opt_bool_tree(p.use_residential),
    ) + opt_member("speed"@, text_tree(p.speed))
}

impl CrawlStartParams {
    /// The request body.
    pub fn to_body(&self) -> (r: Json)
        ensures
            r.tree() == Tree::Object(crawl_members(*self)),
    {
        broadcast use crate::json::lemma_object_tree;

        let mut m: Vec<(String, Json)> = Vec::new();
        put(&mut m, "url", Json::Str(self.url.clone()));
        assert(member_trees(m@) == seq![("url"@, Tree::Str(self.url@))]);
        put_opt(&mut m, "name", text_json(&self.name));
        put_opt(&mut m, "extract_mode", text_json(&self.extract_mode));
        put_opt(&mut m, "extract_schema", copy_opt(&self.extract_schema));
        put_opt(&mut m, "persona_id", int_json(self.persona_id));
        put_opt(&mut m, "executor", text_json(&self.executor));
        put_opt(&mut m, "extract_prompt", text_json(&self.extract_prompt));
        put_opt(&mut m, "render_mode", text_json(&self.render_mode));
        put_opt(&mut m, "ocr_mode", text_json(&self.ocr_mode));
        put_opt(&mut m, "intent", text_json(&self.intent));
        put_opt(&mut m, "include_paths", opt_texts_json(&self.include_paths));
        put_opt(&mut m, "exclude_paths", opt_texts_json(&self.exclude_paths));
        put_opt(&mut m, "max_depth", int_json(self.max_depth));
        put_opt(&mut m, "page_budget", int_json(self.page_budget));
        put_opt(&mut m, "max_concurrent", int_json(self.max_concurrent));
        put_opt(&mut m, "delay_ms", int_json(self.delay_ms));
        put_opt(&mut m, "respect_robots", bool_json(self.respect_robots));
        put_opt(&mut m, "same_domain", bool_json(self.same_domain));
        put_opt(&mut m, "allow_subdomains", bool_json(self.allow_subdomains));
        put_opt(&mut m, "shard_size", int_json(self.shard_size));
        put_opt(&mut m, "use_residential", bool_json(self.use_residential));
        put_opt(&mut m, "speed", text_json(&self.speed));
        Json::Object(m)
    }
}

} // verus!
