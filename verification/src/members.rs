//! What reading a model comes to, member by member: nothing that a server sends is lost,
//! nothing is taken for something else, and nothing is made up.

use crate::decode::{
    all_texts, cancel_outcome_fields, cancel_outcome_readable, crawl_job_fields,
    crawl_job_readable, feed_item_fields, feed_item_readable, members_of, run_completed_fields,
    run_completed_readable, unknown, without_member, workflow_fields, workflow_readable,
};
use crate::json::{
    member_from, member_trees, opt_bool_tree, opt_texts_tree, opt_tree, text_tree, texts_tree,
    trees, Json, Tree,
};
use crate::models::{
    BrandView, CancelOutcome, CrawlCancel, CrawlJob, RunCompleted, RunFeedItem, Workflow,
};
use crate::text::texts;
use vstd::prelude::*;

verus! {

broadcast use vstd::string::group_string_axioms;

/// Whether a member that may be left out, and is 0 then, is this number.
pub open spec fn is_int(member: Option<Tree>, n: i64) -> bool {
    match member {
        Some(v) => v.as_i64() == Some(n),
        None => n == 0,
    }
}

/// Whether a member that may be left out, and is empty then, is this text.
pub open spec fn is_text(member: Option<Tree>, s: String) -> bool {
    match member {
        Some(v) => v == Tree::Str(s@),
        None => s@.len() == 0,
    }
}

/// Whether a member that may be left out, and is off then, is this flag.
pub open spec fn is_flag(member: Option<Tree>, b: bool) -> bool {
    match member {
        Some(v) => v == Tree::Bool(b),
        None => !b,
    }
}

/// Whether a member that may be left out, and is empty then, is this list of texts.
pub open spec fn is_list(member: Option<Tree>, l: Vec<String>) -> bool {
    match member {
        Some(v) => v == texts_tree(l@),
        None => l@.len() == 0,
    }
}

/// Whether a member that may be left out or null is this value, or nothing.
pub open spec fn is_opt(member: Option<Tree>, value: Option<Tree>) -> bool {
    match (member, value) {
        (Some(v), Some(w)) => !(v is Null) && v == w,
        (Some(v), None) => v is Null,
        (None, _) => value is None,
    }
}

/// Whether a member that may be left out or null is this number, or nothing.
pub open spec fn is_opt_int(member: Option<Tree>, value: Option<i64>) -> bool {
    match (member, value) {
        (Some(v), Some(n)) => v.as_i64() == Some(n),
        (Some(v), None) => v is Null,
        (None, _) => value is None,
    }
}

/// A list of any values.
pub open spec fn opt_items_tree(v: Option<Vec<Json>>) -> Option<Tree> {
    match v {
        Some(l) => Some(Tree::Array(trees(l@))),
        None => None,
    }
}

/// What a member may be.
pub enum Kind {
    Int,
    Text,
    Flag,
    OptInt,
    OptText,
    OptFlag,
    Texts,
    OptTexts,
    OptItems,
    Brand,
    MustInt,
    MustText,
}

/// Whether a value is an array of strings.
pub open spec fn is_texts(v: Tree) -> bool {
    v matches Tree::Array(items) && forall|i: int|
        0 <= i < items.len() ==> #[trigger] items[i] is Str
}

/// Whether a value is a brand: a name, or an object with a name and perhaps an agent.
pub open spec fn is_brand(v: Tree) -> bool {
    match v {
        Tree::Null => true,
        Tree::Str(_) => true,
        Tree::Object(_) => v.str_at("crawl"@) is Some && (v.get("agent"@) is None || v.get(
            "agent"@,
        ) == Some(Tree::Null) || v.str_at("agent"@) is Some),
        _ => false,
    }
}

/// Whether a member may be what it is.
pub open spec fn fits(member: Option<Tree>, kind: Kind) -> bool {
    match member {
        None => !(kind is MustInt || kind is MustText),
        Some(v) => match kind {
            Kind::Int => v.as_i64() is Some,
            Kind::MustInt => v.as_i64() is Some,
            Kind::Text => v is Str,
            Kind::MustText => v is Str,
            Kind::Flag => v is Bool,
            Kind::OptInt => v is Null || v.as_i64() is Some,
            Kind::OptText => v is Null || v is Str,
            Kind::OptFlag => v is Null || v is Bool,
            Kind::Texts => is_texts(v),
            Kind::OptTexts => v is Null || is_texts(v),
            Kind::OptItems => v is Null || v is Array,
            Kind::Brand => is_brand(v),
        },
    }
}

/// Whether every member that a table names is of its kind.
pub open spec fn all_fit(t: Tree, table: Seq<(Seq<char>, Kind)>) -> bool {
    forall|i: int|
        0 <= i < table.len() ==> fits(t.get((#[trigger] table[i]).0), table[i].1)
}

proof fn lemma_get_push(members: Seq<(Seq<char>, Tree)>, last: (Seq<char>, Tree), key: Seq<char>)
    ensures
        Tree::Object(members.push(last)).get(key) == match Tree::Object(members).get(key) {
            Some(v) => Some(v),
            None => if last.0 == key {
                Some(last.1)
            } else {
                None
            },
        },
{
    lemma_member_from(members, key, 0);
    lemma_member_from(members.push(last), key, 0);
    let i = member_from(members, key, 0);
    let j = member_from(members.push(last), key, 0);
    if i < members.len() {
        assert(members.push(last)[i] == members[i]);
        if j < i {
            assert(members.push(last)[j] == members[j]);
        }
    } else if j < members.len() {
        assert(members.push(last)[j] == members[j]);
    } else if last.0 == key && j > members.len() {
        assert(members.push(last)[members.len() as int].0 == key);
    }
}

/// The first member of a name.
pub proof fn lemma_member_from(members: Seq<(Seq<char>, Tree)>, key: Seq<char>, i: int)
    requires
        0 <= i <= members.len(),
    ensures
        i <= member_from(members, key, i) <= members.len(),
        member_from(members, key, i) < members.len() ==> members[member_from(members, key, i)].0
            == key,
        forall|k: int| i <= k < member_from(members, key, i) ==> (#[trigger] members[k]).0 != key,
    decreases members.len() - i,
{
    if i < members.len() && members[i].0 != key {
        lemma_member_from(members, key, i + 1);
    }
}

/// A member with a name that is not among the known ones is kept as it is.
proof fn lemma_unknown_get(
    members: Seq<(Seq<char>, Tree)>,
    known: Seq<Seq<char>>,
    key: Seq<char>,
)
    requires
        !known.contains(key),
    ensures
        Tree::Object(unknown(members, known)).get(key) == Tree::Object(members).get(key),
    decreases members.len(),
{
    if members.len() > 0 {
        let init = members.drop_last();
        let last = members.last();
        lemma_unknown_get(init, known, key);
        assert(members == init.push(last));
        lemma_get_push(init, last, key);
        lemma_get_push(unknown(init, known), last, key);
    } else {
        assert(unknown(members, known) == members);
    }
}

proof fn lemma_all_texts(items: Seq<Tree>)
    ensures
        all_texts(items) is Some <==> forall|i: int|
            0 <= i < items.len() ==> #[trigger] items[i] is Str,
        all_texts(items) matches Some(l) ==> l.len() == items.len() && forall|i: int|
            0 <= i < items.len() ==> #[trigger] items[i] == Tree::Str(l[i]),
    decreases items.len(),
{
    if items.len() > 0 {
        let init = items.drop_last();
        lemma_all_texts(init);
        assert forall|i: int| 0 <= i < init.len() implies init[i] == items[i] by {}
        if all_texts(items) is Some {
            let l = all_texts(items)->0;
            assert forall|i: int| 0 <= i < items.len() implies #[trigger] items[i] == Tree::Str(
                l[i],
            ) by {
                if i < init.len() {
                    assert(init[i] == items[i]);
                }
            }
        } else if forall|i: int| 0 <= i < items.len() ==> #[trigger] items[i] is Str {
            assert forall|i: int| 0 <= i < init.len() implies #[trigger] init[i] is Str by {
                assert(init[i] == items[i]);
            }
            assert(items[items.len() - 1] is Str);
        }
    }
}

/// The texts of a list are those of the array that it was read from.
proof fn lemma_texts_back(v: Tree, l: Seq<String>)
    requires
        v is Array,
        all_texts(v->Array_0) == Some(texts(l)),
    ensures
        texts_tree(l) == v,
{
    lemma_all_texts(v->Array_0);
    assert(texts_tree(l)->Array_0 == v->Array_0);
}

/// Every field of a workflow is the member of its own name: nothing is lost, made up or taken for
/// another.
#[verifier::spinoff_prover]
#[verifier::rlimit(40)]
pub proof fn law_workflow_is_read_by_name(j: Json, x: Workflow, t: Tree)
    requires
        call_ensures(Workflow::from_json, (&j,), Some(x)),
        t == j.tree(),
    ensures
        is_int(t.get("id"@), x.id),
        is_text(t.get("name"@), x.name),
        is_opt(t.get("description"@), text_tree(x.description)),
        is_opt(t.get("workflow_type"@), text_tree(x.workflow_type)),
        is_opt(t.get("entry_url"@), text_tree(x.entry_url)),
        t.get("steps"@) matches Some(v) ==> if v is Null {
            x.steps is None
        } else {
            opt_tree(x.steps) == Some(v)
        },
        t.get("steps"@) is None ==> x.steps is None,
        t.get("form_data"@) matches Some(v) ==> if v is Null {
            x.form_data is None
        } else {
            opt_tree(x.form_data) == Some(v)
        },
        t.get("form_data"@) is None ==> x.form_data is None,
        t.get("functions"@) matches Some(v) ==> if v is Null {
            x.functions is None
        } else {
            opt_tree(x.functions) == Some(v)
        },
        t.get("functions"@) is None ==> x.functions is None,
        is_opt_int(t.get("is_active"@), x.is_active),
        is_opt_int(t.get("is_verified"@), x.is_verified),
        is_opt_int(t.get("timeout_ms"@), x.timeout_ms),
        is_opt_int(t.get("retry_count"@), x.retry_count),
        is_opt_int(t.get("headless"@), x.headless),
        is_opt_int(t.get("schedule_enabled"@), x.schedule_enabled),
        is_opt_int(t.get("schedule_interval_ms"@), x.schedule_interval_ms),
        is_opt(t.get("schedule_kind"@), text_tree(x.schedule_kind)),
        is_opt(t.get("schedule_time"@), text_tree(x.schedule_time)),
        is_opt(t.get("schedule_days"@), text_tree(x.schedule_days)),
        is_opt(t.get("schedule_tz"@), text_tree(x.schedule_tz)),
        is_opt(t.get("last_scheduled_at"@), text_tree(x.last_scheduled_at)),
        is_opt(t.get("next_scheduled_at"@), text_tree(x.next_scheduled_at)),
        is_opt_int(t.get("default_persona_id"@), x.default_persona_id),
        is_opt_int(t.get("http_capable"@), x.http_capable),
        is_opt_int(t.get("usage_count"@), x.usage_count),
        is_opt_int(t.get("total_run_count"@), x.total_run_count),
        is_opt_int(t.get("total_failure_count"@), x.total_failure_count),
        is_opt_int(t.get("consecutive_failures"@), x.consecutive_failures),
        is_opt(t.get("last_run_at"@), text_tree(x.last_run_at)),
        is_opt(t.get("last_run_status"@), text_tree(x.last_run_status)),
        is_opt_int(t.get("last_run_duration_ms"@), x.last_run_duration_ms),
        is_opt(t.get("last_failure_at"@), text_tree(x.last_failure_at)),
        is_opt(t.get("last_failure_error"@), text_tree(x.last_failure_error)),
        is_opt_int(t.get("cloud_callable"@), x.cloud_callable),
        is_opt(t.get("execution_target"@), text_tree(x.execution_target)),
        is_opt(t.get("marketplace_slug"@), text_tree(x.marketplace_slug)),
        is_opt(t.get("created_at"@), text_tree(x.created_at)),
        is_opt(t.get("updated_at"@), text_tree(x.updated_at)),
        is_opt(t.get("has_credentials"@), opt_bool_tree(x.has_credentials)),
        is_opt(t.get("credential_keys"@), opt_texts_tree(x.credential_keys)),
        is_opt(t.get("placeholders"@), opt_items_tree(x.placeholders)),
        is_opt(t.get("has_login"@), opt_bool_tree(x.has_login)),
{
    if t.get("credential_keys"@) is Some && !(t.get("credential_keys"@)->0 is Null) {
        lemma_texts_back(t.get("credential_keys"@)->0, x.credential_keys->0@);
    }
}

/// Every other member of a workflow is kept as it is, under its name.
pub proof fn law_workflow_keeps_what_it_does_not_know(
    j: Json,
    x: Workflow,
    t: Tree,
    name: Seq<char>,
)
    requires
        call_ensures(Workflow::from_json, (&j,), Some(x)),
        t == j.tree(),
        name != "id"@,
        name != "name"@,
        name != "description"@,
        name != "workflow_type"@,
        name != "entry_url"@,
        name != "steps"@,
        name != "form_data"@,
        name != "functions"@,
        name != "is_active"@,
        name != "is_verified"@,
        name != "timeout_ms"@,
        name != "retry_count"@,
        name != "headless"@,
        name != "schedule_enabled"@,
        name != "schedule_interval_ms"@,
        name != "schedule_kind"@,
        name != "schedule_time"@,
        name != "schedule_days"@,
        name != "schedule_tz"@,
        name != "last_scheduled_at"@,
        name != "next_scheduled_at"@,
        name != "default_persona_id"@,
        name != "http_capable"@,
        name != "usage_count"@,
        name != "total_run_count"@,
        name != "total_failure_count"@,
        name != "consecutive_failures"@,
        name != "last_run_at"@,
        name != "last_run_status"@,
        name != "last_run_duration_ms"@,
        name != "last_failure_at"@,
        name != "last_failure_error"@,
        name != "cloud_callable"@,
        name != "execution_target"@,
        name != "marketplace_slug"@,
        name != "created_at"@,
        name != "updated_at"@,
        name != "has_credentials"@,
        name != "credential_keys"@,
        name != "placeholders"@,
        name != "has_login"@,
    ensures
        Tree::Object(member_trees(x.extra@)).get(name) == t.get(name),
{
    let known = workflow_fields();
    assert(members_of(t) == t->Object_0);
    assert forall|i: int| 0 <= i < known.len() implies known[i] != name by {}
    assert(!known.contains(name));
    lemma_unknown_get(members_of(t), known, name);
}

/// A value is a workflow exactly where it is an object whose members are of their kinds. Any
/// other member may be anything.
#[verifier::spinoff_prover]
#[verifier::rlimit(60)]
pub proof fn law_workflow_is_readable(
    j: Json,
    r: Option<Workflow>,
    t: Tree,
    table: Seq<(Seq<char>, Kind)>,
)
    requires
        call_ensures(Workflow::from_json, (&j,), r),
        t == j.tree(),
        table == seq![
            ("id"@, Kind::Int),
            ("name"@, Kind::Text),
            ("description"@, Kind::OptText),
            ("workflow_type"@, Kind::OptText),
            ("entry_url"@, Kind::OptText),
            ("is_active"@, Kind::OptInt),
            ("is_verified"@, Kind::OptInt),
            ("timeout_ms"@, Kind::OptInt),
            ("retry_count"@, Kind::OptInt),
            ("headless"@, Kind::OptInt),
            ("schedule_enabled"@, Kind::OptInt),
            ("schedule_interval_ms"@, Kind::OptInt),
            ("schedule_kind"@, Kind::OptText),
            ("schedule_time"@, Kind::OptText),
            ("schedule_days"@, Kind::OptText),
            ("schedule_tz"@, Kind::OptText),
            ("last_scheduled_at"@, Kind::OptText),
            ("next_scheduled_at"@, Kind::OptText),
            ("default_persona_id"@, Kind::OptInt),
            ("http_capable"@, Kind::OptInt),
            ("usage_count"@, Kind::OptInt),
            ("total_run_count"@, Kind::OptInt),
            ("total_failure_count"@, Kind::OptInt),
            ("consecutive_failures"@, Kind::OptInt),
            ("last_run_at"@, Kind::OptText),
            ("last_run_status"@, Kind::OptText),
            ("last_run_duration_ms"@, Kind::OptInt),
            ("last_failure_at"@, Kind::OptText),
            ("last_failure_error"@, Kind::OptText),
            ("cloud_callable"@, Kind::OptInt),
            ("execution_target"@, Kind::OptText),
            ("marketplace_slug"@, Kind::OptText),
            ("created_at"@, Kind::OptText),
            ("updated_at"@, Kind::OptText),
            ("has_credentials"@, Kind::OptFlag),
            ("credential_keys"@, Kind::OptTexts),
            ("placeholders"@, Kind::OptItems),
            ("has_login"@, Kind::OptFlag),
        ],
    ensures
        r is Some <==> t is Object && all_fit(t, table),
{
    if let Some(Tree::Array(items)) = t.get("credential_keys"@) {
        lemma_all_texts(items);
    }
    if t is Object && all_fit(t, table) {
        assert(fits(t.get(table[0].0), table[0].1));
        assert(fits(t.get(table[1].0), table[1].1));
        assert(fits(t.get(table[2].0), table[2].1));
        assert(fits(t.get(table[3].0), table[3].1));
        assert(fits(t.get(table[4].0), table[4].1));
        assert(fits(t.get(table[5].0), table[5].1));
        assert(fits(t.get(table[6].0), table[6].1));
        assert(fits(t.get(table[7].0), table[7].1));
        assert(fits(t.get(table[8].0), table[8].1));
        assert(fits(t.get(table[9].0), table[9].1));
        assert(fits(t.get(table[10].0), table[10].1));
        assert(fits(t.get(table[11].0), table[11].1));
        assert(fits(t.get(table[12].0), table[12].1));
        assert(fits(t.get(table[13].0), table[13].1));
        assert(fits(t.get(table[14].0), table[14].1));
        assert(fits(t.get(table[15].0), table[15].1));
        assert(fits(t.get(table[16].0), table[16].1));
        assert(fits(t.get(table[17].0), table[17].1));
        assert(fits(t.get(table[18].0), table[18].1));
        assert(fits(t.get(table[19].0), table[19].1));
        assert(fits(t.get(table[20].0), table[20].1));
        assert(fits(t.get(table[21].0), table[21].1));
        assert(fits(t.get(table[22].0), table[22].1));
        assert(fits(t.get(table[23].0), table[23].1));
        assert(fits(t.get(table[24].0), table[24].1));
        assert(fits(t.get(table[25].0), table[25].1));
        assert(fits(t.get(table[26].0), table[26].1));
        assert(fits(t.get(table[27].0), table[27].1));
        assert(fits(t.get(table[28].0), table[28].1));
        assert(fits(t.get(table[29].0), table[29].1));
        assert(fits(t.get(table[30].0), table[30].1));
        assert(fits(t.get(table[31].0), table[31].1));
        assert(fits(t.get(table[32].0), table[32].1));
        assert(fits(t.get(table[33].0), table[33].1));
        assert(fits(t.get(table[34].0), table[34].1));
        assert(fits(t.get(table[35].0), table[35].1));
        assert(fits(t.get(table[36].0), table[36].1));
        assert(fits(t.get(table[37].0), table[37].1));
    }
    if workflow_readable(t) {
        assert forall|i: int| 0 <= i < table.len() implies fits(
            t.get((#[trigger] table[i]).0),
            table[i].1,
        ) by {
            if i == 0 {
                assert(table[i] == ("id"@, Kind::Int));
            }
            if i == 1 {
                assert(table[i] == ("name"@, Kind::Text));
            }
            if i == 2 {
                assert(table[i] == ("description"@, Kind::OptText));
            }
            if i == 3 {
                assert(table[i] == ("workflow_type"@, Kind::OptText));
            }
            if i == 4 {
                assert(table[i] == ("entry_url"@, Kind::OptText));
            }
            if i == 5 {
                assert(table[i] == ("is_active"@, Kind::OptInt));
            }
            if i == 6 {
                assert(table[i] == ("is_verified"@, Kind::OptInt));
            }
            if i == 7 {
                assert(table[i] == ("timeout_ms"@, Kind::OptInt));
            }
            if i == 8 {
                assert(table[i] == ("retry_count"@, Kind::OptInt));
            }
            if i == 9 {
                assert(table[i] == ("headless"@, Kind::OptInt));
            }
            if i == 10 {
                assert(table[i] == ("schedule_enabled"@, Kind::OptInt));
            }
            if i == 11 {
                assert(table[i] == ("schedule_interval_ms"@, Kind::OptInt));
            }
            if i == 12 {
                assert(table[i] == ("schedule_kind"@, Kind::OptText));
            }
            if i == 13 {
                assert(table[i] == ("schedule_time"@, Kind::OptText));
            }
            if i == 14 {
                assert(table[i] == ("schedule_days"@, Kind::OptText));
            }
            if i == 15 {
                assert(table[i] == ("schedule_tz"@, Kind::OptText));
            }
            if i == 16 {
                assert(table[i] == ("last_scheduled_at"@, Kind::OptText));
            }
            if i == 17 {
                assert(table[i] == ("next_scheduled_at"@, Kind::OptText));
            }
            if i == 18 {
                assert(table[i] == ("default_persona_id"@, Kind::OptInt));
            }
            if i == 19 {
                assert(table[i] == ("http_capable"@, Kind::OptInt));
            }
            if i == 20 {
                assert(table[i] == ("usage_count"@, Kind::OptInt));
            }
            if i == 21 {
                assert(table[i] == ("total_run_count"@, Kind::OptInt));
            }
            if i == 22 {
                assert(table[i] == ("total_failure_count"@, Kind::OptInt));
            }
            if i == 23 {
                assert(table[i] == ("consecutive_failures"@, Kind::OptInt));
            }
            if i == 24 {
                assert(table[i] == ("last_run_at"@, Kind::OptText));
            }
            if i == 25 {
                assert(table[i] == ("last_run_status"@, Kind::OptText));
            }
            if i == 26 {
                assert(table[i] == ("last_run_duration_ms"@, Kind::OptInt));
            }
            if i == 27 {
                assert(table[i] == ("last_failure_at"@, Kind::OptText));
            }
            if i == 28 {
                assert(table[i] == ("last_failure_error"@, Kind::OptText));
            }
            if i == 29 {
                assert(table[i] == ("cloud_callable"@, Kind::OptInt));
            }
            if i == 30 {
                assert(table[i] == ("execution_target"@, Kind::OptText));
            }
            if i == 31 {
                assert(table[i] == ("marketplace_slug"@, Kind::OptText));
            }
            if i == 32 {
                assert(table[i] == ("created_at"@, Kind::OptText));
            }
            if i == 33 {
                assert(table[i] == ("updated_at"@, Kind::OptText));
            }
            if i == 34 {
                assert(table[i] == ("has_credentials"@, Kind::OptFlag));
            }
            if i == 35 {
                assert(table[i] == ("credential_keys"@, Kind::OptTexts));
            }
            if i == 36 {
                assert(table[i] == ("placeholders"@, Kind::OptItems));
            }
            if i == 37 {
                assert(table[i] == ("has_login"@, Kind::OptFlag));
            }
        }
    }
}

/// Every field of a run is the member of its own name: nothing is lost, made up or taken for
/// another.
#[verifier::spinoff_prover]
#[verifier::rlimit(40)]
pub proof fn law_feed_item_is_read_by_name(j: Json, x: RunFeedItem, t: Tree)
    requires
        call_ensures(RunFeedItem::from_json, (&j,), Some(x)),
        t == j.tree(),
    ensures
        is_text(t.get("id"@), x.id),
        is_opt(t.get("run_type"@), text_tree(x.run_type)),
        is_opt_int(t.get("entity_id"@), x.entity_id),
        is_opt(t.get("entity_name"@), text_tree(x.entity_name)),
        is_text(t.get("status"@), x.status),
        is_opt(t.get("started_at"@), text_tree(x.started_at)),
        is_opt(t.get("finished_at"@), text_tree(x.finished_at)),
        is_opt_int(t.get("duration_ms"@), x.duration_ms),
        is_opt(t.get("trigger_source"@), text_tree(x.trigger_source)),
        is_opt(t.get("error"@), text_tree(x.error)),
        is_opt(t.get("detail_url_hint"@), text_tree(x.detail_url_hint)),
        is_opt(t.get("data_url_hint"@), text_tree(x.data_url_hint)),
        is_opt_int(t.get("rows_extracted"@), x.rows_extracted),
        is_opt(t.get("change_detected"@), opt_bool_tree(x.change_detected)),
        is_opt(t.get("engine"@), text_tree(x.engine)),
{
}

/// Every other member of a run is kept as it is, under its name.
pub proof fn law_feed_item_keeps_what_it_does_not_know(
    j: Json,
    x: RunFeedItem,
    t: Tree,
    name: Seq<char>,
)
    requires
        call_ensures(RunFeedItem::from_json, (&j,), Some(x)),
        t == j.tree(),
        name != "id"@,
        name != "run_type"@,
        name != "entity_id"@,
        name != "entity_name"@,
        name != "status"@,
        name != "started_at"@,
        name != "finished_at"@,
        name != "duration_ms"@,
        name != "trigger_source"@,
        name != "error"@,
        name != "detail_url_hint"@,
        name != "data_url_hint"@,
        name != "rows_extracted"@,
        name != "change_detected"@,
        name != "engine"@,
    ensures
        Tree::Object(member_trees(x.extra@)).get(name) == t.get(name),
{
    let known = feed_item_fields();
    assert(members_of(t) == t->Object_0);
    assert forall|i: int| 0 <= i < known.len() implies known[i] != name by {}
    assert(!known.contains(name));
    lemma_unknown_get(members_of(t), known, name);
}

/// A value is a run exactly where it is an object whose members are of their kinds. Any
/// other member may be anything.
#[verifier::spinoff_prover]
#[verifier::rlimit(60)]
pub proof fn law_feed_item_is_readable(
    j: Json,
    r: Option<RunFeedItem>,
    t: Tree,
    table: Seq<(Seq<char>, Kind)>,
)
    requires
        call_ensures(RunFeedItem::from_json, (&j,), r),
        t == j.tree(),
        table == seq![
            ("id"@, Kind::Text),
            ("run_type"@, Kind::OptText),
            ("entity_id"@, Kind::OptInt),
            ("entity_name"@, Kind::OptText),
            ("status"@, Kind::Text),
            ("started_at"@, Kind::OptText),
            ("finished_at"@, Kind::OptText),
            ("duration_ms"@, Kind::OptInt),
            ("trigger_source"@, Kind::OptText),
            ("error"@, Kind::OptText),
            ("detail_url_hint"@, Kind::OptText),
            ("data_url_hint"@, Kind::OptText),
            ("rows_extracted"@, Kind::OptInt),
            ("change_detected"@, Kind::OptFlag),
            ("engine"@, Kind::OptText),
        ],
    ensures
        r is Some <==> t is Object && all_fit(t, table),
{
    if t is Object && all_fit(t, table) {
        assert(fits(t.get(table[0].0), table[0].1));
        assert(fits(t.get(table[1].0), table[1].1));
        assert(fits(t.get(table[2].0), table[2].1));
        assert(fits(t.get(table[3].0), table[3].1));
        assert(fits(t.get(table[4].0), table[4].1));
        assert(fits(t.get(table[5].0), table[5].1));
        assert(fits(t.get(table[6].0), table[6].1));
        assert(fits(t.get(table[7].0), table[7].1));
        assert(fits(t.get(table[8].0), table[8].1));
        assert(fits(t.get(table[9].0), table[9].1));
        assert(fits(t.get(table[10].0), table[10].1));
        assert(fits(t.get(table[11].0), table[11].1));
        assert(fits(t.get(table[12].0), table[12].1));
        assert(fits(t.get(table[13].0), table[13].1));
        assert(fits(t.get(table[14].0), table[14].1));
    }
    if feed_item_readable(t) {
        assert forall|i: int| 0 <= i < table.len() implies fits(
            t.get((#[trigger] table[i]).0),
            table[i].1,
        ) by {
            if i == 0 {
                assert(table[i] == ("id"@, Kind::Text));
            }
            if i == 1 {
                assert(table[i] == ("run_type"@, Kind::OptText));
            }
            if i == 2 {
                assert(table[i] == ("entity_id"@, Kind::OptInt));
            }
            if i == 3 {
                assert(table[i] == ("entity_name"@, Kind::OptText));
            }
            if i == 4 {
                assert(table[i] == ("status"@, Kind::Text));
            }
            if i == 5 {
                assert(table[i] == ("started_at"@, Kind::OptText));
            }
            if i == 6 {
                assert(table[i] == ("finished_at"@, Kind::OptText));
            }
            if i == 7 {
                assert(table[i] == ("duration_ms"@, Kind::OptInt));
            }
            if i == 8 {
                assert(table[i] == ("trigger_source"@, Kind::OptText));
            }
            if i == 9 {
                assert(table[i] == ("error"@, Kind::OptText));
            }
            if i == 10 {
                assert(table[i] == ("detail_url_hint"@, Kind::OptText));
            }
            if i == 11 {
                assert(table[i] == ("data_url_hint"@, Kind::OptText));
            }
            if i == 12 {
                assert(table[i] == ("rows_extracted"@, Kind::OptInt));
            }
            if i == 13 {
                assert(table[i] == ("change_detected"@, Kind::OptFlag));
            }
            if i == 14 {
                assert(table[i] == ("engine"@, Kind::OptText));
            }
        }
    }
}

/// Every field of a cancellation's outcome is the member of its own name: nothing is lost, made up or taken for
/// another.
#[verifier::spinoff_prover]
#[verifier::rlimit(40)]
pub proof fn law_cancel_outcome_is_read_by_name(j: Json, x: CancelOutcome, t: Tree)
    requires
        call_ensures(CancelOutcome::from_json, (&j,), Some(x)),
        t == j.tree(),
    ensures
        is_opt_int(t.get("run_id"@), x.run_id),
        is_opt_int(t.get("id"@), x.id),
        is_text(t.get("status"@), x.status),
        is_opt(t.get("run_status"@), text_tree(x.run_status)),
{
}

/// Every other member of a cancellation's outcome is kept as it is, under its name.
pub proof fn law_cancel_outcome_keeps_what_it_does_not_know(
    j: Json,
    x: CancelOutcome,
    t: Tree,
    name: Seq<char>,
)
    requires
        call_ensures(CancelOutcome::from_json, (&j,), Some(x)),
        t == j.tree(),
        name != "run_id"@,
        name != "id"@,
        name != "status"@,
        name != "run_status"@,
    ensures
        Tree::Object(member_trees(x.extra@)).get(name) == t.get(name),
{
    let known = cancel_outcome_fields();
    assert(members_of(t) == t->Object_0);
    assert forall|i: int| 0 <= i < known.len() implies known[i] != name by {}
    assert(!known.contains(name));
    lemma_unknown_get(members_of(t), known, name);
}

/// A value is a cancellation's outcome exactly where it is an object whose members are of their kinds. Any
/// other member may be anything.
#[verifier::spinoff_prover]
#[verifier::rlimit(60)]
pub proof fn law_cancel_outcome_is_readable(
    j: Json,
    r: Option<CancelOutcome>,
    t: Tree,
    table: Seq<(Seq<char>, Kind)>,
)
    requires
        call_ensures(CancelOutcome::from_json, (&j,), r),
        t == j.tree(),
        table == seq![
            ("run_id"@, Kind::OptInt),
            ("id"@, Kind::OptInt),
            ("status"@, Kind::Text),
            ("run_status"@, Kind::OptText),
        ],
    ensures
        r is Some <==> t is Object && all_fit(t, table),
{
    if t is Object && all_fit(t, table) {
        assert(fits(t.get(table[0].0), table[0].1));
        assert(fits(t.get(table[1].0), table[1].1));
        assert(fits(t.get(table[2].0), table[2].1));
        assert(fits(t.get(table[3].0), table[3].1));
    }
    if cancel_outcome_readable(t) {
        assert forall|i: int| 0 <= i < table.len() implies fits(
            t.get((#[trigger] table[i]).0),
            table[i].1,
        ) by {
            if i == 0 {
                assert(table[i] == ("run_id"@, Kind::OptInt));
            }
            if i == 1 {
                assert(table[i] == ("id"@, Kind::OptInt));
            }
            if i == 2 {
                assert(table[i] == ("status"@, Kind::Text));
            }
            if i == 3 {
                assert(table[i] == ("run_status"@, Kind::OptText));
            }
        }
    }
}

/// Every field of a run that was waited for is the member of its own name: nothing is lost, made up or taken for
/// another.
#[verifier::spinoff_prover]
#[verifier::rlimit(40)]
pub proof fn law_run_completed_is_read_by_name(j: Json, x: RunCompleted, t: Tree)
    requires
        call_ensures(RunCompleted::from_json, (&j,), Some(x)),
        t == j.tree(),
    ensures
        is_int(t.get("run_id"@), x.run_id),
        is_text(t.get("status"@), x.status),
        is_flag(t.get("done"@), x.done),
        t.get("data"@) matches Some(v) ==> if v is Null {
            x.data is None
        } else {
            opt_tree(x.data) == Some(v)
        },
        t.get("data"@) is None ==> x.data is None,
        is_opt(t.get("error"@), text_tree(x.error)),
        is_opt_int(t.get("duration_ms"@), x.duration_ms),
        is_opt(t.get("status_url"@), text_tree(x.status_url)),
        is_opt(t.get("events_url"@), text_tree(x.events_url)),
{
}

/// Every other member of a run that was waited for is kept as it is, under its name.
pub proof fn law_run_completed_keeps_what_it_does_not_know(
    j: Json,
    x: RunCompleted,
    t: Tree,
    name: Seq<char>,
)
    requires
        call_ensures(RunCompleted::from_json, (&j,), Some(x)),
        t == j.tree(),
        name != "run_id"@,
        name != "status"@,
        name != "done"@,
        name != "data"@,
        name != "error"@,
        name != "duration_ms"@,
        name != "status_url"@,
        name != "events_url"@,
    ensures
        Tree::Object(member_trees(x.extra@)).get(name) == t.get(name),
{
    let known = run_completed_fields();
    assert(members_of(t) == t->Object_0);
    assert forall|i: int| 0 <= i < known.len() implies known[i] != name by {}
    assert(!known.contains(name));
    lemma_unknown_get(members_of(t), known, name);
}

/// A value is a run that was waited for exactly where it is an object whose members are of their kinds. Any
/// other member may be anything.
#[verifier::spinoff_prover]
#[verifier::rlimit(60)]
pub proof fn law_run_completed_is_readable(
    j: Json,
    r: Option<RunCompleted>,
    t: Tree,
    table: Seq<(Seq<char>, Kind)>,
)
    requires
        call_ensures(RunCompleted::from_json, (&j,), r),
        t == j.tree(),
        table == seq![
            ("run_id"@, Kind::MustInt),
            ("status"@, Kind::MustText),
            ("done"@, Kind::Flag),
            ("error"@, Kind::OptText),
            ("duration_ms"@, Kind::OptInt),
            ("status_url"@, Kind::OptText),
            ("events_url"@, Kind::OptText),
        ],
    ensures
        r is Some <==> t is Object && all_fit(t, table),
{
    if t is Object && all_fit(t, table) {
        assert(fits(t.get(table[0].0), table[0].1));
        assert(fits(t.get(table[1].0), table[1].1));
        assert(fits(t.get(table[2].0), table[2].1));
        assert(fits(t.get(table[3].0), table[3].1));
        assert(fits(t.get(table[4].0), table[4].1));
        assert(fits(t.get(table[5].0), table[5].1));
        assert(fits(t.get(table[6].0), table[6].1));
    }
    if run_completed_readable(t) {
        assert forall|i: int| 0 <= i < table.len() implies fits(
            t.get((#[trigger] table[i]).0),
            table[i].1,
        ) by {
            if i == 0 {
                assert(table[i] == ("run_id"@, Kind::MustInt));
            }
            if i == 1 {
                assert(table[i] == ("status"@, Kind::MustText));
            }
            if i == 2 {
                assert(table[i] == ("done"@, Kind::Flag));
            }
            if i == 3 {
                assert(table[i] == ("error"@, Kind::OptText));
            }
            if i == 4 {
                assert(table[i] == ("duration_ms"@, Kind::OptInt));
            }
            if i == 5 {
                assert(table[i] == ("status_url"@, Kind::OptText));
            }
            if i == 6 {
                assert(table[i] == ("events_url"@, Kind::OptText));
            }
        }
    }
}

/// Every field of a crawl is the member of its own name: nothing is lost, made up or taken for
/// another.
#[verifier::spinoff_prover]
#[verifier::rlimit(40)]
pub proof fn law_crawl_job_is_read_by_name(j: Json, x: CrawlJob, t: Tree)
    requires
        call_ensures(CrawlJob::from_json, (&j,), Some(x)),
        t == j.tree(),
    ensures
        is_int(t.get("id"@), x.id),
        is_text(t.get("name"@), x.name),
        is_text(t.get("seed_url"@), x.seed_url),
        is_list(t.get("include_paths"@), x.include_paths),
        is_list(t.get("exclude_paths"@), x.exclude_paths),
        is_int(t.get("max_depth"@), x.max_depth),
        is_int(t.get("same_domain"@), x.same_domain),
        is_int(t.get("allow_subdomains"@), x.allow_subdomains),
        is_text(t.get("extract_mode"@), x.extract_mode),
        t.get("extract_schema"@) matches Some(v) ==> if v is Null {
            x.extract_schema is None
        } else {
            opt_tree(x.extract_schema) == Some(v)
        },
        t.get("extract_schema"@) is None ==> x.extract_schema is None,
        is_opt_int(t.get("persona_id"@), x.persona_id),
        is_int(t.get("respect_robots"@), x.respect_robots),
        is_int(t.get("delay_ms"@), x.delay_ms),
        is_int(t.get("max_concurrent"@), x.max_concurrent),
        is_int(t.get("page_budget"@), x.page_budget),
        is_opt_int(t.get("workflow_id"@), x.workflow_id),
        is_opt_int(t.get("data_workflow_id"@), x.data_workflow_id),
        is_opt_int(t.get("concierge_session_id"@), x.concierge_session_id),
        is_text(t.get("status"@), x.status),
        is_int(t.get("pages_discovered"@), x.pages_discovered),
        is_int(t.get("pages_done"@), x.pages_done),
        is_int(t.get("pages_failed"@), x.pages_failed),
        is_int(t.get("pages_skipped"@), x.pages_skipped),
        is_int(t.get("workers_active"@), x.workers_active),
        is_int(t.get("current_depth"@), x.current_depth),
        is_opt(t.get("error"@), text_tree(x.error)),
        is_int(t.get("cancel_requested"@), x.cancel_requested),
        is_flag(t.get("is_terminal"@), x.is_terminal),
        is_text(t.get("created_at"@), x.created_at),
        is_opt(t.get("updated_at"@), text_tree(x.updated_at)),
        is_opt(t.get("started_at"@), text_tree(x.started_at)),
        is_opt(t.get("completed_at"@), text_tree(x.completed_at)),
{
    if t.get("include_paths"@) is Some && !(t.get("include_paths"@)->0 is Null) {
        lemma_texts_back(t.get("include_paths"@)->0, x.include_paths@);
    }
    assert(texts(x.include_paths@).len() == x.include_paths@.len());
    if t.get("exclude_paths"@) is Some && !(t.get("exclude_paths"@)->0 is Null) {
        lemma_texts_back(t.get("exclude_paths"@)->0, x.exclude_paths@);
    }
    assert(texts(x.exclude_paths@).len() == x.exclude_paths@.len());
}

/// Every other member of a crawl is kept as it is, under its name.
pub proof fn law_crawl_job_keeps_what_it_does_not_know(
    j: Json,
    x: CrawlJob,
    t: Tree,
    name: Seq<char>,
)
    requires
        call_ensures(CrawlJob::from_json, (&j,), Some(x)),
        t == j.tree(),
        name != "id"@,
        name != "name"@,
        name != "seed_url"@,
        name != "include_paths"@,
        name != "exclude_paths"@,
        name != "max_depth"@,
        name != "same_domain"@,
        name != "allow_subdomains"@,
        name != "extract_mode"@,
        name != "extract_schema"@,
        name != "persona_id"@,
        name != "respect_robots"@,
        name != "delay_ms"@,
        name != "max_concurrent"@,
        name != "page_budget"@,
        name != "workflow_id"@,
        name != "data_workflow_id"@,
        name != "concierge_session_id"@,
        name != "status"@,
        name != "pages_discovered"@,
        name != "pages_done"@,
        name != "pages_failed"@,
        name != "pages_skipped"@,
        name != "workers_active"@,
        name != "current_depth"@,
        name != "error"@,
        name != "cancel_requested"@,
        name != "brand"@,
        name != "is_terminal"@,
        name != "created_at"@,
        name != "updated_at"@,
        name != "started_at"@,
        name != "completed_at"@,
    ensures
        Tree::Object(member_trees(x.extra@)).get(name) == t.get(name),
{
    let known = crawl_job_fields();
    assert(members_of(t) == t->Object_0);
    assert forall|i: int| 0 <= i < known.len() implies known[i] != name by {}
    assert(!known.contains(name));
    lemma_unknown_get(members_of(t), known, name);
}

/// A value is a crawl exactly where it is an object whose members are of their kinds. Any
/// other member may be anything.
#[verifier::spinoff_prover]
#[verifier::rlimit(60)]
pub proof fn law_crawl_job_is_readable(
    j: Json,
    r: Option<CrawlJob>,
    t: Tree,
    table: Seq<(Seq<char>, Kind)>,
)
    requires
        call_ensures(CrawlJob::from_json, (&j,), r),
        t == j.tree(),
        table == seq![
            ("id"@, Kind::Int),
            ("name"@, Kind::Text),
            ("seed_url"@, Kind::Text),
            ("include_paths"@, Kind::Texts),
            ("exclude_paths"@, Kind::Texts),
            ("max_depth"@, Kind::Int),
            ("same_domain"@, Kind::Int),
            ("allow_subdomains"@, Kind::Int),
            ("extract_mode"@, Kind::Text),
            ("persona_id"@, Kind::OptInt),
            ("respect_robots"@, Kind::Int),
            ("delay_ms"@, Kind::Int),
            ("max_concurrent"@, Kind::Int),
            ("page_budget"@, Kind::Int),
            ("workflow_id"@, Kind::OptInt),
            ("data_workflow_id"@, Kind::OptInt),
            ("concierge_session_id"@, Kind::OptInt),
            ("status"@, Kind::Text),
            ("pages_discovered"@, Kind::Int),
            ("pages_done"@, Kind::Int),
            ("pages_failed"@, Kind::Int),
            ("pages_skipped"@, Kind::Int),
            ("workers_active"@, Kind::Int),
            ("current_depth"@, Kind::Int),
            ("error"@, Kind::OptText),
            ("cancel_requested"@, Kind::Int),
            ("brand"@, Kind::Brand),
            ("is_terminal"@, Kind::Flag),
            ("created_at"@, Kind::Text),
            ("updated_at"@, Kind::OptText),
            ("started_at"@, Kind::OptText),
            ("completed_at"@, Kind::OptText),
        ],
    ensures
        r is Some <==> t is Object && all_fit(t, table),
{
    if let Some(Tree::Array(items)) = t.get("include_paths"@) {
        lemma_all_texts(items);
    }
    if let Some(Tree::Array(items)) = t.get("exclude_paths"@) {
        lemma_all_texts(items);
    }
    if t is Object && all_fit(t, table) {
        assert(fits(t.get(table[0].0), table[0].1));
        assert(fits(t.get(table[1].0), table[1].1));
        assert(fits(t.get(table[2].0), table[2].1));
        assert(fits(t.get(table[3].0), table[3].1));
        assert(fits(t.get(table[4].0), table[4].1));
        assert(fits(t.get(table[5].0), table[5].1));
        assert(fits(t.get(table[6].0), table[6].1));
        assert(fits(t.get(table[7].0), table[7].1));
        assert(fits(t.get(table[8].0), table[8].1));
        assert(fits(t.get(table[9].0), table[9].1));
        assert(fits(t.get(table[10].0), table[10].1));
        assert(fits(t.get(table[11].0), table[11].1));
        assert(fits(t.get(table[12].0), table[12].1));
        assert(fits(t.get(table[13].0), table[13].1));
        assert(fits(t.get(table[14].0), table[14].1));
        assert(fits(t.get(table[15].0), table[15].1));
        assert(fits(t.get(table[16].0), table[16].1));
        assert(fits(t.get(table[17].0), table[17].1));
        assert(fits(t.get(table[18].0), table[18].1));
        assert(fits(t.get(table[19].0), table[19].1));
        assert(fits(t.get(table[20].0), table[20].1));
        assert(fits(t.get(table[21].0), table[21].1));
        assert(fits(t.get(table[22].0), table[22].1));
        assert(fits(t.get(table[23].0), table[23].1));
        assert(fits(t.get(table[24].0), table[24].1));
        assert(fits(t.get(table[25].0), table[25].1));
        assert(fits(t.get(table[26].0), table[26].1));
        assert(fits(t.get(table[27].0), table[27].1));
        assert(fits(t.get(table[28].0), table[28].1));
        assert(fits(t.get(table[29].0), table[29].1));
        assert(fits(t.get(table[30].0), table[30].1));
        assert(fits(t.get(table[31].0), table[31].1));
    }
    if crawl_job_readable(t) {
        assert forall|i: int| 0 <= i < table.len() implies fits(
            t.get((#[trigger] table[i]).0),
            table[i].1,
        ) by {
            if i == 0 {
                assert(table[i] == ("id"@, Kind::Int));
            }
            if i == 1 {
                assert(table[i] == ("name"@, Kind::Text));
            }
            if i == 2 {
                assert(table[i] == ("seed_url"@, Kind::Text));
            }
            if i == 3 {
                assert(table[i] == ("include_paths"@, Kind::Texts));
            }
            if i == 4 {
                assert(table[i] == ("exclude_paths"@, Kind::Texts));
            }
            if i == 5 {
                assert(table[i] == ("max_depth"@, Kind::Int));
            }
            if i == 6 {
                assert(table[i] == ("same_domain"@, Kind::Int));
            }
            if i == 7 {
                assert(table[i] == ("allow_subdomains"@, Kind::Int));
            }
            if i == 8 {
                assert(table[i] == ("extract_mode"@, Kind::Text));
            }
            if i == 9 {
                assert(table[i] == ("persona_id"@, Kind::OptInt));
            }
            if i == 10 {
                assert(table[i] == ("respect_robots"@, Kind::Int));
            }
            if i == 11 {
                assert(table[i] == ("delay_ms"@, Kind::Int));
            }
            if i == 12 {
                assert(table[i] == ("max_concurrent"@, Kind::Int));
            }
            if i == 13 {
                assert(table[i] == ("page_budget"@, Kind::Int));
            }
            if i == 14 {
                assert(table[i] == ("workflow_id"@, Kind::OptInt));
            }
            if i == 15 {
                assert(table[i] == ("data_workflow_id"@, Kind::OptInt));
            }
            if i == 16 {
                assert(table[i] == ("concierge_session_id"@, Kind::OptInt));
            }
            if i == 17 {
                assert(table[i] == ("status"@, Kind::Text));
            }
            if i == 18 {
                assert(table[i] == ("pages_discovered"@, Kind::Int));
            }
            if i == 19 {
                assert(table[i] == ("pages_done"@, Kind::Int));
            }
            if i == 20 {
                assert(table[i] == ("pages_failed"@, Kind::Int));
            }
            if i == 21 {
                assert(table[i] == ("pages_skipped"@, Kind::Int));
            }
            if i == 22 {
                assert(table[i] == ("workers_active"@, Kind::Int));
            }
            if i == 23 {
                assert(table[i] == ("current_depth"@, Kind::Int));
            }
            if i == 24 {
                assert(table[i] == ("error"@, Kind::OptText));
            }
            if i == 25 {
                assert(table[i] == ("cancel_requested"@, Kind::Int));
            }
            if i == 26 {
                assert(table[i] == ("brand"@, Kind::Brand));
            }
            if i == 27 {
                assert(table[i] == ("is_terminal"@, Kind::Flag));
            }
            if i == 28 {
                assert(table[i] == ("created_at"@, Kind::Text));
            }
            if i == 29 {
                assert(table[i] == ("updated_at"@, Kind::OptText));
            }
            if i == 30 {
                assert(table[i] == ("started_at"@, Kind::OptText));
            }
            if i == 31 {
                assert(table[i] == ("completed_at"@, Kind::OptText));
            }
        }
    }
}

/// A crawl's brand is the one that was sent: a text is its name; of an object, the name and
/// the agent are those under their names.
pub proof fn law_a_crawl_keeps_its_brand(j: Json, x: CrawlJob, t: Tree)
    requires
        call_ensures(CrawlJob::from_json, (&j,), Some(x)),
        t == j.tree(),
    ensures
        t.get("brand"@) matches Some(Tree::Str(s)) ==> x.brand@ == BrandView::Name(s),
        t.get("brand"@) matches Some(v) ==> v is Object ==> {
            &&& x.brand@ is Pair
            &&& v.str_at("crawl"@) == Some(x.brand@->crawl)
            &&& v.str_at("agent"@) == x.brand@->agent
        },
        t.get("brand"@) is None || t.get("brand"@) == Some(Tree::Null) ==> x.brand@
            == BrandView::Name(seq![]),
{
}

/// A cancelled crawl is read the same way: the flag is the member of its own name, and the
/// crawl is read from all the others.
pub proof fn law_a_cancelled_crawl_is_read_by_name(
    j: Json,
    x: CrawlCancel,
    t: Tree,
    rest: Json,
    job: CrawlJob,
    name: Seq<char>,
)
    requires
        call_ensures(CrawlCancel::from_json, (&j,), Some(x)),
        t == j.tree(),
        rest.tree() == without_member(t, "cancel_requested_now"@),
        call_ensures(CrawlJob::from_json, (&rest,), Some(job)),
        name != "cancel_requested_now"@,
    ensures
        is_flag(t.get("cancel_requested_now"@), x.cancel_requested_now),
        rest.tree().get(name) == t.get(name),
        x.job.id == job.id,
        x.job.status@ == job.status@,
        x.job.seed_url@ == job.seed_url@,
        x.job.is_terminal == job.is_terminal,
        member_trees(x.job.extra@) == member_trees(job.extra@),
{
    let known = seq!["cancel_requested_now"@];
    assert(!known.contains(name));
    lemma_unknown_get(members_of(t), known, name);
    assert(members_of(t) == t->Object_0);
}

} // verus!
