//! Reading models from JSON.
//!
//! A field that is missing has its default; a field of the wrong type makes the whole
//! unreadable; a field that a model does not know is kept under `extra`, so a server that
//! grows breaks no client.

use crate::json::{member_trees, opt_tree, put, trees, Json, Tree};
use crate::models::{
    brand_of, Brand, BrandView, CancelOutcome, CrawlCancel, CrawlJob, RunCompleted, RunFeedItem,
    Workflow,
};
use crate::text::{opt_string, own, text_eq, texts};
use vstd::prelude::*;

verus! {

broadcast use vstd::string::group_string_axioms;

/// A whole number; 0 where it is missing.
pub open spec fn int_at(t: Tree, key: Seq<char>) -> Option<i64> {
    match t.get(key) {
        Some(v) => v.as_i64(),
        None => Some(0),
    }
}

/// A text; empty where it is missing.
pub open spec fn text_at(t: Tree, key: Seq<char>) -> Option<Seq<char>> {
    match t.get(key) {
        Some(v) => v.as_str(),
        None => Some(seq![]),
    }
}

/// A flag; off where it is missing.
pub open spec fn flag_at(t: Tree, key: Seq<char>) -> Option<bool> {
    match t.get(key) {
        Some(v) => v.as_bool(),
        None => Some(false),
    }
}

/// Whether a member is missing or null.
pub open spec fn absent(t: Tree, key: Seq<char>) -> bool {
    t.get(key) is None || t.get(key) == Some(Tree::Null)
}

/// A whole number that may be missing or null.
pub open spec fn opt_int_at(t: Tree, key: Seq<char>) -> Option<Option<i64>> {
    if absent(t, key) {
        Some(None)
    } else {
        match t.i64_at(key) {
            Some(n) => Some(Some(n)),
            None => None,
        }
    }
}

/// A text that may be missing or null.
pub open spec fn opt_text_at(t: Tree, key: Seq<char>) -> Option<Option<Seq<char>>> {
    if absent(t, key) {
        Some(None)
    } else {
        match t.str_at(key) {
            Some(s) => Some(Some(s)),
            None => None,
        }
    }
}

/// A flag that may be missing or null.
pub open spec fn opt_flag_at(t: Tree, key: Seq<char>) -> Option<Option<bool>> {
    if absent(t, key) {
        Some(None)
    } else {
        match t.get(key)->0.as_bool() {
            Some(b) => Some(Some(b)),
            None => None,
        }
    }
}

/// Any value that may be missing or null.
pub open spec fn opt_json_at(t: Tree, key: Seq<char>) -> Option<Tree> {
    if absent(t, key) {
        None
    } else {
        t.get(key)
    }
}

/// The texts of an array of strings.
pub open spec fn all_texts(items: Seq<Tree>) -> Option<Seq<Seq<char>>>
    decreases items.len(),
{
    if items.len() == 0 {
        Some(seq![])
    } else {
        match (all_texts(items.drop_last()), items.last().as_str()) {
            (Some(before), Some(s)) => Some(before.push(s)),
            _ => None,
        }
    }
}

/// A list of texts; empty where it is missing.
pub open spec fn texts_at(t: Tree, key: Seq<char>) -> Option<Seq<Seq<char>>> {
    match t.get(key) {
        None => Some(seq![]),
        Some(Tree::Array(items)) => all_texts(items),
        Some(_) => None,
    }
}

/// A list of texts that may be missing or null.
pub open spec fn opt_texts_at(t: Tree, key: Seq<char>) -> Option<Option<Seq<Seq<char>>>> {
    if absent(t, key) {
        Some(None)
    } else {
        match t.get(key) {
            Some(Tree::Array(items)) => match all_texts(items) {
                Some(v) => Some(Some(v)),
                None => None,
            },
            _ => None,
        }
    }
}

/// A list of any values that may be missing or null.
pub open spec fn opt_items_at(t: Tree, key: Seq<char>) -> Option<Option<Seq<Tree>>> {
    if absent(t, key) {
        Some(None)
    } else {
        match t.get(key) {
            Some(Tree::Array(items)) => Some(Some(items)),
            _ => None,
        }
    }
}

/// A brand; the empty name where it is missing.
pub open spec fn brand_at(t: Tree, key: Seq<char>) -> Option<BrandView> {
    match t.get(key) {
        Some(v) => brand_of(v),
        None => Some(BrandView::Name(seq![])),
    }
}

/// The texts of an optional list.
pub open spec fn opt_list(v: Option<Vec<String>>) -> Option<Seq<Seq<char>>> {
    match v {
        Some(l) => Some(texts(l@)),
        None => None,
    }
}

/// The contents of an optional list.
pub open spec fn opt_items(v: Option<Vec<Json>>) -> Option<Seq<Tree>> {
    match v {
        Some(l) => Some(trees(l@)),
        None => None,
    }
}

/// The members whose names are not among the known ones, in order.
pub open spec fn unknown(members: Seq<(Seq<char>, Tree)>, known: Seq<Seq<char>>) -> Seq<
    (Seq<char>, Tree),
>
    decreases members.len(),
{
    if members.len() == 0 {
        seq![]
    } else if known.contains(members.last().0) {
        unknown(members.drop_last(), known)
    } else {
        unknown(members.drop_last(), known).push(members.last())
    }
}

/// The members of an object.
pub open spec fn members_of(t: Tree) -> Seq<(Seq<char>, Tree)> {
    match t {
        Tree::Object(m) => m,
        _ => seq![],
    }
}

/// No member is lost: each is either one that the model knows or kept as it is.
pub proof fn law_unknown_fields_are_kept(members: Seq<(Seq<char>, Tree)>, known: Seq<Seq<char>>)
    ensures
        forall|m: (Seq<char>, Tree)| #[trigger]
            unknown(members, known).contains(m) <==> members.contains(m) && !known.contains(m.0),
    decreases members.len(),
{
    if members.len() > 0 {
        let init = members.drop_last();
        let last = members.last();
        let before = unknown(init, known);
        let now = unknown(members, known);
        law_unknown_fields_are_kept(init, known);
        assert forall|m: (Seq<char>, Tree)| #[trigger] now.contains(m) <==> members.contains(m)
            && !known.contains(m.0) by {
            if now.contains(m) {
                let i = choose|i: int| 0 <= i < now.len() && now[i] == m;
                if i < before.len() {
                    assert(before[i] == m);
                    assert(before.contains(m));
                    let j = choose|j: int| 0 <= j < init.len() && init[j] == m;
                    assert(members[j] == m);
                } else {
                    assert(members[members.len() - 1] == m);
                }
            }
            if members.contains(m) && !known.contains(m.0) {
                let j = choose|j: int| 0 <= j < members.len() && members[j] == m;
                if j < init.len() {
                    assert(init[j] == m);
                    assert(before.contains(m));
                    let i = choose|i: int| 0 <= i < before.len() && before[i] == m;
                    assert(now[i] == m);
                } else {
                    assert(now[before.len() as int] == m);
                }
            }
        }
    }
}

fn is_absent(j: &Json, key: &str) -> (r: bool)
    ensures
        r == absent(j.tree(), key@),
{
    match j.get(key) {
        None => true,
        Some(Json::Null) => true,
        Some(_) => false,
    }
}

fn read_int(j: &Json, key: &str) -> (r: Option<i64>)
    ensures
        r == int_at(j.tree(), key@),
{
    match j.get(key) {
        Some(v) => v.as_i64(),
        None => Some(0),
    }
}

fn read_text(j: &Json, key: &str) -> (r: Option<String>)
    ensures
        opt_string(r) == text_at(j.tree(), key@),
{
    match j.get(key) {
        Some(v) => own(v.as_str()),
        None => Some(String::new()),
    }
}

fn read_flag(j: &Json, key: &str) -> (r: Option<bool>)
    ensures
        r == flag_at(j.tree(), key@),
{
    match j.get(key) {
        Some(v) => v.as_bool(),
        None => Some(false),
    }
}

fn read_opt_int(j: &Json, key: &str) -> (r: Option<Option<i64>>)
    ensures
        r == opt_int_at(j.tree(), key@),
{
    if is_absent(j, key) {
        return Some(None);
    }
    match j.i64_at(key) {
        Some(n) => Some(Some(n)),
        None => None,
    }
}

fn read_opt_text(j: &Json, key: &str) -> (r: Option<Option<String>>)
    ensures
        match (r, opt_text_at(j.tree(), key@)) {
            (Some(a), Some(b)) => opt_string(a) == b,
            (None, None) => true,
            _ => false,
        },
{
    if is_absent(j, key) {
        return Some(None);
    }
    match j.str_at(key) {
        Some(s) => Some(Some(s.to_owned())),
        None => None,
    }
}

fn read_opt_flag(j: &Json, key: &str) -> (r: Option<Option<bool>>)
    ensures
        r == opt_flag_at(j.tree(), key@),
{
    if is_absent(j, key) {
        return Some(None);
    }
    match j.get(key) {
        Some(v) => match v.as_bool() {
            Some(b) => Some(Some(b)),
            None => None,
        },
        None => None,
    }
}

fn read_opt_json(j: &Json, key: &str) -> (r: Option<Json>)
    ensures
        opt_tree(r) == opt_json_at(j.tree(), key@),
{
    match j.get(key) {
        None => None,
        Some(Json::Null) => None,
        Some(v) => Some(v.copy()),
    }
}

fn copy_texts(items: &Vec<Json>) -> (r: Option<Vec<String>>)
    ensures
        opt_list(r) == all_texts(trees(items@)),
{
    let mut v: Vec<String> = Vec::new();
    let mut i: usize = 0;
    let ghost all = trees(items@);
    assert(all.take(0).len() == 0);
    assert(texts(v@) == Seq::<Seq<char>>::empty());
    while i < items.len()
        invariant
            i <= items.len(),
            all == trees(items@),
            all_texts(all.take(i as int)) == Some(texts(v@)),
        decreases items.len() - i,
    {
        let ghost upto = all.take(i + 1);
        assert(upto.drop_last() == all.take(i as int));
        assert(upto.last() == items@[i as int].tree());
        match items[i].as_str() {
            Some(s) => {
                let ghost before = v@;
                v.push(s.to_owned());
                assert(texts(v@) == texts(before).push(s@));
            },
            None => {
                proof {
                    lemma_all_texts_prefix(all, i + 1);
                }
                return None;
            },
        }
        i = i + 1;
    }
    assert(all.take(all.len() as int) == all);
    Some(v)
}

proof fn lemma_all_texts_prefix(items: Seq<Tree>, n: int)
    requires
        0 <= n <= items.len(),
        all_texts(items.take(n)) is None,
    ensures
        all_texts(items) is None,
    decreases items.len(),
{
    if n < items.len() {
        assert(items.drop_last().take(n) == items.take(n));
        lemma_all_texts_prefix(items.drop_last(), n);
    } else {
        assert(items.take(n) == items);
    }
}

fn read_texts(j: &Json, key: &str) -> (r: Option<Vec<String>>)
    ensures
        opt_list(r) == texts_at(j.tree(), key@),
{
    broadcast use crate::json::lemma_array_tree;

    match j.get(key) {
        None => {
            let none: Vec<String> = Vec::new();
            assert(texts(none@) == Seq::<Seq<char>>::empty());
            Some(none)
        },
        Some(Json::Array(items)) => copy_texts(items),
        Some(_) => None,
    }
}

fn read_opt_texts(j: &Json, key: &str) -> (r: Option<Option<Vec<String>>>)
    ensures
        match (r, opt_texts_at(j.tree(), key@)) {
            (Some(a), Some(b)) => opt_list(a) == b,
            (None, None) => true,
            _ => false,
        },
{
    broadcast use crate::json::lemma_array_tree;

    if is_absent(j, key) {
        return Some(None);
    }
    match j.get(key) {
        Some(Json::Array(items)) => match copy_texts(items) {
            Some(v) => Some(Some(v)),
            None => None,
        },
        _ => None,
    }
}

fn read_opt_items(j: &Json, key: &str) -> (r: Option<Option<Vec<Json>>>)
    ensures
        match (r, opt_items_at(j.tree(), key@)) {
            (Some(a), Some(b)) => opt_items(a) == b,
            (None, None) => true,
            _ => false,
        },
{
    broadcast use crate::json::lemma_array_tree;

    if is_absent(j, key) {
        return Some(None);
    }
    match j.get(key) {
        Some(Json::Array(items)) => Some(Some(crate::page::copy_items(items))),
        _ => None,
    }
}

fn read_brand(j: &Json, key: &str) -> (r: Option<Brand>)
    ensures
        match (r, brand_at(j.tree(), key@)) {
            (Some(a), Some(b)) => a@ == b,
            (None, None) => true,
            _ => false,
        },
{
    match j.get(key) {
        Some(v) => Brand::from_json(v),
        None => Some(Brand::Name(String::new())),
    }
}

/// The texts of borrowed texts.
pub open spec fn borrowed(names: Seq<&str>) -> Seq<Seq<char>> {
    names.map_values(|s: &str| s@)
}

fn is_known(name: &str, known: &[&str]) -> (r: bool)
    ensures
        r == borrowed(known@).contains(name@),
{
    let mut i: usize = 0;
    while i < known.len()
        invariant
            i <= known.len(),
            forall|k: int| 0 <= k < i ==> #[trigger] borrowed(known@)[k] != name@,
        decreases known.len() - i,
    {
        assert(borrowed(known@)[i as int] == known@[i as int]@);
        if text_eq(known[i], name) {
            return true;
        }
        i = i + 1;
    }
    false
}

fn read_unknown(j: &Json, known: &[&str]) -> (r: Vec<(String, Json)>)
    ensures
        member_trees(r@) == unknown(members_of(j.tree()), borrowed(known@)),
{
    broadcast use crate::json::lemma_object_tree;

    let mut kept: Vec<(String, Json)> = Vec::new();
    assert(member_trees(kept@) == Seq::<(Seq<char>, Tree)>::empty());
    if let Json::Object(m) = j {
        let ghost all = member_trees(m@);
        let mut i: usize = 0;
        assert(all.take(0).len() == 0);
        while i < m.len()
            invariant
                i <= m.len(),
                all == member_trees(m@),
                member_trees(kept@) == unknown(all.take(i as int), borrowed(known@)),
            decreases m.len() - i,
        {
            let ghost upto = all.take(i + 1);
            assert(upto.drop_last() == all.take(i as int));
            assert(upto.last() == (m@[i as int].0@, m@[i as int].1.tree()));
            if !is_known(m[i].0.as_str(), known) {
                let ghost before = member_trees(kept@);
                put(&mut kept, m[i].0.as_str(), m[i].1.copy());
                assert(member_trees(kept@) == before.push(upto.last()));
            }
            i = i + 1;
        }
        assert(all.take(all.len() as int) == all);
    }
    kept
}

/// The fields that a workflow knows.
pub open spec fn workflow_fields() -> Seq<Seq<char>> {
    seq![
        "id"@,
        "name"@,
        "description"@,
        "workflow_type"@,
        "entry_url"@,
        "steps"@,
        "form_data"@,
        "functions"@,
        "is_active"@,
        "is_verified"@,
        "timeout_ms"@,
        "retry_count"@,
        "headless"@,
        "schedule_enabled"@,
        "schedule_interval_ms"@,
        "schedule_kind"@,
        "schedule_time"@,
        "schedule_days"@,
        "schedule_tz"@,
        "last_scheduled_at"@,
        "next_scheduled_at"@,
        "default_persona_id"@,
        "http_capable"@,
        "usage_count"@,
        "total_run_count"@,
        "total_failure_count"@,
        "consecutive_failures"@,
        "last_run_at"@,
        "last_run_status"@,
        "last_run_duration_ms"@,
        "last_failure_at"@,
        "last_failure_error"@,
        "cloud_callable"@,
        "execution_target"@,
        "marketplace_slug"@,
        "created_at"@,
        "updated_at"@,
        "has_credentials"@,
        "credential_keys"@,
        "placeholders"@,
        "has_login"@,
    ]
}

/// Whether a value can be read as a workflow: every known field is of its type.
pub open spec fn workflow_readable(t: Tree) -> bool {
    &&& t is Object
    &&& int_at(t, "id"@) is Some
    &&& text_at(t, "name"@) is Some
    &&& opt_text_at(t, "description"@) is Some
    &&& opt_text_at(t, "workflow_type"@) is Some
    &&& opt_text_at(t, "entry_url"@) is Some
    &&& opt_int_at(t, "is_active"@) is Some
    &&& opt_int_at(t, "is_verified"@) is Some
    &&& opt_int_at(t, "timeout_ms"@) is Some
    &&& opt_int_at(t, "retry_count"@) is Some
    &&& opt_int_at(t, "headless"@) is Some
    &&& opt_int_at(t, "schedule_enabled"@) is Some
    &&& opt_int_at(t, "schedule_interval_ms"@) is Some
    &&& opt_text_at(t, "schedule_kind"@) is Some
    &&& opt_text_at(t, "schedule_time"@) is Some
    &&& opt_text_at(t, "schedule_days"@) is Some
    &&& opt_text_at(t, "schedule_tz"@) is Some
    &&& opt_text_at(t, "last_scheduled_at"@) is Some
    &&& opt_text_at(t, "next_scheduled_at"@) is Some
    &&& opt_int_at(t, "default_persona_id"@) is Some
    &&& opt_int_at(t, "http_capable"@) is Some
    &&& opt_int_at(t, "usage_count"@) is Some
    &&& opt_int_at(t, "total_run_count"@) is Some
    &&& opt_int_at(t, "total_failure_count"@) is Some
    &&& opt_int_at(t, "consecutive_failures"@) is Some
    &&& opt_text_at(t, "last_run_at"@) is Some
    &&& opt_text_at(t, "last_run_status"@) is Some
    &&& opt_int_at(t, "last_run_duration_ms"@) is Some
    &&& opt_text_at(t, "last_failure_at"@) is Some
    &&& opt_text_at(t, "last_failure_error"@) is Some
    &&& opt_int_at(t, "cloud_callable"@) is Some
    &&& opt_text_at(t, "execution_target"@) is Some
    &&& opt_text_at(t, "marketplace_slug"@) is Some
    &&& opt_text_at(t, "created_at"@) is Some
    &&& opt_text_at(t, "updated_at"@) is Some
    &&& opt_flag_at(t, "has_credentials"@) is Some
    &&& opt_texts_at(t, "credential_keys"@) is Some
    &&& opt_items_at(t, "placeholders"@) is Some
    &&& opt_flag_at(t, "has_login"@) is Some
}

/// Whether a workflow is the one that a value holds.
pub open spec fn workflow_reads(x: Workflow, t: Tree) -> bool {
    &&& int_at(t, "id"@) == Some(x.id)
    &&& text_at(t, "name"@) == Some(x.name@)
    &&& opt_text_at(t, "description"@) == Some(opt_string(x.description))
    &&& opt_text_at(t, "workflow_type"@) == Some(opt_string(x.workflow_type))
    &&& opt_text_at(t, "entry_url"@) == Some(opt_string(x.entry_url))
    &&& opt_json_at(t, "steps"@) == opt_tree(x.steps)
    &&& opt_json_at(t, "form_data"@) == opt_tree(x.form_data)
    &&& opt_json_at(t, "functions"@) == opt_tree(x.functions)
    &&& opt_int_at(t, "is_active"@) == Some(x.is_active)
    &&& opt_int_at(t, "is_verified"@) == Some(x.is_verified)
    &&& opt_int_at(t, "timeout_ms"@) == Some(x.timeout_ms)
    &&& opt_int_at(t, "retry_count"@) == Some(x.retry_count)
    &&& opt_int_at(t, "headless"@) == Some(x.headless)
    &&& opt_int_at(t, "schedule_enabled"@) == Some(x.schedule_enabled)
    &&& opt_int_at(t, "schedule_interval_ms"@) == Some(x.schedule_interval_ms)
    &&& opt_text_at(t, "schedule_kind"@) == Some(opt_string(x.schedule_kind))
    &&& opt_text_at(t, "schedule_time"@) == Some(opt_string(x.schedule_time))
    &&& opt_text_at(t, "schedule_days"@) == Some(opt_string(x.schedule_days))
    &&& opt_text_at(t, "schedule_tz"@) == Some(opt_string(x.schedule_tz))
    &&& opt_text_at(t, "last_scheduled_at"@) == Some(opt_string(x.last_scheduled_at))
    &&& opt_text_at(t, "next_scheduled_at"@) == Some(opt_string(x.next_scheduled_at))
    &&& opt_int_at(t, "default_persona_id"@) == Some(x.default_persona_id)
    &&& opt_int_at(t, "http_capable"@) == Some(x.http_capable)
    &&& opt_int_at(t, "usage_count"@) == Some(x.usage_count)
    &&& opt_int_at(t, "total_run_count"@) == Some(x.total_run_count)
    &&& opt_int_at(t, "total_failure_count"@) == Some(x.total_failure_count)
    &&& opt_int_at(t, "consecutive_failures"@) == Some(x.consecutive_failures)
    &&& opt_text_at(t, "last_run_at"@) == Some(opt_string(x.last_run_at))
    &&& opt_text_at(t, "last_run_status"@) == Some(opt_string(x.last_run_status))
    &&& opt_int_at(t, "last_run_duration_ms"@) == Some(x.last_run_duration_ms)
    &&& opt_text_at(t, "last_failure_at"@) == Some(opt_string(x.last_failure_at))
    &&& opt_text_at(t, "last_failure_error"@) == Some(opt_string(x.last_failure_error))
    &&& opt_int_at(t, "cloud_callable"@) == Some(x.cloud_callable)
    &&& opt_text_at(t, "execution_target"@) == Some(opt_string(x.execution_target))
    &&& opt_text_at(t, "marketplace_slug"@) == Some(opt_string(x.marketplace_slug))
    &&& opt_text_at(t, "created_at"@) == Some(opt_string(x.created_at))
    &&& opt_text_at(t, "updated_at"@) == Some(opt_string(x.updated_at))
    &&& opt_flag_at(t, "has_credentials"@) == Some(x.has_credentials)
    &&& opt_texts_at(t, "credential_keys"@) == Some(opt_list(x.credential_keys))
    &&& opt_items_at(t, "placeholders"@) == Some(opt_items(x.placeholders))
    &&& opt_flag_at(t, "has_login"@) == Some(x.has_login)
    &&& member_trees(x.extra@) == unknown(members_of(t), workflow_fields())
}

impl Workflow {
    /// Reads a workflow.
    #[verifier::spinoff_prover]
    pub fn from_json(j: &Json) -> (r: Option<Workflow>)
        ensures
            r is Some <==> workflow_readable(j.tree()),
            r matches Some(x) ==> workflow_reads(x, j.tree()),
    {
        if !j.is_object() {
            return None;
        }
        let id: i64 = read_int(j, "id")?;
        let name: String = read_text(j, "name")?;
        let description: Option<String> = read_opt_text(j, "description")?;
        let workflow_type: Option<String> = read_opt_text(j, "workflow_type")?;
        let entry_url: Option<String> = read_opt_text(j, "entry_url")?;
        let steps: Option<Json> = read_opt_json(j, "steps");
        let form_data: Option<Json> = read_opt_json(j, "form_data");
        let functions: Option<Json> = read_opt_json(j, "functions");
        let is_active: Option<i64> = read_opt_int(j, "is_active")?;
        let is_verified: Option<i64> = read_opt_int(j, "is_verified")?;
        let timeout_ms: Option<i64> = read_opt_int(j, "timeout_ms")?;
        let retry_count: Option<i64> = read_opt_int(j, "retry_count")?;
        let headless: Option<i64> = read_opt_int(j, "headless")?;
        let schedule_enabled: Option<i64> = read_opt_int(j, "schedule_enabled")?;
        let schedule_interval_ms: Option<i64> = read_opt_int(j, "schedule_interval_ms")?;
        let schedule_kind: Option<String> = read_opt_text(j, "schedule_kind")?;
        let schedule_time: Option<String> = read_opt_text(j, "schedule_time")?;
        let schedule_days: Option<String> = read_opt_text(j, "schedule_days")?;
        let schedule_tz: Option<String> = read_opt_text(j, "schedule_tz")?;
        let last_scheduled_at: Option<String> = read_opt_text(j, "last_scheduled_at")?;
        let next_scheduled_at: Option<String> = read_opt_text(j, "next_scheduled_at")?;
        let default_persona_id: Option<i64> = read_opt_int(j, "default_persona_id")?;
        let http_capable: Option<i64> = read_opt_int(j, "http_capable")?;
        let usage_count: Option<i64> = read_opt_int(j, "usage_count")?;
        let total_run_count: Option<i64> = read_opt_int(j, "total_run_count")?;
        let total_failure_count: Option<i64> = read_opt_int(j, "total_failure_count")?;
        let consecutive_failures: Option<i64> = read_opt_int(j, "consecutive_failures")?;
        let last_run_at: Option<String> = read_opt_text(j, "last_run_at")?;
        let last_run_status: Option<String> = read_opt_text(j, "last_run_status")?;
        let last_run_duration_ms: Option<i64> = read_opt_int(j, "last_run_duration_ms")?;
        let last_failure_at: Option<String> = read_opt_text(j, "last_failure_at")?;
        let last_failure_error: Option<String> = read_opt_text(j, "last_failure_error")?;
        let cloud_callable: Option<i64> = read_opt_int(j, "cloud_callable")?;
        let execution_target: Option<String> = read_opt_text(j, "execution_target")?;
        let marketplace_slug: Option<String> = read_opt_text(j, "marketplace_slug")?;
        let created_at: Option<String> = read_opt_text(j, "created_at")?;
        let updated_at: Option<String> = read_opt_text(j, "updated_at")?;
        let has_credentials: Option<bool> = read_opt_flag(j, "has_credentials")?;
        let credential_keys: Option<Vec<String>> = read_opt_texts(j, "credential_keys")?;
        let placeholders: Option<Vec<Json>> = read_opt_items(j, "placeholders")?;
        let has_login: Option<bool> = read_opt_flag(j, "has_login")?;
        let known: [&str; 41] = [
            "id",
            "name",
            "description",
            "workflow_type",
            "entry_url",
            "steps",
            "form_data",
            "functions",
            "is_active",
            "is_verified",
            "timeout_ms",
            "retry_count",
            "headless",
            "schedule_enabled",
            "schedule_interval_ms",
            "schedule_kind",
            "schedule_time",
            "schedule_days",
            "schedule_tz",
            "last_scheduled_at",
            "next_scheduled_at",
            "default_persona_id",
            "http_capable",
            "usage_count",
            "total_run_count",
            "total_failure_count",
            "consecutive_failures",
            "last_run_at",
            "last_run_status",
            "last_run_duration_ms",
            "last_failure_at",
            "last_failure_error",
            "cloud_callable",
            "execution_target",
            "marketplace_slug",
            "created_at",
            "updated_at",
            "has_credentials",
            "credential_keys",
            "placeholders",
            "has_login",
        ];
        let extra: Vec<(String, Json)> = read_unknown(j, known.as_slice());
        assert(borrowed(known@) == workflow_fields());
        Some(
            Workflow {
                id,
                name,
                description,
                workflow_type,
                entry_url,
                steps,
                form_data,
                functions,
                is_active,
                is_verified,
                timeout_ms,
                retry_count,
                headless,
                schedule_enabled,
                schedule_interval_ms,
                schedule_kind,
                schedule_time,
                schedule_days,
                schedule_tz,
                last_scheduled_at,
                next_scheduled_at,
                default_persona_id,
                http_capable,
                usage_count,
                total_run_count,
                total_failure_count,
                consecutive_failures,
                last_run_at,
                last_run_status,
                last_run_duration_ms,
                last_failure_at,
                last_failure_error,
                cloud_callable,
                execution_target,
                marketplace_slug,
                created_at,
                updated_at,
                has_credentials,
                credential_keys,
                placeholders,
                has_login,
                extra,
            },
        )
    }
}

/// The fields that a run of the feed knows.
pub open spec fn feed_item_fields() -> Seq<Seq<char>> {
    seq![
        "id"@,
        "run_type"@,
        "entity_id"@,
        "entity_name"@,
        "status"@,
        "started_at"@,
        "finished_at"@,
        "duration_ms"@,
        "trigger_source"@,
        "error"@,
        "detail_url_hint"@,
        "data_url_hint"@,
        "rows_extracted"@,
        "change_detected"@,
        "engine"@,
    ]
}

/// Whether a value can be read as a run of the feed: every known field is of its type.
pub open spec fn feed_item_readable(t: Tree) -> bool {
    &&& t is Object
    &&& text_at(t, "id"@) is Some
    &&& opt_text_at(t, "run_type"@) is Some
    &&& opt_int_at(t, "entity_id"@) is Some
    &&& opt_text_at(t, "entity_name"@) is Some
    &&& text_at(t, "status"@) is Some
    &&& opt_text_at(t, "started_at"@) is Some
    &&& opt_text_at(t, "finished_at"@) is Some
    &&& opt_int_at(t, "duration_ms"@) is Some
    &&& opt_text_at(t, "trigger_source"@) is Some
    &&& opt_text_at(t, "error"@) is Some
    &&& opt_text_at(t, "detail_url_hint"@) is Some
    &&& opt_text_at(t, "data_url_hint"@) is Some
    &&& opt_int_at(t, "rows_extracted"@) is Some
    &&& opt_flag_at(t, "change_detected"@) is Some
    &&& opt_text_at(t, "engine"@) is Some
}

/// Whether a run of the feed is the one that a value holds.
pub open spec fn feed_item_reads(x: RunFeedItem, t: Tree) -> bool {
    &&& text_at(t, "id"@) == Some(x.id@)
    &&& opt_text_at(t, "run_type"@) == Some(opt_string(x.run_type))
    &&& opt_int_at(t, "entity_id"@) == Some(x.entity_id)
    &&& opt_text_at(t, "entity_name"@) == Some(opt_string(x.entity_name))
    &&& text_at(t, "status"@) == Some(x.status@)
    &&& opt_text_at(t, "started_at"@) == Some(opt_string(x.started_at))
    &&& opt_text_at(t, "finished_at"@) == Some(opt_string(x.finished_at))
    &&& opt_int_at(t, "duration_ms"@) == Some(x.duration_ms)
    &&& opt_text_at(t, "trigger_source"@) == Some(opt_string(x.trigger_source))
    &&& opt_text_at(t, "error"@) == Some(opt_string(x.error))
    &&& opt_text_at(t, "detail_url_hint"@) == Some(opt_string(x.detail_url_hint))
    &&& opt_text_at(t, "data_url_hint"@) == Some(opt_string(x.data_url_hint))
    &&& opt_int_at(t, "rows_extracted"@) == Some(x.rows_extracted)
    &&& opt_flag_at(t, "change_detected"@) == Some(x.change_detected)
    &&& opt_text_at(t, "engine"@) == Some(opt_string(x.engine))
    &&& member_trees(x.extra@) == unknown(members_of(t), feed_item_fields())
}

impl RunFeedItem {
    /// Reads a run of the feed.
    #[verifier::spinoff_prover]
    pub fn from_json(j: &Json) -> (r: Option<RunFeedItem>)
        ensures
            r is Some <==> feed_item_readable(j.tree()),
            r matches Some(x) ==> feed_item_reads(x, j.tree()),
    {
        if !j.is_object() {
            return None;
        }
        let id: String = read_text(j, "id")?;
        let run_type: Option<String> = read_opt_text(j, "run_type")?;
        let entity_id: Option<i64> = read_opt_int(j, "entity_id")?;
        let entity_name: Option<String> = read_opt_text(j, "entity_name")?;
        let status: String = read_text(j, "status")?;
        let started_at: Option<String> = read_opt_text(j, "started_at")?;
        let finished_at: Option<String> = read_opt_text(j, "finished_at")?;
        let duration_ms: Option<i64> = read_opt_int(j, "duration_ms")?;
        let trigger_source: Option<String> = read_opt_text(j, "trigger_source")?;
        let error: Option<String> = read_opt_text(j, "error")?;
        let detail_url_hint: Option<String> = read_opt_text(j, "detail_url_hint")?;
        let data_url_hint: Option<String> = read_opt_text(j, "data_url_hint")?;
        let rows_extracted: Option<i64> = read_opt_int(j, "rows_extracted")?;
        let change_detected: Option<bool> = read_opt_flag(j, "change_detected")?;
        let engine: Option<String> = read_opt_text(j, "engine")?;
        let known: [&str; 15] = [
            "id",
            "run_type",
            "entity_id",
            "entity_name",
            "status",
            "started_at",
            "finished_at",
            "duration_ms",
            "trigger_source",
            "error",
            "detail_url_hint",
            "data_url_hint",
            "rows_extracted",
            "change_detected",
            "engine",
        ];
        let extra: Vec<(String, Json)> = read_unknown(j, known.as_slice());
        assert(borrowed(known@) == feed_item_fields());
        Some(
            RunFeedItem {
                id,
                run_type,
                entity_id,
                entity_name,
                status,
                started_at,
                finished_at,
                duration_ms,
                trigger_source,
                error,
                detail_url_hint,
                data_url_hint,
                rows_extracted,
                change_detected,
                engine,
                extra,
            },
        )
    }
}

/// The fields that the outcome of a cancellation knows.
pub open spec fn cancel_outcome_fields() -> Seq<Seq<char>> {
    seq![
        "run_id"@,
        "id"@,
        "status"@,
        "run_status"@,
    ]
}

/// Whether a value can be read as the outcome of a cancellation: every known field is of its type.
pub open spec fn cancel_outcome_readable(t: Tree) -> bool {
    &&& t is Object
    &&& opt_int_at(t, "run_id"@) is Some
    &&& opt_int_at(t, "id"@) is Some
    &&& text_at(t, "status"@) is Some
    &&& opt_text_at(t, "run_status"@) is Some
}

/// Whether the outcome of a cancellation is the one that a value holds.
pub open spec fn cancel_outcome_reads(x: CancelOutcome, t: Tree) -> bool {
    &&& opt_int_at(t, "run_id"@) == Some(x.run_id)
    &&& opt_int_at(t, "id"@) == Some(x.id)
    &&& text_at(t, "status"@) == Some(x.status@)
    &&& opt_text_at(t, "run_status"@) == Some(opt_string(x.run_status))
    &&& member_trees(x.extra@) == unknown(members_of(t), cancel_outcome_fields())
}

impl CancelOutcome {
    /// Reads the outcome of a cancellation.
    #[verifier::spinoff_prover]
    pub fn from_json(j: &Json) -> (r: Option<CancelOutcome>)
        ensures
            r is Some <==> cancel_outcome_readable(j.tree()),
            r matches Some(x) ==> cancel_outcome_reads(x, j.tree()),
    {
        if !j.is_object() {
            return None;
        }
        let run_id: Option<i64> = read_opt_int(j, "run_id")?;
        let id: Option<i64> = read_opt_int(j, "id")?;
        let status: String = read_text(j, "status")?;
        let run_status: Option<String> = read_opt_text(j, "run_status")?;
        let known: [&str; 4] = [
            "run_id",
            "id",
            "status",
            "run_status",
        ];
        let extra: Vec<(String, Json)> = read_unknown(j, known.as_slice());
        assert(borrowed(known@) == cancel_outcome_fields());
        Some(
            CancelOutcome {
                run_id,
                id,
                status,
                run_status,
                extra,
            },
        )
    }
}

/// The fields that a run that was waited for knows.
pub open spec fn run_completed_fields() -> Seq<Seq<char>> {
    seq![
        "run_id"@,
        "status"@,
        "done"@,
        "data"@,
        "error"@,
        "duration_ms"@,
        "status_url"@,
        "events_url"@,
    ]
}

/// Whether a value can be read as a run that was waited for: every known field is of its type, and what must be there is.
pub open spec fn run_completed_readable(t: Tree) -> bool {
    &&& t is Object
    &&& t.get("run_id"@) is Some
    &&& t.get("status"@) is Some
    &&& int_at(t, "run_id"@) is Some
    &&& text_at(t, "status"@) is Some
    &&& flag_at(t, "done"@) is Some
    &&& opt_text_at(t, "error"@) is Some
    &&& opt_int_at(t, "duration_ms"@) is Some
    &&& opt_text_at(t, "status_url"@) is Some
    &&& opt_text_at(t, "events_url"@) is Some
}

/// Whether a run that was waited for is the one that a value holds.
pub open spec fn run_completed_reads(x: RunCompleted, t: Tree) -> bool {
    &&& int_at(t, "run_id"@) == Some(x.run_id)
    &&& text_at(t, "status"@) == Some(x.status@)
    &&& flag_at(t, "done"@) == Some(x.done)
    &&& opt_json_at(t, "data"@) == opt_tree(x.data)
    &&& opt_text_at(t, "error"@) == Some(opt_string(x.error))
    &&& opt_int_at(t, "duration_ms"@) == Some(x.duration_ms)
    &&& opt_text_at(t, "status_url"@) == Some(opt_string(x.status_url))
    &&& opt_text_at(t, "events_url"@) == Some(opt_string(x.events_url))
    &&& member_trees(x.extra@) == unknown(members_of(t), run_completed_fields())
}

impl RunCompleted {
    /// Reads a run that was waited for.
    #[verifier::spinoff_prover]
    pub fn from_json(j: &Json) -> (r: Option<RunCompleted>)
        ensures
            r is Some <==> run_completed_readable(j.tree()),
            r matches Some(x) ==> run_completed_reads(x, j.tree()),
    {
        if !j.is_object() {
            return None;
        }
        if j.get("run_id").is_none() {
            return None;
        }
        if j.get("status").is_none() {
            return None;
        }
        let run_id: i64 = read_int(j, "run_id")?;
        let status: String = read_text(j, "status")?;
        let done: bool = read_flag(j, "done")?;
        let data: Option<Json> = read_opt_json(j, "data");
        let error: Option<String> = read_opt_text(j, "error")?;
        let duration_ms: Option<i64> = read_opt_int(j, "duration_ms")?;
        let status_url: Option<String> = read_opt_text(j, "status_url")?;
        let events_url: Option<String> = read_opt_text(j, "events_url")?;
        let known: [&str; 8] = [
            "run_id",
            "status",
            "done",
            "data",
            "error",
            "duration_ms",
            "status_url",
            "events_url",
        ];
        let extra: Vec<(String, Json)> = read_unknown(j, known.as_slice());
        assert(borrowed(known@) == run_completed_fields());
        Some(
            RunCompleted {
                run_id,
                status,
                done,
                data,
                error,
                duration_ms,
                status_url,
                events_url,
                extra,
            },
        )
    }
}

/// The fields that a crawl knows.
pub open spec fn crawl_job_fields() -> Seq<Seq<char>> {
    seq![
        "id"@,
        "name"@,
        "seed_url"@,
        "include_paths"@,
        "exclude_paths"@,
        "max_depth"@,
        "same_domain"@,
        "allow_subdomains"@,
        "extract_mode"@,
        "extract_schema"@,
        "persona_id"@,
        "respect_robots"@,
        "delay_ms"@,
        "max_concurrent"@,
        "page_budget"@,
        "workflow_id"@,
        "data_workflow_id"@,
        "concierge_session_id"@,
        "status"@,
        "pages_discovered"@,
        "pages_done"@,
        "pages_failed"@,
        "pages_skipped"@,
        "workers_active"@,
        "current_depth"@,
        "error"@,
        "cancel_requested"@,
        "brand"@,
        "is_terminal"@,
        "created_at"@,
        "updated_at"@,
        "started_at"@,
        "completed_at"@,
    ]
}

/// Whether a value can be read as a crawl: every known field is of its type.
pub open spec fn crawl_job_readable(t: Tree) -> bool {
    &&& t is Object
    &&& int_at(t, "id"@) is Some
    &&& text_at(t, "name"@) is Some
    &&& text_at(t, "seed_url"@) is Some
    &&& texts_at(t, "include_paths"@) is Some
    &&& texts_at(t, "exclude_paths"@) is Some
    &&& int_at(t, "max_depth"@) is Some
    &&& int_at(t, "same_domain"@) is Some
    &&& int_at(t, "allow_subdomains"@) is Some
    &&& text_at(t, "extract_mode"@) is Some
    &&& opt_int_at(t, "persona_id"@) is Some
    &&& int_at(t, "respect_robots"@) is Some
    &&& int_at(t, "delay_ms"@) is Some
    &&& int_at(t, "max_concurrent"@) is Some
    &&& int_at(t, "page_budget"@) is Some
    &&& opt_int_at(t, "workflow_id"@) is Some
    &&& opt_int_at(t, "data_workflow_id"@) is Some
    &&& opt_int_at(t, "concierge_session_id"@) is Some
    &&& text_at(t, "status"@) is Some
    &&& int_at(t, "pages_discovered"@) is Some
    &&& int_at(t, "pages_done"@) is Some
    &&& int_at(t, "pages_failed"@) is Some
    &&& int_at(t, "pages_skipped"@) is Some
    &&& int_at(t, "workers_active"@) is Some
    &&& int_at(t, "current_depth"@) is Some
    &&& opt_text_at(t, "error"@) is Some
    &&& int_at(t, "cancel_requested"@) is Some
    &&& brand_at(t, "brand"@) is Some
    &&& flag_at(t, "is_terminal"@) is Some
    &&& text_at(t, "created_at"@) is Some
    &&& opt_text_at(t, "updated_at"@) is Some
    &&& opt_text_at(t, "started_at"@) is Some
    &&& opt_text_at(t, "completed_at"@) is Some
}

/// Whether a crawl is the one that a value holds.
pub open spec fn crawl_job_reads(x: CrawlJob, t: Tree) -> bool {
    &&& int_at(t, "id"@) == Some(x.id)
    &&& text_at(t, "name"@) == Some(x.name@)
    &&& text_at(t, "seed_url"@) == Some(x.seed_url@)
    &&& texts_at(t, "include_paths"@) == Some(texts(x.include_paths@))
    &&& texts_at(t, "exclude_paths"@) == Some(texts(x.exclude_paths@))
    &&& int_at(t, "max_depth"@) == Some(x.max_depth)
    &&& int_at(t, "same_domain"@) == Some(x.same_domain)
    &&& int_at(t, "allow_subdomains"@) == Some(x.allow_subdomains)
    &&& text_at(t, "extract_mode"@) == Some(x.extract_mode@)
    &&& opt_json_at(t, "extract_schema"@) == opt_tree(x.extract_schema)
    &&& opt_int_at(t, "persona_id"@) == Some(x.persona_id)
    &&& int_at(t, "respect_robots"@) == Some(x.respect_robots)
    &&& int_at(t, "delay_ms"@) == Some(x.delay_ms)
    &&& int_at(t, "max_concurrent"@) == Some(x.max_concurrent)
    &&& int_at(t, "page_budget"@) == Some(x.page_budget)
    &&& opt_int_at(t, "workflow_id"@) == Some(x.workflow_id)
    &&& opt_int_at(t, "data_workflow_id"@) == Some(x.data_workflow_id)
    &&& opt_int_at(t, "concierge_session_id"@) == Some(x.concierge_session_id)
    &&& text_at(t, "status"@) == Some(x.status@)
    &&& int_at(t, "pages_discovered"@) == Some(x.pages_discovered)
    &&& int_at(t, "pages_done"@) == Some(x.pages_done)
    &&& int_at(t, "pages_failed"@) == Some(x.pages_failed)
    &&& int_at(t, "pages_skipped"@) == Some(x.pages_skipped)
    &&& int_at(t, "workers_active"@) == Some(x.workers_active)
    &&& int_at(t, "current_depth"@) == Some(x.current_depth)
    &&& opt_text_at(t, "error"@) == Some(opt_string(x.error))
    &&& int_at(t, "cancel_requested"@) == Some(x.cancel_requested)
    &&& brand_at(t, "brand"@) == Some(x.brand@)
    &&& flag_at(t, "is_terminal"@) == Some(x.is_terminal)
    &&& text_at(t, "created_at"@) == Some(x.created_at@)
    &&& opt_text_at(t, "updated_at"@) == Some(opt_string(x.updated_at))
    &&& opt_text_at(t, "started_at"@) == Some(opt_string(x.started_at))
    &&& opt_text_at(t, "completed_at"@) == Some(opt_string(x.completed_at))
    &&& member_trees(x.extra@) == unknown(members_of(t), crawl_job_fields())
}

impl CrawlJob {
    /// Reads a crawl.
    #[verifier::spinoff_prover]
    pub fn from_json(j: &Json) -> (r: Option<CrawlJob>)
        ensures
            r is Some <==> crawl_job_readable(j.tree()),
            r matches Some(x) ==> crawl_job_reads(x, j.tree()),
    {
        if !j.is_object() {
            return None;
        }
        let id: i64 = read_int(j, "id")?;
        let name: String = read_text(j, "name")?;
        let seed_url: String = read_text(j, "seed_url")?;
        let include_paths: Vec<String> = read_texts(j, "include_paths")?;
        let exclude_paths: Vec<String> = read_texts(j, "exclude_paths")?;
        let max_depth: i64 = read_int(j, "max_depth")?;
        let same_domain: i64 = read_int(j, "same_domain")?;
        let allow_subdomains: i64 = read_int(j, "allow_subdomains")?;
        let extract_mode: String = read_text(j, "extract_mode")?;
        let extract_schema: Option<Json> = read_opt_json(j, "extract_schema");
        let persona_id: Option<i64> = read_opt_int(j, "persona_id")?;
        let respect_robots: i64 = read_int(j, "respect_robots")?;
        let delay_ms: i64 = read_int(j, "delay_ms")?;
        let max_concurrent: i64 = read_int(j, "max_concurrent")?;
        let page_budget: i64 = read_int(j, "page_budget")?;
        let workflow_id: Option<i64> = read_opt_int(j, "workflow_id")?;
        let data_workflow_id: Option<i64> = read_opt_int(j, "data_workflow_id")?;
        let concierge_session_id: Option<i64> = read_opt_int(j, "concierge_session_id")?;
        let status: String = read_text(j, "status")?;
        let pages_discovered: i64 = read_int(j, "pages_discovered")?;
        let pages_done: i64 = read_int(j, "pages_done")?;
        let pages_failed: i64 = read_int(j, "pages_failed")?;
        let pages_skipped: i64 = read_int(j, "pages_skipped")?;
        let workers_active: i64 = read_int(j, "workers_active")?;
        let current_depth: i64 = read_int(j, "current_depth")?;
        let error: Option<String> = read_opt_text(j, "error")?;
        let cancel_requested: i64 = read_int(j, "cancel_requested")?;
        let brand: Brand = read_brand(j, "brand")?;
        let is_terminal: bool = read_flag(j, "is_terminal")?;
        let created_at: String = read_text(j, "created_at")?;
        let updated_at: Option<String> = read_opt_text(j, "updated_at")?;
        let started_at: Option<String> = read_opt_text(j, "started_at")?;
        let completed_at: Option<String> = read_opt_text(j, "completed_at")?;
        let known: [&str; 33] = [
            "id",
            "name",
            "seed_url",
            "include_paths",
            "exclude_paths",
            "max_depth",
            "same_domain",
            "allow_subdomains",
            "extract_mode",
            "extract_schema",
            "persona_id",
            "respect_robots",
            "delay_ms",
            "max_concurrent",
            "page_budget",
            "workflow_id",
            "data_workflow_id",
            "concierge_session_id",
            "status",
            "pages_discovered",
            "pages_done",
            "pages_failed",
            "pages_skipped",
            "workers_active",
            "current_depth",
            "error",
            "cancel_requested",
            "brand",
            "is_terminal",
            "created_at",
            "updated_at",
            "started_at",
            "completed_at",
        ];
        let extra: Vec<(String, Json)> = read_unknown(j, known.as_slice());
        assert(borrowed(known@) == crawl_job_fields());
        Some(
            CrawlJob {
                id,
                name,
                seed_url,
                include_paths,
                exclude_paths,
                max_depth,
                same_domain,
                allow_subdomains,
                extract_mode,
                extract_schema,
                persona_id,
                respect_robots,
                delay_ms,
                max_concurrent,
                page_budget,
                workflow_id,
                data_workflow_id,
                concierge_session_id,
                status,
                pages_discovered,
                pages_done,
                pages_failed,
                pages_skipped,
                workers_active,
                current_depth,
                error,
                cancel_requested,
                brand,
                is_terminal,
                created_at,
                updated_at,
                started_at,
                completed_at,
                extra,
            },
        )
    }
}

/// An object without the members of one name.
pub open spec fn without_member(t: Tree, name: Seq<char>) -> Tree {
    Tree::Object(unknown(members_of(t), seq![name]))
}

impl CrawlCancel {
    /// Reads the outcome of a crawl's cancellation: a flag beside the crawl's own fields,
    /// which is not one of them.
    pub fn from_json(j: &Json) -> (r: Option<CrawlCancel>)
        ensures
            r is Some <==> {
                &&& j.tree() is Object
                &&& flag_at(j.tree(), "cancel_requested_now"@) is Some
                &&& crawl_job_readable(without_member(j.tree(), "cancel_requested_now"@))
            },
            r matches Some(x) ==> {
                &&& flag_at(j.tree(), "cancel_requested_now"@) == Some(x.cancel_requested_now)
                &&& crawl_job_reads(x.job, without_member(j.tree(), "cancel_requested_now"@))
            },
    {
        broadcast use crate::json::lemma_object_tree;

        if !j.is_object() {
            return None;
        }
        let cancel_requested_now: bool = read_flag(j, "cancel_requested_now")?;
        let taken: [&str; 1] = ["cancel_requested_now"];
        let rest: Vec<(String, Json)> = read_unknown(j, taken.as_slice());
        assert(borrowed(taken@) == seq!["cancel_requested_now"@]);
        let job: CrawlJob = CrawlJob::from_json(&Json::Object(rest))?;
        Some(CrawlCancel { job, cancel_requested_now })
    }
}

} // verus!
