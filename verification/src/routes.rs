//! How calls are addressed: the calls on one thing agree on where it is, each with the method
//! of its kind, and carry what they were given.

use crate::cloud_models::{
    build_members, change_query, ChangeListOptions, CloudAutomationListOptions, CloudBuildParams,
    CloudMonitorListOptions,
};
use crate::cloud_verbs::{
    automation_query, bool_text, monitor_query, totp_members, CloudAutomations, CloudBuilds,
    CloudMonitors, CloudPersonas,
};
use crate::error::WritError;
use crate::json::{opt_member, opt_tree, Json, Tree};
use crate::models::{CrawlStartParams, DatasetFormat};
use crate::request::{flag_text, opt_int_text, opt_pair, Method, Request};
use crate::resources::{
    given_pairs, run_members, single, wait_query, Agent, Automations, Crawl, Data, Datasets,
    Extractors, Files, Keys, Monitors, Personas, RunOptions, Runs, Secrets, Selectors, Vault,
    Workflows,
};
use crate::text::{int_text, opt_text};
use crate::time::Duration;
use vstd::prelude::*;

verus! {

broadcast use vstd::string::group_string_axioms;

/// Where each call on the daemon itself goes, by which method, what it carries of what it was
/// given, and which statuses it takes for an answer.
pub proof fn law_agent_is_addressed_alike(
    h: Agent,
    status_: Request,
    health_: Request,
)
    requires
        call_ensures(Agent::status, (&h,), status_),
        call_ensures(Agent::health, (&h,), health_),
    ensures
        status_@.method == Method::Get,
        status_@.path == "/v1/agent"@,
        status_@.query == Seq::<(Seq<char>, Seq<char>)>::empty(),
        status_@.body == None::<Tree>,
        status_@.extra_ok == Seq::<u16>::empty(),
        health_@.method == Method::Get,
        health_@.path == "/v1/health"@,
        health_@.query == Seq::<(Seq<char>, Seq<char>)>::empty(),
        health_@.body == None::<Tree>,
        health_@.extra_ok == Seq::<u16>::empty(),
{
}

/// Where each call on workflows goes, by which method, what it carries of what it was given,
/// and which statuses it takes for an answer.
pub proof fn law_workflows_are_addressed_alike(
    h: Workflows,
    query: &[(&str, &str)],
    body: Json,
    id: i64,
    patch: Json,
    opts: RunOptions,
    timeout: Option<Duration>,
    list_: Request,
    list_with_: Request,
    create_: Request,
    get_: Request,
    update_: Request,
    delete_: Request,
    run_: Request,
    run_wait_: Request,
    dry_run_: Request,
    cancel_: Request,
    session_: Request,
    clear_session_: Request,
)
    requires
        call_ensures(Workflows::list, (&h,), list_),
        call_ensures(Workflows::list_with, (&h, query), list_with_),
        call_ensures(Workflows::create, (&h, body), create_),
        call_ensures(Workflows::get, (&h, id), get_),
        call_ensures(Workflows::update, (&h, id, patch), update_),
        call_ensures(Workflows::delete, (&h, id), delete_),
        call_ensures(Workflows::run, (&h, id, &opts), run_),
        call_ensures(Workflows::run_wait, (&h, id, &opts, timeout), run_wait_),
        call_ensures(Workflows::dry_run, (&h, id, &opts), dry_run_),
        call_ensures(Workflows::cancel, (&h, id), cancel_),
        call_ensures(Workflows::session, (&h, id), session_),
        call_ensures(Workflows::clear_session, (&h, id), clear_session_),
    ensures
        list_@.method == Method::Get,
        list_@.path == "/v1/workflows"@,
        list_@.query == Seq::<(Seq<char>, Seq<char>)>::empty(),
        list_@.body == None::<Tree>,
        list_@.extra_ok == Seq::<u16>::empty(),
        list_with_@.method == Method::Get,
        list_with_@.path == list_@.path,
        list_with_@.query == given_pairs(query@),
        list_with_@.body == None::<Tree>,
        list_with_@.extra_ok == Seq::<u16>::empty(),
        create_@.method == Method::Post,
        create_@.path == list_@.path,
        create_@.query == Seq::<(Seq<char>, Seq<char>)>::empty(),
        create_@.body == Some(body.tree()),
        create_@.extra_ok == Seq::<u16>::empty(),
        get_@.method == Method::Get,
        get_@.path == "/v1/workflows/"@ + int_text(id as int),
        get_@.query == Seq::<(Seq<char>, Seq<char>)>::empty(),
        get_@.body == None::<Tree>,
        get_@.extra_ok == Seq::<u16>::empty(),
        update_@.method == Method::Patch,
        update_@.path == get_@.path,
        update_@.query == Seq::<(Seq<char>, Seq<char>)>::empty(),
        update_@.body == Some(patch.tree()),
        update_@.extra_ok == Seq::<u16>::empty(),
        delete_@.method == Method::Delete,
        delete_@.path == get_@.path,
        delete_@.query == Seq::<(Seq<char>, Seq<char>)>::empty(),
        delete_@.body == None::<Tree>,
        delete_@.extra_ok == Seq::<u16>::empty(),
        run_@.method == Method::Post,
        run_@.path == get_@.path + "/run"@,
        run_@.query == Seq::<(Seq<char>, Seq<char>)>::empty(),
        run_@.body == Some(Tree::Object(run_members(opts, false))),
        run_@.extra_ok == Seq::<u16>::empty(),
        run_wait_@.method == Method::Post,
        run_wait_@.path == get_@.path + "/run"@,
        run_wait_@.query == wait_query(timeout),
        run_wait_@.body == Some(Tree::Object(run_members(opts, false))),
        run_wait_@.extra_ok == seq![504u16],
        dry_run_@.method == Method::Post,
        dry_run_@.path == get_@.path + "/run"@,
        dry_run_@.query == Seq::<(Seq<char>, Seq<char>)>::empty(),
        dry_run_@.body == Some(Tree::Object(run_members(opts, true))),
        dry_run_@.extra_ok == Seq::<u16>::empty(),
        cancel_@.method == Method::Post,
        cancel_@.path == get_@.path + "/cancel"@,
        cancel_@.query == Seq::<(Seq<char>, Seq<char>)>::empty(),
        cancel_@.body == None::<Tree>,
        cancel_@.extra_ok == seq![409u16],
        session_@.method == Method::Get,
        session_@.path == get_@.path + "/session"@,
        session_@.query == Seq::<(Seq<char>, Seq<char>)>::empty(),
        session_@.body == None::<Tree>,
        session_@.extra_ok == Seq::<u16>::empty(),
        clear_session_@.method == Method::Delete,
        clear_session_@.path == get_@.path + "/session"@,
        clear_session_@.query == Seq::<(Seq<char>, Seq<char>)>::empty(),
        clear_session_@.body == None::<Tree>,
        clear_session_@.extra_ok == Seq::<u16>::empty(),
{
}

/// Where each call on runs goes, by which method, what it carries of what it was given, and
/// which statuses it takes for an answer.
pub proof fn law_runs_are_addressed_alike(
    h: Runs,
    query: &[(&str, &str)],
    run_id: i64,
    list_: Request,
    list_with_: Request,
    get_: Request,
    results_: Request,
    data_: Request,
    data_csv_: Request,
    cancel_: Request,
    events_: Request,
)
    requires
        call_ensures(Runs::list, (&h,), list_),
        call_ensures(Runs::list_with, (&h, query), list_with_),
        call_ensures(Runs::get, (&h, run_id), get_),
        call_ensures(Runs::results, (&h, run_id), results_),
        call_ensures(Runs::data, (&h, run_id), data_),
        call_ensures(Runs::data_csv, (&h, run_id), data_csv_),
        call_ensures(Runs::cancel, (&h, run_id), cancel_),
        call_ensures(Runs::events, (&h, run_id), events_),
    ensures
        list_@.method == Method::Get,
        list_@.path == "/v1/runs"@,
        list_@.query == Seq::<(Seq<char>, Seq<char>)>::empty(),
        list_@.body == None::<Tree>,
        list_@.extra_ok == Seq::<u16>::empty(),
        list_with_@.method == Method::Get,
        list_with_@.path == list_@.path,
        list_with_@.query == given_pairs(query@),
        list_with_@.body == None::<Tree>,
        list_with_@.extra_ok == Seq::<u16>::empty(),
        get_@.method == Method::Get,
        get_@.path == "/v1/runs/"@ + int_text(run_id as int),
        get_@.query == Seq::<(Seq<char>, Seq<char>)>::empty(),
        get_@.body == None::<Tree>,
        get_@.extra_ok == Seq::<u16>::empty(),
        results_@.method == Method::Get,
        results_@.path == get_@.path + "/results"@,
        results_@.query == Seq::<(Seq<char>, Seq<char>)>::empty(),
        results_@.body == None::<Tree>,
        results_@.extra_ok == Seq::<u16>::empty(),
        data_@.method == Method::Get,
        data_@.path == get_@.path + "/data"@,
        data_@.query == Seq::<(Seq<char>, Seq<char>)>::empty(),
        data_@.body == None::<Tree>,
        data_@.extra_ok == Seq::<u16>::empty(),
        data_csv_@.method == Method::Get,
        data_csv_@.path == get_@.path + "/data"@,
        data_csv_@.query == seq![("format"@, "csv"@)],
        data_csv_@.body == None::<Tree>,
        data_csv_@.extra_ok == Seq::<u16>::empty(),
        cancel_@.method == Method::Post,
        cancel_@.path == get_@.path + "/cancel"@,
        cancel_@.query == Seq::<(Seq<char>, Seq<char>)>::empty(),
        cancel_@.body == None::<Tree>,
        cancel_@.extra_ok == seq![409u16],
        events_@.method == Method::Get,
        events_@.path == get_@.path + "/events"@,
        events_@.query == Seq::<(Seq<char>, Seq<char>)>::empty(),
        events_@.body == None::<Tree>,
        events_@.extra_ok == Seq::<u16>::empty(),
{
}

/// Where each call on monitors goes, by which method, what it carries of what it was given, and
/// which statuses it takes for an answer.
pub proof fn law_monitors_are_addressed_alike(
    h: Monitors,
    query: &[(&str, &str)],
    body: Json,
    id: i64,
    patch: Json,
    list_: Request,
    list_with_: Request,
    create_: Request,
    get_: Request,
    update_: Request,
    delete_: Request,
    run_: Request,
    changes_: Request,
    changes_with_: Request,
    capacity_: Request,
    recent_changes_: Request,
    recent_changes_with_: Request,
)
    requires
        call_ensures(Monitors::list, (&h,), list_),
        call_ensures(Monitors::list_with, (&h, query), list_with_),
        call_ensures(Monitors::create, (&h, body), create_),
        call_ensures(Monitors::get, (&h, id), get_),
        call_ensures(Monitors::update, (&h, id, patch), update_),
        call_ensures(Monitors::delete, (&h, id), delete_),
        call_ensures(Monitors::run, (&h, id), run_),
        call_ensures(Monitors::changes, (&h, id), changes_),
        call_ensures(Monitors::changes_with, (&h, id, query), changes_with_),
        call_ensures(Monitors::capacity, (&h,), capacity_),
        call_ensures(Monitors::recent_changes, (&h,), recent_changes_),
        call_ensures(Monitors::recent_changes_with, (&h, query), recent_changes_with_),
    ensures
        list_@.method == Method::Get,
        list_@.path == "/v1/monitors"@,
        list_@.query == Seq::<(Seq<char>, Seq<char>)>::empty(),
        list_@.body == None::<Tree>,
        list_@.extra_ok == Seq::<u16>::empty(),
        list_with_@.method == Method::Get,
        list_with_@.path == list_@.path,
        list_with_@.query == given_pairs(query@),
        list_with_@.body == None::<Tree>,
        list_with_@.extra_ok == Seq::<u16>::empty(),
        create_@.method == Method::Post,
        create_@.path == list_@.path,
        create_@.query == Seq::<(Seq<char>, Seq<char>)>::empty(),
        create_@.body == Some(body.tree()),
        create_@.extra_ok == Seq::<u16>::empty(),
        get_@.method == Method::Get,
        get_@.path == "/v1/monitors/"@ + int_text(id as int),
        get_@.query == Seq::<(Seq<char>, Seq<char>)>::empty(),
        get_@.body == None::<Tree>,
        get_@.extra_ok == Seq::<u16>::empty(),
        update_@.method == Method::Patch,
        update_@.path == get_@.path,
        update_@.query == Seq::<(Seq<char>, Seq<char>)>::empty(),
        update_@.body == Some(patch.tree()),
        update_@.extra_ok == Seq::<u16>::empty(),
        delete_@.method == Method::Delete,
        delete_@.path == get_@.path,
        delete_@.query == Seq::<(Seq<char>, Seq<char>)>::empty(),
        delete_@.body == None::<Tree>,
        delete_@.extra_ok == Seq::<u16>::empty(),
        run_@.method == Method::Post,
        run_@.path == get_@.path + "/run"@,
        run_@.query == Seq::<(Seq<char>, Seq<char>)>::empty(),
        run_@.body == None::<Tree>,
        run_@.extra_ok == Seq::<u16>::empty(),
        changes_@.method == Method::Get,
        changes_@.path == get_@.path + "/changes"@,
        changes_@.query == Seq::<(Seq<char>, Seq<char>)>::empty(),
        changes_@.body == None::<Tree>,
        changes_@.extra_ok == Seq::<u16>::empty(),
        changes_with_@.method == Method::Get,
        changes_with_@.path == get_@.path + "/changes"@,
        changes_with_@.query == given_pairs(query@),
        changes_with_@.body == None::<Tree>,
        changes_with_@.extra_ok == Seq::<u16>::empty(),
        capacity_@.method == Method::Get,
        capacity_@.path == "/v1/monitors/capacity"@,
        capacity_@.query == Seq::<(Seq<char>, Seq<char>)>::empty(),
        capacity_@.body == None::<Tree>,
        capacity_@.extra_ok == Seq::<u16>::empty(),
        recent_changes_@.method == Method::Get,
        recent_changes_@.path == "/v1/changes/recent"@,
        recent_changes_@.query == Seq::<(Seq<char>, Seq<char>)>::empty(),
        recent_changes_@.body == None::<Tree>,
        recent_changes_@.extra_ok == Seq::<u16>::empty(),
        recent_changes_with_@.method == Method::Get,
        recent_changes_with_@.path == "/v1/changes/recent"@,
        recent_changes_with_@.query == given_pairs(query@),
        recent_changes_with_@.body == None::<Tree>,
        recent_changes_with_@.extra_ok == Seq::<u16>::empty(),
{
}

/// Where each call on selectors goes, by which method, what it carries of what it was given,
/// and which statuses it takes for an answer.
pub proof fn law_selectors_are_addressed_alike(
    h: Selectors,
    monitor_id: i64,
    body: Json,
    selector_id: i64,
    patch: Json,
    list_: Request,
    create_: Request,
    get_: Request,
    update_: Request,
    delete_: Request,
    toggle_: Request,
    test_: Request,
    set_baseline_: Request,
    clear_baseline_: Request,
)
    requires
        call_ensures(Selectors::list, (&h, monitor_id), list_),
        call_ensures(Selectors::create, (&h, monitor_id, body), create_),
        call_ensures(Selectors::get, (&h, monitor_id, selector_id), get_),
        call_ensures(Selectors::update, (&h, monitor_id, selector_id, patch), update_),
        call_ensures(Selectors::delete, (&h, monitor_id, selector_id), delete_),
        call_ensures(Selectors::toggle, (&h, monitor_id, selector_id), toggle_),
        call_ensures(Selectors::test, (&h, monitor_id, selector_id), test_),
        call_ensures(Selectors::set_baseline, (&h, monitor_id, selector_id), set_baseline_),
        call_ensures(Selectors::clear_baseline, (&h, monitor_id, selector_id), clear_baseline_),
    ensures
        list_@.method == Method::Get,
        list_@.path == "/v1/monitors/"@ + int_text(monitor_id as int) + "/selectors"@,
        list_@.query == Seq::<(Seq<char>, Seq<char>)>::empty(),
        list_@.body == None::<Tree>,
        list_@.extra_ok == Seq::<u16>::empty(),
        create_@.method == Method::Post,
        create_@.path == list_@.path,
        create_@.query == Seq::<(Seq<char>, Seq<char>)>::empty(),
        create_@.body == Some(body.tree()),
        create_@.extra_ok == Seq::<u16>::empty(),
        get_@.method == Method::Get,
        get_@.path == "/v1/monitors/"@ + int_text(monitor_id as int) + "/selectors/"@ + int_text(selector_id as int),
        get_@.query == Seq::<(Seq<char>, Seq<char>)>::empty(),
        get_@.body == None::<Tree>,
        get_@.extra_ok == Seq::<u16>::empty(),
        update_@.method == Method::Patch,
        update_@.path == get_@.path,
        update_@.query == Seq::<(Seq<char>, Seq<char>)>::empty(),
        update_@.body == Some(patch.tree()),
        update_@.extra_ok == Seq::<u16>::empty(),
        delete_@.method == Method::Delete,
        delete_@.path == get_@.path,
        delete_@.query == Seq::<(Seq<char>, Seq<char>)>::empty(),
        delete_@.body == None::<Tree>,
        delete_@.extra_ok == Seq::<u16>::empty(),
        toggle_@.method == Method::Post,
        toggle_@.path == get_@.path + "/toggle"@,
        toggle_@.query == Seq::<(Seq<char>, Seq<char>)>::empty(),
        toggle_@.body == None::<Tree>,
        toggle_@.extra_ok == Seq::<u16>::empty(),
        test_@.method == Method::Post,
        test_@.path == get_@.path + "/test"@,
        test_@.query == Seq::<(Seq<char>, Seq<char>)>::empty(),
        test_@.body == None::<Tree>,
        test_@.extra_ok == Seq::<u16>::empty(),
        set_baseline_@.method == Method::Post,
        set_baseline_@.path == get_@.path + "/set-baseline"@,
        set_baseline_@.query == Seq::<(Seq<char>, Seq<char>)>::empty(),
        set_baseline_@.body == None::<Tree>,
        set_baseline_@.extra_ok == Seq::<u16>::empty(),
        clear_baseline_@.method == Method::Post,
        clear_baseline_@.path == get_@.path + "/clear-baseline"@,
        clear_baseline_@.query == Seq::<(Seq<char>, Seq<char>)>::empty(),
        clear_baseline_@.body == None::<Tree>,
        clear_baseline_@.extra_ok == Seq::<u16>::empty(),
{
}

/// Where each call on extractors goes, by which method, what it carries of what it was given,
/// and which statuses it takes for an answer.
pub proof fn law_extractors_are_addressed_alike(
    h: Extractors,
    selector_id: i64,
    body: Json,
    extractor_id: i64,
    patch: Json,
    list_: Request,
    create_: Request,
    get_: Request,
    update_: Request,
    delete_: Request,
    toggle_: Request,
    test_: Request,
)
    requires
        call_ensures(Extractors::list, (&h, selector_id), list_),
        call_ensures(Extractors::create, (&h, body), create_),
        call_ensures(Extractors::get, (&h, extractor_id), get_),
        call_ensures(Extractors::update, (&h, extractor_id, patch), update_),
        call_ensures(Extractors::delete, (&h, extractor_id), delete_),
        call_ensures(Extractors::toggle, (&h, extractor_id), toggle_),
        call_ensures(Extractors::test, (&h, extractor_id, body), test_),
    ensures
        list_@.method == Method::Get,
        list_@.path == "/v1/selectors/"@ + int_text(selector_id as int) + "/extractors"@,
        list_@.query == Seq::<(Seq<char>, Seq<char>)>::empty(),
        list_@.body == None::<Tree>,
        list_@.extra_ok == Seq::<u16>::empty(),
        create_@.method == Method::Post,
        create_@.path == "/v1/extractors"@,
        create_@.query == Seq::<(Seq<char>, Seq<char>)>::empty(),
        create_@.body == Some(body.tree()),
        create_@.extra_ok == Seq::<u16>::empty(),
        get_@.method == Method::Get,
        get_@.path == "/v1/extractors/"@ + int_text(extractor_id as int),
        get_@.query == Seq::<(Seq<char>, Seq<char>)>::empty(),
        get_@.body == None::<Tree>,
        get_@.extra_ok == Seq::<u16>::empty(),
        update_@.method == Method::Patch,
        update_@.path == get_@.path,
        update_@.query == Seq::<(Seq<char>, Seq<char>)>::empty(),
        update_@.body == Some(patch.tree()),
        update_@.extra_ok == Seq::<u16>::empty(),
        delete_@.method == Method::Delete,
        delete_@.path == get_@.path,
        delete_@.query == Seq::<(Seq<char>, Seq<char>)>::empty(),
        delete_@.body == None::<Tree>,
        delete_@.extra_ok == Seq::<u16>::empty(),
        toggle_@.method == Method::Patch,
        toggle_@.path == get_@.path + "/toggle"@,
        toggle_@.query == Seq::<(Seq<char>, Seq<char>)>::empty(),
        toggle_@.body == None::<Tree>,
        toggle_@.extra_ok == Seq::<u16>::empty(),
        test_@.method == Method::Post,
        test_@.path == get_@.path + "/test"@,
        test_@.query == Seq::<(Seq<char>, Seq<char>)>::empty(),
        test_@.body == Some(body.tree()),
        test_@.extra_ok == Seq::<u16>::empty(),
{
}

/// Where each call on automations goes, by which method, what it carries of what it was given,
/// and which statuses it takes for an answer.
pub proof fn law_automations_are_addressed_alike(
    h: Automations,
    query: &[(&str, &str)],
    body: Json,
    id: i64,
    patch: Json,
    enabled: bool,
    inputs: Option<Json>,
    list_: Request,
    list_with_: Request,
    create_: Request,
    get_: Request,
    update_: Request,
    delete_: Request,
    enable_: Request,
    run_: Request,
)
    requires
        call_ensures(Automations::list, (&h,), list_),
        call_ensures(Automations::list_with, (&h, query), list_with_),
        call_ensures(Automations::create, (&h, body), create_),
        call_ensures(Automations::get, (&h, id), get_),
        call_ensures(Automations::update, (&h, id, patch), update_),
        call_ensures(Automations::delete, (&h, id), delete_),
        call_ensures(Automations::enable, (&h, id, enabled), enable_),
        call_ensures(Automations::run, (&h, id, inputs), run_),
    ensures
        list_@.method == Method::Get,
        list_@.path == "/v1/automations"@,
        list_@.query == Seq::<(Seq<char>, Seq<char>)>::empty(),
        list_@.body == None::<Tree>,
        list_@.extra_ok == Seq::<u16>::empty(),
        list_with_@.method == Method::Get,
        list_with_@.path == list_@.path,
        list_with_@.query == given_pairs(query@),
        list_with_@.body == None::<Tree>,
        list_with_@.extra_ok == Seq::<u16>::empty(),
        create_@.method == Method::Post,
        create_@.path == list_@.path,
        create_@.query == Seq::<(Seq<char>, Seq<char>)>::empty(),
        create_@.body == Some(body.tree()),
        create_@.extra_ok == Seq::<u16>::empty(),
        get_@.method == Method::Get,
        get_@.path == "/v1/automations/"@ + int_text(id as int),
        get_@.query == Seq::<(Seq<char>, Seq<char>)>::empty(),
        get_@.body == None::<Tree>,
        get_@.extra_ok == Seq::<u16>::empty(),
        update_@.method == Method::Patch,
        update_@.path == get_@.path,
        update_@.query == Seq::<(Seq<char>, Seq<char>)>::empty(),
        update_@.body == Some(patch.tree()),
        update_@.extra_ok == Seq::<u16>::empty(),
        delete_@.method == Method::Delete,
        delete_@.path == get_@.path,
        delete_@.query == Seq::<(Seq<char>, Seq<char>)>::empty(),
        delete_@.body == None::<Tree>,
        delete_@.extra_ok == Seq::<u16>::empty(),
        enable_@.method == Method::Post,
        enable_@.path == get_@.path + "/enable"@,
        enable_@.query == Seq::<(Seq<char>, Seq<char>)>::empty(),
        enable_@.body == Some(single("enabled"@, Tree::Bool(enabled))),
        enable_@.extra_ok == Seq::<u16>::empty(),
        run_@.method == Method::Post,
        run_@.path == get_@.path + "/run"@,
        run_@.query == Seq::<(Seq<char>, Seq<char>)>::empty(),
        run_@.body == Some(single( "inputs"@, match inputs { Some(j) => j.tree(), None => Tree::Null, }, )),
        run_@.extra_ok == Seq::<u16>::empty(),
{
}

/// Where each call on personas goes, by which method, what it carries of what it was given, and
/// which statuses it takes for an answer.
pub proof fn law_personas_are_addressed_alike(
    h: Personas,
    query: &[(&str, &str)],
    body: Json,
    id: i64,
    patch: Json,
    list_: Request,
    list_with_: Request,
    create_: Request,
    get_: Request,
    update_: Request,
    delete_: Request,
    runs_: Request,
    validate_totp_: Request,
    test_2fa_: Request,
)
    requires
        call_ensures(Personas::list, (&h,), list_),
        call_ensures(Personas::list_with, (&h, query), list_with_),
        call_ensures(Personas::create, (&h, body), create_),
        call_ensures(Personas::get, (&h, id), get_),
        call_ensures(Personas::update, (&h, id, patch), update_),
        call_ensures(Personas::delete, (&h, id), delete_),
        call_ensures(Personas::runs, (&h, id), runs_),
        call_ensures(Personas::validate_totp, (&h, body), validate_totp_),
        call_ensures(Personas::test_2fa, (&h, id), test_2fa_),
    ensures
        list_@.method == Method::Get,
        list_@.path == "/v1/personas"@,
        list_@.query == Seq::<(Seq<char>, Seq<char>)>::empty(),
        list_@.body == None::<Tree>,
        list_@.extra_ok == Seq::<u16>::empty(),
        list_with_@.method == Method::Get,
        list_with_@.path == list_@.path,
        list_with_@.query == given_pairs(query@),
        list_with_@.body == None::<Tree>,
        list_with_@.extra_ok == Seq::<u16>::empty(),
        create_@.method == Method::Post,
        create_@.path == list_@.path,
        create_@.query == Seq::<(Seq<char>, Seq<char>)>::empty(),
        create_@.body == Some(body.tree()),
        create_@.extra_ok == Seq::<u16>::empty(),
        get_@.method == Method::Get,
        get_@.path == "/v1/personas/"@ + int_text(id as int),
        get_@.query == Seq::<(Seq<char>, Seq<char>)>::empty(),
        get_@.body == None::<Tree>,
        get_@.extra_ok == Seq::<u16>::empty(),
        update_@.method == Method::Patch,
        update_@.path == get_@.path,
        update_@.query == Seq::<(Seq<char>, Seq<char>)>::empty(),
        update_@.body == Some(patch.tree()),
        update_@.extra_ok == Seq::<u16>::empty(),
        delete_@.method == Method::Delete,
        delete_@.path == get_@.path,
        delete_@.query == Seq::<(Seq<char>, Seq<char>)>::empty(),
        delete_@.body == None::<Tree>,
        delete_@.extra_ok == Seq::<u16>::empty(),
        runs_@.method == Method::Get,
        runs_@.path == get_@.path + "/runs"@,
        runs_@.query == Seq::<(Seq<char>, Seq<char>)>::empty(),
        runs_@.body == None::<Tree>,
        runs_@.extra_ok == Seq::<u16>::empty(),
        validate_totp_@.method == Method::Post,
        validate_totp_@.path == "/v1/personas/validate-totp"@,
        validate_totp_@.query == Seq::<(Seq<char>, Seq<char>)>::empty(),
        validate_totp_@.body == Some(body.tree()),
        validate_totp_@.extra_ok == Seq::<u16>::empty(),
        test_2fa_@.method == Method::Post,
        test_2fa_@.path == get_@.path + "/test-2fa"@,
        test_2fa_@.query == Seq::<(Seq<char>, Seq<char>)>::empty(),
        test_2fa_@.body == None::<Tree>,
        test_2fa_@.extra_ok == Seq::<u16>::empty(),
{
}

/// Where each call on secrets goes, by which method, what it carries of what it was given, and
/// which statuses it takes for an answer.
pub proof fn law_secrets_are_addressed_alike(
    h: Secrets,
    query: &[(&str, &str)],
    key: &str,
    value: &str,
    body: Json,
    list_: Request,
    list_with_: Request,
    set_: Request,
    create_: Request,
    get_: Request,
    delete_: Request,
)
    requires
        call_ensures(Secrets::list, (&h,), list_),
        call_ensures(Secrets::list_with, (&h, query), list_with_),
        call_ensures(Secrets::set, (&h, key, value), set_),
        call_ensures(Secrets::create, (&h, body), create_),
        call_ensures(Secrets::get, (&h, key), get_),
        call_ensures(Secrets::delete, (&h, key), delete_),
    ensures
        list_@.method == Method::Get,
        list_@.path == "/v1/secrets"@,
        list_@.query == Seq::<(Seq<char>, Seq<char>)>::empty(),
        list_@.body == None::<Tree>,
        list_@.extra_ok == Seq::<u16>::empty(),
        list_with_@.method == Method::Get,
        list_with_@.path == list_@.path,
        list_with_@.query == given_pairs(query@),
        list_with_@.body == None::<Tree>,
        list_with_@.extra_ok == Seq::<u16>::empty(),
        set_@.method == Method::Post,
        set_@.path == list_@.path,
        set_@.query == Seq::<(Seq<char>, Seq<char>)>::empty(),
        set_@.body == Some(Tree::Object(seq![("name"@, Tree::Str(key@)), ("value"@, Tree::Str(value@))])),
        set_@.extra_ok == Seq::<u16>::empty(),
        create_@.method == Method::Post,
        create_@.path == list_@.path,
        create_@.query == Seq::<(Seq<char>, Seq<char>)>::empty(),
        create_@.body == Some(body.tree()),
        create_@.extra_ok == Seq::<u16>::empty(),
        get_@.method == Method::Get,
        get_@.path == "/v1/secrets/"@ + key@,
        get_@.query == Seq::<(Seq<char>, Seq<char>)>::empty(),
        get_@.body == None::<Tree>,
        get_@.extra_ok == Seq::<u16>::empty(),
        delete_@.method == Method::Delete,
        delete_@.path == get_@.path,
        delete_@.query == Seq::<(Seq<char>, Seq<char>)>::empty(),
        delete_@.body == None::<Tree>,
        delete_@.extra_ok == Seq::<u16>::empty(),
{
}

/// Where each call on the vault goes, by which method, what it carries of what it was given,
/// and which statuses it takes for an answer.
pub proof fn law_vault_is_addressed_alike(
    h: Vault,
    passphrase: &str,
    status_: Request,
    lock_: Request,
    unlock_: Request,
)
    requires
        call_ensures(Vault::status, (&h,), status_),
        call_ensures(Vault::lock, (&h,), lock_),
        call_ensures(Vault::unlock, (&h, passphrase), unlock_),
    ensures
        status_@.method == Method::Get,
        status_@.path == "/v1/vault/status"@,
        status_@.query == Seq::<(Seq<char>, Seq<char>)>::empty(),
        status_@.body == None::<Tree>,
        status_@.extra_ok == Seq::<u16>::empty(),
        lock_@.method == Method::Post,
        lock_@.path == "/v1/vault/lock"@,
        lock_@.query == Seq::<(Seq<char>, Seq<char>)>::empty(),
        lock_@.body == None::<Tree>,
        lock_@.extra_ok == Seq::<u16>::empty(),
        unlock_@.method == Method::Post,
        unlock_@.path == "/v1/vault/unlock"@,
        unlock_@.query == Seq::<(Seq<char>, Seq<char>)>::empty(),
        unlock_@.body == Some(single("passphrase"@, Tree::Str(passphrase@))),
        unlock_@.extra_ok == Seq::<u16>::empty(),
{
}

/// Where each call on files goes, by which method, what it carries of what it was given, and
/// which statuses it takes for an answer.
pub proof fn law_files_are_addressed_alike(
    h: Files,
    query: &[(&str, &str)],
    body: Json,
    id: &str,
    list_: Request,
    list_with_: Request,
    upload_: Request,
    from_data_: Request,
    get_: Request,
    delete_: Request,
    content_: Request,
)
    requires
        call_ensures(Files::list, (&h,), list_),
        call_ensures(Files::list_with, (&h, query), list_with_),
        call_ensures(Files::upload, (&h,), upload_),
        call_ensures(Files::from_data, (&h, body), from_data_),
        call_ensures(Files::get, (&h, id), get_),
        call_ensures(Files::delete, (&h, id), delete_),
        call_ensures(Files::content, (&h, id), content_),
    ensures
        list_@.method == Method::Get,
        list_@.path == "/v1/files"@,
        list_@.query == Seq::<(Seq<char>, Seq<char>)>::empty(),
        list_@.body == None::<Tree>,
        list_@.extra_ok == Seq::<u16>::empty(),
        list_with_@.method == Method::Get,
        list_with_@.path == list_@.path,
        list_with_@.query == given_pairs(query@),
        list_with_@.body == None::<Tree>,
        list_with_@.extra_ok == Seq::<u16>::empty(),
        upload_@.method == Method::Post,
        upload_@.path == list_@.path,
        upload_@.query == Seq::<(Seq<char>, Seq<char>)>::empty(),
        upload_@.body == None::<Tree>,
        upload_@.extra_ok == Seq::<u16>::empty(),
        from_data_@.method == Method::Post,
        from_data_@.path == "/v1/files/from-data"@,
        from_data_@.query == Seq::<(Seq<char>, Seq<char>)>::empty(),
        from_data_@.body == Some(body.tree()),
        from_data_@.extra_ok == Seq::<u16>::empty(),
        get_@.method == Method::Get,
        get_@.path == "/v1/files/"@ + id@,
        get_@.query == Seq::<(Seq<char>, Seq<char>)>::empty(),
        get_@.body == None::<Tree>,
        get_@.extra_ok == Seq::<u16>::empty(),
        delete_@.method == Method::Delete,
        delete_@.path == get_@.path,
        delete_@.query == Seq::<(Seq<char>, Seq<char>)>::empty(),
        delete_@.body == None::<Tree>,
        delete_@.extra_ok == Seq::<u16>::empty(),
        content_@.method == Method::Get,
        content_@.path == get_@.path + "/content"@,
        content_@.query == Seq::<(Seq<char>, Seq<char>)>::empty(),
        content_@.body == None::<Tree>,
        content_@.extra_ok == Seq::<u16>::empty(),
{
}

/// Where each call on collected data goes, by which method, what it carries of what it was
/// given, and which statuses it takes for an answer.
pub proof fn law_data_is_addressed_alike(
    h: Data,
    query: &[(&str, &str)],
    workflow_id: i64,
    query_: Request,
    workflow_data_: Request,
    delete_workflow_data_: Request,
    facets_: Request,
    export_: Request,
    data_runs_: Request,
)
    requires
        call_ensures(Data::query, (&h, query), query_),
        call_ensures(Data::workflow_data, (&h, workflow_id, query), workflow_data_),
        call_ensures(Data::delete_workflow_data, (&h, workflow_id), delete_workflow_data_),
        call_ensures(Data::facets, (&h, workflow_id), facets_),
        call_ensures(Data::export, (&h, workflow_id, query), export_),
        call_ensures(Data::data_runs, (&h, workflow_id), data_runs_),
    ensures
        query_@.method == Method::Get,
        query_@.path == "/v1/data"@,
        query_@.query == given_pairs(query@),
        query_@.body == None::<Tree>,
        query_@.extra_ok == Seq::<u16>::empty(),
        workflow_data_@.method == Method::Get,
        workflow_data_@.path == "/v1/workflows/"@ + int_text(workflow_id as int) + "/data"@,
        workflow_data_@.query == given_pairs(query@),
        workflow_data_@.body == None::<Tree>,
        workflow_data_@.extra_ok == Seq::<u16>::empty(),
        delete_workflow_data_@.method == Method::Delete,
        delete_workflow_data_@.path == "/v1/workflows/"@ + int_text(workflow_id as int) + "/data"@,
        delete_workflow_data_@.query == Seq::<(Seq<char>, Seq<char>)>::empty(),
        delete_workflow_data_@.body == None::<Tree>,
        delete_workflow_data_@.extra_ok == Seq::<u16>::empty(),
        facets_@.method == Method::Get,
        facets_@.path == "/v1/workflows/"@ + int_text(workflow_id as int) + "/data/facets"@,
        facets_@.query == Seq::<(Seq<char>, Seq<char>)>::empty(),
        facets_@.body == None::<Tree>,
        facets_@.extra_ok == Seq::<u16>::empty(),
        export_@.method == Method::Get,
        export_@.path == "/v1/workflows/"@ + int_text(workflow_id as int) + "/data/export"@,
        export_@.query == given_pairs(query@),
        export_@.body == None::<Tree>,
        export_@.extra_ok == Seq::<u16>::empty(),
        data_runs_@.method == Method::Get,
        data_runs_@.path == "/v1/workflows/"@ + int_text(workflow_id as int) + "/data/runs"@,
        data_runs_@.query == Seq::<(Seq<char>, Seq<char>)>::empty(),
        data_runs_@.body == None::<Tree>,
        data_runs_@.extra_ok == Seq::<u16>::empty(),
{
}

/// Where each call on keys goes, by which method, what it carries of what it was given, and
/// which statuses it takes for an answer.
pub proof fn law_keys_are_addressed_alike(
    h: Keys,
    name: &str,
    scopes: Option<&str>,
    id: i64,
    list_: Request,
    create_: Request,
    get_: Request,
    delete_: Request,
)
    requires
        call_ensures(Keys::list, (&h,), list_),
        call_ensures(Keys::create, (&h, name, scopes), create_),
        call_ensures(Keys::get, (&h, id), get_),
        call_ensures(Keys::delete, (&h, id), delete_),
    ensures
        list_@.method == Method::Get,
        list_@.path == "/v1/keys"@,
        list_@.query == Seq::<(Seq<char>, Seq<char>)>::empty(),
        list_@.body == None::<Tree>,
        list_@.extra_ok == Seq::<u16>::empty(),
        create_@.method == Method::Post,
        create_@.path == list_@.path,
        create_@.query == Seq::<(Seq<char>, Seq<char>)>::empty(),
        create_@.body == Some(Tree::Object( seq![("name"@, Tree::Str(name@))] + opt_member( "scopes"@, match opt_text(scopes) { Some(s) => Some(Tree::Str(s)), None => None, }, ), )),
        create_@.extra_ok == Seq::<u16>::empty(),
        get_@.method == Method::Get,
        get_@.path == "/v1/keys/"@ + int_text(id as int),
        get_@.query == Seq::<(Seq<char>, Seq<char>)>::empty(),
        get_@.body == None::<Tree>,
        get_@.extra_ok == Seq::<u16>::empty(),
        delete_@.method == Method::Delete,
        delete_@.path == get_@.path,
        delete_@.query == Seq::<(Seq<char>, Seq<char>)>::empty(),
        delete_@.body == None::<Tree>,
        delete_@.extra_ok == Seq::<u16>::empty(),
{
}

/// Where each call on crawls goes, by which method, what it carries of what it was given, and
/// which statuses it takes for an answer.
pub proof fn law_crawl_is_addressed_alike(
    h: Crawl,
    limit: Option<i64>,
    params: CrawlStartParams,
    id: i64,
    list_: Request,
    start_: Request,
    get_: Request,
    cancel_: Request,
)
    requires
        call_ensures(Crawl::list, (&h, limit), list_),
        call_ensures(Crawl::start, (&h, &params), start_),
        call_ensures(Crawl::get, (&h, id), get_),
        call_ensures(Crawl::cancel, (&h, id), cancel_),
    ensures
        list_@.method == Method::Get,
        list_@.path == "/v1/crawl"@,
        list_@.query == opt_pair("limit"@, opt_int_text(limit)),
        list_@.body == None::<Tree>,
        list_@.extra_ok == Seq::<u16>::empty(),
        start_@.method == Method::Post,
        start_@.path == list_@.path,
        start_@.query == Seq::<(Seq<char>, Seq<char>)>::empty(),
        start_@.body == Some(Tree::Object(crate::models::crawl_members(params))),
        start_@.extra_ok == Seq::<u16>::empty(),
        get_@.method == Method::Get,
        get_@.path == "/v1/crawl/"@ + int_text(id as int),
        get_@.query == Seq::<(Seq<char>, Seq<char>)>::empty(),
        get_@.body == None::<Tree>,
        get_@.extra_ok == Seq::<u16>::empty(),
        cancel_@.method == Method::Post,
        cancel_@.path == get_@.path + "/cancel"@,
        cancel_@.query == Seq::<(Seq<char>, Seq<char>)>::empty(),
        cancel_@.body == None::<Tree>,
        cancel_@.extra_ok == Seq::<u16>::empty(),
{
}

/// Where each call on datasets goes, by which method, what it carries of what it was given, and
/// which statuses it takes for an answer.
pub proof fn law_datasets_are_addressed_alike(
    h: Datasets,
    id: i64,
    query: &[(&str, &str)],
    format: DatasetFormat,
    q: &str,
    params: &[(&str, &str)],
    list_: Request,
    get_: Request,
    records_: Request,
    export_: Request,
    records_text_: Request,
    search_text_: Request,
    search_one_text_: Request,
    search_: Request,
    search_one_: Request,
)
    requires
        call_ensures(Datasets::list, (&h,), list_),
        call_ensures(Datasets::get, (&h, id), get_),
        call_ensures(Datasets::records, (&h, id, query), records_),
        call_ensures(Datasets::export, (&h, id, query), export_),
        call_ensures(Datasets::records_text, (&h, id, format, query), records_text_),
        call_ensures(Datasets::search_text, (&h, q, format, params), search_text_),
        call_ensures(Datasets::search_one_text, (&h, id, q, format, params), search_one_text_),
        call_ensures(Datasets::search, (&h, q, params), search_),
        call_ensures(Datasets::search_one, (&h, id, q, params), search_one_),
    ensures
        list_@.method == Method::Get,
        list_@.path == "/v1/datasets"@,
        list_@.query == Seq::<(Seq<char>, Seq<char>)>::empty(),
        list_@.body == None::<Tree>,
        list_@.extra_ok == Seq::<u16>::empty(),
        get_@.method == Method::Get,
        get_@.path == "/v1/datasets/"@ + int_text(id as int),
        get_@.query == Seq::<(Seq<char>, Seq<char>)>::empty(),
        get_@.body == None::<Tree>,
        get_@.extra_ok == Seq::<u16>::empty(),
        records_@.method == Method::Get,
        records_@.path == get_@.path + "/records"@,
        records_@.query == given_pairs(query@),
        records_@.body == None::<Tree>,
        records_@.extra_ok == Seq::<u16>::empty(),
        export_@.method == Method::Get,
        export_@.path == get_@.path + "/export"@,
        export_@.query == given_pairs(query@),
        export_@.body == None::<Tree>,
        export_@.extra_ok == Seq::<u16>::empty(),
        records_text_@.method == Method::Get,
        records_text_@.path == get_@.path + "/records"@,
        records_text_@.query == seq![("format"@, format.name())] + given_pairs(query@),
        records_text_@.body == None::<Tree>,
        records_text_@.extra_ok == Seq::<u16>::empty(),
        search_text_@.method == Method::Get,
        search_text_@.path == "/v1/datasets/search"@,
        search_text_@.query == seq![("q"@, q@), ("format"@, format.name())] + given_pairs(params@),
        search_text_@.body == None::<Tree>,
        search_text_@.extra_ok == Seq::<u16>::empty(),
        search_one_text_@.method == Method::Get,
        search_one_text_@.path == get_@.path + "/search"@,
        search_one_text_@.query == seq![("q"@, q@), ("format"@, format.name())] + given_pairs(params@),
        search_one_text_@.body == None::<Tree>,
        search_one_text_@.extra_ok == Seq::<u16>::empty(),
        search_@.method == Method::Get,
        search_@.path == "/v1/datasets/search"@,
        search_@.query == seq![("q"@, q@)] + given_pairs(params@),
        search_@.body == None::<Tree>,
        search_@.extra_ok == Seq::<u16>::empty(),
        search_one_@.method == Method::Get,
        search_one_@.path == get_@.path + "/search"@,
        search_one_@.query == seq![("q"@, q@)] + given_pairs(params@),
        search_one_@.body == None::<Tree>,
        search_one_@.extra_ok == Seq::<u16>::empty(),
{
}

/// Where each call on cloud monitors goes, by which method, what it carries of what it was
/// given, and which statuses it takes for an answer.
pub proof fn law_cloud_monitors_are_addressed_alike(
    h: CloudMonitors<'_>,
    filter: CloudMonitorListOptions,
    body: Json,
    id: i64,
    patch: Json,
    enabled: bool,
    opts: ChangeListOptions,
    list_: Result<Request, WritError>,
    create_: Result<Request, WritError>,
    get_: Result<Request, WritError>,
    update_: Result<Request, WritError>,
    delete_: Result<Request, WritError>,
    toggle_: Result<Request, WritError>,
    run_: Result<Request, WritError>,
    changes_: Result<Request, WritError>,
    recent_changes_: Result<Request, WritError>,
)
    requires
        h.c.api_key is Some,
        call_ensures(CloudMonitors::list, (&h, &filter), list_),
        call_ensures(CloudMonitors::create, (&h, body), create_),
        call_ensures(CloudMonitors::get, (&h, id), get_),
        call_ensures(CloudMonitors::update, (&h, id, patch), update_),
        call_ensures(CloudMonitors::delete, (&h, id), delete_),
        call_ensures(CloudMonitors::toggle, (&h, id, enabled), toggle_),
        call_ensures(CloudMonitors::run, (&h, id), run_),
        call_ensures(CloudMonitors::changes, (&h, id, &opts), changes_),
        call_ensures(CloudMonitors::recent_changes, (&h, &opts), recent_changes_),
    ensures
        list_ is Ok,
        list_->Ok_0@.method == Method::Get,
        list_->Ok_0@.path == "/api/targets"@,
        list_->Ok_0@.query == monitor_query(filter),
        list_->Ok_0@.body == None::<Tree>,
        list_->Ok_0@.extra_ok == Seq::<u16>::empty(),
        create_ is Ok,
        create_->Ok_0@.method == Method::Post,
        create_->Ok_0@.path == list_->Ok_0@.path,
        create_->Ok_0@.query == Seq::<(Seq<char>, Seq<char>)>::empty(),
        create_->Ok_0@.body == Some(body.tree()),
        create_->Ok_0@.extra_ok == Seq::<u16>::empty(),
        get_ is Ok,
        get_->Ok_0@.method == Method::Get,
        get_->Ok_0@.path == "/api/targets/"@ + int_text(id as int),
        get_->Ok_0@.query == Seq::<(Seq<char>, Seq<char>)>::empty(),
        get_->Ok_0@.body == None::<Tree>,
        get_->Ok_0@.extra_ok == Seq::<u16>::empty(),
        update_ is Ok,
        update_->Ok_0@.method == Method::Patch,
        update_->Ok_0@.path == get_->Ok_0@.path,
        update_->Ok_0@.query == Seq::<(Seq<char>, Seq<char>)>::empty(),
        update_->Ok_0@.body == Some(patch.tree()),
        update_->Ok_0@.extra_ok == Seq::<u16>::empty(),
        delete_ is Ok,
        delete_->Ok_0@.method == Method::Delete,
        delete_->Ok_0@.path == get_->Ok_0@.path,
        delete_->Ok_0@.query == Seq::<(Seq<char>, Seq<char>)>::empty(),
        delete_->Ok_0@.body == None::<Tree>,
        delete_->Ok_0@.extra_ok == Seq::<u16>::empty(),
        toggle_ is Ok,
        toggle_->Ok_0@.method == Method::Patch,
        toggle_->Ok_0@.path == get_->Ok_0@.path + "/toggle"@,
        toggle_->Ok_0@.query == seq![("enabled"@, bool_text(enabled))],
        toggle_->Ok_0@.body == None::<Tree>,
        toggle_->Ok_0@.extra_ok == Seq::<u16>::empty(),
        run_ is Ok,
        run_->Ok_0@.method == Method::Post,
        run_->Ok_0@.path == get_->Ok_0@.path + "/run"@,
        run_->Ok_0@.query == Seq::<(Seq<char>, Seq<char>)>::empty(),
        run_->Ok_0@.body == None::<Tree>,
        run_->Ok_0@.extra_ok == Seq::<u16>::empty(),
        changes_ is Ok,
        changes_->Ok_0@.method == Method::Get,
        changes_->Ok_0@.path == get_->Ok_0@.path + "/changes"@,
        changes_->Ok_0@.query == change_query(opts),
        changes_->Ok_0@.body == None::<Tree>,
        changes_->Ok_0@.extra_ok == Seq::<u16>::empty(),
        recent_changes_ is Ok,
        recent_changes_->Ok_0@.method == Method::Get,
        recent_changes_->Ok_0@.path == "/api/targets/changes/recent"@,
        recent_changes_->Ok_0@.query == change_query(opts),
        recent_changes_->Ok_0@.body == None::<Tree>,
        recent_changes_->Ok_0@.extra_ok == Seq::<u16>::empty(),
{
}

/// Without a key every call on cloud monitors is refused before anything is sent.
pub proof fn law_cloud_monitors_need_a_key(
    h: CloudMonitors<'_>,
    filter: CloudMonitorListOptions,
    body: Json,
    id: i64,
    patch: Json,
    enabled: bool,
    opts: ChangeListOptions,
    list_: Result<Request, WritError>,
    create_: Result<Request, WritError>,
    get_: Result<Request, WritError>,
    update_: Result<Request, WritError>,
    delete_: Result<Request, WritError>,
    toggle_: Result<Request, WritError>,
    run_: Result<Request, WritError>,
    changes_: Result<Request, WritError>,
    recent_changes_: Result<Request, WritError>,
)
    requires
        h.c.api_key is None,
        call_ensures(CloudMonitors::list, (&h, &filter), list_),
        call_ensures(CloudMonitors::create, (&h, body), create_),
        call_ensures(CloudMonitors::get, (&h, id), get_),
        call_ensures(CloudMonitors::update, (&h, id, patch), update_),
        call_ensures(CloudMonitors::delete, (&h, id), delete_),
        call_ensures(CloudMonitors::toggle, (&h, id, enabled), toggle_),
        call_ensures(CloudMonitors::run, (&h, id), run_),
        call_ensures(CloudMonitors::changes, (&h, id, &opts), changes_),
        call_ensures(CloudMonitors::recent_changes, (&h, &opts), recent_changes_),
    ensures
        list_ is Err && list_->Err_0@ is ApiKeyRequired && list_->Err_0@.status() == Some(402u16),
        create_ is Err && create_->Err_0@ is ApiKeyRequired && create_->Err_0@.status() == Some(402u16),
        get_ is Err && get_->Err_0@ is ApiKeyRequired && get_->Err_0@.status() == Some(402u16),
        update_ is Err && update_->Err_0@ is ApiKeyRequired && update_->Err_0@.status() == Some(402u16),
        delete_ is Err && delete_->Err_0@ is ApiKeyRequired && delete_->Err_0@.status() == Some(402u16),
        toggle_ is Err && toggle_->Err_0@ is ApiKeyRequired && toggle_->Err_0@.status() == Some(402u16),
        run_ is Err && run_->Err_0@ is ApiKeyRequired && run_->Err_0@.status() == Some(402u16),
        changes_ is Err && changes_->Err_0@ is ApiKeyRequired && changes_->Err_0@.status() == Some(402u16),
        recent_changes_ is Err && recent_changes_->Err_0@ is ApiKeyRequired && recent_changes_->Err_0@.status() == Some(402u16),
{
}

/// Where each call on cloud automations goes, by which method, what it carries of what it was
/// given, and which statuses it takes for an answer.
pub proof fn law_cloud_automations_are_addressed_alike(
    h: CloudAutomations<'_>,
    opts: CloudAutomationListOptions,
    body: Json,
    id: i64,
    patch: Json,
    inputs: Option<Json>,
    limit: Option<i64>,
    monitor_id: i64,
    enabled_only: bool,
    list_: Result<Request, WritError>,
    create_: Result<Request, WritError>,
    get_: Result<Request, WritError>,
    update_: Result<Request, WritError>,
    delete_: Result<Request, WritError>,
    toggle_: Result<Request, WritError>,
    run_: Result<Request, WritError>,
    test_: Result<Request, WritError>,
    executions_: Result<Request, WritError>,
    for_monitor_: Result<Request, WritError>,
)
    requires
        h.c.api_key is Some,
        call_ensures(CloudAutomations::list, (&h, &opts), list_),
        call_ensures(CloudAutomations::create, (&h, body), create_),
        call_ensures(CloudAutomations::get, (&h, id), get_),
        call_ensures(CloudAutomations::update, (&h, id, patch), update_),
        call_ensures(CloudAutomations::delete, (&h, id), delete_),
        call_ensures(CloudAutomations::toggle, (&h, id), toggle_),
        call_ensures(CloudAutomations::run, (&h, id, inputs), run_),
        call_ensures(CloudAutomations::test, (&h, id, body), test_),
        call_ensures(CloudAutomations::executions, (&h, id, limit), executions_),
        call_ensures(CloudAutomations::for_monitor, (&h, monitor_id, enabled_only), for_monitor_),
    ensures
        list_ is Ok,
        list_->Ok_0@.method == Method::Get,
        list_->Ok_0@.path == "/api/triggers/all"@,
        list_->Ok_0@.query == automation_query(opts),
        list_->Ok_0@.body == None::<Tree>,
        list_->Ok_0@.extra_ok == Seq::<u16>::empty(),
        create_ is Ok,
        create_->Ok_0@.method == Method::Post,
        create_->Ok_0@.path == "/api/triggers"@,
        create_->Ok_0@.query == Seq::<(Seq<char>, Seq<char>)>::empty(),
        create_->Ok_0@.body == Some(body.tree()),
        create_->Ok_0@.extra_ok == Seq::<u16>::empty(),
        get_ is Ok,
        get_->Ok_0@.method == Method::Get,
        get_->Ok_0@.path == "/api/triggers/"@ + int_text(id as int),
        get_->Ok_0@.query == Seq::<(Seq<char>, Seq<char>)>::empty(),
        get_->Ok_0@.body == None::<Tree>,
        get_->Ok_0@.extra_ok == Seq::<u16>::empty(),
        update_ is Ok,
        update_->Ok_0@.method == Method::Patch,
        update_->Ok_0@.path == get_->Ok_0@.path,
        update_->Ok_0@.query == Seq::<(Seq<char>, Seq<char>)>::empty(),
        update_->Ok_0@.body == Some(patch.tree()),
        update_->Ok_0@.extra_ok == Seq::<u16>::empty(),
        delete_ is Ok,
        delete_->Ok_0@.method == Method::Delete,
        delete_->Ok_0@.path == get_->Ok_0@.path,
        delete_->Ok_0@.query == Seq::<(Seq<char>, Seq<char>)>::empty(),
        delete_->Ok_0@.body == None::<Tree>,
        delete_->Ok_0@.extra_ok == Seq::<u16>::empty(),
        toggle_ is Ok,
        toggle_->Ok_0@.method == Method::Patch,
        toggle_->Ok_0@.path == get_->Ok_0@.path + "/toggle"@,
        toggle_->Ok_0@.query == Seq::<(Seq<char>, Seq<char>)>::empty(),
        toggle_->Ok_0@.body == None::<Tree>,
        toggle_->Ok_0@.extra_ok == Seq::<u16>::empty(),
        run_ is Ok,
        run_->Ok_0@.method == Method::Post,
        run_->Ok_0@.path == get_->Ok_0@.path + "/run"@,
        run_->Ok_0@.query == Seq::<(Seq<char>, Seq<char>)>::empty(),
        run_->Ok_0@.body == opt_tree(inputs),
        run_->Ok_0@.extra_ok == Seq::<u16>::empty(),
        test_ is Ok,
        test_->Ok_0@.method == Method::Post,
        test_->Ok_0@.path == get_->Ok_0@.path + "/test"@,
        test_->Ok_0@.query == Seq::<(Seq<char>, Seq<char>)>::empty(),
        test_->Ok_0@.body == Some(body.tree()),
        test_->Ok_0@.extra_ok == Seq::<u16>::empty(),
        executions_ is Ok,
        executions_->Ok_0@.method == Method::Get,
        executions_->Ok_0@.path == get_->Ok_0@.path + "/executions"@,
        executions_->Ok_0@.query == opt_pair("limit"@, opt_int_text(limit)),
        executions_->Ok_0@.body == None::<Tree>,
        executions_->Ok_0@.extra_ok == Seq::<u16>::empty(),
        for_monitor_ is Ok,
        for_monitor_->Ok_0@.method == Method::Get,
        for_monitor_->Ok_0@.path == "/api/triggers/target/"@ + int_text(monitor_id as int),
        for_monitor_->Ok_0@.query == opt_pair("enabled_only"@, flag_text(enabled_only)),
        for_monitor_->Ok_0@.body == None::<Tree>,
        for_monitor_->Ok_0@.extra_ok == Seq::<u16>::empty(),
{
}

/// Without a key every call on cloud automations is refused before anything is sent.
pub proof fn law_cloud_automations_need_a_key(
    h: CloudAutomations<'_>,
    opts: CloudAutomationListOptions,
    body: Json,
    id: i64,
    patch: Json,
    inputs: Option<Json>,
    limit: Option<i64>,
    monitor_id: i64,
    enabled_only: bool,
    list_: Result<Request, WritError>,
    create_: Result<Request, WritError>,
    get_: Result<Request, WritError>,
    update_: Result<Request, WritError>,
    delete_: Result<Request, WritError>,
    toggle_: Result<Request, WritError>,
    run_: Result<Request, WritError>,
    test_: Result<Request, WritError>,
    executions_: Result<Request, WritError>,
    for_monitor_: Result<Request, WritError>,
)
    requires
        h.c.api_key is None,
        call_ensures(CloudAutomations::list, (&h, &opts), list_),
        call_ensures(CloudAutomations::create, (&h, body), create_),
        call_ensures(CloudAutomations::get, (&h, id), get_),
        call_ensures(CloudAutomations::update, (&h, id, patch), update_),
        call_ensures(CloudAutomations::delete, (&h, id), delete_),
        call_ensures(CloudAutomations::toggle, (&h, id), toggle_),
        call_ensures(CloudAutomations::run, (&h, id, inputs), run_),
        call_ensures(CloudAutomations::test, (&h, id, body), test_),
        call_ensures(CloudAutomations::executions, (&h, id, limit), executions_),
        call_ensures(CloudAutomations::for_monitor, (&h, monitor_id, enabled_only), for_monitor_),
    ensures
        list_ is Err && list_->Err_0@ is ApiKeyRequired && list_->Err_0@.status() == Some(402u16),
        create_ is Err && create_->Err_0@ is ApiKeyRequired && create_->Err_0@.status() == Some(402u16),
        get_ is Err && get_->Err_0@ is ApiKeyRequired && get_->Err_0@.status() == Some(402u16),
        update_ is Err && update_->Err_0@ is ApiKeyRequired && update_->Err_0@.status() == Some(402u16),
        delete_ is Err && delete_->Err_0@ is ApiKeyRequired && delete_->Err_0@.status() == Some(402u16),
        toggle_ is Err && toggle_->Err_0@ is ApiKeyRequired && toggle_->Err_0@.status() == Some(402u16),
        run_ is Err && run_->Err_0@ is ApiKeyRequired && run_->Err_0@.status() == Some(402u16),
        test_ is Err && test_->Err_0@ is ApiKeyRequired && test_->Err_0@.status() == Some(402u16),
        executions_ is Err && executions_->Err_0@ is ApiKeyRequired && executions_->Err_0@.status() == Some(402u16),
        for_monitor_ is Err && for_monitor_->Err_0@ is ApiKeyRequired && for_monitor_->Err_0@.status() == Some(402u16),
{
}

/// Where each call on cloud personas goes, by which method, what it carries of what it was
/// given, and which statuses it takes for an answer.
pub proof fn law_cloud_personas_are_addressed_alike(
    h: CloudPersonas<'_>,
    domain: Option<&str>,
    body: Json,
    id: i64,
    patch: Json,
    limit: Option<i64>,
    totp_seed: &str,
    code: Option<&str>,
    list_: Result<Request, WritError>,
    create_: Result<Request, WritError>,
    get_: Result<Request, WritError>,
    update_: Result<Request, WritError>,
    delete_: Result<Request, WritError>,
    runs_: Result<Request, WritError>,
    test_2fa_: Result<Request, WritError>,
    validate_totp_: Result<Request, WritError>,
)
    requires
        h.c.api_key is Some,
        call_ensures(CloudPersonas::list, (&h, domain), list_),
        call_ensures(CloudPersonas::create, (&h, body), create_),
        call_ensures(CloudPersonas::get, (&h, id), get_),
        call_ensures(CloudPersonas::update, (&h, id, patch), update_),
        call_ensures(CloudPersonas::delete, (&h, id), delete_),
        call_ensures(CloudPersonas::runs, (&h, id, limit), runs_),
        call_ensures(CloudPersonas::test_2fa, (&h, id), test_2fa_),
        call_ensures(CloudPersonas::validate_totp, (&h, totp_seed, code), validate_totp_),
    ensures
        list_ is Ok,
        list_->Ok_0@.method == Method::Get,
        list_->Ok_0@.path == "/api/personas"@,
        list_->Ok_0@.query == opt_pair("domain"@, opt_text(domain)),
        list_->Ok_0@.body == None::<Tree>,
        list_->Ok_0@.extra_ok == Seq::<u16>::empty(),
        create_ is Ok,
        create_->Ok_0@.method == Method::Post,
        create_->Ok_0@.path == list_->Ok_0@.path,
        create_->Ok_0@.query == Seq::<(Seq<char>, Seq<char>)>::empty(),
        create_->Ok_0@.body == Some(body.tree()),
        create_->Ok_0@.extra_ok == Seq::<u16>::empty(),
        get_ is Ok,
        get_->Ok_0@.method == Method::Get,
        get_->Ok_0@.path == "/api/personas/"@ + int_text(id as int),
        get_->Ok_0@.query == Seq::<(Seq<char>, Seq<char>)>::empty(),
        get_->Ok_0@.body == None::<Tree>,
        get_->Ok_0@.extra_ok == Seq::<u16>::empty(),
        update_ is Ok,
        update_->Ok_0@.method == Method::Patch,
        update_->Ok_0@.path == get_->Ok_0@.path,
        update_->Ok_0@.query == Seq::<(Seq<char>, Seq<char>)>::empty(),
        update_->Ok_0@.body == Some(patch.tree()),
        update_->Ok_0@.extra_ok == Seq::<u16>::empty(),
        delete_ is Ok,
        delete_->Ok_0@.method == Method::Delete,
        delete_->Ok_0@.path == get_->Ok_0@.path,
        delete_->Ok_0@.query == Seq::<(Seq<char>, Seq<char>)>::empty(),
        delete_->Ok_0@.body == None::<Tree>,
        delete_->Ok_0@.extra_ok == Seq::<u16>::empty(),
        runs_ is Ok,
        runs_->Ok_0@.method == Method::Get,
        runs_->Ok_0@.path == get_->Ok_0@.path + "/runs"@,
        runs_->Ok_0@.query == opt_pair("limit"@, opt_int_text(limit)),
        runs_->Ok_0@.body == None::<Tree>,
        runs_->Ok_0@.extra_ok == Seq::<u16>::empty(),
        test_2fa_ is Ok,
        test_2fa_->Ok_0@.method == Method::Post,
        test_2fa_->Ok_0@.path == get_->Ok_0@.path + "/test-2fa"@,
        test_2fa_->Ok_0@.query == Seq::<(Seq<char>, Seq<char>)>::empty(),
        test_2fa_->Ok_0@.body == None::<Tree>,
        test_2fa_->Ok_0@.extra_ok == Seq::<u16>::empty(),
        validate_totp_ is Ok,
        validate_totp_->Ok_0@.method == Method::Post,
        validate_totp_->Ok_0@.path == "/api/personas/validate-totp"@,
        validate_totp_->Ok_0@.query == Seq::<(Seq<char>, Seq<char>)>::empty(),
        validate_totp_->Ok_0@.body == Some(Tree::Object(totp_members(totp_seed@, opt_text(code)))),
        validate_totp_->Ok_0@.extra_ok == Seq::<u16>::empty(),
{
}

/// Without a key every call on cloud personas is refused before anything is sent.
pub proof fn law_cloud_personas_need_a_key(
    h: CloudPersonas<'_>,
    domain: Option<&str>,
    body: Json,
    id: i64,
    patch: Json,
    limit: Option<i64>,
    totp_seed: &str,
    code: Option<&str>,
    list_: Result<Request, WritError>,
    create_: Result<Request, WritError>,
    get_: Result<Request, WritError>,
    update_: Result<Request, WritError>,
    delete_: Result<Request, WritError>,
    runs_: Result<Request, WritError>,
    test_2fa_: Result<Request, WritError>,
    validate_totp_: Result<Request, WritError>,
)
    requires
        h.c.api_key is None,
        call_ensures(CloudPersonas::list, (&h, domain), list_),
        call_ensures(CloudPersonas::create, (&h, body), create_),
        call_ensures(CloudPersonas::get, (&h, id), get_),
        call_ensures(CloudPersonas::update, (&h, id, patch), update_),
        call_ensures(CloudPersonas::delete, (&h, id), delete_),
        call_ensures(CloudPersonas::runs, (&h, id, limit), runs_),
        call_ensures(CloudPersonas::test_2fa, (&h, id), test_2fa_),
        call_ensures(CloudPersonas::validate_totp, (&h, totp_seed, code), validate_totp_),
    ensures
        list_ is Err && list_->Err_0@ is ApiKeyRequired && list_->Err_0@.status() == Some(402u16),
        create_ is Err && create_->Err_0@ is ApiKeyRequired && create_->Err_0@.status() == Some(402u16),
        get_ is Err && get_->Err_0@ is ApiKeyRequired && get_->Err_0@.status() == Some(402u16),
        update_ is Err && update_->Err_0@ is ApiKeyRequired && update_->Err_0@.status() == Some(402u16),
        delete_ is Err && delete_->Err_0@ is ApiKeyRequired && delete_->Err_0@.status() == Some(402u16),
        runs_ is Err && runs_->Err_0@ is ApiKeyRequired && runs_->Err_0@.status() == Some(402u16),
        test_2fa_ is Err && test_2fa_->Err_0@ is ApiKeyRequired && test_2fa_->Err_0@.status() == Some(402u16),
        validate_totp_ is Err && validate_totp_->Err_0@ is ApiKeyRequired && validate_totp_->Err_0@.status() == Some(402u16),
{
}

/// Where each call on builds goes, by which method, what it carries of what it was given, and
/// which statuses it takes for an answer.
pub proof fn law_cloud_builds_are_addressed_alike(
    h: CloudBuilds<'_>,
    params: CloudBuildParams,
    build_id: i64,
    start_: Result<Request, WritError>,
    get_: Result<Request, WritError>,
)
    requires
        h.c.api_key is Some,
        call_ensures(CloudBuilds::start, (&h, &params), start_),
        call_ensures(CloudBuilds::get, (&h, build_id), get_),
    ensures
        start_ is Ok,
        start_->Ok_0@.method == Method::Post,
        start_->Ok_0@.path == "/api/v1/website-to-api"@,
        start_->Ok_0@.query == Seq::<(Seq<char>, Seq<char>)>::empty(),
        start_->Ok_0@.body == Some(Tree::Object(build_members(params))),
        start_->Ok_0@.extra_ok == Seq::<u16>::empty(),
        get_ is Ok,
        get_->Ok_0@.method == Method::Get,
        get_->Ok_0@.path == "/api/v1/website-to-api/"@ + int_text(build_id as int),
        get_->Ok_0@.query == Seq::<(Seq<char>, Seq<char>)>::empty(),
        get_->Ok_0@.body == None::<Tree>,
        get_->Ok_0@.extra_ok == Seq::<u16>::empty(),
{
}

/// Without a key every call on builds is refused before anything is sent.
pub proof fn law_cloud_builds_need_a_key(
    h: CloudBuilds<'_>,
    params: CloudBuildParams,
    build_id: i64,
    start_: Result<Request, WritError>,
    get_: Result<Request, WritError>,
)
    requires
        h.c.api_key is None,
        call_ensures(CloudBuilds::start, (&h, &params), start_),
        call_ensures(CloudBuilds::get, (&h, build_id), get_),
    ensures
        start_ is Err && start_->Err_0@ is ApiKeyRequired && start_->Err_0@.status() == Some(402u16),
        get_ is Err && get_->Err_0@ is ApiKeyRequired && get_->Err_0@.status() == Some(402u16),
{
}

} // verus!
