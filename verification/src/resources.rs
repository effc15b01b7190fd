//! The local daemon's resources: one request for each thing that can be asked of it.

use crate::json::{
    copy_opt, int_json, member_trees, opt_int_tree, opt_member, opt_tree, put, put_opt, Json, Tree,
};
use crate::models::{CrawlStartParams, DatasetFormat};
use crate::request::{
    asking, bare, carrying, id_path, id_path_to, no_query, opt_int_text, opt_pair, pairs, path_of,
    path_to, push_int, push_pair, Method, Request, RequestView,
};
use crate::streams::default_wait;
use crate::text::{cat, cat3, decimal, decimal_u64, opt_text};
use crate::time::{Duration, NANOS_PER_SEC};
use vstd::prelude::*;

verus! {

broadcast use vstd::string::group_string_axioms;

/// The path of a monitor's selector.
pub open spec fn selector_path(monitor_id: i64, selector_id: i64) -> Seq<char> {
    id_path(id_path_to("/v1/monitors/"@, monitor_id, "/selectors/"@), selector_id)
}

fn path_of_selector(monitor_id: i64, selector_id: i64) -> (r: String)
    ensures
        r@ == selector_path(monitor_id, selector_id),
{
    let head: String = path_to("/v1/monitors/", monitor_id, "/selectors/");
    path_of(head.as_str(), selector_id)
}

/// The names and values of borrowed pairs.
pub open spec fn given_pairs(query: Seq<(&str, &str)>) -> Seq<(Seq<char>, Seq<char>)> {
    query.map_values(|p: (&str, &str)| (p.0@, p.1@))
}

/// Appends borrowed pairs.
fn push_given(query: &mut Vec<(String, String)>, given: &[(&str, &str)])
    ensures
        pairs(final(query)@) == pairs(old(query)@) + given_pairs(given@),
{
    let ghost before = pairs(query@);
    let mut i: usize = 0;
    assert(before + given_pairs(given@).take(0) == before);
    while i < given.len()
        invariant
            i <= given.len(),
            pairs(query@) == before + given_pairs(given@).take(i as int),
        decreases given.len() - i,
    {
        let pair: (&str, &str) = given[i];
        push_pair(query, pair.0, pair.1.to_owned());
        assert(pairs(query@) == before + given_pairs(given@).take(i + 1));
        i = i + 1;
    }
    assert(given_pairs(given@).take(given@.len() as int) == given_pairs(given@));
}

fn given_query(given: &[(&str, &str)]) -> (r: Vec<(String, String)>)
    ensures
        pairs(r@) == given_pairs(given@),
{
    let mut q: Vec<(String, String)> = no_query();
    push_given(&mut q, given);
    assert(Seq::<(Seq<char>, Seq<char>)>::empty() + given_pairs(given@) == given_pairs(given@));
    q
}

fn get(path: String) -> (r: Request)
    ensures
        r@ == bare(Method::Get, path@),
{
    Request::new(Method::Get, path)
}

fn get_with(path: String, given: &[(&str, &str)]) -> (r: Request)
    ensures
        r@ == asking(Method::Get, path@, given_pairs(given@)),
{
    Request::new(Method::Get, path).with_query(given_query(given))
}

fn send(method: Method, path: String) -> (r: Request)
    ensures
        r@ == bare(method, path@),
{
    Request::new(method, path)
}

fn send_body(method: Method, path: String, body: Json) -> (r: Request)
    ensures
        r@ == carrying(method, path@, body.tree()),
{
    Request::new(method, path).with_body(body)
}

/// An object with one member.
pub open spec fn single(name: Seq<char>, value: Tree) -> Tree {
    Tree::Object(seq![(name, value)])
}

fn single_json(name: &str, value: Json) -> (r: Json)
    ensures
        r.tree() == single(name@, value.tree()),
{
    broadcast use crate::json::lemma_object_tree;

    let mut m: Vec<(String, Json)> = Vec::new();
    put(&mut m, name, value);
    assert(member_trees(m@) == seq![(name@, value.tree())]);
    Json::Object(m)
}

/// What a run is started with.
#[derive(Debug, Clone)]
pub struct RunOptions {
    /// Values for the workflow's placeholders.
    pub inputs: Option<Json>,
    /// Run as this persona.
    pub persona_id: Option<i64>,
    /// Files bound to slots.
    pub files: Option<Json>,
    /// How long to wait for the end.
    pub wait_timeout: Option<Duration>,
    /// Whether results are fetched at the end.
    pub include_results: bool,
}

impl Default for RunOptions {
    fn default() -> (r: Self)
        ensures
            r.inputs is None,
            r.persona_id is None,
            r.files is None,
            r.wait_timeout is None,
            !r.include_results,
    {
        RunOptions {
            inputs: None,
            persona_id: None,
            files: None,
            wait_timeout: None,
            include_results: false,
        }
    }
}

/// The members of a run's request body. What is unset is not sent.
pub open spec fn run_members(o: RunOptions, dry_run: bool) -> Seq<(Seq<char>, Tree)> {
    opt_member("inputs"@, opt_tree(o.inputs)) + opt_member(
        "persona_id"@,
        opt_int_tree(o.persona_id),
    ) + opt_member("files"@, opt_tree(o.files)) + opt_member(
        "dry_run"@,
        if dry_run {
            Some(Tree::Bool(true))
        } else {
            None
        },
    )
}

impl RunOptions {
    /// How long the end of a run is waited for: ten minutes where no limit is set.
    pub fn wait_limit(&self) -> (r: Duration)
        ensures
            r@ == match self.wait_timeout {
                Some(d) => d@,
                None => (600 * NANOS_PER_SEC) as nat,
            },
    {
        match self.wait_timeout {
            Some(d) => d,
            None => default_wait(),
        }
    }

    /// The request body of a run.
    pub fn body(&self, dry_run: bool) -> (r: Json)
        ensures
            r.tree() == Tree::Object(run_members(*self, dry_run)),
    {
        broadcast use crate::json::lemma_object_tree;

        let mut m: Vec<(String, Json)> = Vec::new();
        assert(member_trees(m@) == Seq::<(Seq<char>, Tree)>::empty());
        put_opt(&mut m, "inputs", copy_opt(&self.inputs));
        assert(member_trees(m@) == opt_member("inputs"@, opt_tree(self.inputs)));
        put_opt(&mut m, "persona_id", int_json(self.persona_id));
        put_opt(&mut m, "files", copy_opt(&self.files));
        let dry: Option<Json> = if dry_run {
            Some(Json::Bool(true))
        } else {
            None
        };
        put_opt(&mut m, "dry_run", dry);
        Json::Object(m)
    }
}

/// The query of a run that the server waits for: at least one second, where a limit is
/// set.
pub open spec fn wait_query(timeout: Option<Duration>) -> Seq<(Seq<char>, Seq<char>)> {
    seq![("wait"@, "true"@)] + opt_pair(
        "timeout"@,
        match timeout {
            Some(d) => Some(
                decimal(
                    if d@ / NANOS_PER_SEC as nat == 0 {
                        1
                    } else {
                        d@ / NANOS_PER_SEC as nat
                    },
                ),
            ),
            None => None,
        },
    )
}

/// The daemon itself.
#[derive(Debug, Clone, Copy)]
pub struct Agent;

impl Agent {
    /// Its status.
    pub fn status(&self) -> (r: Request)
        ensures
            r@ == bare(Method::Get, "/v1/agent"@),
    {
        get("/v1/agent".to_owned())
    }

    /// Its health.
    pub fn health(&self) -> (r: Request)
        ensures
            r@ == bare(Method::Get, "/v1/health"@),
    {
        get("/v1/health".to_owned())
    }
}

/// Workflows.
#[derive(Debug, Clone, Copy)]
pub struct Workflows;

impl Workflows {
    /// All workflows.
    pub fn list(&self) -> (r: Request)
        ensures
            r@ == bare(Method::Get, "/v1/workflows"@),
    {
        get("/v1/workflows".to_owned())
    }

    /// Workflows by a query.
    pub fn list_with(&self, query: &[(&str, &str)]) -> (r: Request)
        ensures
            r@ == asking(Method::Get, "/v1/workflows"@, given_pairs(query@)),
    {
        get_with("/v1/workflows".to_owned(), query)
    }

    /// Creates a workflow.
    pub fn create(&self, body: Json) -> (r: Request)
        ensures
            r@ == carrying(Method::Post, "/v1/workflows"@, body.tree()),
    {
        send_body(Method::Post, "/v1/workflows".to_owned(), body)
    }

    /// One workflow.
    pub fn get(&self, id: i64) -> (r: Request)
        ensures
            r@ == bare(Method::Get, id_path("/v1/workflows/"@, id)),
    {
        get(path_of("/v1/workflows/", id))
    }

    /// Changes a workflow.
    pub fn update(&self, id: i64, patch: Json) -> (r: Request)
        ensures
            r@ == carrying(Method::Patch, id_path("/v1/workflows/"@, id), patch.tree()),
    {
        send_body(Method::Patch, path_of("/v1/workflows/", id), patch)
    }

    /// Deletes a workflow.
    pub fn delete(&self, id: i64) -> (r: Request)
        ensures
            r@ == bare(Method::Delete, id_path("/v1/workflows/"@, id)),
    {
        send(Method::Delete, path_of("/v1/workflows/", id))
    }

    /// Starts a run.
    pub fn run(&self, id: i64, opts: &RunOptions) -> (r: Request)
        ensures
            r@ == carrying(
                Method::Post,
                id_path_to("/v1/workflows/"@, id, "/run"@),
                Tree::Object(run_members(*opts, false)),
            ),
    {
        send_body(Method::Post, path_to("/v1/workflows/", id, "/run"), opts.body(false))
    }

    /// Starts a run that the server waits for. That its budget expired (504) is an answer.
    pub fn run_wait(&self, id: i64, opts: &RunOptions, timeout: Option<Duration>) -> (r: Request)
        ensures
            r@ == (RequestView {
                method: Method::Post,
                path: id_path_to("/v1/workflows/"@, id, "/run"@),
                query: wait_query(timeout),
                body: Some(Tree::Object(run_members(*opts, false))),
                extra_ok: seq![504u16],
            }),
    {
        let mut q: Vec<(String, String)> = no_query();
        push_pair(&mut q, "wait", "true".to_owned());
        assert(pairs(q@) == seq![("wait"@, "true"@)]);
        match timeout {
            Some(d) => {
                let secs: u64 = if d.as_secs() < 1 {
                    1
                } else {
                    d.as_secs()
                };
                push_pair(&mut q, "timeout", decimal_u64(secs));
            },
            None => {
                assert(pairs(q@) + Seq::<(Seq<char>, Seq<char>)>::empty() == pairs(q@));
            },
        }
        Request::new(Method::Post, path_to("/v1/workflows/", id, "/run")).with_query(q).with_body(
            opts.body(false),
        ).accepting(504)
    }

    /// Checks a run without starting it.
    pub fn dry_run(&self, id: i64, opts: &RunOptions) -> (r: Request)
        ensures
            r@ == carrying(
                Method::Post,
                id_path_to("/v1/workflows/"@, id, "/run"@),
                Tree::Object(run_members(*opts, true)),
            ),
    {
        send_body(Method::Post, path_to("/v1/workflows/", id, "/run"), opts.body(true))
    }

    /// Cancels a workflow's run. That nothing was running (409) is an answer.
    pub fn cancel(&self, id: i64) -> (r: Request)
        ensures
            r@ == (RequestView { extra_ok: seq![409u16], ..bare(Method::Post, id_path_to("/v1/workflows/"@, id, "/cancel"@)) }),
    {
        send(Method::Post, path_to("/v1/workflows/", id, "/cancel")).accepting(409)
    }

    /// The stored browser session.
    pub fn session(&self, id: i64) -> (r: Request)
        ensures
            r@ == bare(Method::Get, id_path_to("/v1/workflows/"@, id, "/session"@)),
    {
        get(path_to("/v1/workflows/", id, "/session"))
    }

    /// Forgets the stored browser session.
    pub fn clear_session(&self, id: i64) -> (r: Request)
        ensures
            r@ == bare(Method::Delete, id_path_to("/v1/workflows/"@, id, "/session"@)),
    {
        send(Method::Delete, path_to("/v1/workflows/", id, "/session"))
    }
}

/// Runs.
#[derive(Debug, Clone, Copy)]
pub struct Runs;

impl Runs {
    /// All runs.
    pub fn list(&self) -> (r: Request)
        ensures
            r@ == bare(Method::Get, "/v1/runs"@),
    {
        get("/v1/runs".to_owned())
    }

    /// Runs by a query.
    pub fn list_with(&self, query: &[(&str, &str)]) -> (r: Request)
        ensures
            r@ == asking(Method::Get, "/v1/runs"@, given_pairs(query@)),
    {
        get_with("/v1/runs".to_owned(), query)
    }

    /// One run.
    pub fn get(&self, run_id: i64) -> (r: Request)
        ensures
            r@ == bare(Method::Get, id_path("/v1/runs/"@, run_id)),
    {
        get(path_of("/v1/runs/", run_id))
    }

    /// A run's results.
    pub fn results(&self, run_id: i64) -> (r: Request)
        ensures
            r@ == bare(Method::Get, id_path_to("/v1/runs/"@, run_id, "/results"@)),
    {
        get(path_to("/v1/runs/", run_id, "/results"))
    }

    /// A run's data.
    pub fn data(&self, run_id: i64) -> (r: Request)
        ensures
            r@ == bare(Method::Get, id_path_to("/v1/runs/"@, run_id, "/data"@)),
    {
        get(path_to("/v1/runs/", run_id, "/data"))
    }

    /// A run's data as CSV.
    pub fn data_csv(&self, run_id: i64) -> (r: Request)
        ensures
            r@ == asking(
                Method::Get,
                id_path_to("/v1/runs/"@, run_id, "/data"@),
                seq![("format"@, "csv"@)],
            ),
    {
        let mut q: Vec<(String, String)> = no_query();
        push_pair(&mut q, "format", "csv".to_owned());
        assert(pairs(q@) == seq![("format"@, "csv"@)]);
        get(path_to("/v1/runs/", run_id, "/data")).with_query(q)
    }

    /// Cancels a run. That it was over already (409) is an answer.
    pub fn cancel(&self, run_id: i64) -> (r: Request)
        ensures
            r@ == (RequestView { extra_ok: seq![409u16], ..bare(Method::Post, id_path_to("/v1/runs/"@, run_id, "/cancel"@)) }),
    {
        send(Method::Post, path_to("/v1/runs/", run_id, "/cancel")).accepting(409)
    }

    /// A run's events, as a stream.
    pub fn events(&self, run_id: i64) -> (r: Request)
        ensures
            r@ == bare(Method::Get, id_path_to("/v1/runs/"@, run_id, "/events"@)),
    {
        get(path_to("/v1/runs/", run_id, "/events"))
    }
}

/// Monitors.
#[derive(Debug, Clone, Copy)]
pub struct Monitors;

impl Monitors {
    /// All monitors.
    pub fn list(&self) -> (r: Request)
        ensures
            r@ == bare(Method::Get, "/v1/monitors"@),
    {
        get("/v1/monitors".to_owned())
    }

    /// Monitors by a query.
    pub fn list_with(&self, query: &[(&str, &str)]) -> (r: Request)
        ensures
            r@ == asking(Method::Get, "/v1/monitors"@, given_pairs(query@)),
    {
        get_with("/v1/monitors".to_owned(), query)
    }

    /// Creates a monitor.
    pub fn create(&self, body: Json) -> (r: Request)
        ensures
            r@ == carrying(Method::Post, "/v1/monitors"@, body.tree()),
    {
        send_body(Method::Post, "/v1/monitors".to_owned(), body)
    }

    /// One monitor.
    pub fn get(&self, id: i64) -> (r: Request)
        ensures
            r@ == bare(Method::Get, id_path("/v1/monitors/"@, id)),
    {
        get(path_of("/v1/monitors/", id))
    }

    /// Changes a monitor.
    pub fn update(&self, id: i64, patch: Json) -> (r: Request)
        ensures
            r@ == carrying(Method::Patch, id_path("/v1/monitors/"@, id), patch.tree()),
    {
        send_body(Method::Patch, path_of("/v1/monitors/", id), patch)
    }

    /// Deletes a monitor.
    pub fn delete(&self, id: i64) -> (r: Request)
        ensures
            r@ == bare(Method::Delete, id_path("/v1/monitors/"@, id)),
    {
        send(Method::Delete, path_of("/v1/monitors/", id))
    }

    /// Checks now.
    pub fn run(&self, id: i64) -> (r: Request)
        ensures
            r@ == bare(Method::Post, id_path_to("/v1/monitors/"@, id, "/run"@)),
    {
        send(Method::Post, path_to("/v1/monitors/", id, "/run"))
    }

    /// A monitor's changes.
    pub fn changes(&self, id: i64) -> (r: Request)
        ensures
            r@ == bare(Method::Get, id_path_to("/v1/monitors/"@, id, "/changes"@)),
    {
        get(path_to("/v1/monitors/", id, "/changes"))
    }

    /// A monitor's changes by a query.
    pub fn changes_with(&self, id: i64, query: &[(&str, &str)]) -> (r: Request)
        ensures
            r@ == asking(Method::Get, id_path_to("/v1/monitors/"@, id, "/changes"@), given_pairs(query@)),
    {
        get_with(path_to("/v1/monitors/", id, "/changes"), query)
    }

    /// How many monitors there is room for.
    pub fn capacity(&self) -> (r: Request)
        ensures
            r@ == bare(Method::Get, "/v1/monitors/capacity"@),
    {
        get("/v1/monitors/capacity".to_owned())
    }

    /// Recent changes of all monitors.
    pub fn recent_changes(&self) -> (r: Request)
        ensures
            r@ == bare(Method::Get, "/v1/changes/recent"@),
    {
        get("/v1/changes/recent".to_owned())
    }

    /// Recent changes of all monitors by a query.
    pub fn recent_changes_with(&self, query: &[(&str, &str)]) -> (r: Request)
        ensures
            r@ == asking(Method::Get, "/v1/changes/recent"@, given_pairs(query@)),
    {
        get_with("/v1/changes/recent".to_owned(), query)
    }
}

/// Selectors of monitors.
#[derive(Debug, Clone, Copy)]
pub struct Selectors;

impl Selectors {
    /// A monitor's selectors.
    pub fn list(&self, monitor_id: i64) -> (r: Request)
        ensures
            r@ == bare(Method::Get, id_path_to("/v1/monitors/"@, monitor_id, "/selectors"@)),
    {
        get(path_to("/v1/monitors/", monitor_id, "/selectors"))
    }

    /// Creates a selector.
    pub fn create(&self, monitor_id: i64, body: Json) -> (r: Request)
        ensures
            r@ == carrying(Method::Post, id_path_to("/v1/monitors/"@, monitor_id, "/selectors"@), body.tree()),
    {
        send_body(Method::Post, path_to("/v1/monitors/", monitor_id, "/selectors"), body)
    }

    /// One selector.
    pub fn get(&self, monitor_id: i64, selector_id: i64) -> (r: Request)
        ensures
            r@ == bare(Method::Get, selector_path(monitor_id, selector_id)),
    {
        get(path_of_selector(monitor_id, selector_id))
    }

    /// Changes a selector.
    pub fn update(&self, monitor_id: i64, selector_id: i64, patch: Json) -> (r: Request)
        ensures
            r@ == carrying(Method::Patch, selector_path(monitor_id, selector_id), patch.tree()),
    {
        send_body(Method::Patch, path_of_selector(monitor_id, selector_id), patch)
    }

    /// Deletes a selector.
    pub fn delete(&self, monitor_id: i64, selector_id: i64) -> (r: Request)
        ensures
            r@ == bare(Method::Delete, selector_path(monitor_id, selector_id)),
    {
        send(Method::Delete, path_of_selector(monitor_id, selector_id))
    }

    /// Switches a selector on or off.
    pub fn toggle(&self, monitor_id: i64, selector_id: i64) -> (r: Request)
        ensures
            r@ == bare(Method::Post, selector_path(monitor_id, selector_id) + "/toggle"@),
    {
        let head: String = path_of_selector(monitor_id, selector_id);
        send(Method::Post, cat(head.as_str(), "/toggle"))
    }

    /// Tries a selector.
    pub fn test(&self, monitor_id: i64, selector_id: i64) -> (r: Request)
        ensures
            r@ == bare(Method::Post, selector_path(monitor_id, selector_id) + "/test"@),
    {
        let head: String = path_of_selector(monitor_id, selector_id);
        send(Method::Post, cat(head.as_str(), "/test"))
    }

    /// Takes the current content as the baseline.
    pub fn set_baseline(&self, monitor_id: i64, selector_id: i64) -> (r: Request)
        ensures
            r@ == bare(Method::Post, selector_path(monitor_id, selector_id) + "/set-baseline"@),
    {
        let head: String = path_of_selector(monitor_id, selector_id);
        send(Method::Post, cat(head.as_str(), "/set-baseline"))
    }

    /// Forgets the baseline.
    pub fn clear_baseline(&self, monitor_id: i64, selector_id: i64) -> (r: Request)
        ensures
            r@ == bare(Method::Post, selector_path(monitor_id, selector_id) + "/clear-baseline"@),
    {
        let head: String = path_of_selector(monitor_id, selector_id);
        send(Method::Post, cat(head.as_str(), "/clear-baseline"))
    }
}

/// Extractors of selectors.
#[derive(Debug, Clone, Copy)]
pub struct Extractors;

impl Extractors {
    /// A selector's extractors.
    pub fn list(&self, selector_id: i64) -> (r: Request)
        ensures
            r@ == bare(Method::Get, id_path_to("/v1/selectors/"@, selector_id, "/extractors"@)),
    {
        get(path_to("/v1/selectors/", selector_id, "/extractors"))
    }

    /// Creates an extractor.
    pub fn create(&self, body: Json) -> (r: Request)
        ensures
            r@ == carrying(Method::Post, "/v1/extractors"@, body.tree()),
    {
        send_body(Method::Post, "/v1/extractors".to_owned(), body)
    }

    /// One extractor.
    pub fn get(&self, extractor_id: i64) -> (r: Request)
        ensures
            r@ == bare(Method::Get, id_path("/v1/extractors/"@, extractor_id)),
    {
        get(path_of("/v1/extractors/", extractor_id))
    }

    /// Changes an extractor.
    pub fn update(&self, extractor_id: i64, patch: Json) -> (r: Request)
        ensures
            r@ == carrying(Method::Patch, id_path("/v1/extractors/"@, extractor_id), patch.tree()),
    {
        send_body(Method::Patch, path_of("/v1/extractors/", extractor_id), patch)
    }

    /// Deletes an extractor.
    pub fn delete(&self, extractor_id: i64) -> (r: Request)
        ensures
            r@ == bare(Method::Delete, id_path("/v1/extractors/"@, extractor_id)),
    {
        send(Method::Delete, path_of("/v1/extractors/", extractor_id))
    }

    /// Switches an extractor on or off.
    pub fn toggle(&self, extractor_id: i64) -> (r: Request)
        ensures
            r@ == bare(Method::Patch, id_path_to("/v1/extractors/"@, extractor_id, "/toggle"@)),
    {
        send(Method::Patch, path_to("/v1/extractors/", extractor_id, "/toggle"))
    }

    /// Tries an extractor.
    pub fn test(&self, extractor_id: i64, body: Json) -> (r: Request)
        ensures
            r@ == carrying(Method::Post, id_path_to("/v1/extractors/"@, extractor_id, "/test"@), body.tree()),
    {
        send_body(Method::Post, path_to("/v1/extractors/", extractor_id, "/test"), body)
    }
}

/// Automations.
#[derive(Debug, Clone, Copy)]
pub struct Automations;

impl Automations {
    /// All automations.
    pub fn list(&self) -> (r: Request)
        ensures
            r@ == bare(Method::Get, "/v1/automations"@),
    {
        get("/v1/automations".to_owned())
    }

    /// Automations by a query.
    pub fn list_with(&self, query: &[(&str, &str)]) -> (r: Request)
        ensures
            r@ == asking(Method::Get, "/v1/automations"@, given_pairs(query@)),
    {
        get_with("/v1/automations".to_owned(), query)
    }

    /// Creates an automation.
    pub fn create(&self, body: Json) -> (r: Request)
        ensures
            r@ == carrying(Method::Post, "/v1/automations"@, body.tree()),
    {
        send_body(Method::Post, "/v1/automations".to_owned(), body)
    }

    /// One automation.
    pub fn get(&self, id: i64) -> (r: Request)
        ensures
            r@ == bare(Method::Get, id_path("/v1/automations/"@, id)),
    {
        get(path_of("/v1/automations/", id))
    }

    /// Changes an automation.
    pub fn update(&self, id: i64, patch: Json) -> (r: Request)
        ensures
            r@ == carrying(Method::Patch, id_path("/v1/automations/"@, id), patch.tree()),
    {
        send_body(Method::Patch, path_of("/v1/automations/", id), patch)
    }

    /// Deletes an automation.
    pub fn delete(&self, id: i64) -> (r: Request)
        ensures
            r@ == bare(Method::Delete, id_path("/v1/automations/"@, id)),
    {
        send(Method::Delete, path_of("/v1/automations/", id))
    }

    /// Switches an automation on or off.
    pub fn enable(&self, id: i64, enabled: bool) -> (r: Request)
        ensures
            r@ == carrying(
                Method::Post,
                id_path_to("/v1/automations/"@, id, "/enable"@),
                single("enabled"@, Tree::Bool(enabled)),
            ),
    {
        let body: Json = single_json("enabled", Json::Bool(enabled));
        send_body(Method::Post, path_to("/v1/automations/", id, "/enable"), body)
    }

    /// Runs an automation. Inputs that are not given are null.
    pub fn run(&self, id: i64, inputs: Option<Json>) -> (r: Request)
        ensures
            r@ == carrying(
                Method::Post,
                id_path_to("/v1/automations/"@, id, "/run"@),
                single(
                    "inputs"@,
                    match inputs {
                        Some(j) => j.tree(),
                        None => Tree::Null,
                    },
                ),
            ),
    {
        let value: Json = match inputs {
            Some(j) => j,
            None => Json::Null,
        };
        let body: Json = single_json("inputs", value);
        send_body(Method::Post, path_to("/v1/automations/", id, "/run"), body)
    }
}

/// Personas.
#[derive(Debug, Clone, Copy)]
pub struct Personas;

impl Personas {
    /// All personas.
    pub fn list(&self) -> (r: Request)
        ensures
            r@ == bare(Method::Get, "/v1/personas"@),
    {
        get("/v1/personas".to_owned())
    }

    /// Personas by a query.
    pub fn list_with(&self, query: &[(&str, &str)]) -> (r: Request)
        ensures
            r@ == asking(Method::Get, "/v1/personas"@, given_pairs(query@)),
    {
        get_with("/v1/personas".to_owned(), query)
    }

    /// Creates a persona.
    pub fn create(&self, body: Json) -> (r: Request)
        ensures
            r@ == carrying(Method::Post, "/v1/personas"@, body.tree()),
    {
        send_body(Method::Post, "/v1/personas".to_owned(), body)
    }

    /// One persona.
    pub fn get(&self, id: i64) -> (r: Request)
        ensures
            r@ == bare(Method::Get, id_path("/v1/personas/"@, id)),
    {
        get(path_of("/v1/personas/", id))
    }

    /// Changes a persona.
    pub fn update(&self, id: i64, patch: Json) -> (r: Request)
        ensures
            r@ == carrying(Method::Patch, id_path("/v1/personas/"@, id), patch.tree()),
    {
        send_body(Method::Patch, path_of("/v1/personas/", id), patch)
    }

    /// Deletes a persona.
    pub fn delete(&self, id: i64) -> (r: Request)
        ensures
            r@ == bare(Method::Delete, id_path("/v1/personas/"@, id)),
    {
        send(Method::Delete, path_of("/v1/personas/", id))
    }

    /// A persona's runs.
    pub fn runs(&self, id: i64) -> (r: Request)
        ensures
            r@ == bare(Method::Get, id_path_to("/v1/personas/"@, id, "/runs"@)),
    {
        get(path_to("/v1/personas/", id, "/runs"))
    }

    /// Checks a TOTP seed.
    pub fn validate_totp(&self, body: Json) -> (r: Request)
        ensures
            r@ == carrying(Method::Post, "/v1/personas/validate-totp"@, body.tree()),
    {
        send_body(Method::Post, "/v1/personas/validate-totp".to_owned(), body)
    }

    /// Tries a persona's second factor.
    pub fn test_2fa(&self, id: i64) -> (r: Request)
        ensures
            r@ == bare(Method::Post, id_path_to("/v1/personas/"@, id, "/test-2fa"@)),
    {
        send(Method::Post, path_to("/v1/personas/", id, "/test-2fa"))
    }
}

/// Secrets. Their values are never read back.
#[derive(Debug, Clone, Copy)]
pub struct Secrets;

impl Secrets {
    /// All secrets.
    pub fn list(&self) -> (r: Request)
        ensures
            r@ == bare(Method::Get, "/v1/secrets"@),
    {
        get("/v1/secrets".to_owned())
    }

    /// Secrets by a query.
    pub fn list_with(&self, query: &[(&str, &str)]) -> (r: Request)
        ensures
            r@ == asking(Method::Get, "/v1/secrets"@, given_pairs(query@)),
    {
        get_with("/v1/secrets".to_owned(), query)
    }

    /// Stores a value under a key.
    pub fn set(&self, key: &str, value: &str) -> (r: Request)
        ensures
            r@ == carrying(
                Method::Post,
                "/v1/secrets"@,
                Tree::Object(seq![("name"@, Tree::Str(key@)), ("value"@, Tree::Str(value@))]),
            ),
    {
        broadcast use crate::json::lemma_object_tree;

        let mut m: Vec<(String, Json)> = Vec::new();
        put(&mut m, "name", Json::text(key));
        put(&mut m, "value", Json::text(value));
        assert(member_trees(m@) == seq![
            ("name"@, Tree::Str(key@)),
            ("value"@, Tree::Str(value@)),
        ]);
        self.create(Json::Object(m))
    }

    /// Creates a secret.
    pub fn create(&self, body: Json) -> (r: Request)
        ensures
            r@ == carrying(Method::Post, "/v1/secrets"@, body.tree()),
    {
        send_body(Method::Post, "/v1/secrets".to_owned(), body)
    }

    /// What is known of a secret, but for its value.
    pub fn get(&self, key: &str) -> (r: Request)
        ensures
            r@ == bare(Method::Get, "/v1/secrets/"@ + key@),
    {
        get(cat("/v1/secrets/", key))
    }

    /// Deletes a secret.
    pub fn delete(&self, key: &str) -> (r: Request)
        ensures
            r@ == bare(Method::Delete, "/v1/secrets/"@ + key@),
    {
        send(Method::Delete, cat("/v1/secrets/", key))
    }
}

/// The vault.
#[derive(Debug, Clone, Copy)]
pub struct Vault;

impl Vault {
    /// Its status.
    pub fn status(&self) -> (r: Request)
        ensures
            r@ == bare(Method::Get, "/v1/vault/status"@),
    {
        get("/v1/vault/status".to_owned())
    }

    /// Locks it.
    pub fn lock(&self) -> (r: Request)
        ensures
            r@ == bare(Method::Post, "/v1/vault/lock"@),
    {
        send(Method::Post, "/v1/vault/lock".to_owned())
    }

    /// Unlocks it.
    pub fn unlock(&self, passphrase: &str) -> (r: Request)
        ensures
            r@ == carrying(
                Method::Post,
                "/v1/vault/unlock"@,
                single("passphrase"@, Tree::Str(passphrase@)),
            ),
    {
        let body: Json = single_json("passphrase", Json::text(passphrase));
        send_body(Method::Post, "/v1/vault/unlock".to_owned(), body)
    }
}

/// Stored files.
#[derive(Debug, Clone, Copy)]
pub struct Files;

impl Files {
    /// All files.
    pub fn list(&self) -> (r: Request)
        ensures
            r@ == bare(Method::Get, "/v1/files"@),
    {
        get("/v1/files".to_owned())
    }

    /// Files by a query.
    pub fn list_with(&self, query: &[(&str, &str)]) -> (r: Request)
        ensures
            r@ == asking(Method::Get, "/v1/files"@, given_pairs(query@)),
    {
        get_with("/v1/files".to_owned(), query)
    }

    /// Where a file is uploaded to, as a form.
    pub fn upload(&self) -> (r: Request)
        ensures
            r@ == bare(Method::Post, "/v1/files"@),
    {
        send(Method::Post, "/v1/files".to_owned())
    }

    /// Makes a file of collected data.
    pub fn from_data(&self, body: Json) -> (r: Request)
        ensures
            r@ == carrying(Method::Post, "/v1/files/from-data"@, body.tree()),
    {
        send_body(Method::Post, "/v1/files/from-data".to_owned(), body)
    }

    /// What is known of a file.
    pub fn get(&self, id: &str) -> (r: Request)
        ensures
            r@ == bare(Method::Get, "/v1/files/"@ + id@),
    {
        get(cat("/v1/files/", id))
    }

    /// Deletes a file.
    pub fn delete(&self, id: &str) -> (r: Request)
        ensures
            r@ == bare(Method::Delete, "/v1/files/"@ + id@),
    {
        send(Method::Delete, cat("/v1/files/", id))
    }

    /// A file's bytes.
    pub fn content(&self, id: &str) -> (r: Request)
        ensures
            r@ == bare(Method::Get, "/v1/files/"@ + id@ + "/content"@),
    {
        get(cat3("/v1/files/", id, "/content"))
    }
}

/// Collected data.
#[derive(Debug, Clone, Copy)]
pub struct Data;

impl Data {
    /// Data of all workflows.
    pub fn query(&self, query: &[(&str, &str)]) -> (r: Request)
        ensures
            r@ == asking(Method::Get, "/v1/data"@, given_pairs(query@)),
    {
        get_with("/v1/data".to_owned(), query)
    }

    /// Data of one workflow.
    pub fn workflow_data(&self, workflow_id: i64, query: &[(&str, &str)]) -> (r: Request)
        ensures
            r@ == asking(Method::Get, id_path_to("/v1/workflows/"@, workflow_id, "/data"@), given_pairs(query@)),
    {
        get_with(path_to("/v1/workflows/", workflow_id, "/data"), query)
    }

    /// Deletes the data of one workflow.
    pub fn delete_workflow_data(&self, workflow_id: i64) -> (r: Request)
        ensures
            r@ == bare(Method::Delete, id_path_to("/v1/workflows/"@, workflow_id, "/data"@)),
    {
        send(Method::Delete, path_to("/v1/workflows/", workflow_id, "/data"))
    }

    /// What the data of one workflow can be filtered by.
    pub fn facets(&self, workflow_id: i64) -> (r: Request)
        ensures
            r@ == bare(Method::Get, id_path_to("/v1/workflows/"@, workflow_id, "/data/facets"@)),
    {
        get(path_to("/v1/workflows/", workflow_id, "/data/facets"))
    }

    /// The data of one workflow as a file.
    pub fn export(&self, workflow_id: i64, query: &[(&str, &str)]) -> (r: Request)
        ensures
            r@ == asking(Method::Get, id_path_to("/v1/workflows/"@, workflow_id, "/data/export"@), given_pairs(query@)),
    {
        get_with(path_to("/v1/workflows/", workflow_id, "/data/export"), query)
    }

    /// The runs that collected data.
    pub fn data_runs(&self, workflow_id: i64) -> (r: Request)
        ensures
            r@ == bare(Method::Get, id_path_to("/v1/workflows/"@, workflow_id, "/data/runs"@)),
    {
        get(path_to("/v1/workflows/", workflow_id, "/data/runs"))
    }
}

/// API keys.
#[derive(Debug, Clone, Copy)]
pub struct Keys;

impl Keys {
    /// All keys.
    pub fn list(&self) -> (r: Request)
        ensures
            r@ == bare(Method::Get, "/v1/keys"@),
    {
        get("/v1/keys".to_owned())
    }

    /// Creates a key.
    pub fn create(&self, name: &str, scopes: Option<&str>) -> (r: Request)
        ensures
            r@ == carrying(
                Method::Post,
                "/v1/keys"@,
                Tree::Object(
                    seq![("name"@, Tree::Str(name@))] + opt_member(
                        "scopes"@,
                        match opt_text(scopes) {
                            Some(s) => Some(Tree::Str(s)),
                            None => None,
                        },
                    ),
                ),
            ),
    {
        broadcast use crate::json::lemma_object_tree;

        let mut m: Vec<(String, Json)> = Vec::new();
        put(&mut m, "name", Json::text(name));
        assert(member_trees(m@) == seq![("name"@, Tree::Str(name@))]);
        let scopes_json: Option<Json> = match scopes {
            Some(s) => Some(Json::text(s)),
            None => None,
        };
        put_opt(&mut m, "scopes", scopes_json);
        send_body(Method::Post, "/v1/keys".to_owned(), Json::Object(m))
    }

    /// One key.
    pub fn get(&self, id: i64) -> (r: Request)
        ensures
            r@ == bare(Method::Get, id_path("/v1/keys/"@, id)),
    {
        get(path_of("/v1/keys/", id))
    }

    /// Deletes a key.
    pub fn delete(&self, id: i64) -> (r: Request)
        ensures
            r@ == bare(Method::Delete, id_path("/v1/keys/"@, id)),
    {
        send(Method::Delete, path_of("/v1/keys/", id))
    }
}

/// Crawls.
#[derive(Debug, Clone, Copy)]
pub struct Crawl;

impl Crawl {
    /// All crawls.
    pub fn list(&self, limit: Option<i64>) -> (r: Request)
        ensures
            r@ == asking(Method::Get, "/v1/crawl"@, opt_pair("limit"@, opt_int_text(limit))),
    {
        let mut q: Vec<(String, String)> = no_query();
        push_int(&mut q, "limit", limit);
        assert(pairs(q@) == opt_pair("limit"@, opt_int_text(limit)));
        get("/v1/crawl".to_owned()).with_query(q)
    }

    /// Starts a crawl.
    pub fn start(&self, params: &CrawlStartParams) -> (r: Request)
        ensures
            r@ == carrying(
                Method::Post,
                "/v1/crawl"@,
                Tree::Object(crate::models::crawl_members(*params)),
            ),
    {
        send_body(Method::Post, "/v1/crawl".to_owned(), params.to_body())
    }

    /// One crawl.
    pub fn get(&self, id: i64) -> (r: Request)
        ensures
            r@ == bare(Method::Get, id_path("/v1/crawl/"@, id)),
    {
        get(path_of("/v1/crawl/", id))
    }

    /// Cancels a crawl.
    pub fn cancel(&self, id: i64) -> (r: Request)
        ensures
            r@ == bare(Method::Post, id_path_to("/v1/crawl/"@, id, "/cancel"@)),
    {
        send(Method::Post, path_to("/v1/crawl/", id, "/cancel"))
    }
}

/// Datasets.
#[derive(Debug, Clone, Copy)]
pub struct Datasets;

impl Datasets {
    /// All datasets.
    pub fn list(&self) -> (r: Request)
        ensures
            r@ == bare(Method::Get, "/v1/datasets"@),
    {
        get("/v1/datasets".to_owned())
    }

    /// One dataset.
    pub fn get(&self, id: i64) -> (r: Request)
        ensures
            r@ == bare(Method::Get, id_path("/v1/datasets/"@, id)),
    {
        get(path_of("/v1/datasets/", id))
    }

    /// A dataset's records.
    pub fn records(&self, id: i64, query: &[(&str, &str)]) -> (r: Request)
        ensures
            r@ == asking(Method::Get, id_path_to("/v1/datasets/"@, id, "/records"@), given_pairs(query@)),
    {
        get_with(path_to("/v1/datasets/", id, "/records"), query)
    }

    /// A dataset as a file.
    pub fn export(&self, id: i64, query: &[(&str, &str)]) -> (r: Request)
        ensures
            r@ == asking(Method::Get, id_path_to("/v1/datasets/"@, id, "/export"@), given_pairs(query@)),
    {
        get_with(path_to("/v1/datasets/", id, "/export"), query)
    }

    /// A dataset's records as text.
    pub fn records_text(
        &self,
        id: i64,
        format: DatasetFormat,
        query: &[(&str, &str)],
    ) -> (r: Request)
        ensures
            r@ == asking(
                Method::Get,
                id_path_to("/v1/datasets/"@, id, "/records"@),
                seq![("format"@, format.name())] + given_pairs(query@),
            ),
    {
        let mut q: Vec<(String, String)> = no_query();
        push_pair(&mut q, "format", format.as_str().to_owned());
        assert(pairs(q@) == seq![("format"@, format.name())]);
        push_given(&mut q, query);
        get(path_to("/v1/datasets/", id, "/records")).with_query(q)
    }

    /// Searches all datasets, with the hits as text.
    pub fn search_text(
        &self,
        q: &str,
        format: DatasetFormat,
        params: &[(&str, &str)],
    ) -> (r: Request)
        ensures
            r@ == asking(
                Method::Get,
                "/v1/datasets/search"@,
                seq![("q"@, q@), ("format"@, format.name())] + given_pairs(params@),
            ),
    {
        let mut query: Vec<(String, String)> = no_query();
        push_pair(&mut query, "q", q.to_owned());
        push_pair(&mut query, "format", format.as_str().to_owned());
        assert(pairs(query@) == seq![("q"@, q@), ("format"@, format.name())]);
        push_given(&mut query, params);
        get("/v1/datasets/search".to_owned()).with_query(query)
    }

    /// Searches one dataset, with the hits as text.
    pub fn search_one_text(
        &self,
        id: i64,
        q: &str,
        format: DatasetFormat,
        params: &[(&str, &str)],
    ) -> (r: Request)
        ensures
            r@ == asking(
                Method::Get,
                id_path_to("/v1/datasets/"@, id, "/search"@),
                seq![("q"@, q@), ("format"@, format.name())] + given_pairs(params@),
            ),
    {
        let mut query: Vec<(String, String)> = no_query();
        push_pair(&mut query, "q", q.to_owned());
        push_pair(&mut query, "format", format.as_str().to_owned());
        assert(pairs(query@) == seq![("q"@, q@), ("format"@, format.name())]);
        push_given(&mut query, params);
        get(path_to("/v1/datasets/", id, "/search")).with_query(query)
    }

    /// Searches all datasets.
    pub fn search(&self, q: &str, params: &[(&str, &str)]) -> (r: Request)
        ensures
            r@ == asking(
                Method::Get,
                "/v1/datasets/search"@,
                seq![("q"@, q@)] + given_pairs(params@),
            ),
    {
        let mut query: Vec<(String, String)> = no_query();
        push_pair(&mut query, "q", q.to_owned());
        assert(pairs(query@) == seq![("q"@, q@)]);
        push_given(&mut query, params);
        get("/v1/datasets/search".to_owned()).with_query(query)
    }

    /// Searches one dataset.
    pub fn search_one(&self, id: i64, q: &str, params: &[(&str, &str)]) -> (r: Request)
        ensures
            r@ == asking(
                Method::Get,
                id_path_to("/v1/datasets/"@, id, "/search"@),
                seq![("q"@, q@)] + given_pairs(params@),
            ),
    {
        let mut query: Vec<(String, String)> = no_query();
        push_pair(&mut query, "q", q.to_owned());
        assert(pairs(query@) == seq![("q"@, q@)]);
        push_given(&mut query, params);
        get(path_to("/v1/datasets/", id, "/search")).with_query(query)
    }
}

} // verus!
