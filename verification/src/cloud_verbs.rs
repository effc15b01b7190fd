//! The cloud's resources. Every verb needs a key, and is refused without one before any
//! request is made.

use crate::cloud::{api_key_required, guarded, needs_key_text, CloudClient};
use crate::cloud_models::{
    as_text, build_members, change_query, ChangeListOptions, CloudAutomationListOptions,
    CloudBuildParams, CloudMonitorListOptions,
};
use crate::error::WritError;
use crate::json::{member_trees, opt_member, opt_tree, put, put_opt, Json, Tree};
use crate::request::{
    asking, bare, carrying, flag_text, id_path, id_path_to, no_query, opt_int_text, opt_pair, pairs,
    path_of, path_to, push_flag, push_int, push_pair, push_text, Method, Request, RequestView,
};
use crate::text::{cat, opt_string, opt_text};
use vstd::prelude::*;

verus! {

broadcast use vstd::string::group_string_axioms;

/// Refuses a metered verb without a key.
fn guard(c: &CloudClient, what: &str) -> (r: Result<(), WritError>)
    ensures
        r is Ok <==> c.api_key is Some,
        r is Err ==> r->Err_0@ == crate::cloud::key_required(needs_key_text(what@)),
{
    if c.api_key.is_some() {
        return Ok(());
    }
    let message: String = cat(
        what,
        " needs an API key — set api_key or WRIT_API_KEY. Keyless access covers scrape and map only.",
    );
    Err(api_key_required(message.as_str()))
}

/// The query that asks for monitors. What is unset is not sent.
pub open spec fn monitor_query(o: CloudMonitorListOptions) -> Seq<(Seq<char>, Seq<char>)> {
    opt_pair("enabled_only"@, flag_text(o.enabled_only)) + opt_pair(
        "check_type"@,
        opt_string(o.check_type),
    ) + opt_pair("limit"@, opt_int_text(o.limit)) + opt_pair("offset"@, opt_int_text(o.offset))
}

/// The query that asks for automations. What is unset is not sent.
pub open spec fn automation_query(o: CloudAutomationListOptions) -> Seq<(Seq<char>, Seq<char>)> {
    opt_pair("enabled_only"@, flag_text(o.enabled_only)) + opt_pair(
        "event_type"@,
        opt_string(o.event_type),
    ) + opt_pair("workflow_id"@, opt_int_text(o.workflow_id))
}

/// The members of a TOTP check.
pub open spec fn totp_members(seed: Seq<char>, code: Option<Seq<char>>) -> Seq<
    (Seq<char>, Tree),
> {
    seq![("totp_seed"@, Tree::Str(seed))] + opt_member(
        "code"@,
        match code {
            Some(c) => Some(Tree::Str(c)),
            None => None,
        },
    )
}

/// `true` or `false`.
pub open spec fn bool_text(b: bool) -> Seq<char> {
    if b {
        "true"@
    } else {
        "false"@
    }
}

/// Monitors.
#[derive(Debug, Clone, Copy)]
pub struct CloudMonitors<'a> {
    pub c: &'a CloudClient,
}

impl<'a> CloudMonitors<'a> {
    /// Monitors by options.
    pub fn list(&self, opts: &CloudMonitorListOptions) -> (r: Result<Request, WritError>)
        ensures
            guarded(
                *self.c,
                needs_key_text("Listing cloud monitors"@),
                asking(Method::Get, "/api/targets"@, monitor_query(*opts)),
                r,
            ),
    {
        match guard(self.c, "Listing cloud monitors") {
            Ok(()) => {},
            Err(e) => {
                return Err(e);
            },
        }
        let mut q: Vec<(String, String)> = no_query();
        push_flag(&mut q, "enabled_only", opts.enabled_only);
        assert(pairs(q@) == opt_pair("enabled_only"@, flag_text(opts.enabled_only)));
        push_text(&mut q, "check_type", as_text(&opts.check_type));
        push_int(&mut q, "limit", opts.limit);
        push_int(&mut q, "offset", opts.offset);
        Ok(Request::new(Method::Get, "/api/targets".to_owned()).with_query(q))
    }

    /// Creates a monitor.
    pub fn create(&self, body: Json) -> (r: Result<Request, WritError>)
        ensures
            guarded(
                *self.c,
                needs_key_text("Creating a cloud monitor"@),
                carrying(Method::Post, "/api/targets"@, body.tree()),
                r,
            ),
    {
        match guard(self.c, "Creating a cloud monitor") {
            Ok(()) => {},
            Err(e) => {
                return Err(e);
            },
        }
        Ok(Request::new(Method::Post, "/api/targets".to_owned()).with_body(body))
    }

    /// One monitor.
    pub fn get(&self, id: i64) -> (r: Result<Request, WritError>)
        ensures
            guarded(
                *self.c,
                needs_key_text("Reading a cloud monitor"@),
                bare(Method::Get, id_path("/api/targets/"@, id)),
                r,
            ),
    {
        match guard(self.c, "Reading a cloud monitor") {
            Ok(()) => {},
            Err(e) => {
                return Err(e);
            },
        }
        Ok(Request::new(Method::Get, path_of("/api/targets/", id)))
    }

    /// Changes a monitor.
    pub fn update(&self, id: i64, patch: Json) -> (r: Result<Request, WritError>)
        ensures
            guarded(
                *self.c,
                needs_key_text("Updating a cloud monitor"@),
                carrying(Method::Patch, id_path("/api/targets/"@, id), patch.tree()),
                r,
            ),
    {
        match guard(self.c, "Updating a cloud monitor") {
            Ok(()) => {},
            Err(e) => {
                return Err(e);
            },
        }
        Ok(Request::new(Method::Patch, path_of("/api/targets/", id)).with_body(patch))
    }

    /// Deletes a monitor.
    pub fn delete(&self, id: i64) -> (r: Result<Request, WritError>)
        ensures
            guarded(
                *self.c,
                needs_key_text("Deleting a cloud monitor"@),
                bare(Method::Delete, id_path("/api/targets/"@, id)),
                r,
            ),
    {
        match guard(self.c, "Deleting a cloud monitor") {
            Ok(()) => {},
            Err(e) => {
                return Err(e);
            },
        }
        Ok(Request::new(Method::Delete, path_of("/api/targets/", id)))
    }

    /// Switches a monitor on or off.
    pub fn toggle(&self, id: i64, enabled: bool) -> (r: Result<Request, WritError>)
        ensures
            guarded(
                *self.c,
                needs_key_text("Toggling a cloud monitor"@),
                asking(Method::Patch, id_path_to("/api/targets/"@, id, "/toggle"@), seq![("enabled"@, bool_text(enabled))]),
                r,
            ),
    {
        match guard(self.c, "Toggling a cloud monitor") {
            Ok(()) => {},
            Err(e) => {
                return Err(e);
            },
        }
        let mut q: Vec<(String, String)> = no_query();
        let text: &str = if enabled {
            "true"
        } else {
            "false"
        };
        push_pair(&mut q, "enabled", text.to_owned());
        assert(pairs(q@) == seq![("enabled"@, bool_text(enabled))]);
        Ok(Request::new(Method::Patch, path_to("/api/targets/", id, "/toggle")).with_query(q))
    }

    /// Checks now.
    pub fn run(&self, id: i64) -> (r: Result<Request, WritError>)
        ensures
            guarded(
                *self.c,
                needs_key_text("Running a cloud monitor"@),
                bare(Method::Post, id_path_to("/api/targets/"@, id, "/run"@)),
                r,
            ),
    {
        match guard(self.c, "Running a cloud monitor") {
            Ok(()) => {},
            Err(e) => {
                return Err(e);
            },
        }
        Ok(Request::new(Method::Post, path_to("/api/targets/", id, "/run")))
    }

    /// A monitor's changes.
    pub fn changes(&self, id: i64, opts: &ChangeListOptions) -> (r: Result<Request, WritError>)
        ensures
            guarded(
                *self.c,
                needs_key_text("Reading cloud monitor changes"@),
                asking(Method::Get, id_path_to("/api/targets/"@, id, "/changes"@), change_query(*opts)),
                r,
            ),
    {
        match guard(self.c, "Reading cloud monitor changes") {
            Ok(()) => {},
            Err(e) => {
                return Err(e);
            },
        }
        let q: Vec<(String, String)> = opts.query();
        Ok(Request::new(Method::Get, path_to("/api/targets/", id, "/changes")).with_query(q))
    }

    /// Recent changes of all monitors.
    pub fn recent_changes(&self, opts: &ChangeListOptions) -> (r: Result<Request, WritError>)
        ensures
            guarded(
                *self.c,
                needs_key_text("Reading recent cloud changes"@),
                asking(Method::Get, "/api/targets/changes/recent"@, change_query(*opts)),
                r,
            ),
    {
        match guard(self.c, "Reading recent cloud changes") {
            Ok(()) => {},
            Err(e) => {
                return Err(e);
            },
        }
        let q: Vec<(String, String)> = opts.query();
        Ok(Request::new(Method::Get, "/api/targets/changes/recent".to_owned()).with_query(q))
    }
}

/// Automations.
#[derive(Debug, Clone, Copy)]
pub struct CloudAutomations<'a> {
    pub c: &'a CloudClient,
}

impl<'a> CloudAutomations<'a> {
    /// Automations by options.
    pub fn list(&self, opts: &CloudAutomationListOptions) -> (r: Result<Request, WritError>)
        ensures
            guarded(
                *self.c,
                needs_key_text("Listing cloud automations"@),
                asking(Method::Get, "/api/triggers/all"@, automation_query(*opts)),
                r,
            ),
    {
        match guard(self.c, "Listing cloud automations") {
            Ok(()) => {},
            Err(e) => {
                return Err(e);
            },
        }
        let mut q: Vec<(String, String)> = no_query();
        push_flag(&mut q, "enabled_only", opts.enabled_only);
        assert(pairs(q@) == opt_pair("enabled_only"@, flag_text(opts.enabled_only)));
        push_text(&mut q, "event_type", as_text(&opts.event_type));
        push_int(&mut q, "workflow_id", opts.workflow_id);
        Ok(Request::new(Method::Get, "/api/triggers/all".to_owned()).with_query(q))
    }

    /// Creates an automation.
    pub fn create(&self, body: Json) -> (r: Result<Request, WritError>)
        ensures
            guarded(
                *self.c,
                needs_key_text("Creating a cloud automation"@),
                carrying(Method::Post, "/api/triggers"@, body.tree()),
                r,
            ),
    {
        match guard(self.c, "Creating a cloud automation") {
            Ok(()) => {},
            Err(e) => {
                return Err(e);
            },
        }
        Ok(Request::new(Method::Post, "/api/triggers".to_owned()).with_body(body))
    }

    /// One automation.
    pub fn get(&self, id: i64) -> (r: Result<Request, WritError>)
        ensures
            guarded(
                *self.c,
                needs_key_text("Reading a cloud automation"@),
                bare(Method::Get, id_path("/api/triggers/"@, id)),
                r,
            ),
    {
        match guard(self.c, "Reading a cloud automation") {
            Ok(()) => {},
            Err(e) => {
                return Err(e);
            },
        }
        Ok(Request::new(Method::Get, path_of("/api/triggers/", id)))
    }

    /// Changes an automation.
    pub fn update(&self, id: i64, patch: Json) -> (r: Result<Request, WritError>)
        ensures
            guarded(
                *self.c,
                needs_key_text("Updating a cloud automation"@),
                carrying(Method::Patch, id_path("/api/triggers/"@, id), patch.tree()),
                r,
            ),
    {
        match guard(self.c, "Updating a cloud automation") {
            Ok(()) => {},
            Err(e) => {
                return Err(e);
            },
        }
        Ok(Request::new(Method::Patch, path_of("/api/triggers/", id)).with_body(patch))
    }

    /// Deletes an automation.
    pub fn delete(&self, id: i64) -> (r: Result<Request, WritError>)
        ensures
            guarded(
                *self.c,
                needs_key_text("Deleting a cloud automation"@),
                bare(Method::Delete, id_path("/api/triggers/"@, id)),
                r,
            ),
    {
        match guard(self.c, "Deleting a cloud automation") {
            Ok(()) => {},
            Err(e) => {
                return Err(e);
            },
        }
        Ok(Request::new(Method::Delete, path_of("/api/triggers/", id)))
    }

    /// Switches an automation on or off.
    pub fn toggle(&self, id: i64) -> (r: Result<Request, WritError>)
        ensures
            guarded(
                *self.c,
                needs_key_text("Toggling a cloud automation"@),
                bare(Method::Patch, id_path_to("/api/triggers/"@, id, "/toggle"@)),
                r,
            ),
    {
        match guard(self.c, "Toggling a cloud automation") {
            Ok(()) => {},
            Err(e) => {
                return Err(e);
            },
        }
        Ok(Request::new(Method::Patch, path_to("/api/triggers/", id, "/toggle")))
    }

    /// Runs an automation.
    pub fn run(&self, id: i64, inputs: Option<Json>) -> (r: Result<Request, WritError>)
        ensures
            guarded(
                *self.c,
                needs_key_text("Running a cloud automation"@),
                (RequestView {
                    body: opt_tree(inputs),
                    ..bare(Method::Post, id_path_to("/api/triggers/"@, id, "/run"@))
                }),
                r,
            ),
    {
        match guard(self.c, "Running a cloud automation") {
            Ok(()) => {},
            Err(e) => {
                return Err(e);
            },
        }
        let request: Request = Request::new(Method::Post, path_to("/api/triggers/", id, "/run"));
        match inputs {
            Some(body) => Ok(request.with_body(body)),
            None => Ok(request),
        }
    }

    /// Tries an automation.
    pub fn test(&self, id: i64, body: Json) -> (r: Result<Request, WritError>)
        ensures
            guarded(
                *self.c,
                needs_key_text("Testing a cloud automation"@),
                carrying(Method::Post, id_path_to("/api/triggers/"@, id, "/test"@), body.tree()),
                r,
            ),
    {
        match guard(self.c, "Testing a cloud automation") {
            Ok(()) => {},
            Err(e) => {
                return Err(e);
            },
        }
        Ok(Request::new(Method::Post, path_to("/api/triggers/", id, "/test")).with_body(body))
    }

    /// What an automation did.
    pub fn executions(&self, id: i64, limit: Option<i64>) -> (r: Result<Request, WritError>)
        ensures
            guarded(
                *self.c,
                needs_key_text("Reading cloud automation executions"@),
                asking(Method::Get, id_path_to("/api/triggers/"@, id, "/executions"@), opt_pair("limit"@, opt_int_text(limit))),
                r,
            ),
    {
        match guard(self.c, "Reading cloud automation executions") {
            Ok(()) => {},
            Err(e) => {
                return Err(e);
            },
        }
        let mut q: Vec<(String, String)> = no_query();
        push_int(&mut q, "limit", limit);
        assert(pairs(q@) == opt_pair("limit"@, opt_int_text(limit)));
        Ok(Request::new(Method::Get, path_to("/api/triggers/", id, "/executions")).with_query(q))
    }

    /// A monitor's automations.
    pub fn for_monitor(
        &self,
        monitor_id: i64,
        enabled_only: bool,
    ) -> (r: Result<Request, WritError>)
        ensures
            guarded(
                *self.c,
                needs_key_text("Reading a monitor's cloud automations"@),
                asking(Method::Get, id_path("/api/triggers/target/"@, monitor_id), opt_pair("enabled_only"@, flag_text(enabled_only))),
                r,
            ),
    {
        match guard(self.c, "Reading a monitor's cloud automations") {
            Ok(()) => {},
            Err(e) => {
                return Err(e);
            },
        }
        let mut q: Vec<(String, String)> = no_query();
        push_flag(&mut q, "enabled_only", enabled_only);
        assert(pairs(q@) == opt_pair("enabled_only"@, flag_text(enabled_only)));
        Ok(Request::new(Method::Get, path_of("/api/triggers/target/", monitor_id)).with_query(q))
    }
}

/// Personas.
#[derive(Debug, Clone, Copy)]
pub struct CloudPersonas<'a> {
    pub c: &'a CloudClient,
}

impl<'a> CloudPersonas<'a> {
    /// Personas, of one domain where it is given.
    pub fn list(&self, domain: Option<&str>) -> (r: Result<Request, WritError>)
        ensures
            guarded(
                *self.c,
                needs_key_text("Listing cloud personas"@),
                asking(Method::Get, "/api/personas"@, opt_pair("domain"@, opt_text(domain))),
                r,
            ),
    {
        match guard(self.c, "Listing cloud personas") {
            Ok(()) => {},
            Err(e) => {
                return Err(e);
            },
        }
        let mut q: Vec<(String, String)> = no_query();
        push_text(&mut q, "domain", domain);
        assert(pairs(q@) == opt_pair("domain"@, opt_text(domain)));
        Ok(Request::new(Method::Get, "/api/personas".to_owned()).with_query(q))
    }

    /// Creates a persona.
    pub fn create(&self, body: Json) -> (r: Result<Request, WritError>)
        ensures
            guarded(
                *self.c,
                needs_key_text("Creating a cloud persona"@),
                carrying(Method::Post, "/api/personas"@, body.tree()),
                r,
            ),
    {
        match guard(self.c, "Creating a cloud persona") {
            Ok(()) => {},
            Err(e) => {
                return Err(e);
            },
        }
        Ok(Request::new(Method::Post, "/api/personas".to_owned()).with_body(body))
    }

    /// One persona.
    pub fn get(&self, id: i64) -> (r: Result<Request, WritError>)
        ensures
            guarded(
                *self.c,
                needs_key_text("Reading a cloud persona"@),
                bare(Method::Get, id_path("/api/personas/"@, id)),
                r,
            ),
    {
        match guard(self.c, "Reading a cloud persona") {
            Ok(()) => {},
            Err(e) => {
                return Err(e);
            },
        }
        Ok(Request::new(Method::Get, path_of("/api/personas/", id)))
    }

    /// Changes a persona.
    pub fn update(&self, id: i64, patch: Json) -> (r: Result<Request, WritError>)
        ensures
            guarded(
                *self.c,
                needs_key_text("Updating a cloud persona"@),
                carrying(Method::Patch, id_path("/api/personas/"@, id), patch.tree()),
                r,
            ),
    {
        match guard(self.c, "Updating a cloud persona") {
            Ok(()) => {},
            Err(e) => {
                return Err(e);
            },
        }
        Ok(Request::new(Method::Patch, path_of("/api/personas/", id)).with_body(patch))
    }

    /// Deletes a persona.
    pub fn delete(&self, id: i64) -> (r: Result<Request, WritError>)
        ensures
            guarded(
                *self.c,
                needs_key_text("Deleting a cloud persona"@),
                bare(Method::Delete, id_path("/api/personas/"@, id)),
                r,
            ),
    {
        match guard(self.c, "Deleting a cloud persona") {
            Ok(()) => {},
            Err(e) => {
                return Err(e);
            },
        }
        Ok(Request::new(Method::Delete, path_of("/api/personas/", id)))
    }

    /// A persona's runs.
    pub fn runs(&self, id: i64, limit: Option<i64>) -> (r: Result<Request, WritError>)
        ensures
            guarded(
                *self.c,
                needs_key_text("Reading cloud persona runs"@),
                asking(Method::Get, id_path_to("/api/personas/"@, id, "/runs"@), opt_pair("limit"@, opt_int_text(limit))),
                r,
            ),
    {
        match guard(self.c, "Reading cloud persona runs") {
            Ok(()) => {},
            Err(e) => {
                return Err(e);
            },
        }
        let mut q: Vec<(String, String)> = no_query();
        push_int(&mut q, "limit", limit);
        assert(pairs(q@) == opt_pair("limit"@, opt_int_text(limit)));
        Ok(Request::new(Method::Get, path_to("/api/personas/", id, "/runs")).with_query(q))
    }

    /// Tries a persona's second factor.
    pub fn test_2fa(&self, id: i64) -> (r: Result<Request, WritError>)
        ensures
            guarded(
                *self.c,
                needs_key_text("Testing a cloud persona's 2FA"@),
                bare(Method::Post, id_path_to("/api/personas/"@, id, "/test-2fa"@)),
                r,
            ),
    {
        match guard(self.c, "Testing a cloud persona's 2FA") {
            Ok(()) => {},
            Err(e) => {
                return Err(e);
            },
        }
        Ok(Request::new(Method::Post, path_to("/api/personas/", id, "/test-2fa")))
    }

    /// Checks a TOTP seed.
    pub fn validate_totp(
        &self,
        totp_seed: &str,
        code: Option<&str>,
    ) -> (r: Result<Request, WritError>)
        ensures
            guarded(
                *self.c,
                needs_key_text("Validating a TOTP seed"@),
                carrying(
                    Method::Post,
                    "/api/personas/validate-totp"@,
                    Tree::Object(totp_members(totp_seed@, opt_text(code))),
                ),
                r,
            ),
    {
        match guard(self.c, "Validating a TOTP seed") {
            Ok(()) => {},
            Err(e) => {
                return Err(e);
            },
        }
        broadcast use crate::json::lemma_object_tree;

        let mut m: Vec<(String, Json)> = Vec::new();
        put(&mut m, "totp_seed", Json::text(totp_seed));
        assert(member_trees(m@) == seq![("totp_seed"@, Tree::Str(totp_seed@))]);
        let code_json: Option<Json> = match code {
            Some(c) => Some(Json::text(c)),
            None => None,
        };
        put_opt(&mut m, "code", code_json);
        Ok(
            Request::new(Method::Post, "/api/personas/validate-totp".to_owned()).with_body(
                Json::Object(m),
            ),
        )
    }
}

/// Builds of APIs from websites.
#[derive(Debug, Clone, Copy)]
pub struct CloudBuilds<'a> {
    pub c: &'a CloudClient,
}

impl<'a> CloudBuilds<'a> {
    /// Starts a build.
    pub fn start(&self, params: &CloudBuildParams) -> (r: Result<Request, WritError>)
        ensures
            guarded(
                *self.c,
                needs_key_text("Building an API from a website"@),
                carrying(Method::Post, "/api/v1/website-to-api"@, Tree::Object(build_members(*params))),
                r,
            ),
    {
        match guard(self.c, "Building an API from a website") {
            Ok(()) => {},
            Err(e) => {
                return Err(e);
            },
        }
        Ok(Request::new(Method::Post, "/api/v1/website-to-api".to_owned()).with_body(params.to_body()))
    }

    /// One build.
    pub fn get(&self, build_id: i64) -> (r: Result<Request, WritError>)
        ensures
            guarded(
                *self.c,
                needs_key_text("Reading a website-to-API build"@),
                bare(Method::Get, id_path("/api/v1/website-to-api/"@, build_id)),
                r,
            ),
    {
        match guard(self.c, "Reading a website-to-API build") {
            Ok(()) => {},
            Err(e) => {
                return Err(e);
            },
        }
        Ok(Request::new(Method::Get, path_of("/api/v1/website-to-api/", build_id)))
    }
}

} // verus!
