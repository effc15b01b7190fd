//! What the cloud tier is asked and answers with.

use crate::json::{
    int_json, opt_int_tree, opt_member, put, put_opt, text_json, text_tree, Json, Tree,
};
use crate::request::{no_query, opt_int_text, opt_pair, pairs, push_int, push_text};
use crate::text::{opt_string, text_eq};
use vstd::prelude::*;

verus! {

broadcast use vstd::string::group_string_axioms;

/// How a client is known to the cloud: by an API key, or not at all.
#[derive(Debug, Clone, Copy, PartialEq, Eq, Structural)]
pub enum CloudTier {
    Keyless,
    Metered,
}

impl CloudTier {
    /// The name of the tier.
    pub open spec fn name(self) -> Seq<char> {
        match self {
            CloudTier::Keyless => "keyless"@,
            CloudTier::Metered => "metered"@,
        }
    }

    /// The name of the tier.
    pub fn as_str(&self) -> (r: &'static str)
        ensures
            r@ == self.name(),
    {
        match self {
            CloudTier::Keyless => "keyless",
            CloudTier::Metered => "metered",
        }
    }
}

/// What is left of the keyless daily allowance.
#[derive(Debug, Clone)]
pub struct KeylessQuota {
    pub tier: CloudTier,
    pub requests_remaining: i64,
    pub pages_remaining: i64,
    pub requests_per_day: i64,
    pub pages_per_day: i64,
    pub reset_at: String,
    pub upgrade_url: Option<String>,
}

/// How many links a map returned, of how many.
#[derive(Debug, Clone, Copy)]
pub struct MapCounts {
    pub returned: i64,
    pub total: i64,
}

impl Default for MapCounts {
    fn default() -> (r: Self)
        ensures
            r.returned == 0,
            r.total == 0,
    {
        MapCounts { returned: 0, total: 0 }
    }
}

/// Options of a map.
#[derive(Debug, Clone, Default)]
pub struct MapOptions {
    /// Rank links by these words.
    pub search: Option<String>,
    pub limit: Option<i64>,
}

/// Options of a scrape.
#[derive(Debug, Clone, Copy)]
pub struct ScrapeOptions {
    /// Log in as this persona.
    pub persona_id: Option<i64>,
    /// Go out through a residential address.
    pub use_residential: bool,
}

impl Default for ScrapeOptions {
    fn default() -> (r: Self)
        ensures
            r.persona_id is None,
            !r.use_residential,
    {
        ScrapeOptions { persona_id: None, use_residential: false }
    }
}

/// A monitor.
#[derive(Debug, Clone, Default)]
pub struct CloudMonitor {
    pub id: i64,
    pub url: String,
    pub check_type: String,
    pub selector: Option<String>,
    pub ignore_regex: Option<String>,
    pub check_period_ms: Option<i64>,
    pub schedule_kind: Option<String>,
    pub schedule_time: Option<String>,
    pub schedule_days: Option<Vec<i64>>,
    pub schedule_tz: Option<String>,
    pub enabled: bool,
    pub expected_status_code: Option<i64>,
    pub timeout_ms: Option<i64>,
    pub max_response_time_ms: Option<i64>,
    pub check_ssl: Option<bool>,
    pub requires_playwright: bool,
    pub preferred_region: Option<String>,
    pub use_residential: Option<bool>,
    pub residential_country: Option<String>,
    pub created_at: Option<String>,
    pub updated_at: Option<String>,
    pub last_checked_at: Option<String>,
    pub changes_count: i64,
    pub state: Option<String>,
    pub status_code: Option<i64>,
    pub last_change_at: Option<String>,
}

/// A change of one monitor.
#[derive(Debug, Clone, Default)]
pub struct CloudMonitorChange {
    pub id: String,
    pub target_id: String,
    pub timestamp: String,
    pub first_detected_at: String,
    pub last_detected_at: String,
    pub old_content: String,
    pub new_content: String,
    pub diff: String,
    pub detected_by: String,
    pub selector_id: Option<i64>,
    pub selector_name: Option<String>,
    pub screenshot_before: Option<String>,
    pub screenshot_after: Option<String>,
    pub screenshot_diff: Option<String>,
}

/// A change in the feed of all monitors.
#[derive(Debug, Clone, Default, PartialEq)]
pub struct RecentChange {
    pub id: i64,
    pub target_id: i64,
    pub target_url: String,
    pub target_selector_id: Option<i64>,
    pub selector_name: Option<String>,
    pub diff_snippet: Option<String>,
    pub first_detected_at: String,
    /// Moves when the same difference recurs; with the id, the row's place in the feed.
    pub last_detected_at: String,
}

/// Which changes are asked for.
#[derive(Debug, Clone)]
pub struct ChangeListOptions {
    pub limit: Option<i64>,
    /// Only what comes after this time and id.
    pub since: Option<String>,
    pub since_id: Option<i64>,
}

impl Default for ChangeListOptions {
    fn default() -> (r: Self)
        ensures
            r.limit is None,
            r.since is None,
            r.since_id is None,
    {
        ChangeListOptions { limit: None, since: None, since_id: None }
    }
}

/// The query that asks for changes. What is unset is not sent.
pub open spec fn change_query(o: ChangeListOptions) -> Seq<(Seq<char>, Seq<char>)> {
    opt_pair("limit"@, opt_int_text(o.limit)) + opt_pair("since"@, opt_string(o.since)) + opt_pair(
        "since_id"@,
        opt_int_text(o.since_id),
    )
}

/// A borrowed optional text.
pub(crate) fn as_text(s: &Option<String>) -> (r: Option<&str>)
    ensures
        crate::text::opt_text(r) == opt_string(*s),
{
    match s {
        Some(t) => Some(t.as_str()),
        None => None,
    }
}

impl ChangeListOptions {
    /// The newest `n` changes.
    pub fn limit(n: i64) -> (r: Self)
        ensures
            r.limit == Some(n),
            r.since is None,
            r.since_id is None,
    {
        ChangeListOptions { limit: Some(n), since: None, since_id: None }
    }

    /// The query that asks for these changes.
    pub fn query(&self) -> (r: Vec<(String, String)>)
        ensures
            pairs(r@) == change_query(*self),
    {
        let mut q: Vec<(String, String)> = no_query();
        push_int(&mut q, "limit", self.limit);
        assert(pairs(q@) == opt_pair("limit"@, opt_int_text(self.limit)));
        push_text(&mut q, "since", as_text(&self.since));
        push_int(&mut q, "since_id", self.since_id);
        q
    }
}

/// What running a monitor came to.
#[derive(Debug, Clone, Default)]
pub struct CloudMonitorRun {
    pub ok: bool,
    pub dispatched: i64,
    pub detail: Option<String>,
}

/// Which monitors are asked for.
#[derive(Debug, Clone, Default)]
pub struct CloudMonitorListOptions {
    pub enabled_only: bool,
    pub check_type: Option<String>,
    pub limit: Option<i64>,
    pub offset: Option<i64>,
}

/// One page of a keyless crawl.
#[derive(Debug, Clone, Default)]
pub struct KeylessCrawlPage {
    pub url: String,
    pub title: Option<String>,
    pub markdown: String,
}

/// The bounds that a keyless crawl ran under.
#[derive(Debug, Clone, Default)]
pub struct KeylessCrawlLimits {
    pub page_cap: i64,
    pub max_depth: i64,
    pub same_domain: bool,
    pub note: String,
}

/// What a keyless crawl found.
#[derive(Debug, Clone, Default)]
pub struct KeylessCrawlResult {
    pub verb: String,
    pub url: String,
    pub pages: Vec<KeylessCrawlPage>,
    pub tier: String,
    pub limits: KeylessCrawlLimits,
    pub upgrade_url: Option<String>,
}

/// Options of a keyless crawl.
#[derive(Debug, Clone, Default)]
pub struct KeylessCrawlOptions {
    pub search: Option<String>,
    pub limit: Option<i64>,
}

/// Which automations are asked for.
#[derive(Debug, Clone, Default)]
pub struct CloudAutomationListOptions {
    pub enabled_only: bool,
    pub event_type: Option<String>,
    pub workflow_id: Option<i64>,
}

/// Whether a TOTP seed is usable.
#[derive(Debug, Clone, Default)]
pub struct TotpValidation {
    pub valid_base32: bool,
    pub matches_code: Option<bool>,
}

/// A build of an API from a website.
#[derive(Debug, Clone, Default)]
pub struct CloudBuild {
    pub build_id: Option<i64>,
    pub status: String,
    pub url: Option<String>,
    pub goal: Option<String>,
    pub workflow_id: Option<i64>,
    pub error: Option<String>,
    pub next: Option<String>,
    pub message: Option<String>,
    pub created_at: Option<String>,
    pub completed_at: Option<String>,
    pub workflows: Vec<Json>,
    pub candidates: Vec<Json>,
}

/// Statuses that a build does not leave.
pub const TERMINAL_BUILD_STATUSES: [&'static str; 3] = ["succeeded", "failed", "cancelled"];

/// Whether a build does not leave a status.
pub open spec fn is_terminal_build_status(status: Seq<char>) -> bool {
    status == "succeeded"@ || status == "failed"@ || status == "cancelled"@
}

impl CloudBuild {
    /// Whether the build is over.
    pub fn is_terminal(&self) -> (r: bool)
        ensures
            r == is_terminal_build_status(self.status@),
    {
        let s: &str = self.status.as_str();
        text_eq(s, TERMINAL_BUILD_STATUSES[0]) || text_eq(s, TERMINAL_BUILD_STATUSES[1])
            || text_eq(s, TERMINAL_BUILD_STATUSES[2])
    }
}

/// What a build is to do. What is unset is not sent.
#[derive(Debug, Clone, Default)]
pub struct CloudBuildParams {
    pub url: String,
    pub goal: String,
    pub persona_id: Option<i64>,
    pub max_steps: Option<i64>,
    pub save_as: Option<String>,
    pub skip_existing: bool,
    pub skip_marketplace: bool,
}

/// `true` where a flag is set, nothing otherwise.
pub open spec fn flag_tree(set: bool) -> Option<Tree> {
    if set {
        Some(Tree::Bool(true))
    } else {
        None
    }
}

/// `true` where a flag is set, nothing otherwise.
pub(crate) fn flag_json(set: bool) -> (r: Option<Json>)
    ensures
        crate::json::opt_tree(r) == flag_tree(set),
{
    if set {
        Some(Json::Bool(true))
    } else {
        None
    }
}

/// The members of a build's request body.
pub open spec fn build_members(p: CloudBuildParams) -> Seq<(Seq<char>, Tree)> {
    seq![("url"@, Tree::Str(p.url@))] + seq![("goal"@, Tree::Str(p.goal@))] + opt_member(
        "persona_id"@,
        opt_int_tree(p.persona_id),
    ) + opt_member("max_steps"@, opt_int_tree(p.max_steps)) + opt_member(
        "save_as"@,
        text_tree(p.save_as),
    ) + opt_member("skip_existing"@, flag_tree(p.skip_existing)) + opt_member(
        "skip_marketplace"@,
        flag_tree(p.skip_marketplace),
    )
}

impl CloudBuildParams {
    /// The request body.
    pub fn to_body(&self) -> (r: Json)
        ensures
            r.tree() == Tree::Object(build_members(*self)),
    {
        broadcast use crate::json::lemma_object_tree;

        let mut m: Vec<(String, Json)> = Vec::new();
        put(&mut m, "url", Json::Str(self.url.clone()));
        assert(crate::json::member_trees(m@) == seq![("url"@, Tree::Str(self.url@))]);
        put(&mut m, "goal", Json::Str(self.goal.clone()));
        put_opt(&mut m, "persona_id", int_json(self.persona_id));
        put_opt(&mut m, "max_steps", int_json(self.max_steps));
        put_opt(&mut m, "save_as", text_json(&self.save_as));
        put_opt(&mut m, "skip_existing", flag_json(self.skip_existing));
        put_opt(&mut m, "skip_marketplace", flag_json(self.skip_marketplace));
        Json::Object(m)
    }
}

} // verus!
