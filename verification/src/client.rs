//! A client of the local daemon: how it is configured and how it finds one.

use crate::discovery::{env_value, loopback_url, Candidate};
use crate::error::{ErrorView, WritError};
use crate::json::{member_trees, opt_member, put, put_opt, Json, Tree};
use crate::request::{carrying, Method, Request};
use crate::resources::{
    Agent, Automations, Crawl, Data, Datasets, Extractors, Files, Keys, Monitors, Personas, Runs,
    Secrets, Selectors, Vault, Workflows,
};
use crate::retry::{is_default_policy, RetryPolicy};
use crate::text::{
    cat, decimal, join, joined, opt_string, opt_text, present, texts, trim_end_matches, without_trailing,
};
use crate::time::{Duration, NANOS_PER_SEC};
use vstd::prelude::*;
use vstd::utf8::encode_utf8;

verus! {

broadcast use vstd::string::group_string_axioms;

/// Bytes that an HTTP header value may hold.
pub open spec fn is_header_byte(b: u8) -> bool {
    (b >= 32 && b != 127) || b == 9
}

/// Texts that can be an HTTP header value.
pub open spec fn is_header_value(s: Seq<char>) -> bool {
    forall|i: int| 0 <= i < encode_utf8(s).len() ==> is_header_byte(#[trigger] encode_utf8(s)[i])
}

/// `reqwest::header::HeaderValue::from_str`: a text is refused exactly where it holds a
/// control byte other than the tab, or the byte 127.
#[verifier::external_body]
fn header_accepts(text: &str) -> (r: bool)
    ensures
        r == is_header_value(text@),
{
    reqwest::header::HeaderValue::from_str(text).is_ok()
}

/// Settings of a client before it is made.
#[derive(Debug, Clone)]
pub struct WritAgentBuilder {
    pub base_url: Option<String>,
    pub token: Option<String>,
    pub timeout: Option<Duration>,
    pub retry: Option<RetryPolicy>,
}

impl Default for WritAgentBuilder {
    fn default() -> (r: Self)
        ensures
            r.base_url is None,
            r.token is None,
            r.timeout is None,
            r.retry is None,
    {
        WritAgentBuilder { base_url: None, token: None, timeout: None, retry: None }
    }
}

/// A client of one daemon.
#[derive(Debug, Clone)]
pub struct WritAgent {
    /// Where the daemon is, without a slash at the end.
    pub base_url: String,
    /// The value of the `Authorization` header.
    pub authorization: String,
    /// How long one request may take.
    pub timeout: Duration,
    /// How failures are retried. Unsafe methods never are.
    pub retry: RetryPolicy,
}

/// A setting, else the environment's value unless that is blank.
pub open spec fn setting_or_env(setting: Option<Seq<char>>, env: Option<Seq<char>>) -> Option<
    Seq<char>,
> {
    match setting {
        Some(s) => Some(s),
        None => present(env),
    }
}

/// A setting, else the environment's value unless that is blank.
pub(crate) fn choose_setting(setting: &Option<String>, env: Option<&str>) -> (r: Option<String>)
    ensures
        opt_string(r) == setting_or_env(opt_string(*setting), opt_text(env)),
{
    match setting {
        Some(s) => Some(s.clone()),
        None => env_value(env),
    }
}

/// Whether a client is the one for this address, token and settings.
pub open spec fn is_assembled(
    b: WritAgentBuilder,
    base_url: Seq<char>,
    token: Seq<char>,
    a: WritAgent,
) -> bool {
    &&& a.base_url@ == without_trailing(base_url, '/')
    &&& a.authorization@ == "Bearer "@ + token
    &&& match b.timeout {
        Some(t) => a.timeout@ == t@,
        None => a.timeout@ == 30 * NANOS_PER_SEC,
    }
    &&& !a.retry.retry_unsafe_methods
    &&& match b.retry {
        Some(p) => a.retry == (RetryPolicy { retry_unsafe_methods: false, ..p }),
        None => is_default_policy(a.retry),
    }
}

/// What is said of a token that cannot be sent.
pub open spec fn bad_token_text() -> Seq<char> {
    "token contains characters invalid in an HTTP header"@
}

/// The result of making a client for this address and token.
pub open spec fn assembles(
    b: WritAgentBuilder,
    base_url: Seq<char>,
    token: Seq<char>,
    r: Result<WritAgent, WritError>,
) -> bool {
    if is_header_value("Bearer "@ + token) {
        r is Ok && is_assembled(b, base_url, token, r->Ok_0)
    } else {
        r is Err && r->Err_0@ == ErrorView::Discovery(bad_token_text())
    }
}

/// What is said where no token is known.
pub open spec fn no_token_text() -> Seq<char> {
    "no token configured — is the Writ agent running? pass .token(...) or set WRIT_TOKEN"@
}

/// What is said where no descriptor was found.
pub open spec fn no_descriptor_text() -> Seq<char> {
    "no runtime.json found under $WRIT_HOME or ~/.writ — is the Writ agent running? pass base_url/token explicitly or set WRIT_API_URL/WRIT_TOKEN"@
}

/// What is said where no candidate answered.
pub open spec fn none_live_text(sources: Seq<Seq<char>>) -> Seq<char> {
    "no live Writ agent answered the probe (stale runtime.json candidates: "@ + joined(
        sources,
        ", "@,
    ) + ") — is the Writ agent running? pass token=... or set WRIT_TOKEN"@
}

impl WritAgentBuilder {
    /// The settings with this address.
    pub fn base_url(self, url: String) -> (r: Self)
        ensures
            r == (WritAgentBuilder { base_url: Some(url), ..self }),
    {
        let mut r: WritAgentBuilder = self;
        r.base_url = Some(url);
        r
    }

    /// The settings with this token.
    pub fn token(self, token: String) -> (r: Self)
        ensures
            r == (WritAgentBuilder { token: Some(token), ..self }),
    {
        let mut r: WritAgentBuilder = self;
        r.token = Some(token);
        r
    }

    /// The settings with this limit on each request.
    pub fn timeout(self, timeout: Duration) -> (r: Self)
        ensures
            r == (WritAgentBuilder { timeout: Some(timeout), ..self }),
    {
        let mut r: WritAgentBuilder = self;
        r.timeout = Some(timeout);
        r
    }

    /// The settings with this retry policy.
    pub fn retry(self, policy: RetryPolicy) -> (r: Self)
        ensures
            r == (WritAgentBuilder { retry: Some(policy), ..self }),
    {
        let mut r: WritAgentBuilder = self;
        r.retry = Some(policy);
        r
    }

    /// Address and token as far as they are known: from the settings, else from
    /// `WRIT_API_URL` and `WRIT_TOKEN`.
    pub fn resolved(&self, env_url: Option<&str>, env_token: Option<&str>) -> (r: (
        Option<String>,
        Option<String>,
    ))
        ensures
            opt_string(r.0) == setting_or_env(opt_string(self.base_url), opt_text(env_url)),
            opt_string(r.1) == setting_or_env(opt_string(self.token), opt_text(env_token)),
    {
        (choose_setting(&self.base_url, env_url), choose_setting(&self.token, env_token))
    }

    /// Makes the client for an address and a token.
    pub fn assemble(&self, base_url: &str, token: &str) -> (r: Result<WritAgent, WritError>)
        ensures
            assembles(*self, base_url@, token@, r),
    {
        let authorization: String = cat("Bearer ", token);
        if !header_accepts(authorization.as_str()) {
            return Err(
                WritError::Discovery(
                    "token contains characters invalid in an HTTP header".to_owned(),
                ),
            );
        }
        let policy: RetryPolicy = match self.retry {
            Some(p) => p,
            None => RetryPolicy::default(),
        };
        let timeout: Duration = match self.timeout {
            Some(t) => t,
            None => Duration::from_secs(30),
        };
        Ok(
            WritAgent {
                base_url: trim_end_matches(base_url, '/').to_owned(),
                authorization,
                timeout,
                retry: policy.with_unsafe(false),
            },
        )
    }

    /// Makes the client without looking for a daemon: the token must be known, and the
    /// address is the usual local one unless another is.
    pub fn build(&self, env_url: Option<&str>, env_token: Option<&str>) -> (r: Result<
        WritAgent,
        WritError,
    >)
        ensures
            ({
                let url = setting_or_env(opt_string(self.base_url), opt_text(env_url));
                let token = setting_or_env(opt_string(self.token), opt_text(env_token));
                match token {
                    None => r is Err && r->Err_0@ == ErrorView::Discovery(no_token_text()),
                    Some(t) => assembles(
                        *self,
                        match url {
                            Some(u) => u,
                            None => "http://127.0.0.1:8131"@,
                        },
                        t,
                        r,
                    ),
                }
            }),
    {
        let (url, token): (Option<String>, Option<String>) = self.resolved(env_url, env_token);
        let token: String = match token {
            Some(t) => t,
            None => {
                return Err(
                    WritError::Discovery(
                        "no token configured — is the Writ agent running? pass .token(...) or set WRIT_TOKEN".to_owned(),
                    ),
                );
            },
        };
        match url {
            Some(u) => self.assemble(u.as_str(), token.as_str()),
            None => self.assemble("http://127.0.0.1:8131", token.as_str()),
        }
    }

    /// Starts looking for a daemon. With address and token both known there is nothing to
    /// look for, and the client comes at once.
    pub fn discover(&self, env_url: Option<&str>, env_token: Option<&str>) -> (r: Discovery)
        ensures
            ({
                let url = setting_or_env(opt_string(self.base_url), opt_text(env_url));
                let token = setting_or_env(opt_string(self.token), opt_text(env_token));
                match (url, token) {
                    (Some(u), Some(t)) => r matches Discovery::Known(made) && assembles(
                        *self,
                        u,
                        t,
                        made,
                    ),
                    _ => r matches Discovery::Search { url: u, token: t } && opt_string(u) == url
                        && opt_string(t) == token,
                }
            }),
    {
        let (url, token): (Option<String>, Option<String>) = self.resolved(env_url, env_token);
        match (url, token) {
            (Some(u), Some(t)) => Discovery::Known(self.assemble(u.as_str(), t.as_str())),
            (url, token) => Discovery::Search { url, token },
        }
    }
}

/// How looking for a daemon begins.
#[derive(Debug)]
pub enum Discovery {
    /// Nothing is to be looked for.
    Known(Result<WritAgent, WritError>),
    /// Candidates are to be probed, with the address or the token fixed where it is known.
    Search { url: Option<String>, token: Option<String> },
}

/// A probe: whether a daemon answers at an address with a token.
#[derive(Debug, Clone)]
pub struct Probe {
    pub url: String,
    pub token: String,
}

/// The address and token with which a candidate is probed: those that are known, else
/// the candidate's.
pub open spec fn probe_of(
    url: Option<Seq<char>>,
    token: Option<Seq<char>>,
    c: Candidate,
) -> (Seq<char>, Seq<char>) {
    (
        without_trailing(
            match url {
                Some(u) => u,
                None => c.base_url@,
            },
            '/',
        ),
        match token {
            Some(t) => t,
            None => c.token@,
        },
    )
}

/// The probe of a candidate.
pub fn probe_for(url: &Option<String>, token: &Option<String>, c: &Candidate) -> (r: Probe)
    ensures
        (r.url@, r.token@) == probe_of(opt_string(*url), opt_string(*token), *c),
{
    let u: &str = match url {
        Some(u) => u.as_str(),
        None => c.base_url.as_str(),
    };
    let t: String = match token {
        Some(t) => t.clone(),
        None => c.token.clone(),
    };
    Probe { url: trim_end_matches(u, '/').to_owned(), token: t }
}

/// The sources of candidates.
pub open spec fn sources(candidates: Seq<Candidate>) -> Seq<Seq<char>> {
    candidates.map_values(|c: Candidate| c.source@)
}

/// What is reported where no candidate is live: that there is none, or which were tried.
pub fn nothing_found(candidates: &Vec<Candidate>) -> (r: WritError)
    ensures
        r@ == ErrorView::Discovery(
            if candidates@.len() == 0 {
                no_descriptor_text()
            } else {
                none_live_text(sources(candidates@))
            },
        ),
{
    if candidates.len() == 0 {
        return WritError::Discovery(
            "no runtime.json found under $WRIT_HOME or ~/.writ — is the Writ agent running? pass base_url/token explicitly or set WRIT_API_URL/WRIT_TOKEN".to_owned(),
        );
    }
    let mut tried: Vec<String> = Vec::new();
    let mut i: usize = 0;
    while i < candidates.len()
        invariant
            i <= candidates.len(),
            texts(tried@) == sources(candidates@).take(i as int),
        decreases candidates.len() - i,
    {
        let source: String = candidates[i].source.clone();
        let ghost before = tried@;
        tried.push(source);
        assert(texts(tried@) == texts(before).push(source@));
        assert(texts(tried@) == sources(candidates@).take(i + 1));
        i = i + 1;
    }
    assert(texts(tried@) == sources(candidates@));
    let list: String = join(&tried, ", ");
    let mut message: String = cat(
        "no live Writ agent answered the probe (stale runtime.json candidates: ",
        list.as_str(),
    );
    message.append(") — is the Writ agent running? pass token=... or set WRIT_TOKEN");
    WritError::Discovery(message)
}

/// A search for a live daemon among candidates.
#[derive(Debug, Clone)]
pub struct Search {
    /// The address, where it is known.
    pub url: Option<String>,
    /// The token, where it is known.
    pub token: Option<String>,
    pub candidates: Vec<Candidate>,
    /// How many candidates were probed.
    pub probed: usize,
}

impl Search {
    /// A search before its first probe.
    pub fn new(url: Option<String>, token: Option<String>, candidates: Vec<Candidate>) -> (r: Search)
        ensures
            r.url == url,
            r.token == token,
            r.candidates == candidates,
            r.probed == 0,
    {
        Search { url, token, candidates, probed: 0 }
    }

    /// Whether a probe is that of the candidate with number `i`.
    pub open spec fn is_probe(self, i: int, p: Probe) -> bool {
        (p.url@, p.token@) == probe_of(
            opt_string(self.url),
            opt_string(self.token),
            self.candidates@[i],
        )
    }

    /// What asking for the next probe gives: that of the next candidate, or the error
    /// where none is left.
    pub open spec fn advanced(self, r: Result<Probe, WritError>, after: Search) -> bool {
        &&& after.url == self.url
        &&& after.token == self.token
        &&& after.candidates == self.candidates
        &&& if self.probed < self.candidates@.len() {
            &&& after.probed == self.probed + 1
            &&& r matches Ok(p) && self.is_probe(self.probed as int, p)
        } else {
            &&& after.probed == self.probed
            &&& r is Err
            &&& r->Err_0@ == ErrorView::Discovery(
                if self.candidates@.len() == 0 {
                    no_descriptor_text()
                } else {
                    none_live_text(sources(self.candidates@))
                },
            )
        }
    }

    /// The next probe, in the order of the candidates; the error where none is left.
    pub fn next_probe(&mut self) -> (r: Result<Probe, WritError>)
        ensures
            old(self).advanced(r, *final(self)),
    {
        if self.probed < self.candidates.len() {
            let p: Probe = probe_for(&self.url, &self.token, &self.candidates[self.probed]);
            self.probed = self.probed + 1;
            Ok(p)
        } else {
            Err(nothing_found(&self.candidates))
        }
    }

    /// What the answer to a probe means: a daemon was found, or the search goes on.
    pub open spec fn decided(
        self,
        probe: Probe,
        status: Option<u16>,
        r: Sought,
        after: Search,
    ) -> bool {
        if is_live(status) {
            r == Sought::Found(probe) && after == self
        } else {
            match r {
                Sought::Found(_) => false,
                Sought::Probe(p) => self.advanced(Ok(p), after),
                Sought::Nothing(e) => self.advanced(Err(e), after),
            }
        }
    }

    /// Takes the status of the answer to a probe, nothing where there was none.
    pub fn on_probe(&mut self, probe: Probe, status: Option<u16>) -> (r: Sought)
        ensures
            old(self).decided(probe, status, r, *final(self)),
    {
        if let Some(s) = status {
            if 200 <= s && s < 300 {
                return Sought::Found(probe);
            }
        }
        match self.next_probe() {
            Ok(p) => Sought::Probe(p),
            Err(e) => Sought::Nothing(e),
        }
    }
}

/// How a search stands.
#[derive(Debug)]
pub enum Sought {
    /// A daemon answered this probe.
    Found(Probe),
    /// This probe is the next one.
    Probe(Probe),
    /// No candidate is live.
    Nothing(WritError),
}

/// Whether an answer to a probe, by its status, is that of a live daemon.
pub open spec fn is_live(status: Option<u16>) -> bool {
    status matches Some(s) && 200 <= s < 300
}

/// Probes one after the other, of which only the last may have been answered by a live
/// daemon.
pub open spec fn is_search(
    states: Seq<Search>,
    probes: Seq<Probe>,
    statuses: Seq<Option<u16>>,
) -> bool {
    &&& states.len() == statuses.len() + 1
    &&& probes.len() == statuses.len() + 1
    &&& exists|start: Search| start.probed == 0 && #[trigger] start.advanced(Ok(probes[0]), states[0])
    &&& forall|i: int|
        0 <= i < statuses.len() ==> (#[trigger] states[i]).decided(
            probes[i],
            statuses[i],
            Sought::Probe(probes[i + 1]),
            states[i + 1],
        )
}

/// The first live candidate is taken: candidates are probed in their order, each once, a
/// live answer ends the search with the daemon that gave it, and all before it were dead.
pub proof fn law_the_first_live_candidate_is_taken(
    states: Seq<Search>,
    probes: Seq<Probe>,
    statuses: Seq<Option<u16>>,
    last: Option<u16>,
    r: Sought,
    after: Search,
)
    requires
        is_search(states, probes, statuses),
        states.last().decided(probes.last(), last, r, after),
    ensures
        forall|i: int|
            0 <= i < probes.len() ==> i < states[0].candidates@.len() && states[0].is_probe(
                i,
                #[trigger] probes[i],
            ),
        forall|i: int| 0 <= i < statuses.len() ==> !is_live(#[trigger] statuses[i]),
        is_live(last) ==> r == Sought::Found(probes.last()),
        r is Found ==> is_live(last),
    decreases statuses.len(),
{
    let n = statuses.len() as int;
    lemma_search_goes_in_order(states, probes, statuses, n);
    assert forall|i: int| 0 <= i < n implies !is_live(#[trigger] statuses[i]) by {
        assert(states[i].decided(probes[i], statuses[i], Sought::Probe(probes[i + 1]), states[i + 1]));
    }
}

proof fn lemma_search_goes_in_order(
    states: Seq<Search>,
    probes: Seq<Probe>,
    statuses: Seq<Option<u16>>,
    n: int,
)
    requires
        is_search(states, probes, statuses),
        0 <= n <= statuses.len(),
    ensures
        states[n].url == states[0].url,
        states[n].token == states[0].token,
        states[n].candidates == states[0].candidates,
        states[n].probed == n + 1,
        forall|i: int|
            0 <= i <= n ==> i < states[0].candidates@.len() && states[0].is_probe(
                i,
                #[trigger] probes[i],
            ),
    decreases n,
{
    if n > 0 {
        lemma_search_goes_in_order(states, probes, statuses, n - 1);
        assert(states[n - 1].decided(
            probes[n - 1],
            statuses[n - 1],
            Sought::Probe(probes[n]),
            states[n],
        ));
    }
}

/// The members of a request for a socket ticket.
pub open spec fn ticket_members(route: Seq<char>, channel: Option<Seq<char>>) -> Seq<
    (Seq<char>, Tree),
> {
    seq![("route"@, Tree::Str(route))] + opt_member(
        "channel"@,
        match channel {
            Some(c) => Some(Tree::Str(c)),
            None => None,
        },
    )
}

impl WritAgent {
    /// Settings to start from.
    pub fn builder() -> (r: WritAgentBuilder)
        ensures
            r.base_url is None,
            r.token is None,
            r.timeout is None,
            r.retry is None,
    {
        WritAgentBuilder::default()
    }

    /// Where the daemon is.
    pub fn base_url(&self) -> (r: &str)
        ensures
            r@ == self.base_url@,
    {
        self.base_url.as_str()
    }

    /// The full address of a path.
    pub fn url(&self, path: &str) -> (r: String)
        ensures
            r@ == self.base_url@ + path@,
    {
        cat(self.base_url.as_str(), path)
    }

    /// The daemon itself.
    pub fn agent(&self) -> (r: Agent)
        ensures
            r == Agent,
    {
        Agent
    }

    /// Workflows.
    pub fn workflows(&self) -> (r: Workflows)
        ensures
            r == Workflows,
    {
        Workflows
    }

    /// Runs.
    pub fn runs(&self) -> (r: Runs)
        ensures
            r == Runs,
    {
        Runs
    }

    /// Monitors.
    pub fn monitors(&self) -> (r: Monitors)
        ensures
            r == Monitors,
    {
        Monitors
    }

    /// Selectors of monitors.
    pub fn selectors(&self) -> (r: Selectors)
        ensures
            r == Selectors,
    {
        Selectors
    }

    /// Extractors of selectors.
    pub fn extractors(&self) -> (r: Extractors)
        ensures
            r == Extractors,
    {
        Extractors
    }

    /// Automations.
    pub fn automations(&self) -> (r: Automations)
        ensures
            r == Automations,
    {
        Automations
    }

    /// Personas.
    pub fn personas(&self) -> (r: Personas)
        ensures
            r == Personas,
    {
        Personas
    }

    /// Secrets.
    pub fn secrets(&self) -> (r: Secrets)
        ensures
            r == Secrets,
    {
        Secrets
    }

    /// The vault.
    pub fn vault(&self) -> (r: Vault)
        ensures
            r == Vault,
    {
        Vault
    }

    /// Stored files.
    pub fn files(&self) -> (r: Files)
        ensures
            r == Files,
    {
        Files
    }

    /// Collected data.
    pub fn data(&self) -> (r: Data)
        ensures
            r == Data,
    {
        Data
    }

    /// API keys.
    pub fn keys(&self) -> (r: Keys)
        ensures
            r == Keys,
    {
        Keys
    }

    /// Crawls.
    pub fn crawl(&self) -> (r: Crawl)
        ensures
            r == Crawl,
    {
        Crawl
    }

    /// Datasets.
    pub fn datasets(&self) -> (r: Datasets)
        ensures
            r == Datasets,
    {
        Datasets
    }

    /// Asks for a ticket to open a socket with.
    pub fn ws_ticket(&self, route: &str, channel: Option<&str>) -> (r: Request)
        ensures
            r@ == carrying(
                Method::Post,
                "/v1/ws-ticket"@,
                Tree::Object(ticket_members(route@, opt_text(channel))),
            ),
    {
        broadcast use crate::json::lemma_object_tree;

        let mut m: Vec<(String, Json)> = Vec::new();
        put(&mut m, "route", Json::text(route));
        assert(member_trees(m@) == seq![("route"@, Tree::Str(route@))]);
        let channel_json: Option<Json> = match channel {
            Some(c) => Some(Json::text(c)),
            None => None,
        };
        put_opt(&mut m, "channel", channel_json);
        Request::new(Method::Post, "/v1/ws-ticket".to_owned()).with_body(Json::Object(m))
    }
}

/// A probe asks at the address that is known, else at the candidate's, and with the token that
/// is known, else with the candidate's: what is set is never replaced by what was found.
pub proof fn law_known_settings_are_kept_while_searching(
    url: Seq<char>,
    token: Seq<char>,
    c: Candidate,
)
    requires
        url.len() == 0 || url.last() != '/',
        c.base_url@.len() == 0 || c.base_url@.last() != '/',
    ensures
        probe_of(Some(url), Some(token), c) == (url, token),
        probe_of(Some(url), None, c) == (url, c.token@),
        probe_of(None, Some(token), c) == (c.base_url@, token),
        probe_of(None, None, c) == (c.base_url@, c.token@),
{
}

/// A client presents its token as a bearer, waits thirty seconds unless another limit is set,
/// retries as it is told, and never repeats an unsafe call to the daemon.
pub proof fn law_clients_are_what_was_set(
    b: WritAgentBuilder,
    url: Seq<char>,
    token: Seq<char>,
    a: WritAgent,
)
    requires
        is_assembled(b, url, token, a),
        url.len() > 0 && url.last() != '/',
    ensures
        a.base_url@ == url,
        a.authorization@ == "Bearer "@ + token,
        b.timeout matches Some(t) ==> a.timeout@ == t@,
        b.timeout is None ==> a.timeout@ == 30_000_000_000,
        !a.retry.retry_unsafe_methods,
        b.retry matches Some(p) ==> {
            &&& a.retry.max_attempts == p.max_attempts
            &&& a.retry.base_delay == p.base_delay
            &&& a.retry.max_delay == p.max_delay
            &&& a.retry.max_retry_after == p.max_retry_after
        },
        b.retry is None ==> {
            &&& a.retry.max_attempts == 4
            &&& a.retry.base_delay@ == 250_000_000
            &&& a.retry.max_delay@ == 8_000_000_000
            &&& a.retry.max_retry_after@ == 30_000_000_000
        },
{
}

/// What is set explicitly always wins over the environment.
pub proof fn law_explicit_settings_win(setting: Seq<char>, env: Option<Seq<char>>)
    ensures
        setting_or_env(Some(setting), env) == Some(setting),
{
}

/// Only an explicit address can lead away from this machine: without one, every probe of a
/// descriptor goes to the loopback interface.
pub proof fn law_probes_are_local(port: u16, token: Option<Seq<char>>, c: Candidate)
    requires
        c.base_url@ == loopback_url(port),
    ensures
        probe_of(None, token, c).0 == loopback_url(port),
{
    crate::text::lemma_decimal(port as nat);
    let url = loopback_url(port);
    let d = decimal(port as nat);
    assert(url.last() == d.last());
    assert(d[d.len() - 1] != '/');
}

/// Stripping slashes again changes nothing, so an assembled address never ends in one.
pub proof fn law_base_url_has_no_trailing_slash(url: Seq<char>)
    ensures
        without_trailing(url, '/').len() > 0 ==> without_trailing(url, '/').last() != '/',
        without_trailing(without_trailing(url, '/'), '/') == without_trailing(url, '/'),
    decreases url.len(),
{
    if url.len() > 0 && url.last() == '/' {
        law_base_url_has_no_trailing_slash(url.drop_last());
    }
}

} // verus!
