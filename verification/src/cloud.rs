//! A client of the cloud tier: scraping and mapping without a key, everything else with
//! one.

use crate::client::{choose_setting, setting_or_env};
use crate::cloud_models::{
    flag_json, flag_tree, CloudTier, KeylessCrawlOptions, KeylessQuota, MapCounts, MapOptions,
    ScrapeOptions,
};
use crate::cloud_verbs::{CloudAutomations, CloudBuilds, CloudMonitors, CloudPersonas};
use crate::error::{code_for_status, status_code, ErrorView, WritError};
use crate::json::{
    document, int_json, member_trees, opt_int_tree, opt_member, opt_tree, parse, parse_result, put,
    put_opt, read, reading, text_json, text_tree, trees, Json, Number, Tree,
};
use crate::models::{crawl_members, CrawlStartParams};
use crate::request::{
    asking, bare, carrying, id_path, id_path_to, no_query, opt_int_text, opt_pair, pairs, path_of,
    path_to, push_int, push_pair, push_text, Method, Request, RequestView,
};
use crate::retry::{is_default_policy, is_safe, is_safe_method, RetryPolicy};
use crate::text::{
    cat, cat3, decimal, decimal_u64, opt_string, opt_text, own, present, present_value, text_eq,
    trim, trim_end_matches, trimmed, without_trailing,
};
use crate::time::{Duration, NANOS_PER_SEC};
use crate::wire::{encode_path_segment, escaped};
use vstd::prelude::*;
use vstd::utf8::encode_utf8;

verus! {

broadcast use vstd::string::group_string_axioms;

/// Where the cloud is, unless another address is set.
pub const DEFAULT_CLOUD_URL: &'static str = "https://api.usewrit.app";

/// Header that tells keyless clients apart.
pub const CLIENT_ID_HEADER: &'static str = "X-Writ-Client-Id";

/// Header in which the server hands out, and takes back, a device's token.
pub const DEVICE_TOKEN_HEADER: &'static str = "X-Writ-Device-Token";

/// Settings of a client before it is made.
#[derive(Debug, Clone)]
pub struct CloudClientBuilder {
    pub api_key: Option<String>,
    pub cloud_url: Option<String>,
    pub client_id: Option<String>,
    pub timeout: Option<Duration>,
    pub retry: Option<RetryPolicy>,
}

impl Default for CloudClientBuilder {
    fn default() -> (r: Self)
        ensures
            r.api_key is None,
            r.cloud_url is None,
            r.client_id is None,
            r.timeout is None,
            r.retry is None,
    {
        CloudClientBuilder {
            api_key: None,
            cloud_url: None,
            client_id: None,
            timeout: None,
            retry: None,
        }
    }
}

/// A client of the cloud.
#[derive(Debug, Clone)]
pub struct CloudClient {
    pub api_key: Option<String>,
    /// Where the cloud is, without a slash at the end.
    pub base: String,
    /// The client id, where one was set.
    pub client_id_override: Option<String>,
    /// How long one request may take.
    pub timeout: Duration,
    /// How failures are retried. Unsafe methods are too: each carries a key by which the
    /// server recognises a repetition.
    pub retry: RetryPolicy,
}

/// Values of environment variables, where they are set.
#[derive(Debug, Clone, Copy)]
pub struct CloudEnv<'a> {
    /// `WRIT_API_KEY`.
    pub api_key: Option<&'a str>,
    /// `WRIT_CLOUD_URL`.
    pub cloud_url: Option<&'a str>,
    /// `WRIT_CLIENT_ID`.
    pub client_id: Option<&'a str>,
}

impl CloudClientBuilder {
    /// The settings with this API key.
    pub fn api_key(self, api_key: String) -> (r: Self)
        ensures
            r == (CloudClientBuilder { api_key: Some(api_key), ..self }),
    {
        let mut r: CloudClientBuilder = self;
        r.api_key = Some(api_key);
        r
    }

    /// The settings with this address.
    pub fn cloud_url(self, cloud_url: String) -> (r: Self)
        ensures
            r == (CloudClientBuilder { cloud_url: Some(cloud_url), ..self }),
    {
        let mut r: CloudClientBuilder = self;
        r.cloud_url = Some(cloud_url);
        r
    }

    /// The settings with this client id.
    pub fn client_id(self, client_id: String) -> (r: Self)
        ensures
            r == (CloudClientBuilder { client_id: Some(client_id), ..self }),
    {
        let mut r: CloudClientBuilder = self;
        r.client_id = Some(client_id);
        r
    }

    /// The settings with this limit on each request.
    pub fn timeout(self, timeout: Duration) -> (r: Self)
        ensures
            r == (CloudClientBuilder { timeout: Some(timeout), ..self }),
    {
        let mut r: CloudClientBuilder = self;
        r.timeout = Some(timeout);
        r
    }

    /// The settings with this retry policy.
    pub fn retry(self, policy: RetryPolicy) -> (r: Self)
        ensures
            r == (CloudClientBuilder { retry: Some(policy), ..self }),
    {
        let mut r: CloudClientBuilder = self;
        r.retry = Some(policy);
        r
    }

    /// Makes the client: each setting, else the environment's value unless that is blank.
    pub fn build(&self, env: CloudEnv<'_>) -> (r: CloudClient)
        ensures
            opt_string(r.api_key) == setting_or_env(opt_string(self.api_key), opt_text(env.api_key)),
            r.base@ == without_trailing(
                match setting_or_env(opt_string(self.cloud_url), opt_text(env.cloud_url)) {
                    Some(u) => u,
                    None => DEFAULT_CLOUD_URL@,
                },
                '/',
            ),
            opt_string(r.client_id_override) == setting_or_env(
                opt_string(self.client_id),
                opt_text(env.client_id),
            ),
            match self.timeout {
                Some(t) => r.timeout@ == t@,
                None => r.timeout@ == 30 * NANOS_PER_SEC,
            },
            r.retry.retry_unsafe_methods,
            match self.retry {
                Some(p) => r.retry == (RetryPolicy { retry_unsafe_methods: true, ..p }),
                None => is_default_policy((RetryPolicy { retry_unsafe_methods: false, ..r.retry })),
            },
    {
        let base: String = match choose_setting(&self.cloud_url, env.cloud_url) {
            Some(u) => trim_end_matches(u.as_str(), '/').to_owned(),
            None => trim_end_matches(DEFAULT_CLOUD_URL, '/').to_owned(),
        };
        let policy: RetryPolicy = match self.retry {
            Some(p) => p,
            None => RetryPolicy::default(),
        };
        let timeout: Duration = match self.timeout {
            Some(t) => t,
            None => Duration::from_secs(30),
        };
        CloudClient {
            api_key: choose_setting(&self.api_key, env.api_key),
            base,
            client_id_override: choose_setting(&self.client_id, env.client_id),
            timeout,
            retry: policy.with_unsafe(true),
        }
    }
}

/// The refusal of a metered call without a key.
pub open spec fn key_required(message: Seq<char>) -> ErrorView {
    ErrorView::ApiKeyRequired {
        status: 402,
        code: "api_key_required"@,
        message,
        body: Tree::Null,
    }
}

/// The refusal of a metered call without a key.
pub fn api_key_required(message: &str) -> (r: WritError)
    ensures
        r@ == key_required(message@),
{
    WritError::ApiKeyRequired {
        status: 402,
        code: "api_key_required".to_owned(),
        message: message.to_owned(),
        body: Json::Null,
    }
}

/// What a keyless client is told about a verb.
pub open spec fn needs_key_text(what: Seq<char>) -> Seq<char> {
    what
        + " needs an API key — set api_key or WRIT_API_KEY. Keyless access covers scrape and map only."@
}

/// Whether a metered call gives its request, or without a key its refusal.
pub open spec fn guarded(
    c: CloudClient,
    refusal: Seq<char>,
    request: RequestView,
    r: Result<Request, WritError>,
) -> bool {
    if c.api_key is Some {
        r is Ok && r->Ok_0@ == request
    } else {
        r is Err && r->Err_0@ == key_required(refusal)
    }
}

/// The path of a verb that exists on both tiers.
pub open spec fn tier_path(c: CloudClient, metered: Seq<char>, keyless: Seq<char>) -> Seq<char> {
    if c.api_key is Some {
        metered
    } else {
        keyless
    }
}

/// The members of a scrape's request body.
pub open spec fn scrape_members(url: Seq<char>, o: ScrapeOptions) -> Seq<(Seq<char>, Tree)> {
    seq![("url"@, Tree::Str(url))] + opt_member("persona_id"@, opt_int_tree(o.persona_id))
        + opt_member("use_residential"@, flag_tree(o.use_residential))
}

/// The members of a map's request body. The search words are sent even where there are
/// none.
pub open spec fn map_members(url: Seq<char>, o: MapOptions) -> Seq<(Seq<char>, Tree)> {
    seq![("url"@, Tree::Str(url))] + seq![
        (
            "search"@,
            Tree::Str(
                match o.search {
                    Some(s) => s@,
                    None => seq![],
                },
            ),
        ),
    ] + opt_member("limit"@, opt_int_tree(o.limit))
}

/// The members of a keyless crawl's request body.
pub open spec fn keyless_members(url: Seq<char>, o: KeylessCrawlOptions) -> Seq<
    (Seq<char>, Tree),
> {
    seq![("url"@, Tree::Str(url))] + opt_member("search"@, text_tree(o.search)) + opt_member(
        "limit"@,
        opt_int_tree(o.limit),
    )
}

/// What is said where a crawl is asked for without a key.
pub open spec fn crawl_refusal() -> Seq<char> {
    "Whole-site crawl needs an API key — set api_key or WRIT_API_KEY. Without one, scrape, map and the bounded crawl_keyless() still work."@
}

/// What is said where a crawl's status is asked for without a key.
pub open spec fn crawl_status_refusal() -> Seq<char> {
    "Crawl status needs an API key — set api_key or WRIT_API_KEY."@
}

/// What is said where a crawl's files are asked for without a key.
pub open spec fn crawl_files_refusal() -> Seq<char> {
    "Crawl files needs an API key — set api_key or WRIT_API_KEY."@
}

/// The headers of a request: a credential for metered calls; else the client's id and,
/// once it has one, its device token. Then the body's type, and for unsafe methods the
/// key of the call.
pub open spec fn header_pairs(
    c: CloudClient,
    method: Method,
    has_body: bool,
    client_id: Seq<char>,
    device_token: Option<Seq<char>>,
    key: Seq<char>,
) -> Seq<(Seq<char>, Seq<char>)> {
    let credential = match c.api_key {
        Some(k) => seq![("Authorization"@, "Bearer "@ + k@)],
        None => seq![(CLIENT_ID_HEADER@, client_id)] + opt_pair(DEVICE_TOKEN_HEADER@, device_token),
    };
    credential + opt_pair(
        "Content-Type"@,
        if has_body {
            Some("application/json"@)
        } else {
            None
        },
    ) + opt_pair(
        "Idempotency-Key"@,
        if is_safe(method) {
            None
        } else {
            Some(key)
        },
    )
}

/// What an issued device token means for the client.
#[derive(Debug, Clone)]
pub enum Absorbed {
    /// Nothing was issued, or the client does not use one.
    Nothing,
    /// The token in use was issued again.
    Same,
    /// A new token: it is used from now on and kept for later.
    New(String),
}

impl CloudClient {
    /// Settings to start from.
    pub fn builder() -> (r: CloudClientBuilder)
        ensures
            r.api_key is None,
            r.cloud_url is None,
            r.client_id is None,
            r.timeout is None,
            r.retry is None,
    {
        CloudClientBuilder::default()
    }

    /// Where the cloud is.
    pub fn base_url(&self) -> (r: &str)
        ensures
            r@ == self.base@,
    {
        self.base.as_str()
    }

    /// The full address of a path.
    pub fn url(&self, path: &str) -> (r: String)
        ensures
            r@ == self.base@ + path@,
    {
        cat(self.base.as_str(), path)
    }

    /// The tier: metered exactly where there is a key.
    pub fn tier(&self) -> (r: CloudTier)
        ensures
            r == if self.api_key is Some {
                CloudTier::Metered
            } else {
                CloudTier::Keyless
            },
    {
        if self.api_key.is_some() {
            CloudTier::Metered
        } else {
            CloudTier::Keyless
        }
    }

    /// Scrapes a page.
    pub fn scrape(&self, url: &str) -> (r: Request)
        ensures
            r@ == carrying(
                Method::Post,
                tier_path(*self, "/api/crawl/scrape"@, "/v1/keyless/scrape"@),
                Tree::Object(
                    scrape_members(
                        url@,
                        (ScrapeOptions { persona_id: None, use_residential: false }),
                    ),
                ),
            ),
    {
        self.scrape_with(url, &ScrapeOptions::default())
    }

    /// Scrapes a page with options.
    pub fn scrape_with(&self, url: &str, opts: &ScrapeOptions) -> (r: Request)
        ensures
            r@ == carrying(
                Method::Post,
                tier_path(*self, "/api/crawl/scrape"@, "/v1/keyless/scrape"@),
                Tree::Object(scrape_members(url@, *opts)),
            ),
    {
        broadcast use crate::json::lemma_object_tree;

        let path: &str = if self.api_key.is_some() {
            "/api/crawl/scrape"
        } else {
            "/v1/keyless/scrape"
        };
        let mut m: Vec<(String, Json)> = Vec::new();
        put(&mut m, "url", Json::text(url));
        assert(member_trees(m@) == seq![("url"@, Tree::Str(url@))]);
        put_opt(&mut m, "persona_id", int_json(opts.persona_id));
        put_opt(&mut m, "use_residential", flag_json(opts.use_residential));
        Request::new(Method::Post, path.to_owned()).with_body(Json::Object(m))
    }

    /// Maps the links of a site.
    pub fn map(&self, url: &str, opts: &MapOptions) -> (r: Request)
        ensures
            r@ == carrying(
                Method::Post,
                tier_path(*self, "/api/crawl/map"@, "/v1/keyless/map"@),
                Tree::Object(map_members(url@, *opts)),
            ),
    {
        broadcast use crate::json::lemma_object_tree;

        let path: &str = if self.api_key.is_some() {
            "/api/crawl/map"
        } else {
            "/v1/keyless/map"
        };
        let search: String = match &opts.search {
            Some(s) => s.clone(),
            None => String::new(),
        };
        let mut m: Vec<(String, Json)> = Vec::new();
        put(&mut m, "url", Json::text(url));
        assert(member_trees(m@) == seq![("url"@, Tree::Str(url@))]);
        put(&mut m, "search", Json::Str(search));
        put_opt(&mut m, "limit", int_json(opts.limit));
        Request::new(Method::Post, path.to_owned()).with_body(Json::Object(m))
    }

    /// Crawls a whole site.
    pub fn crawl(&self, params: &CrawlStartParams) -> (r: Result<Request, WritError>)
        ensures
            guarded(
                *self,
                crawl_refusal(),
                carrying(Method::Post, "/api/crawl"@, Tree::Object(crawl_members(*params))),
                r,
            ),
    {
        if self.api_key.is_none() {
            return Err(
                api_key_required(
                    "Whole-site crawl needs an API key — set api_key or WRIT_API_KEY. Without one, scrape, map and the bounded crawl_keyless() still work.",
                ),
            );
        }
        Ok(Request::new(Method::Post, "/api/crawl".to_owned()).with_body(params.to_body()))
    }

    /// The state of a crawl.
    pub fn crawl_status(&self, id: i64) -> (r: Result<Request, WritError>)
        ensures
            guarded(
                *self,
                crawl_status_refusal(),
                bare(Method::Get, id_path("/api/crawl/"@, id)),
                r,
            ),
    {
        if self.api_key.is_none() {
            return Err(
                api_key_required("Crawl status needs an API key — set api_key or WRIT_API_KEY."),
            );
        }
        Ok(Request::new(Method::Get, path_of("/api/crawl/", id)))
    }

    /// The files of a crawl.
    pub fn crawl_files(&self, id: i64, limit: Option<i64>) -> (r: Result<Request, WritError>)
        ensures
            guarded(
                *self,
                crawl_files_refusal(),
                asking(
                    Method::Get,
                    id_path_to("/api/crawl/"@, id, "/files"@),
                    opt_pair("limit"@, opt_int_text(limit)),
                ),
                r,
            ),
    {
        if self.api_key.is_none() {
            return Err(
                api_key_required("Crawl files needs an API key — set api_key or WRIT_API_KEY."),
            );
        }
        let mut q: Vec<(String, String)> = no_query();
        push_int(&mut q, "limit", limit);
        assert(pairs(q@) == opt_pair("limit"@, opt_int_text(limit)));
        Ok(Request::new(Method::Get, path_to("/api/crawl/", id, "/files")).with_query(q))
    }

    /// The files of a saved crawl's runs.
    pub fn saved_crawl_files(
        &self,
        reference: &str,
        limit: Option<i64>,
        runs: Option<i64>,
    ) -> (r: Result<Request, WritError>)
        ensures
            guarded(
                *self,
                crawl_files_refusal(),
                asking(
                    Method::Get,
                    "/api/crawl/definitions/"@ + escaped(encode_utf8(reference@)) + "/files"@,
                    opt_pair("limit"@, opt_int_text(limit)) + opt_pair(
                        "runs"@,
                        opt_int_text(runs),
                    ),
                ),
                r,
            ),
    {
        if self.api_key.is_none() {
            return Err(
                api_key_required("Crawl files needs an API key — set api_key or WRIT_API_KEY."),
            );
        }
        let mut q: Vec<(String, String)> = no_query();
        push_int(&mut q, "limit", limit);
        assert(pairs(q@) == opt_pair("limit"@, opt_int_text(limit)));
        push_int(&mut q, "runs", runs);
        let segment: String = encode_path_segment(reference);
        Ok(
            Request::new(
                Method::Get,
                cat3("/api/crawl/definitions/", segment.as_str(), "/files"),
            ).with_query(q),
        )
    }

    /// Monitors.
    pub fn monitors(&self) -> (r: CloudMonitors<'_>)
        ensures
            r.c == self,
    {
        CloudMonitors { c: self }
    }

    /// Automations.
    pub fn automations(&self) -> (r: CloudAutomations<'_>)
        ensures
            r.c == self,
    {
        CloudAutomations { c: self }
    }

    /// Personas.
    pub fn personas(&self) -> (r: CloudPersonas<'_>)
        ensures
            r.c == self,
    {
        CloudPersonas { c: self }
    }

    /// Builds of APIs from websites.
    pub fn builds(&self) -> (r: CloudBuilds<'_>)
        ensures
            r.c == self,
    {
        CloudBuilds { c: self }
    }

    /// Crawls a few pages of a site; no key is needed.
    pub fn crawl_keyless(&self, url: &str, opts: &KeylessCrawlOptions) -> (r: Request)
        ensures
            r@ == carrying(
                Method::Post,
                "/v1/keyless/crawl"@,
                Tree::Object(keyless_members(url@, *opts)),
            ),
    {
        broadcast use crate::json::lemma_object_tree;

        let mut m: Vec<(String, Json)> = Vec::new();
        put(&mut m, "url", Json::text(url));
        assert(member_trees(m@) == seq![("url"@, Tree::Str(url@))]);
        put_opt(&mut m, "search", text_json(&opts.search));
        put_opt(&mut m, "limit", int_json(opts.limit));
        Request::new(Method::Post, "/v1/keyless/crawl".to_owned()).with_body(Json::Object(m))
    }

    /// What is left of the keyless allowance. A metered client has none to ask for.
    pub fn quota(&self) -> (r: Option<Request>)
        ensures
            r is None <==> self.api_key is Some,
            r matches Some(q) ==> q@ == bare(Method::Get, "/v1/keyless/quota"@),
    {
        if self.api_key.is_some() {
            return None;
        }
        Some(Request::new(Method::Get, "/v1/keyless/quota".to_owned()))
    }

    /// The headers of one call. They are made once and serve every repetition of it.
    pub fn headers(
        &self,
        method: Method,
        has_body: bool,
        client_id: &str,
        device_token: Option<&str>,
        key: &str,
    ) -> (r: Vec<(String, String)>)
        ensures
            pairs(r@) == header_pairs(
                *self,
                method,
                has_body,
                client_id@,
                opt_text(device_token),
                key@,
            ),
    {
        let mut h: Vec<(String, String)> = no_query();
        match &self.api_key {
            Some(k) => {
                push_pair(&mut h, "Authorization", cat("Bearer ", k.as_str()));
                assert(pairs(h@) == seq![("Authorization"@, "Bearer "@ + k@)]);
            },
            None => {
                push_pair(&mut h, CLIENT_ID_HEADER, client_id.to_owned());
                assert(pairs(h@) == seq![(CLIENT_ID_HEADER@, client_id@)]);
                push_text(&mut h, DEVICE_TOKEN_HEADER, device_token);
            },
        }
        let body_type: Option<&str> = if has_body {
            Some("application/json")
        } else {
            None
        };
        push_text(&mut h, "Content-Type", body_type);
        let call_key: Option<&str> = if is_safe_method(method) {
            None
        } else {
            Some(key)
        };
        push_text(&mut h, "Idempotency-Key", call_key);
        h
    }

    /// The client id in use: the one that was set, else the one kept or minted.
    pub fn client_id(&self, kept: &str) -> (r: String)
        ensures
            r@ == match self.client_id_override {
                Some(id) => id@,
                None => kept@,
            },
    {
        match &self.client_id_override {
            Some(id) => id.clone(),
            None => kept.to_owned(),
        }
    }

    /// Takes the device token that an answer of any status carries.
    pub fn absorb_device_token(&self, issued: Option<&str>, current: Option<&str>) -> (r: Absorbed)
        ensures
            match opt_text(issued) {
                Some(t) => if self.api_key is Some || t.len() == 0 {
                    r is Nothing
                } else if opt_text(current) == Some(t) {
                    r is Same
                } else {
                    r matches Absorbed::New(s) && s@ == t
                },
                None => r is Nothing,
            },
    {
        if self.api_key.is_some() {
            return Absorbed::Nothing;
        }
        match issued {
            Some(t) => {
                if t.is_empty() {
                    return Absorbed::Nothing;
                }
                if let Some(c) = current {
                    if text_eq(c, t) {
                        return Absorbed::Same;
                    }
                }
                Absorbed::New(t.to_owned())
            },
            None => Absorbed::Nothing,
        }
    }
}

/// A metered client sends its key and nothing that identifies a device; a keyless client
/// sends no key.
pub proof fn law_credentials_do_not_mix(
    c: CloudClient,
    method: Method,
    has_body: bool,
    client_id: Seq<char>,
    device_token: Option<Seq<char>>,
    key: Seq<char>,
    i: int,
)
    requires
        0 <= i < header_pairs(c, method, has_body, client_id, device_token, key).len(),
    ensures
        ({
            let name = header_pairs(c, method, has_body, client_id, device_token, key)[i].0;
            if c.api_key is Some {
                name != CLIENT_ID_HEADER@ && name != DEVICE_TOKEN_HEADER@
            } else {
                name != "Authorization"@
            }
        }),
{
    reveal_strlit("Authorization");
    reveal_strlit("X-Writ-Client-Id");
    reveal_strlit("X-Writ-Device-Token");
    reveal_strlit("Content-Type");
    reveal_strlit("Idempotency-Key");
    assert("Authorization"@[0] == 'A');
    assert("X-Writ-Client-Id"@[0] == 'X');
    assert("X-Writ-Device-Token"@[0] == 'X');
    assert("Content-Type"@[0] == 'C');
    assert("Idempotency-Key"@[0] == 'I');
}

/// A call says who makes it: a metered client by its key as a bearer, a keyless one by its id
/// and, once it has one, its device token. A body is sent as JSON.
pub proof fn law_calls_say_who_makes_them(
    c: CloudClient,
    method: Method,
    has_body: bool,
    client_id: Seq<char>,
    device_token: Option<Seq<char>>,
    key: Seq<char>,
)
    ensures
        ({
            let h = header_pairs(c, method, has_body, client_id, device_token, key);
            &&& c.api_key matches Some(k) ==> h.len() > 0 && h[0] == ("Authorization"@, "Bearer "@
                + k@)
            &&& c.api_key is None ==> h.len() > 0 && h[0] == ("X-Writ-Client-Id"@, client_id)
            &&& c.api_key is None ==> (device_token matches Some(t) ==> h.len() > 1 && h[1] == (
                "X-Writ-Device-Token"@,
                t,
            ))
            &&& has_body ==> h.contains(("Content-Type"@, "application/json"@))
            &&& (method is Get || method is Head || method is Options) <==> !h.contains(
                ("Idempotency-Key"@, key),
            )
            &&& h.len() == (if c.api_key is None && device_token is Some {
                2nat
            } else {
                1
            }) + (if has_body {
                1nat
            } else {
                0
            }) + (if method is Get || method is Head || method is Options {
                0nat
            } else {
                1
            })
        }),
{
    let h = header_pairs(c, method, has_body, client_id, device_token, key);
    let k: int = if c.api_key is None && device_token is Some {
        2
    } else {
        1
    };
    if has_body {
        assert(h[k] == ("Content-Type"@, "application/json"@));
    }
    if !is_safe(method) {
        assert(h.last() == ("Idempotency-Key"@, key));
    } else if h.contains(("Idempotency-Key"@, key)) {
        reveal_strlit("Authorization");
        reveal_strlit("X-Writ-Client-Id");
        reveal_strlit("X-Writ-Device-Token");
        reveal_strlit("Content-Type");
        reveal_strlit("Idempotency-Key");
        assert("Authorization"@[0] == 'A');
        assert("X-Writ-Client-Id"@[0] == 'X');
        assert("X-Writ-Device-Token"@[0] == 'X');
        assert("Content-Type"@[0] == 'C');
        assert("Idempotency-Key"@[0] == 'I');
        let i = choose|i: int| 0 <= i < h.len() && h[i] == ("Idempotency-Key"@, key);
        assert(h[i].0 == "Idempotency-Key"@);
    }
}

/// Every unsafe call carries its key, so that a repetition is recognised as one.
pub proof fn law_unsafe_calls_carry_their_key(
    c: CloudClient,
    method: Method,
    has_body: bool,
    client_id: Seq<char>,
    device_token: Option<Seq<char>>,
    key: Seq<char>,
)
    requires
        !is_safe(method),
    ensures
        header_pairs(c, method, has_body, client_id, device_token, key).contains(
            ("Idempotency-Key"@, key),
        ),
{
    let h = header_pairs(c, method, has_body, client_id, device_token, key);
    assert(h.last() == ("Idempotency-Key"@, key));
}

/// No header but that of the key has its name.
pub proof fn lemma_one_key_header(
    c: CloudClient,
    method: Method,
    has_body: bool,
    client_id: Seq<char>,
    device_token: Option<Seq<char>>,
    key: Seq<char>,
)
    ensures
        ({
            let h = header_pairs(c, method, has_body, client_id, device_token, key);
            forall|j: int|
                0 <= j < h.len() && (#[trigger] h[j]).0 == "Idempotency-Key"@ ==> h[j].1 == key
        }),
{
    reveal_strlit("Authorization");
    reveal_strlit("X-Writ-Client-Id");
    reveal_strlit("X-Writ-Device-Token");
    reveal_strlit("Content-Type");
    reveal_strlit("Idempotency-Key");
    assert("Authorization"@[0] == 'A');
    assert("X-Writ-Client-Id"@[0] == 'X');
    assert("X-Writ-Device-Token"@[0] == 'X');
    assert("Content-Type"@[0] == 'C');
    assert("Idempotency-Key"@[0] == 'I');
}

/// A keyless client gets no request for a metered call: it is refused before anything is
/// sent.
pub proof fn law_keyless_is_refused_before_sending(
    c: CloudClient,
    refusal: Seq<char>,
    request: RequestView,
    r: Result<Request, WritError>,
)
    requires
        c.api_key is None,
        guarded(c, refusal, request, r),
    ensures
        r is Err,
        r->Err_0@ is ApiKeyRequired,
{
}

/// The client id to use, and whether it has to be kept.
#[derive(Debug, Clone)]
pub struct ChosenId {
    pub id: String,
    pub is_new: bool,
}

/// The client id that was kept, unless it is blank; else the minted one.
pub fn choose_client_id(kept: Option<&str>, minted: &str) -> (r: ChosenId)
    ensures
        match present(opt_text(kept)) {
            Some(id) => r.id@ == id && !r.is_new,
            None => r.id@ == minted@ && r.is_new,
        },
{
    match present_value(kept) {
        Some(id) => ChosenId { id: id.to_owned(), is_new: false },
        None => ChosenId { id: minted.to_owned(), is_new: true },
    }
}

/// The device token to start with: `WRIT_DEVICE_TOKEN`, else what was kept, neither where
/// it is blank.
pub fn choose_device_token(env: Option<&str>, kept: Option<&str>) -> (r: Option<String>)
    ensures
        opt_string(r) == match present(opt_text(env)) {
            Some(t) => Some(t),
            None => present(opt_text(kept)),
        },
{
    match present_value(env) {
        Some(t) => Some(t.to_owned()),
        None => own(present_value(kept)),
    }
}

/// The object that carries an error's fields: `detail` where it is an object, else the
/// body where that is one.
pub open spec fn error_fields(body: Tree) -> Tree {
    match body.get("detail"@) {
        Some(Tree::Object(m)) => Tree::Object(m),
        _ => body,
    }
}

/// The reason in words where it stands in place of fields: a `detail` that is a string, or
/// a body that is one.
pub open spec fn bare_reason(body: Tree) -> Option<Seq<char>> {
    match body.get("detail"@) {
        Some(d) => d.as_str(),
        None => body.as_str(),
    }
}

/// The error that a cloud answer outside 2xx stands for.
pub open spec fn cloud_error_view(status: u16, raw: Seq<char>, parsed: Option<Tree>) -> ErrorView {
    let body = match parsed {
        Some(t) => t,
        None => Tree::Str(raw),
    };
    let fields = error_fields(body);
    let code = match fields.str_at("code"@) {
        Some(c) => c,
        None => status_code(status),
    };
    let message = match fields.str_at("message"@) {
        Some(m) => m,
        None => match bare_reason(body) {
            Some(m) => m,
            None => "HTTP "@ + decimal(status as nat),
        },
    };
    if status == 429 {
        ErrorView::RateLimited {
            status,
            code,
            message,
            body,
            reset_at: fields.str_at("reset_at"@),
            requests_remaining: fields.i64_at("requests_remaining"@),
            pages_remaining: fields.i64_at("pages_remaining"@),
        }
    } else if status == 402 && code == "api_key_required"@ {
        ErrorView::ApiKeyRequired { status, code, message, body }
    } else if status == 402 && fields.i64_at("limit"@) is Some {
        ErrorView::PlanLimit {
            status,
            code,
            message,
            body,
            current: match fields.i64_at("current"@) {
                Some(n) => n,
                None => 0,
            },
            limit: fields.i64_at("limit"@)->0,
            upgrade_hint: fields.str_at("upgrade_hint"@),
        }
    } else if status == 402 {
        ErrorView::InsufficientCredits { status, code, message, body }
    } else {
        ErrorView::Api { status, code, message, body }
    }
}

/// The error for a cloud answer outside 2xx whose body was read as JSON, where it could
/// be.
pub fn cloud_error_with(status: u16, raw: &str, parsed: Option<Json>) -> (r: WritError)
    ensures
        r@ == cloud_error_view(status, raw@, opt_tree(parsed)),
{
    let body: Json = match parsed {
        Some(j) => j,
        None => Json::Str(raw.to_owned()),
    };
    let detail: Option<&Json> = body.get("detail");
    let fields: &Json = match detail {
        Some(d) => if d.is_object() {
            d
        } else {
            &body
        },
        None => &body,
    };
    assert(fields.tree() == error_fields(body.tree()));
    let code: String = match fields.str_at("code") {
        Some(c) => c.to_owned(),
        None => code_for_status(status),
    };
    let reason: Option<&str> = match detail {
        Some(d) => d.as_str(),
        None => body.as_str(),
    };
    let message: String = match fields.str_at("message") {
        Some(m) => m.to_owned(),
        None => match reason {
            Some(m) => m.to_owned(),
            None => {
                let number: String = decimal_u64(status as u64);
                cat("HTTP ", number.as_str())
            },
        },
    };
    if status == 429 {
        let reset_at: Option<String> = own(fields.str_at("reset_at"));
        let requests_remaining: Option<i64> = fields.i64_at("requests_remaining");
        let pages_remaining: Option<i64> = fields.i64_at("pages_remaining");
        return WritError::RateLimited {
            status,
            code,
            message,
            body,
            reset_at,
            requests_remaining,
            pages_remaining,
        };
    }
    if status == 402 {
        if text_eq(code.as_str(), "api_key_required") {
            return WritError::ApiKeyRequired { status, code, message, body };
        }
        if let Some(limit) = fields.i64_at("limit") {
            let current: i64 = match fields.i64_at("current") {
                Some(n) => n,
                None => 0,
            };
            let upgrade_hint: Option<String> = own(fields.str_at("upgrade_hint"));
            return WritError::PlanLimit {
                status,
                code,
                message,
                body,
                current,
                limit,
                upgrade_hint,
            };
        }
        return WritError::InsufficientCredits { status, code, message, body };
    }
    WritError::Api { status, code, message, body }
}

/// The error for a cloud answer outside 2xx.
pub fn cloud_error_from(status: u16, raw: &str) -> (r: WritError)
    ensures
        r@ == cloud_error_view(status, raw@, document(raw@)),
{
    cloud_error_with(status, raw, parse(raw))
}

/// An error says what the server said, under the server's own names. The fields are those
/// of `detail` where that is an object, else those of the body; a `detail` that is a text
/// is the reason.
pub proof fn law_cloud_errors_are_read_by_name(status: u16, raw: Seq<char>, body: Tree, f: Tree)
    requires
        f == (match body.get("detail"@) {
            Some(d) => if d is Object {
                d
            } else {
                body
            },
            None => body,
        }),
    ensures
        ({
            let e = cloud_error_view(status, raw, Some(body));
            &&& e.status() == Some(status)
            &&& e.body() == Some(body)
            &&& f.str_at("code"@) matches Some(c) ==> e.code() == Some(c)
            &&& f.str_at("message"@) matches Some(m) ==> e.message() == Some(m)
            &&& f.str_at("message"@) is None ==> (body.str_at("detail"@) matches Some(m)
                ==> e.message() == Some(m))
            &&& e matches ErrorView::RateLimited {
                reset_at,
                requests_remaining,
                pages_remaining,
                ..
            } ==> {
                &&& reset_at == f.str_at("reset_at"@)
                &&& requests_remaining == f.i64_at("requests_remaining"@)
                &&& pages_remaining == f.i64_at("pages_remaining"@)
            }
            &&& e matches ErrorView::PlanLimit { current, limit, upgrade_hint, .. } ==> {
                &&& f.i64_at("limit"@) == Some(limit)
                &&& f.i64_at("current"@) matches Some(n) ==> current == n
                &&& upgrade_hint == f.str_at("upgrade_hint"@)
            }
            &&& e is RateLimited <==> status == 429
            &&& status != 402 && status != 429 ==> e is Api
        }),
        cloud_error_view(status, raw, None) == cloud_error_view(status, raw, Some(Tree::Str(raw))),
        cloud_error_view(status, raw, None).message() == Some(raw),
{
}

/// The two kinds of 402 are told apart by their structure: a plan's ceiling is reported
/// as a number, a wallet's emptiness never is. Every 429 is a rate limit.
pub proof fn law_payment_errors_split_by_structure(raw: Seq<char>, body: Tree)
    ensures
        cloud_error_view(429, raw, Some(body)) is RateLimited,
        error_fields(body).str_at("code"@) != Some("api_key_required"@) ==> (cloud_error_view(
            402,
            raw,
            Some(body),
        ) is PlanLimit <==> error_fields(body).i64_at("limit"@) is Some),
        error_fields(body).str_at("code"@) != Some("api_key_required"@) && error_fields(
            body,
        ).i64_at("limit"@) is None ==> cloud_error_view(402, raw, Some(body))
            is InsufficientCredits,
        error_fields(body).str_at("code"@) == Some("api_key_required"@) ==> cloud_error_view(
            402,
            raw,
            Some(body),
        ) is ApiKeyRequired,
{
    assert(status_code(402) != "api_key_required"@) by {
        reveal_strlit("http_");
        reveal_strlit("api_key_required");
        assert("http_"@[0] == 'h');
        assert(status_code(402)[0] == 'h');
        assert("api_key_required"@[0] == 'a');
    }
}

/// What a cloud answer comes to, given what its body reads as: an error outside 2xx, an
/// empty object for a blank body, else the document.
pub open spec fn answer_view(
    status: u16,
    text: Seq<char>,
    parsed: Result<Tree, Seq<char>>,
) -> Result<Tree, ErrorView> {
    if !(200 <= status < 300) {
        Err(
            cloud_error_view(
                status,
                text,
                match parsed {
                    Ok(t) => Some(t),
                    Err(_) => None,
                },
            ),
        )
    } else if trimmed(text).len() == 0 {
        Ok(Tree::Object(seq![]))
    } else {
        match parsed {
            Ok(t) => Ok(t),
            Err(e) => Err(ErrorView::Connection("decoding cloud response body: "@ + e)),
        }
    }
}

/// The contents or the error of an answer.
pub open spec fn answer_of(r: Result<Json, WritError>) -> Result<Tree, ErrorView> {
    match r {
        Ok(j) => Ok(j.tree()),
        Err(e) => Err(e@),
    }
}

/// What a cloud answer comes to, given what its body reads as.
pub fn answer_with(status: u16, text: &str, parsed: Result<Json, String>) -> (r: Result<
    Json,
    WritError,
>)
    ensures
        answer_of(r) == answer_view(status, text@, reading(parsed)),
{
    broadcast use crate::json::lemma_object_tree;

    if !(200 <= status && status < 300) {
        return match parsed {
            Ok(j) => Err(cloud_error_with(status, text, Some(j))),
            Err(_) => Err(cloud_error_with(status, text, None)),
        };
    }
    if trim(text).is_empty() {
        let empty: Vec<(String, Json)> = Vec::new();
        assert(member_trees(empty@) == Seq::<(Seq<char>, Tree)>::empty());
        return Ok(Json::Object(empty));
    }
    match parsed {
        Ok(j) => Ok(j),
        Err(e) => Err(WritError::Connection(cat("decoding cloud response body: ", e.as_str()))),
    }
}

/// What a cloud answer comes to.
pub fn answer(status: u16, text: &str) -> (r: Result<Json, WritError>)
    ensures
        answer_of(r) == answer_view(status, text@, parse_result(text@)),
{
    answer_with(status, text, read(text))
}

/// The error where a request got no answer.
pub fn no_answer(path: &str, reason: &str) -> (r: WritError)
    ensures
        r@ == ErrorView::Connection("cloud request to "@ + path@ + " failed: "@ + reason@),
{
    let mut m: String = cat3("cloud request to ", path, " failed: ");
    m.append(reason);
    WritError::Connection(m)
}

/// A text member, empty where there is none.
pub open spec fn str_or_empty(t: Tree, key: Seq<char>) -> Seq<char> {
    match t.str_at(key) {
        Some(s) => s,
        None => seq![],
    }
}

/// A number member, 0 where there is none.
pub open spec fn i64_or_zero(t: Tree, key: Seq<char>) -> i64 {
    match t.i64_at(key) {
        Some(n) => n,
        None => 0,
    }
}

fn str_field(raw: &Json, key: &str) -> (r: String)
    ensures
        r@ == str_or_empty(raw.tree(), key@),
{
    match raw.str_at(key) {
        Some(s) => s.to_owned(),
        None => String::new(),
    }
}

fn opt_str_field(raw: &Json, key: &str) -> (r: Option<String>)
    ensures
        opt_string(r) == raw.tree().str_at(key@),
{
    own(raw.str_at(key))
}

fn i64_field(raw: &Json, key: &str) -> (r: i64)
    ensures
        r == i64_or_zero(raw.tree(), key@),
{
    match raw.i64_at(key) {
        Some(n) => n,
        None => 0,
    }
}

/// The object that holds a quota: the member `quota`, else the answer itself.
pub open spec fn quota_tree(raw: Tree) -> Tree {
    match raw.get("quota"@) {
        Some(q) => q,
        None => raw,
    }
}

/// Whether a quota is the one that an answer reports.
pub open spec fn is_quota(q: KeylessQuota, raw: Tree) -> bool {
    let t = quota_tree(raw);
    &&& q.tier is Keyless
    &&& q.requests_remaining == i64_or_zero(t, "requests_remaining"@)
    &&& q.pages_remaining == i64_or_zero(t, "pages_remaining"@)
    &&& q.requests_per_day == i64_or_zero(t, "requests_per_day"@)
    &&& q.pages_per_day == i64_or_zero(t, "pages_per_day"@)
    &&& q.reset_at@ == str_or_empty(t, "reset_at"@)
    &&& opt_string(q.upgrade_url) == t.str_at("upgrade_url"@)
}

/// A quota is read by its names, from the member `quota` where there is one.
pub proof fn law_quotas_are_read_by_name(q: KeylessQuota, raw: Tree, held: Tree)
    requires
        is_quota(q, raw),
        held == (match raw.get("quota"@) {
            Some(inner) => inner,
            None => raw,
        }),
    ensures
        held.i64_at("requests_remaining"@) matches Some(n) ==> q.requests_remaining == n,
        held.i64_at("requests_remaining"@) is None ==> q.requests_remaining == 0,
        held.i64_at("pages_remaining"@) matches Some(n) ==> q.pages_remaining == n,
        held.i64_at("pages_remaining"@) is None ==> q.pages_remaining == 0,
        held.i64_at("requests_per_day"@) matches Some(n) ==> q.requests_per_day == n,
        held.i64_at("requests_per_day"@) is None ==> q.requests_per_day == 0,
        held.i64_at("pages_per_day"@) matches Some(n) ==> q.pages_per_day == n,
        held.i64_at("pages_per_day"@) is None ==> q.pages_per_day == 0,
        held.str_at("reset_at"@) matches Some(s) ==> q.reset_at@ == s,
        held.str_at("reset_at"@) is None ==> q.reset_at@.len() == 0,
        opt_string(q.upgrade_url) == held.str_at("upgrade_url"@),
{
}

/// Reads a quota.
pub fn normalize_quota(raw: &Json) -> (r: KeylessQuota)
    ensures
        is_quota(r, raw.tree()),
{
    let q: &Json = match raw.get("quota") {
        Some(q) => q,
        None => raw,
    };
    KeylessQuota {
        tier: CloudTier::Keyless,
        requests_remaining: i64_field(q, "requests_remaining"),
        pages_remaining: i64_field(q, "pages_remaining"),
        requests_per_day: i64_field(q, "requests_per_day"),
        pages_per_day: i64_field(q, "pages_per_day"),
        reset_at: str_field(q, "reset_at"),
        upgrade_url: opt_str_field(q, "upgrade_url"),
    }
}

/// Whether an optional quota is the one that an answer carries along.
pub open spec fn is_attached_quota(q: Option<KeylessQuota>, raw: Tree) -> bool {
    match raw.get("quota"@) {
        Some(_) => q is Some && is_quota(q->0, raw),
        None => q is None,
    }
}

fn attached_quota(raw: &Json) -> (r: Option<KeylessQuota>)
    ensures
        is_attached_quota(r, raw.tree()),
{
    match raw.get("quota") {
        Some(_) => Some(normalize_quota(raw)),
        None => None,
    }
}

/// A scraped page.
#[derive(Debug, Clone)]
pub struct ScrapeResult {
    pub url: String,
    pub title: Option<String>,
    pub format: String,
    pub markdown: String,
    /// Counters, as reported.
    pub counts: Vec<(String, Json)>,
    pub tier: CloudTier,
    pub quota: Option<KeylessQuota>,
}

/// Whether a scraped page is the one that an answer reports.
pub open spec fn is_scrape(r: ScrapeResult, raw: Tree, tier: CloudTier) -> bool {
    &&& r.url@ == str_or_empty(raw, "url"@)
    &&& opt_string(r.title) == raw.str_at("title"@)
    &&& r.format@ == if str_or_empty(raw, "format"@).len() == 0 {
        "markdown"@
    } else {
        str_or_empty(raw, "format"@)
    }
    &&& r.markdown@ == str_or_empty(raw, "markdown"@)
    &&& member_trees(r.counts@) == match raw.get("counts"@) {
        Some(Tree::Object(m)) => m,
        _ => seq![],
    }
    &&& r.tier == tier
    &&& is_attached_quota(r.quota, raw)
}

/// A scraped page is read by its names. Where nothing says otherwise its format is Markdown.
pub proof fn law_scrapes_are_read_by_name(r: ScrapeResult, raw: Tree, tier: CloudTier)
    requires
        is_scrape(r, raw, tier),
    ensures
        raw.str_at("url"@) matches Some(s) ==> r.url@ == s,
        raw.str_at("url"@) is None ==> r.url@.len() == 0,
        opt_string(r.title) == raw.str_at("title"@),
        raw.str_at("markdown"@) matches Some(s) ==> r.markdown@ == s,
        raw.str_at("markdown"@) is None ==> r.markdown@.len() == 0,
        raw.str_at("format"@) matches Some(s) ==> s.len() > 0 ==> r.format@ == s,
        raw.str_at("format"@) is None ==> r.format@ == "markdown"@,
        raw.get("counts"@) matches Some(c) ==> c is Object ==> Tree::Object(
            member_trees(r.counts@),
        ) == c,
        r.quota is Some <==> raw.get("quota"@) is Some,
        r.quota matches Some(q) ==> is_quota(q, raw),
        r.tier == tier,
{
}

fn copy_members(m: &Vec<(String, Json)>) -> (r: Vec<(String, Json)>)
    ensures
        member_trees(r@) == member_trees(m@),
{
    let mut r: Vec<(String, Json)> = Vec::new();
    let mut i: usize = 0;
    while i < m.len()
        invariant
            i <= m.len(),
            member_trees(r@) == member_trees(m@).take(i as int),
        decreases m.len() - i,
    {
        put(&mut r, m[i].0.as_str(), m[i].1.copy());
        assert(member_trees(r@) == member_trees(m@).take(i + 1));
        i = i + 1;
    }
    assert(member_trees(r@) == member_trees(m@));
    r
}

/// Reads a scraped page.
pub fn normalize_scrape(raw: &Json, tier: CloudTier) -> (r: ScrapeResult)
    ensures
        is_scrape(r, raw.tree(), tier),
{
    broadcast use crate::json::lemma_object_tree;

    let f: String = str_field(raw, "format");
    let format: String = if f.as_str().is_empty() {
        "markdown".to_owned()
    } else {
        f
    };
    let counts: Vec<(String, Json)> = match raw.get("counts") {
        Some(Json::Object(m)) => copy_members(m),
        _ => {
            let none: Vec<(String, Json)> = Vec::new();
            assert(member_trees(none@) == Seq::<(Seq<char>, Tree)>::empty());
            none
        },
    };
    ScrapeResult {
        url: str_field(raw, "url"),
        title: opt_str_field(raw, "title"),
        format,
        markdown: str_field(raw, "markdown"),
        counts,
        tier,
        quota: attached_quota(raw),
    }
}

/// A link of a map, with its rank.
#[derive(Debug, Clone)]
pub struct MapEntry {
    pub url: String,
    /// The rank as a JSON number; 0 where there is none.
    pub score: Number,
    pub title: Option<String>,
}

/// The links of a site.
#[derive(Debug, Clone)]
pub struct MapResult {
    pub url: String,
    pub host: Option<String>,
    pub urls: Vec<MapEntry>,
    pub counts: MapCounts,
    pub tier: CloudTier,
    pub quota: Option<KeylessQuota>,
}

/// Whether a link is the one that a value describes.
pub open spec fn is_entry(e: MapEntry, t: Tree) -> bool {
    &&& e.url@ == str_or_empty(t, "url"@)
    &&& e.score == match t.get("score"@) {
        Some(Tree::Number(n)) => n,
        _ => Number::PosInt(0),
    }
    &&& opt_string(e.title) == t.str_at("title"@)
}

/// The values that describe links.
pub open spec fn entry_trees(raw: Tree) -> Seq<Tree> {
    match raw.get("urls"@) {
        Some(Tree::Array(items)) => items,
        _ => seq![],
    }
}

/// Whether links are those that an answer reports.
pub open spec fn is_map(r: MapResult, raw: Tree, tier: CloudTier) -> bool {
    &&& r.url@ == str_or_empty(raw, "url"@)
    &&& opt_string(r.host) == raw.str_at("host"@)
    &&& r.urls@.len() == entry_trees(raw).len()
    &&& forall|i: int|
        0 <= i < r.urls@.len() ==> is_entry(#[trigger] r.urls@[i], entry_trees(raw)[i])
    &&& match raw.get("counts"@) {
        Some(c) => r.counts.returned == i64_or_zero(c, "returned"@) && r.counts.total
            == i64_or_zero(c, "total"@),
        None => r.counts.returned == 0 && r.counts.total == 0,
    }
    &&& r.tier == tier
    &&& is_attached_quota(r.quota, raw)
}

/// A map is read by its names: every link in its place with its own address, rank and title,
/// and the counts that were reported.
pub proof fn law_maps_are_read_by_name(r: MapResult, raw: Tree, tier: CloudTier, i: int)
    requires
        is_map(r, raw, tier),
        0 <= i < r.urls@.len(),
    ensures
        raw.get("urls"@) matches Some(Tree::Array(items)) && items.len() == r.urls@.len() && {
            &&& items[i].str_at("url"@) matches Some(s) ==> r.urls@[i].url@ == s
            &&& items[i].get("score"@) matches Some(Tree::Number(n)) ==> r.urls@[i].score == n
            &&& opt_string(r.urls@[i].title) == items[i].str_at("title"@)
        },
        raw.str_at("url"@) matches Some(s) ==> r.url@ == s,
        opt_string(r.host) == raw.str_at("host"@),
        raw.get("counts"@) matches Some(c) ==> {
            &&& c.i64_at("returned"@) matches Some(n) ==> r.counts.returned == n
            &&& c.i64_at("total"@) matches Some(n) ==> r.counts.total == n
        },
        r.quota is Some <==> raw.get("quota"@) is Some,
        r.tier == tier,
{
    assert(is_entry(r.urls@[i], entry_trees(raw)[i]));
}

/// No link of a map is lost.
pub proof fn law_maps_keep_every_link(r: MapResult, raw: Tree, tier: CloudTier)
    requires
        is_map(r, raw, tier),
    ensures
        raw.get("urls"@) matches Some(Tree::Array(items)) ==> r.urls@.len() == items.len(),
{
}

/// Reads the links of a site.
pub fn normalize_map(raw: &Json, tier: CloudTier) -> (r: MapResult)
    ensures
        is_map(r, raw.tree(), tier),
{
    broadcast use crate::json::lemma_array_tree;

    let mut urls: Vec<MapEntry> = Vec::new();
    if let Some(Json::Array(items)) = raw.get("urls") {
        let mut i: usize = 0;
        while i < items.len()
            invariant
                i <= items.len(),
                urls@.len() == i,
                entry_trees(raw.tree()) == trees(items@),
                forall|j: int|
                    0 <= j < i ==> is_entry(#[trigger] urls@[j], entry_trees(raw.tree())[j]),
            decreases items.len() - i,
        {
            let entry: &Json = &items[i];
            assert(trees(items@)[i as int] == entry.tree());
            let score: Number = match entry.get("score") {
                Some(Json::Number(n)) => *n,
                _ => Number::PosInt(0),
            };
            urls.push(
                MapEntry {
                    url: str_field(entry, "url"),
                    score,
                    title: opt_str_field(entry, "title"),
                },
            );
            i = i + 1;
        }
    }
    let counts: MapCounts = match raw.get("counts") {
        Some(c) => MapCounts { returned: i64_field(c, "returned"), total: i64_field(c, "total") },
        None => MapCounts::default(),
    };
    MapResult {
        url: str_field(raw, "url"),
        host: opt_str_field(raw, "host"),
        urls,
        counts,
        tier,
        quota: attached_quota(raw),
    }
}

} // verus!
