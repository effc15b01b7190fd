//! What is set and what is said: how settings reach a client, how waits after errors grow, and
//! how outcomes are put into words.

use crate::call::{Call, Stamp};
use crate::client::{nothing_found, WritAgent, WritAgentBuilder};
use crate::cloud::{law_calls_say_who_makes_them, CloudClient, CloudClientBuilder, CloudEnv};
use crate::cloud_models::{CloudTier, ScrapeOptions};
use crate::discovery::{env_value, is_safe_profile, Candidate};
use crate::error::{code_for_status, truncate_message, ErrorView, WritError};
use crate::files::first_non_empty;
use crate::models::{DatasetFormat, RunEvent};
use crate::request::{pairs, Method, Request};
use crate::retry::{
    cap_nanos, doublings, full_wait, is_safe_method, law_waits_are_jittered_and_capped,
    should_retry_status, Next, RetryPolicy,
};
use crate::streams::{wait_timeout, EventFeed, FeedAction};
use crate::text::{decimal, int_text, opt_string, opt_text, trimmed};
use crate::time::{Duration, MAX_NANOS};
use crate::watch::{error_wait, law_error_waits_are_bounded, one_more, WatchOptions, Watcher};
use crate::webhook::{headers_for, WebhookError};
use crate::wire::encode_path_segment;
use vstd::arithmetic::power2::pow2;
use vstd::prelude::*;

verus! {

broadcast use vstd::string::group_string_axioms;

/// A cloud client has what is set, else what the environment gives, else the usual values; a
/// blank variable is none. Its calls carry keys, so that all of them may be repeated.
pub proof fn law_cloud_clients_are_built_as_set(
    b: CloudClientBuilder,
    env: CloudEnv<'_>,
    c: CloudClient,
    kept: &str,
    id: String,
)
    requires
        call_ensures(CloudClientBuilder::build, (&b, env), c),
        call_ensures(CloudClient::client_id, (&c, kept), id),
    ensures
        b.api_key matches Some(k) ==> c.api_key is Some && c.api_key->0@ == k@,
        b.api_key is None ==> (env.api_key matches Some(k) ==> trimmed(k@).len() > 0 ==> c.api_key
            is Some && c.api_key->0@ == trimmed(k@)),
        b.api_key is None ==> (env.api_key matches Some(k) ==> trimmed(k@).len() == 0 ==> c.api_key
            is None),
        b.api_key is None && env.api_key is None ==> c.api_key is None,
        b.cloud_url matches Some(u) ==> u@.len() > 0 && u@.last() != '/' ==> c.base@ == u@,
        b.cloud_url is None && env.cloud_url is None ==> c.base@ == "https://api.usewrit.app"@,
        b.client_id matches Some(i) ==> id@ == i@,
        b.client_id is None ==> (env.client_id matches Some(i) ==> trimmed(i@).len() > 0 ==> id@
            == trimmed(i@)),
        b.client_id is None && env.client_id is None ==> id@ == kept@,
        b.timeout matches Some(t) ==> c.timeout@ == t@,
        b.timeout is None ==> c.timeout@ == 30_000_000_000,
        b.retry matches Some(p) ==> c.retry.max_attempts == p.max_attempts && c.retry.base_delay
            == p.base_delay && c.retry.max_delay == p.max_delay && c.retry.max_retry_after
            == p.max_retry_after,
        b.retry is None ==> c.retry.max_attempts == 4 && c.retry.base_delay@ == 250_000_000
            && c.retry.max_delay@ == 8_000_000_000 && c.retry.max_retry_after@ == 30_000_000_000,
        c.retry.retry_unsafe_methods,
{
    reveal_strlit("https://api.usewrit.app");
    assert("https://api.usewrit.app"@.len() == 23);
    assert("https://api.usewrit.app"@.last() == 'p');
}

/// A daemon client presents the token that it was given and keeps the retry policy, but for the
/// methods that are not safe, which it never repeats.
pub proof fn law_daemon_clients_are_assembled_as_set(
    b: WritAgentBuilder,
    base_url: &str,
    token: &str,
    r: Result<WritAgent, WritError>,
)
    requires
        call_ensures(WritAgentBuilder::assemble, (&b, base_url, token), r),
    ensures
        r matches Ok(a) ==> {
            &&& a.authorization@ == "Bearer "@ + token@
            &&& base_url@.len() > 0 && base_url@.last() != '/' ==> a.base_url@ == base_url@
            &&& b.timeout matches Some(t) ==> a.timeout@ == t@
            &&& b.retry matches Some(p) ==> a.retry.max_attempts == p.max_attempts
                && a.retry.base_delay == p.base_delay && a.retry.max_delay == p.max_delay
                && a.retry.max_retry_after == p.max_retry_after
            &&& b.retry is None ==> a.retry.max_attempts == 4 && a.retry.base_delay@ == 250_000_000
                && a.retry.max_delay@ == 8_000_000_000 && a.retry.max_retry_after@
                == 30_000_000_000
            &&& !a.retry.retry_unsafe_methods
        },
        r matches Err(e) ==> e@ is Discovery,
{
}

/// Paths are added to the base of either client.
pub proof fn law_paths_are_added_to_the_base(
    a: WritAgent,
    c: CloudClient,
    path: &str,
    of_daemon: String,
    of_cloud: String,
)
    requires
        call_ensures(WritAgent::url, (&a, path), of_daemon),
        call_ensures(CloudClient::url, (&c, path), of_cloud),
    ensures
        of_daemon@ == a.base_url@ + path@,
        of_cloud@ == c.base@ + path@,
{
}

/// A call starts as the request that it is for, at the first attempt of those that its policy
/// grants, with the headers of who makes it.
pub proof fn law_calls_begin_as_their_requests(
    c: CloudClient,
    request: Request,
    client_id: &str,
    device_token: Option<&str>,
    stamp: Stamp,
    call: Call,
)
    requires
        call_ensures(CloudClient::begin, (&c, request, client_id, device_token, stamp), call),
    ensures
        call.request == request,
        call.attempts.attempt == 1,
        call.attempts.policy == c.retry,
        call.attempts.replayable,
        c.retry.retry_unsafe_methods && c.retry.max_attempts >= 1 ==> call.attempts.limit
            == c.retry.max_attempts,
        pairs(call.headers@).len() > 0,
        c.api_key matches Some(k) ==> pairs(call.headers@)[0] == (
            "Authorization"@,
            "Bearer "@ + k@,
        ),
        c.api_key is None ==> pairs(call.headers@)[0] == ("X-Writ-Client-Id"@, client_id@),
        request.body is Some ==> pairs(call.headers@).contains(
            ("Content-Type"@, "application/json"@),
        ),
        !(request.method is Get || request.method is Head || request.method is Options) ==> pairs(
            call.headers@,
        ).contains(("Idempotency-Key"@, stamp.key())),
{
    law_calls_say_who_makes_them(
        c,
        request.method,
        request.body is Some,
        client_id@,
        opt_text(device_token),
        stamp.key(),
    );
}

/// A call that is repeated is sent as it was: an answer or a failure moves its count and nothing
/// else.
pub proof fn law_calls_are_repeated_as_they_were(
    c: &mut Call,
    status: u16,
    requested: Option<Duration>,
    jitter: u64,
    r: Next,
)
    requires
        call_ensures(Call::on_answer, (c, status, requested, jitter), r),
    ensures
        final(c).request == old(c).request,
        final(c).headers == old(c).headers,
        final(c).attempts.policy == old(c).attempts.policy,
        final(c).attempts.limit == old(c).attempts.limit,
        r is Finish ==> final(c).attempts.attempt == old(c).attempts.attempt,
{
}

/// Which requests and answers are repeated at all, and how long before: at least half of the
/// full wait, never more than the policy's longest.
pub proof fn law_only_what_may_pass_is_repeated(
    p: RetryPolicy,
    method: Method,
    status: u16,
    attempt: u32,
    jitter: u64,
    safe: bool,
    passing: bool,
    attempts: u32,
    wait: Duration,
)
    requires
        call_ensures(is_safe_method, (method,), safe),
        call_ensures(should_retry_status, (status,), passing),
        call_ensures(RetryPolicy::attempts_for, (&p, method), attempts),
        call_ensures(RetryPolicy::backoff_with, (&p, attempt, jitter), wait),
    ensures
        safe <==> method is Get || method is Head || method is Options,
        status < 400 || status > 504 ==> !passing,
        passing && status < 500 ==> status == 408 || status == 425 || status == 429,
        status == 408 || status == 425 || status == 429 ==> passing,
        500 <= status <= 504 ==> (passing <==> status != 501),
        attempts >= 1,
        (safe || p.retry_unsafe_methods) && p.max_attempts >= 1 ==> attempts == p.max_attempts,
        !safe && !p.retry_unsafe_methods ==> attempts == 1,
        wait@ <= full_wait(p, attempt) <= cap_nanos(p),
        full_wait(p, attempt) < 0x1_0000_0000_0000_0000
            ==> full_wait(p, attempt) / 2 <= wait@,
{
    law_waits_are_jittered_and_capped(p, attempt, jitter);
}

/// Waits after errors start at the interval and double until they are ten times as long.
pub proof fn law_error_waits_double(
    interval: Duration,
    failures: u32,
    first: Duration,
    one: Duration,
    next: Duration,
)
    requires
        interval@ * 10 <= MAX_NANOS,
        1 <= failures < u32::MAX,
        call_ensures(error_wait, (interval, 1), first),
        call_ensures(error_wait, (interval, failures), one),
        call_ensures(error_wait, (interval, (failures + 1) as u32), next),
    ensures
        first@ == interval@,
        one@ * 2 <= interval@ * 10 ==> next@ == one@ * 2,
        one@ * 2 > interval@ * 10 ==> next@ == interval@ * 10,
{
    let a = doublings(failures, 10);
    let b = doublings((failures + 1) as u32, 10);
    let i = interval@;
    vstd::arithmetic::power2::lemma2_to64();
    law_error_waits_are_bounded(i, failures, (failures + 1) as u32);
    if b == a + 1 {
        vstd::arithmetic::power2::lemma_pow2_unfold(b);
        let (k, m) = (pow2(a), pow2(b));
        assert(i * m == 2 * (i * k)) by (nonlinear_arith)
            requires
                m == 2 * k,
        ;
    }
    assert(i * pow2(0) == i);
    assert(i * pow2(10) == i * 1024);
    if a >= 4 && a < 10 {
        vstd::arithmetic::power2::lemma_pow2_strictly_increases(3, a);
    }
}

/// A new watcher has what was set, has queued nothing, and starts at the head unless it is told
/// where to resume.
pub proof fn law_watchers_start_as_set(opts: WatchOptions, w: Watcher)
    requires
        call_ensures(Watcher::new, (&opts,), w),
    ensures
        w.interval == opts.interval,
        w.replay == opts.replay_history,
        w.stop_on_error == opts.stop_on_error,
        opts.page_size >= 1 ==> w.page_size == opts.page_size,
        w.page_size >= 1,
        opt_string(w.since) == opt_string(opts.since),
        w.since_id == opts.since_id,
        w.buffered@.len() == 0,
        w.failures == 0,
        opts.since is None ==> !w.bootstrapped,
        opts.since is Some ==> w.bootstrapped,
        !w.done && !w.resting,
{
}

/// A head that cannot be read is asked for again after a wait, or ends a watcher that stops on
/// errors; nothing is lost.
pub proof fn law_a_lost_head_is_asked_for_again(w: &mut Watcher, r: Option<Duration>)
    requires
        call_ensures(Watcher::on_head_error, (w,), r),
    ensures
        !final(w).bootstrapped,
        final(w).buffered@ == old(w).buffered@,
        old(w).stop_on_error ==> r is None && final(w).done,
        !old(w).stop_on_error ==> r is Some && final(w).done == old(w).done,
        !old(w).stop_on_error && old(w).interval@ <= MAX_NANOS ==> old(w).interval@ <= r->0@
            <= old(w).interval@ * 10,
        opt_string(final(w).since) == opt_string(old(w).since),
        final(w).since_id == old(w).since_id,
{
    if !old(w).stop_on_error && old(w).interval@ <= MAX_NANOS {
        let n = one_more(old(w).failures);
        law_error_waits_are_bounded(old(w).interval@, n, n);
    }
}

/// Events are handed out first come, first served; the terminal one is the last; and only a feed
/// with nothing left to hand out reads on or ends.
pub proof fn law_feeds_hand_out_what_came(f: &mut EventFeed, r: FeedAction, first: RunEvent)
    requires
        call_ensures(EventFeed::step, (f,), r),
        old(f).pending@.len() > 0 ==> first == old(f).pending@[0],
    ensures
        old(f).pending@.len() > 0 ==> r == FeedAction::Deliver(first),
        old(f).pending@.len() > 0 && first@.is_terminal() ==> final(f).done
            && final(f).pending@.len() == 0,
        old(f).pending@.len() > 0 && !first@.is_terminal() ==> final(f).pending@.len()
            == old(f).pending@.len() - 1 && seq![first] + final(f).pending@ == old(f).pending@,
        old(f).pending@.len() == 0 ==> (r is End <==> old(f).done) && (r is Read
            <==> !old(f).done),
{
    if old(f).pending@.len() > 0 && !first@.is_terminal() {
        assert(seq![first] + old(f).pending@.drop_first() == old(f).pending@);
    }
}

/// Codes of statuses: the server's faults share one, and a status without a code is named by its
/// number.
pub proof fn law_statuses_have_their_codes(status: u16, r: String)
    requires
        call_ensures(code_for_status, (status,), r),
    ensures
        status == 400 ==> r@ == "bad_request"@,
        status == 401 ==> r@ == "unauthorized"@,
        status == 403 ==> r@ == "forbidden"@,
        status == 404 ==> r@ == "not_found"@,
        status == 409 ==> r@ == "conflict"@,
        status == 422 ==> r@ == "unprocessable"@,
        status == 429 ==> r@ == "rate_limited"@,
        status >= 500 ==> r@ == "internal"@,
        status < 400 || status == 402 || 405 <= status <= 408 || 410 <= status <= 421 || 423
            <= status <= 428 || 430 <= status <= 499 ==> r@ == "http_"@ + decimal(status as nat),
{
}

/// Long texts are cut after five hundred characters and say so; others stay as they are.
pub proof fn law_long_texts_are_cut(text: &str, r: String)
    requires
        call_ensures(truncate_message, (text,), r),
    ensures
        text@.len() <= 500 ==> r@ == text@,
        text@.len() > 500 ==> r@.len() == 501 && r@.last() == '…' && (forall|i: int|
            0 <= i < 500 ==> r@[i] == text@[i]),
{
}

/// Errors are put into words that hold their status, code and message, or what they are about.
pub proof fn law_errors_are_put_into_words(e: WritError, r: String)
    requires
        call_ensures(WritError::message, (&e,), r),
    ensures
        e matches WritError::Api { status, code, message, .. } ==> r@ == "writ api error "@
            + decimal(status as nat) + " ["@ + code@ + "]: "@ + message@,
        e matches WritError::RateLimited { code, message, .. } ==> r@ == "writ rate limited"@
            + " ["@ + code@ + "]: "@ + message@,
        e matches WritError::ApiKeyRequired { code, message, .. } ==> r@
            == "writ api key required"@ + " ["@ + code@ + "]: "@ + message@,
        e matches WritError::InsufficientCredits { code, message, .. } ==> r@
            == "writ insufficient credits"@ + " ["@ + code@ + "]: "@ + message@,
        e matches WritError::PlanLimit { code, message, .. } ==> r@ == "writ plan limit"@ + " ["@
            + code@ + "]: "@ + message@,
        e matches WritError::Connection(m) ==> r@ == "writ connection error: "@ + m@,
        e matches WritError::Discovery(m) ==> r@ == "writ discovery error: "@ + m@,
{
}

/// A wait that ran out says which run goes on, and for how many seconds it was waited for.
pub proof fn law_lost_waits_say_which_run(run_id: i64, secs: nat, limit: Duration, e: WritError)
    requires
        limit@ == secs * 1_000_000_000,
        call_ensures(wait_timeout, (run_id, limit), e),
    ensures
        e@ == ErrorView::Connection(
            "run_and_wait: run "@ + int_text(run_id as int) + " not terminal after "@ + decimal(
                secs,
            ) + "s — the run was NOT cancelled and continues on the daemon"@,
        ),
{
}

/// A refused delivery is put into words, the drift before the tolerance.
pub proof fn law_refusals_are_put_into_words(e: WebhookError, r: String)
    requires
        call_ensures(WebhookError::message, (&e,), r),
    ensures
        e matches WebhookError::Stale { drift_secs, tolerance_secs } ==> r@
            == "writ: webhook timestamp is "@ + decimal(drift_secs as nat)
            + "s away from now (tolerance "@ + decimal(tolerance_secs as nat)
            + "s) — treat it as a replay"@,
        e matches WebhookError::NoSignature(m) ==> r@ == "writ: "@ + m@,
        e matches WebhookError::BadTimestamp(h) ==> r@ == "writ: "@ + h@
            + " is missing or malformed"@,
        e is NoSecret ==> r@ == "writ: webhook secret is empty"@,
{
}

/// A signed request has its time in one header and its tag in the other.
pub proof fn law_signatures_have_their_headers(
    now: u64,
    tag: Vec<u8>,
    h: Vec<(&'static str, String)>,
)
    requires
        call_ensures(headers_for, (now, &tag), h),
    ensures
        h@.len() == 2,
        h@[0].0@ == "X-Writ-Timestamp"@ && h@[0].1@ == decimal(now as nat),
        h@[1].0@ == "X-Writ-Signature"@,
{
}

/// Tiers and formats are written as they are called.
pub proof fn law_names_are_written_out(t: CloudTier, f: DatasetFormat, tier: &str, format: &str)
    requires
        call_ensures(CloudTier::as_str, (&t,), tier),
        call_ensures(DatasetFormat::as_str, (f,), format),
    ensures
        t is Keyless ==> tier@ == "keyless"@,
        t is Metered ==> tier@ == "metered"@,
        f is Json ==> format@ == "json"@,
        f is Csv ==> format@ == "csv"@,
        f is Markdown ==> format@ == "markdown"@,
        f is Html ==> format@ == "html"@,
{
}

/// A profile's name is short, plain, and not that of the daemon's own directory.
pub proof fn law_profiles_are_plain_names(p: &str, r: bool, i: int)
    requires
        call_ensures(is_safe_profile, (p,), r),
        0 <= i < p@.len(),
    ensures
        r ==> p@.len() <= 128 && p@ != "local"@,
        r ==> p@[i] != '/' && p@[i] != '\\' && p@[i] != '.' && p@[i] != ' ',
        p@[i] == '/' || p@[i] == '.' ==> !r,
        p@.len() == 1 && ('a' <= p@[0] <= 'z' || 'A' <= p@[0] <= 'Z' || '0' <= p@[0] <= '9'
            || p@[0] == '_' || p@[0] == '-') ==> r,
{
    reveal_strlit("local");
    assert("local"@.len() == 5);
}

/// A variable counts by what it holds between its blanks.
pub proof fn law_blank_variables_are_unset(raw: &str, r: Option<String>, none: Option<String>)
    requires
        call_ensures(env_value, (Some(raw),), r),
        call_ensures(env_value, (None::<&str>,), none),
    ensures
        r is Some <==> trimmed(raw@).len() > 0,
        r matches Some(s) ==> s@ == trimmed(raw@),
        none is None,
{
}

/// Of several texts the first that is there and not empty is taken.
pub proof fn law_the_first_text_is_taken(
    a: Option<&str>,
    b: Option<&str>,
    c: Option<&str>,
    vals: [Option<&str>; 3],
    r: Option<String>,
)
    requires
        vals@[0] == a && vals@[1] == b && vals@[2] == c,
        call_ensures(first_non_empty, (vals,), r),
    ensures
        a matches Some(s) ==> s@.len() > 0 ==> opt_string(r) == Some(s@),
        a is None ==> (b matches Some(s) ==> s@.len() > 0 ==> opt_string(r) == Some(s@)),
        a is None && b is None ==> (c matches Some(s) ==> s@.len() > 0 ==> opt_string(r) == Some(
            s@,
        )),
        r matches Some(s) ==> s@.len() > 0,
        r is Some ==> opt_string(r) == opt_text(a) || opt_string(r) == opt_text(b) || opt_string(r)
            == opt_text(c),
{
}

/// A search that finds no daemon ends in a discovery error.
pub proof fn law_searches_end_in_a_discovery_error(found: Vec<Candidate>, e: WritError)
    requires
        call_ensures(nothing_found, (&found,), e),
    ensures
        e@ is Discovery,
{
}

/// A page is scraped without options as with the usual ones, and the files of a saved crawl lie
/// under the segment of its name.
pub proof fn law_usual_calls_are_short(
    c: CloudClient,
    url: &str,
    o: ScrapeOptions,
    plain: Request,
    full: Request,
    name: &str,
    segment: String,
    limit: Option<i64>,
    runs: Option<i64>,
    saved: Result<Request, WritError>,
)
    requires
        o.persona_id is None && !o.use_residential,
        call_ensures(CloudClient::scrape, (&c, url), plain),
        call_ensures(CloudClient::scrape_with, (&c, url, &o), full),
        call_ensures(encode_path_segment, (name,), segment),
        call_ensures(CloudClient::saved_crawl_files, (&c, name, limit, runs), saved),
    ensures
        plain@ == full@,
        saved is Ok <==> c.api_key is Some,
        saved matches Err(e) ==> e@ is ApiKeyRequired,
        saved matches Ok(q) ==> q@.method is Get && q@.body is None && q@.path
            == "/api/crawl/definitions/"@ + segment@ + "/files"@,
        saved matches Ok(q) ==> (limit matches Some(n) ==> runs is None ==> q@.query == seq![
            ("limit"@, int_text(n as int)),
        ]),
        saved matches Ok(q) ==> (runs matches Some(n) ==> limit is None ==> q@.query == seq![
            ("runs"@, int_text(n as int)),
        ]),
        saved matches Ok(q) ==> (limit is None && runs is None ==> q@.query.len() == 0),
        saved matches Ok(q) ==> (limit is Some && runs is Some ==> q@.query == seq![
            ("limit"@, int_text(limit->0 as int)),
            ("runs"@, int_text(runs->0 as int)),
        ]),
{
}

} // verus!
