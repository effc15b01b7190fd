//! What is sent, name by name: every option that is set goes out under its own name with its
//! own value, and nothing else does.

use crate::cloud::{keyless_members, map_members, scrape_members};
use crate::cloud_models::{
    build_members, change_query, flag_tree, ChangeListOptions, CloudAutomationListOptions,
    CloudBuildParams, CloudMonitorListOptions, KeylessCrawlOptions, MapOptions, ScrapeOptions,
};
use crate::cloud_verbs::{automation_query, monitor_query, totp_members};
use crate::client::ticket_members;
use crate::json::{
    int_tree, opt_bool_tree, opt_int_tree, opt_member, opt_texts_tree, opt_tree, text_tree,
    texts_tree, Tree,
};
use crate::models::{crawl_members, CrawlStartParams};
use crate::request::{flag_text, opt_int_text, opt_pair};
use crate::resources::{run_members, wait_query, RunOptions};
use crate::text::{decimal, int_text, opt_string};
use crate::time::{Duration, NANOS_PER_SEC};
use vstd::prelude::*;

verus! {

broadcast use vstd::string::group_string_axioms;

/// 1 where something is so, else 0.
pub open spec fn one(b: bool) -> nat {
    if b {
        1
    } else {
        0
    }
}

proof fn lemma_one_more(before: Seq<(Seq<char>, Tree)>, name: Seq<char>, value: Option<Tree>)
    ensures
        ({
            let now = before + opt_member(name, value);
            &&& now.len() == before.len() + one(value is Some)
            &&& forall|m: (Seq<char>, Tree)| before.contains(m) ==> #[trigger] now.contains(m)
            &&& value matches Some(v) ==> now.contains((name, v))
        }),
{
    let now = before + opt_member(name, value);
    assert forall|m: (Seq<char>, Tree)| before.contains(m) implies #[trigger] now.contains(m) by {
        let i = choose|i: int| 0 <= i < before.len() && before[i] == m;
        assert(now[i] == m);
    }
    if let Some(v) = value {
        assert(now[before.len() as int] == (name, v));
    }
}

proof fn lemma_one_more_pair(
    before: Seq<(Seq<char>, Seq<char>)>,
    name: Seq<char>,
    value: Option<Seq<char>>,
)
    ensures
        ({
            let now = before + opt_pair(name, value);
            &&& now.len() == before.len() + one(value is Some)
            &&& forall|m: (Seq<char>, Seq<char>)| before.contains(m) ==> #[trigger] now.contains(m)
            &&& value matches Some(v) ==> now.contains((name, v))
        }),
{
    let now = before + opt_pair(name, value);
    assert forall|m: (Seq<char>, Seq<char>)| before.contains(m) implies #[trigger] now.contains(
        m,
    ) by {
        let i = choose|i: int| 0 <= i < before.len() && before[i] == m;
        assert(now[i] == m);
    }
    if let Some(v) = value {
        assert(now[before.len() as int] == (name, v));
    }
}

/// What a table of names and values sends: the values that are there, in order.
pub open spec fn sent_members(table: Seq<(Seq<char>, Option<Tree>)>, n: int) -> Seq<
    (Seq<char>, Tree),
>
    decreases n,
{
    if n <= 0 {
        seq![]
    } else {
        sent_members(table, n - 1) + opt_member(table[n - 1].0, table[n - 1].1)
    }
}

/// How many values of a table are there.
pub open spec fn count_set(table: Seq<(Seq<char>, Option<Tree>)>, n: int) -> nat
    decreases n,
{
    if n <= 0 {
        0
    } else {
        count_set(table, n - 1) + one(table[n - 1].1 is Some)
    }
}

proof fn lemma_table(table: Seq<(Seq<char>, Option<Tree>)>, n: int)
    requires
        0 <= n <= table.len(),
    ensures
        sent_members(table, n).len() == count_set(table, n),
        forall|i: int|
            0 <= i < n ==> ((#[trigger] table[i]).1 matches Some(v) ==> sent_members(
                table,
                n,
            ).contains((table[i].0, v))),
    decreases n,
{
    if n > 0 {
        lemma_table(table, n - 1);
        lemma_one_more(sent_members(table, n - 1), table[n - 1].0, table[n - 1].1);
    }
}

proof fn lemma_crawl_table(p: CrawlStartParams, table: Seq<(Seq<char>, Option<Tree>)>)
    requires
        table == crawl_table(p),
    ensures
        crawl_members(p) == sent_members(table, 22),
{
    let m0 = seq![("url"@, Tree::Str(p.url@))];
    assert(sent_members(table, 0) == Seq::<(Seq<char>, Tree)>::empty());
    assert(sent_members(table, 1) == m0);
    let m1 = m0 + opt_member("name"@, text_tree(p.name));
    assert(sent_members(table, 2) == m1) by {
        assert(table[1] == ("name"@, text_tree(p.name)));
    }
    let m2 = m1 + opt_member("extract_mode"@, text_tree(p.extract_mode));
    assert(sent_members(table, 3) == m2) by {
        assert(table[2] == ("extract_mode"@, text_tree(p.extract_mode)));
    }
    let m3 = m2 + opt_member("extract_schema"@, opt_tree(p.extract_schema));
    assert(sent_members(table, 4) == m3) by {
        assert(table[3] == ("extract_schema"@, opt_tree(p.extract_schema)));
    }
    let m4 = m3 + opt_member("persona_id"@, opt_int_tree(p.persona_id));
    assert(sent_members(table, 5) == m4) by {
        assert(table[4] == ("persona_id"@, opt_int_tree(p.persona_id)));
    }
    let m5 = m4 + opt_member("executor"@, text_tree(p.executor));
    assert(sent_members(table, 6) == m5) by {
        assert(table[5] == ("executor"@, text_tree(p.executor)));
    }
    let m6 = m5 + opt_member("extract_prompt"@, text_tree(p.extract_prompt));
    assert(sent_members(table, 7) == m6) by {
        assert(table[6] == ("extract_prompt"@, text_tree(p.extract_prompt)));
    }
    let m7 = m6 + opt_member("render_mode"@, text_tree(p.render_mode));
    assert(sent_members(table, 8) == m7) by {
        assert(table[7] == ("render_mode"@, text_tree(p.render_mode)));
    }
    let m8 = m7 + opt_member("ocr_mode"@, text_tree(p.ocr_mode));
    assert(sent_members(table, 9) == m8) by {
        assert(table[8] == ("ocr_mode"@, text_tree(p.ocr_mode)));
    }
    let m9 = m8 + opt_member("intent"@, text_tree(p.intent));
    assert(sent_members(table, 10) == m9) by {
        assert(table[9] == ("intent"@, text_tree(p.intent)));
    }
    let m10 = m9 + opt_member("include_paths"@, opt_texts_tree(p.include_paths));
    assert(sent_members(table, 11) == m10) by {
        assert(table[10] == ("include_paths"@, opt_texts_tree(p.include_paths)));
    }
    let m11 = m10 + opt_member("exclude_paths"@, opt_texts_tree(p.exclude_paths));
    assert(sent_members(table, 12) == m11) by {
        assert(table[11] == ("exclude_paths"@, opt_texts_tree(p.exclude_paths)));
    }
    let m12 = m11 + opt_member("max_depth"@, opt_int_tree(p.max_depth));
    assert(sent_members(table, 13) == m12) by {
        assert(table[12] == ("max_depth"@, opt_int_tree(p.max_depth)));
    }
    let m13 = m12 + opt_member("page_budget"@, opt_int_tree(p.page_budget));
    assert(sent_members(table, 14) == m13) by {
        assert(table[13] == ("page_budget"@, opt_int_tree(p.page_budget)));
    }
    let m14 = m13 + opt_member("max_concurrent"@, opt_int_tree(p.max_concurrent));
    assert(sent_members(table, 15) == m14) by {
        assert(table[14] == ("max_concurrent"@, opt_int_tree(p.max_concurrent)));
    }
    let m15 = m14 + opt_member("delay_ms"@, opt_int_tree(p.delay_ms));
    assert(sent_members(table, 16) == m15) by {
        assert(table[15] == ("delay_ms"@, opt_int_tree(p.delay_ms)));
    }
    let m16 = m15 + opt_member("respect_robots"@, opt_bool_tree(p.respect_robots));
    assert(sent_members(table, 17) == m16) by {
        assert(table[16] == ("respect_robots"@, opt_bool_tree(p.respect_robots)));
    }
    let m17 = m16 + opt_member("same_domain"@, opt_bool_tree(p.same_domain));
    assert(sent_members(table, 18) == m17) by {
        assert(table[17] == ("same_domain"@, opt_bool_tree(p.same_domain)));
    }
    let m18 = m17 + opt_member("allow_subdomains"@, opt_bool_tree(p.allow_subdomains));
    assert(sent_members(table, 19) == m18) by {
        assert(table[18] == ("allow_subdomains"@, opt_bool_tree(p.allow_subdomains)));
    }
    let m19 = m18 + opt_member("shard_size"@, opt_int_tree(p.shard_size));
    assert(sent_members(table, 20) == m19) by {
        assert(table[19] == ("shard_size"@, opt_int_tree(p.shard_size)));
    }
    let m20 = m19 + opt_member("use_residential"@, opt_bool_tree(p.use_residential));
    assert(sent_members(table, 21) == m20) by {
        assert(table[20] == ("use_residential"@, opt_bool_tree(p.use_residential)));
    }
    let m21 = m20 + opt_member("speed"@, text_tree(p.speed));
    assert(sent_members(table, 22) == m21) by {
        assert(table[21] == ("speed"@, text_tree(p.speed)));
    }
}

/// The settings of a crawl by their names.
pub open spec fn crawl_table(p: CrawlStartParams) -> Seq<(Seq<char>, Option<Tree>)> {
    seq![
        ("url"@, Some(Tree::Str(p.url@))),
        ("name"@, text_tree(p.name)),
        ("extract_mode"@, text_tree(p.extract_mode)),
        ("extract_schema"@, opt_tree(p.extract_schema)),
        ("persona_id"@, opt_int_tree(p.persona_id)),
        ("executor"@, text_tree(p.executor)),
        ("extract_prompt"@, text_tree(p.extract_prompt)),
        ("render_mode"@, text_tree(p.render_mode)),
        ("ocr_mode"@, text_tree(p.ocr_mode)),
        ("intent"@, text_tree(p.intent)),
        ("include_paths"@, opt_texts_tree(p.include_paths)),
        ("exclude_paths"@, opt_texts_tree(p.exclude_paths)),
        ("max_depth"@, opt_int_tree(p.max_depth)),
        ("page_budget"@, opt_int_tree(p.page_budget)),
        ("max_concurrent"@, opt_int_tree(p.max_concurrent)),
        ("delay_ms"@, opt_int_tree(p.delay_ms)),
        ("respect_robots"@, opt_bool_tree(p.respect_robots)),
        ("same_domain"@, opt_bool_tree(p.same_domain)),
        ("allow_subdomains"@, opt_bool_tree(p.allow_subdomains)),
        ("shard_size"@, opt_int_tree(p.shard_size)),
        ("use_residential"@, opt_bool_tree(p.use_residential)),
        ("speed"@, text_tree(p.speed)),
    ]
}

/// Whether members are the settings of a crawl that are set, each under its name, and no
/// others.
pub open spec fn holds_the_settings(m: Seq<(Seq<char>, Tree)>, p: CrawlStartParams) -> bool {
    &&& m.contains(("url"@, Tree::Str(p.url@)))
    &&& p.name matches Some(v) ==> m.contains(("name"@, Tree::Str(v@)))
    &&& p.extract_mode matches Some(v) ==> m.contains(("extract_mode"@, Tree::Str(v@)))
    &&& p.extract_schema matches Some(v) ==> m.contains(("extract_schema"@, v.tree()))
    &&& p.persona_id matches Some(v) ==> m.contains(("persona_id"@, int_tree(v as int)))
    &&& p.executor matches Some(v) ==> m.contains(("executor"@, Tree::Str(v@)))
    &&& p.extract_prompt matches Some(v) ==> m.contains(("extract_prompt"@, Tree::Str(v@)))
    &&& p.render_mode matches Some(v) ==> m.contains(("render_mode"@, Tree::Str(v@)))
    &&& p.ocr_mode matches Some(v) ==> m.contains(("ocr_mode"@, Tree::Str(v@)))
    &&& p.intent matches Some(v) ==> m.contains(("intent"@, Tree::Str(v@)))
    &&& p.include_paths matches Some(v) ==> m.contains(("include_paths"@, texts_tree(v@)))
    &&& p.exclude_paths matches Some(v) ==> m.contains(("exclude_paths"@, texts_tree(v@)))
    &&& p.max_depth matches Some(v) ==> m.contains(("max_depth"@, int_tree(v as int)))
    &&& p.page_budget matches Some(v) ==> m.contains(("page_budget"@, int_tree(v as int)))
    &&& p.max_concurrent matches Some(v) ==> m.contains(("max_concurrent"@, int_tree(v as int)))
    &&& p.delay_ms matches Some(v) ==> m.contains(("delay_ms"@, int_tree(v as int)))
    &&& p.respect_robots matches Some(v) ==> m.contains(("respect_robots"@, Tree::Bool(v)))
    &&& p.same_domain matches Some(v) ==> m.contains(("same_domain"@, Tree::Bool(v)))
    &&& p.allow_subdomains matches Some(v) ==> m.contains(("allow_subdomains"@, Tree::Bool(v)))
    &&& p.shard_size matches Some(v) ==> m.contains(("shard_size"@, int_tree(v as int)))
    &&& p.use_residential matches Some(v) ==> m.contains(("use_residential"@, Tree::Bool(v)))
    &&& p.speed matches Some(v) ==> m.contains(("speed"@, Tree::Str(v@)))
    &&& m.len() == 1 + one(p.name is Some) + one(p.extract_mode is Some) + one(p.extract_schema is Some) + one(p.persona_id is Some) + one(p.executor is Some) + one(p.extract_prompt is Some) + one(p.render_mode is Some) + one(p.ocr_mode is Some) + one(p.intent is Some) + one(p.include_paths is Some) + one(p.exclude_paths is Some) + one(p.max_depth is Some) + one(p.page_budget is Some) + one(p.max_concurrent is Some) + one(p.delay_ms is Some) + one(p.respect_robots is Some) + one(p.same_domain is Some) + one(p.allow_subdomains is Some) + one(p.shard_size is Some) + one(p.use_residential is Some) + one(p.speed is Some)
}

proof fn lemma_crawl_count(p: CrawlStartParams, table: Seq<(Seq<char>, Option<Tree>)>)
    requires
        table == crawl_table(p),
    ensures
        count_set(table, 22) == 1 + one(p.name is Some) + one(p.extract_mode is Some) + one(p.extract_schema is Some) + one(p.persona_id is Some) + one(p.executor is Some) + one(p.extract_prompt is Some) + one(p.render_mode is Some) + one(p.ocr_mode is Some) + one(p.intent is Some) + one(p.include_paths is Some) + one(p.exclude_paths is Some) + one(p.max_depth is Some) + one(p.page_budget is Some) + one(p.max_concurrent is Some) + one(p.delay_ms is Some) + one(p.respect_robots is Some) + one(p.same_domain is Some) + one(p.allow_subdomains is Some) + one(p.shard_size is Some) + one(p.use_residential is Some) + one(p.speed is Some),
{
    assert(count_set(table, 0) == 0);
    assert(count_set(table, 1) == count_set(table, 0) + one(table[0].1 is Some));
    assert(count_set(table, 2) == count_set(table, 1) + one(table[1].1 is Some));
    assert(count_set(table, 3) == count_set(table, 2) + one(table[2].1 is Some));
    assert(count_set(table, 4) == count_set(table, 3) + one(table[3].1 is Some));
    assert(count_set(table, 5) == count_set(table, 4) + one(table[4].1 is Some));
    assert(count_set(table, 6) == count_set(table, 5) + one(table[5].1 is Some));
    assert(count_set(table, 7) == count_set(table, 6) + one(table[6].1 is Some));
    assert(count_set(table, 8) == count_set(table, 7) + one(table[7].1 is Some));
    assert(count_set(table, 9) == count_set(table, 8) + one(table[8].1 is Some));
    assert(count_set(table, 10) == count_set(table, 9) + one(table[9].1 is Some));
    assert(count_set(table, 11) == count_set(table, 10) + one(table[10].1 is Some));
    assert(count_set(table, 12) == count_set(table, 11) + one(table[11].1 is Some));
    assert(count_set(table, 13) == count_set(table, 12) + one(table[12].1 is Some));
    assert(count_set(table, 14) == count_set(table, 13) + one(table[13].1 is Some));
    assert(count_set(table, 15) == count_set(table, 14) + one(table[14].1 is Some));
    assert(count_set(table, 16) == count_set(table, 15) + one(table[15].1 is Some));
    assert(count_set(table, 17) == count_set(table, 16) + one(table[16].1 is Some));
    assert(count_set(table, 18) == count_set(table, 17) + one(table[17].1 is Some));
    assert(count_set(table, 19) == count_set(table, 18) + one(table[18].1 is Some));
    assert(count_set(table, 20) == count_set(table, 19) + one(table[19].1 is Some));
    assert(count_set(table, 21) == count_set(table, 20) + one(table[20].1 is Some));
    assert(count_set(table, 22) == count_set(table, 21) + one(table[21].1 is Some));
}

proof fn lemma_at(
    table: Seq<(Seq<char>, Option<Tree>)>,
    m: Seq<(Seq<char>, Tree)>,
    i: int,
    name: Seq<char>,
    value: Tree,
)
    requires
        m == sent_members(table, table.len() as int),
        0 <= i < table.len(),
        table[i] == (name, Some(value)),
    ensures
        m.contains((name, value)),
{
    lemma_table(table, table.len() as int);
}

#[verifier::spinoff_prover]
proof fn lemma_settings_a(
    p: CrawlStartParams,
    table: Seq<(Seq<char>, Option<Tree>)>,
    m: Seq<(Seq<char>, Tree)>,
)
    requires
        table == crawl_table(p),
        m == sent_members(table, 22),
    ensures
        p.name matches Some(v) ==> m.contains(("name"@, Tree::Str(v@))),
        p.extract_mode matches Some(v) ==> m.contains(("extract_mode"@, Tree::Str(v@))),
        p.extract_schema matches Some(v) ==> m.contains(("extract_schema"@, v.tree())),
        p.persona_id matches Some(v) ==> m.contains(("persona_id"@, int_tree(v as int))),
        p.executor matches Some(v) ==> m.contains(("executor"@, Tree::Str(v@))),
        p.extract_prompt matches Some(v) ==> m.contains(("extract_prompt"@, Tree::Str(v@))),
{
    assert(table.len() == 22);
    if let Some(v) = p.name {
        lemma_at(table, m, 1, "name"@, Tree::Str(v@));
    }
    if let Some(v) = p.extract_mode {
        lemma_at(table, m, 2, "extract_mode"@, Tree::Str(v@));
    }
    if let Some(v) = p.extract_schema {
        lemma_at(table, m, 3, "extract_schema"@, v.tree());
    }
    if let Some(v) = p.persona_id {
        lemma_at(table, m, 4, "persona_id"@, int_tree(v as int));
    }
    if let Some(v) = p.executor {
        lemma_at(table, m, 5, "executor"@, Tree::Str(v@));
    }
    if let Some(v) = p.extract_prompt {
        lemma_at(table, m, 6, "extract_prompt"@, Tree::Str(v@));
    }
}

#[verifier::spinoff_prover]
proof fn lemma_settings_b(
    p: CrawlStartParams,
    table: Seq<(Seq<char>, Option<Tree>)>,
    m: Seq<(Seq<char>, Tree)>,
)
    requires
        table == crawl_table(p),
        m == sent_members(table, 22),
    ensures
        p.render_mode matches Some(v) ==> m.contains(("render_mode"@, Tree::Str(v@))),
        p.ocr_mode matches Some(v) ==> m.contains(("ocr_mode"@, Tree::Str(v@))),
        p.intent matches Some(v) ==> m.contains(("intent"@, Tree::Str(v@))),
        p.include_paths matches Some(v) ==> m.contains(("include_paths"@, texts_tree(v@))),
        p.exclude_paths matches Some(v) ==> m.contains(("exclude_paths"@, texts_tree(v@))),
{
    assert(table.len() == 22);
    if let Some(v) = p.render_mode {
        lemma_at(table, m, 7, "render_mode"@, Tree::Str(v@));
    }
    if let Some(v) = p.ocr_mode {
        lemma_at(table, m, 8, "ocr_mode"@, Tree::Str(v@));
    }
    if let Some(v) = p.intent {
        lemma_at(table, m, 9, "intent"@, Tree::Str(v@));
    }
    if let Some(v) = p.include_paths {
        lemma_at(table, m, 10, "include_paths"@, texts_tree(v@));
    }
    if let Some(v) = p.exclude_paths {
        lemma_at(table, m, 11, "exclude_paths"@, texts_tree(v@));
    }
}

#[verifier::spinoff_prover]
proof fn lemma_settings_c(
    p: CrawlStartParams,
    table: Seq<(Seq<char>, Option<Tree>)>,
    m: Seq<(Seq<char>, Tree)>,
)
    requires
        table == crawl_table(p),
        m == sent_members(table, 22),
    ensures
        p.max_depth matches Some(v) ==> m.contains(("max_depth"@, int_tree(v as int))),
        p.page_budget matches Some(v) ==> m.contains(("page_budget"@, int_tree(v as int))),
        p.max_concurrent matches Some(v) ==> m.contains(("max_concurrent"@, int_tree(v as int))),
        p.delay_ms matches Some(v) ==> m.contains(("delay_ms"@, int_tree(v as int))),
        p.respect_robots matches Some(v) ==> m.contains(("respect_robots"@, Tree::Bool(v))),
{
    assert(table.len() == 22);
    if let Some(v) = p.max_depth {
        lemma_at(table, m, 12, "max_depth"@, int_tree(v as int));
    }
    if let Some(v) = p.page_budget {
        lemma_at(table, m, 13, "page_budget"@, int_tree(v as int));
    }
    if let Some(v) = p.max_concurrent {
        lemma_at(table, m, 14, "max_concurrent"@, int_tree(v as int));
    }
    if let Some(v) = p.delay_ms {
        lemma_at(table, m, 15, "delay_ms"@, int_tree(v as int));
    }
    if let Some(v) = p.respect_robots {
        lemma_at(table, m, 16, "respect_robots"@, Tree::Bool(v));
    }
}

#[verifier::spinoff_prover]
proof fn lemma_settings_d(
    p: CrawlStartParams,
    table: Seq<(Seq<char>, Option<Tree>)>,
    m: Seq<(Seq<char>, Tree)>,
)
    requires
        table == crawl_table(p),
        m == sent_members(table, 22),
    ensures
        p.same_domain matches Some(v) ==> m.contains(("same_domain"@, Tree::Bool(v))),
        p.allow_subdomains matches Some(v) ==> m.contains(("allow_subdomains"@, Tree::Bool(v))),
        p.shard_size matches Some(v) ==> m.contains(("shard_size"@, int_tree(v as int))),
        p.use_residential matches Some(v) ==> m.contains(("use_residential"@, Tree::Bool(v))),
        p.speed matches Some(v) ==> m.contains(("speed"@, Tree::Str(v@))),
{
    assert(table.len() == 22);
    if let Some(v) = p.same_domain {
        lemma_at(table, m, 17, "same_domain"@, Tree::Bool(v));
    }
    if let Some(v) = p.allow_subdomains {
        lemma_at(table, m, 18, "allow_subdomains"@, Tree::Bool(v));
    }
    if let Some(v) = p.shard_size {
        lemma_at(table, m, 19, "shard_size"@, int_tree(v as int));
    }
    if let Some(v) = p.use_residential {
        lemma_at(table, m, 20, "use_residential"@, Tree::Bool(v));
    }
    if let Some(v) = p.speed {
        lemma_at(table, m, 21, "speed"@, Tree::Str(v@));
    }
}

proof fn lemma_settings(
    p: CrawlStartParams,
    table: Seq<(Seq<char>, Option<Tree>)>,
    m: Seq<(Seq<char>, Tree)>,
)
    requires
        table == crawl_table(p),
        m == sent_members(table, 22),
    ensures
        holds_the_settings(m, p),
{
    lemma_crawl_count(p, table);
    lemma_table(table, 22);
    lemma_at(table, m, 0, "url"@, Tree::Str(p.url@));
    lemma_settings_a(p, table, m);
    lemma_settings_b(p, table, m);
    lemma_settings_c(p, table, m);
    lemma_settings_d(p, table, m);
}

/// The body of a crawl holds every setting that is set, and nothing else.
pub proof fn law_crawls_are_sent_by_name(p: CrawlStartParams, m: Seq<(Seq<char>, Tree)>)
    requires
        m == crawl_members(p),
    ensures
        m.contains(("url"@, Tree::Str(p.url@))),
        p.name matches Some(v) ==> m.contains(("name"@, Tree::Str(v@))),
        p.extract_mode matches Some(v) ==> m.contains(("extract_mode"@, Tree::Str(v@))),
        p.extract_schema matches Some(v) ==> m.contains(("extract_schema"@, v.tree())),
        p.persona_id matches Some(v) ==> m.contains(("persona_id"@, int_tree(v as int))),
        p.executor matches Some(v) ==> m.contains(("executor"@, Tree::Str(v@))),
        p.extract_prompt matches Some(v) ==> m.contains(("extract_prompt"@, Tree::Str(v@))),
        p.render_mode matches Some(v) ==> m.contains(("render_mode"@, Tree::Str(v@))),
        p.ocr_mode matches Some(v) ==> m.contains(("ocr_mode"@, Tree::Str(v@))),
        p.intent matches Some(v) ==> m.contains(("intent"@, Tree::Str(v@))),
        p.include_paths matches Some(v) ==> m.contains(("include_paths"@, texts_tree(v@))),
        p.exclude_paths matches Some(v) ==> m.contains(("exclude_paths"@, texts_tree(v@))),
        p.max_depth matches Some(v) ==> m.contains(("max_depth"@, int_tree(v as int))),
        p.page_budget matches Some(v) ==> m.contains(("page_budget"@, int_tree(v as int))),
        p.max_concurrent matches Some(v) ==> m.contains(("max_concurrent"@, int_tree(v as int))),
        p.delay_ms matches Some(v) ==> m.contains(("delay_ms"@, int_tree(v as int))),
        p.respect_robots matches Some(v) ==> m.contains(("respect_robots"@, Tree::Bool(v))),
        p.same_domain matches Some(v) ==> m.contains(("same_domain"@, Tree::Bool(v))),
        p.allow_subdomains matches Some(v) ==> m.contains(("allow_subdomains"@, Tree::Bool(v))),
        p.shard_size matches Some(v) ==> m.contains(("shard_size"@, int_tree(v as int))),
        p.use_residential matches Some(v) ==> m.contains(("use_residential"@, Tree::Bool(v))),
        p.speed matches Some(v) ==> m.contains(("speed"@, Tree::Str(v@))),
        m.len() == 1 + one(p.name is Some) + one(p.extract_mode is Some) + one(p.extract_schema is Some) + one(p.persona_id is Some) + one(p.executor is Some) + one(p.extract_prompt is Some) + one(p.render_mode is Some) + one(p.ocr_mode is Some) + one(p.intent is Some) + one(p.include_paths is Some) + one(p.exclude_paths is Some) + one(p.max_depth is Some) + one(p.page_budget is Some) + one(p.max_concurrent is Some) + one(p.delay_ms is Some) + one(p.respect_robots is Some) + one(p.same_domain is Some) + one(p.allow_subdomains is Some) + one(p.shard_size is Some) + one(p.use_residential is Some) + one(p.speed is Some),
{
    let table = crawl_table(p);
    lemma_crawl_table(p, table);
    lemma_settings(p, table, m);
}

/// The body of a run holds the inputs, the persona and the files that are set, the mark of a
/// dry run where it is one, and nothing else.
pub proof fn law_runs_are_sent_by_name(o: RunOptions, dry_run: bool)
    ensures
        ({
            let m = run_members(o, dry_run);
            &&& o.inputs matches Some(v) ==> m.contains(("inputs"@, v.tree()))
            &&& o.persona_id matches Some(v) ==> m.contains(("persona_id"@, int_tree(v as int)))
            &&& o.files matches Some(v) ==> m.contains(("files"@, v.tree()))
            &&& dry_run ==> m.contains(("dry_run"@, Tree::Bool(true)))
            &&& m.len() == 0 + one(o.inputs is Some) + one(o.persona_id is Some) + one(o.files is Some) + one(dry_run)
        }),
{
    let e = Seq::<(Seq<char>, Tree)>::empty();
    lemma_one_more(e, "inputs"@, opt_tree(o.inputs));
    let m0 = opt_member("inputs"@, opt_tree(o.inputs));
    assert(e + m0 == m0);
    lemma_one_more(m0, "persona_id"@, opt_int_tree(o.persona_id));
    let m1 = m0 + opt_member("persona_id"@, opt_int_tree(o.persona_id));
    lemma_one_more(m1, "files"@, opt_tree(o.files));
    let m2 = m1 + opt_member("files"@, opt_tree(o.files));
    lemma_one_more(m2, "dry_run"@, if dry_run {
            Some(Tree::Bool(true))
        } else {
            None
        });
    let m3 = m2 + opt_member("dry_run"@, if dry_run {
            Some(Tree::Bool(true))
        } else {
            None
        });
    assert(m3 == run_members(o, dry_run));
}

/// The body of a build holds address and goal, every setting that is set, and nothing else.
pub proof fn law_builds_are_sent_by_name(p: CloudBuildParams)
    ensures
        ({
            let m = build_members(p);
            &&& m.contains(("url"@, Tree::Str(p.url@)))
            &&& m.contains(("goal"@, Tree::Str(p.goal@)))
            &&& p.persona_id matches Some(v) ==> m.contains(("persona_id"@, int_tree(v as int)))
            &&& p.max_steps matches Some(v) ==> m.contains(("max_steps"@, int_tree(v as int)))
            &&& p.save_as matches Some(v) ==> m.contains(("save_as"@, Tree::Str(v@)))
            &&& p.skip_existing ==> m.contains(("skip_existing"@, Tree::Bool(true)))
            &&& p.skip_marketplace ==> m.contains(("skip_marketplace"@, Tree::Bool(true)))
            &&& m.len() == 2 + one(p.persona_id is Some) + one(p.max_steps is Some) + one(p.save_as is Some) + one(p.skip_existing) + one(p.skip_marketplace)
        }),
{
    let m0 = seq![("url"@, Tree::Str(p.url@))];
    assert(m0[0] == ("url"@, Tree::Str(p.url@)));
    lemma_one_more(m0, "goal"@, Some(Tree::Str(p.goal@)));
    let m1 = m0 + seq![("goal"@, Tree::Str(p.goal@))];
    assert(m1 == m0 + opt_member("goal"@, Some(Tree::Str(p.goal@))));
    lemma_one_more(m1, "persona_id"@, opt_int_tree(p.persona_id));
    let m2 = m1 + opt_member("persona_id"@, opt_int_tree(p.persona_id));
    lemma_one_more(m2, "max_steps"@, opt_int_tree(p.max_steps));
    let m3 = m2 + opt_member("max_steps"@, opt_int_tree(p.max_steps));
    lemma_one_more(m3, "save_as"@, text_tree(p.save_as));
    let m4 = m3 + opt_member("save_as"@, text_tree(p.save_as));
    lemma_one_more(m4, "skip_existing"@, flag_tree(p.skip_existing));
    let m5 = m4 + opt_member("skip_existing"@, flag_tree(p.skip_existing));
    lemma_one_more(m5, "skip_marketplace"@, flag_tree(p.skip_marketplace));
    let m6 = m5 + opt_member("skip_marketplace"@, flag_tree(p.skip_marketplace));
    assert(m6 == build_members(p));
}

/// The body of a scrape holds the address, what is set, and nothing else.
pub proof fn law_scrapes_are_sent_by_name(url: Seq<char>, o: ScrapeOptions)
    ensures
        ({
            let m = scrape_members(url, o);
            &&& m.contains(("url"@, Tree::Str(url)))
            &&& o.persona_id matches Some(v) ==> m.contains(("persona_id"@, int_tree(v as int)))
            &&& o.use_residential ==> m.contains(("use_residential"@, Tree::Bool(true)))
            &&& m.len() == 1 + one(o.persona_id is Some) + one(o.use_residential)
        }),
{
    let m0 = seq![("url"@, Tree::Str(url))];
    assert(m0[0] == ("url"@, Tree::Str(url)));
    lemma_one_more(m0, "persona_id"@, opt_int_tree(o.persona_id));
    let m1 = m0 + opt_member("persona_id"@, opt_int_tree(o.persona_id));
    lemma_one_more(m1, "use_residential"@, flag_tree(o.use_residential));
    let m2 = m1 + opt_member("use_residential"@, flag_tree(o.use_residential));
    assert(m2 == scrape_members(url, o));
}

/// The body of a keyless crawl holds the address, what is set, and nothing else.
pub proof fn law_keyless_crawls_are_sent_by_name(url: Seq<char>, o: KeylessCrawlOptions)
    ensures
        ({
            let m = keyless_members(url, o);
            &&& m.contains(("url"@, Tree::Str(url)))
            &&& o.search matches Some(v) ==> m.contains(("search"@, Tree::Str(v@)))
            &&& o.limit matches Some(v) ==> m.contains(("limit"@, int_tree(v as int)))
            &&& m.len() == 1 + one(o.search is Some) + one(o.limit is Some)
        }),
{
    let m0 = seq![("url"@, Tree::Str(url))];
    assert(m0[0] == ("url"@, Tree::Str(url)));
    lemma_one_more(m0, "search"@, text_tree(o.search));
    let m1 = m0 + opt_member("search"@, text_tree(o.search));
    lemma_one_more(m1, "limit"@, opt_int_tree(o.limit));
    let m2 = m1 + opt_member("limit"@, opt_int_tree(o.limit));
    assert(m2 == keyless_members(url, o));
}

/// The body of a map holds the address, the search words even where there are none, the limit
/// where it is set, and nothing else.
pub proof fn law_maps_are_sent_by_name(url: Seq<char>, o: MapOptions)
    ensures
        ({
            let m = map_members(url, o);
            &&& m.contains(("url"@, Tree::Str(url)))
            &&& m.contains(("search"@, Tree::Str(
                match o.search {
                    Some(s) => s@,
                    None => seq![],
                },
            )))
            &&& o.limit matches Some(v) ==> m.contains(("limit"@, int_tree(v as int)))
            &&& m.len() == 2 + one(o.limit is Some)
        }),
{
    let m0 = seq![("url"@, Tree::Str(url))];
    assert(m0[0] == ("url"@, Tree::Str(url)));
    lemma_one_more(m0, "search"@, Some(Tree::Str(
                match o.search {
                    Some(s) => s@,
                    None => seq![],
                },
            )));
    let m1 = m0 + seq![("search"@, Tree::Str(
                match o.search {
                    Some(s) => s@,
                    None => seq![],
                },
            ))];
    assert(m1 == m0 + opt_member("search"@, Some(Tree::Str(
                match o.search {
                    Some(s) => s@,
                    None => seq![],
                },
            ))));
    lemma_one_more(m1, "limit"@, opt_int_tree(o.limit));
    let m2 = m1 + opt_member("limit"@, opt_int_tree(o.limit));
    assert(m2 == map_members(url, o));
}

/// The body of a ticket request holds the route, the channel where there is one, and nothing
/// else.
pub proof fn law_tickets_are_sent_by_name(route: Seq<char>, channel: Option<Seq<char>>)
    ensures
        ({
            let m = ticket_members(route, channel);
            &&& m.contains(("route"@, Tree::Str(route)))
            &&& channel matches Some(v) ==> m.contains(("channel"@, Tree::Str(v)))
            &&& m.len() == 1 + one(channel is Some)
        }),
{
    let m0 = seq![("route"@, Tree::Str(route))];
    assert(m0[0] == ("route"@, Tree::Str(route)));
    lemma_one_more(m0, "channel"@, match channel {
            Some(c) => Some(Tree::Str(c)),
            None => None,
        });
    let m1 = m0 + opt_member("channel"@, match channel {
            Some(c) => Some(Tree::Str(c)),
            None => None,
        });
    assert(m1 == ticket_members(route, channel));
}

/// The body of a TOTP check holds the seed, the code where there is one, and nothing else.
pub proof fn law_totp_checks_are_sent_by_name(seed: Seq<char>, code: Option<Seq<char>>)
    ensures
        ({
            let m = totp_members(seed, code);
            &&& m.contains(("totp_seed"@, Tree::Str(seed)))
            &&& code matches Some(v) ==> m.contains(("code"@, Tree::Str(v)))
            &&& m.len() == 1 + one(code is Some)
        }),
{
    let m0 = seq![("totp_seed"@, Tree::Str(seed))];
    assert(m0[0] == ("totp_seed"@, Tree::Str(seed)));
    lemma_one_more(m0, "code"@, match code {
            Some(c) => Some(Tree::Str(c)),
            None => None,
        });
    let m1 = m0 + opt_member("code"@, match code {
            Some(c) => Some(Tree::Str(c)),
            None => None,
        });
    assert(m1 == totp_members(seed, code));
}

/// The query for changes holds the limit and the cursor as far as they are set: its time as
/// `since`, its id as `since_id`. A cursor that is set is never left out.
pub proof fn law_changes_are_asked_for_by_name(o: ChangeListOptions)
    ensures
        ({
            let m = change_query(o);
            &&& o.limit matches Some(v) ==> m.contains(("limit"@, int_text(v as int)))
            &&& o.since matches Some(v) ==> m.contains(("since"@, v@))
            &&& o.since_id matches Some(v) ==> m.contains(("since_id"@, int_text(v as int)))
            &&& m.len() == 0 + one(o.limit is Some) + one(o.since is Some) + one(o.since_id is Some)
        }),
{
    let e = Seq::<(Seq<char>, Seq<char>)>::empty();
    lemma_one_more_pair(e, "limit"@, opt_int_text(o.limit));
    let m0 = opt_pair("limit"@, opt_int_text(o.limit));
    assert(e + m0 == m0);
    lemma_one_more_pair(m0, "since"@, opt_string(o.since));
    let m1 = m0 + opt_pair("since"@, opt_string(o.since));
    lemma_one_more_pair(m1, "since_id"@, opt_int_text(o.since_id));
    let m2 = m1 + opt_pair("since_id"@, opt_int_text(o.since_id));
    assert(m2 == change_query(o));
}

/// The query for monitors holds what is set, and nothing else.
pub proof fn law_monitors_are_asked_for_by_name(o: CloudMonitorListOptions)
    ensures
        ({
            let m = monitor_query(o);
            &&& o.enabled_only ==> m.contains(("enabled_only"@, "true"@))
            &&& o.check_type matches Some(v) ==> m.contains(("check_type"@, v@))
            &&& o.limit matches Some(v) ==> m.contains(("limit"@, int_text(v as int)))
            &&& o.offset matches Some(v) ==> m.contains(("offset"@, int_text(v as int)))
            &&& m.len() == 0 + one(o.enabled_only) + one(o.check_type is Some) + one(o.limit is Some) + one(o.offset is Some)
        }),
{
    let e = Seq::<(Seq<char>, Seq<char>)>::empty();
    lemma_one_more_pair(e, "enabled_only"@, flag_text(o.enabled_only));
    let m0 = opt_pair("enabled_only"@, flag_text(o.enabled_only));
    assert(e + m0 == m0);
    lemma_one_more_pair(m0, "check_type"@, opt_string(o.check_type));
    let m1 = m0 + opt_pair("check_type"@, opt_string(o.check_type));
    lemma_one_more_pair(m1, "limit"@, opt_int_text(o.limit));
    let m2 = m1 + opt_pair("limit"@, opt_int_text(o.limit));
    lemma_one_more_pair(m2, "offset"@, opt_int_text(o.offset));
    let m3 = m2 + opt_pair("offset"@, opt_int_text(o.offset));
    assert(m3 == monitor_query(o));
}

/// The query for automations holds what is set, and nothing else.
pub proof fn law_automations_are_asked_for_by_name(o: CloudAutomationListOptions)
    ensures
        ({
            let m = automation_query(o);
            &&& o.enabled_only ==> m.contains(("enabled_only"@, "true"@))
            &&& o.event_type matches Some(v) ==> m.contains(("event_type"@, v@))
            &&& o.workflow_id matches Some(v) ==> m.contains(("workflow_id"@, int_text(v as int)))
            &&& m.len() == 0 + one(o.enabled_only) + one(o.event_type is Some) + one(o.workflow_id is Some)
        }),
{
    let e = Seq::<(Seq<char>, Seq<char>)>::empty();
    lemma_one_more_pair(e, "enabled_only"@, flag_text(o.enabled_only));
    let m0 = opt_pair("enabled_only"@, flag_text(o.enabled_only));
    assert(e + m0 == m0);
    lemma_one_more_pair(m0, "event_type"@, opt_string(o.event_type));
    let m1 = m0 + opt_pair("event_type"@, opt_string(o.event_type));
    lemma_one_more_pair(m1, "workflow_id"@, opt_int_text(o.workflow_id));
    let m2 = m1 + opt_pair("workflow_id"@, opt_int_text(o.workflow_id));
    assert(m2 == automation_query(o));
}

/// A run that the server waits for says so, and says for how many whole seconds where a limit
/// is set: at least one.
pub proof fn law_waiting_runs_are_asked_for_by_name(timeout: Option<Duration>)
    ensures
        wait_query(timeout).contains(("wait"@, "true"@)),
        timeout is None ==> wait_query(timeout).len() == 1,
        timeout matches Some(d) ==> wait_query(timeout).len() == 2,
        timeout matches Some(d) ==> d@ >= NANOS_PER_SEC ==> wait_query(timeout).contains(
            ("timeout"@, decimal(d@ / NANOS_PER_SEC as nat)),
        ),
        timeout matches Some(d) ==> d@ < NANOS_PER_SEC ==> wait_query(timeout).contains(
            ("timeout"@, decimal(1)),
        ),
{
    let q = wait_query(timeout);
    assert(q[0] == ("wait"@, "true"@));
    if timeout is Some {
        assert(q[1] == q[1]);
        let d = timeout->0;
        if d@ >= NANOS_PER_SEC {
            assert(d@ / NANOS_PER_SEC as nat >= 1) by (nonlinear_arith)
                requires
                    d@ >= 1_000_000_000,
                    NANOS_PER_SEC == 1_000_000_000,
            ;
        }
        assert(q.contains(q[1]));
    }
}

} // verus!
