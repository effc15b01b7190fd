//! Finding a running daemon.
//!
//! A daemon leaves a descriptor file with its port and token behind. Descriptors are
//! looked for under `$WRIT_HOME`, then under `~/.writ`: the active profile's, the base
//! one, and those of the other profiles. Whatever a descriptor says, only the loopback
//! address is ever contacted.

use crate::text::{
    cat, chars_of, decimal, decimal_u64, has_prefix, opt_string, opt_text, own, present,
    present_value, text_eq, texts, trim, trimmed,
};
use vstd::prelude::*;

verus! {

broadcast use vstd::string::group_string_axioms;

/// How many entries of the profile directory are looked at.
pub const PROFILE_SCAN_CAP: usize = 32;

/// Characters of a profile id.
pub open spec fn is_profile_char(c: char) -> bool {
    ||| 'a' <= c && c <= 'z'
    ||| 'A' <= c && c <= 'Z'
    ||| '0' <= c && c <= '9'
    ||| c == '_'
    ||| c == '-'
}

/// Profile ids: 1 to 128 letters, digits, underscores and dashes, but not `local`.
pub open spec fn is_profile(p: Seq<char>) -> bool {
    &&& 0 < p.len() <= 128
    &&& p != "local"@
    &&& forall|i: int| 0 <= i < p.len() ==> is_profile_char(#[trigger] p[i])
}

/// Whether a text is a profile id.
pub fn is_safe_profile(p: &str) -> (r: bool)
    ensures
        r == is_profile(p@),
{
    let v: Vec<char> = chars_of(p);
    if v.len() == 0 || v.len() > 128 || text_eq(p, "local") {
        return false;
    }
    let mut i: usize = 0;
    while i < v.len()
        invariant
            i <= v.len(),
            v@ == p@,
            forall|j: int| 0 <= j < i ==> is_profile_char(#[trigger] p@[j]),
        decreases v.len() - i,
    {
        let c: char = v[i];
        let ok: bool = ('a' <= c && c <= 'z') || ('A' <= c && c <= 'Z') || ('0' <= c && c <= '9')
            || c == '_' || c == '-';
        if !ok {
            assert(!is_profile_char(p@[i as int]));
            return false;
        }
        i = i + 1;
    }
    true
}

/// A profile id names one directory and leads nowhere else: it has no separator and no
/// dot.
pub proof fn law_profiles_stay_in_place(p: Seq<char>)
    requires
        is_profile(p),
    ensures
        !p.contains('/'),
        !p.contains('\\'),
        !p.contains('.'),
        !p.contains(':'),
        !p.contains('\0'),
{
    assert forall|c: char| p.contains(c) implies is_profile_char(c) by {
        let i = choose|i: int| 0 <= i < p.len() && p[i] == c;
        assert(is_profile_char(p[i]));
    }
}

/// The value of an environment variable, unless it is blank.
pub fn env_value(raw: Option<&str>) -> (r: Option<String>)
    ensures
        opt_string(r) == present(opt_text(raw)),
{
    own(present_value(raw))
}

/// An entry of the profile directory.
#[derive(Debug, Clone)]
pub struct ProfileEntry {
    pub name: String,
    pub is_dir: bool,
}

/// A path as its components, from the root down.
pub type PathParts = Vec<String>;

/// The components of a path.
pub open spec fn parts(p: Option<PathParts>) -> Option<Seq<Seq<char>>> {
    match p {
        Some(v) => Some(texts(v@)),
        None => None,
    }
}

/// The descriptor in a directory.
pub open spec fn descriptor_in(dir: Seq<Seq<char>>) -> Seq<Seq<char>> {
    dir.push("runtime.json"@)
}

/// The descriptor in the directory of a profile.
pub open spec fn profile_descriptor(home: Seq<Seq<char>>, name: Seq<char>) -> Seq<Seq<char>> {
    descriptor_in(home.push(".writ"@).push("profiles"@).push(name))
}

/// The descriptors of the directories among the first `n` entries.
pub open spec fn scanned(home: Seq<Seq<char>>, entries: Seq<ProfileEntry>, n: int) -> Seq<
    Seq<Seq<char>>,
>
    decreases n,
{
    if n <= 0 || n > entries.len() {
        seq![]
    } else if entries[n - 1].is_dir {
        scanned(home, entries, n - 1).push(profile_descriptor(home, entries[n - 1].name@))
    } else {
        scanned(home, entries, n - 1)
    }
}

/// How many entries are looked at.
pub open spec fn scan_count(entries: Seq<ProfileEntry>) -> int {
    if entries.len() <= PROFILE_SCAN_CAP {
        entries.len() as int
    } else {
        PROFILE_SCAN_CAP as int
    }
}

/// Every path to try, in order: `$WRIT_HOME`, the active profile, the base directory, the
/// other profiles.
pub open spec fn all_paths(
    writ_home: Option<Seq<Seq<char>>>,
    home: Option<Seq<Seq<char>>>,
    active_profile: Option<Seq<char>>,
    entries: Seq<ProfileEntry>,
) -> Seq<Seq<Seq<char>>> {
    let first = match writ_home {
        Some(dir) => seq![descriptor_in(dir)],
        None => seq![],
    };
    match home {
        Some(h) => {
            let active = match active_profile {
                Some(p) => if is_profile(trimmed(p)) {
                    seq![profile_descriptor(h, trimmed(p))]
                } else {
                    seq![]
                },
                None => seq![],
            };
            first + active + seq![descriptor_in(h.push(".writ"@))] + scanned(
                h,
                entries,
                scan_count(entries),
            )
        },
        None => first,
    }
}

/// The paths without those that came before.
pub open spec fn first_occurrences(paths: Seq<Seq<Seq<char>>>) -> Seq<Seq<Seq<char>>>
    decreases paths.len(),
{
    if paths.len() == 0 {
        seq![]
    } else {
        let before = first_occurrences(paths.drop_last());
        if before.contains(paths.last()) {
            before
        } else {
            before.push(paths.last())
        }
    }
}

/// The components of each path.
pub open spec fn path_views(v: Seq<PathParts>) -> Seq<Seq<Seq<char>>> {
    v.map_values(|p: PathParts| texts(p@))
}

fn copy_parts(p: &PathParts) -> (r: PathParts)
    ensures
        texts(r@) == texts(p@),
{
    let mut r: PathParts = Vec::new();
    let mut i: usize = 0;
    while i < p.len()
        invariant
            i <= p.len(),
            texts(r@) == texts(p@).take(i as int),
        decreases p.len() - i,
    {
        let part: String = p[i].clone();
        let ghost before = r@;
        r.push(part);
        assert(texts(r@) == texts(before).push(part@));
        assert(texts(r@) == texts(p@).take(i + 1));
        i = i + 1;
    }
    assert(texts(r@) == texts(p@));
    r
}

fn child(p: &PathParts, name: &str) -> (r: PathParts)
    ensures
        texts(r@) == texts(p@).push(name@),
{
    let mut r: PathParts = copy_parts(p);
    let ghost before = r@;
    r.push(name.to_owned());
    assert(texts(r@) == texts(before).push(name@));
    r
}

fn same_parts(a: &PathParts, b: &PathParts) -> (r: bool)
    ensures
        r == (texts(a@) == texts(b@)),
{
    if a.len() != b.len() {
        assert(texts(a@).len() != texts(b@).len());
        return false;
    }
    let mut i: usize = 0;
    while i < a.len()
        invariant
            i <= a.len(),
            a.len() == b.len(),
            forall|j: int| 0 <= j < i ==> a@[j]@ == b@[j]@,
        decreases a.len() - i,
    {
        if !text_eq(a[i].as_str(), b[i].as_str()) {
            assert(texts(a@)[i as int] != texts(b@)[i as int]);
            return false;
        }
        i = i + 1;
    }
    assert(texts(a@) == texts(b@));
    true
}

fn push_new(paths: &mut Vec<PathParts>, p: PathParts)
    ensures
        path_views(final(paths)@) == if path_views(old(paths)@).contains(texts(p@)) {
            path_views(old(paths)@)
        } else {
            path_views(old(paths)@).push(texts(p@))
        },
{
    let mut i: usize = 0;
    while i < paths.len()
        invariant
            i <= paths.len(),
            paths@ == old(paths)@,
            forall|j: int| 0 <= j < i ==> #[trigger] path_views(paths@)[j] != texts(p@),
        decreases paths.len() - i,
    {
        assert(path_views(paths@)[i as int] == texts(paths@[i as int]@));
        if same_parts(&paths[i], &p) {
            return;
        }
        i = i + 1;
    }
    paths.push(p);
    assert(path_views(paths@) == path_views(old(paths)@).push(texts(p@)));
}

/// One more path to try.
fn try_path(paths: &mut Vec<PathParts>, p: PathParts, Ghost(tried): Ghost<Seq<Seq<Seq<char>>>>)
    requires
        path_views(old(paths)@) == first_occurrences(tried),
    ensures
        path_views(final(paths)@) == first_occurrences(tried.push(texts(p@))),
{
    proof {
        assert(tried.push(texts(p@)).drop_last() == tried);
    }
    push_new(paths, p);
}

/// The descriptor paths to try, in order and each once.
///
/// `writ_home` and `home` are the two directories where they are set, `active_profile` is
/// what the active-profile file says, and `entries` are the entries of the profile
/// directory.
pub fn candidate_paths(
    writ_home: Option<PathParts>,
    home: Option<PathParts>,
    active_profile: Option<&str>,
    entries: &Vec<ProfileEntry>,
) -> (r: Vec<PathParts>)
    ensures
        path_views(r@) == first_occurrences(
            all_paths(parts(writ_home), parts(home), opt_text(active_profile), entries@),
        ),
{
    let mut paths: Vec<PathParts> = Vec::new();
    let ghost mut tried: Seq<Seq<Seq<char>>> = seq![];
    assert(path_views(paths@) == first_occurrences(tried));
    if let Some(dir) = &writ_home {
        try_path(&mut paths, child(dir, "runtime.json"), Ghost(tried));
        proof {
            tried = tried.push(descriptor_in(texts(dir@)));
        }
    }
    let ghost first = match parts(writ_home) {
        Some(dir) => seq![descriptor_in(dir)],
        None => seq![],
    };
    assert(tried == first);
    if let Some(h) = &home {
        let base: PathParts = child(h, ".writ");
        let profiles: PathParts = child(&base, "profiles");
        let ghost mut active: Seq<Seq<Seq<char>>> = seq![];
        if let Some(raw) = active_profile {
            let p: &str = trim(raw);
            if is_safe_profile(p) {
                let dir: PathParts = child(&profiles, p);
                try_path(&mut paths, child(&dir, "runtime.json"), Ghost(tried));
                proof {
                    active = seq![profile_descriptor(texts(h@), p@)];
                    tried = tried.push(profile_descriptor(texts(h@), p@));
                    assert(tried == first + active);
                }
            }
        }
        assert(tried == first + active);
        try_path(&mut paths, child(&base, "runtime.json"), Ghost(tried));
        let ghost fixed = first + active + seq![descriptor_in(texts(h@).push(".writ"@))];
        proof {
            tried = tried.push(descriptor_in(texts(base@)));
            assert(tried == fixed);
            assert(fixed + Seq::<Seq<Seq<char>>>::empty() == fixed);
        }
        let count: usize = if entries.len() <= PROFILE_SCAN_CAP {
            entries.len()
        } else {
            PROFILE_SCAN_CAP
        };
        let mut i: usize = 0;
        while i < count
            invariant
                i <= count <= entries.len(),
                texts(profiles@) == texts(h@).push(".writ"@).push("profiles"@),
                tried == fixed + scanned(texts(h@), entries@, i as int),
                path_views(paths@) == first_occurrences(tried),
            decreases count - i,
        {
            if entries[i].is_dir {
                let dir: PathParts = child(&profiles, entries[i].name.as_str());
                try_path(&mut paths, child(&dir, "runtime.json"), Ghost(tried));
                proof {
                    let one = profile_descriptor(texts(h@), entries@[i as int].name@);
                    let before = scanned(texts(h@), entries@, i as int);
                    tried = tried.push(one);
                    assert(tried == fixed + before.push(one));
                }
            }
            i = i + 1;
        }
    }
    paths
}

/// No path is tried twice, and every path is tried.
pub proof fn law_paths_are_tried_once(paths: Seq<Seq<Seq<char>>>)
    ensures
        first_occurrences(paths).no_duplicates(),
        forall|p: Seq<Seq<char>>| #[trigger]
            first_occurrences(paths).contains(p) <==> paths.contains(p),
    decreases paths.len(),
{
    if paths.len() > 0 {
        let init = paths.drop_last();
        let before = first_occurrences(init);
        let now = first_occurrences(paths);
        let last = paths.last();
        law_paths_are_tried_once(init);
        assert(paths == init.push(last));
        assert forall|p: Seq<Seq<char>>| #[trigger] now.contains(p) <==> paths.contains(p) by {
            if now.contains(p) {
                let i = choose|i: int| 0 <= i < now.len() && now[i] == p;
                if i < before.len() {
                    assert(before[i] == p);
                    assert(before.contains(p));
                    let j = choose|j: int| 0 <= j < init.len() && init[j] == p;
                    assert(paths[j] == p);
                } else {
                    assert(paths[paths.len() - 1] == p);
                }
            }
            if paths.contains(p) {
                let j = choose|j: int| 0 <= j < paths.len() && paths[j] == p;
                if j < init.len() {
                    assert(init[j] == p);
                    assert(before.contains(p));
                    let i = choose|i: int| 0 <= i < before.len() && before[i] == p;
                    assert(now[i] == p);
                } else if before.contains(p) {
                    let i = choose|i: int| 0 <= i < before.len() && before[i] == p;
                    assert(now[i] == p);
                } else {
                    assert(now[before.len() as int] == p);
                }
            }
        }
    }
}

/// The path under `$WRIT_HOME` is tried before any other.
pub proof fn law_writ_home_comes_first(
    dir: Seq<Seq<char>>,
    home: Option<Seq<Seq<char>>>,
    active_profile: Option<Seq<char>>,
    entries: Seq<ProfileEntry>,
)
    ensures
        ({
            let tried = first_occurrences(all_paths(Some(dir), home, active_profile, entries));
            tried.len() > 0 && tried[0] == descriptor_in(dir)
        }),
{
    let paths = all_paths(Some(dir), home, active_profile, entries);
    assert(paths[0] == descriptor_in(dir));
    lemma_first_stays(paths);
}

proof fn lemma_first_stays(paths: Seq<Seq<Seq<char>>>)
    requires
        paths.len() > 0,
    ensures
        first_occurrences(paths).len() > 0,
        first_occurrences(paths)[0] == paths[0],
    decreases paths.len(),
{
    if paths.len() > 1 {
        lemma_first_stays(paths.drop_last());
    } else {
        assert(first_occurrences(paths.drop_last()).len() == 0);
    }
}

/// A daemon that may be running: where to reach it, and where that was read.
#[derive(Debug, Clone)]
pub struct Candidate {
    pub base_url: String,
    pub token: String,
    /// The descriptor's path, for messages. The token is never shown.
    pub source: String,
}

/// The address of a daemon on this machine.
pub open spec fn loopback_url(port: u16) -> Seq<char> {
    "http://127.0.0.1:"@ + decimal(port as nat)
}

/// The candidate of a descriptor.
pub fn candidate(port: u16, token: String, source: String) -> (r: Candidate)
    ensures
        r.base_url@ == loopback_url(port),
        r.token@ == token@,
        r.source@ == source@,
{
    let number: String = decimal_u64(port as u64);
    Candidate { base_url: cat("http://127.0.0.1:", number.as_str()), token, source }
}

/// Whatever port a descriptor names, its address is on the loopback interface: what
/// follows the fixed host is digits only.
pub proof fn law_candidates_are_local(port: u16)
    ensures
        has_prefix(loopback_url(port), "http://127.0.0.1:"@),
        crate::text::is_digits(loopback_url(port).skip("http://127.0.0.1:"@.len() as int)),
{
    let head = "http://127.0.0.1:"@;
    crate::text::lemma_decimal(port as nat);
    assert(loopback_url(port).take(head.len() as int) == head);
    assert(loopback_url(port).skip(head.len() as int) == decimal(port as nat));
}

/// Where descriptors are looked for: in `$WRIT_HOME`; under the home directory in `.writ`, for
/// the active profile first, then for none, then for each profile directory among the first
/// thirty-two entries.
pub proof fn law_descriptors_are_looked_for_in_place(
    writ_home: Option<Seq<Seq<char>>>,
    home: Seq<Seq<char>>,
    active: Seq<char>,
    entries: Seq<ProfileEntry>,
    i: int,
)
    requires
        is_profile(trimmed(active)),
        0 <= i < entries.len() && i < 32,
        entries[i].is_dir,
    ensures
        ({
            let paths = all_paths(writ_home, Some(home), Some(active), entries);
            let plain = all_paths(writ_home, Some(home), None, entries);
            let k: int = if writ_home is Some {
                1
            } else {
                0
            };
            let base = home + seq![".writ"@];
            &&& writ_home matches Some(dir) ==> paths[0] == dir + seq!["runtime.json"@]
            &&& paths[k] == base + seq!["profiles"@, trimmed(active), "runtime.json"@]
            &&& paths[k + 1] == base + seq!["runtime.json"@]
            &&& plain[k] == base + seq!["runtime.json"@]
            &&& paths.contains(base + seq!["profiles"@, entries[i].name@, "runtime.json"@])
            &&& plain.contains(base + seq!["profiles"@, entries[i].name@, "runtime.json"@])
            &&& paths.len() == plain.len() + 1 <= k + 2 + 32
        }),
{
    let paths = all_paths(writ_home, Some(home), Some(active), entries);
    let plain = all_paths(writ_home, Some(home), None, entries);
    let k: int = if writ_home is Some {
        1
    } else {
        0
    };
    let base = home + seq![".writ"@];
    let name = entries[i].name@;
    let n = scan_count(entries);
    let found = scanned(home, entries, n);
    assert(home.push(".writ"@) == base);
    assert(descriptor_in(base) == base + seq!["runtime.json"@]);
    assert(profile_descriptor(home, trimmed(active)) == base + seq![
        "profiles"@,
        trimmed(active),
        "runtime.json"@,
    ]);
    assert(profile_descriptor(home, name) == base + seq!["profiles"@, name, "runtime.json"@]);
    if let Some(dir) = writ_home {
        assert(descriptor_in(dir) == dir + seq!["runtime.json"@]);
    }
    lemma_scanned(home, entries, n, i);
    let j = choose|j: int| 0 <= j < found.len() && found[j] == profile_descriptor(home, name);
    assert(paths[k + 2 + j] == found[j]);
    assert(plain[k + 1 + j] == found[j]);
}

proof fn lemma_scanned(home: Seq<Seq<char>>, entries: Seq<ProfileEntry>, n: int, i: int)
    requires
        0 <= i < n <= entries.len(),
        entries[i].is_dir,
    ensures
        scanned(home, entries, n).contains(profile_descriptor(home, entries[i].name@)),
        scanned(home, entries, n).len() <= n,
    decreases n,
{
    let now = scanned(home, entries, n);
    let before = scanned(home, entries, n - 1);
    if i < n - 1 {
        lemma_scanned(home, entries, n - 1, i);
        let j = choose|j: int|
            0 <= j < before.len() && before[j] == profile_descriptor(home, entries[i].name@);
        assert(now[j] == before[j]);
    } else {
        lemma_scanned_len(home, entries, n - 1);
        assert(now[before.len() as int] == profile_descriptor(home, entries[i].name@));
    }
}

proof fn lemma_scanned_len(home: Seq<Seq<char>>, entries: Seq<ProfileEntry>, n: int)
    requires
        0 <= n <= entries.len(),
    ensures
        scanned(home, entries, n).len() <= n,
    decreases n,
{
    if n > 0 {
        lemma_scanned_len(home, entries, n - 1);
    }
}

} // verus!
