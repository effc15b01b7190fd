//! Requests as plain values: what is sent, before it is sent.

use crate::json::{opt_tree, Json, Tree};
use crate::text::{cat, cat3, decimal_i64, int_text, opt_text};
use vstd::prelude::*;

verus! {

broadcast use vstd::string::group_string_axioms;

/// HTTP methods.
#[derive(Debug, Clone, Copy, PartialEq, Eq, Structural)]
pub enum Method {
    Get,
    Head,
    Options,
    Post,
    Put,
    Patch,
    Delete,
}

/// One request: where it goes below the base URL, its query and its JSON body.
#[derive(Debug, Clone)]
pub struct Request {
    pub method: Method,
    pub path: String,
    pub query: Vec<(String, String)>,
    pub body: Option<Json>,
    /// Statuses outside 2xx that are answers and not errors.
    pub extra_ok: Vec<u16>,
}

/// The contents of a request.
#[verifier::ext_equal]
pub struct RequestView {
    pub method: Method,
    pub path: Seq<char>,
    pub query: Seq<(Seq<char>, Seq<char>)>,
    pub body: Option<Tree>,
    pub extra_ok: Seq<u16>,
}

/// The names and values of query pairs.
pub open spec fn pairs(v: Seq<(String, String)>) -> Seq<(Seq<char>, Seq<char>)> {
    v.map_values(|p: (String, String)| (p.0@, p.1@))
}

impl View for Request {
    type V = RequestView;

    open spec fn view(&self) -> RequestView {
        RequestView {
            method: self.method,
            path: self.path@,
            query: pairs(self.query@),
            body: opt_tree(self.body),
            extra_ok: self.extra_ok@,
        }
    }
}

/// A request without query and body.
pub open spec fn bare(method: Method, path: Seq<char>) -> RequestView {
    RequestView { method, path, query: seq![], body: None, extra_ok: seq![] }
}

/// A request with a body.
pub open spec fn carrying(method: Method, path: Seq<char>, body: Tree) -> RequestView {
    RequestView { method, path, query: seq![], body: Some(body), extra_ok: seq![] }
}

/// A request with a query.
pub open spec fn asking(
    method: Method,
    path: Seq<char>,
    query: Seq<(Seq<char>, Seq<char>)>,
) -> RequestView {
    RequestView { method, path, query, body: None, extra_ok: seq![] }
}

impl Request {
    /// A request without query and body.
    pub fn new(method: Method, path: String) -> (r: Request)
        ensures
            r@ == bare(method, path@),
    {
        let r = Request { method, path, query: Vec::new(), body: None, extra_ok: Vec::new() };
        assert(pairs(r.query@) == Seq::<(Seq<char>, Seq<char>)>::empty());
        r
    }

    /// The request with this body.
    pub fn with_body(self, body: Json) -> (r: Request)
        ensures
            r@ == (RequestView { body: Some(body.tree()), ..self@ }),
    {
        Request {
            method: self.method,
            path: self.path,
            query: self.query,
            body: Some(body),
            extra_ok: self.extra_ok,
        }
    }

    /// The request with this query.
    pub fn with_query(self, query: Vec<(String, String)>) -> (r: Request)
        ensures
            r@ == (RequestView { query: pairs(query@), ..self@ }),
    {
        Request {
            method: self.method,
            path: self.path,
            query,
            body: self.body,
            extra_ok: self.extra_ok,
        }
    }

    /// The request with one more status that is an answer.
    pub fn accepting(self, status: u16) -> (r: Request)
        ensures
            r@ == (RequestView { extra_ok: self@.extra_ok.push(status), ..self@ }),
    {
        let mut extra_ok: Vec<u16> = self.extra_ok;
        extra_ok.push(status);
        Request {
            method: self.method,
            path: self.path,
            query: self.query,
            body: self.body,
            extra_ok,
        }
    }
}

/// One pair where there is a value, none otherwise.
pub open spec fn opt_pair(name: Seq<char>, value: Option<Seq<char>>) -> Seq<
    (Seq<char>, Seq<char>),
> {
    match value {
        Some(v) => seq![(name, v)],
        None => seq![],
    }
}

/// The decimal text of an optional number.
pub open spec fn opt_int_text(value: Option<i64>) -> Option<Seq<char>> {
    match value {
        Some(n) => Some(int_text(n as int)),
        None => None,
    }
}

/// `true` where a flag is set, nothing otherwise.
pub open spec fn flag_text(set: bool) -> Option<Seq<char>> {
    if set {
        Some("true"@)
    } else {
        None
    }
}

/// Appends a pair.
pub fn push_pair(query: &mut Vec<(String, String)>, name: &str, value: String)
    ensures
        pairs(final(query)@) == pairs(old(query)@) + seq![(name@, value@)],
{
    let owned: String = name.to_owned();
    query.push((owned, value));
    assert(pairs(query@) == pairs(old(query)@) + seq![(name@, value@)]);
}

/// Appends a pair where there is a text.
pub fn push_text(query: &mut Vec<(String, String)>, name: &str, value: Option<&str>)
    ensures
        pairs(final(query)@) == pairs(old(query)@) + opt_pair(
            name@,
            opt_text(value),
        ),
{
    match value {
        Some(s) => push_pair(query, name, s.to_owned()),
        None => {
            assert(pairs(query@) + Seq::<(Seq<char>, Seq<char>)>::empty() == pairs(query@));
        },
    }
}

/// Appends a pair where there is a number.
pub fn push_int(query: &mut Vec<(String, String)>, name: &str, value: Option<i64>)
    ensures
        pairs(final(query)@) == pairs(old(query)@) + opt_pair(name@, opt_int_text(value)),
{
    match value {
        Some(n) => push_pair(query, name, decimal_i64(n)),
        None => {
            assert(pairs(query@) + Seq::<(Seq<char>, Seq<char>)>::empty() == pairs(query@));
        },
    }
}

/// Appends `name=true` where a flag is set.
pub fn push_flag(query: &mut Vec<(String, String)>, name: &str, set: bool)
    ensures
        pairs(final(query)@) == pairs(old(query)@) + opt_pair(name@, flag_text(set)),
{
    if set {
        push_pair(query, name, "true".to_owned());
    } else {
        assert(pairs(query@) + Seq::<(Seq<char>, Seq<char>)>::empty() == pairs(query@));
    }
}

/// A query without pairs.
pub fn no_query() -> (r: Vec<(String, String)>)
    ensures
        pairs(r@) == Seq::<(Seq<char>, Seq<char>)>::empty(),
{
    let r: Vec<(String, String)> = Vec::new();
    assert(pairs(r@) == Seq::<(Seq<char>, Seq<char>)>::empty());
    r
}

/// A path that ends in a number.
pub open spec fn id_path(head: Seq<char>, id: i64) -> Seq<char> {
    head + int_text(id as int)
}

/// A path with a number in it.
pub open spec fn id_path_to(head: Seq<char>, id: i64, tail: Seq<char>) -> Seq<char> {
    head + int_text(id as int) + tail
}

/// A path that ends in a number.
pub(crate) fn path_of(head: &str, id: i64) -> (r: String)
    ensures
        r@ == id_path(head@, id),
{
    let number: String = decimal_i64(id);
    cat(head, number.as_str())
}

/// A path with a number in it.
pub(crate) fn path_to(head: &str, id: i64, tail: &str) -> (r: String)
    ensures
        r@ == id_path_to(head@, id, tail@),
{
    let number: String = decimal_i64(id);
    cat3(head, number.as_str(), tail)
}

/// Whether an answer with this status is one, and not an error.
pub open spec fn is_answer(status: u16, extra_ok: Seq<u16>) -> bool {
    200 <= status < 300 || extra_ok.contains(status)
}

/// Whether an answer with this status is one, and not an error.
pub fn accepts(status: u16, extra_ok: &Vec<u16>) -> (r: bool)
    ensures
        r == is_answer(status, extra_ok@),
{
    if 200 <= status && status < 300 {
        return true;
    }
    let mut i: usize = 0;
    while i < extra_ok.len()
        invariant
            i <= extra_ok.len(),
            forall|j: int| 0 <= j < i ==> extra_ok@[j] != status,
        decreases extra_ok.len() - i,
    {
        if extra_ok[i] == status {
            return true;
        }
        i = i + 1;
    }
    false
}

} // verus!
