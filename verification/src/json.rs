//! JSON values.

use crate::text::{opt_text, text_eq};
use vstd::prelude::*;

verus! {

broadcast use vstd::string::group_string_axioms;

/// A JSON number: a whole number of either sign, or the bits of a double.
#[derive(Debug, Clone, Copy, PartialEq, Eq, Structural)]
pub enum Number {
    PosInt(u64),
    NegInt(i64),
    Float(u64),
}

/// A JSON value. An object keeps its members in order.
#[derive(Debug, PartialEq, Eq)]
pub enum Json {
    Null,
    Bool(bool),
    Number(Number),
    Str(String),
    Array(Vec<Json>),
    Object(Vec<(String, Json)>),
}

/// The contents of a JSON value.
#[verifier::ext_equal]
pub enum Tree {
    Null,
    Bool(bool),
    Number(Number),
    Str(Seq<char>),
    Array(Seq<Tree>),
    Object(Seq<(Seq<char>, Tree)>),
}

/// The position of the first member with this name at or after `i`, or their count.
pub open spec fn member_from(members: Seq<(Seq<char>, Tree)>, key: Seq<char>, i: int) -> int
    decreases members.len() - i,
{
    if i < 0 || i >= members.len() {
        members.len() as int
    } else if members[i].0 == key {
        i
    } else {
        member_from(members, key, i + 1)
    }
}

impl Tree {
    /// The member of an object by its name.
    pub open spec fn get(self, key: Seq<char>) -> Option<Tree> {
        match self {
            Tree::Object(members) => {
                let i = member_from(members, key, 0);
                if 0 <= i < members.len() {
                    Some(members[i].1)
                } else {
                    None
                }
            },
            _ => None,
        }
    }

    /// The text of a string.
    pub open spec fn as_str(self) -> Option<Seq<char>> {
        match self {
            Tree::Str(s) => Some(s),
            _ => None,
        }
    }

    /// The value of a whole number that fits.
    pub open spec fn as_i64(self) -> Option<i64> {
        match self {
            Tree::Number(Number::PosInt(n)) => if n <= i64::MAX {
                Some(n as i64)
            } else {
                None
            },
            Tree::Number(Number::NegInt(n)) => Some(n),
            _ => None,
        }
    }

    /// The value of a whole number that is not negative.
    pub open spec fn as_u64(self) -> Option<u64> {
        match self {
            Tree::Number(Number::PosInt(n)) => Some(n),
            _ => None,
        }
    }

    /// The value of a boolean.
    pub open spec fn as_bool(self) -> Option<bool> {
        match self {
            Tree::Bool(b) => Some(b),
            _ => None,
        }
    }

    /// The text of a member that is a string.
    pub open spec fn str_at(self, key: Seq<char>) -> Option<Seq<char>> {
        match self.get(key) {
            Some(t) => t.as_str(),
            None => None,
        }
    }

    /// The value of a member that is a whole number which fits.
    pub open spec fn i64_at(self, key: Seq<char>) -> Option<i64> {
        match self.get(key) {
            Some(t) => t.as_i64(),
            None => None,
        }
    }

    /// The items of an array.
    pub open spec fn as_array(self) -> Option<Seq<Tree>> {
        match self {
            Tree::Array(items) => Some(items),
            _ => None,
        }
    }
}

impl Json {
    /// The contents of the value.
    pub open spec fn tree(self) -> Tree
        decreases self,
    {
        match self {
            Json::Null => Tree::Null,
            Json::Bool(b) => Tree::Bool(b),
            Json::Number(n) => Tree::Number(n),
            Json::Str(s) => Tree::Str(s@),
            Json::Array(v) => Tree::Array(
                Seq::new(
                    v@.len(),
                    |i: int|
                        if 0 <= i < v@.len() {
                            v@[i].tree()
                        } else {
                            Tree::Null
                        },
                ),
            ),
            Json::Object(v) => Tree::Object(
                Seq::new(
                    v@.len(),
                    |i: int|
                        if 0 <= i < v@.len() {
                            (v@[i].0@, v@[i].1.tree())
                        } else {
                            (seq![], Tree::Null)
                        },
                ),
            ),
        }
    }
}

/// The contents of each value.
pub open spec fn trees(v: Seq<Json>) -> Seq<Tree> {
    v.map_values(|j: Json| j.tree())
}

/// The names and contents of members.
pub open spec fn member_trees(v: Seq<(String, Json)>) -> Seq<(Seq<char>, Tree)> {
    v.map_values(|m: (String, Json)| (m.0@, m.1.tree()))
}

/// An array's contents are its items' contents.
pub broadcast proof fn lemma_array_tree(v: Vec<Json>)
    ensures
        #[trigger] Json::Array(v).tree() == Tree::Array(trees(v@)),
{
    assert(Json::Array(v).tree()->Array_0 =~= trees(v@));
}

/// An object's contents are its members' names and contents.
pub broadcast proof fn lemma_object_tree(v: Vec<(String, Json)>)
    ensures
        #[trigger] Json::Object(v).tree() == Tree::Object(member_trees(v@)),
{
    assert(Json::Object(v).tree()->Object_0 =~= member_trees(v@));
}

impl Json {
    /// The member of an object by its name.
    pub fn get(&self, key: &str) -> (r: Option<&Json>)
        ensures
            match (r, self.tree().get(key@)) {
                (Some(j), Some(t)) => j.tree() == t,
                (None, None) => true,
                _ => false,
            },
    {
        broadcast use lemma_object_tree;

        match self {
            Json::Object(v) => {
                let mut i: usize = 0;
                while i < v.len()
                    invariant
                        i <= v.len(),
                        member_from(member_trees(v@), key@, 0) == member_from(
                            member_trees(v@),
                            key@,
                            i as int,
                        ),
                        self.tree() == Tree::Object(member_trees(v@)),
                    decreases v.len() - i,
                {
                    assert(member_trees(v@)[i as int] == (v@[i as int].0@, v@[i as int].1.tree()));
                    if text_eq(v[i].0.as_str(), key) {
                        return Some(&v[i].1);
                    }
                    i = i + 1;
                }
                None
            },
            _ => None,
        }
    }

    /// The text of a string.
    pub fn as_str(&self) -> (r: Option<&str>)
        ensures
            match (r, self.tree().as_str()) {
                (Some(s), Some(t)) => s@ == t,
                (None, None) => true,
                _ => false,
            },
    {
        match self {
            Json::Str(s) => Some(s.as_str()),
            _ => None,
        }
    }

    /// The value of a whole number that fits.
    pub fn as_i64(&self) -> (r: Option<i64>)
        ensures
            r == self.tree().as_i64(),
    {
        match self {
            Json::Number(Number::PosInt(n)) => if *n <= 0x7fff_ffff_ffff_ffff {
                Some(*n as i64)
            } else {
                None
            },
            Json::Number(Number::NegInt(n)) => Some(*n),
            _ => None,
        }
    }

    /// The value of a whole number that is not negative.
    pub fn as_u64(&self) -> (r: Option<u64>)
        ensures
            r == self.tree().as_u64(),
    {
        match self {
            Json::Number(Number::PosInt(n)) => Some(*n),
            _ => None,
        }
    }

    /// The value of a boolean.
    pub fn as_bool(&self) -> (r: Option<bool>)
        ensures
            r == self.tree().as_bool(),
    {
        match self {
            Json::Bool(b) => Some(*b),
            _ => None,
        }
    }

    /// The text of a member that is a string.
    pub fn str_at(&self, key: &str) -> (r: Option<&str>)
        ensures
            opt_text(r) == self.tree().str_at(key@),
    {
        match self.get(key) {
            Some(j) => j.as_str(),
            None => None,
        }
    }

    /// The value of a member that is a whole number which fits.
    pub fn i64_at(&self, key: &str) -> (r: Option<i64>)
        ensures
            r == self.tree().i64_at(key@),
    {
        match self.get(key) {
            Some(j) => j.as_i64(),
            None => None,
        }
    }

    /// The items of an array.
    pub fn as_array(&self) -> (r: Option<&Vec<Json>>)
        ensures
            match (r, self.tree().as_array()) {
                (Some(v), Some(items)) => trees(v@) == items,
                (None, None) => true,
                _ => false,
            },
    {
        broadcast use lemma_array_tree;

        match self {
            Json::Array(v) => Some(v),
            _ => None,
        }
    }

    /// Whether the value is an object.
    pub fn is_object(&self) -> (r: bool)
        ensures
            r == self.tree() is Object,
    {
        matches!(self, Json::Object(_))
    }

    /// A whole number.
    pub fn integer(n: i64) -> (r: Json)
        ensures
            r.tree() == int_tree(n as int),
    {
        if n >= 0 {
            Json::Number(Number::PosInt(n as u64))
        } else {
            Json::Number(Number::NegInt(n))
        }
    }

    /// A text.
    pub fn text(s: &str) -> (r: Json)
        ensures
            r.tree() == Tree::Str(s@),
    {
        Json::Str(s.to_owned())
    }

    /// Another value with the same contents.
    pub fn copy(&self) -> (r: Json)
        ensures
            r.tree() == self.tree(),
        decreases self,
    {
        broadcast use {lemma_array_tree, lemma_object_tree};

        match self {
            Json::Null => Json::Null,
            Json::Bool(b) => Json::Bool(*b),
            Json::Number(n) => Json::Number(*n),
            Json::Str(s) => Json::Str(s.clone()),
            Json::Array(v) => {
                let mut w: Vec<Json> = Vec::new();
                let mut i: usize = 0;
                while i < v.len()
                    invariant
                        i <= v.len(),
                        self == Json::Array(*v),
                        trees(w@) == trees(v@).take(i as int),
                    decreases v.len() - i,
                {
                    assert(decreases_to!(*self => self->Array_0));
                    assert(decreases_to!(self->Array_0@ => self->Array_0@[i as int]));
                    let c: Json = v[i].copy();
                    let ghost before = w@;
                    w.push(c);
                    assert(trees(w@) == trees(before).push(c.tree()));
                    assert(trees(w@) == trees(v@).take(i + 1));
                    i = i + 1;
                }
                assert(trees(w@) == trees(v@));
                Json::Array(w)
            },
            Json::Object(v) => {
                let mut w: Vec<(String, Json)> = Vec::new();
                let mut i: usize = 0;
                while i < v.len()
                    invariant
                        i <= v.len(),
                        self == Json::Object(*v),
                        member_trees(w@) == member_trees(v@).take(i as int),
                    decreases v.len() - i,
                {
                    assert(decreases_to!(*self => self->Object_0));
                    assert(decreases_to!(self->Object_0@ => self->Object_0@[i as int]));
                    assert(decreases_to!(v@[i as int] => v@[i as int].1));
                    let c: Json = v[i].1.copy();
                    let ghost before = w@;
                    let name: String = v[i].0.clone();
                    w.push((name, c));
                    assert(member_trees(w@) == member_trees(before).push((name@, c.tree())));
                    assert(member_trees(w@) == member_trees(v@).take(i + 1));
                    i = i + 1;
                }
                assert(member_trees(w@) == member_trees(v@));
                Json::Object(w)
            },
        }
    }
}

/// One member where there is a value, none otherwise.
pub open spec fn opt_member(name: Seq<char>, value: Option<Tree>) -> Seq<(Seq<char>, Tree)> {
    match value {
        Some(t) => seq![(name, t)],
        None => seq![],
    }
}

/// An optional text as a string.
pub open spec fn text_tree(value: Option<String>) -> Option<Tree> {
    match value {
        Some(s) => Some(Tree::Str(s@)),
        None => None,
    }
}

/// An optional whole number.
pub open spec fn opt_int_tree(value: Option<i64>) -> Option<Tree> {
    match value {
        Some(n) => Some(int_tree(n as int)),
        None => None,
    }
}

/// An optional boolean.
pub open spec fn opt_bool_tree(value: Option<bool>) -> Option<Tree> {
    match value {
        Some(b) => Some(Tree::Bool(b)),
        None => None,
    }
}

/// Texts as an array of strings.
pub open spec fn texts_tree(value: Seq<String>) -> Tree {
    Tree::Array(value.map_values(|s: String| Tree::Str(s@)))
}

/// Optional texts as an array of strings.
pub open spec fn opt_texts_tree(value: Option<Vec<String>>) -> Option<Tree> {
    match value {
        Some(v) => Some(texts_tree(v@)),
        None => None,
    }
}

/// The contents of an optional value.
pub open spec fn opt_tree(j: Option<Json>) -> Option<Tree> {
    match j {
        Some(j) => Some(j.tree()),
        None => None,
    }
}

/// Appends a member.
pub fn put(members: &mut Vec<(String, Json)>, name: &str, value: Json)
    ensures
        member_trees(final(members)@) == member_trees(old(members)@) + seq![
            (name@, value.tree()),
        ],
{
    let owned: String = name.to_owned();
    members.push((owned, value));
    assert(member_trees(members@) == member_trees(old(members)@) + seq![(name@, value.tree())]);
}

/// Appends a member where there is a value.
pub fn put_opt(members: &mut Vec<(String, Json)>, name: &str, value: Option<Json>)
    ensures
        member_trees(final(members)@) == member_trees(old(members)@) + opt_member(
            name@,
            opt_tree(value),
        ),
{
    match value {
        Some(j) => put(members, name, j),
        None => {
            assert(member_trees(members@) == member_trees(members@) + Seq::<
                (Seq<char>, Tree),
            >::empty());
        },
    }
}

/// A text as a value, where there is one.
pub fn text_json(value: &Option<String>) -> (r: Option<Json>)
    ensures
        opt_tree(r) == text_tree(*value),
{
    match value {
        Some(s) => Some(Json::Str(s.clone())),
        None => None,
    }
}

/// A whole number as a value, where there is one.
pub fn int_json(value: Option<i64>) -> (r: Option<Json>)
    ensures
        opt_tree(r) == opt_int_tree(value),
{
    match value {
        Some(n) => Some(Json::integer(n)),
        None => None,
    }
}

/// A boolean as a value, where there is one.
pub fn bool_json(value: Option<bool>) -> (r: Option<Json>)
    ensures
        opt_tree(r) == opt_bool_tree(value),
{
    match value {
        Some(b) => Some(Json::Bool(b)),
        None => None,
    }
}

/// Texts as an array.
pub fn texts_json(value: &Vec<String>) -> (r: Json)
    ensures
        r.tree() == texts_tree(value@),
{
    broadcast use lemma_array_tree;

    let mut items: Vec<Json> = Vec::new();
    let mut i: usize = 0;
    while i < value.len()
        invariant
            i <= value.len(),
            trees(items@) == texts_tree(value@)->Array_0.take(i as int),
        decreases value.len() - i,
    {
        let item: Json = Json::Str(value[i].clone());
        let ghost before = items@;
        items.push(item);
        assert(trees(items@) == trees(before).push(item.tree()));
        assert(trees(items@) == texts_tree(value@)->Array_0.take(i + 1));
        i = i + 1;
    }
    assert(trees(items@) == texts_tree(value@)->Array_0);
    Json::Array(items)
}

/// Texts as an array, where there are any.
pub fn opt_texts_json(value: &Option<Vec<String>>) -> (r: Option<Json>)
    ensures
        opt_tree(r) == opt_texts_tree(*value),
{
    match value {
        Some(v) => Some(texts_json(v)),
        None => None,
    }
}

/// A copy of an optional value.
pub fn copy_opt(value: &Option<Json>) -> (r: Option<Json>)
    ensures
        opt_tree(r) == opt_tree(*value),
{
    match value {
        Some(j) => Some(j.copy()),
        None => None,
    }
}

impl Clone for Json {
    fn clone(&self) -> (r: Self)
        ensures
            r.tree() == self.tree(),
    {
        self.copy()
    }
}

/// The contents of a whole number.
pub open spec fn int_tree(n: int) -> Tree {
    if n >= 0 {
        Tree::Number(Number::PosInt(n as u64))
    } else {
        Tree::Number(Number::NegInt(n as i64))
    }
}

/// Whole numbers survive being written: each is read back as itself, and as a number without
/// a sign exactly where it has none.
pub proof fn law_whole_numbers_round_trip(n: i64, u: u64)
    ensures
        int_tree(n as int).as_i64() == Some(n),
        n >= 0 ==> int_tree(n as int).as_u64() == Some(n as u64),
        n < 0 ==> int_tree(n as int).as_u64() is None,
        int_tree(u as int).as_u64() == Some(u),
        u > i64::MAX ==> int_tree(u as int).as_i64() is None,
{
}

/// A member is found by its name, and only by it: what is found is a member of that name,
/// the first of them, and nothing is found exactly where there is none.
pub proof fn law_members_are_found_by_name(members: Seq<(Seq<char>, Tree)>, key: Seq<char>)
    ensures
        Tree::Object(members).get(key) matches Some(v) ==> members.contains((key, v)),
        Tree::Object(members).get(key) is None <==> forall|i: int|
            0 <= i < members.len() ==> (#[trigger] members[i]).0 != key,
        forall|i: int|
            0 <= i < members.len() && (#[trigger] members[i]).0 == key && (forall|j: int|
                0 <= j < i ==> (#[trigger] members[j]).0 != key) ==> Tree::Object(members).get(key)
                == Some(members[i].1),
{
    lemma_first_member(members, key, 0);
    let k = member_from(members, key, 0);
    if k < members.len() {
        assert(members[k] == (key, members[k].1));
    }
}

proof fn lemma_first_member(members: Seq<(Seq<char>, Tree)>, key: Seq<char>, i: int)
    requires
        0 <= i <= members.len(),
    ensures
        i <= member_from(members, key, i) <= members.len(),
        member_from(members, key, i) < members.len() ==> members[member_from(members, key, i)].0
            == key,
        forall|k: int| i <= k < member_from(members, key, i) ==> (#[trigger] members[k]).0 != key,
    decreases members.len() - i,
{
    if i < members.len() && members[i].0 != key {
        lemma_first_member(members, key, i + 1);
    }
}

/// `serde_json::Value`, a parsed JSON document.
#[verifier::external_type_specification]
#[verifier::external_body]
pub struct ExValue(serde_json::Value);

/// What a `serde_json::Value` holds.
pub uninterp spec fn value_tree(v: serde_json::Value) -> Tree;

/// What `serde_json::from_str` makes of a text: the contents of the document, or its
/// explanation of why the text is none.
pub uninterp spec fn parse_result(text: Seq<char>) -> Result<Tree, Seq<char>>;

/// The contents of the document that a text is, where it is one.
pub open spec fn document(text: Seq<char>) -> Option<Tree> {
    match parse_result(text) {
        Ok(t) => Some(t),
        Err(_) => None,
    }
}

/// `serde_json::from_str` into a `Value`. Which texts are documents, what they hold and
/// how a refusal reads is only named.
#[verifier::external_body]
fn parse_value(text: &str) -> (r: Result<serde_json::Value, String>)
    ensures
        match r {
            Ok(v) => parse_result(text@) == Ok::<Tree, Seq<char>>(value_tree(v)),
            Err(e) => parse_result(text@) == Err::<Tree, Seq<char>>(e@),
        },
{
    serde_json::from_str(text).map_err(|e| e.to_string())
}

/// One level of a `serde_json::Value`. A number comes as its `as_u64`, `as_i64` and the
/// bits of its `as_f64`.
pub enum Level<'a> {
    Null,
    Bool(bool),
    Number(Option<u64>, Option<i64>, Option<u64>),
    Str(&'a String),
    Array(&'a Vec<serde_json::Value>),
    Object(Vec<(&'a String, &'a serde_json::Value)>),
}

/// The number with these readings.
pub open spec fn number_of(unsigned: Option<u64>, signed: Option<i64>, bits: Option<u64>) -> Tree {
    match (unsigned, signed, bits) {
        (Some(n), _, _) => Tree::Number(Number::PosInt(n)),
        (None, Some(n), _) => Tree::Number(Number::NegInt(n)),
        (None, None, Some(n)) => Tree::Number(Number::Float(n)),
        (None, None, None) => Tree::Null,
    }
}

/// The contents that one level stands for.
pub open spec fn level_tree(level: Level<'_>) -> Tree {
    match level {
        Level::Null => Tree::Null,
        Level::Bool(b) => Tree::Bool(b),
        Level::Number(u, i, f) => number_of(u, i, f),
        Level::Str(s) => Tree::Str(s@),
        Level::Array(v) => Tree::Array(v@.map_values(|x: serde_json::Value| value_tree(x))),
        Level::Object(v) => Tree::Object(
            v@.map_values(|m: (&String, &serde_json::Value)| (m.0@, value_tree(*m.1))),
        ),
    }
}

/// The variants of `serde_json::Value`: what a value holds is its kind and, for arrays
/// and objects, what its items or members hold.
#[verifier::external_body]
fn level_of<'a>(v: &'a serde_json::Value) -> (r: Level<'a>)
    ensures
        value_tree(*v) == level_tree(r),
{
    match v {
        serde_json::Value::Null => Level::Null,
        serde_json::Value::Bool(b) => Level::Bool(*b),
        serde_json::Value::Number(n) => {
            Level::Number(n.as_u64(), n.as_i64(), n.as_f64().map(|x| x.to_bits()))
        },
        serde_json::Value::String(s) => Level::Str(s),
        serde_json::Value::Array(a) => Level::Array(a),
        serde_json::Value::Object(m) => Level::Object(m.iter().collect()),
    }
}

/// The value that a `serde_json::Value` holds.
pub fn from_value(v: &serde_json::Value) -> (r: Json)
    ensures
        r.tree() == value_tree(*v),
    decreases value_tree(*v),
{
    broadcast use {lemma_array_tree, lemma_object_tree};

    match level_of(v) {
        Level::Null => Json::Null,
        Level::Bool(b) => Json::Bool(b),
        Level::Number(u, i, f) => match (u, i, f) {
            (Some(n), _, _) => Json::Number(Number::PosInt(n)),
            (None, Some(n), _) => Json::Number(Number::NegInt(n)),
            (None, None, Some(n)) => Json::Number(Number::Float(n)),
            (None, None, None) => Json::Null,
        },
        Level::Str(s) => Json::Str(s.clone()),
        Level::Array(items) => {
            let ghost held = items@.map_values(|x: serde_json::Value| value_tree(x));
            let mut w: Vec<Json> = Vec::new();
            let mut i: usize = 0;
            while i < items.len()
                invariant
                    i <= items.len(),
                    held == items@.map_values(|x: serde_json::Value| value_tree(x)),
                    value_tree(*v) == Tree::Array(held),
                    trees(w@) == held.take(i as int),
                decreases items.len() - i,
            {
                assert(held[i as int] == value_tree(items@[i as int]));
                let ghost t = value_tree(*v);
                assert(t->Array_0 == held);
                assert(decreases_to!(t => t->Array_0));
                assert(decreases_to!(t->Array_0 => t->Array_0[i as int]));
                let c: Json = from_value(&items[i]);
                let ghost before = w@;
                w.push(c);
                assert(trees(w@) == trees(before).push(c.tree()));
                assert(trees(w@) == held.take(i + 1));
                i = i + 1;
            }
            assert(trees(w@) == held);
            Json::Array(w)
        },
        Level::Object(members) => {
            let ghost held = members@.map_values(
                |m: (&String, &serde_json::Value)| (m.0@, value_tree(*m.1)),
            );
            let mut w: Vec<(String, Json)> = Vec::new();
            let mut i: usize = 0;
            while i < members.len()
                invariant
                    i <= members.len(),
                    held == members@.map_values(
                        |m: (&String, &serde_json::Value)| (m.0@, value_tree(*m.1)),
                    ),
                    value_tree(*v) == Tree::Object(held),
                    member_trees(w@) == held.take(i as int),
                decreases members.len() - i,
            {
                assert(held[i as int] == (members@[i as int].0@, value_tree(*members@[i as int].1)));
                let ghost t = value_tree(*v);
                assert(t->Object_0 == held);
                assert(decreases_to!(t => t->Object_0));
                assert(decreases_to!(t->Object_0 => t->Object_0[i as int]));
                assert(decreases_to!(held[i as int] => held[i as int].1));
                let c: Json = from_value(members[i].1);
                let ghost before = w@;
                let name: String = members[i].0.clone();
                w.push((name, c));
                assert(member_trees(w@) == member_trees(before).push((name@, c.tree())));
                assert(member_trees(w@) == held.take(i + 1));
                i = i + 1;
            }
            assert(member_trees(w@) == held);
            Json::Object(w)
        },
    }
}

/// The contents or the explanation of a reading.
pub open spec fn reading(r: Result<Json, String>) -> Result<Tree, Seq<char>> {
    match r {
        Ok(j) => Ok(j.tree()),
        Err(e) => Err(e@),
    }
}

/// Reads a JSON document, or explains why the text is none.
pub fn read(text: &str) -> (r: Result<Json, String>)
    ensures
        reading(r) == parse_result(text@),
{
    match parse_value(text) {
        Ok(v) => Ok(from_value(&v)),
        Err(e) => Err(e),
    }
}

/// Reads a JSON document.
pub fn parse(text: &str) -> (r: Option<Json>)
    ensures
        opt_tree(r) == document(text@),
{
    match read(text) {
        Ok(j) => Some(j),
        Err(_) => None,
    }
}

} // verus!
