//! One shape for every list answer.
//!
//! Some endpoints answer `{"data": [...], "count": n}`, some add a `total`, some answer
//! a bare array. A [`Page`] is all three.

use crate::json::{trees, Json, Tree};
use vstd::prelude::*;
use vstd::std_specs::iter::IteratorSpec;

verus! {

/// One page of list results.
#[derive(Debug, Clone, PartialEq)]
pub struct Page<T> {
    /// The items.
    pub data: Vec<T>,
    /// Item count as reported; the number of items where it is not.
    pub count: u64,
    /// Matching rows over all pages, where the endpoint reports them.
    pub total: Option<u64>,
}

impl<T> Page<T> {
    /// Number of items in this page.
    pub fn len(&self) -> (r: usize)
        ensures
            r == self.data@.len(),
    {
        self.data.len()
    }

    /// Whether the page has no items.
    pub fn is_empty(&self) -> (r: bool)
        ensures
            r == (self.data@.len() == 0),
    {
        self.data.len() == 0
    }

    /// Iterates over the items, in order.
    pub fn iter(&self) -> (r: std::slice::Iter<'_, T>)
        ensures
            r.remaining() == self.data@.as_ref(),
    {
        broadcast use vstd::std_specs::slice::axiom_spec_slice_iter;

        self.data.as_slice().iter()
    }
}

/// A count field: absent and null are no count; anything but a whole number that is not
/// negative is an error.
pub open spec fn count_field(value: Option<Tree>) -> Result<Option<u64>, ()> {
    match value {
        None => Ok(None),
        Some(Tree::Null) => Ok(None),
        Some(t) => match t.as_u64() {
            Some(n) => Ok(Some(n)),
            None => Err(()),
        },
    }
}

/// The items, count and total that an answer stands for.
pub open spec fn page_view(answer: Tree) -> Option<(Seq<Tree>, nat, Option<u64>)> {
    match answer {
        Tree::Array(items) => Some((items, items.len(), None)),
        Tree::Object(members) => {
            let data = answer.get("data"@);
            match (
                data,
                count_field(answer.get("count"@)),
                count_field(answer.get("total"@)),
            ) {
                (Some(Tree::Array(items)), Ok(count), Ok(total)) => Some(
                    (
                        items,
                        match count {
                            Some(n) => n as nat,
                            None => items.len(),
                        },
                        total,
                    ),
                ),
                _ => None,
            }
        },
        _ => None,
    }
}

/// A list answer is read by its names: the items are those under `data`, the count and the
/// total those under theirs. A count that is missing or null is the number of items.
pub proof fn law_lists_are_read_by_name(answer: Tree)
    requires
        answer is Object,
    ensures
        page_view(answer) matches Some((items, count, total)) ==> {
            &&& answer.get("data"@) == Some(Tree::Array(items))
            &&& match answer.get("count"@) {
                Some(v) => v is Null && count == items.len() || v.as_u64() == Some(count as u64)
                    && count <= u64::MAX,
                None => count == items.len(),
            }
            &&& match answer.get("total"@) {
                Some(v) => v is Null && total is None || total is Some && v.as_u64() == total,
                None => total is None,
            }
        },
        page_view(answer) is Some <==> {
            &&& answer.get("data"@) matches Some(v) && v is Array
            &&& answer.get("count"@) matches Some(v) ==> v is Null || v.as_u64() is Some
            &&& answer.get("total"@) matches Some(v) ==> v is Null || v.as_u64() is Some
        },
{
}

fn read_count(value: Option<&Json>) -> (r: Result<Option<u64>, ()>)
    ensures
        r == count_field(
            match value {
                Some(j) => Some(j.tree()),
                None => None,
            },
        ),
{
    match value {
        None => Ok(None),
        Some(Json::Null) => Ok(None),
        Some(j) => match j.as_u64() {
            Some(n) => Ok(Some(n)),
            None => Err(()),
        },
    }
}

/// Copies of values.
pub(crate) fn copy_items(items: &Vec<Json>) -> (r: Vec<Json>)
    ensures
        trees(r@) == trees(items@),
        r@.len() == items@.len(),
{
    let mut r: Vec<Json> = Vec::new();
    let mut i: usize = 0;
    while i < items.len()
        invariant
            i <= items.len(),
            r@.len() == i,
            trees(r@) == trees(items@).take(i as int),
        decreases items.len() - i,
    {
        let item: Json = items[i].copy();
        let ghost before = r@;
        r.push(item);
        assert(trees(r@) == trees(before).push(item.tree()));
        assert(trees(r@) == trees(items@).take(i + 1));
        i = i + 1;
    }
    assert(trees(r@) == trees(items@));
    r
}

/// Reads a list answer of any of the three shapes.
pub fn page_of(answer: &Json) -> (r: Option<Page<Json>>)
    ensures
        match (r, page_view(answer.tree())) {
            (Some(page), Some((items, count, total))) => trees(page.data@) == items && page.count
                == count && page.total == total,
            (None, None) => true,
            _ => false,
        },
{
    broadcast use {crate::json::lemma_array_tree, crate::json::lemma_object_tree};

    match answer {
        Json::Array(items) => {
            let data: Vec<Json> = copy_items(items);
            let count: u64 = data.len() as u64;
            Some(Page { data, count, total: None })
        },
        Json::Object(_) => {
            let count: Result<Option<u64>, ()> = read_count(answer.get("count"));
            let total: Result<Option<u64>, ()> = read_count(answer.get("total"));
            match (answer.get("data"), count, total) {
                (Some(Json::Array(items)), Ok(count), Ok(total)) => {
                    let data: Vec<Json> = copy_items(items);
                    let len: u64 = data.len() as u64;
                    Some(
                        Page {
                            data,
                            count: match count {
                                Some(n) => n,
                                None => len,
                            },
                            total,
                        },
                    )
                },
                _ => None,
            }
        },
        _ => None,
    }
}

/// A bare array is a page of its items: counted, and without a total.
pub proof fn law_bare_array_is_counted(items: Seq<Tree>)
    ensures
        page_view(Tree::Array(items)) == Some((items, items.len(), None::<u64>)),
{
}

/// A wrapped list without a count of its own is the page that the bare list is.
pub proof fn law_envelopes_agree(items: Seq<Tree>)
    ensures
        page_view(Tree::Object(seq![("data"@, Tree::Array(items))])) == page_view(
            Tree::Array(items),
        ),
{
    let members = seq![("data"@, Tree::Array(items))];
    reveal_strlit("data");
    reveal_strlit("count");
    reveal_strlit("total");
    assert("data"@[0] == 'd' && "count"@[0] == 'c' && "total"@[0] == 't');
    assert(members[0].0 == "data"@);
    reveal_with_fuel(crate::json::member_from, 3);
}

} // verus!
