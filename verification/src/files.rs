//! A run's bindable inputs and its captured outputs.

use crate::json::{int_tree, member_from, trees, Json, Tree};
use crate::models::Workflow;
use crate::text::{
    cat, decimal, decimal_u64, opt_string, opt_text, own, replace_char, replaced, text_eq,
};
use vstd::prelude::*;

verus! {

broadcast use vstd::string::group_string_axioms;

/// A file that a run can be given.
#[derive(Debug, Clone, PartialEq, Eq)]
pub struct FileSlot {
    /// Key under which a file is bound.
    pub slot: String,
    /// Name for people.
    pub label: String,
    /// Whether several files can be bound.
    pub is_multiple: bool,
    /// File in use unless another is bound.
    pub default_file_id: Option<String>,
    /// Name of that file.
    pub default_filename: Option<String>,
    /// Whether the workflow names the slot itself; then the caller must bind it.
    pub declared: bool,
}

/// A file that a run captured.
#[derive(Debug, Clone, PartialEq, Eq)]
pub struct OutputFile {
    pub file_id: String,
    pub filename: String,
    pub size: i64,
    pub content_type: String,
    pub output_key: Option<String>,
}

/// The contents of a slot.
#[verifier::ext_equal]
pub struct SlotView {
    pub slot: Seq<char>,
    pub label: Seq<char>,
    pub is_multiple: bool,
    pub default_file_id: Option<Seq<char>>,
    pub default_filename: Option<Seq<char>>,
    pub declared: bool,
}

impl View for FileSlot {
    type V = SlotView;

    open spec fn view(&self) -> SlotView {
        SlotView {
            slot: self.slot@,
            label: self.label@,
            is_multiple: self.is_multiple,
            default_file_id: opt_string(self.default_file_id),
            default_filename: opt_string(self.default_filename),
            declared: self.declared,
        }
    }
}

/// A text, unless it is empty.
pub open spec fn filled(s: Option<Seq<char>>) -> Option<Seq<char>> {
    match s {
        Some(t) => if t.len() > 0 {
            Some(t)
        } else {
            None
        },
        None => None,
    }
}

/// The first of three texts that is there and not empty.
pub open spec fn first_filled(
    a: Option<Seq<char>>,
    b: Option<Seq<char>>,
    c: Option<Seq<char>>,
) -> Option<Seq<char>> {
    match (filled(a), filled(b), filled(c)) {
        (Some(s), _, _) => Some(s),
        (None, Some(s), _) => Some(s),
        (None, None, s) => s,
    }
}

/// The first of three texts that is there and not empty.
pub fn first_non_empty(vals: [Option<&str>; 3]) -> (r: Option<String>)
    ensures
        opt_string(r) == first_filled(opt_text(vals@[0]), opt_text(vals@[1]), opt_text(vals@[2])),
{
    let mut i: usize = 0;
    while i < 3
        invariant
            i <= 3,
            forall|k: int| 0 <= k < i ==> filled(opt_text(#[trigger] vals@[k])) is None,
        decreases 3 - i,
    {
        let val: Option<&str> = vals[i];
        if let Some(s) = val {
            if !s.is_empty() {
                return Some(s.to_owned());
            }
        }
        assert(filled(opt_text(vals@[i as int])) is None);
        i = i + 1;
    }
    assert(filled(opt_text(vals@[0])) is None && filled(opt_text(vals@[1])) is None && filled(
        opt_text(vals@[2]),
    ) is None);
    None
}

/// A member of a step's member, where it is a string and not empty.
pub open spec fn sub_text(step: Tree, key: Seq<char>, field: Seq<char>) -> Option<Seq<char>> {
    match step.get(key) {
        Some(t) => filled(t.str_at(field)),
        None => None,
    }
}

/// A text from a step's configuration, else from its recorded options.
pub open spec fn setting(step: Tree, field: Seq<char>) -> Option<Seq<char>> {
    match sub_text(step, "config"@, field) {
        Some(s) => Some(s),
        None => sub_text(step, "options"@, field),
    }
}

/// Whether a member of a step says that several files can be bound.
pub open spec fn says_multiple(step: Tree, key: Seq<char>) -> bool {
    match step.get(key) {
        Some(t) => match t.get("is_multiple"@) {
            Some(v) => v == Tree::Bool(true),
            None => false,
        },
        None => false,
    }
}

/// The key of a step's slot: the name it declares, else one made of its own id, else one
/// made of its position.
pub open spec fn slot_key(step: Tree, i: int) -> Seq<char> {
    match setting(step, "file_slot"@) {
        Some(named) => named,
        None => match filled(step.str_at("id"@)) {
            Some(id) => "step:"@ + id,
            None => "upload:"@ + decimal((i + 1) as nat),
        },
    }
}

/// The name of the file in use unless another is bound.
pub open spec fn default_name(step: Tree) -> Option<Seq<char>> {
    first_filled(
        sub_text(step, "config"@, "file_name"@),
        sub_text(step, "options"@, "filename"@),
        sub_text(step, "options"@, "file_name"@),
    )
}

/// The slot of the step at position `i`, where it is an upload.
pub open spec fn slot_of(step: Tree, i: int) -> Option<SlotView> {
    if step.str_at("type"@) == Some("upload"@) {
        let declared = setting(step, "file_slot"@) is Some;
        let slot = slot_key(step, i);
        Some(
            SlotView {
                slot,
                label: match first_filled(
                    sub_text(step, "config"@, "label"@),
                    sub_text(step, "options"@, "label"@),
                    default_name(step),
                ) {
                    Some(label) => label,
                    None => if declared {
                        replaced(slot, '_', ' ')
                    } else {
                        "File "@ + decimal((i + 1) as nat)
                    },
                },
                is_multiple: says_multiple(step, "config"@) || says_multiple(step, "options"@),
                default_file_id: setting(step, "file_id"@),
                default_filename: default_name(step),
                declared,
            },
        )
    } else {
        None
    }
}

/// Whether a slot with this key is among the given ones.
pub open spec fn has_key(slots: Seq<SlotView>, key: Seq<char>) -> bool {
    exists|k: int| 0 <= k < slots.len() && (#[trigger] slots[k]).slot == key
}

/// The slots of the first `n` steps: each upload step's, unless its key is taken.
pub open spec fn slots_of(steps: Seq<Tree>, n: int) -> Seq<SlotView>
    decreases n,
{
    if n <= 0 || n > steps.len() {
        seq![]
    } else {
        let before = slots_of(steps, n - 1);
        match slot_of(steps[n - 1], n - 1) {
            Some(s) => if has_key(before, s.slot) {
                before
            } else {
                before.push(s)
            },
            None => before,
        }
    }
}

/// The slots of a workflow's steps; none where the steps are not a list.
pub open spec fn workflow_slots(steps: Option<Tree>) -> Seq<SlotView> {
    match steps {
        Some(Tree::Array(items)) => slots_of(items, items.len() as int),
        _ => seq![],
    }
}

/// The contents of slots.
pub open spec fn slot_views(v: Seq<FileSlot>) -> Seq<SlotView> {
    v.map_values(|s: FileSlot| s@)
}

fn non_empty<'a>(value: Option<&'a str>) -> (r: Option<&'a str>)
    ensures
        opt_text(r) == filled(opt_text(value)),
{
    match value {
        Some(s) => if s.is_empty() {
            None
        } else {
            Some(s)
        },
        None => None,
    }
}

fn sub_member<'a>(step: &'a Json, key: &str, field: &str) -> (r: Option<&'a str>)
    ensures
        opt_text(r) == sub_text(step.tree(), key@, field@),
{
    match step.get(key) {
        Some(j) => non_empty(j.str_at(field)),
        None => None,
    }
}

fn config_or_options<'a>(step: &'a Json, field: &str) -> (r: Option<&'a str>)
    ensures
        opt_text(r) == setting(step.tree(), field@),
{
    match sub_member(step, "config", field) {
        Some(s) => Some(s),
        None => sub_member(step, "options", field),
    }
}

fn multiple_in(step: &Json, key: &str) -> (r: bool)
    ensures
        r == says_multiple(step.tree(), key@),
{
    match step.get(key) {
        Some(j) => match j.get("is_multiple") {
            Some(Json::Bool(b)) => *b,
            _ => false,
        },
        None => false,
    }
}

/// The slot of one step.
fn slot_for(step: &Json, i: usize) -> (r: Option<FileSlot>)
    requires
        i < usize::MAX,
    ensures
        match (r, slot_of(step.tree(), i as int)) {
            (Some(s), Some(v)) => s@ == v,
            (None, None) => true,
            _ => false,
        },
{
    match step.str_at("type") {
        Some(kind) => {
            if !text_eq(kind, "upload") {
                return None;
            }
        },
        None => {
            return None;
        },
    }
    let position: String = decimal_u64(i as u64 + 1);
    let named: Option<&str> = config_or_options(step, "file_slot");
    let declared: bool = named.is_some();
    let slot: String = match named {
        Some(s) => s.to_owned(),
        None => match non_empty(step.str_at("id")) {
            Some(id) => cat("step:", id),
            None => cat("upload:", position.as_str()),
        },
    };
    let default_filename: Option<String> = first_non_empty(
        [
            sub_member(step, "config", "file_name"),
            sub_member(step, "options", "filename"),
            sub_member(step, "options", "file_name"),
        ],
    );
    let default_text: Option<&str> = match &default_filename {
        Some(s) => Some(s.as_str()),
        None => None,
    };
    let label: String = match first_non_empty(
        [sub_member(step, "config", "label"), sub_member(step, "options", "label"), default_text],
    ) {
        Some(s) => s,
        None => if declared {
            replace_char(slot.as_str(), '_', ' ')
        } else {
            cat("File ", position.as_str())
        },
    };
    let is_multiple: bool = multiple_in(step, "config") || multiple_in(step, "options");
    let default_file_id: Option<String> = own(config_or_options(step, "file_id"));
    Some(FileSlot { slot, label, is_multiple, default_file_id, default_filename, declared })
}

/// Whether a slot with this key is among the given ones.
fn taken(slots: &Vec<FileSlot>, key: &str) -> (r: bool)
    ensures
        r == has_key(slot_views(slots@), key@),
{
    let mut k: usize = 0;
    while k < slots.len()
        invariant
            k <= slots.len(),
            forall|j: int| 0 <= j < k ==> (#[trigger] slot_views(slots@)[j]).slot != key@,
        decreases slots.len() - k,
    {
        assert(slot_views(slots@)[k as int].slot == slots@[k as int].slot@);
        if text_eq(slots[k].slot.as_str(), key) {
            return true;
        }
        k = k + 1;
    }
    false
}

/// Every file that a run of the workflow can be given.
pub fn file_slots(workflow: &Workflow) -> (r: Vec<FileSlot>)
    ensures
        slot_views(r@) == workflow_slots(crate::json::opt_tree(workflow.steps)),
{
    broadcast use crate::json::lemma_array_tree;

    let mut out: Vec<FileSlot> = Vec::new();
    assert(slot_views(out@) == Seq::<SlotView>::empty());
    if let Some(Json::Array(steps)) = &workflow.steps {
        let ghost items = trees(steps@);
        let mut i: usize = 0;
        while i < steps.len()
            invariant
                i <= steps.len(),
                items == trees(steps@),
                slot_views(out@) == slots_of(items, i as int),
            decreases steps.len() - i,
        {
            assert(items[i as int] == steps@[i as int].tree());
            if let Some(slot) = slot_for(&steps[i], i) {
                if !taken(&out, slot.slot.as_str()) {
                    let ghost before = out@;
                    let ghost view = slot@;
                    out.push(slot);
                    assert(slot_views(out@) == slot_views(before).push(view));
                }
            }
            i = i + 1;
        }
    }
    out
}

/// No two slots of a workflow share a key.
pub proof fn law_slot_keys_are_distinct(steps: Seq<Tree>, n: int)
    requires
        0 <= n <= steps.len(),
    ensures
        forall|a: int, b: int|
            0 <= a < b < slots_of(steps, n).len() ==> (#[trigger] slots_of(steps, n)[a]).slot != (
            #[trigger] slots_of(steps, n)[b]).slot,
    decreases n,
{
    if n > 0 {
        law_slot_keys_are_distinct(steps, n - 1);
        let before = slots_of(steps, n - 1);
        let now = slots_of(steps, n);
        assert forall|a: int, b: int| 0 <= a < b < now.len() implies (#[trigger] now[a]).slot != (
        #[trigger] now[b]).slot by {
            assert(before[a] == now[a]);
            if b < before.len() {
                assert(before[b] == now[b]);
            }
        }
    }
}

/// Every upload step's key is among the slots, and nothing else is: no upload step is
/// passed over, and a workflow without one has no slots.
pub proof fn law_slots_are_the_upload_steps(steps: Seq<Tree>, n: int)
    requires
        0 <= n <= steps.len(),
    ensures
        forall|key: Seq<char>|
            #[trigger] has_key(slots_of(steps, n), key) <==> exists|i: int|
                0 <= i < n && (#[trigger] slot_of(steps[i], i) matches Some(s) && s.slot == key),
    decreases n,
{
    if n > 0 {
        law_slots_are_the_upload_steps(steps, n - 1);
        let before = slots_of(steps, n - 1);
        let now = slots_of(steps, n);
        assert forall|key: Seq<char>| #[trigger] has_key(now, key) <==> exists|i: int|
            0 <= i < n && (#[trigger] slot_of(steps[i], i) matches Some(s) && s.slot == key) by {
            if has_key(now, key) {
                let k = choose|k: int| 0 <= k < now.len() && (#[trigger] now[k]).slot == key;
                if k < before.len() {
                    assert(before[k].slot == key);
                    assert(has_key(before, key));
                } else {
                    assert(slot_of(steps[n - 1], n - 1) is Some);
                }
            }
            if has_key(before, key) {
                let k = choose|k: int| 0 <= k < before.len() && (#[trigger] before[k]).slot == key;
                assert(now[k].slot == key);
            }
            if exists|i: int|
                0 <= i < n && (#[trigger] slot_of(steps[i], i) matches Some(s) && s.slot == key) {
                let i = choose|i: int|
                    0 <= i < n && (#[trigger] slot_of(steps[i], i) matches Some(s) && s.slot
                        == key);
                if i == n - 1 && !has_key(before, key) {
                    assert(now[before.len() as int].slot == key);
                }
            }
        }
    }
}

/// A binding survives reordering: the key of a step that names a slot or has an id does
/// not depend on where the step stands.
pub proof fn law_keys_survive_reordering(step: Tree, i: int, j: int)
    requires
        setting(step, "file_slot"@) is Some || filled(step.str_at("id"@)) is Some,
    ensures
        slot_key(step, i) == slot_key(step, j),
{
}

/// A slot says what its step says, under the step's own names. The configuration wins over
/// the recorded options; a label falls back to the file's name, then to the slot's key or
/// the step's number.
pub proof fn law_slots_are_read_by_name(step: Tree, i: int, c: Tree, o: Tree)
    requires
        step.get("config"@) == Some(c),
        step.get("options"@) == Some(o),
        step.str_at("type"@) == Some("upload"@),
    ensures
        slot_of(step, i) is Some,
        slot_of(step, i) matches Some(s) ==> {
            &&& filled(c.str_at("file_slot"@)) matches Some(k) ==> s.slot == k && s.declared
            &&& filled(c.str_at("file_slot"@)) is None ==> (filled(o.str_at("file_slot"@)) matches
                Some(k) ==> s.slot == k && s.declared)
            &&& filled(c.str_at("file_slot"@)) is None && filled(o.str_at("file_slot"@)) is None
                ==> {
                &&& !s.declared
                &&& s.slot == match filled(step.str_at("id"@)) {
                    Some(id) => "step:"@ + id,
                    None => "upload:"@ + decimal((i + 1) as nat),
                }
            }
            &&& filled(c.str_at("label"@)) matches Some(l) ==> s.label == l
            &&& filled(c.str_at("label"@)) is None ==> (filled(o.str_at("label"@)) matches Some(l)
                ==> s.label == l)
            &&& filled(c.str_at("label"@)) is None && filled(o.str_at("label"@)) is None ==> s.label
                == match s.default_filename {
                Some(l) => l,
                None => if s.declared {
                    replaced(s.slot, '_', ' ')
                } else {
                    "File "@ + decimal((i + 1) as nat)
                },
            }
            &&& s.is_multiple <==> c.get("is_multiple"@) == Some(Tree::Bool(true)) || o.get(
                "is_multiple"@,
            ) == Some(Tree::Bool(true))
            &&& s.default_file_id == match filled(c.str_at("file_id"@)) {
                Some(id) => Some(id),
                None => filled(o.str_at("file_id"@)),
            }
            &&& filled(c.str_at("file_name"@)) matches Some(f) ==> s.default_filename == Some(f)
            &&& filled(c.str_at("file_name"@)) is None ==> s.default_filename == match filled(
                o.str_at("filename"@),
            ) {
                Some(f) => Some(f),
                None => filled(o.str_at("file_name"@)),
            }
        },
{
}

/// Only upload steps have a slot, and a step without recorded settings has one of its own.
pub proof fn law_plain_upload_steps_have_a_slot(step: Tree, i: int)
    ensures
        slot_of(step, i) is Some <==> step.str_at("type"@) == Some("upload"@),
        step.get("config"@) is None && step.get("options"@) is None ==> (slot_of(step, i) matches
            Some(s) ==> {
            &&& !s.declared
            &&& !s.is_multiple
            &&& s.default_file_id is None
            &&& s.default_filename is None
            &&& s.label == "File "@ + decimal((i + 1) as nat)
        }),
{
}

/// The contents of a captured file.
#[verifier::ext_equal]
pub struct OutputView {
    pub file_id: Seq<char>,
    pub filename: Seq<char>,
    pub size: i64,
    pub content_type: Seq<char>,
    pub output_key: Option<Seq<char>>,
}

impl View for OutputFile {
    type V = OutputView;

    open spec fn view(&self) -> OutputView {
        OutputView {
            file_id: self.file_id@,
            filename: self.filename@,
            size: self.size,
            content_type: self.content_type@,
            output_key: opt_string(self.output_key),
        }
    }
}

/// The value of a captured file's field: by name, or by position where the file is
/// written as a list of at most five values.
pub open spec fn output_field(t: Tree, name: Seq<char>, position: int) -> Option<Tree> {
    match t {
        Tree::Array(items) => if position < items.len() {
            Some(items[position])
        } else {
            None
        },
        _ => t.get(name),
    }
}

/// A text field that may be left out.
pub open spec fn text_or_empty(v: Option<Tree>) -> Option<Seq<char>> {
    match v {
        None => Some(seq![]),
        Some(t) => t.as_str(),
    }
}

/// The captured file that a value describes: it has an id, and no field is of a wrong
/// type.
pub open spec fn output_of(t: Tree) -> Option<OutputView> {
    let shaped = match t {
        Tree::Array(items) => items.len() <= 5,
        Tree::Object(_) => true,
        _ => false,
    };
    let file_id = match output_field(t, "file_id"@, 0) {
        Some(v) => v.as_str(),
        None => None,
    };
    let size = match output_field(t, "size"@, 2) {
        Some(v) => v.as_i64(),
        None => Some(0i64),
    };
    let output_key = match output_field(t, "output_key"@, 4) {
        None => Some(None),
        Some(Tree::Null) => Some(None),
        Some(Tree::Str(s)) => Some(Some(s)),
        Some(_) => None,
    };
    match (
        file_id,
        text_or_empty(output_field(t, "filename"@, 1)),
        size,
        text_or_empty(output_field(t, "content_type"@, 3)),
        output_key,
    ) {
        (Some(file_id), Some(filename), Some(size), Some(content_type), Some(output_key)) =>
            if shaped {
                Some(OutputView { file_id, filename, size, content_type, output_key })
            } else {
                None
            },
        _ => None,
    }
}

/// A captured file that is written as an object has each field under its own name, and is
/// one exactly where it has an id and nothing of a wrong type.
pub proof fn law_captured_files_are_read_by_name(t: Tree)
    requires
        t is Object,
    ensures
        output_of(t) matches Some(v) ==> {
            &&& t.str_at("file_id"@) == Some(v.file_id)
            &&& match t.get("filename"@) {
                Some(u) => u == Tree::Str(v.filename),
                None => v.filename.len() == 0,
            }
            &&& match t.get("size"@) {
                Some(u) => u.as_i64() == Some(v.size),
                None => v.size == 0,
            }
            &&& match t.get("content_type"@) {
                Some(u) => u == Tree::Str(v.content_type),
                None => v.content_type.len() == 0,
            }
            &&& match t.get("output_key"@) {
                Some(Tree::Str(s)) => v.output_key == Some(s),
                Some(u) => u is Null && v.output_key is None,
                None => v.output_key is None,
            }
        },
        output_of(t) is Some <==> {
            &&& t.str_at("file_id"@) is Some
            &&& t.get("filename"@) matches Some(u) ==> u is Str
            &&& t.get("size"@) matches Some(u) ==> u.as_i64() is Some
            &&& t.get("content_type"@) matches Some(u) ==> u is Str
            &&& t.get("output_key"@) matches Some(u) ==> u is Str || u is Null
        },
{
}

/// A captured file that is written as a list has its id, name, size, type and key in this
/// order, the later ones left out where they are not there.
pub proof fn law_captured_files_are_read_by_position(items: Seq<Tree>)
    requires
        0 < items.len() <= 5,
    ensures
        output_of(Tree::Array(items)) matches Some(v) ==> {
            &&& items[0] == Tree::Str(v.file_id)
            &&& items.len() > 1 ==> items[1] == Tree::Str(v.filename)
            &&& items.len() <= 1 ==> v.filename.len() == 0
            &&& items.len() > 2 ==> items[2].as_i64() == Some(v.size)
            &&& items.len() <= 2 ==> v.size == 0
            &&& items.len() > 3 ==> items[3] == Tree::Str(v.content_type)
            &&& items.len() <= 3 ==> v.content_type.len() == 0
            &&& items.len() > 4 ==> (items[4] == Tree::Null && v.output_key is None || (
            v.output_key matches Some(s) && items[4] == Tree::Str(s)))
            &&& items.len() <= 4 ==> v.output_key is None
        },
{
}

/// A captured file as a run reports it.
pub open spec fn output_tree(v: OutputView) -> Tree {
    Tree::Object(
        seq![
            ("file_id"@, Tree::Str(v.file_id)),
            ("filename"@, Tree::Str(v.filename)),
            ("size"@, int_tree(v.size as int)),
            ("content_type"@, Tree::Str(v.content_type)),
            (
                "output_key"@,
                match v.output_key {
                    Some(s) => Tree::Str(s),
                    None => Tree::Null,
                },
            ),
        ],
    )
}

/// Every captured file survives being reported.
pub proof fn law_captured_files_round_trip(v: OutputView)
    ensures
        output_of(output_tree(v)) == Some(v),
{
    let t = output_tree(v);
    reveal_with_fuel(member_from, 7);
    reveal_strlit("file_id");
    reveal_strlit("filename");
    reveal_strlit("size");
    reveal_strlit("content_type");
    reveal_strlit("output_key");
    assert("file_id"@.len() == 7);
    assert("filename"@.len() == 8);
    assert("size"@.len() == 4);
    assert("content_type"@.len() == 12);
    assert("output_key"@.len() == 10);
    let m = t->Object_0;
    assert(t.get("file_id"@) == Some(m[0].1));
    assert(t.get("filename"@) == Some(m[1].1));
    assert(t.get("size"@) == Some(m[2].1));
    assert(t.get("content_type"@) == Some(m[3].1));
    assert(t.get("output_key"@) == Some(m[4].1));
    law_captured_files_are_read_by_name(t);
}

/// The captured files that the first `n` values describe; other values are passed over.
pub open spec fn outputs_of(items: Seq<Tree>, n: int) -> Seq<OutputView>
    decreases n,
{
    if n <= 0 || n > items.len() {
        seq![]
    } else {
        match output_of(items[n - 1]) {
            Some(f) => outputs_of(items, n - 1).push(f),
            None => outputs_of(items, n - 1),
        }
    }
}

/// No captured file is passed over and none comes of anything else: the files are those
/// that the values describe, in their order.
pub proof fn law_captured_files_are_all_listed(items: Seq<Tree>, n: int)
    requires
        0 <= n <= items.len(),
    ensures
        forall|f: OutputView|
            #[trigger] outputs_of(items, n).contains(f) <==> exists|i: int|
                0 <= i < n && #[trigger] output_of(items[i]) == Some(f),
        outputs_of(items, n).len() <= n,
        (forall|i: int| 0 <= i < n ==> #[trigger] output_of(items[i]) is Some) ==> outputs_of(
            items,
            n,
        ).len() == n && forall|i: int|
            0 <= i < n ==> Some(outputs_of(items, n)[i]) == #[trigger] output_of(items[i]),
    decreases n,
{
    if n > 0 {
        law_captured_files_are_all_listed(items, n - 1);
        let before = outputs_of(items, n - 1);
        let now = outputs_of(items, n);
        assert forall|f: OutputView| #[trigger] now.contains(f) <==> exists|i: int|
            0 <= i < n && #[trigger] output_of(items[i]) == Some(f) by {
            if now.contains(f) {
                let k = choose|k: int| 0 <= k < now.len() && now[k] == f;
                if k < before.len() {
                    assert(before[k] == f);
                    assert(before.contains(f));
                } else {
                    assert(output_of(items[n - 1]) == Some(f));
                }
            }
            if exists|i: int| 0 <= i < n && #[trigger] output_of(items[i]) == Some(f) {
                let i = choose|i: int| 0 <= i < n && #[trigger] output_of(items[i]) == Some(f);
                if i < n - 1 {
                    assert(before.contains(f));
                    let k = choose|k: int| 0 <= k < before.len() && before[k] == f;
                    assert(now[k] == f);
                } else {
                    assert(now[before.len() as int] == f);
                }
            }
        }
    }
}

/// The captured files under a member `output_files`.
pub open spec fn listed_outputs(t: Tree) -> Seq<OutputView> {
    match t.get("output_files"@) {
        Some(Tree::Array(items)) => outputs_of(items, items.len() as int),
        _ => seq![],
    }
}

/// The captured files under a member of a member.
pub open spec fn nested_outputs(t: Tree, key: Seq<char>) -> Seq<OutputView> {
    match t.get(key) {
        Some(inner) => listed_outputs(inner),
        None => seq![],
    }
}

/// The captured files of a payload: the first list of them that is not empty, at the
/// top, under `result_data`, or under `results`.
pub open spec fn payload_outputs(t: Tree) -> Seq<OutputView> {
    if listed_outputs(t).len() > 0 {
        listed_outputs(t)
    } else if nested_outputs(t, "result_data"@).len() > 0 {
        nested_outputs(t, "result_data"@)
    } else {
        nested_outputs(t, "results"@)
    }
}

/// The contents of captured files.
pub open spec fn output_views(v: Seq<OutputFile>) -> Seq<OutputView> {
    v.map_values(|f: OutputFile| f@)
}

fn output_member<'a>(j: &'a Json, name: &str, position: usize) -> (r: Option<&'a Json>)
    ensures
        match (r, output_field(j.tree(), name@, position as int)) {
            (Some(v), Some(t)) => v.tree() == t,
            (None, None) => true,
            _ => false,
        },
{
    broadcast use crate::json::lemma_array_tree;

    match j {
        Json::Array(items) => {
            if position < items.len() {
                assert(trees(items@)[position as int] == items@[position as int].tree());
                Some(&items[position])
            } else {
                None
            }
        },
        _ => j.get(name),
    }
}

fn text_member(value: Option<&Json>) -> (r: Option<String>)
    ensures
        opt_string(r) == text_or_empty(
            match value {
                Some(j) => Some(j.tree()),
                None => None,
            },
        ),
{
    match value {
        None => Some(String::new()),
        Some(j) => own(j.as_str()),
    }
}

/// Reads one captured file.
fn read_output(j: &Json) -> (r: Option<OutputFile>)
    ensures
        match (r, output_of(j.tree())) {
            (Some(f), Some(v)) => f@ == v,
            (None, None) => true,
            _ => false,
        },
{
    broadcast use {crate::json::lemma_array_tree, crate::json::lemma_object_tree};

    let shaped: bool = match j {
        Json::Array(items) => items.len() <= 5,
        Json::Object(_) => true,
        _ => false,
    };
    if !shaped {
        return None;
    }
    let file_id: String = match output_member(j, "file_id", 0) {
        Some(v) => match v.as_str() {
            Some(s) => s.to_owned(),
            None => {
                return None;
            },
        },
        None => {
            return None;
        },
    };
    let filename: String = match text_member(output_member(j, "filename", 1)) {
        Some(s) => s,
        None => {
            return None;
        },
    };
    let size: i64 = match output_member(j, "size", 2) {
        Some(v) => match v.as_i64() {
            Some(n) => n,
            None => {
                return None;
            },
        },
        None => 0,
    };
    let content_type: String = match text_member(output_member(j, "content_type", 3)) {
        Some(s) => s,
        None => {
            return None;
        },
    };
    let output_key: Option<String> = match output_member(j, "output_key", 4) {
        None => None,
        Some(Json::Null) => None,
        Some(Json::Str(s)) => Some(s.clone()),
        Some(_) => {
            return None;
        },
    };
    Some(OutputFile { file_id, filename, size, content_type, output_key })
}

fn listed(j: &Json) -> (r: Vec<OutputFile>)
    ensures
        output_views(r@) == listed_outputs(j.tree()),
{
    broadcast use crate::json::lemma_array_tree;

    let mut out: Vec<OutputFile> = Vec::new();
    assert(output_views(out@) == Seq::<OutputView>::empty());
    if let Some(Json::Array(values)) = j.get("output_files") {
        let ghost items = trees(values@);
        let mut i: usize = 0;
        while i < values.len()
            invariant
                i <= values.len(),
                items == trees(values@),
                output_views(out@) == outputs_of(items, i as int),
            decreases values.len() - i,
        {
            assert(items[i as int] == values@[i as int].tree());
            if let Some(f) = read_output(&values[i]) {
                let ghost before = out@;
                let ghost view = f@;
                out.push(f);
                assert(output_views(out@) == output_views(before).push(view));
            }
            i = i + 1;
        }
    }
    out
}

fn nested(j: &Json, key: &str) -> (r: Vec<OutputFile>)
    ensures
        output_views(r@) == nested_outputs(j.tree(), key@),
{
    match j.get(key) {
        Some(inner) => listed(inner),
        None => {
            let out: Vec<OutputFile> = Vec::new();
            assert(output_views(out@) == Seq::<OutputView>::empty());
            out
        },
    }
}

/// The files that a run captured, whichever envelope they came in.
pub fn output_files(payload: &Json) -> (r: Vec<OutputFile>)
    ensures
        output_views(r@) == payload_outputs(payload.tree()),
{
    let top: Vec<OutputFile> = listed(payload);
    if top.len() > 0 {
        assert(output_views(top@).len() == top@.len());
        return top;
    }
    assert(output_views(top@).len() == 0);
    let data: Vec<OutputFile> = nested(payload, "result_data");
    if data.len() > 0 {
        assert(output_views(data@).len() == data@.len());
        return data;
    }
    assert(output_views(data@).len() == 0);
    nested(payload, "results")
}

} // verus!
