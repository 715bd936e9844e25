use vstd::prelude::*;
use vstd::string::StrSliceExecFns;

use crate::json::values::{
    json_node, json_path_result, json_pretty, json_same, json_to_toml, json_to_yaml, pretty_json,
    query_json_path, read_json, same_json, toml_text, yaml_text, JsonKind, JsonNode, JsonNodeView,
};
use crate::text::{concat, concat3, decimal_text, owned, str_eq, u64_to_string};

verus! {

/// Nesting levels the document walks descend below the root.
/// `serde_json` refuses documents nested 128 containers deep or more, so a
/// walk of this depth reaches every value of a document it accepts.
pub const JSON_DEPTH: u32 = 128;

/// Numbers of objects, arrays, strings, numbers, booleans and nulls.
pub type Tally = (int, int, int, int, int, int);

/// No value of any kind.
pub open spec fn tally_zero() -> Tally {
    (0, 0, 0, 0, 0, 0)
}

/// The sum of two tallies.
pub open spec fn tally_add(a: Tally, b: Tally) -> Tally {
    (a.0 + b.0, a.1 + b.1, a.2 + b.2, a.3 + b.3, a.4 + b.4, a.5 + b.5)
}

/// One value of kind `k`.
pub open spec fn tally_of_kind(k: JsonKind) -> Tally {
    match k {
        JsonKind::Object => (1, 0, 0, 0, 0, 0),
        JsonKind::Array => (0, 1, 0, 0, 0, 0),
        JsonKind::Str => (0, 0, 1, 0, 0, 0),
        JsonKind::Number => (0, 0, 0, 1, 0, 0),
        JsonKind::Bool => (0, 0, 0, 0, 1, 0),
        JsonKind::Null => (0, 0, 0, 0, 0, 1),
    }
}

/// The texts of the children of a node: an array's items, an object's
/// values; a scalar has none.
pub open spec fn child_texts(n: JsonNodeView) -> Seq<Seq<char>> {
    if n.0 == JsonKind::Array {
        n.2
    } else if n.0 == JsonKind::Object {
        n.3.map_values(|e: (Seq<char>, Seq<char>)| e.1)
    } else {
        Seq::empty()
    }
}

/// The values of each kind in the document `s`, its root and the values
/// below it down to `depth` levels; nothing for a text that is not JSON.
pub open spec fn type_tally(s: Seq<char>, depth: nat) -> Tally
    decreases depth, 1nat, 0nat,
{
    match json_node(s) {
        Err(_) => tally_zero(),
        Ok(n) => if depth == 0 {
            tally_of_kind(n.0)
        } else {
            tally_add(tally_of_kind(n.0), children_tally(child_texts(n), (depth - 1) as nat))
        },
    }
}

/// The values of each kind in the documents `cs`, down to `depth` levels
/// below each.
pub open spec fn children_tally(cs: Seq<Seq<char>>, depth: nat) -> Tally
    decreases depth + 1, 0nat, cs.len(),
{
    if cs.len() == 0 {
        tally_zero()
    } else {
        tally_add(children_tally(cs.drop_last(), depth), type_tally(cs.last(), depth))
    }
}

/// Every count of a tally is at least zero.
pub open spec fn tally_nonneg(t: Tally) -> bool {
    t.0 >= 0 && t.1 >= 0 && t.2 >= 0 && t.3 >= 0 && t.4 >= 0 && t.5 >= 0
}

/// A count capped at the largest `u64`.
pub open spec fn capped(n: int) -> u64 {
    if n > u64::MAX { u64::MAX } else { n as u64 }
}

/// Counts of values by kind, each capped at the largest `u64` (a document
/// held in memory has far fewer values).
#[derive(Debug, Clone, Copy, PartialEq, Eq, Structural)]
pub struct JsonTypeCounts {
    pub objects: u64,
    pub arrays: u64,
    pub strings: u64,
    pub numbers: u64,
    pub bools: u64,
    pub nulls: u64,
}

/// The counts of the tally `t`, capped.
pub open spec fn capped_counts(t: Tally) -> JsonTypeCounts {
    JsonTypeCounts {
        objects: capped(t.0),
        arrays: capped(t.1),
        strings: capped(t.2),
        numbers: capped(t.3),
        bools: capped(t.4),
        nulls: capped(t.5),
    }
}

/// The counts hold the tally `t`, capped.
pub open spec fn counts_hold(c: JsonTypeCounts, t: Tally) -> bool {
    &&& c.objects == capped(t.0)
    &&& c.arrays == capped(t.1)
    &&& c.strings == capped(t.2)
    &&& c.numbers == capped(t.3)
    &&& c.bools == capped(t.4)
    &&& c.nulls == capped(t.5)
}

proof fn lemma_tally_nonneg(s: Seq<char>, depth: nat)
    ensures
        tally_nonneg(type_tally(s, depth)),
    decreases depth, 1nat, 0nat,
{
    match json_node(s) {
        Err(_) => {},
        Ok(n) => if depth > 0 {
            lemma_children_tally_nonneg(child_texts(n), (depth - 1) as nat);
        },
    }
}

proof fn lemma_children_tally_nonneg(cs: Seq<Seq<char>>, depth: nat)
    ensures
        tally_nonneg(children_tally(cs, depth)),
    decreases depth + 1, 0nat, cs.len(),
{
    if cs.len() > 0 {
        lemma_children_tally_nonneg(cs.drop_last(), depth);
        lemma_tally_nonneg(cs.last(), depth);
    }
}

/// `a + b`, capped at the largest `u64`.
fn add_capped(a: u64, b: u64) -> (r: u64)
    ensures
        r == capped(a + b),
{
    a.saturating_add(b)
}

/// Counts of the two tallies added, capped.
fn add_counts(a: JsonTypeCounts, b: JsonTypeCounts) -> (r: JsonTypeCounts)
    ensures
        r.objects == capped(a.objects + b.objects),
        r.arrays == capped(a.arrays + b.arrays),
        r.strings == capped(a.strings + b.strings),
        r.numbers == capped(a.numbers + b.numbers),
        r.bools == capped(a.bools + b.bools),
        r.nulls == capped(a.nulls + b.nulls),
{
    JsonTypeCounts {
        objects: add_capped(a.objects, b.objects),
        arrays: add_capped(a.arrays, b.arrays),
        strings: add_capped(a.strings, b.strings),
        numbers: add_capped(a.numbers, b.numbers),
        bools: add_capped(a.bools, b.bools),
        nulls: add_capped(a.nulls, b.nulls),
    }
}

/// One value of kind `k`.
fn count_of_kind(k: JsonKind) -> (r: JsonTypeCounts)
    ensures
        counts_hold(r, tally_of_kind(k)),
{
    let z = JsonTypeCounts { objects: 0, arrays: 0, strings: 0, numbers: 0, bools: 0, nulls: 0 };
    match k {
        JsonKind::Object => JsonTypeCounts { objects: 1, ..z },
        JsonKind::Array => JsonTypeCounts { arrays: 1, ..z },
        JsonKind::Str => JsonTypeCounts { strings: 1, ..z },
        JsonKind::Number => JsonTypeCounts { numbers: 1, ..z },
        JsonKind::Bool => JsonTypeCounts { bools: 1, ..z },
        JsonKind::Null => JsonTypeCounts { nulls: 1, ..z },
    }
}

/// The texts of a node's children.
fn children_of(n: &JsonNode) -> (r: Vec<String>)
    ensures
        r@.map_values(|t: String| t@) == child_texts(n.view_parts()),
{
    let mut out: Vec<String> = Vec::new();
    if n.kind == JsonKind::Array {
        let mut i: usize = 0;
        while i < n.items.len()
            invariant
                i <= n.items@.len(),
                out@.len() == i,
                forall|j: int| 0 <= j < i ==> (#[trigger] out@[j])@ == n.items@[j]@,
            decreases n.items.len() - i,
        {
            out.push(n.items[i].clone());
            i = i + 1;
        }
        assert(out@.map_values(|t: String| t@) =~= n.items@.map_values(|t: String| t@));
    } else if n.kind == JsonKind::Object {
        let mut i: usize = 0;
        while i < n.entries.len()
            invariant
                i <= n.entries@.len(),
                out@.len() == i,
                forall|j: int| 0 <= j < i ==> (#[trigger] out@[j])@ == n.entries@[j].1@,
            decreases n.entries.len() - i,
        {
            out.push(n.entries[i].1.clone());
            i = i + 1;
        }
        assert(out@.map_values(|t: String| t@) =~= n.view_parts().3.map_values(|e: (Seq<char>, Seq<char>)| e.1));
    }
    assert(out@.map_values(|t: String| t@) =~= child_texts(n.view_parts()));
    out
}

/// Count the values of each kind in the document `s`, down to `depth`
/// levels below its root.
fn count_values(s: &str, depth: u32) -> (r: JsonTypeCounts)
    ensures
        counts_hold(r, type_tally(s@, depth as nat)),
    decreases depth, 1nat, 0nat,
{
    match read_json(s) {
        Err(_) => JsonTypeCounts { objects: 0, arrays: 0, strings: 0, numbers: 0, bools: 0, nulls: 0 },
        Ok(n) => {
            let own = count_of_kind(n.kind);
            if depth == 0 {
                own
            } else {
                let cs = children_of(&n);
                let below = count_children(&cs, depth - 1);
                proof {
                    lemma_children_tally_nonneg(cs@.map_values(|t: String| t@), (depth - 1) as nat);
                }
                add_counts(own, below)
            }
        },
    }
}

/// Count the values of each kind in the documents `cs`.
fn count_children(cs: &Vec<String>, depth: u32) -> (r: JsonTypeCounts)
    ensures
        counts_hold(r, children_tally(cs@.map_values(|t: String| t@), depth as nat)),
    decreases depth + 1, 0nat, 0nat,
{
    let ghost texts = cs@.map_values(|t: String| t@);
    let mut acc = JsonTypeCounts { objects: 0, arrays: 0, strings: 0, numbers: 0, bools: 0, nulls: 0 };
    let mut i: usize = 0;
    while i < cs.len()
        invariant
            i <= cs@.len(),
            texts == cs@.map_values(|t: String| t@),
            counts_hold(acc, children_tally(texts.subrange(0, i as int), depth as nat)),
        decreases cs.len() - i,
    {
        let c = count_values(cs[i].as_str(), depth);
        proof {
            let prefix = texts.subrange(0, i + 1);
            assert(prefix.drop_last() =~= texts.subrange(0, i as int));
            assert(prefix.last() == cs@[i as int]@);
            lemma_children_tally_nonneg(texts.subrange(0, i as int), depth as nat);
            lemma_tally_nonneg(cs@[i as int]@, depth as nat);
        }
        acc = add_counts(acc, c);
        i = i + 1;
    }
    assert(texts.subrange(0, cs@.len() as int) =~= texts);
    acc
}

/// The path shown for a value in a difference: `root` for the document.
pub open spec fn shown_path(path: Seq<char>) -> Seq<char> {
    if path.len() == 0 { "root"@ } else { path }
}

/// The path of the value under `key` of the object at `path`.
pub open spec fn child_path(path: Seq<char>, key: Seq<char>) -> Seq<char> {
    if path.len() == 0 { key } else { path + "."@ + key }
}

/// The value of the first entry with `key`, if any.
pub open spec fn entry_value(entries: Seq<(Seq<char>, Seq<char>)>, key: Seq<char>) -> Option<Seq<char>>
    decreases entries.len(),
{
    if entries.len() == 0 {
        None
    } else if entries[0].0 == key {
        Some(entries[0].1)
    } else {
        entry_value(entries.drop_first(), key)
    }
}

/// The lines joined with line breaks.
pub open spec fn joined_lines(lines: Seq<Seq<char>>) -> Seq<char>
    decreases lines.len(),
{
    if lines.len() == 0 {
        Seq::empty()
    } else if lines.len() == 1 {
        lines[0]
    } else {
        joined_lines(lines.drop_last()) + "\n"@ + lines.last()
    }
}

/// The difference lines for the keys of `ea`, in order: a key missing from
/// `eb` is removed, and a key both have contributes the differences below
/// it (down to `depth` levels), when there are any.
pub open spec fn key_lines(
    ea: Seq<(Seq<char>, Seq<char>)>,
    eb: Seq<(Seq<char>, Seq<char>)>,
    path: Seq<char>,
    depth: nat,
) -> Seq<Seq<char>>
    decreases depth, 0nat, ea.len(),
{
    if ea.len() == 0 {
        Seq::empty()
    } else {
        let prev = key_lines(ea.drop_last(), eb, path, depth);
        let key = ea.last().0;
        let np = child_path(path, key);
        match entry_value(eb, key) {
            None => prev.push("- "@ + np + ": removed"@),
            Some(vb) => {
                let sub = if depth == 0 { Seq::empty() } else { diff_text(ea.last().1, vb, np, (depth - 1) as nat) };
                if sub.len() == 0 { prev } else { prev.push(sub) }
            },
        }
    }
}

/// The lines for the keys only `eb` has, in its order.
pub open spec fn added_lines(
    ea: Seq<(Seq<char>, Seq<char>)>,
    eb: Seq<(Seq<char>, Seq<char>)>,
    path: Seq<char>,
) -> Seq<Seq<char>>
    decreases eb.len(),
{
    if eb.len() == 0 {
        Seq::empty()
    } else {
        let prev = added_lines(ea, eb.drop_last(), path);
        let key = eb.last().0;
        if entry_value(ea, key) is None {
            prev.push("+ "@ + child_path(path, key) + ": added"@)
        } else {
            prev
        }
    }
}

/// The differences from document `a` to document `b` at `path`, one per
/// line: for two objects, the removed keys, the differences below common
/// keys and the added keys; for two arrays, a change of length; otherwise a
/// change of value.  Empty when nothing differs there (or a text is not
/// JSON).
pub open spec fn diff_text(a: Seq<char>, b: Seq<char>, path: Seq<char>, depth: nat) -> Seq<char>
    decreases depth, 1nat, 0nat,
{
    match (json_node(a), json_node(b)) {
        (Ok(na), Ok(nb)) => if na.0 == JsonKind::Object && nb.0 == JsonKind::Object {
            joined_lines(key_lines(na.3, nb.3, path, depth) + added_lines(na.3, nb.3, path))
        } else if na.0 == JsonKind::Array && nb.0 == JsonKind::Array {
            if na.2.len() != nb.2.len() {
                "~ "@ + shown_path(path) + ": array length "@ + decimal_text(na.2.len() as int) + " -> "@
                    + decimal_text(nb.2.len() as int)
            } else {
                Seq::empty()
            }
        } else if !json_same(a, b) {
            "~ "@ + shown_path(path) + ": "@ + na.1 + " -> "@ + nb.1
        } else {
            Seq::empty()
        },
        _ => Seq::empty(),
    }
}

/// The value of the first entry with `key`.
fn find_entry(entries: &Vec<(String, String)>, key: &str) -> (r: Option<String>)
    ensures
        match entry_value(entries@.map_values(|e: (String, String)| (e.0@, e.1@)), key@) {
            Some(v) => r matches Some(t) && t@ == v,
            None => r is None,
        },
{
    let ghost es = entries@.map_values(|e: (String, String)| (e.0@, e.1@));
    assert(es.subrange(0, es.len() as int) =~= es);
    let mut i: usize = 0;
    while i < entries.len()
        invariant
            i <= entries@.len(),
            es == entries@.map_values(|e: (String, String)| (e.0@, e.1@)),
            entry_value(es, key@) == entry_value(es.subrange(i as int, es.len() as int), key@),
        decreases entries.len() - i,
    {
        assert(es.subrange(i as int, es.len() as int)[0] == es[i as int]);
        if str_eq(entries[i].0.as_str(), key) {
            return Some(entries[i].1.clone());
        }
        assert(es.subrange(i as int, es.len() as int).drop_first() =~= es.subrange(i + 1, es.len() as int));
        i = i + 1;
    }
    assert(es.subrange(i as int, es.len() as int).len() == 0);
    None
}

/// The lines joined with line breaks.
fn join_lines(lines: &Vec<String>) -> (r: String)
    ensures
        r@ == joined_lines(lines@.map_values(|t: String| t@)),
{
    let ghost ls = lines@.map_values(|t: String| t@);
    let mut out = String::new();
    let mut i: usize = 0;
    while i < lines.len()
        invariant
            i <= lines@.len(),
            ls == lines@.map_values(|t: String| t@),
            out@ == joined_lines(ls.subrange(0, i as int)),
        decreases lines.len() - i,
    {
        assert(ls.subrange(0, i + 1).drop_last() =~= ls.subrange(0, i as int));
        if i == 0 {
            out = lines[0].clone();
        } else {
            out = concat3(out.as_str(), "\n", lines[i].as_str());
        }
        i = i + 1;
    }
    assert(ls.subrange(0, lines@.len() as int) =~= ls);
    out
}

/// The path of the value under `key` of the object at `path`.
fn make_child_path(path: &str, key: &str) -> (r: String)
    ensures
        r@ == child_path(path@, key@),
{
    if path.unicode_len() == 0 { owned(key) } else { concat3(path, ".", key) }
}

/// The path shown for a value in a difference.
fn make_shown_path(path: &str) -> (r: String)
    ensures
        r@ == shown_path(path@),
{
    if path.unicode_len() == 0 { owned("root") } else { owned(path) }
}

/// The entries of a node as plain values.
pub open spec fn entry_views(entries: Seq<(String, String)>) -> Seq<(Seq<char>, Seq<char>)> {
    entries.map_values(|e: (String, String)| (e.0@, e.1@))
}

/// The texts of a list of strings.
pub open spec fn text_views(lines: Seq<String>) -> Seq<Seq<char>> {
    lines.map_values(|t: String| t@)
}

/// The difference lines for the keys of `ea`.
fn diff_key_lines(ea: &Vec<(String, String)>, eb: &Vec<(String, String)>, path: &str, depth: u32) -> (r: Vec<String>)
    ensures
        text_views(r@) == key_lines(entry_views(ea@), entry_views(eb@), path@, depth as nat),
    decreases depth, 0nat, 0nat,
{
    let ghost va = entry_views(ea@);
    let ghost vb = entry_views(eb@);
    let mut lines: Vec<String> = Vec::new();
    let mut i: usize = 0;
    while i < ea.len()
        invariant
            i <= ea@.len(),
            va == entry_views(ea@),
            vb == entry_views(eb@),
            text_views(lines@) == key_lines(va.subrange(0, i as int), vb, path@, depth as nat),
        decreases ea.len() - i,
    {
        let ghost prefix = va.subrange(0, i + 1);
        assert(prefix.drop_last() =~= va.subrange(0, i as int));
        assert(prefix.last() == va[i as int]);
        let key = ea[i].0.as_str();
        let np = make_child_path(path, key);
        match find_entry(eb, key) {
            None => {
                let line = concat3("- ", np.as_str(), ": removed");
                lines.push(line);
                assert(text_views(lines@) =~= key_lines(prefix, vb, path@, depth as nat));
            },
            Some(other) => {
                let sub = if depth == 0 {
                    String::new()
                } else {
                    generate_diff(ea[i].1.as_str(), other.as_str(), np.as_str(), depth - 1)
                };
                if sub.unicode_len() > 0 {
                    lines.push(sub);
                    assert(text_views(lines@) =~= key_lines(prefix, vb, path@, depth as nat));
                }
            },
        }
        i = i + 1;
    }
    assert(va.subrange(0, ea@.len() as int) =~= va);
    lines
}

/// The lines for the keys only `eb` has.
fn diff_added_lines(ea: &Vec<(String, String)>, eb: &Vec<(String, String)>, path: &str) -> (r: Vec<String>)
    ensures
        text_views(r@) == added_lines(entry_views(ea@), entry_views(eb@), path@),
{
    let ghost va = entry_views(ea@);
    let ghost vb = entry_views(eb@);
    let mut lines: Vec<String> = Vec::new();
    let mut i: usize = 0;
    while i < eb.len()
        invariant
            i <= eb@.len(),
            va == entry_views(ea@),
            vb == entry_views(eb@),
            text_views(lines@) == added_lines(va, vb.subrange(0, i as int), path@),
        decreases eb.len() - i,
    {
        let ghost prefix = vb.subrange(0, i + 1);
        assert(prefix.drop_last() =~= vb.subrange(0, i as int));
        assert(prefix.last() == vb[i as int]);
        let key = eb[i].0.as_str();
        if find_entry(ea, key).is_none() {
            let np = make_child_path(path, key);
            lines.push(concat3("+ ", np.as_str(), ": added"));
            assert(text_views(lines@) =~= added_lines(va, prefix, path@));
        }
        i = i + 1;
    }
    assert(vb.subrange(0, eb@.len() as int) =~= vb);
    lines
}

/// The differences from document `a` to document `b` at `path`, down to
/// `depth` levels, one per line.
fn generate_diff(a: &str, b: &str, path: &str, depth: u32) -> (r: String)
    ensures
        r@ == diff_text(a@, b@, path@, depth as nat),
    decreases depth, 1nat, 0nat,
{
    let na = match read_json(a) {
        Ok(n) => n,
        Err(_) => return String::new(),
    };
    let nb = match read_json(b) {
        Ok(n) => n,
        Err(_) => return String::new(),
    };
    if na.kind == JsonKind::Object && nb.kind == JsonKind::Object {
        let mut lines = diff_key_lines(&na.entries, &nb.entries, path, depth);
        let ghost first = text_views(lines@);
        let mut added = diff_added_lines(&na.entries, &nb.entries, path);
        let ghost second = text_views(added@);
        lines.append(&mut added);
        assert(text_views(lines@) =~= first + second);
        join_lines(&lines)
    } else if na.kind == JsonKind::Array && nb.kind == JsonKind::Array {
        if na.items.len() != nb.items.len() {
            let shown = make_shown_path(path);
            let mut t = concat3("~ ", shown.as_str(), ": array length ");
            t = concat(t.as_str(), u64_to_string(na.items.len() as u64).as_str());
            t = concat(t.as_str(), " -> ");
            concat(t.as_str(), u64_to_string(nb.items.len() as u64).as_str())
        } else {
            String::new()
        }
    } else if !same_json(a, b) {
        let shown = make_shown_path(path);
        let mut t = concat3("~ ", shown.as_str(), ": ");
        t = concat(t.as_str(), na.compact.as_str());
        t = concat(t.as_str(), " -> ");
        concat(t.as_str(), nb.compact.as_str())
    } else {
        String::new()
    }
}

/// State of the JSON tool: the document, the outputs of its actions, and
/// the inputs of the query, the conversion and the comparison.
#[derive(Debug, Clone)]
pub struct JsonModel {
    pub input: String,
    pub output: String,
    pub jsonpath_query: String,
    pub jsonpath_result: String,
    pub convert_format: String,
    pub converted_output: String,
    pub diff_input_a: String,
    pub diff_input_b: String,
    pub diff_result: String,
    pub is_valid: bool,
    pub validation_message: String,
    pub error_message: String,
}

/// The text of an optional text, empty when absent.
pub open spec fn text_or_empty(o: Option<Seq<char>>) -> Seq<char> {
    match o {
        Some(t) => t,
        None => Seq::empty(),
    }
}

/// The validation report of a valid document with the given counts.
pub open spec fn validity_report(c: JsonTypeCounts) -> Seq<char> {
    "Valid JSON - Objects: "@ + decimal_text(c.objects as int) + ", Arrays: "@ + decimal_text(c.arrays as int)
        + ", Strings: "@ + decimal_text(c.strings as int) + ", Numbers: "@ + decimal_text(c.numbers as int)
        + ", Booleans: "@ + decimal_text(c.bools as int) + ", Nulls: "@ + decimal_text(c.nulls as int)
}

/// `new` is the state after formatting the document of `old`.
pub open spec fn formatted(old: JsonModel, new: JsonModel) -> bool {
    let s = old.input@;
    if s.len() == 0 {
        &&& new.output@.len() == 0 && new.error_message@.len() == 0
        &&& new == (JsonModel { output: new.output, error_message: new.error_message, ..old })
    } else {
        match json_node(s) {
            Ok(_) => {
                &&& new.output@ == text_or_empty(json_pretty(s))
                &&& new.is_valid && new.validation_message@ == "Valid JSON"@ && new.error_message@.len() == 0
                &&& new == (JsonModel {
                    output: new.output,
                    is_valid: new.is_valid,
                    validation_message: new.validation_message,
                    error_message: new.error_message,
                    ..old
                })
            },
            Err(e) => {
                &&& !new.is_valid
                &&& new.error_message@ == "Invalid JSON: "@ + e
                &&& new.validation_message@ == "Invalid: "@ + e
                &&& new == (JsonModel {
                    is_valid: new.is_valid,
                    validation_message: new.validation_message,
                    error_message: new.error_message,
                    ..old
                })
            },
        }
    }
}

/// `new` is the state after minifying the document of `old`.
pub open spec fn minified(old: JsonModel, new: JsonModel) -> bool {
    let s = old.input@;
    if s.len() == 0 {
        &&& new.output@.len() == 0 && new.error_message@.len() == 0
        &&& new == (JsonModel { output: new.output, error_message: new.error_message, ..old })
    } else {
        match json_node(s) {
            Ok(n) => {
                &&& new.output@ == n.1 && new.is_valid && new.error_message@.len() == 0
                &&& new == (JsonModel { output: new.output, is_valid: new.is_valid, error_message: new.error_message, ..old })
            },
            Err(e) => {
                &&& !new.is_valid && new.error_message@ == "Invalid JSON: "@ + e
                &&& new == (JsonModel { is_valid: new.is_valid, error_message: new.error_message, ..old })
            },
        }
    }
}

/// `new` is the state after validating the document of `old`.
pub open spec fn validated(old: JsonModel, new: JsonModel) -> bool {
    let s = old.input@;
    &&& new.error_message@.len() == 0
    &&& new == (JsonModel {
        is_valid: new.is_valid,
        validation_message: new.validation_message,
        error_message: new.error_message,
        ..old
    })
    &&& if s.len() == 0 {
        !new.is_valid && new.validation_message@ == "No input"@
    } else {
        match json_node(s) {
            Ok(_) => new.is_valid && new.validation_message@ == validity_report(capped_counts(type_tally(s, JSON_DEPTH as nat))),
            Err(e) => !new.is_valid && new.validation_message@ == "Invalid: "@ + e,
        }
    }
}

/// `new` is `old` with the error message `text` and nothing else changed.
pub open spec fn json_reports(old: JsonModel, new: JsonModel, text: Seq<char>) -> bool {
    new.error_message@ == text && new == (JsonModel { error_message: new.error_message, ..old })
}

/// `new` is the state after running the query of `old` on its document.
pub open spec fn queried(old: JsonModel, new: JsonModel) -> bool {
    let s = old.input@;
    if s.len() == 0 {
        &&& new.jsonpath_result@.len() == 0 && new.error_message@.len() == 0
        &&& new == (JsonModel { jsonpath_result: new.jsonpath_result, error_message: new.error_message, ..old })
    } else {
        match json_node(s) {
            Err(e) => json_reports(old, new, "Invalid JSON: "@ + e),
            Ok(_) => match json_path_result(s, old.jsonpath_query@) {
                Err(e) => json_reports(old, new, "Invalid JSONPath: "@ + e),
                Ok(t) => {
                    &&& new.jsonpath_result@ == t && new.error_message@.len() == 0
                    &&& new == (JsonModel { jsonpath_result: new.jsonpath_result, error_message: new.error_message, ..old })
                },
            },
        }
    }
}

/// `new` shows `converted` as the converted document of `old`.
pub open spec fn shows_conversion(old: JsonModel, new: JsonModel, converted: Seq<char>) -> bool {
    &&& new.converted_output@ == converted && new.error_message@.len() == 0
    &&& new == (JsonModel { converted_output: new.converted_output, error_message: new.error_message, ..old })
}

/// `new` is the state after converting the document of `old` to the format
/// it names: `yaml`, or `toml` (which needs an object at the root).
pub open spec fn converted(old: JsonModel, new: JsonModel) -> bool {
    let s = old.input@;
    let f = old.convert_format@;
    if s.len() == 0 {
        shows_conversion(old, new, Seq::empty())
    } else {
        match json_node(s) {
            Err(e) => json_reports(old, new, "Invalid JSON: "@ + e),
            Ok(n) => if f == "yaml"@ {
                match yaml_text(s) {
                    Ok(t) => shows_conversion(old, new, t),
                    Err(e) => json_reports(old, new, "YAML conversion error: "@ + e),
                }
            } else if f == "toml"@ {
                if n.0 != JsonKind::Object {
                    json_reports(old, new, "TOML requires an object at the root level"@)
                } else {
                    match toml_text(s) {
                        Ok(t) => shows_conversion(old, new, t),
                        Err(e) => json_reports(old, new, "TOML conversion error: "@ + e),
                    }
                }
            } else {
                json_reports(old, new, "Unknown format"@)
            },
        }
    }
}

/// The comparison result shown for two different documents.
pub open spec fn difference_report(a: Seq<char>, b: Seq<char>) -> Seq<char> {
    let d = diff_text(a, b, Seq::empty(), JSON_DEPTH as nat);
    "different:"@ + if d.len() == 0 { "Documents differ (structural differences)"@ } else { d }
}

/// `new` shows `result` as the comparison of the documents of `old`.
pub open spec fn shows_comparison(old: JsonModel, new: JsonModel, result: Seq<char>) -> bool {
    &&& new.diff_result@ == result && new.error_message@.len() == 0
    &&& new == (JsonModel { diff_result: new.diff_result, error_message: new.error_message, ..old })
}

/// `new` is the state after comparing the two documents of `old`.
pub open spec fn compared(old: JsonModel, new: JsonModel) -> bool {
    let a = old.diff_input_a@;
    let b = old.diff_input_b@;
    if a.len() == 0 || b.len() == 0 {
        shows_comparison(old, new, Seq::empty())
    } else {
        match (json_node(a), json_node(b)) {
            (Err(e), _) => json_reports(old, new, "JSON A invalid: "@ + e),
            (Ok(_), Err(e)) => json_reports(old, new, "JSON B invalid: "@ + e),
            (Ok(_), Ok(_)) => if json_same(a, b) {
                shows_comparison(old, new, "identical:The JSON documents are identical"@)
            } else {
                shows_comparison(old, new, difference_report(a, b))
            },
        }
    }
}

impl JsonModel {
    /// The tool with no document: the query `$`, conversion to YAML.
    pub fn new() -> (r: Self)
        ensures
            r.input@.len() == 0 && r.output@.len() == 0,
            r.jsonpath_query@ == "$"@,
            r.jsonpath_result@.len() == 0,
            r.convert_format@ == "yaml"@,
            r.converted_output@.len() == 0,
            r.diff_input_a@.len() == 0 && r.diff_input_b@.len() == 0 && r.diff_result@.len() == 0,
            !r.is_valid,
            r.validation_message@.len() == 0 && r.error_message@.len() == 0,
    {
        JsonModel {
            input: String::new(),
            output: String::new(),
            jsonpath_query: owned("$"),
            jsonpath_result: String::new(),
            convert_format: owned("yaml"),
            converted_output: String::new(),
            diff_input_a: String::new(),
            diff_input_b: String::new(),
            diff_result: String::new(),
            is_valid: false,
            validation_message: String::new(),
            error_message: String::new(),
        }
    }

    /// Pretty-print the document into the output.
    pub fn format_json(&mut self)
        ensures
            formatted(*old(self), *final(self)),
    {
        self.error_message = String::new();
        if self.input.as_str().unicode_len() == 0 {
            self.output = String::new();
            return;
        }
        match read_json(self.input.as_str()) {
            Ok(_) => {
                self.output = match pretty_json(self.input.as_str()) {
                    Some(t) => t,
                    None => String::new(),
                };
                self.is_valid = true;
                self.validation_message = owned("Valid JSON");
            },
            Err(e) => {
                self.error_message = concat("Invalid JSON: ", e.as_str());
                self.is_valid = false;
                self.validation_message = concat("Invalid: ", e.as_str());
            },
        }
    }

    /// Write the document compactly into the output.
    pub fn minify_json(&mut self)
        ensures
            minified(*old(self), *final(self)),
    {
        self.error_message = String::new();
        if self.input.as_str().unicode_len() == 0 {
            self.output = String::new();
            return;
        }
        match read_json(self.input.as_str()) {
            Ok(n) => {
                self.output = n.compact;
                self.is_valid = true;
            },
            Err(e) => {
                self.error_message = concat("Invalid JSON: ", e.as_str());
                self.is_valid = false;
            },
        }
    }

    /// Check the document, and report how many values of each kind it has.
    pub fn validate_json(&mut self)
        ensures
            validated(*old(self), *final(self)),
    {
        self.error_message = String::new();
        if self.input.as_str().unicode_len() == 0 {
            self.is_valid = false;
            self.validation_message = owned("No input");
            return;
        }
        match read_json(self.input.as_str()) {
            Ok(_) => {
                self.is_valid = true;
                let c = count_values(self.input.as_str(), JSON_DEPTH);
                let mut m = concat("Valid JSON - Objects: ", u64_to_string(c.objects).as_str());
                m = concat3(m.as_str(), ", Arrays: ", u64_to_string(c.arrays).as_str());
                m = concat3(m.as_str(), ", Strings: ", u64_to_string(c.strings).as_str());
                m = concat3(m.as_str(), ", Numbers: ", u64_to_string(c.numbers).as_str());
                m = concat3(m.as_str(), ", Booleans: ", u64_to_string(c.bools).as_str());
                m = concat3(m.as_str(), ", Nulls: ", u64_to_string(c.nulls).as_str());
                assert(c == capped_counts(type_tally(self.input@, JSON_DEPTH as nat)));
                self.validation_message = m;
            },
            Err(e) => {
                self.is_valid = false;
                self.validation_message = concat("Invalid: ", e.as_str());
            },
        }
    }

    /// Run the JSONPath query on the document.
    pub fn query_jsonpath(&mut self)
        ensures
            queried(*old(self), *final(self)),
    {
        self.error_message = String::new();
        if self.input.as_str().unicode_len() == 0 {
            self.jsonpath_result = String::new();
            return;
        }
        match read_json(self.input.as_str()) {
            Err(e) => {
                self.error_message = concat("Invalid JSON: ", e.as_str());
                return;
            },
            Ok(_) => {},
        }
        match query_json_path(self.input.as_str(), self.jsonpath_query.as_str()) {
            Err(e) => {
                self.error_message = concat("Invalid JSONPath: ", e.as_str());
            },
            Ok(t) => {
                self.jsonpath_result = t;
            },
        }
    }

    /// Convert the document to the selected format (`yaml` or `toml`).
    pub fn convert_to_format(&mut self)
        ensures
            converted(*old(self), *final(self)),
    {
        self.error_message = String::new();
        if self.input.as_str().unicode_len() == 0 {
            self.converted_output = String::new();
            return;
        }
        let n = match read_json(self.input.as_str()) {
            Err(e) => {
                self.error_message = concat("Invalid JSON: ", e.as_str());
                return;
            },
            Ok(n) => n,
        };
        let f = self.convert_format.as_str();
        if str_eq(f, "yaml") {
            match json_to_yaml(self.input.as_str()) {
                Ok(t) => self.converted_output = t,
                Err(e) => self.error_message = concat("YAML conversion error: ", e.as_str()),
            }
        } else if str_eq(f, "toml") {
            if n.kind != JsonKind::Object {
                self.error_message = owned("TOML requires an object at the root level");
                return;
            }
            match json_to_toml(self.input.as_str()) {
                Ok(t) => self.converted_output = t,
                Err(e) => self.error_message = concat("TOML conversion error: ", e.as_str()),
            }
        } else {
            self.error_message = owned("Unknown format");
        }
    }

    /// Compare the two documents and describe how they differ.
    pub fn compare_json(&mut self)
        ensures
            compared(*old(self), *final(self)),
    {
        self.error_message = String::new();
        let a = self.diff_input_a.as_str();
        let b = self.diff_input_b.as_str();
        if a.unicode_len() == 0 || b.unicode_len() == 0 {
            self.diff_result = String::new();
            return;
        }
        match read_json(a) {
            Err(e) => {
                self.error_message = concat("JSON A invalid: ", e.as_str());
                return;
            },
            Ok(_) => {},
        }
        match read_json(b) {
            Err(e) => {
                self.error_message = concat("JSON B invalid: ", e.as_str());
                return;
            },
            Ok(_) => {},
        }
        if same_json(a, b) {
            self.diff_result = owned("identical:The JSON documents are identical");
        } else {
            let d = generate_diff(a, b, "", JSON_DEPTH);
            proof {
                reveal_strlit("");
                assert(""@ =~= Seq::<char>::empty());
            }
            let body = if d.as_str().unicode_len() == 0 {
                owned("Documents differ (structural differences)")
            } else {
                d
            };
            self.diff_result = concat("different:", body.as_str());
        }
    }

    /// Reset every field but the selected conversion format.
    pub fn clear(&mut self)
        ensures
            final(self).input@.len() == 0 && final(self).output@.len() == 0,
            final(self).jsonpath_query@ == "$"@,
            final(self).jsonpath_result@.len() == 0,
            final(self).converted_output@.len() == 0,
            final(self).diff_input_a@.len() == 0 && final(self).diff_input_b@.len() == 0,
            final(self).diff_result@.len() == 0,
            !final(self).is_valid,
            final(self).validation_message@.len() == 0 && final(self).error_message@.len() == 0,
            final(self).convert_format == old(self).convert_format,
    {
        self.input = String::new();
        self.output = String::new();
        self.jsonpath_query = owned("$");
        self.jsonpath_result = String::new();
        self.converted_output = String::new();
        self.diff_input_a = String::new();
        self.diff_input_b = String::new();
        self.diff_result = String::new();
        self.is_valid = false;
        self.validation_message = String::new();
        self.error_message = String::new();
    }
}

/// Formatting, minifying and validating agree on a document: each marks
/// it valid exactly when it parses, and the errors they show are the same
/// parse error.
pub proof fn law_tools_agree_on_validity(m: JsonModel, f: JsonModel, mi: JsonModel, v: JsonModel)
    requires
        m.input@.len() > 0,
        formatted(m, f),
        minified(m, mi),
        validated(m, v),
    ensures
        v.is_valid == (json_node(m.input@) is Ok),
        f.is_valid == v.is_valid,
        mi.is_valid == v.is_valid,
        !v.is_valid ==> f.error_message@ == mi.error_message@,
{
}

/// The root of a valid document is counted among the values of its kind.
pub proof fn law_root_is_counted(s: Seq<char>, depth: nat)
    requires
        json_node(s) is Ok,
    ensures
        ({
            let t = type_tally(s, depth);
            let own = tally_of_kind(json_node(s)->Ok_0.0);
            &&& t.0 >= own.0 && t.1 >= own.1 && t.2 >= own.2
            &&& t.3 >= own.3 && t.4 >= own.4 && t.5 >= own.5
            &&& t.0 + t.1 + t.2 + t.3 + t.4 + t.5 >= 1
        }),
{
    if depth > 0 {
        lemma_children_tally_nonneg(child_texts(json_node(s)->Ok_0), (depth - 1) as nat);
    }
}

} // verus!
