//! The compact encoding of builder operations: an array whose first item is a short tag
//! and whose other items are the operation's fields, in a fixed order per tag; and the
//! binary framing of a list of such operations.
use crate::builder::methods::{AssignmentInputValue, BuilderOp, DistinctOnInput, Predicate, SelectAliasedEntry};
use crate::text::{decimal, decimal_string, push_char, push_str, str_eq};
use crate::types::{JsonNumber, SqlQuery, SqlValue};
use vstd::prelude::*;

verus! {

// ─── JSON values ─────────────────────────────────────────────────────────────

/// A JSON value, with object members in the order they are written.
pub enum JsonValue {
    Null,
    Bool(bool),
    Number(JsonNumber),
    Str(String),
    Array(Vec<JsonValue>),
    Object(Vec<(String, JsonValue)>),
}

/// The lowercase hexadecimal digit of `d` (< 16).
pub open spec fn hex_digit(d: nat) -> char {
    if d < 10 { crate::text::digit_char(d) } else if d == 10 { 'a' } else if d == 11 { 'b' } else if d == 12 { 'c' }
    else if d == 13 { 'd' } else if d == 14 { 'e' } else { 'f' }
}

/// One character as it appears inside a JSON string.
pub open spec fn json_escape_char(c: char) -> Seq<char> {
    if c == '"' {
        seq!['\\', '"']
    } else if c == '\\' {
        seq!['\\', '\\']
    } else if c == '\n' {
        seq!['\\', 'n']
    } else if c == '\r' {
        seq!['\\', 'r']
    } else if c == '\t' {
        seq!['\\', 't']
    } else if c == '\u{8}' {
        seq!['\\', 'b']
    } else if c == '\u{c}' {
        seq!['\\', 'f']
    } else if (c as nat) < 0x20 {
        seq!['\\', 'u', '0', '0', hex_digit((c as nat) / 16), hex_digit((c as nat) % 16)]
    } else {
        seq![c]
    }
}

/// A string's characters as they appear inside a JSON string.
pub open spec fn json_escaped(s: Seq<char>) -> Seq<char>
    decreases s.len(),
{
    if s.len() == 0 {
        Seq::empty()
    } else {
        json_escaped(s.drop_last()) + json_escape_char(s.last())
    }
}

/// A JSON string literal.
pub open spec fn json_string(s: Seq<char>) -> Seq<char> {
    seq!['"'] + json_escaped(s) + seq!['"']
}

/// The compact JSON text of a value.
pub open spec fn json_text(v: JsonValue) -> Seq<char>
    decreases v, 1nat,
{
    match v {
        JsonValue::Null => "null"@,
        JsonValue::Bool(b) => if b { "true"@ } else { "false"@ },
        JsonValue::Number(n) => n.spec_text(),
        JsonValue::Str(s) => json_string(s@),
        JsonValue::Array(items) => seq!['['] + json_items_text(items@) + seq![']'],
        JsonValue::Object(members) => seq!['{'] + json_members_text(members@) + seq!['}'],
    }
}

/// Values' texts separated by commas.
pub open spec fn json_items_text(items: Seq<JsonValue>) -> Seq<char>
    decreases items, 0nat,
{
    if items.len() == 0 {
        Seq::empty()
    } else {
        let prev = json_items_text(items.drop_last());
        let prev = if items.len() > 1 { prev.push(',') } else { prev };
        prev + json_text(items.last())
    }
}

/// Object members' texts (`"key":value`) separated by commas.
pub open spec fn json_members_text(members: Seq<(String, JsonValue)>) -> Seq<char>
    decreases members, 0nat,
{
    if members.len() == 0 {
        Seq::empty()
    } else {
        let prev = json_members_text(members.drop_last());
        let prev = if members.len() > 1 { prev.push(',') } else { prev };
        prev + json_string(members.last().0@) + seq![':'] + json_text(members.last().1)
    }
}

pub(crate) fn hex(d: u32) -> (c: char)
    requires
        d < 16,
    ensures
        c == hex_digit(d as nat),
{
    if d == 0 { '0' } else if d == 1 { '1' } else if d == 2 { '2' } else if d == 3 { '3' }
    else if d == 4 { '4' } else if d == 5 { '5' } else if d == 6 { '6' } else if d == 7 { '7' }
    else if d == 8 { '8' } else if d == 9 { '9' } else if d == 10 { 'a' } else if d == 11 { 'b' }
    else if d == 12 { 'c' } else if d == 13 { 'd' } else if d == 14 { 'e' } else { 'f' }
}

fn push_escaped_char(out: &mut String, c: char)
    ensures
        final(out)@ == old(out)@ + json_escape_char(c),
{
    let ghost start = out@;
    if c == '"' {
        push_char(out, '\\');
        push_char(out, '"');
    } else if c == '\\' {
        push_char(out, '\\');
        push_char(out, '\\');
    } else if c == '\n' {
        push_char(out, '\\');
        push_char(out, 'n');
    } else if c == '\r' {
        push_char(out, '\\');
        push_char(out, 'r');
    } else if c == '\t' {
        push_char(out, '\\');
        push_char(out, 't');
    } else if c == '\u{8}' {
        push_char(out, '\\');
        push_char(out, 'b');
    } else if c == '\u{c}' {
        push_char(out, '\\');
        push_char(out, 'f');
    } else if (c as u32) < 0x20 {
        let n = c as u32;
        push_char(out, '\\');
        push_char(out, 'u');
        push_char(out, '0');
        push_char(out, '0');
        push_char(out, hex(n / 16));
        push_char(out, hex(n % 16));
    } else {
        push_char(out, c);
    }
    assert(out@ =~= start + json_escape_char(c));
}

/// Appends a JSON string literal.
pub fn push_json_string(out: &mut String, s: &str)
    ensures
        final(out)@ == old(out)@ + json_string(s@),
{
    let ghost start = out@;
    let cs = crate::text::chars_of(s);
    push_char(out, '"');
    for i in 0..cs.len()
        invariant
            cs@ == s@,
            out@ == start + seq!['"'] + json_escaped(cs@.take(i as int)),
    {
        proof {
            assert(cs@.take(i + 1).drop_last() =~= cs@.take(i as int));
        }
        push_escaped_char(out, cs[i]);
        proof {
            assert(out@ =~= start + seq!['"'] + json_escaped(cs@.take(i + 1)));
        }
    }
    push_char(out, '"');
    assert(cs@.take(cs.len() as int) =~= s@);
    assert(out@ =~= start + json_string(s@));
}

/// Appends the compact JSON text of a value.
pub fn push_json(out: &mut String, v: &JsonValue)
    ensures
        final(out)@ == old(out)@ + json_text(*v),
    decreases *v, 1nat,
{
    let ghost start = out@;
    match v {
        JsonValue::Null => {
            push_str(out, "null");
            proof {
                reveal_strlit("null");
            }
        },
        JsonValue::Bool(b) => {
            if *b {
                push_str(out, "true");
                proof {
                    reveal_strlit("true");
                }
            } else {
                push_str(out, "false");
                proof {
                    reveal_strlit("false");
                }
            }
        },
        JsonValue::Number(n) => n.push_text(out),
        JsonValue::Str(s) => push_json_string(out, s.as_str()),
        JsonValue::Array(items) => {
            push_char(out, '[');
            push_json_items(out, items);
            push_char(out, ']');
            assert(out@ =~= start + json_text(*v));
        },
        JsonValue::Object(members) => {
            push_char(out, '{');
            push_json_members(out, members);
            push_char(out, '}');
            assert(out@ =~= start + json_text(*v));
        },
    }
}

fn push_json_items(out: &mut String, items: &Vec<JsonValue>)
    ensures
        final(out)@ == old(out)@ + json_items_text(items@),
    decreases items@, 0nat,
{
    let ghost start = out@;
    assert(items@.take(0) =~= Seq::<JsonValue>::empty());
    for i in 0..items.len()
        invariant
            out@ == start + json_items_text(items@.take(i as int)),
    {
        proof {
            assert(items@.take(i + 1).drop_last() =~= items@.take(i as int));
            assert(decreases_to!(items@ => items@[i as int]));
        }
        let ghost before = out@;
        if i > 0 {
            push_char(out, ',');
        }
        push_json(out, &items[i]);
        proof {
            assert(out@ =~= start + json_items_text(items@.take(i + 1)));
        }
    }
    assert(items@.take(items.len() as int) =~= items@);
}

fn push_json_members(out: &mut String, members: &Vec<(String, JsonValue)>)
    ensures
        final(out)@ == old(out)@ + json_members_text(members@),
    decreases members@, 0nat,
{
    let ghost start = out@;
    assert(members@.take(0) =~= Seq::<(String, JsonValue)>::empty());
    for i in 0..members.len()
        invariant
            out@ == start + json_members_text(members@.take(i as int)),
    {
        proof {
            assert(members@.take(i + 1).drop_last() =~= members@.take(i as int));
            assert(decreases_to!(members@ => members@[i as int]));
            assert(decreases_to!(members@[i as int] => members@[i as int].1));
        }
        if i > 0 {
            push_char(out, ',');
        }
        push_json_string(out, members[i].0.as_str());
        push_char(out, ':');
        push_json(out, &members[i].1);
        proof {
            assert(out@ =~= start + json_members_text(members@.take(i + 1)));
        }
    }
    assert(members@.take(members.len() as int) =~= members@);
}

// ─── Compact operation skeletons ─────────────────────────────────────────────

/// The kind of payload a structured field holds.
#[derive(Clone, Copy, PartialEq, Eq, Structural, Debug)]
pub enum PayloadKind {
    Pred,
    Exprs,
    Pairs,
    Query,
    Columns,
    Names,
    Rows,
    Assignments,
    Entries,
}

/// How one field of a compact operation is read.
#[derive(Clone, Copy, PartialEq, Eq, Structural, Debug)]
pub enum FieldKind {
    /// A string.
    Str,
    /// A string or null; a missing trailing field reads as null.
    OptStr,
    /// A number that fits in `u32`.
    U32,
    /// An array of strings.
    StrVec,
    /// A structured value, decoded afterwards as the given payload.
    Raw(PayloadKind),
    /// A structured value that may be missing (read as null).
    OptRaw(PayloadKind),
    /// An array of compact operations.
    Ops,
}

/// The view of a field list.
pub open spec fn shape_view(v: Seq<(&'static str, FieldKind)>) -> Seq<(Seq<char>, FieldKind)> {
    v.map_values(|f: (&'static str, FieldKind)| (f.0@, f.1))
}

/// A field read from a compact operation (structured values not yet decoded).
pub enum Field {
    Str(String),
    OptStr(Option<String>),
    U32(u32),
    StrVec(Vec<String>),
    Raw(JsonValue),
    Ops(Vec<JsonValue>),
}

/// The content of a field read from a compact operation.
pub enum FieldView {
    Str(Seq<char>),
    OptStr(Option<Seq<char>>),
    U32(u32),
    StrVec(Seq<Seq<char>>),
    Raw(JsonValue),
    Ops(Seq<JsonValue>),
}

impl Field {
    pub open spec fn view_of(self) -> FieldView {
        match self {
            Field::Str(s) => FieldView::Str(s@),
            Field::OptStr(o) => FieldView::OptStr(match o { Some(s) => Some(s@), None => None }),
            Field::U32(n) => FieldView::U32(n),
            Field::StrVec(v) => FieldView::StrVec(v.deep_view()),
            Field::Raw(v) => FieldView::Raw(v),
            Field::Ops(v) => FieldView::Ops(v@),
        }
    }
}

pub open spec fn missing_msg(tag: Seq<char>, name: Seq<char>) -> Seq<char> {
    "Missing "@ + name + " for compact op '"@ + tag + "'"@
}

pub open spec fn invalid_msg(tag: Seq<char>, name: Seq<char>, detail: Seq<char>) -> Seq<char> {
    "Invalid "@ + name + " for compact op '"@ + tag + "': "@ + detail
}

/// The strings of an array of JSON values, or the message for its first non-string.
pub open spec fn string_items(tag: Seq<char>, name: Seq<char>, vals: Seq<JsonValue>) -> Result<Seq<Seq<char>>, Seq<char>>
    decreases vals.len(),
{
    if vals.len() == 0 {
        Ok(Seq::empty())
    } else {
        match string_items(tag, name, vals.drop_last()) {
            Err(e) => Err(e),
            Ok(ss) => match vals.last() {
                JsonValue::Str(x) => Ok(ss.push(x@)),
                other => Err(invalid_msg(tag, name + "["@ + decimal((vals.len() - 1) as nat) + "]"@,
                    "expected string, got "@ + json_text(other))),
            },
        }
    }
}

/// The items of the inline operation at position `index` of an operation's child list,
/// or the message it is refused with when it is not an array.
pub open spec fn child_op(tag: Seq<char>, index: nat, v: JsonValue) -> Result<Seq<JsonValue>, Seq<char>> {
    match v {
        JsonValue::Array(x) => Ok(x@),
        _ => Err("Inline child op "@ + decimal(index) + " for '"@ + tag + "' must be an array"@),
    }
}

/// Reading one field (`None` when the operation has no item left for it).
pub open spec fn parse_field(tag: Seq<char>, name: Seq<char>, kind: FieldKind, item: Option<JsonValue>) -> Result<FieldView, Seq<char>> {
    match kind {
        FieldKind::Str => match item {
            None => Err(missing_msg(tag, name)),
            Some(JsonValue::Str(x)) => Ok(FieldView::Str(x@)),
            Some(other) => Err(invalid_msg(tag, name, "expected string, got "@ + json_text(other))),
        },
        FieldKind::OptStr => match item {
            None => Ok(FieldView::OptStr(None)),
            Some(JsonValue::Null) => Ok(FieldView::OptStr(None)),
            Some(JsonValue::Str(x)) => Ok(FieldView::OptStr(Some(x@))),
            Some(other) => Err(invalid_msg(tag, name, "expected string or null, got "@ + json_text(other))),
        },
        FieldKind::U32 => match item {
            None => Err(missing_msg(tag, name)),
            Some(JsonValue::Number(n)) => match n {
                JsonNumber::PosInt(u) => if u <= u32::MAX {
                    Ok(FieldView::U32(u as u32))
                } else {
                    Err(invalid_msg(tag, name, "expected u32-compatible number"@))
                },
                _ => Err(invalid_msg(tag, name, "expected u32-compatible number"@)),
            },
            Some(other) => Err(invalid_msg(tag, name, "expected number, got "@ + json_text(other))),
        },
        FieldKind::StrVec => match item {
            None => Err(missing_msg(tag, name)),
            Some(JsonValue::Array(vals)) => match string_items(tag, name, vals@) {
                Err(e) => Err(e),
                Ok(ss) => Ok(FieldView::StrVec(ss)),
            },
            Some(other) => Err(invalid_msg(tag, name, "expected array, got "@ + json_text(other))),
        },
        FieldKind::Raw(_) => match item {
            None => Err(missing_msg(tag, name)),
            Some(v) => Ok(FieldView::Raw(v)),
        },
        FieldKind::OptRaw(_) => match item {
            None => Ok(FieldView::Raw(JsonValue::Null)),
            Some(v) => Ok(FieldView::Raw(v)),
        },
        FieldKind::Ops => match item {
            None => Err(missing_msg(tag, name)),
            Some(JsonValue::Array(vals)) => Ok(FieldView::Ops(vals@)),
            Some(_) => Err("Inline child ops for '"@ + tag + "' must be an array"@),
        },
    }
}

/// The `k`-th item after the tag, if there is one.
pub open spec fn item_at(rest: Seq<JsonValue>, k: int) -> Option<JsonValue> {
    if 0 <= k < rest.len() {
        Some(rest[k])
    } else {
        None
    }
}

/// Reading the first `n` fields of a shape from the items after the tag, in order: the
/// fields read before the first failure, and that failure's message if one came.
pub open spec fn read_fields(tag: Seq<char>, shape: Seq<(Seq<char>, FieldKind)>, rest: Seq<JsonValue>, n: nat) -> (Seq<FieldView>, Option<Seq<char>>)
    decreases n,
{
    if n == 0 {
        (Seq::empty(), None)
    } else {
        let (fs, failed) = read_fields(tag, shape, rest, (n - 1) as nat);
        match failed {
            Some(e) => (fs, Some(e)),
            None => match parse_field(tag, shape[n - 1].0, shape[n - 1].1, item_at(rest, n - 1)) {
                Err(e) => (fs, Some(e)),
                Ok(f) => (fs.push(f), None),
            },
        }
    }
}

/// Reading a compact operation: the message when its tag is refused; else the tag, the
/// fields read in order before the first refusal, and that refusal (a field's, or the
/// one for trailing items once every field was read), if any.
pub open spec fn spec_compact_fields(items: Seq<JsonValue>) -> Result<(Seq<char>, Seq<FieldView>, Option<Seq<char>>), Seq<char>> {
    if items.len() == 0 {
        Err("Compact op cannot be empty"@)
    } else {
        match items[0] {
            JsonValue::Str(t) => {
                let tag = t@;
                match compact_shape(tag) {
                    None => Err("Unknown compact builder op tag '"@ + tag + "'"@),
                    Some(shape) => {
                        let (fs, failed) = read_fields(tag, shape, items.drop_first(), shape.len());
                        match failed {
                            Some(e) => Ok((tag, fs, Some(e))),
                            None => if items.len() - 1 > shape.len() {
                                Ok((tag, fs, Some("Compact op '"@ + tag + "' had trailing fields"@)))
                            } else {
                                Ok((tag, fs, None))
                            },
                        }
                    },
                }
            },
            _ => Err("Compact op tag must be a string"@),
        }
    }
}

fn missing(tag: &str, name: &str) -> (e: String)
    ensures
        e@ == missing_msg(tag@, name@),
{
    let mut e = String::from_str("Missing ");
    push_str(&mut e, name);
    push_str(&mut e, " for compact op '");
    push_str(&mut e, tag);
    push_str(&mut e, "'");
    proof {
        reveal_strlit("Missing ");
        reveal_strlit(" for compact op '");
        reveal_strlit("'");
        assert(e@ =~= missing_msg(tag@, name@));
    }
    e
}

fn invalid(tag: &str, name: &str, detail: &str, got: Option<&JsonValue>) -> (e: String)
    ensures
        e@ == invalid_msg(tag@, name@, match got { Some(v) => detail@ + json_text(*v), None => detail@ }),
{
    let mut e = String::from_str("Invalid ");
    push_str(&mut e, name);
    push_str(&mut e, " for compact op '");
    push_str(&mut e, tag);
    push_str(&mut e, "': ");
    push_str(&mut e, detail);
    if let Some(v) = got {
        push_json(&mut e, v);
    }
    proof {
        reveal_strlit("Invalid ");
        reveal_strlit(" for compact op '");
        reveal_strlit("': ");
        assert(e@ =~= invalid_msg(tag@, name@, match got { Some(v) => detail@ + json_text(*v), None => detail@ }));
    }
    e
}

/// The strings of an array of JSON values.
fn read_strings(tag: &str, name: &str, vals: Vec<JsonValue>) -> (r: Result<Vec<String>, String>)
    ensures
        match string_items(tag@, name@, vals@) {
            Ok(ss) => r matches Ok(v) && v.deep_view() == ss,
            Err(e) => r matches Err(m) && m@ == e,
        },
{
    let ghost all = vals@;
    let mut rest = vals;
    let total: usize = rest.len();
    assert(all.len() == total);
    let mut out: Vec<String> = Vec::new();
    let mut i: usize = 0;
    assert(all.take(0) =~= Seq::<JsonValue>::empty());
    assert(out.deep_view() =~= Seq::<Seq<char>>::empty());
    while rest.len() > 0
        invariant
            all == vals@,
            all.len() <= usize::MAX,
            i + rest@.len() == all.len(),
            rest@ == all.subrange(i as int, all.len() as int),
            string_items(tag@, name@, all.take(i as int)) == Ok::<Seq<Seq<char>>, Seq<char>>(out.deep_view()),
        decreases rest@.len(),
    {
        let v = rest.remove(0);
        proof {
            assert(v == all[i as int]);
            assert(all.take(i + 1).drop_last() =~= all.take(i as int));
            assert(all.take(i + 1).last() == all[i as int]);
        }
        match v {
            JsonValue::Str(x) => {
                let ghost before = out.deep_view();
                out.push(x);
                proof {
                    assert(out.deep_view() =~= before.push(all[i as int]->Str_0@));
                    assert(rest@ =~= all.subrange(i + 1, all.len() as int));
                }
                i = i + 1;
            },
            other => {
                let mut field = String::from_str(name);
                push_str(&mut field, "[");
                let idx = decimal_string(i as u64);
                push_str(&mut field, idx.as_str());
                push_str(&mut field, "]");
                proof {
                    reveal_strlit("[");
                    reveal_strlit("]");
                    reveal_strlit("expected string, got ");
                    assert(field@ =~= name@ + "["@ + decimal(i as nat) + "]"@);
                    lemma_string_items_stays(tag@, name@, all, i + 1);
                }
                return Err(invalid(tag, field.as_str(), "expected string, got ", Some(&other)));
            },
        }
    }
    assert(all.take(i as int) =~= all);
    Ok(out)
}

proof fn lemma_string_items_stays(tag: Seq<char>, name: Seq<char>, vals: Seq<JsonValue>, i: int)
    requires
        0 <= i <= vals.len(),
        string_items(tag, name, vals.take(i)) is Err,
    ensures
        string_items(tag, name, vals) == string_items(tag, name, vals.take(i)),
    decreases vals.len() - i,
{
    if i < vals.len() {
        assert(vals.take(i + 1).drop_last() =~= vals.take(i));
        lemma_string_items_stays(tag, name, vals, i + 1);
    } else {
        assert(vals.take(i) =~= vals);
    }
}

/// The items of the inline operation at position `index` of an operation's child list.
pub fn child_op_items(tag: &str, index: usize, v: JsonValue) -> (r: Result<Vec<JsonValue>, String>)
    ensures
        match child_op(tag@, index as nat, v) {
            Ok(items) => r matches Ok(x) && x@ == items,
            Err(e) => r matches Err(m) && m@ == e,
        },
{
    match v {
        JsonValue::Array(x) => Ok(x),
        _ => {
            let mut e = String::from_str("Inline child op ");
            let idx = decimal_string(index as u64);
            push_str(&mut e, idx.as_str());
            push_str(&mut e, " for '");
            push_str(&mut e, tag);
            push_str(&mut e, "' must be an array");
            proof {
                reveal_strlit("Inline child op ");
                reveal_strlit(" for '");
                reveal_strlit("' must be an array");
                assert(e@ =~= "Inline child op "@ + decimal(index as nat) + " for '"@ + tag@ + "' must be an array"@);
            }
            Err(e)
        },
    }
}

fn read_field(tag: &str, name: &str, kind: FieldKind, item: Option<JsonValue>) -> (r: Result<Field, String>)
    ensures
        match parse_field(tag@, name@, kind, item) {
            Ok(f) => r matches Ok(x) && x.view_of() == f,
            Err(e) => r matches Err(m) && m@ == e,
        },
{
    proof {
        reveal_strlit("expected string, got ");
        reveal_strlit("expected string or null, got ");
        reveal_strlit("expected u32-compatible number");
        reveal_strlit("expected number, got ");
        reveal_strlit("expected array, got ");
    }
    match kind {
        FieldKind::Str => match item {
            None => Err(missing(tag, name)),
            Some(JsonValue::Str(x)) => Ok(Field::Str(x)),
            Some(other) => Err(invalid(tag, name, "expected string, got ", Some(&other))),
        },
        FieldKind::OptStr => match item {
            None => Ok(Field::OptStr(None)),
            Some(JsonValue::Null) => Ok(Field::OptStr(None)),
            Some(JsonValue::Str(x)) => Ok(Field::OptStr(Some(x))),
            Some(other) => Err(invalid(tag, name, "expected string or null, got ", Some(&other))),
        },
        FieldKind::U32 => match item {
            None => Err(missing(tag, name)),
            Some(JsonValue::Number(n)) => match n {
                JsonNumber::PosInt(u) => if u <= 4294967295u64 {
                    Ok(Field::U32(u as u32))
                } else {
                    Err(invalid(tag, name, "expected u32-compatible number", None))
                },
                _ => Err(invalid(tag, name, "expected u32-compatible number", None)),
            },
            Some(other) => Err(invalid(tag, name, "expected number, got ", Some(&other))),
        },
        FieldKind::StrVec => match item {
            None => Err(missing(tag, name)),
            Some(JsonValue::Array(vals)) => {
                let ss = read_strings(tag, name, vals)?;
                Ok(Field::StrVec(ss))
            },
            Some(other) => Err(invalid(tag, name, "expected array, got ", Some(&other))),
        },
        FieldKind::Raw(_) => match item {
            None => Err(missing(tag, name)),
            Some(v) => Ok(Field::Raw(v)),
        },
        FieldKind::OptRaw(_) => match item {
            None => Ok(Field::Raw(JsonValue::Null)),
            Some(v) => Ok(Field::Raw(v)),
        },
        FieldKind::Ops => match item {
            None => Err(missing(tag, name)),
            Some(JsonValue::Array(vals)) => Ok(Field::Ops(vals)),
            Some(_) => {
                let mut e = String::from_str("Inline child ops for '");
                push_str(&mut e, tag);
                push_str(&mut e, "' must be an array");
                proof {
                    reveal_strlit("Inline child ops for '");
                    reveal_strlit("' must be an array");
                    assert(e@ =~= "Inline child ops for '"@ + tag@ + "' must be an array"@);
                }
                Err(e)
            },
        },
    }
}

proof fn lemma_read_fields_stays(tag: Seq<char>, shape: Seq<(Seq<char>, FieldKind)>, rest: Seq<JsonValue>, i: nat, n: nat)
    requires
        i <= n,
        read_fields(tag, shape, rest, i).1 is Some,
    ensures
        read_fields(tag, shape, rest, n) == read_fields(tag, shape, rest, i),
    decreases n - i,
{
    if i < n {
        lemma_read_fields_stays(tag, shape, rest, i, (n - 1) as nat);
    }
}

/// Read the tag and fields of a compact operation, in order (structured fields are kept as
/// JSON, inline child operations as their JSON items): the fields read before the first
/// refusal come back together with that refusal, so that a caller which decodes them in
/// order reports whichever failure comes first.
pub fn parse_compact_fields(items: Vec<JsonValue>) -> (r: Result<(String, Vec<Field>, Option<String>), String>)
    ensures
        match spec_compact_fields(items@) {
            Ok((tag, fs, failed)) => r matches Ok(x) && x.0@ == tag && x.1@.map_values(|f: Field| f.view_of()) == fs
                && match failed {
                    Some(e) => x.2 matches Some(m) && m@ == e,
                    None => x.2 is None,
                },
            Err(e) => r matches Err(m) && m@ == e,
        },
{
    let ghost all = items@;
    let mut rest = items;
    if rest.len() == 0 {
        return Err(String::from_str("Compact op cannot be empty"));
    }
    let first = rest.remove(0);
    let tag = match first {
        JsonValue::Str(t) => t,
        _ => return Err(String::from_str("Compact op tag must be a string")),
    };
    let shape = match shape_of(tag.as_str()) {
        Some(s) => s,
        None => {
            let mut e = String::from_str("Unknown compact builder op tag '");
            push_str(&mut e, tag.as_str());
            push_str(&mut e, "'");
            proof {
                reveal_strlit("Unknown compact builder op tag '");
                reveal_strlit("'");
                assert(e@ =~= "Unknown compact builder op tag '"@ + tag@ + "'"@);
            }
            return Err(e);
        },
    };
    let ghost sv = shape_view(shape@);
    let ghost after_tag = all.drop_first();
    assert(rest@ =~= after_tag);
    let mut fields: Vec<Field> = Vec::new();
    let mut k: usize = 0;
    assert(fields@.map_values(|f: Field| f.view_of()) =~= Seq::<FieldView>::empty());
    while k < shape.len()
        invariant
            all == items@,
            k <= shape.len(),
            sv == shape_view(shape@),
            sv.len() == shape.len(),
            compact_shape(tag@) == Some(sv),
            after_tag == all.drop_first(),
            all.len() > 0,
            all[0] == JsonValue::Str(tag),
            rest@ == (if k < after_tag.len() { after_tag.subrange(k as int, after_tag.len() as int) } else { Seq::<JsonValue>::empty() }),
            read_fields(tag@, sv, after_tag, k as nat) == (fields@.map_values(|f: Field| f.view_of()), None::<Seq<char>>),
        decreases shape.len() - k,
    {
        let item = if rest.len() > 0 { Some(rest.remove(0)) } else { None };
        proof {
            assert(item == item_at(after_tag, k as int));
            assert(sv[k as int] == (shape@[k as int].0@, shape@[k as int].1));
        }
        let (name, kind) = shape[k];
        match read_field(tag.as_str(), name, kind, item) {
            Ok(f) => {
                let ghost before = fields@.map_values(|f: Field| f.view_of());
                let ghost fview = f.view_of();
                fields.push(f);
                proof {
                    assert(fields@.map_values(|f: Field| f.view_of()) =~= before.push(fview));
                    if k + 1 < after_tag.len() {
                        assert(rest@ =~= after_tag.subrange(k + 1, after_tag.len() as int));
                    } else {
                        assert(rest@ =~= Seq::<JsonValue>::empty());
                    }
                }
                k = k + 1;
            },
            Err(e) => {
                proof {
                    lemma_read_fields_stays(tag@, sv, after_tag, (k + 1) as nat, sv.len());
                }
                return Ok((tag, fields, Some(e)));
            },
        }
    }
    if rest.len() > 0 {
        let mut e = String::from_str("Compact op '");
        push_str(&mut e, tag.as_str());
        push_str(&mut e, "' had trailing fields");
        proof {
            reveal_strlit("Compact op '");
            reveal_strlit("' had trailing fields");
            assert(e@ =~= "Compact op '"@ + tag@ + "' had trailing fields"@);
        }
        return Ok((tag, fields, Some(e)));
    }
    Ok((tag, fields, None))
}

// ─── Decoded operations ──────────────────────────────────────────────────────

/// A decoded structured field.
pub enum Payload {
    Pred(Predicate),
    Exprs(Vec<DistinctOnInput>),
    Pairs(Vec<(String, String)>),
    Query(SqlQuery),
    Columns(Option<Vec<String>>),
    Names(Vec<String>),
    Rows(Vec<Vec<SqlValue>>),
    Assignments(Vec<(String, AssignmentInputValue)>),
    Entries(Vec<SelectAliasedEntry>),
}

/// A fully decoded field of a compact operation.
pub enum DecodedField {
    Str(String),
    OptStr(Option<String>),
    U32(u32),
    StrVec(Vec<String>),
    Payload(Payload),
    Ops(Vec<BuilderOp>),
}

/// The decoded fields match the shape the tag names.
pub open spec fn decoded_fits(tag: Seq<char>, fs: Seq<DecodedField>) -> bool {
    if tag == "w"@ {
        fs.len() == 1 && (fs[0] matches DecodedField::Payload(Payload::Pred(_)))
    }
    else if tag == "d"@ {
        fs.len() == 0
    }
    else if tag == "dc"@ {
        fs.len() == 1 && fs[0] is StrVec
    }
    else if tag == "de"@ {
        fs.len() == 1 && (fs[0] matches DecodedField::Payload(Payload::Exprs(_)))
    }
    else if tag == "aw"@ {
        fs.len() == 1 && (fs[0] matches DecodedField::Payload(Payload::Pred(_)))
    }
    else if tag == "ow"@ {
        fs.len() == 1 && (fs[0] matches DecodedField::Payload(Payload::Pred(_)))
    }
    else if tag == "h"@ {
        fs.len() == 1 && (fs[0] matches DecodedField::Payload(Payload::Pred(_)))
    }
    else if tag == "ah"@ {
        fs.len() == 1 && (fs[0] matches DecodedField::Payload(Payload::Pred(_)))
    }
    else if tag == "oh"@ {
        fs.len() == 1 && (fs[0] matches DecodedField::Payload(Payload::Pred(_)))
    }
    else if tag == "ft"@ {
        fs.len() == 1 && fs[0] is Str
    }
    else if tag == "fta"@ {
        fs.len() == 2 && fs[0] is Str && fs[1] is Str
    }
    else if tag == "jt"@ {
        fs.len() == 2 && fs[0] is Str && fs[1] is Str
    }
    else if tag == "jta"@ {
        fs.len() == 3 && fs[0] is Str && fs[1] is Str && fs[2] is Str
    }
    else if tag == "on"@ {
        fs.len() == 1 && (fs[0] matches DecodedField::Payload(Payload::Pred(_)))
    }
    else if tag == "aon"@ {
        fs.len() == 1 && (fs[0] matches DecodedField::Payload(Payload::Pred(_)))
    }
    else if tag == "oon"@ {
        fs.len() == 1 && (fs[0] matches DecodedField::Payload(Payload::Pred(_)))
    }
    else if tag == "uc"@ {
        fs.len() == 1 && fs[0] is StrVec
    }
    else if tag == "oc"@ {
        fs.len() == 1 && (fs[0] matches DecodedField::Payload(Payload::Pairs(_)))
    }
    else if tag == "wh"@ {
        fs.len() == 2 && fs[0] is Str && fs[1] is Str
    }
    else if tag == "wq"@ {
        fs.len() == 2 && fs[0] is Str && (fs[1] matches DecodedField::Payload(Payload::Query(_)))
    }
    else if tag == "wrh"@ {
        fs.len() == 2 && fs[0] is Str && fs[1] is Str
    }
    else if tag == "wrq"@ {
        fs.len() == 3 && fs[0] is Str && (fs[1] matches DecodedField::Payload(Payload::Query(_))) && (fs[2] matches DecodedField::Payload(Payload::Columns(_)))
    }
    else if tag == "ii"@ {
        fs.len() == 1 && fs[0] is Str
    }
    else if tag == "vi"@ {
        fs.len() == 2 && (fs[0] matches DecodedField::Payload(Payload::Names(_))) && (fs[1] matches DecodedField::Payload(Payload::Rows(_)))
    }
    else if tag == "ic"@ {
        fs.len() == 1 && fs[0] is StrVec
    }
    else if tag == "upd"@ {
        fs.len() == 1 && fs[0] is Str
    }
    else if tag == "del"@ {
        fs.len() == 1 && fs[0] is Str
    }
    else if tag == "set"@ {
        fs.len() == 1 && (fs[0] matches DecodedField::Payload(Payload::Assignments(_)))
    }
    else if tag == "ict"@ {
        fs.len() == 1 && fs[0] is StrVec
    }
    else if tag == "icn"@ {
        fs.len() == 1 && fs[0] is Str
    }
    else if tag == "idn"@ {
        fs.len() == 0
    }
    else if tag == "idu"@ {
        fs.len() == 1 && (fs[0] matches DecodedField::Payload(Payload::Assignments(_)))
    }
    else if tag == "icw"@ {
        fs.len() == 1 && (fs[0] matches DecodedField::Payload(Payload::Pred(_)))
    }
    else if tag == "sa"@ {
        fs.len() == 1 && (fs[0] matches DecodedField::Payload(Payload::Entries(_)))
    }
    else if tag == "sc"@ {
        fs.len() == 1 && fs[0] is StrVec
    }
    else if tag == "ra"@ {
        fs.len() == 1 && (fs[0] matches DecodedField::Payload(Payload::Entries(_)))
    }
    else if tag == "rc"@ {
        fs.len() == 1 && fs[0] is StrVec
    }
    else if tag == "ob"@ {
        fs.len() == 3 && fs[0] is Str && fs[1] is OptStr && fs[2] is OptStr
    }
    else if tag == "obc"@ {
        fs.len() == 1 && fs[0] is StrVec
    }
    else if tag == "gb"@ {
        fs.len() == 1 && fs[0] is StrVec
    }
    else if tag == "l"@ {
        fs.len() == 1 && fs[0] is U32
    }
    else if tag == "o"@ {
        fs.len() == 1 && fs[0] is U32
    }
    else if tag == "fu"@ {
        fs.len() == 0
    }
    else if tag == "fs"@ {
        fs.len() == 0
    }
    else if tag == "nw"@ {
        fs.len() == 0
    }
    else if tag == "sl"@ {
        fs.len() == 0
    }
    else if tag == "unh"@ {
        fs.len() == 1 && fs[0] is Str
    }
    else if tag == "un"@ {
        fs.len() == 1 && (fs[0] matches DecodedField::Payload(Payload::Query(_)))
    }
    else if tag == "uah"@ {
        fs.len() == 1 && fs[0] is Str
    }
    else if tag == "ua"@ {
        fs.len() == 1 && (fs[0] matches DecodedField::Payload(Payload::Query(_)))
    }
    else if tag == "ixh"@ {
        fs.len() == 1 && fs[0] is Str
    }
    else if tag == "ix"@ {
        fs.len() == 1 && (fs[0] matches DecodedField::Payload(Payload::Query(_)))
    }
    else if tag == "exh"@ {
        fs.len() == 1 && fs[0] is Str
    }
    else if tag == "ex"@ {
        fs.len() == 1 && (fs[0] matches DecodedField::Payload(Payload::Query(_)))
    }
    else if tag == "fsqh"@ {
        fs.len() == 2 && fs[0] is Str && fs[1] is Str
    }
    else if tag == "fsq"@ {
        fs.len() == 2 && fs[0] is Str && (fs[1] matches DecodedField::Payload(Payload::Query(_)))
    }
    else if tag == "jsqh"@ {
        fs.len() == 3 && fs[0] is Str && fs[1] is Str && fs[2] is Str
    }
    else if tag == "jsq"@ {
        fs.len() == 3 && fs[0] is Str && fs[1] is Str && (fs[2] matches DecodedField::Payload(Payload::Query(_)))
    }
    else if tag == "ish"@ {
        fs.len() == 1 && fs[0] is Str
    }
    else if tag == "is"@ {
        fs.len() == 1 && (fs[0] matches DecodedField::Payload(Payload::Query(_)))
    }
    else if tag == "whi"@ {
        fs.len() == 3 && fs[0] is Str && fs[1] is Str && fs[2] is Ops
    }
    else if tag == "wrhi"@ {
        fs.len() == 3 && fs[0] is Str && fs[1] is Str && fs[2] is Ops
    }
    else if tag == "fsqi"@ {
        fs.len() == 3 && fs[0] is Str && fs[1] is Str && fs[2] is Ops
    }
    else if tag == "jsqi"@ {
        fs.len() == 4 && fs[0] is Str && fs[1] is Str && fs[2] is Str && fs[3] is Ops
    }
    else if tag == "uni"@ {
        fs.len() == 2 && fs[0] is Str && fs[1] is Ops
    }
    else if tag == "uai"@ {
        fs.len() == 2 && fs[0] is Str && fs[1] is Ops
    }
    else if tag == "ixi"@ {
        fs.len() == 2 && fs[0] is Str && fs[1] is Ops
    }
    else if tag == "exi"@ {
        fs.len() == 2 && fs[0] is Str && fs[1] is Ops
    }
    else {
        false
    }
}

pub open spec fn shape_mismatch_msg(tag: Seq<char>) -> Seq<char> {
    "Compact op '"@ + tag + "' fields do not match its shape"@
}

fn shape_mismatch(tag: &str) -> (e: String)
    ensures
        e@ == shape_mismatch_msg(tag@),
{
    let mut e = String::from_str("Compact op '");
    push_str(&mut e, tag);
    push_str(&mut e, "' fields do not match its shape");
    proof {
        reveal_strlit("Compact op '");
        reveal_strlit("' fields do not match its shape");
        assert(e@ =~= shape_mismatch_msg(tag@));
    }
    e
}

/// The message a structured field that fails to decode is reported with.
pub fn invalid_field_message(tag: &str, name: &str, error: &str) -> (e: String)
    ensures
        e@ == invalid_msg(tag@, name@, error@),
{
    invalid(tag, name, error, None)
}

/// The fields of the operation a compact tag names, in order, or `None` for an unknown tag.
pub open spec fn compact_shape(tag: Seq<char>) -> Option<Seq<(Seq<char>, FieldKind)>> {
    if tag == "w"@ {
        Some(seq![("pred"@, FieldKind::Raw(PayloadKind::Pred))])
    }
    else if tag == "d"@ {
        Some(Seq::empty())
    }
    else if tag == "dc"@ {
        Some(seq![("cols"@, FieldKind::StrVec)])
    }
    else if tag == "de"@ {
        Some(seq![("exprs"@, FieldKind::Raw(PayloadKind::Exprs))])
    }
    else if tag == "aw"@ {
        Some(seq![("pred"@, FieldKind::Raw(PayloadKind::Pred))])
    }
    else if tag == "ow"@ {
        Some(seq![("pred"@, FieldKind::Raw(PayloadKind::Pred))])
    }
    else if tag == "h"@ {
        Some(seq![("pred"@, FieldKind::Raw(PayloadKind::Pred))])
    }
    else if tag == "ah"@ {
        Some(seq![("pred"@, FieldKind::Raw(PayloadKind::Pred))])
    }
    else if tag == "oh"@ {
        Some(seq![("pred"@, FieldKind::Raw(PayloadKind::Pred))])
    }
    else if tag == "ft"@ {
        Some(seq![("table"@, FieldKind::Str)])
    }
    else if tag == "fta"@ {
        Some(seq![("table"@, FieldKind::Str), ("alias"@, FieldKind::Str)])
    }
    else if tag == "jt"@ {
        Some(seq![("joinType"@, FieldKind::Str), ("table"@, FieldKind::Str)])
    }
    else if tag == "jta"@ {
        Some(seq![("joinType"@, FieldKind::Str), ("table"@, FieldKind::Str), ("alias"@, FieldKind::Str)])
    }
    else if tag == "on"@ {
        Some(seq![("pred"@, FieldKind::Raw(PayloadKind::Pred))])
    }
    else if tag == "aon"@ {
        Some(seq![("pred"@, FieldKind::Raw(PayloadKind::Pred))])
    }
    else if tag == "oon"@ {
        Some(seq![("pred"@, FieldKind::Raw(PayloadKind::Pred))])
    }
    else if tag == "uc"@ {
        Some(seq![("cols"@, FieldKind::StrVec)])
    }
    else if tag == "oc"@ {
        Some(seq![("pairs"@, FieldKind::Raw(PayloadKind::Pairs))])
    }
    else if tag == "wh"@ {
        Some(seq![("name"@, FieldKind::Str), ("rhsHandle"@, FieldKind::Str)])
    }
    else if tag == "wq"@ {
        Some(seq![("name"@, FieldKind::Str), ("query"@, FieldKind::Raw(PayloadKind::Query))])
    }
    else if tag == "wrh"@ {
        Some(seq![("name"@, FieldKind::Str), ("rhsHandle"@, FieldKind::Str)])
    }
    else if tag == "wrq"@ {
        Some(seq![("name"@, FieldKind::Str), ("query"@, FieldKind::Raw(PayloadKind::Query)), ("columns"@, FieldKind::OptRaw(PayloadKind::Columns))])
    }
    else if tag == "ii"@ {
        Some(seq![("table"@, FieldKind::Str)])
    }
    else if tag == "vi"@ {
        Some(seq![("columnNames"@, FieldKind::Raw(PayloadKind::Names)), ("rows"@, FieldKind::Raw(PayloadKind::Rows))])
    }
    else if tag == "ic"@ {
        Some(seq![("cols"@, FieldKind::StrVec)])
    }
    else if tag == "upd"@ {
        Some(seq![("table"@, FieldKind::Str)])
    }
    else if tag == "del"@ {
        Some(seq![("table"@, FieldKind::Str)])
    }
    else if tag == "set"@ {
        Some(seq![("assignments"@, FieldKind::Raw(PayloadKind::Assignments))])
    }
    else if tag == "ict"@ {
        Some(seq![("cols"@, FieldKind::StrVec)])
    }
    else if tag == "icn"@ {
        Some(seq![("name"@, FieldKind::Str)])
    }
    else if tag == "idn"@ {
        Some(Seq::empty())
    }
    else if tag == "idu"@ {
        Some(seq![("assignments"@, FieldKind::Raw(PayloadKind::Assignments))])
    }
    else if tag == "icw"@ {
        Some(seq![("pred"@, FieldKind::Raw(PayloadKind::Pred))])
    }
    else if tag == "sa"@ {
        Some(seq![("entries"@, FieldKind::Raw(PayloadKind::Entries))])
    }
    else if tag == "sc"@ {
        Some(seq![("cols"@, FieldKind::StrVec)])
    }
    else if tag == "ra"@ {
        Some(seq![("entries"@, FieldKind::Raw(PayloadKind::Entries))])
    }
    else if tag == "rc"@ {
        Some(seq![("cols"@, FieldKind::StrVec)])
    }
    else if tag == "ob"@ {
        Some(seq![("col"@, FieldKind::Str), ("direction"@, FieldKind::OptStr), ("nullOrder"@, FieldKind::OptStr)])
    }
    else if tag == "obc"@ {
        Some(seq![("cols"@, FieldKind::StrVec)])
    }
    else if tag == "gb"@ {
        Some(seq![("cols"@, FieldKind::StrVec)])
    }
    else if tag == "l"@ {
        Some(seq![("count"@, FieldKind::U32)])
    }
    else if tag == "o"@ {
        Some(seq![("count"@, FieldKind::U32)])
    }
    else if tag == "fu"@ {
        Some(Seq::empty())
    }
    else if tag == "fs"@ {
        Some(Seq::empty())
    }
    else if tag == "nw"@ {
        Some(Seq::empty())
    }
    else if tag == "sl"@ {
        Some(Seq::empty())
    }
    else if tag == "unh"@ {
        Some(seq![("rhsHandle"@, FieldKind::Str)])
    }
    else if tag == "un"@ {
        Some(seq![("query"@, FieldKind::Raw(PayloadKind::Query))])
    }
    else if tag == "uah"@ {
        Some(seq![("rhsHandle"@, FieldKind::Str)])
    }
    else if tag == "ua"@ {
        Some(seq![("query"@, FieldKind::Raw(PayloadKind::Query))])
    }
    else if tag == "ixh"@ {
        Some(seq![("rhsHandle"@, FieldKind::Str)])
    }
    else if tag == "ix"@ {
        Some(seq![("query"@, FieldKind::Raw(PayloadKind::Query))])
    }
    else if tag == "exh"@ {
        Some(seq![("rhsHandle"@, FieldKind::Str)])
    }
    else if tag == "ex"@ {
        Some(seq![("query"@, FieldKind::Raw(PayloadKind::Query))])
    }
    else if tag == "fsqh"@ {
        Some(seq![("alias"@, FieldKind::Str), ("rhsHandle"@, FieldKind::Str)])
    }
    else if tag == "fsq"@ {
        Some(seq![("alias"@, FieldKind::Str), ("query"@, FieldKind::Raw(PayloadKind::Query))])
    }
    else if tag == "jsqh"@ {
        Some(seq![("joinType"@, FieldKind::Str), ("alias"@, FieldKind::Str), ("rhsHandle"@, FieldKind::Str)])
    }
    else if tag == "jsq"@ {
        Some(seq![("joinType"@, FieldKind::Str), ("alias"@, FieldKind::Str), ("query"@, FieldKind::Raw(PayloadKind::Query))])
    }
    else if tag == "ish"@ {
        Some(seq![("rhsHandle"@, FieldKind::Str)])
    }
    else if tag == "is"@ {
        Some(seq![("query"@, FieldKind::Raw(PayloadKind::Query))])
    }
    else if tag == "whi"@ {
        Some(seq![("name"@, FieldKind::Str), ("baseHandle"@, FieldKind::Str), ("childOps"@, FieldKind::Ops)])
    }
    else if tag == "wrhi"@ {
        Some(seq![("name"@, FieldKind::Str), ("baseHandle"@, FieldKind::Str), ("childOps"@, FieldKind::Ops)])
    }
    else if tag == "fsqi"@ {
        Some(seq![("alias"@, FieldKind::Str), ("baseHandle"@, FieldKind::Str), ("childOps"@, FieldKind::Ops)])
    }
    else if tag == "jsqi"@ {
        Some(seq![("joinType"@, FieldKind::Str), ("alias"@, FieldKind::Str), ("baseHandle"@, FieldKind::Str), ("childOps"@, FieldKind::Ops)])
    }
    else if tag == "uni"@ {
        Some(seq![("baseHandle"@, FieldKind::Str), ("childOps"@, FieldKind::Ops)])
    }
    else if tag == "uai"@ {
        Some(seq![("baseHandle"@, FieldKind::Str), ("childOps"@, FieldKind::Ops)])
    }
    else if tag == "ixi"@ {
        Some(seq![("baseHandle"@, FieldKind::Str), ("childOps"@, FieldKind::Ops)])
    }
    else if tag == "exi"@ {
        Some(seq![("baseHandle"@, FieldKind::Str), ("childOps"@, FieldKind::Ops)])
    }
    else {
        None
    }
}

/// The fields of the operation a compact tag names.
pub fn shape_of(tag: &str) -> (r: Option<Vec<(&'static str, FieldKind)>>)
    ensures
        match compact_shape(tag@) {
            Some(s) => r matches Some(v) && shape_view(v@) == s,
            None => r is None,
        },
{
    if str_eq(tag, "w") {
        let mut v: Vec<(&'static str, FieldKind)> = Vec::new();
        v.push(("pred", FieldKind::Raw(PayloadKind::Pred)));
        assert(shape_view(v@) =~= seq![("pred"@, FieldKind::Raw(PayloadKind::Pred))]);
        Some(v)
    }
    else if str_eq(tag, "d") {
        let mut v: Vec<(&'static str, FieldKind)> = Vec::new();
        assert(shape_view(v@) =~= Seq::<(Seq<char>, FieldKind)>::empty());
        Some(v)
    }
    else if str_eq(tag, "dc") {
        let mut v: Vec<(&'static str, FieldKind)> = Vec::new();
        v.push(("cols", FieldKind::StrVec));
        assert(shape_view(v@) =~= seq![("cols"@, FieldKind::StrVec)]);
        Some(v)
    }
    else if str_eq(tag, "de") {
        let mut v: Vec<(&'static str, FieldKind)> = Vec::new();
        v.push(("exprs", FieldKind::Raw(PayloadKind::Exprs)));
        assert(shape_view(v@) =~= seq![("exprs"@, FieldKind::Raw(PayloadKind::Exprs))]);
        Some(v)
    }
    else if str_eq(tag, "aw") {
        let mut v: Vec<(&'static str, FieldKind)> = Vec::new();
        v.push(("pred", FieldKind::Raw(PayloadKind::Pred)));
        assert(shape_view(v@) =~= seq![("pred"@, FieldKind::Raw(PayloadKind::Pred))]);
        Some(v)
    }
    else if str_eq(tag, "ow") {
        let mut v: Vec<(&'static str, FieldKind)> = Vec::new();
        v.push(("pred", FieldKind::Raw(PayloadKind::Pred)));
        assert(shape_view(v@) =~= seq![("pred"@, FieldKind::Raw(PayloadKind::Pred))]);
        Some(v)
    }
    else if str_eq(tag, "h") {
        let mut v: Vec<(&'static str, FieldKind)> = Vec::new();
        v.push(("pred", FieldKind::Raw(PayloadKind::Pred)));
        assert(shape_view(v@) =~= seq![("pred"@, FieldKind::Raw(PayloadKind::Pred))]);
        Some(v)
    }
    else if str_eq(tag, "ah") {
        let mut v: Vec<(&'static str, FieldKind)> = Vec::new();
        v.push(("pred", FieldKind::Raw(PayloadKind::Pred)));
        assert(shape_view(v@) =~= seq![("pred"@, FieldKind::Raw(PayloadKind::Pred))]);
        Some(v)
    }
    else if str_eq(tag, "oh") {
        let mut v: Vec<(&'static str, FieldKind)> = Vec::new();
        v.push(("pred", FieldKind::Raw(PayloadKind::Pred)));
        assert(shape_view(v@) =~= seq![("pred"@, FieldKind::Raw(PayloadKind::Pred))]);
        Some(v)
    }
    else if str_eq(tag, "ft") {
        let mut v: Vec<(&'static str, FieldKind)> = Vec::new();
        v.push(("table", FieldKind::Str));
        assert(shape_view(v@) =~= seq![("table"@, FieldKind::Str)]);
        Some(v)
    }
    else if str_eq(tag, "fta") {
        let mut v: Vec<(&'static str, FieldKind)> = Vec::new();
        v.push(("table", FieldKind::Str));
        v.push(("alias", FieldKind::Str));
        assert(shape_view(v@) =~= seq![("table"@, FieldKind::Str), ("alias"@, FieldKind::Str)]);
        Some(v)
    }
    else if str_eq(tag, "jt") {
        let mut v: Vec<(&'static str, FieldKind)> = Vec::new();
        v.push(("joinType", FieldKind::Str));
        v.push(("table", FieldKind::Str));
        assert(shape_view(v@) =~= seq![("joinType"@, FieldKind::Str), ("table"@, FieldKind::Str)]);
        Some(v)
    }
    else if str_eq(tag, "jta") {
        let mut v: Vec<(&'static str, FieldKind)> = Vec::new();
        v.push(("joinType", FieldKind::Str));
        v.push(("table", FieldKind::Str));
        v.push(("alias", FieldKind::Str));
        assert(shape_view(v@) =~= seq![("joinType"@, FieldKind::Str), ("table"@, FieldKind::Str), ("alias"@, FieldKind::Str)]);
        Some(v)
    }
    else if str_eq(tag, "on") {
        let mut v: Vec<(&'static str, FieldKind)> = Vec::new();
        v.push(("pred", FieldKind::Raw(PayloadKind::Pred)));
        assert(shape_view(v@) =~= seq![("pred"@, FieldKind::Raw(PayloadKind::Pred))]);
        Some(v)
    }
    else if str_eq(tag, "aon") {
        let mut v: Vec<(&'static str, FieldKind)> = Vec::new();
        v.push(("pred", FieldKind::Raw(PayloadKind::Pred)));
        assert(shape_view(v@) =~= seq![("pred"@, FieldKind::Raw(PayloadKind::Pred))]);
        Some(v)
    }
    else if str_eq(tag, "oon") {
        let mut v: Vec<(&'static str, FieldKind)> = Vec::new();
        v.push(("pred", FieldKind::Raw(PayloadKind::Pred)));
        assert(shape_view(v@) =~= seq![("pred"@, FieldKind::Raw(PayloadKind::Pred))]);
        Some(v)
    }
    else if str_eq(tag, "uc") {
        let mut v: Vec<(&'static str, FieldKind)> = Vec::new();
        v.push(("cols", FieldKind::StrVec));
        assert(shape_view(v@) =~= seq![("cols"@, FieldKind::StrVec)]);
        Some(v)
    }
    else if str_eq(tag, "oc") {
        let mut v: Vec<(&'static str, FieldKind)> = Vec::new();
        v.push(("pairs", FieldKind::Raw(PayloadKind::Pairs)));
        assert(shape_view(v@) =~= seq![("pairs"@, FieldKind::Raw(PayloadKind::Pairs))]);
        Some(v)
    }
    else if str_eq(tag, "wh") {
        let mut v: Vec<(&'static str, FieldKind)> = Vec::new();
        v.push(("name", FieldKind::Str));
        v.push(("rhsHandle", FieldKind::Str));
        assert(shape_view(v@) =~= seq![("name"@, FieldKind::Str), ("rhsHandle"@, FieldKind::Str)]);
        Some(v)
    }
    else if str_eq(tag, "wq") {
        let mut v: Vec<(&'static str, FieldKind)> = Vec::new();
        v.push(("name", FieldKind::Str));
        v.push(("query", FieldKind::Raw(PayloadKind::Query)));
        assert(shape_view(v@) =~= seq![("name"@, FieldKind::Str), ("query"@, FieldKind::Raw(PayloadKind::Query))]);
        Some(v)
    }
    else if str_eq(tag, "wrh") {
        let mut v: Vec<(&'static str, FieldKind)> = Vec::new();
        v.push(("name", FieldKind::Str));
        v.push(("rhsHandle", FieldKind::Str));
        assert(shape_view(v@) =~= seq![("name"@, FieldKind::Str), ("rhsHandle"@, FieldKind::Str)]);
        Some(v)
    }
    else if str_eq(tag, "wrq") {
        let mut v: Vec<(&'static str, FieldKind)> = Vec::new();
        v.push(("name", FieldKind::Str));
        v.push(("query", FieldKind::Raw(PayloadKind::Query)));
        v.push(("columns", FieldKind::OptRaw(PayloadKind::Columns)));
        assert(shape_view(v@) =~= seq![("name"@, FieldKind::Str), ("query"@, FieldKind::Raw(PayloadKind::Query)), ("columns"@, FieldKind::OptRaw(PayloadKind::Columns))]);
        Some(v)
    }
    else if str_eq(tag, "ii") {
        let mut v: Vec<(&'static str, FieldKind)> = Vec::new();
        v.push(("table", FieldKind::Str));
        assert(shape_view(v@) =~= seq![("table"@, FieldKind::Str)]);
        Some(v)
    }
    else if str_eq(tag, "vi") {
        let mut v: Vec<(&'static str, FieldKind)> = Vec::new();
        v.push(("columnNames", FieldKind::Raw(PayloadKind::Names)));
        v.push(("rows", FieldKind::Raw(PayloadKind::Rows)));
        assert(shape_view(v@) =~= seq![("columnNames"@, FieldKind::Raw(PayloadKind::Names)), ("rows"@, FieldKind::Raw(PayloadKind::Rows))]);
        Some(v)
    }
    else if str_eq(tag, "ic") {
        let mut v: Vec<(&'static str, FieldKind)> = Vec::new();
        v.push(("cols", FieldKind::StrVec));
        assert(shape_view(v@) =~= seq![("cols"@, FieldKind::StrVec)]);
        Some(v)
    }
    else if str_eq(tag, "upd") {
        let mut v: Vec<(&'static str, FieldKind)> = Vec::new();
        v.push(("table", FieldKind::Str));
        assert(shape_view(v@) =~= seq![("table"@, FieldKind::Str)]);
        Some(v)
    }
    else if str_eq(tag, "del") {
        let mut v: Vec<(&'static str, FieldKind)> = Vec::new();
        v.push(("table", FieldKind::Str));
        assert(shape_view(v@) =~= seq![("table"@, FieldKind::Str)]);
        Some(v)
    }
    else if str_eq(tag, "set") {
        let mut v: Vec<(&'static str, FieldKind)> = Vec::new();
        v.push(("assignments", FieldKind::Raw(PayloadKind::Assignments)));
        assert(shape_view(v@) =~= seq![("assignments"@, FieldKind::Raw(PayloadKind::Assignments))]);
        Some(v)
    }
    else if str_eq(tag, "ict") {
        let mut v: Vec<(&'static str, FieldKind)> = Vec::new();
        v.push(("cols", FieldKind::StrVec));
        assert(shape_view(v@) =~= seq![("cols"@, FieldKind::StrVec)]);
        Some(v)
    }
    else if str_eq(tag, "icn") {
        let mut v: Vec<(&'static str, FieldKind)> = Vec::new();
        v.push(("name", FieldKind::Str));
        assert(shape_view(v@) =~= seq![("name"@, FieldKind::Str)]);
        Some(v)
    }
    else if str_eq(tag, "idn") {
        let mut v: Vec<(&'static str, FieldKind)> = Vec::new();
        assert(shape_view(v@) =~= Seq::<(Seq<char>, FieldKind)>::empty());
        Some(v)
    }
    else if str_eq(tag, "idu") {
        let mut v: Vec<(&'static str, FieldKind)> = Vec::new();
        v.push(("assignments", FieldKind::Raw(PayloadKind::Assignments)));
        assert(shape_view(v@) =~= seq![("assignments"@, FieldKind::Raw(PayloadKind::Assignments))]);
        Some(v)
    }
    else if str_eq(tag, "icw") {
        let mut v: Vec<(&'static str, FieldKind)> = Vec::new();
        v.push(("pred", FieldKind::Raw(PayloadKind::Pred)));
        assert(shape_view(v@) =~= seq![("pred"@, FieldKind::Raw(PayloadKind::Pred))]);
        Some(v)
    }
    else if str_eq(tag, "sa") {
        let mut v: Vec<(&'static str, FieldKind)> = Vec::new();
        v.push(("entries", FieldKind::Raw(PayloadKind::Entries)));
        assert(shape_view(v@) =~= seq![("entries"@, FieldKind::Raw(PayloadKind::Entries))]);
        Some(v)
    }
    else if str_eq(tag, "sc") {
        let mut v: Vec<(&'static str, FieldKind)> = Vec::new();
        v.push(("cols", FieldKind::StrVec));
        assert(shape_view(v@) =~= seq![("cols"@, FieldKind::StrVec)]);
        Some(v)
    }
    else if str_eq(tag, "ra") {
        let mut v: Vec<(&'static str, FieldKind)> = Vec::new();
        v.push(("entries", FieldKind::Raw(PayloadKind::Entries)));
        assert(shape_view(v@) =~= seq![("entries"@, FieldKind::Raw(PayloadKind::Entries))]);
        Some(v)
    }
    else if str_eq(tag, "rc") {
        let mut v: Vec<(&'static str, FieldKind)> = Vec::new();
        v.push(("cols", FieldKind::StrVec));
        assert(shape_view(v@) =~= seq![("cols"@, FieldKind::StrVec)]);
        Some(v)
    }
    else if str_eq(tag, "ob") {
        let mut v: Vec<(&'static str, FieldKind)> = Vec::new();
        v.push(("col", FieldKind::Str));
        v.push(("direction", FieldKind::OptStr));
        v.push(("nullOrder", FieldKind::OptStr));
        assert(shape_view(v@) =~= seq![("col"@, FieldKind::Str), ("direction"@, FieldKind::OptStr), ("nullOrder"@, FieldKind::OptStr)]);
        Some(v)
    }
    else if str_eq(tag, "obc") {
        let mut v: Vec<(&'static str, FieldKind)> = Vec::new();
        v.push(("cols", FieldKind::StrVec));
        assert(shape_view(v@) =~= seq![("cols"@, FieldKind::StrVec)]);
        Some(v)
    }
    else if str_eq(tag, "gb") {
        let mut v: Vec<(&'static str, FieldKind)> = Vec::new();
        v.push(("cols", FieldKind::StrVec));
        assert(shape_view(v@) =~= seq![("cols"@, FieldKind::StrVec)]);
        Some(v)
    }
    else if str_eq(tag, "l") {
        let mut v: Vec<(&'static str, FieldKind)> = Vec::new();
        v.push(("count", FieldKind::U32));
        assert(shape_view(v@) =~= seq![("count"@, FieldKind::U32)]);
        Some(v)
    }
    else if str_eq(tag, "o") {
        let mut v: Vec<(&'static str, FieldKind)> = Vec::new();
        v.push(("count", FieldKind::U32));
        assert(shape_view(v@) =~= seq![("count"@, FieldKind::U32)]);
        Some(v)
    }
    else if str_eq(tag, "fu") {
        let mut v: Vec<(&'static str, FieldKind)> = Vec::new();
        assert(shape_view(v@) =~= Seq::<(Seq<char>, FieldKind)>::empty());
        Some(v)
    }
    else if str_eq(tag, "fs") {
        let mut v: Vec<(&'static str, FieldKind)> = Vec::new();
        assert(shape_view(v@) =~= Seq::<(Seq<char>, FieldKind)>::empty());
        Some(v)
    }
    else if str_eq(tag, "nw") {
        let mut v: Vec<(&'static str, FieldKind)> = Vec::new();
        assert(shape_view(v@) =~= Seq::<(Seq<char>, FieldKind)>::empty());
        Some(v)
    }
    else if str_eq(tag, "sl") {
        let mut v: Vec<(&'static str, FieldKind)> = Vec::new();
        assert(shape_view(v@) =~= Seq::<(Seq<char>, FieldKind)>::empty());
        Some(v)
    }
    else if str_eq(tag, "unh") {
        let mut v: Vec<(&'static str, FieldKind)> = Vec::new();
        v.push(("rhsHandle", FieldKind::Str));
        assert(shape_view(v@) =~= seq![("rhsHandle"@, FieldKind::Str)]);
        Some(v)
    }
    else if str_eq(tag, "un") {
        let mut v: Vec<(&'static str, FieldKind)> = Vec::new();
        v.push(("query", FieldKind::Raw(PayloadKind::Query)));
        assert(shape_view(v@) =~= seq![("query"@, FieldKind::Raw(PayloadKind::Query))]);
        Some(v)
    }
    else if str_eq(tag, "uah") {
        let mut v: Vec<(&'static str, FieldKind)> = Vec::new();
        v.push(("rhsHandle", FieldKind::Str));
        assert(shape_view(v@) =~= seq![("rhsHandle"@, FieldKind::Str)]);
        Some(v)
    }
    else if str_eq(tag, "ua") {
        let mut v: Vec<(&'static str, FieldKind)> = Vec::new();
        v.push(("query", FieldKind::Raw(PayloadKind::Query)));
        assert(shape_view(v@) =~= seq![("query"@, FieldKind::Raw(PayloadKind::Query))]);
        Some(v)
    }
    else if str_eq(tag, "ixh") {
        let mut v: Vec<(&'static str, FieldKind)> = Vec::new();
        v.push(("rhsHandle", FieldKind::Str));
        assert(shape_view(v@) =~= seq![("rhsHandle"@, FieldKind::Str)]);
        Some(v)
    }
    else if str_eq(tag, "ix") {
        let mut v: Vec<(&'static str, FieldKind)> = Vec::new();
        v.push(("query", FieldKind::Raw(PayloadKind::Query)));
        assert(shape_view(v@) =~= seq![("query"@, FieldKind::Raw(PayloadKind::Query))]);
        Some(v)
    }
    else if str_eq(tag, "exh") {
        let mut v: Vec<(&'static str, FieldKind)> = Vec::new();
        v.push(("rhsHandle", FieldKind::Str));
        assert(shape_view(v@) =~= seq![("rhsHandle"@, FieldKind::Str)]);
        Some(v)
    }
    else if str_eq(tag, "ex") {
        let mut v: Vec<(&'static str, FieldKind)> = Vec::new();
        v.push(("query", FieldKind::Raw(PayloadKind::Query)));
        assert(shape_view(v@) =~= seq![("query"@, FieldKind::Raw(PayloadKind::Query))]);
        Some(v)
    }
    else if str_eq(tag, "fsqh") {
        let mut v: Vec<(&'static str, FieldKind)> = Vec::new();
        v.push(("alias", FieldKind::Str));
        v.push(("rhsHandle", FieldKind::Str));
        assert(shape_view(v@) =~= seq![("alias"@, FieldKind::Str), ("rhsHandle"@, FieldKind::Str)]);
        Some(v)
    }
    else if str_eq(tag, "fsq") {
        let mut v: Vec<(&'static str, FieldKind)> = Vec::new();
        v.push(("alias", FieldKind::Str));
        v.push(("query", FieldKind::Raw(PayloadKind::Query)));
        assert(shape_view(v@) =~= seq![("alias"@, FieldKind::Str), ("query"@, FieldKind::Raw(PayloadKind::Query))]);
        Some(v)
    }
    else if str_eq(tag, "jsqh") {
        let mut v: Vec<(&'static str, FieldKind)> = Vec::new();
        v.push(("joinType", FieldKind::Str));
        v.push(("alias", FieldKind::Str));
        v.push(("rhsHandle", FieldKind::Str));
        assert(shape_view(v@) =~= seq![("joinType"@, FieldKind::Str), ("alias"@, FieldKind::Str), ("rhsHandle"@, FieldKind::Str)]);
        Some(v)
    }
    else if str_eq(tag, "jsq") {
        let mut v: Vec<(&'static str, FieldKind)> = Vec::new();
        v.push(("joinType", FieldKind::Str));
        v.push(("alias", FieldKind::Str));
        v.push(("query", FieldKind::Raw(PayloadKind::Query)));
        assert(shape_view(v@) =~= seq![("joinType"@, FieldKind::Str), ("alias"@, FieldKind::Str), ("query"@, FieldKind::Raw(PayloadKind::Query))]);
        Some(v)
    }
    else if str_eq(tag, "ish") {
        let mut v: Vec<(&'static str, FieldKind)> = Vec::new();
        v.push(("rhsHandle", FieldKind::Str));
        assert(shape_view(v@) =~= seq![("rhsHandle"@, FieldKind::Str)]);
        Some(v)
    }
    else if str_eq(tag, "is") {
        let mut v: Vec<(&'static str, FieldKind)> = Vec::new();
        v.push(("query", FieldKind::Raw(PayloadKind::Query)));
        assert(shape_view(v@) =~= seq![("query"@, FieldKind::Raw(PayloadKind::Query))]);
        Some(v)
    }
    else if str_eq(tag, "whi") {
        let mut v: Vec<(&'static str, FieldKind)> = Vec::new();
        v.push(("name", FieldKind::Str));
        v.push(("baseHandle", FieldKind::Str));
        v.push(("childOps", FieldKind::Ops));
        assert(shape_view(v@) =~= seq![("name"@, FieldKind::Str), ("baseHandle"@, FieldKind::Str), ("childOps"@, FieldKind::Ops)]);
        Some(v)
    }
    else if str_eq(tag, "wrhi") {
        let mut v: Vec<(&'static str, FieldKind)> = Vec::new();
        v.push(("name", FieldKind::Str));
        v.push(("baseHandle", FieldKind::Str));
        v.push(("childOps", FieldKind::Ops));
        assert(shape_view(v@) =~= seq![("name"@, FieldKind::Str), ("baseHandle"@, FieldKind::Str), ("childOps"@, FieldKind::Ops)]);
        Some(v)
    }
    else if str_eq(tag, "fsqi") {
        let mut v: Vec<(&'static str, FieldKind)> = Vec::new();
        v.push(("alias", FieldKind::Str));
        v.push(("baseHandle", FieldKind::Str));
        v.push(("childOps", FieldKind::Ops));
        assert(shape_view(v@) =~= seq![("alias"@, FieldKind::Str), ("baseHandle"@, FieldKind::Str), ("childOps"@, FieldKind::Ops)]);
        Some(v)
    }
    else if str_eq(tag, "jsqi") {
        let mut v: Vec<(&'static str, FieldKind)> = Vec::new();
        v.push(("joinType", FieldKind::Str));
        v.push(("alias", FieldKind::Str));
        v.push(("baseHandle", FieldKind::Str));
        v.push(("childOps", FieldKind::Ops));
        assert(shape_view(v@) =~= seq![("joinType"@, FieldKind::Str), ("alias"@, FieldKind::Str), ("baseHandle"@, FieldKind::Str), ("childOps"@, FieldKind::Ops)]);
        Some(v)
    }
    else if str_eq(tag, "uni") {
        let mut v: Vec<(&'static str, FieldKind)> = Vec::new();
        v.push(("baseHandle", FieldKind::Str));
        v.push(("childOps", FieldKind::Ops));
        assert(shape_view(v@) =~= seq![("baseHandle"@, FieldKind::Str), ("childOps"@, FieldKind::Ops)]);
        Some(v)
    }
    else if str_eq(tag, "uai") {
        let mut v: Vec<(&'static str, FieldKind)> = Vec::new();
        v.push(("baseHandle", FieldKind::Str));
        v.push(("childOps", FieldKind::Ops));
        assert(shape_view(v@) =~= seq![("baseHandle"@, FieldKind::Str), ("childOps"@, FieldKind::Ops)]);
        Some(v)
    }
    else if str_eq(tag, "ixi") {
        let mut v: Vec<(&'static str, FieldKind)> = Vec::new();
        v.push(("baseHandle", FieldKind::Str));
        v.push(("childOps", FieldKind::Ops));
        assert(shape_view(v@) =~= seq![("baseHandle"@, FieldKind::Str), ("childOps"@, FieldKind::Ops)]);
        Some(v)
    }
    else if str_eq(tag, "exi") {
        let mut v: Vec<(&'static str, FieldKind)> = Vec::new();
        v.push(("baseHandle", FieldKind::Str));
        v.push(("childOps", FieldKind::Ops));
        assert(shape_view(v@) =~= seq![("baseHandle"@, FieldKind::Str), ("childOps"@, FieldKind::Ops)]);
        Some(v)
    }
    else {
        None
    }
}

/// `op` is the operation a compact tag and its decoded fields describe.
pub open spec fn built_from(tag: Seq<char>, fs: Seq<DecodedField>, op: BuilderOp) -> bool {
    match op {
        BuilderOp::Where { pred } => tag == "w"@ && fs.len() == 1 && fs[0] == DecodedField::Payload(Payload::Pred(pred)),
        BuilderOp::Distinct => tag == "d"@ && fs.len() == 0,
        BuilderOp::DistinctOnColumns { cols } => tag == "dc"@ && fs.len() == 1 && fs[0] == DecodedField::StrVec(cols),
        BuilderOp::DistinctOnExprs { exprs } => tag == "de"@ && fs.len() == 1 && fs[0] == DecodedField::Payload(Payload::Exprs(exprs)),
        BuilderOp::AndWhere { pred } => tag == "aw"@ && fs.len() == 1 && fs[0] == DecodedField::Payload(Payload::Pred(pred)),
        BuilderOp::OrWhere { pred } => tag == "ow"@ && fs.len() == 1 && fs[0] == DecodedField::Payload(Payload::Pred(pred)),
        BuilderOp::Having { pred } => tag == "h"@ && fs.len() == 1 && fs[0] == DecodedField::Payload(Payload::Pred(pred)),
        BuilderOp::AndHaving { pred } => tag == "ah"@ && fs.len() == 1 && fs[0] == DecodedField::Payload(Payload::Pred(pred)),
        BuilderOp::OrHaving { pred } => tag == "oh"@ && fs.len() == 1 && fs[0] == DecodedField::Payload(Payload::Pred(pred)),
        BuilderOp::FromTable { table } => tag == "ft"@ && fs.len() == 1 && fs[0] == DecodedField::Str(table),
        BuilderOp::FromTableAlias { table, alias } => tag == "fta"@ && fs.len() == 2 && fs[0] == DecodedField::Str(table) && fs[1] == DecodedField::Str(alias),
        BuilderOp::JoinTable { join_type, table } => tag == "jt"@ && fs.len() == 2 && fs[0] == DecodedField::Str(join_type) && fs[1] == DecodedField::Str(table),
        BuilderOp::JoinTableAlias { join_type, table, alias } => tag == "jta"@ && fs.len() == 3 && fs[0] == DecodedField::Str(join_type) && fs[1] == DecodedField::Str(table) && fs[2] == DecodedField::Str(alias),
        BuilderOp::On { pred } => tag == "on"@ && fs.len() == 1 && fs[0] == DecodedField::Payload(Payload::Pred(pred)),
        BuilderOp::AndOn { pred } => tag == "aon"@ && fs.len() == 1 && fs[0] == DecodedField::Payload(Payload::Pred(pred)),
        BuilderOp::OrOn { pred } => tag == "oon"@ && fs.len() == 1 && fs[0] == DecodedField::Payload(Payload::Pred(pred)),
        BuilderOp::UsingColumns { cols } => tag == "uc"@ && fs.len() == 1 && fs[0] == DecodedField::StrVec(cols),
        BuilderOp::OnColumns { pairs } => tag == "oc"@ && fs.len() == 1 && fs[0] == DecodedField::Payload(Payload::Pairs(pairs)),
        BuilderOp::WithHandle { name, rhs_handle } => tag == "wh"@ && fs.len() == 2 && fs[0] == DecodedField::Str(name) && fs[1] == DecodedField::Str(rhs_handle),
        BuilderOp::WithQuery { name, query } => tag == "wq"@ && fs.len() == 2 && fs[0] == DecodedField::Str(name) && fs[1] == DecodedField::Payload(Payload::Query(query)),
        BuilderOp::WithRecursiveHandle { name, rhs_handle } => tag == "wrh"@ && fs.len() == 2 && fs[0] == DecodedField::Str(name) && fs[1] == DecodedField::Str(rhs_handle),
        BuilderOp::WithRecursiveQuery { name, query, columns } => tag == "wrq"@ && fs.len() == 3 && fs[0] == DecodedField::Str(name) && fs[1] == DecodedField::Payload(Payload::Query(query)) && (fs[2] matches DecodedField::Payload(Payload::Columns(c)) && (c matches Some(v) ==> columns == v) && (c is None ==> columns@.len() == 0)),
        BuilderOp::InsertInto { table } => tag == "ii"@ && fs.len() == 1 && fs[0] == DecodedField::Str(table),
        BuilderOp::ValuesInsert { column_names, rows } => tag == "vi"@ && fs.len() == 2 && fs[0] == DecodedField::Payload(Payload::Names(column_names)) && fs[1] == DecodedField::Payload(Payload::Rows(rows)),
        BuilderOp::InsertColumns { cols } => tag == "ic"@ && fs.len() == 1 && fs[0] == DecodedField::StrVec(cols),
        BuilderOp::Update { table } => tag == "upd"@ && fs.len() == 1 && fs[0] == DecodedField::Str(table),
        BuilderOp::DeleteFrom { table } => tag == "del"@ && fs.len() == 1 && fs[0] == DecodedField::Str(table),
        BuilderOp::SetColumns { assignments } => tag == "set"@ && fs.len() == 1 && fs[0] == DecodedField::Payload(Payload::Assignments(assignments)),
        BuilderOp::OnConflictColumns { cols } => tag == "ict"@ && fs.len() == 1 && fs[0] == DecodedField::StrVec(cols),
        BuilderOp::OnConflictConstraint { name } => tag == "icn"@ && fs.len() == 1 && fs[0] == DecodedField::Str(name),
        BuilderOp::DoNothing => tag == "idn"@ && fs.len() == 0,
        BuilderOp::DoUpdateSet { assignments } => tag == "idu"@ && fs.len() == 1 && fs[0] == DecodedField::Payload(Payload::Assignments(assignments)),
        BuilderOp::ConflictWhere { pred } => tag == "icw"@ && fs.len() == 1 && fs[0] == DecodedField::Payload(Payload::Pred(pred)),
        BuilderOp::SelectAliased { entries } => tag == "sa"@ && fs.len() == 1 && fs[0] == DecodedField::Payload(Payload::Entries(entries)),
        BuilderOp::SelectColumns { cols } => tag == "sc"@ && fs.len() == 1 && fs[0] == DecodedField::StrVec(cols),
        BuilderOp::ReturningAliased { entries } => tag == "ra"@ && fs.len() == 1 && fs[0] == DecodedField::Payload(Payload::Entries(entries)),
        BuilderOp::ReturningColumns { cols } => tag == "rc"@ && fs.len() == 1 && fs[0] == DecodedField::StrVec(cols),
        BuilderOp::OrderBy { col, direction, null_order } => tag == "ob"@ && fs.len() == 3 && fs[0] == DecodedField::Str(col) && fs[1] == DecodedField::OptStr(direction) && fs[2] == DecodedField::OptStr(null_order),
        BuilderOp::OrderByColumns { cols } => tag == "obc"@ && fs.len() == 1 && fs[0] == DecodedField::StrVec(cols),
        BuilderOp::GroupBy { cols } => tag == "gb"@ && fs.len() == 1 && fs[0] == DecodedField::StrVec(cols),
        BuilderOp::Limit { count } => tag == "l"@ && fs.len() == 1 && fs[0] == DecodedField::U32(count),
        BuilderOp::Offset { count } => tag == "o"@ && fs.len() == 1 && fs[0] == DecodedField::U32(count),
        BuilderOp::ForUpdate => tag == "fu"@ && fs.len() == 0,
        BuilderOp::ForShare => tag == "fs"@ && fs.len() == 0,
        BuilderOp::NoWait => tag == "nw"@ && fs.len() == 0,
        BuilderOp::SkipLocked => tag == "sl"@ && fs.len() == 0,
        BuilderOp::UnionHandle { rhs_handle } => tag == "unh"@ && fs.len() == 1 && fs[0] == DecodedField::Str(rhs_handle),
        BuilderOp::Union { query } => tag == "un"@ && fs.len() == 1 && fs[0] == DecodedField::Payload(Payload::Query(query)),
        BuilderOp::UnionAllHandle { rhs_handle } => tag == "uah"@ && fs.len() == 1 && fs[0] == DecodedField::Str(rhs_handle),
        BuilderOp::UnionAll { query } => tag == "ua"@ && fs.len() == 1 && fs[0] == DecodedField::Payload(Payload::Query(query)),
        BuilderOp::IntersectHandle { rhs_handle } => tag == "ixh"@ && fs.len() == 1 && fs[0] == DecodedField::Str(rhs_handle),
        BuilderOp::Intersect { query } => tag == "ix"@ && fs.len() == 1 && fs[0] == DecodedField::Payload(Payload::Query(query)),
        BuilderOp::ExceptHandle { rhs_handle } => tag == "exh"@ && fs.len() == 1 && fs[0] == DecodedField::Str(rhs_handle),
        BuilderOp::Except { query } => tag == "ex"@ && fs.len() == 1 && fs[0] == DecodedField::Payload(Payload::Query(query)),
        BuilderOp::FromSubqueryHandle { alias, rhs_handle } => tag == "fsqh"@ && fs.len() == 2 && fs[0] == DecodedField::Str(alias) && fs[1] == DecodedField::Str(rhs_handle),
        BuilderOp::FromSubquery { alias, query } => tag == "fsq"@ && fs.len() == 2 && fs[0] == DecodedField::Str(alias) && fs[1] == DecodedField::Payload(Payload::Query(query)),
        BuilderOp::JoinSubqueryHandle { join_type, alias, rhs_handle } => tag == "jsqh"@ && fs.len() == 3 && fs[0] == DecodedField::Str(join_type) && fs[1] == DecodedField::Str(alias) && fs[2] == DecodedField::Str(rhs_handle),
        BuilderOp::JoinSubquery { join_type, alias, query } => tag == "jsq"@ && fs.len() == 3 && fs[0] == DecodedField::Str(join_type) && fs[1] == DecodedField::Str(alias) && fs[2] == DecodedField::Payload(Payload::Query(query)),
        BuilderOp::InsertSelectHandle { rhs_handle } => tag == "ish"@ && fs.len() == 1 && fs[0] == DecodedField::Str(rhs_handle),
        BuilderOp::InsertSelect { query } => tag == "is"@ && fs.len() == 1 && fs[0] == DecodedField::Payload(Payload::Query(query)),
        BuilderOp::WithInline { name, base_handle, child_ops } => tag == "whi"@ && fs.len() == 3 && fs[0] == DecodedField::Str(name) && fs[1] == DecodedField::Str(base_handle) && fs[2] == DecodedField::Ops(child_ops),
        BuilderOp::WithRecursiveInline { name, base_handle, child_ops } => tag == "wrhi"@ && fs.len() == 3 && fs[0] == DecodedField::Str(name) && fs[1] == DecodedField::Str(base_handle) && fs[2] == DecodedField::Ops(child_ops),
        BuilderOp::FromSubqueryInline { alias, base_handle, child_ops } => tag == "fsqi"@ && fs.len() == 3 && fs[0] == DecodedField::Str(alias) && fs[1] == DecodedField::Str(base_handle) && fs[2] == DecodedField::Ops(child_ops),
        BuilderOp::JoinSubqueryInline { join_type, alias, base_handle, child_ops } => tag == "jsqi"@ && fs.len() == 4 && fs[0] == DecodedField::Str(join_type) && fs[1] == DecodedField::Str(alias) && fs[2] == DecodedField::Str(base_handle) && fs[3] == DecodedField::Ops(child_ops),
        BuilderOp::UnionInline { base_handle, child_ops } => tag == "uni"@ && fs.len() == 2 && fs[0] == DecodedField::Str(base_handle) && fs[1] == DecodedField::Ops(child_ops),
        BuilderOp::UnionAllInline { base_handle, child_ops } => tag == "uai"@ && fs.len() == 2 && fs[0] == DecodedField::Str(base_handle) && fs[1] == DecodedField::Ops(child_ops),
        BuilderOp::IntersectInline { base_handle, child_ops } => tag == "ixi"@ && fs.len() == 2 && fs[0] == DecodedField::Str(base_handle) && fs[1] == DecodedField::Ops(child_ops),
        BuilderOp::ExceptInline { base_handle, child_ops } => tag == "exi"@ && fs.len() == 2 && fs[0] == DecodedField::Str(base_handle) && fs[1] == DecodedField::Ops(child_ops),
    }
}

/// Build the operation a compact tag and its decoded fields describe.
pub fn build_compact_op(tag: &str, fields: Vec<DecodedField>) -> (r: Result<BuilderOp, String>)
    ensures
        r is Ok <==> decoded_fits(tag@, fields@),
        r matches Ok(op) ==> built_from(tag@, fields@, op),
        r matches Err(e) ==> e@ == shape_mismatch_msg(tag@),
{
    let ghost fv = fields@;
    let mut fs = fields;
    if str_eq(tag, "w") {
        if fs.len() != 1 {
            return Err(shape_mismatch(tag));
        }
        let f0 = fs.pop().unwrap();
        match f0 {
            DecodedField::Payload(Payload::Pred(pred)) => Ok(BuilderOp::Where { pred }),
            _ => Err(shape_mismatch(tag)),
        }
    }
    else if str_eq(tag, "d") {
        if fs.len() != 0 {
            return Err(shape_mismatch(tag));
        }
        Ok(BuilderOp::Distinct)
    }
    else if str_eq(tag, "dc") {
        if fs.len() != 1 {
            return Err(shape_mismatch(tag));
        }
        let f0 = fs.pop().unwrap();
        match f0 {
            DecodedField::StrVec(cols) => Ok(BuilderOp::DistinctOnColumns { cols }),
            _ => Err(shape_mismatch(tag)),
        }
    }
    else if str_eq(tag, "de") {
        if fs.len() != 1 {
            return Err(shape_mismatch(tag));
        }
        let f0 = fs.pop().unwrap();
        match f0 {
            DecodedField::Payload(Payload::Exprs(exprs)) => Ok(BuilderOp::DistinctOnExprs { exprs }),
            _ => Err(shape_mismatch(tag)),
        }
    }
    else if str_eq(tag, "aw") {
        if fs.len() != 1 {
            return Err(shape_mismatch(tag));
        }
        let f0 = fs.pop().unwrap();
        match f0 {
            DecodedField::Payload(Payload::Pred(pred)) => Ok(BuilderOp::AndWhere { pred }),
            _ => Err(shape_mismatch(tag)),
        }
    }
    else if str_eq(tag, "ow") {
        if fs.len() != 1 {
            return Err(shape_mismatch(tag));
        }
        let f0 = fs.pop().unwrap();
        match f0 {
            DecodedField::Payload(Payload::Pred(pred)) => Ok(BuilderOp::OrWhere { pred }),
            _ => Err(shape_mismatch(tag)),
        }
    }
    else if str_eq(tag, "h") {
        if fs.len() != 1 {
            return Err(shape_mismatch(tag));
        }
        let f0 = fs.pop().unwrap();
        match f0 {
            DecodedField::Payload(Payload::Pred(pred)) => Ok(BuilderOp::Having { pred }),
            _ => Err(shape_mismatch(tag)),
        }
    }
    else if str_eq(tag, "ah") {
        if fs.len() != 1 {
            return Err(shape_mismatch(tag));
        }
        let f0 = fs.pop().unwrap();
        match f0 {
            DecodedField::Payload(Payload::Pred(pred)) => Ok(BuilderOp::AndHaving { pred }),
            _ => Err(shape_mismatch(tag)),
        }
    }
    else if str_eq(tag, "oh") {
        if fs.len() != 1 {
            return Err(shape_mismatch(tag));
        }
        let f0 = fs.pop().unwrap();
        match f0 {
            DecodedField::Payload(Payload::Pred(pred)) => Ok(BuilderOp::OrHaving { pred }),
            _ => Err(shape_mismatch(tag)),
        }
    }
    else if str_eq(tag, "ft") {
        if fs.len() != 1 {
            return Err(shape_mismatch(tag));
        }
        let f0 = fs.pop().unwrap();
        match f0 {
            DecodedField::Str(table) => Ok(BuilderOp::FromTable { table }),
            _ => Err(shape_mismatch(tag)),
        }
    }
    else if str_eq(tag, "fta") {
        if fs.len() != 2 {
            return Err(shape_mismatch(tag));
        }
        let f1 = fs.pop().unwrap();
        let f0 = fs.pop().unwrap();
        match (f0, f1) {
            (DecodedField::Str(table), DecodedField::Str(alias)) => Ok(BuilderOp::FromTableAlias { table, alias }),
            _ => Err(shape_mismatch(tag)),
        }
    }
    else if str_eq(tag, "jt") {
        if fs.len() != 2 {
            return Err(shape_mismatch(tag));
        }
        let f1 = fs.pop().unwrap();
        let f0 = fs.pop().unwrap();
        match (f0, f1) {
            (DecodedField::Str(join_type), DecodedField::Str(table)) => Ok(BuilderOp::JoinTable { join_type, table }),
            _ => Err(shape_mismatch(tag)),
        }
    }
    else if str_eq(tag, "jta") {
        if fs.len() != 3 {
            return Err(shape_mismatch(tag));
        }
        let f2 = fs.pop().unwrap();
        let f1 = fs.pop().unwrap();
        let f0 = fs.pop().unwrap();
        match (f0, f1, f2) {
            (DecodedField::Str(join_type), DecodedField::Str(table), DecodedField::Str(alias)) => Ok(BuilderOp::JoinTableAlias { join_type, table, alias }),
            _ => Err(shape_mismatch(tag)),
        }
    }
    else if str_eq(tag, "on") {
        if fs.len() != 1 {
            return Err(shape_mismatch(tag));
        }
        let f0 = fs.pop().unwrap();
        match f0 {
            DecodedField::Payload(Payload::Pred(pred)) => Ok(BuilderOp::On { pred }),
            _ => Err(shape_mismatch(tag)),
        }
    }
    else if str_eq(tag, "aon") {
        if fs.len() != 1 {
            return Err(shape_mismatch(tag));
        }
        let f0 = fs.pop().unwrap();
        match f0 {
            DecodedField::Payload(Payload::Pred(pred)) => Ok(BuilderOp::AndOn { pred }),
            _ => Err(shape_mismatch(tag)),
        }
    }
    else if str_eq(tag, "oon") {
        if fs.len() != 1 {
            return Err(shape_mismatch(tag));
        }
        let f0 = fs.pop().unwrap();
        match f0 {
            DecodedField::Payload(Payload::Pred(pred)) => Ok(BuilderOp::OrOn { pred }),
            _ => Err(shape_mismatch(tag)),
        }
    }
    else if str_eq(tag, "uc") {
        if fs.len() != 1 {
            return Err(shape_mismatch(tag));
        }
        let f0 = fs.pop().unwrap();
        match f0 {
            DecodedField::StrVec(cols) => Ok(BuilderOp::UsingColumns { cols }),
            _ => Err(shape_mismatch(tag)),
        }
    }
    else if str_eq(tag, "oc") {
        if fs.len() != 1 {
            return Err(shape_mismatch(tag));
        }
        let f0 = fs.pop().unwrap();
        match f0 {
            DecodedField::Payload(Payload::Pairs(pairs)) => Ok(BuilderOp::OnColumns { pairs }),
            _ => Err(shape_mismatch(tag)),
        }
    }
    else if str_eq(tag, "wh") {
        if fs.len() != 2 {
            return Err(shape_mismatch(tag));
        }
        let f1 = fs.pop().unwrap();
        let f0 = fs.pop().unwrap();
        match (f0, f1) {
            (DecodedField::Str(name), DecodedField::Str(rhs_handle)) => Ok(BuilderOp::WithHandle { name, rhs_handle }),
            _ => Err(shape_mismatch(tag)),
        }
    }
    else if str_eq(tag, "wq") {
        if fs.len() != 2 {
            return Err(shape_mismatch(tag));
        }
        let f1 = fs.pop().unwrap();
        let f0 = fs.pop().unwrap();
        match (f0, f1) {
            (DecodedField::Str(name), DecodedField::Payload(Payload::Query(query))) => Ok(BuilderOp::WithQuery { name, query }),
            _ => Err(shape_mismatch(tag)),
        }
    }
    else if str_eq(tag, "wrh") {
        if fs.len() != 2 {
            return Err(shape_mismatch(tag));
        }
        let f1 = fs.pop().unwrap();
        let f0 = fs.pop().unwrap();
        match (f0, f1) {
            (DecodedField::Str(name), DecodedField::Str(rhs_handle)) => Ok(BuilderOp::WithRecursiveHandle { name, rhs_handle }),
            _ => Err(shape_mismatch(tag)),
        }
    }
    else if str_eq(tag, "wrq") {
        if fs.len() != 3 {
            return Err(shape_mismatch(tag));
        }
        let f2 = fs.pop().unwrap();
        let f1 = fs.pop().unwrap();
        let f0 = fs.pop().unwrap();
        match (f0, f1, f2) {
            (DecodedField::Str(name), DecodedField::Payload(Payload::Query(query)), DecodedField::Payload(Payload::Columns(columns))) => Ok(BuilderOp::WithRecursiveQuery { name, query, columns: match columns { Some(v) => v, None => Vec::new() } }),
            _ => Err(shape_mismatch(tag)),
        }
    }
    else if str_eq(tag, "ii") {
        if fs.len() != 1 {
            return Err(shape_mismatch(tag));
        }
        let f0 = fs.pop().unwrap();
        match f0 {
            DecodedField::Str(table) => Ok(BuilderOp::InsertInto { table }),
            _ => Err(shape_mismatch(tag)),
        }
    }
    else if str_eq(tag, "vi") {
        if fs.len() != 2 {
            return Err(shape_mismatch(tag));
        }
        let f1 = fs.pop().unwrap();
        let f0 = fs.pop().unwrap();
        match (f0, f1) {
            (DecodedField::Payload(Payload::Names(column_names)), DecodedField::Payload(Payload::Rows(rows))) => Ok(BuilderOp::ValuesInsert { column_names, rows }),
            _ => Err(shape_mismatch(tag)),
        }
    }
    else if str_eq(tag, "ic") {
        if fs.len() != 1 {
            return Err(shape_mismatch(tag));
        }
        let f0 = fs.pop().unwrap();
        match f0 {
            DecodedField::StrVec(cols) => Ok(BuilderOp::InsertColumns { cols }),
            _ => Err(shape_mismatch(tag)),
        }
    }
    else if str_eq(tag, "upd") {
        if fs.len() != 1 {
            return Err(shape_mismatch(tag));
        }
        let f0 = fs.pop().unwrap();
        match f0 {
            DecodedField::Str(table) => Ok(BuilderOp::Update { table }),
            _ => Err(shape_mismatch(tag)),
        }
    }
    else if str_eq(tag, "del") {
        if fs.len() != 1 {
            return Err(shape_mismatch(tag));
        }
        let f0 = fs.pop().unwrap();
        match f0 {
            DecodedField::Str(table) => Ok(BuilderOp::DeleteFrom { table }),
            _ => Err(shape_mismatch(tag)),
        }
    }
    else if str_eq(tag, "set") {
        if fs.len() != 1 {
            return Err(shape_mismatch(tag));
        }
        let f0 = fs.pop().unwrap();
        match f0 {
            DecodedField::Payload(Payload::Assignments(assignments)) => Ok(BuilderOp::SetColumns { assignments }),
            _ => Err(shape_mismatch(tag)),
        }
    }
    else if str_eq(tag, "ict") {
        if fs.len() != 1 {
            return Err(shape_mismatch(tag));
        }
        let f0 = fs.pop().unwrap();
        match f0 {
            DecodedField::StrVec(cols) => Ok(BuilderOp::OnConflictColumns { cols }),
            _ => Err(shape_mismatch(tag)),
        }
    }
    else if str_eq(tag, "icn") {
        if fs.len() != 1 {
            return Err(shape_mismatch(tag));
        }
        let f0 = fs.pop().unwrap();
        match f0 {
            DecodedField::Str(name) => Ok(BuilderOp::OnConflictConstraint { name }),
            _ => Err(shape_mismatch(tag)),
        }
    }
    else if str_eq(tag, "idn") {
        if fs.len() != 0 {
            return Err(shape_mismatch(tag));
        }
        Ok(BuilderOp::DoNothing)
    }
    else if str_eq(tag, "idu") {
        if fs.len() != 1 {
            return Err(shape_mismatch(tag));
        }
        let f0 = fs.pop().unwrap();
        match f0 {
            DecodedField::Payload(Payload::Assignments(assignments)) => Ok(BuilderOp::DoUpdateSet { assignments }),
            _ => Err(shape_mismatch(tag)),
        }
    }
    else if str_eq(tag, "icw") {
        if fs.len() != 1 {
            return Err(shape_mismatch(tag));
        }
        let f0 = fs.pop().unwrap();
        match f0 {
            DecodedField::Payload(Payload::Pred(pred)) => Ok(BuilderOp::ConflictWhere { pred }),
            _ => Err(shape_mismatch(tag)),
        }
    }
    else if str_eq(tag, "sa") {
        if fs.len() != 1 {
            return Err(shape_mismatch(tag));
        }
        let f0 = fs.pop().unwrap();
        match f0 {
            DecodedField::Payload(Payload::Entries(entries)) => Ok(BuilderOp::SelectAliased { entries }),
            _ => Err(shape_mismatch(tag)),
        }
    }
    else if str_eq(tag, "sc") {
        if fs.len() != 1 {
            return Err(shape_mismatch(tag));
        }
        let f0 = fs.pop().unwrap();
        match f0 {
            DecodedField::StrVec(cols) => Ok(BuilderOp::SelectColumns { cols }),
            _ => Err(shape_mismatch(tag)),
        }
    }
    else if str_eq(tag, "ra") {
        if fs.len() != 1 {
            return Err(shape_mismatch(tag));
        }
        let f0 = fs.pop().unwrap();
        match f0 {
            DecodedField::Payload(Payload::Entries(entries)) => Ok(BuilderOp::ReturningAliased { entries }),
            _ => Err(shape_mismatch(tag)),
        }
    }
    else if str_eq(tag, "rc") {
        if fs.len() != 1 {
            return Err(shape_mismatch(tag));
        }
        let f0 = fs.pop().unwrap();
        match f0 {
            DecodedField::StrVec(cols) => Ok(BuilderOp::ReturningColumns { cols }),
            _ => Err(shape_mismatch(tag)),
        }
    }
    else if str_eq(tag, "ob") {
        if fs.len() != 3 {
            return Err(shape_mismatch(tag));
        }
        let f2 = fs.pop().unwrap();
        let f1 = fs.pop().unwrap();
        let f0 = fs.pop().unwrap();
        match (f0, f1, f2) {
            (DecodedField::Str(col), DecodedField::OptStr(direction), DecodedField::OptStr(null_order)) => Ok(BuilderOp::OrderBy { col, direction, null_order }),
            _ => Err(shape_mismatch(tag)),
        }
    }
    else if str_eq(tag, "obc") {
        if fs.len() != 1 {
            return Err(shape_mismatch(tag));
        }
        let f0 = fs.pop().unwrap();
        match f0 {
            DecodedField::StrVec(cols) => Ok(BuilderOp::OrderByColumns { cols }),
            _ => Err(shape_mismatch(tag)),
        }
    }
    else if str_eq(tag, "gb") {
        if fs.len() != 1 {
            return Err(shape_mismatch(tag));
        }
        let f0 = fs.pop().unwrap();
        match f0 {
            DecodedField::StrVec(cols) => Ok(BuilderOp::GroupBy { cols }),
            _ => Err(shape_mismatch(tag)),
        }
    }
    else if str_eq(tag, "l") {
        if fs.len() != 1 {
            return Err(shape_mismatch(tag));
        }
        let f0 = fs.pop().unwrap();
        match f0 {
            DecodedField::U32(count) => Ok(BuilderOp::Limit { count }),
            _ => Err(shape_mismatch(tag)),
        }
    }
    else if str_eq(tag, "o") {
        if fs.len() != 1 {
            return Err(shape_mismatch(tag));
        }
        let f0 = fs.pop().unwrap();
        match f0 {
            DecodedField::U32(count) => Ok(BuilderOp::Offset { count }),
            _ => Err(shape_mismatch(tag)),
        }
    }
    else if str_eq(tag, "fu") {
        if fs.len() != 0 {
            return Err(shape_mismatch(tag));
        }
        Ok(BuilderOp::ForUpdate)
    }
    else if str_eq(tag, "fs") {
        if fs.len() != 0 {
            return Err(shape_mismatch(tag));
        }
        Ok(BuilderOp::ForShare)
    }
    else if str_eq(tag, "nw") {
        if fs.len() != 0 {
            return Err(shape_mismatch(tag));
        }
        Ok(BuilderOp::NoWait)
    }
    else if str_eq(tag, "sl") {
        if fs.len() != 0 {
            return Err(shape_mismatch(tag));
        }
        Ok(BuilderOp::SkipLocked)
    }
    else if str_eq(tag, "unh") {
        if fs.len() != 1 {
            return Err(shape_mismatch(tag));
        }
        let f0 = fs.pop().unwrap();
        match f0 {
            DecodedField::Str(rhs_handle) => Ok(BuilderOp::UnionHandle { rhs_handle }),
            _ => Err(shape_mismatch(tag)),
        }
    }
    else if str_eq(tag, "un") {
        if fs.len() != 1 {
            return Err(shape_mismatch(tag));
        }
        let f0 = fs.pop().unwrap();
        match f0 {
            DecodedField::Payload(Payload::Query(query)) => Ok(BuilderOp::Union { query }),
            _ => Err(shape_mismatch(tag)),
        }
    }
    else if str_eq(tag, "uah") {
        if fs.len() != 1 {
            return Err(shape_mismatch(tag));
        }
        let f0 = fs.pop().unwrap();
        match f0 {
            DecodedField::Str(rhs_handle) => Ok(BuilderOp::UnionAllHandle { rhs_handle }),
            _ => Err(shape_mismatch(tag)),
        }
    }
    else if str_eq(tag, "ua") {
        if fs.len() != 1 {
            return Err(shape_mismatch(tag));
        }
        let f0 = fs.pop().unwrap();
        match f0 {
            DecodedField::Payload(Payload::Query(query)) => Ok(BuilderOp::UnionAll { query }),
            _ => Err(shape_mismatch(tag)),
        }
    }
    else if str_eq(tag, "ixh") {
        if fs.len() != 1 {
            return Err(shape_mismatch(tag));
        }
        let f0 = fs.pop().unwrap();
        match f0 {
            DecodedField::Str(rhs_handle) => Ok(BuilderOp::IntersectHandle { rhs_handle }),
            _ => Err(shape_mismatch(tag)),
        }
    }
    else if str_eq(tag, "ix") {
        if fs.len() != 1 {
            return Err(shape_mismatch(tag));
        }
        let f0 = fs.pop().unwrap();
        match f0 {
            DecodedField::Payload(Payload::Query(query)) => Ok(BuilderOp::Intersect { query }),
            _ => Err(shape_mismatch(tag)),
        }
    }
    else if str_eq(tag, "exh") {
        if fs.len() != 1 {
            return Err(shape_mismatch(tag));
        }
        let f0 = fs.pop().unwrap();
        match f0 {
            DecodedField::Str(rhs_handle) => Ok(BuilderOp::ExceptHandle { rhs_handle }),
            _ => Err(shape_mismatch(tag)),
        }
    }
    else if str_eq(tag, "ex") {
        if fs.len() != 1 {
            return Err(shape_mismatch(tag));
        }
        let f0 = fs.pop().unwrap();
        match f0 {
            DecodedField::Payload(Payload::Query(query)) => Ok(BuilderOp::Except { query }),
            _ => Err(shape_mismatch(tag)),
        }
    }
    else if str_eq(tag, "fsqh") {
        if fs.len() != 2 {
            return Err(shape_mismatch(tag));
        }
        let f1 = fs.pop().unwrap();
        let f0 = fs.pop().unwrap();
        match (f0, f1) {
            (DecodedField::Str(alias), DecodedField::Str(rhs_handle)) => Ok(BuilderOp::FromSubqueryHandle { alias, rhs_handle }),
            _ => Err(shape_mismatch(tag)),
        }
    }
    else if str_eq(tag, "fsq") {
        if fs.len() != 2 {
            return Err(shape_mismatch(tag));
        }
        let f1 = fs.pop().unwrap();
        let f0 = fs.pop().unwrap();
        match (f0, f1) {
            (DecodedField::Str(alias), DecodedField::Payload(Payload::Query(query))) => Ok(BuilderOp::FromSubquery { alias, query }),
            _ => Err(shape_mismatch(tag)),
        }
    }
    else if str_eq(tag, "jsqh") {
        if fs.len() != 3 {
            return Err(shape_mismatch(tag));
        }
        let f2 = fs.pop().unwrap();
        let f1 = fs.pop().unwrap();
        let f0 = fs.pop().unwrap();
        match (f0, f1, f2) {
            (DecodedField::Str(join_type), DecodedField::Str(alias), DecodedField::Str(rhs_handle)) => Ok(BuilderOp::JoinSubqueryHandle { join_type, alias, rhs_handle }),
            _ => Err(shape_mismatch(tag)),
        }
    }
    else if str_eq(tag, "jsq") {
        if fs.len() != 3 {
            return Err(shape_mismatch(tag));
        }
        let f2 = fs.pop().unwrap();
        let f1 = fs.pop().unwrap();
        let f0 = fs.pop().unwrap();
        match (f0, f1, f2) {
            (DecodedField::Str(join_type), DecodedField::Str(alias), DecodedField::Payload(Payload::Query(query))) => Ok(BuilderOp::JoinSubquery { join_type, alias, query }),
            _ => Err(shape_mismatch(tag)),
        }
    }
    else if str_eq(tag, "ish") {
        if fs.len() != 1 {
            return Err(shape_mismatch(tag));
        }
        let f0 = fs.pop().unwrap();
        match f0 {
            DecodedField::Str(rhs_handle) => Ok(BuilderOp::InsertSelectHandle { rhs_handle }),
            _ => Err(shape_mismatch(tag)),
        }
    }
    else if str_eq(tag, "is") {
        if fs.len() != 1 {
            return Err(shape_mismatch(tag));
        }
        let f0 = fs.pop().unwrap();
        match f0 {
            DecodedField::Payload(Payload::Query(query)) => Ok(BuilderOp::InsertSelect { query }),
            _ => Err(shape_mismatch(tag)),
        }
    }
    else if str_eq(tag, "whi") {
        if fs.len() != 3 {
            return Err(shape_mismatch(tag));
        }
        let f2 = fs.pop().unwrap();
        let f1 = fs.pop().unwrap();
        let f0 = fs.pop().unwrap();
        match (f0, f1, f2) {
            (DecodedField::Str(name), DecodedField::Str(base_handle), DecodedField::Ops(child_ops)) => Ok(BuilderOp::WithInline { name, base_handle, child_ops }),
            _ => Err(shape_mismatch(tag)),
        }
    }
    else if str_eq(tag, "wrhi") {
        if fs.len() != 3 {
            return Err(shape_mismatch(tag));
        }
        let f2 = fs.pop().unwrap();
        let f1 = fs.pop().unwrap();
        let f0 = fs.pop().unwrap();
        match (f0, f1, f2) {
            (DecodedField::Str(name), DecodedField::Str(base_handle), DecodedField::Ops(child_ops)) => Ok(BuilderOp::WithRecursiveInline { name, base_handle, child_ops }),
            _ => Err(shape_mismatch(tag)),
        }
    }
    else if str_eq(tag, "fsqi") {
        if fs.len() != 3 {
            return Err(shape_mismatch(tag));
        }
        let f2 = fs.pop().unwrap();
        let f1 = fs.pop().unwrap();
        let f0 = fs.pop().unwrap();
        match (f0, f1, f2) {
            (DecodedField::Str(alias), DecodedField::Str(base_handle), DecodedField::Ops(child_ops)) => Ok(BuilderOp::FromSubqueryInline { alias, base_handle, child_ops }),
            _ => Err(shape_mismatch(tag)),
        }
    }
    else if str_eq(tag, "jsqi") {
        if fs.len() != 4 {
            return Err(shape_mismatch(tag));
        }
        let f3 = fs.pop().unwrap();
        let f2 = fs.pop().unwrap();
        let f1 = fs.pop().unwrap();
        let f0 = fs.pop().unwrap();
        match (f0, f1, f2, f3) {
            (DecodedField::Str(join_type), DecodedField::Str(alias), DecodedField::Str(base_handle), DecodedField::Ops(child_ops)) => Ok(BuilderOp::JoinSubqueryInline { join_type, alias, base_handle, child_ops }),
            _ => Err(shape_mismatch(tag)),
        }
    }
    else if str_eq(tag, "uni") {
        if fs.len() != 2 {
            return Err(shape_mismatch(tag));
        }
        let f1 = fs.pop().unwrap();
        let f0 = fs.pop().unwrap();
        match (f0, f1) {
            (DecodedField::Str(base_handle), DecodedField::Ops(child_ops)) => Ok(BuilderOp::UnionInline { base_handle, child_ops }),
            _ => Err(shape_mismatch(tag)),
        }
    }
    else if str_eq(tag, "uai") {
        if fs.len() != 2 {
            return Err(shape_mismatch(tag));
        }
        let f1 = fs.pop().unwrap();
        let f0 = fs.pop().unwrap();
        match (f0, f1) {
            (DecodedField::Str(base_handle), DecodedField::Ops(child_ops)) => Ok(BuilderOp::UnionAllInline { base_handle, child_ops }),
            _ => Err(shape_mismatch(tag)),
        }
    }
    else if str_eq(tag, "ixi") {
        if fs.len() != 2 {
            return Err(shape_mismatch(tag));
        }
        let f1 = fs.pop().unwrap();
        let f0 = fs.pop().unwrap();
        match (f0, f1) {
            (DecodedField::Str(base_handle), DecodedField::Ops(child_ops)) => Ok(BuilderOp::IntersectInline { base_handle, child_ops }),
            _ => Err(shape_mismatch(tag)),
        }
    }
    else if str_eq(tag, "exi") {
        if fs.len() != 2 {
            return Err(shape_mismatch(tag));
        }
        let f1 = fs.pop().unwrap();
        let f0 = fs.pop().unwrap();
        match (f0, f1) {
            (DecodedField::Str(base_handle), DecodedField::Ops(child_ops)) => Ok(BuilderOp::ExceptInline { base_handle, child_ops }),
            _ => Err(shape_mismatch(tag)),
        }
    }
    else {
        Err(shape_mismatch(tag))
    }
}

// ─── Binary framing ──────────────────────────────────────────────────────────

/// The little-endian `u32` at `off`.
pub open spec fn u32_le(b: Seq<u8>, off: int) -> nat {
    (b[off] as nat) + 256 * (b[off + 1] as nat) + 65536 * (b[off + 2] as nat) + 16777216 * (b[off + 3] as nat)
}

/// The frames of ops `index..count` starting at `offset`, or the message framing stops with.
pub open spec fn frames_from(b: Seq<u8>, offset: nat, index: nat, count: nat) -> Result<Seq<Seq<u8>>, Seq<char>>
    decreases count - index, b.len() - offset,
{
    if index >= count {
        if offset != b.len() {
            Err("Binary builder ops payload had trailing bytes"@)
        } else {
            Ok(Seq::empty())
        }
    } else if offset >= b.len() {
        Err("Binary builder ops payload too short before op "@ + decimal(index))
    } else if b[offset as int] != 0 {
        Err("Unsupported binary builder op encoding "@ + decimal(b[offset as int] as nat) + " at index "@ + decimal(index))
    } else if offset + 5 > b.len() {
        Err("Binary builder ops payload too short while reading op length"@)
    } else {
        let len = u32_le(b, (offset + 1) as int);
        let start = offset + 5;
        if start + len > b.len() {
            Err("Binary builder ops payload too short for op "@ + decimal(index))
        } else {
            match frames_from(b, start + len, index + 1, count) {
                Err(e) => Err(e),
                Ok(rest) => Ok(seq![b.subrange(start as int, (start + len) as int)] + rest),
            }
        }
    }
}

/// The op frames of a binary payload: version byte 1, a little-endian `u32` count, then
/// per op an encoding byte 0, a little-endian `u32` length and that many bytes.
pub open spec fn spec_frames(b: Seq<u8>) -> Result<Seq<Seq<u8>>, Seq<char>> {
    if b.len() < 5 {
        Err("Binary builder ops payload too short"@)
    } else if b[0] != 1 {
        Err("Unsupported binary builder ops payload version "@ + decimal(b[0] as nat))
    } else {
        frames_from(b, 5, 0, u32_le(b, 1))
    }
}

fn read_u32_le(b: &Vec<u8>, off: usize) -> (r: u32)
    requires
        off + 4 <= b.len(),
    ensures
        r == u32_le(b@, off as int),
{
    let v = (b[off] as u32) + 256 * (b[off + 1] as u32) + 65536 * (b[off + 2] as u32) + 16777216 * (b[off + 3] as u32);
    v
}

fn message_with_number(prefix: &str, n: u64, suffix: &str) -> (e: String)
    ensures
        e@ == prefix@ + decimal(n as nat) + suffix@,
{
    let mut e = String::from_str(prefix);
    crate::text::push_decimal(&mut e, n);
    push_str(&mut e, suffix);
    e
}

/// Split a binary payload into its op frames.
pub fn parse_builder_ops_bin(payload: &Vec<u8>) -> (r: Result<Vec<Vec<u8>>, String>)
    ensures
        match spec_frames(payload@) {
            Ok(fs) => r matches Ok(v) && v@.map_values(|x: Vec<u8>| x@) == fs,
            Err(e) => r matches Err(m) && m@ == e,
        },
{
    proof {
        reveal_strlit("");
    }
    if payload.len() < 5 {
        return Err(String::from_str("Binary builder ops payload too short"));
    }
    let version = payload[0];
    if version != 1 {
        return Err(message_with_number("Unsupported binary builder ops payload version ", version as u64, ""));
    }
    let count = read_u32_le(payload, 1);
    let ghost b = payload@;
    let mut offset: usize = 5;
    let mut index: u32 = 0;
    let mut frames: Vec<Vec<u8>> = Vec::new();
    while index < count
        invariant
            b == payload@,
            b.len() >= 5,
            b[0] == 1,
            count == u32_le(b, 1),
            index <= count,
            offset <= b.len(),
            spec_frames(b) == (match frames_from(b, offset as nat, index as nat, count as nat) {
                Err(e) => Err(e),
                Ok(rest) => Ok(frames@.map_values(|x: Vec<u8>| x@) + rest),
            }),
        decreases count - index,
    {
        proof {
            reveal_strlit("");
        }
        if offset >= payload.len() {
            return Err(message_with_number("Binary builder ops payload too short before op ", index as u64, ""));
        }
        let encoding = payload[offset];
        if encoding != 0 {
            let mut e = message_with_number("Unsupported binary builder op encoding ", encoding as u64, " at index ");
            crate::text::push_decimal(&mut e, index as u64);
            return Err(e);
        }
        if payload.len() - offset < 5 {
            return Err(String::from_str("Binary builder ops payload too short while reading op length"));
        }
        let len = read_u32_le(payload, offset + 1);
        let start = offset + 5;
        if (payload.len() - start) < (len as usize) {
            return Err(message_with_number("Binary builder ops payload too short for op ", index as u64, ""));
        }
        let end = start + (len as usize);
        let mut frame: Vec<u8> = Vec::new();
        let mut j: usize = start;
        while j < end
            invariant
                start <= j <= end,
                end <= payload@.len(),
                frame@ == payload@.subrange(start as int, j as int),
            decreases end - j,
        {
            frame.push(payload[j]);
            j = j + 1;
            assert(frame@ =~= payload@.subrange(start as int, j as int));
        }
        let ghost before = frames@.map_values(|x: Vec<u8>| x@);
        let ghost fv = frame@;
        frames.push(frame);
        proof {
            assert(frames@.map_values(|x: Vec<u8>| x@) =~= before.push(fv));
        }
        offset = end;
        index = index + 1;
        proof {
            let rest_next = frames_from(b, offset as nat, index as nat, count as nat);
            match rest_next {
                Ok(rest) => {
                    assert(before + (seq![fv] + rest) =~= before.push(fv) + rest);
                },
                Err(_) => {},
            }
        }
    }
    if offset != payload.len() {
        return Err(String::from_str("Binary builder ops payload had trailing bytes"));
    }
    proof {
        assert(frames@.map_values(|x: Vec<u8>| x@) + Seq::<Seq<u8>>::empty() =~= frames@.map_values(|x: Vec<u8>| x@));
    }
    Ok(frames)
}

} // verus!
