//! Rendering of values into SQL fragments, and the `sql` template / `join` builders.
use crate::backend::compile_ok;
use crate::dialect::{spec_capabilities, Dialect, PlaceholderStyle};
use crate::error::BuilderError;
use crate::text::{double_char, push_char, push_doubled, push_str};
use crate::types::{Primitive, QueryView, SqlIdentifier, SqlQuery, SqlRaw, SqlValue};
use vstd::prelude::*;

verus! {

// ─── Specifications ──────────────────────────────────────────────────────────

/// `'s'` with embedded single quotes doubled.
pub open spec fn single_quoted(s: Seq<char>) -> Seq<char> {
    seq!['\''] + double_char(s, '\'') + seq!['\'']
}

/// The raw SQL literal for a primitive value.
pub open spec fn spec_render_value(p: Primitive) -> Seq<char> {
    match p {
        Primitive::Null => "NULL"@,
        Primitive::Bool(b) => if b { "TRUE"@ } else { "FALSE"@ },
        Primitive::Number(n) => n.spec_text(),
        Primitive::String(s) => single_quoted(s@),
        Primitive::BigInt(b) => b.value@,
        Primitive::Date(d) => single_quoted(d.value@),
    }
}

/// One identifier part: `"part"` (embedded double quotes doubled) or the bare part.
pub open spec fn part_text(p: Seq<char>, escaped: bool) -> Seq<char> {
    if escaped {
        seq!['"'] + double_char(p, '"') + seq!['"']
    } else {
        p
    }
}

/// Identifier parts joined with `.`.
pub open spec fn identifier_text(parts: Seq<Seq<char>>, escaped: bool) -> Seq<char>
    decreases parts.len(),
{
    if parts.len() == 0 {
        Seq::empty()
    } else {
        let prev = identifier_text(parts.drop_last(), escaped);
        let prev = if parts.len() > 1 { prev.push('.') } else { prev };
        prev + part_text(parts.last(), escaped)
    }
}

/// Every identifier part is non-empty.
pub open spec fn parts_nonempty(parts: Seq<Seq<char>>) -> bool {
    forall|i: int| 0 <= i < parts.len() ==> (#[trigger] parts[i]).len() > 0
}

/// `?, ?, …` / rendered literals for a list of primitives.
pub open spec fn array_fragment(arr: Seq<Primitive>) -> QueryView
    decreases arr.len(),
{
    if arr.len() == 0 {
        QueryView::empty()
    } else {
        let prev = array_fragment(arr.drop_last());
        let prev = if arr.len() > 1 { prev.then_text(", "@) } else { prev };
        let p = arr.last();
        QueryView { text: prev.text + "?"@, raw: prev.raw + spec_render_value(p), values: prev.values.push(p) }
    }
}

pub open spec fn msg_empty_part() -> Seq<char> {
    "Identifier part cannot be empty"@
}

pub open spec fn msg_empty_array() -> Seq<char> {
    "Cannot interpolate an empty array"@
}

/// The fragment a value interpolates as, or the validation message it fails with.
pub open spec fn spec_fragment(v: SqlValue) -> Result<QueryView, Seq<char>> {
    match v {
        SqlValue::Query(q) => Ok(q@),
        SqlValue::Identifier(id) => if parts_nonempty(id.parts.deep_view()) {
            Ok(QueryView {
                text: identifier_text(id.parts.deep_view(), true),
                raw: identifier_text(id.parts.deep_view(), false),
                values: Seq::empty(),
            })
        } else {
            Err(msg_empty_part())
        },
        SqlValue::Raw(r) => Ok(QueryView::lit(r.text@)),
        SqlValue::Array(arr) => if arr@.len() == 0 {
            Err(msg_empty_array())
        } else {
            Ok(array_fragment(arr@))
        },
        SqlValue::Primitive(p) => Ok(
            QueryView { text: "?"@, raw: spec_render_value(p), values: seq![p] },
        ),
    }
}

/// Fragments joined by a separator; the first failing fragment decides the error.
pub open spec fn join_frags(frags: Seq<Result<QueryView, Seq<char>>>, sep: Seq<char>) -> Result<QueryView, Seq<char>>
    decreases frags.len(),
{
    if frags.len() == 0 {
        Ok(QueryView::empty())
    } else {
        match join_frags(frags.drop_last(), sep) {
            Err(e) => Err(e),
            Ok(q) => {
                let q = if frags.len() > 1 { q.then_text(sep) } else { q };
                match frags.last() {
                    Ok(f) => Ok(q.append(f)),
                    Err(e) => Err(e),
                }
            },
        }
    }
}

/// The fragment outcomes of a list of values.
pub open spec fn fragments(items: Seq<SqlValue>) -> Seq<Result<QueryView, Seq<char>>> {
    items.map_values(|v: SqlValue| spec_fragment(v))
}

/// Values joined by a separator; the first failing value decides the error.
pub open spec fn spec_join(items: Seq<SqlValue>, sep: Seq<char>) -> Result<QueryView, Seq<char>> {
    join_frags(fragments(items), sep)
}

/// The first `k` template chunks, each followed by its interpolated fragment (if any).
pub open spec fn template_frags(strings: Seq<Seq<char>>, frags: Seq<Result<QueryView, Seq<char>>>, k: nat) -> Result<QueryView, Seq<char>>
    decreases k,
{
    if k == 0 {
        Ok(QueryView::empty())
    } else {
        match template_frags(strings, frags, (k - 1) as nat) {
            Err(e) => Err(e),
            Ok(q) => {
                let q = q.then_text(strings[k - 1]);
                if k - 1 < frags.len() {
                    match frags[k - 1] {
                        Ok(f) => Ok(q.append(f)),
                        Err(e) => Err(e),
                    }
                } else {
                    Ok(q)
                }
            },
        }
    }
}

/// A whole template over fragment outcomes.
pub open spec fn sql_frags(strings: Seq<Seq<char>>, frags: Seq<Result<QueryView, Seq<char>>>) -> Result<QueryView, Seq<char>> {
    template_frags(strings, frags, strings.len())
}

/// The whole `sql` template.
pub open spec fn spec_sql(strings: Seq<Seq<char>>, exprs: Seq<SqlValue>) -> Result<QueryView, Seq<char>> {
    sql_frags(strings, fragments(exprs))
}

/// `"Validation error: " + msg`, the message a failed interpolation surfaces with.
pub open spec fn validation_msg(m: Seq<char>) -> Seq<char> {
    "Validation error: "@ + m
}

/// A public-facing result: the fragment, or the message of its validation error.
pub open spec fn surfaced(r: Result<QueryView, Seq<char>>) -> Result<QueryView, Seq<char>> {
    match r {
        Ok(q) => Ok(q),
        Err(m) => Err(validation_msg(m)),
    }
}

/// `r` is the executable counterpart of the specified outcome `s`.
pub open spec fn query_result_is(r: Result<SqlQuery, String>, s: Result<QueryView, Seq<char>>) -> bool {
    match (r, s) {
        (Ok(q), Ok(v)) => q@ == v,
        (Err(e), Err(m)) => e@ == m,
        _ => false,
    }
}

// ─── Proof helpers ───────────────────────────────────────────────────────────

pub proof fn lemma_join_err_stays(items: Seq<Result<QueryView, Seq<char>>>, sep: Seq<char>, i: int, j: int)
    requires
        0 <= i <= j <= items.len(),
        join_frags(items.take(i), sep) is Err,
    ensures
        join_frags(items.take(j), sep) == join_frags(items.take(i), sep),
    decreases j - i,
{
    if j > i {
        lemma_join_err_stays(items, sep, i, j - 1);
        assert(items.take(j).drop_last() == items.take(j - 1));
    }
}

pub proof fn lemma_template_err_stays(strings: Seq<Seq<char>>, exprs: Seq<Result<QueryView, Seq<char>>>, i: nat, j: nat)
    requires
        i <= j,
        template_frags(strings, exprs, i) is Err,
    ensures
        template_frags(strings, exprs, j) == template_frags(strings, exprs, i),
    decreases j - i,
{
    if j > i {
        lemma_template_err_stays(strings, exprs, i, (j - 1) as nat);
    }
}

// ─── Executable rendering ────────────────────────────────────────────────────

/// Appends the raw SQL literal for `value`.
pub fn push_rendered_value(out: &mut String, value: &Primitive)
    ensures
        final(out)@ == old(out)@ + spec_render_value(*value),
{
    match value {
        Primitive::Null => push_str(out, "NULL"),
        Primitive::Bool(b) => if *b {
            push_str(out, "TRUE")
        } else {
            push_str(out, "FALSE")
        },
        Primitive::Number(n) => n.push_text(out),
        Primitive::String(s) => {
            let ghost start = out@;
            push_char(out, '\'');
            push_doubled(out, s.as_str(), '\'');
            push_char(out, '\'');
            assert(out@ =~= start + single_quoted(s@));
        },
        Primitive::BigInt(b) => push_str(out, b.value.as_str()),
        Primitive::Date(d) => {
            let ghost start = out@;
            push_char(out, '\'');
            push_doubled(out, d.value.as_str(), '\'');
            push_char(out, '\'');
            assert(out@ =~= start + single_quoted(d.value@));
        },
    }
}

/// The raw SQL literal for `value` (strings single-quoted, `NULL`, `TRUE`/`FALSE`, …).
pub fn render_value(value: &Primitive) -> (r: String)
    ensures
        r@ == spec_render_value(*value),
{
    let mut r = String::new();
    push_rendered_value(&mut r, value);
    r
}

/// Identifier parts joined with `.`, each quoted when `escaped`; fails on an empty part.
fn render_identifier_parts(parts: &Vec<String>, escaped: bool) -> (r: Result<String, BuilderError>)
    ensures
        parts_nonempty(parts.deep_view()) ==> (r matches Ok(s) && s@ == identifier_text(parts.deep_view(), escaped)),
        !parts_nonempty(parts.deep_view()) ==> (r matches Err(BuilderError::Validation(m)) && m@ == msg_empty_part()),
{
    let ghost ps = parts.deep_view();
    let mut rendered = String::new();
    for index in 0..parts.len()
        invariant
            ps == parts.deep_view(),
            parts_nonempty(ps.take(index as int)),
            rendered@ == identifier_text(ps.take(index as int), escaped),
    {
        let part = &parts[index];
        if part.as_str().is_empty() {
            proof {
                assert(part@ == ps[index as int]);
            }
            return Err(BuilderError::Validation(String::from_str("Identifier part cannot be empty")));
        }
        proof {
            assert(part@ == ps[index as int]);
            assert(ps.take(index + 1).drop_last() == ps.take(index as int));
            assert(ps.take(index + 1).last() == ps[index as int]);
        }
        let ghost before = rendered@;
        if index > 0 {
            push_char(&mut rendered, '.');
        }
        if escaped {
            push_char(&mut rendered, '"');
            push_doubled(&mut rendered, part.as_str(), '"');
            push_char(&mut rendered, '"');
        } else {
            push_str(&mut rendered, part.as_str());
        }
        proof {
            let p = ps[index as int];
            let pre = if index > 0 { before.push('.') } else { before };
            assert(rendered@ =~= pre + part_text(p, escaped));
            assert(parts_nonempty(ps.take(index + 1)));
        }
    }
    assert(ps.take(parts.len() as int) == ps);
    Ok(rendered)
}

/// The fragment for `?, ?, …` over a non-empty list of primitives.
fn array_query(arr: &Vec<Primitive>) -> (q: SqlQuery)
    ensures
        q@ == array_fragment(arr@),
{
    let mut q = SqlQuery::empty();
    for index in 0..arr.len()
        invariant
            q@ == array_fragment(arr@.take(index as int)),
    {
        proof {
            assert(arr@.take(index + 1).drop_last() == arr@.take(index as int));
            assert(arr@.take(index + 1).last() == arr@[index as int]);
        }
        if index > 0 {
            q.push_lit(", ");
        }
        let ghost mid = q@;
        push_char(&mut q.text, '?');
        push_rendered_value(&mut q.raw, &arr[index]);
        q.values.push(arr[index].copy());
        proof {
            assert(q.text@ =~= mid.text + "?"@) by {
                reveal_strlit("?");
            }
        }
    }
    assert(arr@.take(arr.len() as int) == arr@);
    q
}

/// Convert any value to the query fragment it interpolates as.
pub fn fragment_typed(value: &SqlValue) -> (r: Result<SqlQuery, BuilderError>)
    ensures
        spec_fragment(*value) matches Ok(v) ==> (r matches Ok(q) && q@ == v),
        spec_fragment(*value) matches Err(m) ==> (r matches Err(BuilderError::Validation(e)) && e@ == m),
{
    match value {
        SqlValue::Query(q) => Ok(q.copy()),
        SqlValue::Identifier(id) => {
            let text = render_identifier_parts(&id.parts, true)?;
            let raw = render_identifier_parts(&id.parts, false)?;
            Ok(SqlQuery { text, raw, values: Vec::new() })
        },
        SqlValue::Raw(r) => Ok(SqlQuery { text: r.text.clone(), raw: r.text.clone(), values: Vec::new() }),
        SqlValue::Array(arr) => {
            if arr.len() == 0 {
                return Err(BuilderError::Validation(String::from_str("Cannot interpolate an empty array")));
            }
            Ok(array_query(arr))
        },
        SqlValue::Primitive(p) => {
            let mut values: Vec<Primitive> = Vec::new();
            values.push(p.copy());
            Ok(SqlQuery { text: String::from_str("?"), raw: render_value(p), values })
        },
    }
}

/// Converts a builder error into its message.
fn surface(r: Result<SqlQuery, BuilderError>) -> (s: Result<SqlQuery, String>)
    ensures
        r matches Ok(q) ==> (s matches Ok(q2) && q2 == q),
        r matches Err(e) ==> (s matches Err(m) && m@ == e.spec_message()),
{
    match r {
        Ok(q) => Ok(q),
        Err(e) => Err(e.message()),
    }
}

/// Convert any SqlValue to a SqlQuery fragment (for interpolation inside `sql`/`join`).
pub fn to_query_fragment(value: &SqlValue) -> (r: Result<SqlQuery, String>)
    ensures
        query_result_is(r, surfaced(spec_fragment(*value))),
{
    surface(fragment_typed(value))
}

/// Create a quoted SQL identifier from at least one non-empty part.
pub fn identifier(parts: Vec<String>) -> (r: Result<SqlIdentifier, String>)
    ensures
        parts.len() == 0 ==> (r matches Err(e) && e@ == "Identifier must have at least one part"@),
        parts.len() > 0 && !parts_nonempty(parts.deep_view()) ==> (r matches Err(e) && e@ == validation_msg(msg_empty_part())),
        parts.len() > 0 && parts_nonempty(parts.deep_view()) ==> (r matches Ok(id) && id.parts == parts),
{
    if parts.len() == 0 {
        return Err(String::from_str("Identifier must have at least one part"));
    }
    for i in 0..parts.len()
        invariant
            parts_nonempty(parts.deep_view().take(i as int)),
    {
        if parts[i].as_str().is_empty() {
            proof {
                assert(parts.deep_view()[i as int] == parts@[i as int]@);
            }
            return Err(BuilderError::Validation(String::from_str("Identifier part cannot be empty")).message());
        }
        proof {
            assert(parts.deep_view()[i as int] == parts@[i as int]@);
            assert forall|j: int| 0 <= j < i + 1 implies (#[trigger] parts.deep_view().take(i + 1)[j]).len() > 0 by {
                if j < i {
                    assert(parts.deep_view().take(i + 1)[j] == parts.deep_view().take(i as int)[j]);
                }
            }
        }
    }
    assert(parts.deep_view().take(parts.len() as int) == parts.deep_view());
    Ok(SqlIdentifier::new(parts))
}

/// Create a reference identifier (the same as `identifier`: both quote their parts).
pub fn ref_identifier(parts: Vec<String>) -> (r: Result<SqlIdentifier, String>)
    ensures
        parts.len() == 0 ==> (r matches Err(e) && e@ == "Identifier must have at least one part"@),
        parts.len() > 0 && !parts_nonempty(parts.deep_view()) ==> (r matches Err(e) && e@ == validation_msg(msg_empty_part())),
        parts.len() > 0 && parts_nonempty(parts.deep_view()) ==> (r matches Ok(id) && id.parts == parts),
{
    identifier(parts)
}

/// Create a raw (unquoted, unparameterised) SQL fragment.
pub fn raw(text: String) -> (r: SqlRaw)
    ensures
        r.text == text,
{
    SqlRaw::new(text)
}

/// The separator `join` uses: the given one, or `", "`.
pub open spec fn join_separator(separator: Option<String>) -> Seq<char> {
    match separator {
        Some(s) => s@,
        None => ", "@,
    }
}

/// Join values with a separator (default `", "`).
pub fn join_values(items: &Vec<SqlValue>, sep: &str) -> (r: Result<SqlQuery, BuilderError>)
    ensures
        spec_join(items@, sep@) matches Ok(v) ==> (r matches Ok(q) && q@ == v),
        spec_join(items@, sep@) matches Err(m) ==> (r matches Err(BuilderError::Validation(e)) && e@ == m),
{
    let ghost fr = fragments(items@);
    let mut acc = SqlQuery::empty();
    for i in 0..items.len()
        invariant
            fr == fragments(items@),
            join_frags(fr.take(i as int), sep@) == Ok::<QueryView, Seq<char>>(acc@),
    {
        proof {
            assert(fr.take(i + 1).drop_last() == fr.take(i as int));
            assert(fr.take(i + 1).last() == spec_fragment(items@[i as int]));
        }
        if i > 0 {
            acc.push_lit(sep);
        }
        match fragment_typed(&items[i]) {
            Ok(f) => acc.push_query(&f),
            Err(e) => {
                proof {
                    lemma_join_err_stays(fr, sep@, i + 1, items@.len() as int);
                    assert(fr.take(items@.len() as int) == fr);
                }
                return Err(e);
            },
        }
    }
    assert(fr.take(items@.len() as int) == fr);
    Ok(acc)
}

/// Join a list of values with a separator (default: `", "`).
pub fn join(items: Vec<SqlValue>, separator: Option<String>) -> (r: Result<SqlQuery, String>)
    ensures
        query_result_is(r, surfaced(spec_join(items@, join_separator(separator)))),
{
    let sep = match separator {
        Some(s) => s,
        None => String::from_str(", "),
    };
    surface(join_values(&items, sep.as_str()))
}

/// The `sql` template over borrowed chunks and values.
pub fn template(strings: &Vec<String>, exprs: &Vec<SqlValue>) -> (r: Result<SqlQuery, BuilderError>)
    ensures
        spec_sql(strings.deep_view(), exprs@) matches Ok(v) ==> (r matches Ok(q) && q@ == v),
        spec_sql(strings.deep_view(), exprs@) matches Err(m) ==> (r matches Err(BuilderError::Validation(e)) && e@ == m),
{
    let ghost ss = strings.deep_view();
    let ghost fr = fragments(exprs@);
    let mut acc = SqlQuery::empty();
    for i in 0..strings.len()
        invariant
            ss == strings.deep_view(),
            fr == fragments(exprs@),
            template_frags(ss, fr, i as nat) == Ok::<QueryView, Seq<char>>(acc@),
    {
        proof {
            assert(strings@[i as int]@ == ss[i as int]);
            if i < exprs.len() {
                assert(fr[i as int] == spec_fragment(exprs@[i as int]));
            }
        }
        acc.push_lit(strings[i].as_str());
        if i < exprs.len() {
            match fragment_typed(&exprs[i]) {
                Ok(f) => acc.push_query(&f),
                Err(e) => {
                    proof {
                        lemma_template_err_stays(ss, fr, (i + 1) as nat, ss.len());
                    }
                    return Err(e);
                },
            }
        }
    }
    Ok(acc)
}

/// SQL template function: interleave string chunks with rendered values.
pub fn sql(strings: Vec<String>, exprs: Vec<SqlValue>) -> (r: Result<SqlQuery, String>)
    ensures
        query_result_is(r, surfaced(spec_sql(strings.deep_view(), exprs@))),
{
    surface(template(&strings, &exprs))
}

// ─── Template helpers ────────────────────────────────────────────────────────

/// Two template chunks.
pub fn chunks2(a: &str, b: &str) -> (v: Vec<String>)
    ensures
        v.deep_view() == seq![a@, b@],
{
    let mut v: Vec<String> = Vec::new();
    v.push(String::from_str(a));
    v.push(String::from_str(b));
    assert(v.deep_view() =~= seq![a@, b@]);
    v
}

/// Three template chunks.
pub fn chunks3(a: &str, b: &str, c: &str) -> (v: Vec<String>)
    ensures
        v.deep_view() == seq![a@, b@, c@],
{
    let mut v: Vec<String> = Vec::new();
    v.push(String::from_str(a));
    v.push(String::from_str(b));
    v.push(String::from_str(c));
    assert(v.deep_view() =~= seq![a@, b@, c@]);
    v
}

/// Four template chunks.
pub fn chunks4(a: &str, b: &str, c: &str, d: &str) -> (v: Vec<String>)
    ensures
        v.deep_view() == seq![a@, b@, c@, d@],
{
    let mut v: Vec<String> = Vec::new();
    v.push(String::from_str(a));
    v.push(String::from_str(b));
    v.push(String::from_str(c));
    v.push(String::from_str(d));
    assert(v.deep_view() =~= seq![a@, b@, c@, d@]);
    v
}

/// One interpolated value.
pub fn values1(a: SqlValue) -> (v: Vec<SqlValue>)
    ensures
        v@ == seq![a],
{
    let mut v: Vec<SqlValue> = Vec::new();
    v.push(a);
    assert(v@ =~= seq![a]);
    v
}

/// Two interpolated values.
pub fn values2(a: SqlValue, b: SqlValue) -> (v: Vec<SqlValue>)
    ensures
        v@ == seq![a, b],
{
    let mut v: Vec<SqlValue> = Vec::new();
    v.push(a);
    v.push(b);
    assert(v@ =~= seq![a, b]);
    v
}

/// Three interpolated values.
pub fn values3(a: SqlValue, b: SqlValue, c: SqlValue) -> (v: Vec<SqlValue>)
    ensures
        v@ == seq![a, b, c],
{
    let mut v: Vec<SqlValue> = Vec::new();
    v.push(a);
    v.push(b);
    v.push(c);
    assert(v@ =~= seq![a, b, c]);
    v
}

// ─── Placeholder compilation ─────────────────────────────────────────────────

/// Compile `?` placeholders for the dialect named `dialect`.
pub fn compile_query(query: SqlQuery, dialect: &str) -> (r: Result<SqlQuery, String>)
    ensures
        exists|d: Dialect| crate::dialect::dialect_for_name(d, crate::dialect::spec_normalize_dialect_name(dialect@))
            && compile_ok(spec_capabilities(d).placeholder_style, d.spec_as_str(), query@, r),
{
    let d = Dialect::parse(dialect);
    compile_query_dialect(query, d)
}

/// Compile `?` placeholders for a dialect.
pub fn compile_query_dialect(query: SqlQuery, dialect: Dialect) -> (r: Result<SqlQuery, String>)
    ensures
        compile_ok(spec_capabilities(dialect).placeholder_style, dialect.spec_as_str(), query@, r),
{
    crate::backend::backend_for_dialect(&dialect).compile_placeholders(query)
}

/// Compile `?` placeholders to Postgres `$n` placeholders.
pub fn compile_postgres(query: SqlQuery) -> (r: Result<SqlQuery, String>)
    ensures
        compile_ok(PlaceholderStyle::DollarNumbered, "postgres"@, query@, r),
{
    compile_query_dialect(query, Dialect::Postgres)
}

/// Joining fragments that all succeed succeeds.
pub proof fn lemma_join_all_ok(frags: Seq<Result<QueryView, Seq<char>>>, sep: Seq<char>)
    requires
        forall|j: int| 0 <= j < frags.len() ==> (#[trigger] frags[j]) is Ok,
    ensures
        join_frags(frags, sep) is Ok,
    decreases frags.len(),
{
    if frags.len() > 0 {
        lemma_join_all_ok(frags.drop_last(), sep);
    }
}

/// A template whose fragments all succeed succeeds.
pub proof fn lemma_template_all_ok(strings: Seq<Seq<char>>, frags: Seq<Result<QueryView, Seq<char>>>, k: nat)
    requires
        forall|j: int| 0 <= j < frags.len() ==> (#[trigger] frags[j]) is Ok,
    ensures
        template_frags(strings, frags, k) is Ok,
    decreases k,
{
    if k > 0 {
        lemma_template_all_ok(strings, frags, (k - 1) as nat);
    }
}

/// A copy of a value that interpolates as the original does.
pub fn copy_value(v: &SqlValue) -> (r: SqlValue)
    ensures
        spec_fragment(r) == spec_fragment(*v),
{
    match v {
        SqlValue::Array(arr) => SqlValue::Array(crate::types::copy_primitives(arr)),
        SqlValue::Query(q) => SqlValue::Query(q.copy()),
        SqlValue::Identifier(id) => SqlValue::Identifier(id.copy()),
        SqlValue::Raw(r) => SqlValue::Raw(SqlRaw { text: r.text.clone() }),
        SqlValue::Primitive(p) => SqlValue::Primitive(p.copy()),
    }
}

} // verus!
