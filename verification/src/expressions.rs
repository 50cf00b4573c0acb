//! SQL expression builders: comparisons, predicates, function calls, CASE and OVER.
use crate::dialect::{
    function_capability_for, normalize_function_name, normalize_operator, operator_capability_for,
    dialect_key, key_function_capability, key_operator_capability, spec_capabilities,
    spec_normalize_function_name, Dialect, DialectKey, OperatorKind,
};
use crate::sql::{
    chunks2, chunks3, chunks4, fragments, join_frags, query_result_is, spec_fragment, spec_join, sql,
    sql_frags, surfaced, validation_msg, values1, values2, values3, join,
};
use crate::text::{push_str, trim};
use crate::types::{QueryView, SqlQuery, SqlValue, WindowItemView, WindowOrderItem};
use vstd::prelude::*;

verus! {

/// Outcome type of fragment-producing specifications.
pub type Frag = Result<QueryView, Seq<char>>;

/// The outcome of a public builder: a query or an error message.
pub open spec fn outcome_is(r: Result<SqlQuery, String>, s: Frag) -> bool {
    query_result_is(r, s)
}

/// `(value)`.
pub open spec fn spec_wrap(v: Frag) -> Frag {
    surfaced(sql_frags(seq!["("@, ")"@], seq![v]))
}

/// Wrap a value in parentheses: `(value)`.
fn wrap(value: SqlValue) -> (r: Result<SqlQuery, String>)
    ensures
        outcome_is(r, spec_wrap(spec_fragment(value))),
{
    let strings = chunks2("(", ")");
    let exprs = values1(value);
    proof {
        assert(fragments(exprs@) =~= seq![spec_fragment(value)]);
    }
    sql(strings, exprs)
}

// ─── Comparison ──────────────────────────────────────────────────────────────

/// `left op right`.
pub open spec fn spec_cmp(left: Frag, op: Seq<char>, right: Frag) -> Frag {
    surfaced(sql_frags(seq![""@, seq![' '] + op + seq![' '], ""@], seq![left, right]))
}

/// `" op "`.
fn spaced(op: &str) -> (r: String)
    ensures
        r@ == seq![' '] + op@ + seq![' '],
{
    let mut r = String::from_str(" ");
    push_str(&mut r, op);
    push_str(&mut r, " ");
    proof {
        reveal_strlit(" ");
        assert(r@ =~= seq![' '] + op@ + seq![' ']);
    }
    r
}

/// Binary comparison `left op right`.
pub fn cmp(left: SqlValue, operator: String, right: SqlValue) -> (r: Result<SqlQuery, String>)
    ensures
        outcome_is(r, spec_cmp(spec_fragment(left), operator@, spec_fragment(right))),
{
    let mid = spaced(operator.as_str());
    let mut strings: Vec<String> = Vec::new();
    strings.push(String::from_str(""));
    strings.push(mid);
    strings.push(String::from_str(""));
    let exprs = values2(left, right);
    proof {
        assert(strings.deep_view() =~= seq![""@, seq![' '] + operator@ + seq![' '], ""@]);
        assert(fragments(exprs@) =~= seq![spec_fragment(left), spec_fragment(right)]);
    }
    sql(strings, exprs)
}

/// The message for an operator a dialect does not support.
pub open spec fn unsupported_operator_msg(k: DialectKey, op: Seq<char>) -> Seq<char> {
    "Dialect \""@ + k.name + "\" does not support operator \""@ + op + "\" in this builder."@
}

fn unsupported_operator(dialect: &Dialect, op: &str) -> (e: String)
    ensures
        e@ == unsupported_operator_msg(dialect_key(*dialect), op@),
{
    let mut e = String::from_str("Dialect \"");
    push_str(&mut e, dialect.as_str());
    push_str(&mut e, "\" does not support operator \"");
    push_str(&mut e, op);
    push_str(&mut e, "\" in this builder.");
    e
}

/// `left op right` after checking the (trimmed) operator against the dialect.
pub open spec fn spec_cmp_for_dialect(left: Frag, op: Seq<char>, right: Frag, k: DialectKey) -> Frag {
    if key_operator_capability(k, OperatorKind::Comparison, trim(op)) is None {
        Err(unsupported_operator_msg(k, trim(op)))
    } else {
        spec_cmp(left, trim(op), right)
    }
}

/// Comparison checked against the dialect's comparison operators.
pub fn cmp_for_dialect(left: SqlValue, operator: String, right: SqlValue, dialect: &Dialect) -> (r: Result<SqlQuery, String>)
    ensures
        outcome_is(r, spec_cmp_for_dialect(spec_fragment(left), operator@, spec_fragment(right), dialect_key(*dialect))),
{
    let normalized = normalize_operator(operator.as_str());
    if operator_capability_for(dialect, OperatorKind::Comparison, normalized.as_str()).is_none() {
        return Err(unsupported_operator(dialect, normalized.as_str()));
    }
    cmp(left, normalized, right)
}

/// `value` followed by a fixed suffix.
pub open spec fn spec_suffixed(v: Frag, suffix: Seq<char>) -> Frag {
    surfaced(sql_frags(seq![""@, suffix], seq![v]))
}

fn suffixed(value: SqlValue, suffix: &str) -> (r: Result<SqlQuery, String>)
    ensures
        outcome_is(r, spec_suffixed(spec_fragment(value), suffix@)),
{
    let strings = chunks2("", suffix);
    let exprs = values1(value);
    proof {
        assert(fragments(exprs@) =~= seq![spec_fragment(value)]);
    }
    sql(strings, exprs)
}

/// `value IS NULL`.
pub fn is_null(value: SqlValue) -> (r: Result<SqlQuery, String>)
    ensures
        outcome_is(r, spec_suffixed(spec_fragment(value), " IS NULL"@)),
{
    suffixed(value, " IS NULL")
}

/// `value IS NOT NULL`.
pub fn is_not_null(value: SqlValue) -> (r: Result<SqlQuery, String>)
    ensures
        outcome_is(r, spec_suffixed(spec_fragment(value), " IS NOT NULL"@)),
{
    suffixed(value, " IS NOT NULL")
}

// ─── Binary templates ────────────────────────────────────────────────────────

/// `left keyword right` (e.g. `a LIKE b`).
pub open spec fn spec_infix(left: Frag, keyword: Seq<char>, right: Frag) -> Frag {
    surfaced(sql_frags(seq![""@, keyword, ""@], seq![left, right]))
}

fn infix(left: SqlValue, keyword: &str, right: SqlValue) -> (r: Result<SqlQuery, String>)
    ensures
        outcome_is(r, spec_infix(spec_fragment(left), keyword@, spec_fragment(right))),
{
    let strings = chunks3("", keyword, "");
    let exprs = values2(left, right);
    proof {
        assert(fragments(exprs@) =~= seq![spec_fragment(left), spec_fragment(right)]);
    }
    sql(strings, exprs)
}

/// `value LIKE pattern`.
pub fn like_sql(value: SqlValue, pattern: SqlValue) -> (r: Result<SqlQuery, String>)
    ensures
        outcome_is(r, spec_infix(spec_fragment(value), " LIKE "@, spec_fragment(pattern))),
{
    infix(value, " LIKE ", pattern)
}

/// `value NOT LIKE pattern`.
pub fn not_like_sql(value: SqlValue, pattern: SqlValue) -> (r: Result<SqlQuery, String>)
    ensures
        outcome_is(r, spec_infix(spec_fragment(value), " NOT LIKE "@, spec_fragment(pattern))),
{
    infix(value, " NOT LIKE ", pattern)
}

/// `value ILIKE pattern`, for dialects with native `ILIKE`.
pub fn ilike_sql(value: SqlValue, pattern: SqlValue) -> (r: Result<SqlQuery, String>)
    ensures
        outcome_is(r, spec_infix(spec_fragment(value), " ILIKE "@, spec_fragment(pattern))),
{
    infix(value, " ILIKE ", pattern)
}

/// `value NOT ILIKE pattern`.
pub fn not_ilike_sql(value: SqlValue, pattern: SqlValue) -> (r: Result<SqlQuery, String>)
    ensures
        outcome_is(r, spec_infix(spec_fragment(value), " NOT ILIKE "@, spec_fragment(pattern))),
{
    infix(value, " NOT ILIKE ", pattern)
}

/// `value BETWEEN lower AND upper` (or with another leading keyword).
pub open spec fn spec_range(v: Frag, keyword: Seq<char>, lo: Frag, hi: Frag) -> Frag {
    surfaced(sql_frags(seq![""@, keyword, " AND "@, ""@], seq![v, lo, hi]))
}

fn range(value: SqlValue, keyword: &str, lower: SqlValue, upper: SqlValue) -> (r: Result<SqlQuery, String>)
    ensures
        outcome_is(r, spec_range(spec_fragment(value), keyword@, spec_fragment(lower), spec_fragment(upper))),
{
    let strings = chunks4("", keyword, " AND ", "");
    let exprs = values3(value, lower, upper);
    proof {
        assert(fragments(exprs@) =~= seq![spec_fragment(value), spec_fragment(lower), spec_fragment(upper)]);
    }
    sql(strings, exprs)
}

/// `value BETWEEN lower AND upper`.
pub fn between(value: SqlValue, lower: SqlValue, upper: SqlValue) -> (r: Result<SqlQuery, String>)
    ensures
        outcome_is(r, spec_range(spec_fragment(value), " BETWEEN "@, spec_fragment(lower), spec_fragment(upper))),
{
    range(value, " BETWEEN ", lower, upper)
}

/// `value NOT BETWEEN lower AND upper`.
pub fn not_between(value: SqlValue, lower: SqlValue, upper: SqlValue) -> (r: Result<SqlQuery, String>)
    ensures
        outcome_is(r, spec_range(spec_fragment(value), " NOT BETWEEN "@, spec_fragment(lower), spec_fragment(upper))),
{
    range(value, " NOT BETWEEN ", lower, upper)
}

/// `value IN (items…)` or `value NOT IN (items…)`.
pub open spec fn spec_in_list(v: Frag, keyword: Seq<char>, items: Seq<Frag>) -> Frag {
    match join_frags(items, ", "@) {
        Err(m) => Err(validation_msg(m)),
        Ok(list) => surfaced(sql_frags(seq![""@, keyword, ")"@], seq![v, Ok(list)])),
    }
}

fn in_list(value: SqlValue, keyword: &str, items: Vec<SqlValue>) -> (r: Result<SqlQuery, String>)
    ensures
        outcome_is(r, spec_in_list(spec_fragment(value), keyword@, fragments(items@))),
{
    let ghost items_view = items@;
    let list = join(items, Some(String::from_str(", ")))?;
    let ghost lv = list@;
    let strings = chunks3("", keyword, ")");
    let exprs = values2(value, SqlValue::Query(list));
    proof {
        assert(fragments(exprs@) =~= seq![spec_fragment(value), Ok::<QueryView, Seq<char>>(lv)]);
    }
    sql(strings, exprs)
}

/// `value IN (items…)`.
pub fn in_array(value: SqlValue, items: Vec<SqlValue>) -> (r: Result<SqlQuery, String>)
    ensures
        outcome_is(r, spec_in_list(spec_fragment(value), " IN ("@, fragments(items@))),
{
    in_list(value, " IN (", items)
}

/// `value NOT IN (items…)`.
pub fn not_in_array(value: SqlValue, items: Vec<SqlValue>) -> (r: Result<SqlQuery, String>)
    ensures
        outcome_is(r, spec_in_list(spec_fragment(value), " NOT IN ("@, fragments(items@))),
{
    in_list(value, " NOT IN (", items)
}

// ─── Subquery predicates ─────────────────────────────────────────────────────

/// `keyword(query)` for a pre-rendered subquery.
pub open spec fn spec_subquery(keyword: Seq<char>, q: QueryView) -> Frag {
    surfaced(sql_frags(seq![keyword, ")"@], seq![Ok(q)]))
}

fn subquery(keyword: &str, query: SqlQuery) -> (r: Result<SqlQuery, String>)
    ensures
        outcome_is(r, spec_subquery(keyword@, query@)),
{
    let ghost qv = query@;
    let strings = chunks2(keyword, ")");
    let exprs = values1(SqlValue::Query(query));
    proof {
        assert(fragments(exprs@) =~= seq![Ok::<QueryView, Seq<char>>(qv)]);
    }
    sql(strings, exprs)
}

/// `EXISTS (query)`.
pub fn exists_sql(query: SqlQuery) -> (r: Result<SqlQuery, String>)
    ensures
        outcome_is(r, spec_subquery("EXISTS ("@, query@)),
{
    subquery("EXISTS (", query)
}

/// `NOT EXISTS (query)`.
pub fn not_exists_sql(query: SqlQuery) -> (r: Result<SqlQuery, String>)
    ensures
        outcome_is(r, spec_subquery("NOT EXISTS ("@, query@)),
{
    subquery("NOT EXISTS (", query)
}

// ─── Logical combinators ─────────────────────────────────────────────────────

/// Each condition wrapped in parentheses (before surfacing errors).
pub open spec fn paren_frags(conds: Seq<Frag>) -> Seq<Frag> {
    conds.map_values(|c: Frag| sql_frags(seq!["("@, ")"@], seq![c]))
}

/// `((c1) SEP (c2) …)`, or `empty_msg` for no conditions.
pub open spec fn spec_logical(conds: Seq<Frag>, sep: Seq<char>, empty_msg: Seq<char>) -> Frag {
    if conds.len() == 0 {
        Err(empty_msg)
    } else {
        match join_frags(paren_frags(conds), sep) {
            Err(m) => Err(validation_msg(m)),
            Ok(inner) => surfaced(sql_frags(seq!["("@, ")"@], seq![Ok(inner)])),
        }
    }
}

fn logical(conditions: Vec<SqlValue>, sep: &str, empty_msg: &str) -> (r: Result<SqlQuery, String>)
    ensures
        outcome_is(r, spec_logical(fragments(conditions@), sep@, empty_msg@)),
{
    if conditions.len() == 0 {
        return Err(String::from_str(empty_msg));
    }
    let ghost pf = paren_frags(fragments(conditions@));
    let mut wrapped: Vec<SqlValue> = Vec::new();
    for i in 0..conditions.len()
        invariant
            pf == paren_frags(fragments(conditions@)),
            wrapped@.len() == i,
            fragments(wrapped@) == pf.take(i as int),
            forall|j: int| 0 <= j < i ==> (#[trigger] pf[j]) is Ok,
    {
        let c = crate::sql::copy_value(&conditions[i]);
        match wrap(c) {
            Ok(w) => {
                let ghost wv = w@;
                let ghost old_w = wrapped@;
                wrapped.push(SqlValue::Query(w));
                proof {
                    assert(pf[i as int] == Ok::<QueryView, Seq<char>>(wv));
                    assert(fragments(wrapped@) =~= pf.take(i + 1));
                }
            },
            Err(e) => {
                proof {
                    let m = pf[i as int]->Err_0;
                    crate::sql::lemma_join_all_ok(pf.take(i as int), sep@);
                    assert(pf.take(i + 1).drop_last() == pf.take(i as int));
                    crate::sql::lemma_join_err_stays(pf, sep@, i + 1, pf.len() as int);
                    assert(pf.take(pf.len() as int) == pf);
                }
                return Err(e);
            },
        }
    }
    assert(pf.take(pf.len() as int) == pf);
    let inner = crate::sql::join_values(&wrapped, sep);
    match inner {
        Ok(inner) => {
            let ghost iv = inner@;
            let strings = chunks2("(", ")");
            let exprs = values1(SqlValue::Query(inner));
            proof {
                assert(fragments(exprs@) =~= seq![Ok::<QueryView, Seq<char>>(iv)]);
            }
            sql(strings, exprs)
        },
        Err(e) => {
            proof {
                crate::sql::lemma_join_all_ok(pf, sep@);
            }
            Err(e.message())
        },
    }
}

/// `((c1) AND (c2) …)`.
pub fn and(conditions: Vec<SqlValue>) -> (r: Result<SqlQuery, String>)
    ensures
        outcome_is(r, spec_logical(fragments(conditions@), " AND "@, "and() requires at least one condition"@)),
{
    logical(conditions, " AND ", "and() requires at least one condition")
}

/// `((c1) OR (c2) …)`.
pub fn or(conditions: Vec<SqlValue>) -> (r: Result<SqlQuery, String>)
    ensures
        outcome_is(r, spec_logical(fragments(conditions@), " OR "@, "or() requires at least one condition"@)),
{
    logical(conditions, " OR ", "or() requires at least one condition")
}

// ─── Function calls ──────────────────────────────────────────────────────────

/// `NAME(arg1, arg2, …)` or `NAME()`.
pub open spec fn spec_fn_call(name: Seq<char>, args: Seq<Frag>) -> Frag {
    if args.len() == 0 {
        Ok(QueryView::lit(name + "()"@))
    } else {
        match join_frags(args, ", "@) {
            Err(m) => Err(validation_msg(m)),
            Ok(l) => surfaced(sql_frags(seq![name + "("@, ")"@], seq![Ok(l)])),
        }
    }
}

/// Generic SQL function call: `NAME(arg1, arg2, ...)` or `NAME()`.
pub fn fn_call(name: String, args: Vec<SqlValue>) -> (r: Result<SqlQuery, String>)
    ensures
        outcome_is(r, spec_fn_call(name@, fragments(args@))),
{
    if args.len() == 0 {
        let mut t = name.clone();
        push_str(&mut t, "()");
        return Ok(SqlQuery { text: t.clone(), raw: t, values: Vec::new() });
    }
    let rendered = join(args, Some(String::from_str(", ")))?;
    let ghost rv = rendered@;
    let mut open_chunk = name.clone();
    push_str(&mut open_chunk, "(");
    let mut strings: Vec<String> = Vec::new();
    strings.push(open_chunk);
    strings.push(String::from_str(")"));
    let exprs = values1(SqlValue::Query(rendered));
    proof {
        assert(strings.deep_view() =~= seq![name@ + "("@, ")"@]);
        assert(fragments(exprs@) =~= seq![Ok::<QueryView, Seq<char>>(rv)]);
    }
    sql(strings, exprs)
}

/// The message for a function a dialect does not support.
pub open spec fn unsupported_function_msg(k: DialectKey, name: Seq<char>) -> Seq<char> {
    "Dialect \""@ + k.name + "\" does not support function \""@ + name + "\" in this builder."@
}

fn unsupported_function(dialect: &Dialect, name: &str) -> (e: String)
    ensures
        e@ == unsupported_function_msg(dialect_key(*dialect), name@),
{
    let mut e = String::from_str("Dialect \"");
    push_str(&mut e, dialect.as_str());
    push_str(&mut e, "\" does not support function \"");
    push_str(&mut e, name);
    push_str(&mut e, "\" in this builder.");
    e
}

/// A call of a registered function, with its name normalized.
pub open spec fn spec_fn_call_for_dialect(name: Seq<char>, args: Seq<Frag>, k: DialectKey) -> Frag {
    let n = spec_normalize_function_name(name);
    if key_function_capability(k, n) is None {
        Err(unsupported_function_msg(k, n))
    } else {
        spec_fn_call(n, args)
    }
}

/// Function call checked against the dialect's function registry.
pub fn fn_call_for_dialect(name: String, args: Vec<SqlValue>, dialect: &Dialect) -> (r: Result<SqlQuery, String>)
    ensures
        outcome_is(r, spec_fn_call_for_dialect(name@, fragments(args@), dialect_key(*dialect))),
{
    let normalized = normalize_function_name(name.as_str());
    if function_capability_for(dialect, normalized.as_str()).is_none() {
        return Err(unsupported_function(dialect, normalized.as_str()));
    }
    fn_call(normalized, args)
}

/// `LOWER(value) KEYWORD LOWER(pattern)`.
pub open spec fn spec_lowered(value: Frag, keyword: Seq<char>, pattern: Frag) -> Frag {
    match spec_fn_call("LOWER"@, seq![value]) {
        Err(e) => Err(e),
        Ok(lv) => match spec_fn_call("LOWER"@, seq![pattern]) {
            Err(e) => Err(e),
            Ok(lp) => surfaced(sql_frags(seq![""@, keyword, ""@], seq![Ok(lv), Ok(lp)])),
        },
    }
}

fn lowered(value: SqlValue, keyword: &str, pattern: SqlValue) -> (r: Result<SqlQuery, String>)
    ensures
        outcome_is(r, spec_lowered(spec_fragment(value), keyword@, spec_fragment(pattern))),
{
    let ghost fv = spec_fragment(value);
    let ghost fp = spec_fragment(pattern);
    let va = values1(value);
    let vp = values1(pattern);
    assert(fragments(va@) =~= seq![fv]);
    assert(fragments(vp@) =~= seq![fp]);
    let lower_value = fn_call(String::from_str("LOWER"), va)?;
    let lower_pattern = fn_call(String::from_str("LOWER"), vp)?;
    let ghost a = lower_value@;
    let ghost b = lower_pattern@;
    let strings = chunks3("", keyword, "");
    let exprs = values2(SqlValue::Query(lower_value), SqlValue::Query(lower_pattern));
    proof {
        assert(fragments(exprs@) =~= seq![Ok::<QueryView, Seq<char>>(a), Ok::<QueryView, Seq<char>>(b)]);
    }
    sql(strings, exprs)
}

/// The ILIKE fallback rewrite: `LOWER(value) LIKE LOWER(pattern)`.
pub fn ilike_rewrite_sql(value: SqlValue, pattern: SqlValue) -> (r: Result<SqlQuery, String>)
    ensures
        outcome_is(r, spec_lowered(spec_fragment(value), " LIKE "@, spec_fragment(pattern))),
{
    lowered(value, " LIKE ", pattern)
}

/// The NOT ILIKE fallback rewrite: `LOWER(value) NOT LIKE LOWER(pattern)`.
pub fn not_ilike_rewrite_sql(value: SqlValue, pattern: SqlValue) -> (r: Result<SqlQuery, String>)
    ensures
        outcome_is(r, spec_lowered(spec_fragment(value), " NOT LIKE "@, spec_fragment(pattern))),
{
    lowered(value, " NOT LIKE ", pattern)
}

// ─── CASE ────────────────────────────────────────────────────────────────────

/// `WHEN w THEN t` for each branch.
pub open spec fn case_clauses(branches: Seq<(Frag, Frag)>) -> Seq<Frag> {
    branches.map_values(|b: (Frag, Frag)| sql_frags(seq!["WHEN "@, " THEN "@, ""@], seq![b.0, b.1]))
}

/// The fragment outcomes of CASE branches.
pub open spec fn branch_fragments(b: Seq<(SqlValue, SqlValue)>) -> Seq<(Frag, Frag)> {
    b.map_values(|x: (SqlValue, SqlValue)| (spec_fragment(x.0), spec_fragment(x.1)))
}

/// The fragment outcome of an optional value.
pub open spec fn option_fragment(v: Option<SqlValue>) -> Option<Frag> {
    match v {
        Some(x) => Some(spec_fragment(x)),
        None => None,
    }
}

/// `CASE WHEN … THEN … [ELSE …] END`.
pub open spec fn spec_scalar_case(branches: Seq<(Frag, Frag)>, else_val: Option<Frag>) -> Frag {
    if branches.len() == 0 {
        Err("scalar_case() requires at least one branch"@)
    } else {
        match join_frags(case_clauses(branches), " "@) {
            Err(m) => Err(validation_msg(m)),
            Ok(j) => match else_val {
                None => surfaced(sql_frags(seq!["CASE "@, " END"@], seq![Ok(j)])),
                Some(ev) => surfaced(sql_frags(seq!["CASE "@, " ELSE "@, " END"@], seq![Ok(j), ev])),
            },
        }
    }
}

/// `CASE WHEN when1 THEN then1 … [ELSE else_val] END`.
#[verifier::rlimit(40)]
pub fn scalar_case(branches: Vec<(SqlValue, SqlValue)>, else_val: Option<SqlValue>) -> (r: Result<SqlQuery, String>)
    ensures
        outcome_is(r, spec_scalar_case(branch_fragments(branches@), option_fragment(else_val))),
{
    if branches.len() == 0 {
        return Err(String::from_str("scalar_case() requires at least one branch"));
    }
    let ghost cf = case_clauses(branch_fragments(branches@));
    let mut parts: Vec<SqlValue> = Vec::new();
    for i in 0..branches.len()
        invariant
            cf == case_clauses(branch_fragments(branches@)),
            parts@.len() == i,
            fragments(parts@) == cf.take(i as int),
            forall|j: int| 0 <= j < i ==> (#[trigger] cf[j]) is Ok,
    {
        let w = crate::sql::copy_value(&branches[i].0);
        let t = crate::sql::copy_value(&branches[i].1);
        proof {
            let bf = branch_fragments(branches@);
            assert(bf[i as int] == (spec_fragment(branches@[i as int].0), spec_fragment(branches@[i as int].1)));
            assert(cf[i as int] == sql_frags(seq!["WHEN "@, " THEN "@, ""@], seq![bf[i as int].0, bf[i as int].1]));
        }
        let strings = chunks3("WHEN ", " THEN ", "");
        let exprs = values2(w, t);
        proof {
            assert(fragments(exprs@) =~= seq![spec_fragment(branches@[i as int].0), spec_fragment(branches@[i as int].1)]);
        }
        match sql(strings, exprs) {
            Ok(clause) => {
                let ghost cv = clause@;
                parts.push(SqlValue::Query(clause));
                proof {
                    assert(cf[i as int] == Ok::<QueryView, Seq<char>>(cv));
                    assert(fragments(parts@) =~= cf.take(i + 1));
                }
            },
            Err(e) => {
                proof {
                    crate::sql::lemma_join_all_ok(cf.take(i as int), " "@);
                    assert(cf.take(i + 1).drop_last() == cf.take(i as int));
                    crate::sql::lemma_join_err_stays(cf, " "@, i + 1, cf.len() as int);
                    assert(cf.take(cf.len() as int) == cf);
                }
                return Err(e);
            },
        }
    }
    assert(cf.take(cf.len() as int) == cf);
    let joined = crate::sql::join_values(&parts, " ");
    let joined = match joined {
        Ok(j) => j,
        Err(e) => {
            proof {
                crate::sql::lemma_join_all_ok(cf, " "@);
            }
            return Err(e.message());
        },
    };
    let ghost jv = joined@;
    match else_val {
        None => {
            let strings = chunks2("CASE ", " END");
            let exprs = values1(SqlValue::Query(joined));
            proof {
                assert(fragments(exprs@) =~= seq![Ok::<QueryView, Seq<char>>(jv)]);
            }
            sql(strings, exprs)
        },
        Some(ev) => {
            let ghost evv = ev;
            let strings = chunks3("CASE ", " ELSE ", " END");
            let exprs = values2(SqlValue::Query(joined), ev);
            proof {
                assert(fragments(exprs@) =~= seq![Ok::<QueryView, Seq<char>>(jv), spec_fragment(evv)]);
            }
            sql(strings, exprs)
        },
    }
}

// ─── Arithmetic ──────────────────────────────────────────────────────────────

/// `(left op right)`.
pub open spec fn spec_arith(left: Frag, op: Seq<char>, right: Frag) -> Frag {
    surfaced(sql_frags(seq!["("@, seq![' '] + op + seq![' '], ")"@], seq![left, right]))
}

/// Binary arithmetic: `(left op right)`.
pub fn arith_binary(left: SqlValue, operator: String, right: SqlValue) -> (r: Result<SqlQuery, String>)
    ensures
        outcome_is(r, spec_arith(spec_fragment(left), operator@, spec_fragment(right))),
{
    let mid = spaced(operator.as_str());
    let mut strings: Vec<String> = Vec::new();
    strings.push(String::from_str("("));
    strings.push(mid);
    strings.push(String::from_str(")"));
    let exprs = values2(left, right);
    proof {
        assert(strings.deep_view() =~= seq!["("@, seq![' '] + operator@ + seq![' '], ")"@]);
        assert(fragments(exprs@) =~= seq![spec_fragment(left), spec_fragment(right)]);
    }
    sql(strings, exprs)
}

/// `(left op right)` after checking the (trimmed) operator against the dialect.
pub open spec fn spec_arith_for_dialect(left: Frag, op: Seq<char>, right: Frag, k: DialectKey) -> Frag {
    if key_operator_capability(k, OperatorKind::Arithmetic, trim(op)) is None {
        Err(unsupported_operator_msg(k, trim(op)))
    } else {
        spec_arith(left, trim(op), right)
    }
}

/// Arithmetic checked against the dialect's arithmetic operators.
pub fn arith_binary_for_dialect(left: SqlValue, operator: String, right: SqlValue, dialect: &Dialect) -> (r: Result<SqlQuery, String>)
    ensures
        outcome_is(r, spec_arith_for_dialect(spec_fragment(left), operator@, spec_fragment(right), dialect_key(*dialect))),
{
    let normalized = normalize_operator(operator.as_str());
    if operator_capability_for(dialect, OperatorKind::Arithmetic, normalized.as_str()).is_none() {
        return Err(unsupported_operator(dialect, normalized.as_str()));
    }
    arith_binary(left, normalized, right)
}

} // verus!

verus! {

// ─── Window functions ────────────────────────────────────────────────────────

pub open spec fn no_window_functions_msg(k: DialectKey) -> Seq<char> {
    "Dialect \""@ + k.name + "\" does not support window functions in this builder."@
}

pub open spec fn not_window_function_msg(k: DialectKey, n: Seq<char>) -> Seq<char> {
    "Function \""@ + n + "\" cannot be used as a window function in dialect \""@ + k.name + "\"."@
}

/// The outcome of checking a function for use in an `OVER` clause.
pub open spec fn spec_validate_window(k: DialectKey, name: Seq<char>) -> Result<Seq<char>, Seq<char>> {
    let n = spec_normalize_function_name(name);
    if !k.caps.window_functions {
        Err(no_window_functions_msg(k))
    } else {
        match key_function_capability(k, n) {
            None => Err(unsupported_function_msg(k, n)),
            Some(cap) => if cap.window { Ok(n) } else { Err(not_window_function_msg(k, n)) },
        }
    }
}

fn no_window_functions(dialect: &Dialect) -> (e: String)
    ensures
        e@ == no_window_functions_msg(dialect_key(*dialect)),
{
    let mut e = String::from_str("Dialect \"");
    push_str(&mut e, dialect.as_str());
    push_str(&mut e, "\" does not support window functions in this builder.");
    e
}

/// Check that `function_name` may be used as a window function in the dialect;
/// returns the normalized name.
pub fn validate_window_function_for_dialect(dialect: &Dialect, function_name: &str) -> (r: Result<String, String>)
    ensures
        match (r, spec_validate_window(dialect_key(*dialect), function_name@)) {
            (Ok(a), Ok(b)) => a@ == b,
            (Err(a), Err(b)) => a@ == b,
            _ => false,
        },
{
    if !crate::backend::backend_for_dialect(dialect).capabilities().window_functions {
        return Err(no_window_functions(dialect));
    }
    let normalized = normalize_function_name(function_name);
    let capability = match function_capability_for(dialect, normalized.as_str()) {
        Some(c) => c,
        None => return Err(unsupported_function(dialect, normalized.as_str())),
    };
    if capability.window {
        Ok(normalized)
    } else {
        let mut e = String::from_str("Function \"");
        push_str(&mut e, normalized.as_str());
        push_str(&mut e, "\" cannot be used as a window function in dialect \"");
        push_str(&mut e, dialect.as_str());
        push_str(&mut e, "\".");
        Err(e)
    }
}

pub open spec fn no_null_ordering_msg(k: DialectKey) -> Seq<char> {
    "Dialect \""@ + k.name + "\" does not support NULLS FIRST/LAST in ORDER BY."@
}

/// The values joined for one window ORDER BY item: expression, direction, `NULLS …`.
pub open spec fn order_item_frags(item: WindowItemView) -> Seq<Frag> {
    let e = seq![Ok::<QueryView, Seq<char>>(item.expression)];
    let e = match item.direction {
        Some(dir) => e.push(Ok(QueryView::lit(dir))),
        None => e,
    };
    match item.nulls {
        Some(n) => e.push(sql_frags(seq!["NULLS "@, ""@], seq![Ok(QueryView::lit(n))])),
        None => e,
    }
}

/// One window ORDER BY item: `expr [DIR] [NULLS …]`.
pub open spec fn order_item_view(item: WindowItemView) -> Frag {
    join_frags(order_item_frags(item), " "@)
}

/// The clauses inside `OVER (…)`.
pub open spec fn over_clause_frags(partition_by: Seq<QueryView>, order_by: Seq<WindowItemView>) -> Seq<Frag> {
    let p = if partition_by.len() > 0 {
        seq![match join_frags(partition_by.map_values(|q: QueryView| Ok::<QueryView, Seq<char>>(q)), ", "@) {
            Ok(j) => sql_frags(seq!["PARTITION BY "@, ""@], seq![Ok(j)]),
            Err(e) => Err(e),
        }]
    } else {
        Seq::empty()
    };
    if order_by.len() > 0 {
        p.push(match join_frags(order_by.map_values(|i: WindowItemView| order_item_view(i)), ", "@) {
            Ok(j) => sql_frags(seq!["ORDER BY "@, ""@], seq![Ok(j)]),
            Err(e) => Err(e),
        })
    } else {
        p
    }
}

/// `query OVER (PARTITION BY … ORDER BY …)`.
pub open spec fn spec_over(q: QueryView, partition_by: Seq<QueryView>, order_by: Seq<WindowItemView>, k: DialectKey) -> Frag {
    let caps = k.caps;
    if !caps.window_functions {
        Err(no_window_functions_msg(k))
    } else if (exists|i: int| 0 <= i < order_by.len() && (#[trigger] order_by[i]).nulls is Some) && !caps.null_ordering {
        Err(no_null_ordering_msg(k))
    } else {
        let clauses = over_clause_frags(partition_by, order_by);
        let inner = if clauses.len() == 0 { Ok(QueryView::empty()) } else { join_frags(clauses, " "@) };
        match inner {
            Ok(iv) => sql_frags(seq![""@, " OVER ("@, ")"@], seq![Ok(q), Ok(iv)]),
            Err(e) => Err(e),
        }
    }
}

/// Render one window ORDER BY item.
fn order_item(item: &WindowOrderItem) -> (r: SqlQuery)
    ensures
        order_item_view(item@) == Ok::<QueryView, Seq<char>>(r@),
{
    let mut parts: Vec<SqlValue> = Vec::new();
    parts.push(SqlValue::Query(item.expression.copy()));
    assert(fragments(parts@) =~= seq![Ok::<QueryView, Seq<char>>(item.expression@)]);
    match &item.direction {
        Some(dir) => {
            let ghost old_parts = parts@;
            parts.push(SqlValue::Raw(crate::sql::raw(dir.clone())));
            assert(fragments(parts@) =~= fragments(old_parts).push(Ok(QueryView::lit(dir@))));
        },
        None => {},
    }
    match &item.nulls {
        Some(n) => {
            let ghost nv = n@;
            let strings = chunks2("NULLS ", "");
            let exprs = values1(SqlValue::Raw(crate::sql::raw(n.clone())));
            proof {
                assert(fragments(exprs@) =~= seq![Ok::<QueryView, Seq<char>>(QueryView::lit(nv))]);
                crate::sql::lemma_template_all_ok(seq!["NULLS "@, ""@], seq![Ok::<QueryView, Seq<char>>(QueryView::lit(nv))], 2);
            }
            let q = crate::sql::template(&strings, &exprs);
            match q {
                Ok(q) => {
                    let ghost old_parts = parts@;
                    parts.push(SqlValue::Query(q));
                    assert(fragments(parts@) =~= fragments(old_parts).push(
                        sql_frags(seq!["NULLS "@, ""@], seq![Ok(QueryView::lit(nv))])));
                },
                Err(_) => {
                    assert(false);
                },
            }
        },
        None => {},
    }
    assert(fragments(parts@) == order_item_frags(item@));
    proof {
        assert forall|j: int| 0 <= j < fragments(parts@).len() implies (#[trigger] fragments(parts@)[j]) is Ok by {
            if item.nulls is Some && j == fragments(parts@).len() - 1 {
                crate::sql::lemma_template_all_ok(seq!["NULLS "@, ""@], seq![Ok::<QueryView, Seq<char>>(QueryView::lit(item.nulls->0@))], 2);
            }
        }
        crate::sql::lemma_join_all_ok(fragments(parts@), " "@);
    }
    match crate::sql::join_values(&parts, " ") {
        Ok(q) => q,
        Err(_) => {
            assert(false);
            SqlQuery::empty()
        },
    }
}

/// `prefix` followed by one fragment that cannot fail.
fn prefixed(prefix: &str, q: SqlQuery) -> (r: SqlQuery)
    ensures
        sql_frags(seq![prefix@, ""@], seq![Ok::<QueryView, Seq<char>>(q@)]) == Ok::<QueryView, Seq<char>>(r@),
{
    let ghost qv = q@;
    let strings = chunks2(prefix, "");
    let exprs = values1(SqlValue::Query(q));
    proof {
        assert(fragments(exprs@) =~= seq![Ok::<QueryView, Seq<char>>(qv)]);
        crate::sql::lemma_template_all_ok(seq![prefix@, ""@], seq![Ok::<QueryView, Seq<char>>(qv)], 2);
    }
    match crate::sql::template(&strings, &exprs) {
        Ok(r) => r,
        Err(_) => {
            assert(false);
            SqlQuery::empty()
        },
    }
}

fn no_null_ordering(dialect: &Dialect) -> (e: String)
    ensures
        e@ == no_null_ordering_msg(dialect_key(*dialect)),
{
    let mut e = String::from_str("Dialect \"");
    push_str(&mut e, dialect.as_str());
    push_str(&mut e, "\" does not support NULLS FIRST/LAST in ORDER BY.");
    e
}

/// `query OVER (PARTITION BY … ORDER BY …)`, after checking window-function and
/// NULLS-ordering support of the dialect.
pub fn over_clause(
    query: SqlQuery,
    partition_by: Vec<SqlQuery>,
    order_by: Vec<WindowOrderItem>,
    dialect: &Dialect,
) -> (r: Result<SqlQuery, String>)
    ensures
        outcome_is(r, spec_over(query@, partition_by@.map_values(|q: SqlQuery| q@), order_by@.map_values(|i: WindowOrderItem| i@), dialect_key(*dialect))),
        r is Ok <==> spec_capabilities(*dialect).window_functions && (spec_capabilities(*dialect).null_ordering
            || forall|i: int| 0 <= i < order_by@.len() ==> (#[trigger] order_by@[i]).nulls is None),
{
    let caps = crate::backend::backend_for_dialect(dialect).capabilities();
    if !caps.window_functions {
        return Err(no_window_functions(dialect));
    }
    let mut any_nulls = false;
    for i in 0..order_by.len()
        invariant
            any_nulls == exists|j: int| 0 <= j < i && (#[trigger] order_by@[j]).nulls is Some,
    {
        if order_by[i].nulls.is_some() {
            any_nulls = true;
        }
    }
    if any_nulls && !caps.null_ordering {
        proof {
            let j = choose|j: int| 0 <= j < order_by@.len() && (#[trigger] order_by@[j]).nulls is Some;
            let views = order_by@.map_values(|i: WindowOrderItem| i@);
            assert(views[j].nulls is Some);
        }
        return Err(no_null_ordering(dialect));
    }
    proof {
        let views = order_by@.map_values(|i: WindowOrderItem| i@);
        assert forall|j: int| 0 <= j < views.len() implies !((#[trigger] views[j]).nulls is Some) || caps.null_ordering by {
            assert(views[j] == order_by@[j]@);
        }
    }
    let ghost pv = partition_by@.map_values(|q: SqlQuery| q@);
    let ghost cf = over_clause_frags(pv, order_by@.map_values(|i: WindowOrderItem| i@));
    let mut clauses: Vec<SqlValue> = Vec::new();
    if partition_by.len() > 0 {
        let mut vals: Vec<SqlValue> = Vec::new();
        for i in 0..partition_by.len()
            invariant
                vals@.len() == i,
                pv == partition_by@.map_values(|q: SqlQuery| q@),
                fragments(vals@) == pv.map_values(|q: QueryView| Ok::<QueryView, Seq<char>>(q)).take(i as int),
        {
            let ghost old_vals = vals@;
            vals.push(SqlValue::Query(partition_by[i].copy()));
            assert(fragments(vals@) =~= pv.map_values(|q: QueryView| Ok::<QueryView, Seq<char>>(q)).take(i + 1));
        }
        let ghost okp = pv.map_values(|q: QueryView| Ok::<QueryView, Seq<char>>(q));
        assert(okp.take(okp.len() as int) == okp);
        proof {
            crate::sql::lemma_join_all_ok(okp, ", "@);
        }
        let partition = match crate::sql::join_values(&vals, ", ") {
            Ok(p) => p,
            Err(_) => {
                assert(false);
                SqlQuery::empty()
            },
        };
        let clause = prefixed("PARTITION BY ", partition);
        clauses.push(SqlValue::Query(clause));
    }
    assert(fragments(clauses@) =~= (if pv.len() > 0 { seq![cf[0]] } else { Seq::<Frag>::empty() }));
    if order_by.len() > 0 {
        let ghost ov = order_by@.map_values(|i: WindowOrderItem| i@).map_values(|i: WindowItemView| order_item_view(i));
        let mut items: Vec<SqlValue> = Vec::new();
        for i in 0..order_by.len()
            invariant
                items@.len() == i,
                ov == order_by@.map_values(|i: WindowOrderItem| i@).map_values(|i: WindowItemView| order_item_view(i)),
                fragments(items@) == ov.take(i as int),
                forall|j: int| 0 <= j < i ==> (#[trigger] ov[j]) is Ok,
        {
            let q = order_item(&order_by[i]);
            items.push(SqlValue::Query(q));
            assert(fragments(items@) =~= ov.take(i + 1));
        }
        assert(ov.take(ov.len() as int) == ov);
        proof {
            crate::sql::lemma_join_all_ok(ov, ", "@);
        }
        let joined = match crate::sql::join_values(&items, ", ") {
            Ok(j) => j,
            Err(_) => {
                assert(false);
                SqlQuery::empty()
            },
        };
        let clause = prefixed("ORDER BY ", joined);
        let ghost old_clauses = fragments(clauses@);
        clauses.push(SqlValue::Query(clause));
        assert(fragments(clauses@) =~= old_clauses.push(cf.last()));
    }
    assert(fragments(clauses@) =~= cf);
    proof {
        assert forall|j: int| 0 <= j < cf.len() implies (#[trigger] cf[j]) is Ok by {}
        crate::sql::lemma_join_all_ok(cf, " "@);
    }
    let inner = if clauses.len() == 0 {
        SqlQuery::empty()
    } else {
        match crate::sql::join_values(&clauses, " ") {
            Ok(i) => i,
            Err(_) => {
                assert(false);
                SqlQuery::empty()
            },
        }
    };
    let ghost qv = query@;
    let ghost iv = inner@;
    let strings = chunks3("", " OVER (", ")");
    let exprs = values2(SqlValue::Query(query), SqlValue::Query(inner));
    proof {
        assert(fragments(exprs@) =~= seq![Ok::<QueryView, Seq<char>>(qv), Ok::<QueryView, Seq<char>>(iv)]);
        crate::sql::lemma_template_all_ok(seq![""@, " OVER ("@, ")"@], fragments(exprs@), 3);
    }
    match crate::sql::template(&strings, &exprs) {
        Ok(q) => Ok(q),
        Err(_) => {
            assert(false);
            Err(String::new())
        },
    }
}

} // verus!
