//! Deferred expression trees and their dialect-aware evaluation into SQL fragments.
use crate::dialect::{
    classify, dialect_key, key_of_name, lemma_parsed_key, Dialect, DialectFeature, DialectKey, DialectPolicy,
    DialectWarning,
};
use crate::expressions::{
    and, arith_binary, arith_binary_for_dialect, between, branch_fragments, cmp, cmp_for_dialect, exists_sql,
    fn_call, fn_call_for_dialect, ilike_rewrite_sql, ilike_sql, in_array, is_not_null, is_null, like_sql,
    not_between, not_exists_sql, not_ilike_rewrite_sql, not_ilike_sql, not_in_array, not_like_sql, or,
    outcome_is, over_clause, scalar_case, spec_arith, spec_arith_for_dialect, spec_cmp, spec_cmp_for_dialect,
    spec_fn_call, spec_fn_call_for_dialect, spec_in_list, spec_infix, spec_logical, spec_lowered, spec_over,
    spec_range, spec_scalar_case, spec_subquery, spec_suffixed, spec_validate_window, Frag,
};
use crate::sql::{
    chunks2, chunks3, copy_value, fragments, identifier, identifier_text, msg_empty_part, parts_nonempty,
    spec_fragment, spec_render_value, sql, sql_frags, surfaced, to_query_fragment, validation_msg, values1,
    values2,
};
use crate::text::{push_str, to_uppercase, unicode_upper};
use crate::types::{copy_primitives, copy_strings, Duplicate, Primitive, QueryView, SqlQuery, SqlValue, WindowItemView, WindowOrderItem};
use vstd::prelude::*;

verus! {

// ─── Supporting types ────────────────────────────────────────────────────────

/// Items for IN / NOT IN — either a primitive list or a pre-rendered subquery.
pub enum InArrayItems {
    Primitives(Vec<Primitive>),
    Query(SqlQuery),
}

/// One WHEN/THEN branch inside a CASE expression.
pub struct CaseBranch {
    pub when: ExprNode,
    pub result: ExprNode,
}

/// One ORDER BY item inside an OVER(...) clause.
pub struct WindowOrderNode {
    pub expression: ExprNode,
    pub direction: Option<String>,
    pub nulls: Option<String>,
}

/// An interpolated template argument: an expression tree or a ready value.
pub enum SqlTemplateExpr {
    Node(ExprNode),
    Value(SqlValue),
}

/// A deferred expression tree, evaluated into a [`SqlQuery`] by [`eval_expr`].
pub enum ExprNode {
    /// A quoted column / table reference; `parts` mirrors a dotted path.
    Ref { parts: Vec<String> },
    /// A pseudo-reference to the insert conflict row (`excluded` or equivalent).
    Excluded { column: String },
    /// A bound scalar value.
    Val { value: Primitive },
    /// An unquoted, unparameterised raw SQL fragment.
    Raw { text: String },
    /// An already-rendered fragment.
    Query { query: SqlQuery },
    /// A deferred SQL template expression.
    SqlTemplate { strings: Vec<String>, exprs: Vec<SqlTemplateExpr> },
    Cmp { left: Box<ExprNode>, op: String, right: Box<ExprNode> },
    IsNull { value: Box<ExprNode> },
    IsNotNull { value: Box<ExprNode> },
    InArray { value: Box<ExprNode>, items: InArrayItems },
    NotInArray { value: Box<ExprNode>, items: InArrayItems },
    Between { value: Box<ExprNode>, lower: Box<ExprNode>, upper: Box<ExprNode> },
    NotBetween { value: Box<ExprNode>, lower: Box<ExprNode>, upper: Box<ExprNode> },
    Like { value: Box<ExprNode>, pattern: Box<ExprNode> },
    NotLike { value: Box<ExprNode>, pattern: Box<ExprNode> },
    /// Case-insensitive LIKE; rewritten to `LOWER(value) LIKE LOWER(pattern)` (with a
    /// warning) on dialects without `ILIKE`.
    Ilike { value: Box<ExprNode>, pattern: Box<ExprNode> },
    NotIlike { value: Box<ExprNode>, pattern: Box<ExprNode> },
    Exists { query: SqlQuery },
    NotExists { query: SqlQuery },
    And { conditions: Vec<ExprNode> },
    Or { conditions: Vec<ExprNode> },
    FnCall { name: String, args: Vec<ExprNode> },
    Arith { left: Box<ExprNode>, op: String, right: Box<ExprNode> },
    Case { branches: Vec<CaseBranch>, else_val: Option<Box<ExprNode>> },
    /// A window function call; `dialect` names the dialect its support is checked against.
    Over { expr: Box<ExprNode>, partition_by: Vec<ExprNode>, order_by: Vec<WindowOrderNode>, dialect: String },
}

/// The abstract content of a [`DialectWarning`].
pub struct WarningView {
    pub feature: Seq<char>,
    pub dialect: Seq<char>,
    pub message: Seq<char>,
}

impl View for DialectWarning {
    type V = WarningView;

    open spec fn view(&self) -> WarningView {
        WarningView { feature: self.feature@, dialect: self.dialect@, message: self.message@ }
    }
}

/// The views of a list of warnings.
pub open spec fn warning_views(w: Seq<DialectWarning>) -> Seq<WarningView> {
    w.map_values(|x: DialectWarning| x@)
}

/// A warnings collector passed through the expression evaluator.
pub struct WarningsCtx {
    pub warnings: Vec<DialectWarning>,
    pub strict: bool,
}

// ─── Specification of evaluation ─────────────────────────────────────────────

/// The outcome of evaluating one node: the fragment (or error) and the warnings recorded.
pub struct EvalOut {
    pub res: Frag,
    pub warns: Seq<WarningView>,
}

/// The outcome of evaluating a list of nodes in order, stopping at the first error.
pub struct ListOut<T> {
    pub res: Result<Seq<T>, Seq<char>>,
    pub warns: Seq<WarningView>,
}

pub open spec fn out(res: Frag, warns: Seq<WarningView>) -> EvalOut {
    EvalOut { res, warns }
}

/// A node with one evaluated child.
pub open spec fn un(a: EvalOut, f: spec_fn(QueryView) -> Frag) -> EvalOut {
    match a.res {
        Err(_) => a,
        Ok(x) => out(f(x), a.warns),
    }
}

/// A node with two children evaluated left to right.
pub open spec fn bin(a: EvalOut, b: EvalOut, f: spec_fn(QueryView, QueryView) -> Frag) -> EvalOut {
    match a.res {
        Err(_) => a,
        Ok(x) => match b.res {
            Err(e) => out(Err(e), a.warns + b.warns),
            Ok(y) => out(f(x, y), a.warns + b.warns),
        },
    }
}

/// A node with three children evaluated left to right.
pub open spec fn tri(a: EvalOut, b: EvalOut, c: EvalOut, f: spec_fn(QueryView, QueryView, QueryView) -> Frag) -> EvalOut {
    match a.res {
        Err(_) => a,
        Ok(x) => match b.res {
            Err(e) => out(Err(e), a.warns + b.warns),
            Ok(y) => match c.res {
                Err(e) => out(Err(e), a.warns + b.warns + c.warns),
                Ok(z) => out(f(x, y, z), a.warns + b.warns + c.warns),
            },
        },
    }
}

/// The fragment of a quoted reference `"a"."b"`.
pub open spec fn ref_fragment(parts: Seq<Seq<char>>) -> Frag {
    if parts.len() == 0 {
        Err("Identifier must have at least one part"@)
    } else if !parts_nonempty(parts) {
        Err(validation_msg(msg_empty_part()))
    } else {
        Ok(QueryView { text: identifier_text(parts, true), raw: identifier_text(parts, false), values: Seq::empty() })
    }
}

/// The warning recorded when ILIKE / NOT ILIKE is rewritten.
pub open spec fn ilike_warning(dialect: Seq<char>, negated: bool) -> WarningView {
    WarningView {
        feature: "ILIKE"@,
        dialect,
        message: if negated {
            "NOT ILIKE is not supported by dialect \""@ + dialect + "\"; rewritten as LOWER(value) NOT LIKE LOWER(pattern)"@
        } else {
            "ILIKE is not supported by dialect \""@ + dialect + "\"; rewritten as LOWER(value) LIKE LOWER(pattern)"@
        },
    }
}

/// Whether ILIKE renders natively (no dialect: natively).
pub open spec fn ilike_native(k: Option<DialectKey>) -> bool {
    match k {
        Some(kk) => kk.caps.ilike,
        None => true,
    }
}

/// ILIKE or NOT ILIKE over evaluated operands.
pub open spec fn ilike_out(a: EvalOut, b: EvalOut, k: Option<DialectKey>, collect: bool, negated: bool) -> EvalOut {
    match a.res {
        Err(_) => a,
        Ok(x) => match b.res {
            Err(e) => out(Err(e), a.warns + b.warns),
            Ok(y) => if ilike_native(k) {
                out(spec_infix(Ok(x), if negated { " NOT ILIKE "@ } else { " ILIKE "@ }, Ok(y)), a.warns + b.warns)
            } else {
                let w = if collect { seq![ilike_warning(k->0.name, negated)] } else { Seq::empty() };
                out(spec_lowered(Ok(x), if negated { " NOT LIKE "@ } else { " LIKE "@ }, Ok(y)), a.warns + b.warns + w)
            },
        },
    }
}

pub open spec fn ok_frags(qs: Seq<QueryView>) -> Seq<Frag> {
    qs.map_values(|q: QueryView| Ok::<QueryView, Seq<char>>(q))
}

/// The fragment of an IN list given as primitives.
pub open spec fn primitive_frags(ps: Seq<Primitive>) -> Seq<Frag> {
    ps.map_values(|p: Primitive| spec_fragment(SqlValue::Primitive(p)))
}

pub open spec fn in_items_out(a: EvalOut, items: InArrayItems, negated: bool) -> EvalOut {
    un(a, |x: QueryView| match items {
        InArrayItems::Primitives(ps) => spec_in_list(Ok(x), if negated { " NOT IN ("@ } else { " IN ("@ }, primitive_frags(ps@)),
        InArrayItems::Query(q) => surfaced(sql_frags(seq![""@, if negated { " NOT IN ("@ } else { " IN ("@ }, ")"@], seq![Ok(x), Ok(q@)])),
    })
}

/// The message for an OVER clause around something other than a function call.
pub open spec fn over_requires_function_msg() -> Seq<char> {
    "OVER clauses require a function expression in this builder."@
}

/// Evaluated WHEN/THEN pairs as fragment outcomes.
pub open spec fn pair_frags(ps: Seq<(QueryView, QueryView)>) -> Seq<(Frag, Frag)> {
    ps.map_values(|p: (QueryView, QueryView)| (Ok::<QueryView, Seq<char>>(p.0), Ok::<QueryView, Seq<char>>(p.1)))
}

/// Evaluation of one expression node.
#[verifier::opaque]
pub open spec fn spec_eval(node: ExprNode, k: Option<DialectKey>, collect: bool) -> EvalOut
    decreases node,
{
    match node {
        ExprNode::Ref { parts } => out(ref_fragment(parts.deep_view()), Seq::empty()),
        ExprNode::Excluded { column } => out(
            if column@.len() == 0 {
                Err(validation_msg(msg_empty_part()))
            } else {
                surfaced(sql_frags(seq!["excluded."@, ""@], seq![ref_fragment(seq![column@])]))
            },
            Seq::empty(),
        ),
        ExprNode::Val { value } => out(spec_fragment(SqlValue::Primitive(value)), Seq::empty()),
        ExprNode::Raw { text } => out(Ok(QueryView::lit(text@)), Seq::empty()),
        ExprNode::Query { query } => out(Ok(query@), Seq::empty()),
        ExprNode::SqlTemplate { strings, exprs } => {
            let t = eval_template_exprs(exprs@, k, collect);
            match t.res {
                Err(e) => out(Err(e), t.warns),
                Ok(fs) => out(surfaced(sql_frags(strings.deep_view(), fs)), t.warns),
            }
        },
        ExprNode::Cmp { left, op, right } => bin(
            spec_eval(*left, k, collect),
            spec_eval(*right, k, collect),
            |x: QueryView, y: QueryView| match k {
                Some(kk) => spec_cmp_for_dialect(Ok(x), op@, Ok(y), kk),
                None => spec_cmp(Ok(x), op@, Ok(y)),
            },
        ),
        ExprNode::IsNull { value } => un(spec_eval(*value, k, collect), |x: QueryView| spec_suffixed(Ok(x), " IS NULL"@)),
        ExprNode::IsNotNull { value } => un(spec_eval(*value, k, collect), |x: QueryView| spec_suffixed(Ok(x), " IS NOT NULL"@)),
        ExprNode::InArray { value, items } => in_items_out(spec_eval(*value, k, collect), items, false),
        ExprNode::NotInArray { value, items } => in_items_out(spec_eval(*value, k, collect), items, true),
        ExprNode::Between { value, lower, upper } => tri(
            spec_eval(*value, k, collect),
            spec_eval(*lower, k, collect),
            spec_eval(*upper, k, collect),
            |x: QueryView, y: QueryView, z: QueryView| spec_range(Ok(x), " BETWEEN "@, Ok(y), Ok(z)),
        ),
        ExprNode::NotBetween { value, lower, upper } => tri(
            spec_eval(*value, k, collect),
            spec_eval(*lower, k, collect),
            spec_eval(*upper, k, collect),
            |x: QueryView, y: QueryView, z: QueryView| spec_range(Ok(x), " NOT BETWEEN "@, Ok(y), Ok(z)),
        ),
        ExprNode::Like { value, pattern } => bin(
            spec_eval(*value, k, collect),
            spec_eval(*pattern, k, collect),
            |x: QueryView, y: QueryView| spec_infix(Ok(x), " LIKE "@, Ok(y)),
        ),
        ExprNode::NotLike { value, pattern } => bin(
            spec_eval(*value, k, collect),
            spec_eval(*pattern, k, collect),
            |x: QueryView, y: QueryView| spec_infix(Ok(x), " NOT LIKE "@, Ok(y)),
        ),
        ExprNode::Ilike { value, pattern } => ilike_out(
            spec_eval(*value, k, collect), spec_eval(*pattern, k, collect), k, collect, false),
        ExprNode::NotIlike { value, pattern } => ilike_out(
            spec_eval(*value, k, collect), spec_eval(*pattern, k, collect), k, collect, true),
        ExprNode::Exists { query } => out(spec_subquery("EXISTS ("@, query@), Seq::empty()),
        ExprNode::NotExists { query } => out(spec_subquery("NOT EXISTS ("@, query@), Seq::empty()),
        ExprNode::And { conditions } => {
            let l = eval_nodes(conditions@, k, collect);
            match l.res {
                Err(e) => out(Err(e), l.warns),
                Ok(qs) => out(spec_logical(ok_frags(qs), " AND "@, "and() requires at least one condition"@), l.warns),
            }
        },
        ExprNode::Or { conditions } => {
            let l = eval_nodes(conditions@, k, collect);
            match l.res {
                Err(e) => out(Err(e), l.warns),
                Ok(qs) => out(spec_logical(ok_frags(qs), " OR "@, "or() requires at least one condition"@), l.warns),
            }
        },
        ExprNode::FnCall { name, args } => {
            let l = eval_nodes(args@, k, collect);
            match l.res {
                Err(e) => out(Err(e), l.warns),
                Ok(qs) => out(
                    match k {
                        Some(kk) => spec_fn_call_for_dialect(name@, ok_frags(qs), kk),
                        None => spec_fn_call(name@, ok_frags(qs)),
                    },
                    l.warns,
                ),
            }
        },
        ExprNode::Arith { left, op, right } => bin(
            spec_eval(*left, k, collect),
            spec_eval(*right, k, collect),
            |x: QueryView, y: QueryView| match k {
                Some(kk) => spec_arith_for_dialect(Ok(x), op@, Ok(y), kk),
                None => spec_arith(Ok(x), op@, Ok(y)),
            },
        ),
        ExprNode::Case { branches, else_val } => {
            let b = eval_branches(branches@, k, collect);
            match b.res {
                Err(e) => out(Err(e), b.warns),
                Ok(pairs) => {
                    let fp = pair_frags(pairs);
                    match else_val {
                        None => out(spec_scalar_case(fp, None), b.warns),
                        Some(e) => {
                            let eo = spec_eval(*e, k, collect);
                            match eo.res {
                                Err(m) => out(Err(m), b.warns + eo.warns),
                                Ok(ev) => out(spec_scalar_case(fp, Some(Ok(ev))), b.warns + eo.warns),
                            }
                        },
                    }
                },
            }
        },
        ExprNode::Over { expr, partition_by, order_by, dialect } => {
            let p = key_of_name(dialect@);
            out(
                match *expr {
                    ExprNode::FnCall { name, args } => match spec_validate_window(p, name@) {
                        Err(e) => Err(e),
                        Ok(_) => match spec_eval(*expr, Some(p), false).res {
                            Err(e) => Err(e),
                            Ok(fq) => match eval_nodes(partition_by@, Some(p), false).res {
                                Err(e) => Err(e),
                                Ok(pq) => match eval_orders(order_by@, Some(p)).res {
                                    Err(e) => Err(e),
                                    Ok(items) => spec_over(fq, pq, items, p),
                                },
                            },
                        },
                    },
                    _ => Err(over_requires_function_msg()),
                },
                Seq::empty(),
            )
        },
    }
}

/// Evaluation of a list of nodes, in order.
pub open spec fn eval_nodes(nodes: Seq<ExprNode>, k: Option<DialectKey>, collect: bool) -> ListOut<QueryView>
    decreases nodes,
{
    if nodes.len() == 0 {
        ListOut { res: Ok(Seq::empty()), warns: Seq::empty() }
    } else {
        let p = eval_nodes(nodes.drop_last(), k, collect);
        match p.res {
            Err(_) => p,
            Ok(qs) => {
                let o = spec_eval(nodes.last(), k, collect);
                match o.res {
                    Err(e) => ListOut { res: Err(e), warns: p.warns + o.warns },
                    Ok(q) => ListOut { res: Ok(qs.push(q)), warns: p.warns + o.warns },
                }
            },
        }
    }
}

/// Evaluation of template arguments: nodes are evaluated, values kept for interpolation.
pub open spec fn eval_template_exprs(es: Seq<SqlTemplateExpr>, k: Option<DialectKey>, collect: bool) -> ListOut<Frag>
    decreases es,
{
    if es.len() == 0 {
        ListOut { res: Ok(Seq::empty()), warns: Seq::empty() }
    } else {
        let p = eval_template_exprs(es.drop_last(), k, collect);
        match p.res {
            Err(_) => p,
            Ok(fs) => match es.last() {
                SqlTemplateExpr::Node(n) => {
                    let o = spec_eval(n, k, collect);
                    match o.res {
                        Err(e) => ListOut { res: Err(e), warns: p.warns + o.warns },
                        Ok(q) => ListOut { res: Ok(fs.push(Ok(q))), warns: p.warns + o.warns },
                    }
                },
                SqlTemplateExpr::Value(v) => ListOut { res: Ok(fs.push(spec_fragment(v))), warns: p.warns },
            },
        }
    }
}

/// Evaluation of CASE branches: each WHEN, then its THEN.
pub open spec fn eval_branches(bs: Seq<CaseBranch>, k: Option<DialectKey>, collect: bool) -> ListOut<(QueryView, QueryView)>
    decreases bs,
{
    if bs.len() == 0 {
        ListOut { res: Ok(Seq::empty()), warns: Seq::empty() }
    } else {
        let p = eval_branches(bs.drop_last(), k, collect);
        match p.res {
            Err(_) => p,
            Ok(ps) => {
                let w = spec_eval(bs.last().when, k, collect);
                match w.res {
                    Err(e) => ListOut { res: Err(e), warns: p.warns + w.warns },
                    Ok(wq) => {
                        let t = spec_eval(bs.last().result, k, collect);
                        match t.res {
                            Err(e) => ListOut { res: Err(e), warns: p.warns + w.warns + t.warns },
                            Ok(tq) => ListOut { res: Ok(ps.push((wq, tq))), warns: p.warns + w.warns + t.warns },
                        }
                    },
                }
            },
        }
    }
}

/// `s` uppercased (Unicode), if present.
pub open spec fn upper_opt(s: Option<String>) -> Option<Seq<char>> {
    match s {
        Some(x) => Some(unicode_upper(x@)),
        None => None,
    }
}

/// Evaluation of window ORDER BY items (no warnings are collected inside OVER).
pub open spec fn eval_orders(os: Seq<WindowOrderNode>, k: Option<DialectKey>) -> ListOut<WindowItemView>
    decreases os,
{
    if os.len() == 0 {
        ListOut { res: Ok(Seq::empty()), warns: Seq::empty() }
    } else {
        let p = eval_orders(os.drop_last(), k);
        match p.res {
            Err(_) => p,
            Ok(items) => {
                let last = os.last();
                match spec_eval(last.expression, k, false).res {
                    Err(e) => ListOut { res: Err(e), warns: p.warns },
                    Ok(q) => ListOut {
                        res: Ok(items.push(WindowItemView { expression: q, direction: upper_opt(last.direction), nulls: upper_opt(last.nulls) })),
                        warns: p.warns,
                    },
                }
            },
        }
    }
}

// ─── Warning collection ──────────────────────────────────────────────────────

/// The dialect key of an optional dialect.
pub open spec fn opt_key(k: Option<&Dialect>) -> Option<DialectKey> {
    match k {
        Some(d) => Some(dialect_key(*d)),
        None => None,
    }
}

/// `after` is `before` with the warnings `w` appended (a missing collector stays missing).
pub open spec fn ctx_extended(before: Option<WarningsCtx>, after: Option<WarningsCtx>, w: Seq<WarningView>) -> bool {
    match (before, after) {
        (None, None) => true,
        (Some(a), Some(b)) => b.strict == a.strict && warning_views(b.warnings@) == warning_views(a.warnings@) + w,
        _ => false,
    }
}

proof fn lemma_ctx_step(a: Option<WarningsCtx>, b: Option<WarningsCtx>, c: Option<WarningsCtx>, w1: Seq<WarningView>, w2: Seq<WarningView>)
    requires
        ctx_extended(a, b, w1),
        ctx_extended(b, c, w2),
    ensures
        ctx_extended(a, c, w1 + w2),
{
    if a is Some {
        assert(warning_views(a->0.warnings@) + w1 + w2 =~= warning_views(a->0.warnings@) + (w1 + w2));
    }
}

proof fn lemma_ctx_refl(a: Option<WarningsCtx>)
    ensures
        ctx_extended(a, a, Seq::empty()),
{
    if a is Some {
        assert(warning_views(a->0.warnings@) + Seq::<WarningView>::empty() =~= warning_views(a->0.warnings@));
    }
}

/// Records `w` in the collector, if there is one.
fn record_warning(ctx: &mut Option<WarningsCtx>, w: DialectWarning)
    ensures
        ctx_extended(*old(ctx), *final(ctx), if (*old(ctx)) is Some { seq![w@] } else { Seq::empty() }),
{
    match ctx.take() {
        Some(c) => {
            let mut c = c;
            let ghost before = c.warnings@;
            c.warnings.push(w);
            assert(warning_views(c.warnings@) =~= warning_views(before) + seq![w@]);
            *ctx = Some(c);
        },
        None => {},
    }
}

/// The warning for an ILIKE / NOT ILIKE rewrite on `d`.
fn ilike_warning_for(d: &Dialect, negated: bool) -> (w: DialectWarning)
    ensures
        w@ == ilike_warning(dialect_key(*d).name, negated),
{
    let name = d.as_str();
    let mut message = if negated {
        String::from_str("NOT ILIKE is not supported by dialect \"")
    } else {
        String::from_str("ILIKE is not supported by dialect \"")
    };
    push_str(&mut message, name);
    if negated {
        push_str(&mut message, "\"; rewritten as LOWER(value) NOT LIKE LOWER(pattern)");
    } else {
        push_str(&mut message, "\"; rewritten as LOWER(value) LIKE LOWER(pattern)");
    }
    DialectWarning { feature: String::from_str("ILIKE"), dialect: String::from_str(name), message }
}

// ─── Evaluation ──────────────────────────────────────────────────────────────

/// Evaluates one node.
pub(crate) fn eval_node(node: &ExprNode, k: Option<&Dialect>, ctx: &mut Option<WarningsCtx>) -> (r: Result<SqlQuery, String>)
    ensures
        outcome_is(r, spec_eval(*node, opt_key(k), (*old(ctx)) is Some).res),
        ctx_extended(*old(ctx), *final(ctx), spec_eval(*node, opt_key(k), (*old(ctx)) is Some).warns),
    decreases node, 1nat,
{
    proof {
        reveal(spec_eval);
    }
    proof {
        lemma_ctx_refl(*ctx);
    }
    match node {
        ExprNode::Ref { parts } => {
            let id = match identifier(copy_strings(parts)) {
                Ok(id) => id,
                Err(e) => return Err(e),
            };
            to_query_fragment(&SqlValue::Identifier(id))
        },
        ExprNode::Excluded { column } => {
            let mut v: Vec<String> = Vec::new();
            v.push(column.clone());
            assert(v.deep_view() =~= seq![column@]);
            let id = match identifier(v) {
                Ok(id) => id,
                Err(e) => return Err(e),
            };
            let strings = chunks2("excluded.", "");
            let exprs = values1(SqlValue::Identifier(id));
            proof {
                assert(fragments(exprs@) =~= seq![ref_fragment(seq![column@])]);
            }
            sql(strings, exprs)
        },
        ExprNode::Val { value } => to_query_fragment(&SqlValue::Primitive(value.copy())),
        ExprNode::Raw { text } => Ok(SqlQuery { text: text.clone(), raw: text.clone(), values: Vec::new() }),
        ExprNode::Query { query } => Ok(query.copy()),
        ExprNode::Exists { query } => exists_sql(query.copy()),
        ExprNode::NotExists { query } => not_exists_sql(query.copy()),
        ExprNode::Cmp { .. } => eval_binary(node, k, ctx),
        ExprNode::Arith { .. } => eval_binary(node, k, ctx),
        ExprNode::Like { .. } => eval_binary(node, k, ctx),
        ExprNode::NotLike { .. } => eval_binary(node, k, ctx),
        ExprNode::Ilike { .. } => eval_binary(node, k, ctx),
        ExprNode::NotIlike { .. } => eval_binary(node, k, ctx),
        ExprNode::IsNull { .. } => eval_unary(node, k, ctx),
        ExprNode::IsNotNull { .. } => eval_unary(node, k, ctx),
        ExprNode::InArray { .. } => eval_unary(node, k, ctx),
        ExprNode::NotInArray { .. } => eval_unary(node, k, ctx),
        ExprNode::Between { .. } => eval_ternary(node, k, ctx),
        ExprNode::NotBetween { .. } => eval_ternary(node, k, ctx),
        ExprNode::And { .. } => eval_conditions(node, k, ctx),
        ExprNode::Or { .. } => eval_conditions(node, k, ctx),
        ExprNode::FnCall { .. } => eval_conditions(node, k, ctx),
        ExprNode::SqlTemplate { .. } => eval_template(node, k, ctx),
        ExprNode::Case { .. } => eval_case(node, k, ctx),
        ExprNode::Over { .. } => eval_over(node, k, ctx),
    }
}

/// ILIKE / NOT ILIKE over evaluated operands: native where the dialect has it, else
/// rewritten over `LOWER(..)` with a warning recorded.
fn ilike_finish(x: SqlQuery, y: SqlQuery, k: Option<&Dialect>, ctx: &mut Option<WarningsCtx>, negated: bool) -> (r: Result<SqlQuery, String>)
    ensures
        outcome_is(r, if ilike_native(opt_key(k)) {
            spec_infix(Ok(x@), if negated { " NOT ILIKE "@ } else { " ILIKE "@ }, Ok(y@))
        } else {
            spec_lowered(Ok(x@), if negated { " NOT LIKE "@ } else { " LIKE "@ }, Ok(y@))
        }),
        ctx_extended(*old(ctx), *final(ctx), if !ilike_native(opt_key(k)) && (*old(ctx)) is Some {
            seq![ilike_warning(opt_key(k)->0.name, negated)]
        } else {
            Seq::empty()
        }),
{
    proof {
        lemma_ctx_refl(*ctx);
    }
    let native = match k {
        Some(d) => match classify(d, DialectFeature::Ilike) {
            DialectPolicy::DialectRender => true,
            _ => false,
        },
        None => true,
    };
    if native {
        if negated {
            not_ilike_sql(SqlValue::Query(x), SqlValue::Query(y))
        } else {
            ilike_sql(SqlValue::Query(x), SqlValue::Query(y))
        }
    } else {
        match k {
            Some(d) => record_warning(ctx, ilike_warning_for(d, negated)),
            None => {},
        }
        if negated {
            not_ilike_rewrite_sql(SqlValue::Query(x), SqlValue::Query(y))
        } else {
            ilike_rewrite_sql(SqlValue::Query(x), SqlValue::Query(y))
        }
    }
}

/// Evaluates a node with two operands.
fn eval_binary(node: &ExprNode, k: Option<&Dialect>, ctx: &mut Option<WarningsCtx>) -> (r: Result<SqlQuery, String>)
    requires
        node is Cmp || node is Arith || node is Like || node is NotLike || node is Ilike || node is NotIlike,
    ensures
        outcome_is(r, spec_eval(*node, opt_key(k), (*old(ctx)) is Some).res),
        ctx_extended(*old(ctx), *final(ctx), spec_eval(*node, opt_key(k), (*old(ctx)) is Some).warns),
    decreases node, 0nat,
{
    proof {
        reveal(spec_eval);
    }
    let ghost kk = opt_key(k);
    let ghost collect = (*ctx) is Some;
    let ghost c0 = *ctx;
    let (a, b): (&ExprNode, &ExprNode) = match node {
        ExprNode::Cmp { left, op: _, right } => (&**left, &**right),
        ExprNode::Arith { left, op: _, right } => (&**left, &**right),
        ExprNode::Like { value, pattern } => (&**value, &**pattern),
        ExprNode::NotLike { value, pattern } => (&**value, &**pattern),
        ExprNode::Ilike { value, pattern } => (&**value, &**pattern),
        ExprNode::NotIlike { value, pattern } => (&**value, &**pattern),
        _ => {
            assert(false);
            (node, node)
        },
    };
    let x = match eval_node(a, k, ctx) {
        Ok(q) => q,
        Err(e) => return Err(e),
    };
    let ghost c1 = *ctx;
    let y = match eval_node(b, k, ctx) {
        Ok(q) => q,
        Err(e) => {
            proof {
                lemma_ctx_step(c0, c1, *ctx, spec_eval(*a, kk, collect).warns, spec_eval(*b, kk, collect).warns);
            }
            return Err(e);
        },
    };
    let ghost c2 = *ctx;
    proof {
        lemma_ctx_step(c0, c1, c2, spec_eval(*a, kk, collect).warns, spec_eval(*b, kk, collect).warns);
    }
    match node {
        ExprNode::Cmp { left: _, op, right: _ } => match k {
            Some(d) => cmp_for_dialect(SqlValue::Query(x), op.clone(), SqlValue::Query(y), d),
            None => cmp(SqlValue::Query(x), op.clone(), SqlValue::Query(y)),
        },
        ExprNode::Arith { left: _, op, right: _ } => match k {
            Some(d) => arith_binary_for_dialect(SqlValue::Query(x), op.clone(), SqlValue::Query(y), d),
            None => arith_binary(SqlValue::Query(x), op.clone(), SqlValue::Query(y)),
        },
        ExprNode::Like { .. } => like_sql(SqlValue::Query(x), SqlValue::Query(y)),
        ExprNode::NotLike { .. } => not_like_sql(SqlValue::Query(x), SqlValue::Query(y)),
        ExprNode::Ilike { .. } => {
            let r = ilike_finish(x, y, k, ctx, false);
            proof {
                lemma_ctx_step(c0, c2, *ctx, spec_eval(*a, kk, collect).warns + spec_eval(*b, kk, collect).warns,
                    if !ilike_native(kk) && collect { seq![ilike_warning(kk->0.name, false)] } else { Seq::empty() });
            }
            r
        },
        _ => {
            let r = ilike_finish(x, y, k, ctx, true);
            proof {
                lemma_ctx_step(c0, c2, *ctx, spec_eval(*a, kk, collect).warns + spec_eval(*b, kk, collect).warns,
                    if !ilike_native(kk) && collect { seq![ilike_warning(kk->0.name, true)] } else { Seq::empty() });
            }
            r
        },
    }
}

/// `value [NOT] IN (…)` over an evaluated value.
fn in_items(x: SqlQuery, items: &InArrayItems, negated: bool) -> (r: Result<SqlQuery, String>)
    ensures
        outcome_is(r, match *items {
            InArrayItems::Primitives(ps) => spec_in_list(Ok(x@), if negated { " NOT IN ("@ } else { " IN ("@ }, primitive_frags(ps@)),
            InArrayItems::Query(q) => surfaced(sql_frags(seq![""@, if negated { " NOT IN ("@ } else { " IN ("@ }, ")"@], seq![Ok(x@), Ok(q@)])),
        }),
{
    match items {
        InArrayItems::Primitives(ps) => {
            let mut vals: Vec<SqlValue> = Vec::new();
            for i in 0..ps.len()
                invariant
                    vals@.len() == i,
                    fragments(vals@) == primitive_frags(ps@).take(i as int),
            {
                vals.push(SqlValue::Primitive(ps[i].copy()));
                assert(fragments(vals@) =~= primitive_frags(ps@).take(i + 1));
            }
            assert(primitive_frags(ps@).take(ps.len() as int) =~= primitive_frags(ps@));
            if negated {
                not_in_array(SqlValue::Query(x), vals)
            } else {
                in_array(SqlValue::Query(x), vals)
            }
        },
        InArrayItems::Query(q) => {
            let ghost xv = x@;
            let strings = if negated { chunks3("", " NOT IN (", ")") } else { chunks3("", " IN (", ")") };
            let exprs = values2(SqlValue::Query(x), SqlValue::Query(q.copy()));
            proof {
                assert(fragments(exprs@) =~= seq![Ok::<QueryView, Seq<char>>(xv), Ok::<QueryView, Seq<char>>(q@)]);
            }
            sql(strings, exprs)
        },
    }
}

/// Evaluates a node with one operand.
fn eval_unary(node: &ExprNode, k: Option<&Dialect>, ctx: &mut Option<WarningsCtx>) -> (r: Result<SqlQuery, String>)
    requires
        node is IsNull || node is IsNotNull || node is InArray || node is NotInArray,
    ensures
        outcome_is(r, spec_eval(*node, opt_key(k), (*old(ctx)) is Some).res),
        ctx_extended(*old(ctx), *final(ctx), spec_eval(*node, opt_key(k), (*old(ctx)) is Some).warns),
    decreases node, 0nat,
{
    proof {
        reveal(spec_eval);
    }
    let a: &ExprNode = match node {
        ExprNode::IsNull { value } => &**value,
        ExprNode::IsNotNull { value } => &**value,
        ExprNode::InArray { value, items: _ } => &**value,
        ExprNode::NotInArray { value, items: _ } => &**value,
        _ => {
            assert(false);
            node
        },
    };
    let x = match eval_node(a, k, ctx) {
        Ok(q) => q,
        Err(e) => return Err(e),
    };
    match node {
        ExprNode::IsNull { .. } => is_null(SqlValue::Query(x)),
        ExprNode::IsNotNull { .. } => is_not_null(SqlValue::Query(x)),
        ExprNode::InArray { value: _, items } => in_items(x, items, false),
        ExprNode::NotInArray { value: _, items } => in_items(x, items, true),
        _ => {
            assert(false);
            Err(String::new())
        },
    }
}

/// Evaluates BETWEEN / NOT BETWEEN.
fn eval_ternary(node: &ExprNode, k: Option<&Dialect>, ctx: &mut Option<WarningsCtx>) -> (r: Result<SqlQuery, String>)
    requires
        node is Between || node is NotBetween,
    ensures
        outcome_is(r, spec_eval(*node, opt_key(k), (*old(ctx)) is Some).res),
        ctx_extended(*old(ctx), *final(ctx), spec_eval(*node, opt_key(k), (*old(ctx)) is Some).warns),
    decreases node, 0nat,
{
    proof {
        reveal(spec_eval);
    }
    let ghost kk = opt_key(k);
    let ghost collect = (*ctx) is Some;
    let ghost c0 = *ctx;
    let (a, b, c): (&ExprNode, &ExprNode, &ExprNode) = match node {
        ExprNode::Between { value, lower, upper } => (&**value, &**lower, &**upper),
        ExprNode::NotBetween { value, lower, upper } => (&**value, &**lower, &**upper),
        _ => {
            assert(false);
            (node, node, node)
        },
    };
    let ghost wa = spec_eval(*a, kk, collect).warns;
    let ghost wb = spec_eval(*b, kk, collect).warns;
    let ghost wc = spec_eval(*c, kk, collect).warns;
    let x = match eval_node(a, k, ctx) {
        Ok(q) => q,
        Err(e) => return Err(e),
    };
    let ghost c1 = *ctx;
    let y = match eval_node(b, k, ctx) {
        Ok(q) => q,
        Err(e) => {
            proof {
                lemma_ctx_step(c0, c1, *ctx, wa, wb);
            }
            return Err(e);
        },
    };
    let ghost c2 = *ctx;
    proof {
        lemma_ctx_step(c0, c1, c2, wa, wb);
    }
    let z = match eval_node(c, k, ctx) {
        Ok(q) => q,
        Err(e) => {
            proof {
                lemma_ctx_step(c0, c2, *ctx, wa + wb, wc);
            }
            return Err(e);
        },
    };
    proof {
        lemma_ctx_step(c0, c2, *ctx, wa + wb, wc);
    }
    match node {
        ExprNode::Between { .. } => between(SqlValue::Query(x), SqlValue::Query(y), SqlValue::Query(z)),
        _ => not_between(SqlValue::Query(x), SqlValue::Query(y), SqlValue::Query(z)),
    }
}

// ─── Lists of nodes ──────────────────────────────────────────────────────────

/// The views of a list of fragments.
pub open spec fn views(v: Seq<SqlQuery>) -> Seq<QueryView> {
    v.map_values(|q: SqlQuery| q@)
}

pub(crate) proof fn lemma_lists_base(k: Option<DialectKey>, collect: bool)
    ensures
        eval_nodes(Seq::empty(), k, collect) == (ListOut::<QueryView> { res: Ok(Seq::empty()), warns: Seq::empty() }),
        eval_template_exprs(Seq::empty(), k, collect) == (ListOut::<Frag> { res: Ok(Seq::empty()), warns: Seq::empty() }),
        eval_branches(Seq::empty(), k, collect) == (ListOut::<(QueryView, QueryView)> { res: Ok(Seq::empty()), warns: Seq::empty() }),
        eval_orders(Seq::empty(), k) == (ListOut::<WindowItemView> { res: Ok(Seq::empty()), warns: Seq::empty() }),
{
    reveal(spec_eval);
}

pub(crate) proof fn lemma_nodes_step(s: Seq<ExprNode>, k: Option<DialectKey>, collect: bool, i: int)
    requires
        0 <= i < s.len(),
    ensures
        eval_nodes(s.take(i + 1), k, collect) == ({
            let p = eval_nodes(s.take(i), k, collect);
            match p.res {
                Err(_) => p,
                Ok(qs) => {
                    let o = spec_eval(s[i], k, collect);
                    match o.res {
                        Err(e) => ListOut { res: Err(e), warns: p.warns + o.warns },
                        Ok(q) => ListOut { res: Ok(qs.push(q)), warns: p.warns + o.warns },
                    }
                },
            }
        }),
{
    reveal(spec_eval);
    assert(s.take(i + 1).drop_last() =~= s.take(i));
    assert(s.take(i + 1).last() == s[i]);
}

pub(crate) proof fn lemma_template_step(s: Seq<SqlTemplateExpr>, k: Option<DialectKey>, collect: bool, i: int)
    requires
        0 <= i < s.len(),
    ensures
        eval_template_exprs(s.take(i + 1), k, collect) == ({
            let p = eval_template_exprs(s.take(i), k, collect);
            match p.res {
                Err(_) => p,
                Ok(fs) => match s[i] {
                    SqlTemplateExpr::Node(n) => {
                        let o = spec_eval(n, k, collect);
                        match o.res {
                            Err(e) => ListOut { res: Err(e), warns: p.warns + o.warns },
                            Ok(q) => ListOut { res: Ok(fs.push(Ok(q))), warns: p.warns + o.warns },
                        }
                    },
                    SqlTemplateExpr::Value(v) => ListOut { res: Ok(fs.push(spec_fragment(v))), warns: p.warns },
                },
            }
        }),
{
    reveal(spec_eval);
    assert(s.take(i + 1).drop_last() =~= s.take(i));
    assert(s.take(i + 1).last() == s[i]);
}

pub(crate) proof fn lemma_branches_step(s: Seq<CaseBranch>, k: Option<DialectKey>, collect: bool, i: int)
    requires
        0 <= i < s.len(),
    ensures
        eval_branches(s.take(i + 1), k, collect) == ({
            let p = eval_branches(s.take(i), k, collect);
            match p.res {
                Err(_) => p,
                Ok(ps) => {
                    let w = spec_eval(s[i].when, k, collect);
                    match w.res {
                        Err(e) => ListOut { res: Err(e), warns: p.warns + w.warns },
                        Ok(wq) => {
                            let t = spec_eval(s[i].result, k, collect);
                            match t.res {
                                Err(e) => ListOut { res: Err(e), warns: p.warns + w.warns + t.warns },
                                Ok(tq) => ListOut { res: Ok(ps.push((wq, tq))), warns: p.warns + w.warns + t.warns },
                            }
                        },
                    }
                },
            }
        }),
{
    reveal(spec_eval);
    assert(s.take(i + 1).drop_last() =~= s.take(i));
    assert(s.take(i + 1).last() == s[i]);
}

pub(crate) proof fn lemma_orders_step(s: Seq<WindowOrderNode>, k: Option<DialectKey>, i: int)
    requires
        0 <= i < s.len(),
    ensures
        eval_orders(s.take(i + 1), k) == ({
            let p = eval_orders(s.take(i), k);
            match p.res {
                Err(_) => p,
                Ok(items) => match spec_eval(s[i].expression, k, false).res {
                    Err(e) => ListOut { res: Err(e), warns: p.warns },
                    Ok(q) => ListOut {
                        res: Ok(items.push(WindowItemView { expression: q, direction: upper_opt(s[i].direction), nulls: upper_opt(s[i].nulls) })),
                        warns: p.warns,
                    },
                },
            }
        }),
{
    reveal(spec_eval);
    assert(s.take(i + 1).drop_last() =~= s.take(i));
    assert(s.take(i + 1).last() == s[i]);
}

proof fn lemma_nodes_err_stays(s: Seq<ExprNode>, k: Option<DialectKey>, collect: bool, i: int, j: int)
    requires
        0 <= i <= j <= s.len(),
        eval_nodes(s.take(i), k, collect).res is Err,
    ensures
        eval_nodes(s.take(j), k, collect) == eval_nodes(s.take(i), k, collect),
    decreases j - i,
{
    reveal(spec_eval);
    if j > i {
        lemma_nodes_err_stays(s, k, collect, i, j - 1);
        assert(s.take(j).drop_last() =~= s.take(j - 1));
    }
}

proof fn lemma_nodes_err_final(s: Seq<ExprNode>, k: Option<DialectKey>, collect: bool, i: int)
    requires
        0 <= i < s.len(),
        eval_nodes(s.take(i), k, collect).res is Ok,
        spec_eval(s[i], k, collect).res is Err,
    ensures
        eval_nodes(s, k, collect) == (ListOut::<QueryView> {
            res: Err(spec_eval(s[i], k, collect).res->Err_0),
            warns: eval_nodes(s.take(i), k, collect).warns + spec_eval(s[i], k, collect).warns,
        }),
{
    lemma_nodes_step(s, k, collect, i);
    lemma_nodes_err_stays(s, k, collect, i + 1, s.len() as int);
    assert(s.take(s.len() as int) =~= s);
}

proof fn lemma_template_err_final(s: Seq<SqlTemplateExpr>, k: Option<DialectKey>, collect: bool, i: int)
    requires
        0 <= i < s.len(),
        eval_template_exprs(s.take(i), k, collect).res is Ok,
        s[i] matches SqlTemplateExpr::Node(n) && spec_eval(n, k, collect).res is Err,
    ensures
        eval_template_exprs(s, k, collect) == (ListOut::<Frag> {
            res: Err(spec_eval(s[i]->Node_0, k, collect).res->Err_0),
            warns: eval_template_exprs(s.take(i), k, collect).warns + spec_eval(s[i]->Node_0, k, collect).warns,
        }),
{
    lemma_template_step(s, k, collect, i);
    lemma_template_err_stays(s, k, collect, i + 1, s.len() as int);
    assert(s.take(s.len() as int) =~= s);
}

proof fn lemma_branches_err_final(s: Seq<CaseBranch>, k: Option<DialectKey>, collect: bool, i: int)
    requires
        0 <= i < s.len(),
        eval_branches(s.take(i), k, collect).res is Ok,
        spec_eval(s[i].when, k, collect).res is Err || spec_eval(s[i].result, k, collect).res is Err,
    ensures
        spec_eval(s[i].when, k, collect).res is Err ==> eval_branches(s, k, collect) == (ListOut::<(QueryView, QueryView)> {
            res: Err(spec_eval(s[i].when, k, collect).res->Err_0),
            warns: eval_branches(s.take(i), k, collect).warns + spec_eval(s[i].when, k, collect).warns,
        }),
        spec_eval(s[i].when, k, collect).res is Ok ==> eval_branches(s, k, collect) == (ListOut::<(QueryView, QueryView)> {
            res: Err(spec_eval(s[i].result, k, collect).res->Err_0),
            warns: eval_branches(s.take(i), k, collect).warns + spec_eval(s[i].when, k, collect).warns
                + spec_eval(s[i].result, k, collect).warns,
        }),
{
    lemma_branches_step(s, k, collect, i);
    lemma_branches_err_stays(s, k, collect, i + 1, s.len() as int);
    assert(s.take(s.len() as int) =~= s);
}

proof fn lemma_orders_err_final(s: Seq<WindowOrderNode>, k: Option<DialectKey>, i: int)
    requires
        0 <= i < s.len(),
        eval_orders(s.take(i), k).res is Ok,
        spec_eval(s[i].expression, k, false).res is Err,
    ensures
        eval_orders(s, k).res == Err::<Seq<WindowItemView>, Seq<char>>(spec_eval(s[i].expression, k, false).res->Err_0),
{
    lemma_orders_step(s, k, i);
    lemma_orders_err_stays(s, k, i + 1, s.len() as int);
    assert(s.take(s.len() as int) =~= s);
}

/// Evaluates a list of nodes in order, stopping at the first error.
#[verifier::spinoff_prover]
fn eval_list(nodes: &Vec<ExprNode>, k: Option<&Dialect>, ctx: &mut Option<WarningsCtx>) -> (r: Result<Vec<SqlQuery>, String>)
    ensures
        match eval_nodes(nodes@, opt_key(k), (*old(ctx)) is Some).res {
            Ok(qs) => r matches Ok(v) && views(v@) == qs,
            Err(m) => r matches Err(e) && e@ == m,
        },
        ctx_extended(*old(ctx), *final(ctx), eval_nodes(nodes@, opt_key(k), (*old(ctx)) is Some).warns),
    decreases nodes, 0nat,
{
    let ghost kk = opt_key(k);
    let ghost collect = (*ctx) is Some;
    let ghost c0 = *ctx;
    proof {
        lemma_ctx_refl(c0);
        assert(nodes@.take(0) =~= Seq::<ExprNode>::empty());
        lemma_lists_base(kk, collect);
    }
    let mut out: Vec<SqlQuery> = Vec::new();
    assert(views(out@) =~= Seq::<QueryView>::empty());
    let mut i: usize = 0;
    while i < nodes.len()
        invariant
            i <= nodes.len(),
            kk == opt_key(k),
            collect == (c0 is Some),
            c0 == *old(ctx),
            eval_nodes(nodes@.take(i as int), kk, collect).res == Ok::<Seq<QueryView>, Seq<char>>(views(out@)),
            ctx_extended(c0, *ctx, eval_nodes(nodes@.take(i as int), kk, collect).warns),
        decreases nodes.len() - i,
    {
        let ghost ci = *ctx;
        let ghost pre = eval_nodes(nodes@.take(i as int), kk, collect);
        let ghost old_out = out@;
        proof {
            lemma_nodes_step(nodes@, kk, collect, i as int);
        }
        match eval_node(&nodes[i], k, ctx) {
            Ok(q) => {
                proof {
                    lemma_ctx_step(c0, ci, *ctx, pre.warns, spec_eval(nodes@[i as int], kk, collect).warns);
                }
                out.push(q);
                assert(views(out@) =~= views(old_out).push(q@));
            },
            Err(e) => {
                proof {
                    lemma_ctx_step(c0, ci, *ctx, pre.warns, spec_eval(nodes@[i as int], kk, collect).warns);
                    lemma_nodes_err_final(nodes@, kk, collect, i as int);
                }
                return Err(e);
            },
        }
        i = i + 1;
    }
    proof {
        assert(nodes@.take(nodes.len() as int) =~= nodes@);
    }
    Ok(out)
}

/// Each fragment as a value to interpolate.
fn query_values(qs: Vec<SqlQuery>) -> (r: Vec<SqlValue>)
    ensures
        fragments(r@) == ok_frags(views(qs@)),
{
    let mut r: Vec<SqlValue> = Vec::new();
    for i in 0..qs.len()
        invariant
            r@.len() == i,
            fragments(r@) == ok_frags(views(qs@)).take(i as int),
    {
        r.push(SqlValue::Query(qs[i].copy()));
        assert(fragments(r@) =~= ok_frags(views(qs@)).take(i + 1));
    }
    assert(ok_frags(views(qs@)).take(qs.len() as int) =~= ok_frags(views(qs@)));
    r
}

/// Evaluates AND / OR / a function call.
fn eval_conditions(node: &ExprNode, k: Option<&Dialect>, ctx: &mut Option<WarningsCtx>) -> (r: Result<SqlQuery, String>)
    requires
        node is And || node is Or || node is FnCall,
    ensures
        outcome_is(r, spec_eval(*node, opt_key(k), (*old(ctx)) is Some).res),
        ctx_extended(*old(ctx), *final(ctx), spec_eval(*node, opt_key(k), (*old(ctx)) is Some).warns),
    decreases node, 0nat,
{
    proof {
        reveal(spec_eval);
    }
    let nodes: &Vec<ExprNode> = match node {
        ExprNode::And { conditions } => conditions,
        ExprNode::Or { conditions } => conditions,
        ExprNode::FnCall { name: _, args } => args,
        _ => {
            assert(false);
            return Err(String::new());
        },
    };
    let qs = match eval_list(nodes, k, ctx) {
        Ok(v) => v,
        Err(e) => return Err(e),
    };
    let vals = query_values(qs);
    match node {
        ExprNode::And { .. } => and(vals),
        ExprNode::Or { .. } => or(vals),
        ExprNode::FnCall { name, args: _ } => match k {
            Some(d) => fn_call_for_dialect(name.clone(), vals, d),
            None => fn_call(name.clone(), vals),
        },
        _ => {
            assert(false);
            Err(String::new())
        },
    }
}

proof fn lemma_template_err_stays(s: Seq<SqlTemplateExpr>, k: Option<DialectKey>, collect: bool, i: int, j: int)
    requires
        0 <= i <= j <= s.len(),
        eval_template_exprs(s.take(i), k, collect).res is Err,
    ensures
        eval_template_exprs(s.take(j), k, collect) == eval_template_exprs(s.take(i), k, collect),
    decreases j - i,
{
    reveal(spec_eval);
    if j > i {
        lemma_template_err_stays(s, k, collect, i, j - 1);
        assert(s.take(j).drop_last() =~= s.take(j - 1));
    }
}

/// Evaluates template arguments in order, stopping at the first error.
#[verifier::spinoff_prover]
fn eval_template_list(es: &Vec<SqlTemplateExpr>, k: Option<&Dialect>, ctx: &mut Option<WarningsCtx>) -> (r: Result<Vec<SqlValue>, String>)
    ensures
        match eval_template_exprs(es@, opt_key(k), (*old(ctx)) is Some).res {
            Ok(fs) => r matches Ok(v) && fragments(v@) == fs,
            Err(m) => r matches Err(e) && e@ == m,
        },
        ctx_extended(*old(ctx), *final(ctx), eval_template_exprs(es@, opt_key(k), (*old(ctx)) is Some).warns),
    decreases es, 0nat,
{
    let ghost kk = opt_key(k);
    let ghost collect = (*ctx) is Some;
    let ghost c0 = *ctx;
    proof {
        lemma_ctx_refl(c0);
        assert(es@.take(0) =~= Seq::<SqlTemplateExpr>::empty());
        lemma_lists_base(kk, collect);
    }
    let mut out: Vec<SqlValue> = Vec::new();
    assert(fragments(out@) =~= Seq::<Frag>::empty());
    let mut i: usize = 0;
    while i < es.len()
        invariant
            i <= es.len(),
            kk == opt_key(k),
            collect == (c0 is Some),
            c0 == *old(ctx),
            eval_template_exprs(es@.take(i as int), kk, collect).res == Ok::<Seq<Frag>, Seq<char>>(fragments(out@)),
            ctx_extended(c0, *ctx, eval_template_exprs(es@.take(i as int), kk, collect).warns),
        decreases es.len() - i,
    {
        let ghost ci = *ctx;
        let ghost pre = eval_template_exprs(es@.take(i as int), kk, collect);
        let ghost old_out = out@;
        proof {
            lemma_template_step(es@, kk, collect, i as int);
        }
        match &es[i] {
            SqlTemplateExpr::Node(n) => {
                match eval_node(n, k, ctx) {
                    Ok(q) => {
                        proof {
                            lemma_ctx_step(c0, ci, *ctx, pre.warns, spec_eval(*n, kk, collect).warns);
                        }
                        out.push(SqlValue::Query(q));
                        assert(fragments(out@) =~= fragments(old_out).push(Ok(q@)));
                    },
                    Err(e) => {
                        proof {
                            lemma_ctx_step(c0, ci, *ctx, pre.warns, spec_eval(*n, kk, collect).warns);
                            lemma_template_err_final(es@, kk, collect, i as int);
                        }
                        return Err(e);
                    },
                }
            },
            SqlTemplateExpr::Value(v) => {
                let c = copy_value(v);
                out.push(c);
                assert(fragments(out@) =~= fragments(old_out).push(spec_fragment(*v)));
                proof {
                    assert(pre.warns + Seq::<WarningView>::empty() =~= pre.warns);
                }
            },
        }
        i = i + 1;
    }
    proof {
        assert(es@.take(es.len() as int) =~= es@);
    }
    Ok(out)
}

/// Evaluates a deferred SQL template.
fn eval_template(node: &ExprNode, k: Option<&Dialect>, ctx: &mut Option<WarningsCtx>) -> (r: Result<SqlQuery, String>)
    requires
        node is SqlTemplate,
    ensures
        outcome_is(r, spec_eval(*node, opt_key(k), (*old(ctx)) is Some).res),
        ctx_extended(*old(ctx), *final(ctx), spec_eval(*node, opt_key(k), (*old(ctx)) is Some).warns),
    decreases node, 0nat,
{
    proof {
        reveal(spec_eval);
    }
    match node {
        ExprNode::SqlTemplate { strings, exprs } => {
            let vals = match eval_template_list(exprs, k, ctx) {
                Ok(v) => v,
                Err(e) => return Err(e),
            };
            sql(copy_strings(strings), vals)
        },
        _ => {
            assert(false);
            Err(String::new())
        },
    }
}

proof fn lemma_branches_err_stays(s: Seq<CaseBranch>, k: Option<DialectKey>, collect: bool, i: int, j: int)
    requires
        0 <= i <= j <= s.len(),
        eval_branches(s.take(i), k, collect).res is Err,
    ensures
        eval_branches(s.take(j), k, collect) == eval_branches(s.take(i), k, collect),
    decreases j - i,
{
    reveal(spec_eval);
    if j > i {
        lemma_branches_err_stays(s, k, collect, i, j - 1);
        assert(s.take(j).drop_last() =~= s.take(j - 1));
    }
}

/// Evaluates CASE branches in order: each WHEN, then its THEN.
#[verifier::spinoff_prover]
fn eval_branch_list(bs: &Vec<CaseBranch>, k: Option<&Dialect>, ctx: &mut Option<WarningsCtx>) -> (r: Result<Vec<(SqlValue, SqlValue)>, String>)
    ensures
        match eval_branches(bs@, opt_key(k), (*old(ctx)) is Some).res {
            Ok(ps) => r matches Ok(v) && branch_fragments(v@) == pair_frags(ps),
            Err(m) => r matches Err(e) && e@ == m,
        },
        ctx_extended(*old(ctx), *final(ctx), eval_branches(bs@, opt_key(k), (*old(ctx)) is Some).warns),
    decreases bs, 0nat,
{
    let ghost kk = opt_key(k);
    let ghost collect = (*ctx) is Some;
    let ghost c0 = *ctx;
    proof {
        lemma_ctx_refl(c0);
        assert(bs@.take(0) =~= Seq::<CaseBranch>::empty());
        lemma_lists_base(kk, collect);
    }
    let mut out: Vec<(SqlValue, SqlValue)> = Vec::new();
    assert(branch_fragments(out@) =~= pair_frags(Seq::empty()));
    let mut i: usize = 0;
    while i < bs.len()
        invariant
            i <= bs.len(),
            kk == opt_key(k),
            collect == (c0 is Some),
            c0 == *old(ctx),
            eval_branches(bs@.take(i as int), kk, collect).res matches Ok(ps) && branch_fragments(out@) == pair_frags(ps),
            ctx_extended(c0, *ctx, eval_branches(bs@.take(i as int), kk, collect).warns),
        decreases bs.len() - i,
    {
        let ghost ci = *ctx;
        let ghost pre = eval_branches(bs@.take(i as int), kk, collect);
        let ghost old_out = out@;
        let ghost b = bs@[i as int];
        let ghost ww = spec_eval(b.when, kk, collect).warns;
        let ghost wt = spec_eval(b.result, kk, collect).warns;
        proof {
            lemma_branches_step(bs@, kk, collect, i as int);
        }
        let w = match eval_node(&bs[i].when, k, ctx) {
            Ok(q) => q,
            Err(e) => {
                proof {
                    lemma_ctx_step(c0, ci, *ctx, pre.warns, ww);
                    lemma_branches_err_final(bs@, kk, collect, i as int);
                }
                return Err(e);
            },
        };
        let ghost cw = *ctx;
        proof {
            lemma_ctx_step(c0, ci, cw, pre.warns, ww);
        }
        let t = match eval_node(&bs[i].result, k, ctx) {
            Ok(q) => q,
            Err(e) => {
                proof {
                    lemma_ctx_step(c0, cw, *ctx, pre.warns + ww, wt);
                    lemma_branches_err_final(bs@, kk, collect, i as int);
                }
                return Err(e);
            },
        };
        proof {
            lemma_ctx_step(c0, cw, *ctx, pre.warns + ww, wt);
        }
        let ghost wv = w@;
        let ghost tv = t@;
        out.push((SqlValue::Query(w), SqlValue::Query(t)));
        proof {
            let ps = pre.res->Ok_0;
            assert(branch_fragments(out@) =~= branch_fragments(old_out).push(
                (Ok::<QueryView, Seq<char>>(wv), Ok::<QueryView, Seq<char>>(tv))));
            assert(pair_frags(ps.push((wv, tv))) =~= pair_frags(ps).push(
                (Ok::<QueryView, Seq<char>>(wv), Ok::<QueryView, Seq<char>>(tv))));
        }
        i = i + 1;
    }
    proof {
        assert(bs@.take(bs.len() as int) =~= bs@);
    }
    Ok(out)
}

/// Evaluates a CASE expression.
fn eval_case(node: &ExprNode, k: Option<&Dialect>, ctx: &mut Option<WarningsCtx>) -> (r: Result<SqlQuery, String>)
    requires
        node is Case,
    ensures
        outcome_is(r, spec_eval(*node, opt_key(k), (*old(ctx)) is Some).res),
        ctx_extended(*old(ctx), *final(ctx), spec_eval(*node, opt_key(k), (*old(ctx)) is Some).warns),
    decreases node, 0nat,
{
    proof {
        reveal(spec_eval);
    }
    let ghost kk = opt_key(k);
    let ghost collect = (*ctx) is Some;
    let ghost c0 = *ctx;
    match node {
        ExprNode::Case { branches, else_val } => {
            let ghost bw = eval_branches(branches@, kk, collect).warns;
            let pairs = match eval_branch_list(branches, k, ctx) {
                Ok(p) => p,
                Err(e) => return Err(e),
            };
            let ghost c1 = *ctx;
            let else_sql: Option<SqlValue> = match else_val {
                None => None,
                Some(e) => {
                    let ghost ew = spec_eval(**e, kk, collect).warns;
                    match eval_node(&**e, k, ctx) {
                        Ok(q) => {
                            proof {
                                lemma_ctx_step(c0, c1, *ctx, bw, ew);
                            }
                            Some(SqlValue::Query(q))
                        },
                        Err(m) => {
                            proof {
                                lemma_ctx_step(c0, c1, *ctx, bw, ew);
                            }
                            return Err(m);
                        },
                    }
                },
            };
            scalar_case(pairs, else_sql)
        },
        _ => {
            assert(false);
            Err(String::new())
        },
    }
}

proof fn lemma_orders_err_stays(s: Seq<WindowOrderNode>, k: Option<DialectKey>, i: int, j: int)
    requires
        0 <= i <= j <= s.len(),
        eval_orders(s.take(i), k).res is Err,
    ensures
        eval_orders(s.take(j), k) == eval_orders(s.take(i), k),
    decreases j - i,
{
    reveal(spec_eval);
    if j > i {
        lemma_orders_err_stays(s, k, i, j - 1);
        assert(s.take(j).drop_last() =~= s.take(j - 1));
    }
}

/// `s` uppercased, if present.
fn upper_option(s: &Option<String>) -> (r: Option<String>)
    ensures
        match r {
            Some(x) => upper_opt(*s) == Some(x@),
            None => upper_opt(*s) is None,
        },
{
    match s {
        Some(x) => Some(to_uppercase(x.as_str())),
        None => None,
    }
}

/// Evaluates window ORDER BY items; nothing is collected inside an OVER clause.
#[verifier::spinoff_prover]
fn eval_order_list(os: &Vec<WindowOrderNode>, k: Option<&Dialect>) -> (r: Result<Vec<WindowOrderItem>, String>)
    ensures
        match eval_orders(os@, opt_key(k)).res {
            Ok(items) => r matches Ok(v) && v@.map_values(|i: WindowOrderItem| i@) == items,
            Err(m) => r matches Err(e) && e@ == m,
        },
    decreases os, 0nat,
{
    let ghost kk = opt_key(k);
    proof {
        assert(os@.take(0) =~= Seq::<WindowOrderNode>::empty());
        lemma_lists_base(kk, false);
    }
    let mut out: Vec<WindowOrderItem> = Vec::new();
    assert(out@.map_values(|i: WindowOrderItem| i@) =~= Seq::<WindowItemView>::empty());
    let mut i: usize = 0;
    while i < os.len()
        invariant
            i <= os.len(),
            kk == opt_key(k),
            eval_orders(os@.take(i as int), kk).res == Ok::<Seq<WindowItemView>, Seq<char>>(out@.map_values(|i: WindowOrderItem| i@)),
        decreases os.len() - i,
    {
        let ghost old_out = out@;
        proof {
            lemma_orders_step(os@, kk, i as int);
        }
        let mut none: Option<WarningsCtx> = None;
        let q = match eval_node(&os[i].expression, k, &mut none) {
            Ok(q) => q,
            Err(e) => {
                proof {
                    lemma_orders_err_final(os@, kk, i as int);
                }
                return Err(e);
            },
        };
        let item = WindowOrderItem {
            expression: q,
            direction: upper_option(&os[i].direction),
            nulls: upper_option(&os[i].nulls),
        };
        let ghost iv = item@;
        out.push(item);
        assert(out@.map_values(|i: WindowOrderItem| i@) =~= old_out.map_values(|i: WindowOrderItem| i@).push(iv));
        i = i + 1;
    }
    proof {
        assert(os@.take(os.len() as int) =~= os@);
    }
    Ok(out)
}

/// Checks that the expression under OVER is a function call usable as a window function.
fn validate_window_function_for_dialect(dialect: &Dialect, expr: &ExprNode) -> (r: Result<(), String>)
    ensures
        match *expr {
            ExprNode::FnCall { name, args: _ } => match spec_validate_window(dialect_key(*dialect), name@) {
                Ok(_) => r is Ok,
                Err(m) => r matches Err(e) && e@ == m,
            },
            _ => r matches Err(e) && e@ == over_requires_function_msg(),
        },
{
    match expr {
        ExprNode::FnCall { name, args: _ } => match crate::expressions::validate_window_function_for_dialect(dialect, name.as_str()) {
            Ok(_) => Ok(()),
            Err(e) => Err(e),
        },
        _ => Err(String::from_str("OVER clauses require a function expression in this builder.")),
    }
}

/// Evaluates a window function call with its OVER clause, against the dialect the node names.
fn eval_over(node: &ExprNode, k: Option<&Dialect>, ctx: &mut Option<WarningsCtx>) -> (r: Result<SqlQuery, String>)
    requires
        node is Over,
    ensures
        outcome_is(r, spec_eval(*node, opt_key(k), (*old(ctx)) is Some).res),
        ctx_extended(*old(ctx), *final(ctx), spec_eval(*node, opt_key(k), (*old(ctx)) is Some).warns),
    decreases node, 0nat,
{
    proof {
        reveal(spec_eval);
    }
    proof {
        lemma_ctx_refl(*ctx);
    }
    match node {
        ExprNode::Over { expr, partition_by, order_by, dialect } => {
            let d = Dialect::parse(dialect.as_str());
            proof {
                lemma_parsed_key(d, dialect@);
            }
            match validate_window_function_for_dialect(&d, &**expr) {
                Ok(_) => {},
                Err(e) => return Err(e),
            }
            let mut none: Option<WarningsCtx> = None;
            let fq = match eval_node(&**expr, Some(&d), &mut none) {
                Ok(q) => q,
                Err(e) => return Err(e),
            };
            let pq = match eval_list(partition_by, Some(&d), &mut none) {
                Ok(v) => v,
                Err(e) => return Err(e),
            };
            let items = match eval_order_list(order_by, Some(&d)) {
                Ok(v) => v,
                Err(e) => return Err(e),
            };
            proof {
                assert(pq@.map_values(|q: SqlQuery| q@) =~= views(pq@));
            }
            over_clause(fq, pq, items, &d)
        },
        _ => {
            assert(false);
            Err(String::new())
        },
    }
}

// ─── Entry points ────────────────────────────────────────────────────────────

/// Recursively evaluate an `ExprNode` tree into a `SqlQuery`.
pub fn eval_expr(node: ExprNode) -> (r: Result<SqlQuery, String>)
    ensures
        outcome_is(r, spec_eval(node, None, false).res),
{
    let mut none: Option<WarningsCtx> = None;
    eval_node(&node, None, &mut none)
}

/// Recursively evaluate an `ExprNode` tree using dialect-aware validation.
pub fn eval_expr_for_dialect(node: ExprNode, dialect: &Dialect) -> (r: Result<SqlQuery, String>)
    ensures
        outcome_is(r, spec_eval(node, Some(dialect_key(*dialect)), false).res),
{
    let mut none: Option<WarningsCtx> = None;
    eval_node(&node, Some(dialect), &mut none)
}

/// Evaluate an `ExprNode` tree using dialect-aware validation, appending a warning to
/// the collector (if one is given) for every fallback rewrite applied.
pub fn eval_expr_for_dialect_ctx(node: ExprNode, dialect: &Dialect, warnings: &mut Option<WarningsCtx>) -> (r: Result<SqlQuery, String>)
    ensures
        outcome_is(r, spec_eval(node, Some(dialect_key(*dialect)), (*old(warnings)) is Some).res),
        ctx_extended(*old(warnings), *final(warnings), spec_eval(node, Some(dialect_key(*dialect)), (*old(warnings)) is Some).warns),
{
    eval_node(&node, Some(dialect), warnings)
}


proof fn lemma_range_text(x: QueryView, kw: Seq<char>, y: QueryView, z: QueryView)
    ensures
        spec_range(Ok(x), kw, Ok(y), Ok(z)) == Ok::<QueryView, Seq<char>>(QueryView {
            text: x.text + kw + y.text + " AND "@ + z.text,
            raw: x.raw + kw + y.raw + " AND "@ + z.raw,
            values: x.values + y.values + z.values,
        }),
{
    reveal_strlit("");
    let strings = seq![""@, kw, " AND "@, ""@];
    let frags: Seq<Frag> = seq![Ok(x), Ok(y), Ok(z)];
    let e = QueryView::empty();
    assert(crate::sql::template_frags(strings, frags, 0) == Ok::<QueryView, Seq<char>>(e));
    let q1 = e.then_text(""@).append(x);
    assert(crate::sql::template_frags(strings, frags, 1) == Ok::<QueryView, Seq<char>>(q1));
    let q2 = q1.then_text(kw).append(y);
    assert(crate::sql::template_frags(strings, frags, 2) == Ok::<QueryView, Seq<char>>(q2));
    let q3 = q2.then_text(" AND "@).append(z);
    assert(crate::sql::template_frags(strings, frags, 3) == Ok::<QueryView, Seq<char>>(q3));
    let q4 = q3.then_text(""@);
    assert(crate::sql::template_frags(strings, frags, 4) == Ok::<QueryView, Seq<char>>(q4));
    assert(q4.text =~= x.text + kw + y.text + " AND "@ + z.text);
    assert(q4.raw =~= x.raw + kw + y.raw + " AND "@ + z.raw);
    assert(q4.values =~= x.values + y.values + z.values);
}

/// BETWEEN and NOT BETWEEN render as the value, their keyword, the lower bound, ` AND `
/// and the upper bound, binding the three fragments' values in that order. NOT BETWEEN's
/// keyword is ` NOT BETWEEN ` and BETWEEN's ` BETWEEN `, so the two never render alike.
pub proof fn lemma_between_renderings(v: ExprNode, l: ExprNode, u: ExprNode, k: Option<DialectKey>, collect: bool)
    requires
        spec_eval(v, k, collect).res is Ok,
        spec_eval(l, k, collect).res is Ok,
        spec_eval(u, k, collect).res is Ok,
    ensures
        ({
            let x = spec_eval(v, k, collect).res->Ok_0;
            let y = spec_eval(l, k, collect).res->Ok_0;
            let z = spec_eval(u, k, collect).res->Ok_0;
            &&& spec_eval(ExprNode::NotBetween { value: Box::new(v), lower: Box::new(l), upper: Box::new(u) }, k, collect).res
                == Ok::<QueryView, Seq<char>>(QueryView {
                    text: x.text + " NOT BETWEEN "@ + y.text + " AND "@ + z.text,
                    raw: x.raw + " NOT BETWEEN "@ + y.raw + " AND "@ + z.raw,
                    values: x.values + y.values + z.values,
                })
            &&& spec_eval(ExprNode::Between { value: Box::new(v), lower: Box::new(l), upper: Box::new(u) }, k, collect).res
                == Ok::<QueryView, Seq<char>>(QueryView {
                    text: x.text + " BETWEEN "@ + y.text + " AND "@ + z.text,
                    raw: x.raw + " BETWEEN "@ + y.raw + " AND "@ + z.raw,
                    values: x.values + y.values + z.values,
                })
        }),
        spec_eval(ExprNode::NotBetween { value: Box::new(v), lower: Box::new(l), upper: Box::new(u) }, k, collect).res
            != spec_eval(ExprNode::Between { value: Box::new(v), lower: Box::new(l), upper: Box::new(u) }, k, collect).res,
{
    reveal(spec_eval);
    let x = spec_eval(v, k, collect).res->Ok_0;
    let y = spec_eval(l, k, collect).res->Ok_0;
    let z = spec_eval(u, k, collect).res->Ok_0;
    lemma_range_text(x, " NOT BETWEEN "@, y, z);
    lemma_range_text(x, " BETWEEN "@, y, z);
    reveal_strlit(" NOT BETWEEN ");
    reveal_strlit(" BETWEEN ");
    let t1 = x.text + " NOT BETWEEN "@ + y.text + " AND "@ + z.text;
    let t2 = x.text + " BETWEEN "@ + y.text + " AND "@ + z.text;
    assert(t1.len() == t2.len() + 4);
}

} // verus!
