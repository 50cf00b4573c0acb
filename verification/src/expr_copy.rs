//! Duplication of expression trees: a copy evaluates exactly as the original does.
use crate::dialect::{key_of_name, DialectKey};
use crate::expr_node::{
    eval_branches, eval_nodes, eval_orders, eval_template_exprs, lemma_branches_step, lemma_nodes_step,
    lemma_orders_step, lemma_template_step, spec_eval, upper_opt, CaseBranch, EvalOut, ExprNode, InArrayItems,
    ListOut, SqlTemplateExpr, WindowOrderNode,
};
use crate::sql::spec_fragment;
use crate::types::{copy_primitives, copy_strings, Duplicate, WindowItemView};
use vstd::prelude::*;

verus! {

/// The column of an `excluded.` reference node.
pub open spec fn excluded_column(n: ExprNode) -> Option<Seq<char>> {
    match n {
        ExprNode::Excluded { column } => Some(column@),
        _ => None,
    }
}

/// The name of a function-call node.
pub open spec fn call_name(n: ExprNode) -> Option<Seq<char>> {
    match n {
        ExprNode::FnCall { name, args: _ } => Some(name@),
        _ => None,
    }
}

/// What a node means: its evaluation under every dialect and collection mode, and the
/// parts of its shape that rendering inspects.
pub struct NodeSem {
    pub eval: spec_fn(Option<DialectKey>, bool) -> EvalOut,
    pub excluded: Option<Seq<char>>,
    pub call: Option<Seq<char>>,
}

impl DeepView for ExprNode {
    type V = NodeSem;

    open spec fn deep_view(&self) -> NodeSem {
        NodeSem {
            eval: |k: Option<DialectKey>, c: bool| spec_eval(*self, k, c),
            excluded: excluded_column(*self),
            call: call_name(*self),
        }
    }
}

/// `a` and `b` evaluate alike and look alike to rendering.
pub open spec fn same_node(a: ExprNode, b: ExprNode) -> bool {
    &&& forall|k: Option<DialectKey>, c: bool| #[trigger] spec_eval(a, k, c) == spec_eval(b, k, c)
    &&& excluded_column(a) == excluded_column(b)
    &&& call_name(a) == call_name(b)
}

proof fn lemma_nodes_push(s: Seq<ExprNode>, x: ExprNode, k: Option<DialectKey>, collect: bool)
    ensures
        eval_nodes(s.push(x), k, collect) == ({
            let p = eval_nodes(s, k, collect);
            match p.res {
                Err(_) => p,
                Ok(qs) => {
                    let o = spec_eval(x, k, collect);
                    match o.res {
                        Err(e) => ListOut { res: Err(e), warns: p.warns + o.warns },
                        Ok(q) => ListOut { res: Ok(qs.push(q)), warns: p.warns + o.warns },
                    }
                },
            }
        }),
{
    reveal(spec_eval);
    assert(s.push(x).drop_last() =~= s);
}

proof fn lemma_template_push(s: Seq<SqlTemplateExpr>, x: SqlTemplateExpr, k: Option<DialectKey>, collect: bool)
    ensures
        eval_template_exprs(s.push(x), k, collect) == ({
            let p = eval_template_exprs(s, k, collect);
            match p.res {
                Err(_) => p,
                Ok(fs) => match x {
                    SqlTemplateExpr::Node(n) => {
                        let o = spec_eval(n, k, collect);
                        match o.res {
                            Err(e) => ListOut { res: Err(e), warns: p.warns + o.warns },
                            Ok(q) => ListOut { res: Ok(fs.push(Ok(q))), warns: p.warns + o.warns },
                        }
                    },
                    SqlTemplateExpr::Value(v) => ListOut { res: Ok(fs.push(spec_fragment(v))), warns: p.warns },
                },
            }
        }),
{
    reveal(spec_eval);
    assert(s.push(x).drop_last() =~= s);
}

proof fn lemma_branches_push(s: Seq<CaseBranch>, x: CaseBranch, k: Option<DialectKey>, collect: bool)
    ensures
        eval_branches(s.push(x), k, collect) == ({
            let p = eval_branches(s, k, collect);
            match p.res {
                Err(_) => p,
                Ok(ps) => {
                    let w = spec_eval(x.when, k, collect);
                    match w.res {
                        Err(e) => ListOut { res: Err(e), warns: p.warns + w.warns },
                        Ok(wq) => {
                            let t = spec_eval(x.result, k, collect);
                            match t.res {
                                Err(e) => ListOut { res: Err(e), warns: p.warns + w.warns + t.warns },
                                Ok(tq) => ListOut { res: Ok(ps.push((wq, tq))), warns: p.warns + w.warns + t.warns },
                            }
                        },
                    }
                },
            }
        }),
{
    reveal(spec_eval);
    assert(s.push(x).drop_last() =~= s);
}

proof fn lemma_orders_push(s: Seq<WindowOrderNode>, x: WindowOrderNode, k: Option<DialectKey>)
    ensures
        eval_orders(s.push(x), k) == ({
            let p = eval_orders(s, k);
            match p.res {
                Err(_) => p,
                Ok(items) => match spec_eval(x.expression, k, false).res {
                    Err(e) => ListOut { res: Err(e), warns: p.warns },
                    Ok(q) => ListOut {
                        res: Ok(items.push(WindowItemView { expression: q, direction: upper_opt(x.direction), nulls: upper_opt(x.nulls) })),
                        warns: p.warns,
                    },
                },
            }
        }),
{
    reveal(spec_eval);
    assert(s.push(x).drop_last() =~= s);
}

/// Two IN lists interpolate alike.
pub open spec fn items_alike(a: InArrayItems, b: InArrayItems) -> bool {
    match (a, b) {
        (InArrayItems::Primitives(x), InArrayItems::Primitives(y)) => x@ == y@,
        (InArrayItems::Query(x), InArrayItems::Query(y)) => x@ == y@,
        _ => false,
    }
}

proof fn lemma_alike_cmp(a: ExprNode, b: ExprNode, k: Option<DialectKey>, c: bool)
    requires
        a is Cmp,
        b is Cmp,
        spec_eval(*a->Cmp_left, k, c) == spec_eval(*b->Cmp_left, k, c),
        a->Cmp_op@ == b->Cmp_op@,
        spec_eval(*a->Cmp_right, k, c) == spec_eval(*b->Cmp_right, k, c),
    ensures
        spec_eval(a, k, c) == spec_eval(b, k, c),
{
    reveal(spec_eval);
}

proof fn lemma_alike_arith(a: ExprNode, b: ExprNode, k: Option<DialectKey>, c: bool)
    requires
        a is Arith,
        b is Arith,
        spec_eval(*a->Arith_left, k, c) == spec_eval(*b->Arith_left, k, c),
        a->Arith_op@ == b->Arith_op@,
        spec_eval(*a->Arith_right, k, c) == spec_eval(*b->Arith_right, k, c),
    ensures
        spec_eval(a, k, c) == spec_eval(b, k, c),
{
    reveal(spec_eval);
}

proof fn lemma_alike_like(a: ExprNode, b: ExprNode, k: Option<DialectKey>, c: bool)
    requires
        a is Like,
        b is Like,
        spec_eval(*a->Like_value, k, c) == spec_eval(*b->Like_value, k, c),
        spec_eval(*a->Like_pattern, k, c) == spec_eval(*b->Like_pattern, k, c),
    ensures
        spec_eval(a, k, c) == spec_eval(b, k, c),
{
    reveal(spec_eval);
}

proof fn lemma_alike_not_like(a: ExprNode, b: ExprNode, k: Option<DialectKey>, c: bool)
    requires
        a is NotLike,
        b is NotLike,
        spec_eval(*a->NotLike_value, k, c) == spec_eval(*b->NotLike_value, k, c),
        spec_eval(*a->NotLike_pattern, k, c) == spec_eval(*b->NotLike_pattern, k, c),
    ensures
        spec_eval(a, k, c) == spec_eval(b, k, c),
{
    reveal(spec_eval);
}

proof fn lemma_alike_ilike(a: ExprNode, b: ExprNode, k: Option<DialectKey>, c: bool)
    requires
        a is Ilike,
        b is Ilike,
        spec_eval(*a->Ilike_value, k, c) == spec_eval(*b->Ilike_value, k, c),
        spec_eval(*a->Ilike_pattern, k, c) == spec_eval(*b->Ilike_pattern, k, c),
    ensures
        spec_eval(a, k, c) == spec_eval(b, k, c),
{
    reveal(spec_eval);
}

proof fn lemma_alike_not_ilike(a: ExprNode, b: ExprNode, k: Option<DialectKey>, c: bool)
    requires
        a is NotIlike,
        b is NotIlike,
        spec_eval(*a->NotIlike_value, k, c) == spec_eval(*b->NotIlike_value, k, c),
        spec_eval(*a->NotIlike_pattern, k, c) == spec_eval(*b->NotIlike_pattern, k, c),
    ensures
        spec_eval(a, k, c) == spec_eval(b, k, c),
{
    reveal(spec_eval);
}

proof fn lemma_alike_is_null(a: ExprNode, b: ExprNode, k: Option<DialectKey>, c: bool)
    requires
        a is IsNull,
        b is IsNull,
        spec_eval(*a->IsNull_value, k, c) == spec_eval(*b->IsNull_value, k, c),
    ensures
        spec_eval(a, k, c) == spec_eval(b, k, c),
{
    reveal(spec_eval);
}

proof fn lemma_alike_is_not_null(a: ExprNode, b: ExprNode, k: Option<DialectKey>, c: bool)
    requires
        a is IsNotNull,
        b is IsNotNull,
        spec_eval(*a->IsNotNull_value, k, c) == spec_eval(*b->IsNotNull_value, k, c),
    ensures
        spec_eval(a, k, c) == spec_eval(b, k, c),
{
    reveal(spec_eval);
}

proof fn lemma_alike_in_array(a: ExprNode, b: ExprNode, k: Option<DialectKey>, c: bool)
    requires
        a is InArray,
        b is InArray,
        spec_eval(*a->InArray_value, k, c) == spec_eval(*b->InArray_value, k, c),
        items_alike(a->InArray_items, b->InArray_items),
    ensures
        spec_eval(a, k, c) == spec_eval(b, k, c),
{
    reveal(spec_eval);
}

proof fn lemma_alike_not_in_array(a: ExprNode, b: ExprNode, k: Option<DialectKey>, c: bool)
    requires
        a is NotInArray,
        b is NotInArray,
        spec_eval(*a->NotInArray_value, k, c) == spec_eval(*b->NotInArray_value, k, c),
        items_alike(a->NotInArray_items, b->NotInArray_items),
    ensures
        spec_eval(a, k, c) == spec_eval(b, k, c),
{
    reveal(spec_eval);
}

proof fn lemma_alike_between(a: ExprNode, b: ExprNode, k: Option<DialectKey>, c: bool)
    requires
        a is Between,
        b is Between,
        spec_eval(*a->Between_value, k, c) == spec_eval(*b->Between_value, k, c),
        spec_eval(*a->Between_lower, k, c) == spec_eval(*b->Between_lower, k, c),
        spec_eval(*a->Between_upper, k, c) == spec_eval(*b->Between_upper, k, c),
    ensures
        spec_eval(a, k, c) == spec_eval(b, k, c),
{
    reveal(spec_eval);
}

proof fn lemma_alike_not_between(a: ExprNode, b: ExprNode, k: Option<DialectKey>, c: bool)
    requires
        a is NotBetween,
        b is NotBetween,
        spec_eval(*a->NotBetween_value, k, c) == spec_eval(*b->NotBetween_value, k, c),
        spec_eval(*a->NotBetween_lower, k, c) == spec_eval(*b->NotBetween_lower, k, c),
        spec_eval(*a->NotBetween_upper, k, c) == spec_eval(*b->NotBetween_upper, k, c),
    ensures
        spec_eval(a, k, c) == spec_eval(b, k, c),
{
    reveal(spec_eval);
}

proof fn lemma_alike_sql_template(a: ExprNode, b: ExprNode, k: Option<DialectKey>, c: bool)
    requires
        a is SqlTemplate,
        b is SqlTemplate,
        a->SqlTemplate_strings.deep_view() == b->SqlTemplate_strings.deep_view(),
        eval_template_exprs(a->SqlTemplate_exprs@, k, c) == eval_template_exprs(b->SqlTemplate_exprs@, k, c),
    ensures
        spec_eval(a, k, c) == spec_eval(b, k, c),
{
    reveal(spec_eval);
}

proof fn lemma_alike_and(a: ExprNode, b: ExprNode, k: Option<DialectKey>, c: bool)
    requires
        a is And,
        b is And,
        eval_nodes(a->And_conditions@, k, c) == eval_nodes(b->And_conditions@, k, c),
    ensures
        spec_eval(a, k, c) == spec_eval(b, k, c),
{
    reveal(spec_eval);
}

proof fn lemma_alike_or(a: ExprNode, b: ExprNode, k: Option<DialectKey>, c: bool)
    requires
        a is Or,
        b is Or,
        eval_nodes(a->Or_conditions@, k, c) == eval_nodes(b->Or_conditions@, k, c),
    ensures
        spec_eval(a, k, c) == spec_eval(b, k, c),
{
    reveal(spec_eval);
}

proof fn lemma_alike_fn_call(a: ExprNode, b: ExprNode, k: Option<DialectKey>, c: bool)
    requires
        a is FnCall,
        b is FnCall,
        a->FnCall_name@ == b->FnCall_name@,
        eval_nodes(a->FnCall_args@, k, c) == eval_nodes(b->FnCall_args@, k, c),
    ensures
        spec_eval(a, k, c) == spec_eval(b, k, c),
{
    reveal(spec_eval);
}

proof fn lemma_alike_case(a: ExprNode, b: ExprNode, k: Option<DialectKey>, c: bool)
    requires
        a is Case,
        b is Case,
        eval_branches(a->Case_branches@, k, c) == eval_branches(b->Case_branches@, k, c),
        (a->Case_else_val is None) == (b->Case_else_val is None), a->Case_else_val is Some ==> spec_eval(*a->Case_else_val->0, k, c) == spec_eval(*b->Case_else_val->0, k, c),
    ensures
        spec_eval(a, k, c) == spec_eval(b, k, c),
{
    reveal(spec_eval);
}

proof fn lemma_alike_over(a: ExprNode, b: ExprNode, k: Option<DialectKey>, c: bool)
    requires
        a is Over,
        b is Over,
        a->Over_dialect@ == b->Over_dialect@,
        call_name(*a->Over_expr) == call_name(*b->Over_expr),
        spec_eval(*a->Over_expr, Some(key_of_name(a->Over_dialect@)), false) == spec_eval(*b->Over_expr, Some(key_of_name(a->Over_dialect@)), false),
        eval_nodes(a->Over_partition_by@, Some(key_of_name(a->Over_dialect@)), false) == eval_nodes(b->Over_partition_by@, Some(key_of_name(a->Over_dialect@)), false),
        eval_orders(a->Over_order_by@, Some(key_of_name(a->Over_dialect@))) == eval_orders(b->Over_order_by@, Some(key_of_name(a->Over_dialect@))),
    ensures
        spec_eval(a, k, c) == spec_eval(b, k, c),
{
    reveal(spec_eval);
}

fn copy_string_option(s: &Option<String>) -> (r: Option<String>)
    ensures
        r == *s,
{
    match s {
        Some(x) => Some(x.clone()),
        None => None,
    }
}

/// A copy of a node.
fn copy_node(n: &ExprNode) -> (r: ExprNode)
    ensures
        same_node(r, *n),
    decreases n, 1nat,
{
    match n {
        ExprNode::Cmp { .. } => copy_cmp(n),
        ExprNode::Arith { .. } => copy_arith(n),
        ExprNode::Like { .. } => copy_like(n),
        ExprNode::NotLike { .. } => copy_not_like(n),
        ExprNode::Ilike { .. } => copy_ilike(n),
        ExprNode::NotIlike { .. } => copy_not_ilike(n),
        ExprNode::IsNull { .. } => copy_is_null(n),
        ExprNode::IsNotNull { .. } => copy_is_not_null(n),
        ExprNode::InArray { .. } => copy_in_array(n),
        ExprNode::NotInArray { .. } => copy_not_in_array(n),
        ExprNode::Between { .. } => copy_between(n),
        ExprNode::NotBetween { .. } => copy_not_between(n),
        ExprNode::SqlTemplate { .. } => copy_sql_template(n),
        ExprNode::And { .. } => copy_and(n),
        ExprNode::Or { .. } => copy_or(n),
        ExprNode::FnCall { .. } => copy_fn_call(n),
        ExprNode::Case { .. } => copy_case(n),
        ExprNode::Over { .. } => copy_over(n),
        ExprNode::Ref { .. } => copy_leaf(n),
        ExprNode::Excluded { .. } => copy_leaf(n),
        ExprNode::Val { .. } => copy_leaf(n),
        ExprNode::Raw { .. } => copy_leaf(n),
        ExprNode::Query { .. } => copy_leaf(n),
        ExprNode::Exists { .. } => copy_leaf(n),
        ExprNode::NotExists { .. } => copy_leaf(n),
    }
}

fn copy_leaf(n: &ExprNode) -> (r: ExprNode)
    requires
        n is Ref || n is Excluded || n is Val || n is Raw || n is Query || n is Exists || n is NotExists,
    ensures
        same_node(r, *n),
    decreases n, 0nat,
{
    proof {
        reveal(spec_eval);
    }
    match n {
        ExprNode::Ref { parts } => ExprNode::Ref { parts: copy_strings(parts) },
        ExprNode::Excluded { column } => ExprNode::Excluded { column: column.clone() },
        ExprNode::Val { value } => ExprNode::Val { value: value.copy() },
        ExprNode::Raw { text } => ExprNode::Raw { text: text.clone() },
        ExprNode::Query { query } => ExprNode::Query { query: query.copy() },
        ExprNode::Exists { query } => ExprNode::Exists { query: query.copy() },
        _ => match n {
            ExprNode::NotExists { query } => ExprNode::NotExists { query: query.copy() },
            _ => {
                assert(false);
                ExprNode::Raw { text: String::new() }
            },
        },
    }
}

fn copy_cmp(n: &ExprNode) -> (r: ExprNode)
    requires
        n is Cmp,
    ensures
        same_node(r, *n),
    decreases n, 0nat,
{
    match n {
        ExprNode::Cmp { left, op, right } => {
            let left_c = Box::new(copy_node(left));
            let op_c = op.clone();
            let right_c = Box::new(copy_node(right));
            let r = ExprNode::Cmp { left: left_c, op: op_c, right: right_c };
            proof {
                assert forall|k: Option<DialectKey>, c: bool| #[trigger] spec_eval(r, k, c) == spec_eval(*n, k, c) by {
                    lemma_alike_cmp(r, *n, k, c);
                }
            }
            r
        },
        _ => {
            assert(false);
            ExprNode::Raw { text: String::new() }
        },
    }
}

fn copy_arith(n: &ExprNode) -> (r: ExprNode)
    requires
        n is Arith,
    ensures
        same_node(r, *n),
    decreases n, 0nat,
{
    match n {
        ExprNode::Arith { left, op, right } => {
            let left_c = Box::new(copy_node(left));
            let op_c = op.clone();
            let right_c = Box::new(copy_node(right));
            let r = ExprNode::Arith { left: left_c, op: op_c, right: right_c };
            proof {
                assert forall|k: Option<DialectKey>, c: bool| #[trigger] spec_eval(r, k, c) == spec_eval(*n, k, c) by {
                    lemma_alike_arith(r, *n, k, c);
                }
            }
            r
        },
        _ => {
            assert(false);
            ExprNode::Raw { text: String::new() }
        },
    }
}

fn copy_like(n: &ExprNode) -> (r: ExprNode)
    requires
        n is Like,
    ensures
        same_node(r, *n),
    decreases n, 0nat,
{
    match n {
        ExprNode::Like { value, pattern } => {
            let value_c = Box::new(copy_node(value));
            let pattern_c = Box::new(copy_node(pattern));
            let r = ExprNode::Like { value: value_c, pattern: pattern_c };
            proof {
                assert forall|k: Option<DialectKey>, c: bool| #[trigger] spec_eval(r, k, c) == spec_eval(*n, k, c) by {
                    lemma_alike_like(r, *n, k, c);
                }
            }
            r
        },
        _ => {
            assert(false);
            ExprNode::Raw { text: String::new() }
        },
    }
}

fn copy_not_like(n: &ExprNode) -> (r: ExprNode)
    requires
        n is NotLike,
    ensures
        same_node(r, *n),
    decreases n, 0nat,
{
    match n {
        ExprNode::NotLike { value, pattern } => {
            let value_c = Box::new(copy_node(value));
            let pattern_c = Box::new(copy_node(pattern));
            let r = ExprNode::NotLike { value: value_c, pattern: pattern_c };
            proof {
                assert forall|k: Option<DialectKey>, c: bool| #[trigger] spec_eval(r, k, c) == spec_eval(*n, k, c) by {
                    lemma_alike_not_like(r, *n, k, c);
                }
            }
            r
        },
        _ => {
            assert(false);
            ExprNode::Raw { text: String::new() }
        },
    }
}

fn copy_ilike(n: &ExprNode) -> (r: ExprNode)
    requires
        n is Ilike,
    ensures
        same_node(r, *n),
    decreases n, 0nat,
{
    match n {
        ExprNode::Ilike { value, pattern } => {
            let value_c = Box::new(copy_node(value));
            let pattern_c = Box::new(copy_node(pattern));
            let r = ExprNode::Ilike { value: value_c, pattern: pattern_c };
            proof {
                assert forall|k: Option<DialectKey>, c: bool| #[trigger] spec_eval(r, k, c) == spec_eval(*n, k, c) by {
                    lemma_alike_ilike(r, *n, k, c);
                }
            }
            r
        },
        _ => {
            assert(false);
            ExprNode::Raw { text: String::new() }
        },
    }
}

fn copy_not_ilike(n: &ExprNode) -> (r: ExprNode)
    requires
        n is NotIlike,
    ensures
        same_node(r, *n),
    decreases n, 0nat,
{
    match n {
        ExprNode::NotIlike { value, pattern } => {
            let value_c = Box::new(copy_node(value));
            let pattern_c = Box::new(copy_node(pattern));
            let r = ExprNode::NotIlike { value: value_c, pattern: pattern_c };
            proof {
                assert forall|k: Option<DialectKey>, c: bool| #[trigger] spec_eval(r, k, c) == spec_eval(*n, k, c) by {
                    lemma_alike_not_ilike(r, *n, k, c);
                }
            }
            r
        },
        _ => {
            assert(false);
            ExprNode::Raw { text: String::new() }
        },
    }
}

fn copy_is_null(n: &ExprNode) -> (r: ExprNode)
    requires
        n is IsNull,
    ensures
        same_node(r, *n),
    decreases n, 0nat,
{
    match n {
        ExprNode::IsNull { value } => {
            let value_c = Box::new(copy_node(value));
            let r = ExprNode::IsNull { value: value_c };
            proof {
                assert forall|k: Option<DialectKey>, c: bool| #[trigger] spec_eval(r, k, c) == spec_eval(*n, k, c) by {
                    lemma_alike_is_null(r, *n, k, c);
                }
            }
            r
        },
        _ => {
            assert(false);
            ExprNode::Raw { text: String::new() }
        },
    }
}

fn copy_is_not_null(n: &ExprNode) -> (r: ExprNode)
    requires
        n is IsNotNull,
    ensures
        same_node(r, *n),
    decreases n, 0nat,
{
    match n {
        ExprNode::IsNotNull { value } => {
            let value_c = Box::new(copy_node(value));
            let r = ExprNode::IsNotNull { value: value_c };
            proof {
                assert forall|k: Option<DialectKey>, c: bool| #[trigger] spec_eval(r, k, c) == spec_eval(*n, k, c) by {
                    lemma_alike_is_not_null(r, *n, k, c);
                }
            }
            r
        },
        _ => {
            assert(false);
            ExprNode::Raw { text: String::new() }
        },
    }
}

fn copy_in_array(n: &ExprNode) -> (r: ExprNode)
    requires
        n is InArray,
    ensures
        same_node(r, *n),
    decreases n, 0nat,
{
    match n {
        ExprNode::InArray { value, items } => {
            let value_c = Box::new(copy_node(value));
            let items_c = copy_items(items);
            let r = ExprNode::InArray { value: value_c, items: items_c };
            proof {
                assert forall|k: Option<DialectKey>, c: bool| #[trigger] spec_eval(r, k, c) == spec_eval(*n, k, c) by {
                    lemma_alike_in_array(r, *n, k, c);
                }
            }
            r
        },
        _ => {
            assert(false);
            ExprNode::Raw { text: String::new() }
        },
    }
}

fn copy_not_in_array(n: &ExprNode) -> (r: ExprNode)
    requires
        n is NotInArray,
    ensures
        same_node(r, *n),
    decreases n, 0nat,
{
    match n {
        ExprNode::NotInArray { value, items } => {
            let value_c = Box::new(copy_node(value));
            let items_c = copy_items(items);
            let r = ExprNode::NotInArray { value: value_c, items: items_c };
            proof {
                assert forall|k: Option<DialectKey>, c: bool| #[trigger] spec_eval(r, k, c) == spec_eval(*n, k, c) by {
                    lemma_alike_not_in_array(r, *n, k, c);
                }
            }
            r
        },
        _ => {
            assert(false);
            ExprNode::Raw { text: String::new() }
        },
    }
}

fn copy_between(n: &ExprNode) -> (r: ExprNode)
    requires
        n is Between,
    ensures
        same_node(r, *n),
    decreases n, 0nat,
{
    match n {
        ExprNode::Between { value, lower, upper } => {
            let value_c = Box::new(copy_node(value));
            let lower_c = Box::new(copy_node(lower));
            let upper_c = Box::new(copy_node(upper));
            let r = ExprNode::Between { value: value_c, lower: lower_c, upper: upper_c };
            proof {
                assert forall|k: Option<DialectKey>, c: bool| #[trigger] spec_eval(r, k, c) == spec_eval(*n, k, c) by {
                    lemma_alike_between(r, *n, k, c);
                }
            }
            r
        },
        _ => {
            assert(false);
            ExprNode::Raw { text: String::new() }
        },
    }
}

fn copy_not_between(n: &ExprNode) -> (r: ExprNode)
    requires
        n is NotBetween,
    ensures
        same_node(r, *n),
    decreases n, 0nat,
{
    match n {
        ExprNode::NotBetween { value, lower, upper } => {
            let value_c = Box::new(copy_node(value));
            let lower_c = Box::new(copy_node(lower));
            let upper_c = Box::new(copy_node(upper));
            let r = ExprNode::NotBetween { value: value_c, lower: lower_c, upper: upper_c };
            proof {
                assert forall|k: Option<DialectKey>, c: bool| #[trigger] spec_eval(r, k, c) == spec_eval(*n, k, c) by {
                    lemma_alike_not_between(r, *n, k, c);
                }
            }
            r
        },
        _ => {
            assert(false);
            ExprNode::Raw { text: String::new() }
        },
    }
}

fn copy_sql_template(n: &ExprNode) -> (r: ExprNode)
    requires
        n is SqlTemplate,
    ensures
        same_node(r, *n),
    decreases n, 0nat,
{
    match n {
        ExprNode::SqlTemplate { strings, exprs } => {
            let strings_c = copy_strings(strings);
            let exprs_c = copy_template_list(exprs);
            let r = ExprNode::SqlTemplate { strings: strings_c, exprs: exprs_c };
            proof {
                assert forall|k: Option<DialectKey>, c: bool| #[trigger] spec_eval(r, k, c) == spec_eval(*n, k, c) by {
                    lemma_alike_sql_template(r, *n, k, c);
                }
            }
            r
        },
        _ => {
            assert(false);
            ExprNode::Raw { text: String::new() }
        },
    }
}

fn copy_and(n: &ExprNode) -> (r: ExprNode)
    requires
        n is And,
    ensures
        same_node(r, *n),
    decreases n, 0nat,
{
    match n {
        ExprNode::And { conditions } => {
            let conditions_c = copy_node_list(conditions);
            let r = ExprNode::And { conditions: conditions_c };
            proof {
                assert forall|k: Option<DialectKey>, c: bool| #[trigger] spec_eval(r, k, c) == spec_eval(*n, k, c) by {
                    lemma_alike_and(r, *n, k, c);
                }
            }
            r
        },
        _ => {
            assert(false);
            ExprNode::Raw { text: String::new() }
        },
    }
}

fn copy_or(n: &ExprNode) -> (r: ExprNode)
    requires
        n is Or,
    ensures
        same_node(r, *n),
    decreases n, 0nat,
{
    match n {
        ExprNode::Or { conditions } => {
            let conditions_c = copy_node_list(conditions);
            let r = ExprNode::Or { conditions: conditions_c };
            proof {
                assert forall|k: Option<DialectKey>, c: bool| #[trigger] spec_eval(r, k, c) == spec_eval(*n, k, c) by {
                    lemma_alike_or(r, *n, k, c);
                }
            }
            r
        },
        _ => {
            assert(false);
            ExprNode::Raw { text: String::new() }
        },
    }
}

fn copy_fn_call(n: &ExprNode) -> (r: ExprNode)
    requires
        n is FnCall,
    ensures
        same_node(r, *n),
    decreases n, 0nat,
{
    match n {
        ExprNode::FnCall { name, args } => {
            let name_c = name.clone();
            let args_c = copy_node_list(args);
            let r = ExprNode::FnCall { name: name_c, args: args_c };
            proof {
                assert forall|k: Option<DialectKey>, c: bool| #[trigger] spec_eval(r, k, c) == spec_eval(*n, k, c) by {
                    lemma_alike_fn_call(r, *n, k, c);
                }
            }
            r
        },
        _ => {
            assert(false);
            ExprNode::Raw { text: String::new() }
        },
    }
}

fn copy_case(n: &ExprNode) -> (r: ExprNode)
    requires
        n is Case,
    ensures
        same_node(r, *n),
    decreases n, 0nat,
{
    match n {
        ExprNode::Case { branches, else_val } => {
            let branches_c = copy_branch_list(branches);
            let else_val_c = match else_val {
                Some(e) => Some(Box::new(copy_node(e))),
                None => None,
            };
            let r = ExprNode::Case { branches: branches_c, else_val: else_val_c };
            proof {
                assert forall|k: Option<DialectKey>, c: bool| #[trigger] spec_eval(r, k, c) == spec_eval(*n, k, c) by {
                    lemma_alike_case(r, *n, k, c);
                }
            }
            r
        },
        _ => {
            assert(false);
            ExprNode::Raw { text: String::new() }
        },
    }
}

fn copy_over(n: &ExprNode) -> (r: ExprNode)
    requires
        n is Over,
    ensures
        same_node(r, *n),
    decreases n, 0nat,
{
    match n {
        ExprNode::Over { expr, partition_by, order_by, dialect } => {
            let expr_c = Box::new(copy_node(expr));
            let partition_by_c = copy_node_list(partition_by);
            let order_by_c = copy_order_list(order_by);
            let dialect_c = dialect.clone();
            let r = ExprNode::Over { expr: expr_c, partition_by: partition_by_c, order_by: order_by_c, dialect: dialect_c };
            proof {
                assert forall|k: Option<DialectKey>, c: bool| #[trigger] spec_eval(r, k, c) == spec_eval(*n, k, c) by {
                    lemma_alike_over(r, *n, k, c);
                }
            }
            r
        },
        _ => {
            assert(false);
            ExprNode::Raw { text: String::new() }
        },
    }
}

fn copy_items(items: &InArrayItems) -> (r: InArrayItems)
    ensures
        items_alike(r, *items),
{
    match items {
        InArrayItems::Primitives(ps) => InArrayItems::Primitives(copy_primitives(ps)),
        InArrayItems::Query(q) => InArrayItems::Query(q.copy()),
    }
}

/// A copy of a list of nodes.
fn copy_node_list(v: &Vec<ExprNode>) -> (r: Vec<ExprNode>)
    ensures
        r@.len() == v@.len(),
        forall|i: int| 0 <= i < v@.len() ==> same_node(#[trigger] r@[i], v@[i]),
        forall|k: Option<DialectKey>, c: bool| #[trigger] eval_nodes(r@, k, c) == eval_nodes(v@, k, c),
    decreases v, 0nat,
{
    let mut r: Vec<ExprNode> = Vec::new();
    proof {
        assert forall|k: Option<DialectKey>, c: bool| #[trigger] eval_nodes(r@, k, c) == eval_nodes(v@.take(0), k, c) by {
            assert(v@.take(0) =~= r@);
        }
    }
    for i in 0..v.len()
        invariant
            r@.len() == i,
            forall|j: int| 0 <= j < i ==> same_node(#[trigger] r@[j], v@[j]),
            forall|k: Option<DialectKey>, c: bool| #[trigger] eval_nodes(r@, k, c) == eval_nodes(v@.take(i as int), k, c),
    {
        let x = copy_node(&v[i]);
        let ghost old_r = r@;
        r.push(x);
        proof {
            assert forall|k: Option<DialectKey>, c: bool| #[trigger] eval_nodes(r@, k, c) == eval_nodes(v@.take(i + 1), k, c) by {
                lemma_nodes_push(old_r, x, k, c);
                lemma_nodes_step(v@, k, c, i as int);
                assert(eval_nodes(old_r, k, c) == eval_nodes(v@.take(i as int), k, c));
                assert(spec_eval(x, k, c) == spec_eval(v@[i as int], k, c));
                assert(r@ == old_r.push(x));
            }
        }
    }
    proof {
        assert(v@.take(v@.len() as int) =~= v@);
    }
    r
}

fn copy_template_list(v: &Vec<SqlTemplateExpr>) -> (r: Vec<SqlTemplateExpr>)
    ensures
        forall|k: Option<DialectKey>, c: bool| #[trigger] eval_template_exprs(r@, k, c) == eval_template_exprs(v@, k, c),
    decreases v, 0nat,
{
    let mut r: Vec<SqlTemplateExpr> = Vec::new();
    proof {
        assert forall|k: Option<DialectKey>, c: bool| #[trigger] eval_template_exprs(r@, k, c) == eval_template_exprs(v@.take(0), k, c) by {
            assert(v@.take(0) =~= r@);
        }
    }
    for i in 0..v.len()
        invariant
            forall|k: Option<DialectKey>, c: bool| #[trigger] eval_template_exprs(r@, k, c) == eval_template_exprs(v@.take(i as int), k, c),
    {
        let x = match &v[i] {
            SqlTemplateExpr::Node(n) => SqlTemplateExpr::Node(copy_node(n)),
            SqlTemplateExpr::Value(val) => SqlTemplateExpr::Value(val.duplicate()),
        };
        let ghost old_r = r@;
        r.push(x);
        proof {
            assert forall|k: Option<DialectKey>, c: bool| #[trigger] eval_template_exprs(r@, k, c) == eval_template_exprs(v@.take(i + 1), k, c) by {
                lemma_template_push(old_r, x, k, c);
                lemma_template_step(v@, k, c, i as int);
                assert(eval_template_exprs(old_r, k, c) == eval_template_exprs(v@.take(i as int), k, c));
                assert(r@ == old_r.push(x));
                match (x, v@[i as int]) {
                    (SqlTemplateExpr::Node(a), SqlTemplateExpr::Node(b)) => {
                        assert(spec_eval(a, k, c) == spec_eval(b, k, c));
                    },
                    (SqlTemplateExpr::Value(a), SqlTemplateExpr::Value(b)) => {
                        assert(spec_fragment(a) == spec_fragment(b));
                    },
                    _ => {},
                }
            }
        }
    }
    proof {
        assert(v@.take(v@.len() as int) =~= v@);
    }
    r
}

fn copy_branch_list(v: &Vec<CaseBranch>) -> (r: Vec<CaseBranch>)
    ensures
        forall|k: Option<DialectKey>, c: bool| #[trigger] eval_branches(r@, k, c) == eval_branches(v@, k, c),
    decreases v, 0nat,
{
    let mut r: Vec<CaseBranch> = Vec::new();
    proof {
        assert forall|k: Option<DialectKey>, c: bool| #[trigger] eval_branches(r@, k, c) == eval_branches(v@.take(0), k, c) by {
            assert(v@.take(0) =~= r@);
        }
    }
    for i in 0..v.len()
        invariant
            forall|k: Option<DialectKey>, c: bool| #[trigger] eval_branches(r@, k, c) == eval_branches(v@.take(i as int), k, c),
    {
        let x = CaseBranch { when: copy_node(&v[i].when), result: copy_node(&v[i].result) };
        let ghost old_r = r@;
        r.push(x);
        proof {
            assert forall|k: Option<DialectKey>, c: bool| #[trigger] eval_branches(r@, k, c) == eval_branches(v@.take(i + 1), k, c) by {
                lemma_branches_push(old_r, x, k, c);
                lemma_branches_step(v@, k, c, i as int);
                assert(eval_branches(old_r, k, c) == eval_branches(v@.take(i as int), k, c));
                assert(spec_eval(x.when, k, c) == spec_eval(v@[i as int].when, k, c));
                assert(spec_eval(x.result, k, c) == spec_eval(v@[i as int].result, k, c));
                assert(r@ == old_r.push(x));
            }
        }
    }
    proof {
        assert(v@.take(v@.len() as int) =~= v@);
    }
    r
}

fn copy_order_list(v: &Vec<WindowOrderNode>) -> (r: Vec<WindowOrderNode>)
    ensures
        forall|k: Option<DialectKey>| #[trigger] eval_orders(r@, k) == eval_orders(v@, k),
    decreases v, 0nat,
{
    let mut r: Vec<WindowOrderNode> = Vec::new();
    proof {
        assert forall|k: Option<DialectKey>| #[trigger] eval_orders(r@, k) == eval_orders(v@.take(0), k) by {
            assert(v@.take(0) =~= r@);
        }
    }
    for i in 0..v.len()
        invariant
            forall|k: Option<DialectKey>| #[trigger] eval_orders(r@, k) == eval_orders(v@.take(i as int), k),
    {
        let x = WindowOrderNode {
            expression: copy_node(&v[i].expression),
            direction: copy_string_option(&v[i].direction),
            nulls: copy_string_option(&v[i].nulls),
        };
        let ghost old_r = r@;
        r.push(x);
        proof {
            assert forall|k: Option<DialectKey>| #[trigger] eval_orders(r@, k) == eval_orders(v@.take(i + 1), k) by {
                lemma_orders_push(old_r, x, k);
                lemma_orders_step(v@, k, i as int);
                assert(eval_orders(old_r, k) == eval_orders(v@.take(i as int), k));
                assert(spec_eval(x.expression, k, false) == spec_eval(v@[i as int].expression, k, false));
                assert(r@ == old_r.push(x));
            }
        }
    }
    proof {
        assert(v@.take(v@.len() as int) =~= v@);
    }
    r
}

impl Duplicate for ExprNode {
    fn duplicate(&self) -> (r: ExprNode) {
        let r = copy_node(self);
        proof {
            assert(r.deep_view().eval =~= self.deep_view().eval);
        }
        r
    }
}

} // verus!
