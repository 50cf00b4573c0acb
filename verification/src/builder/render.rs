//! Rendering of a builder state into one SQL query.
use crate::builder::checks::{spec_validate_parts, validate_query_parts};
use crate::builder::state::{
    ValidationCache, VALIDATION_STATUS_INVALID, VALIDATION_STATUS_VALID,
    CompoundOperator, CompoundPart, CteDefinition, JoinType, StatementKind,
    ActionView, InsertConflictAction, InsertConflictTarget, InsertState, InsertView, TargetView, UpdateState, UpdateView,
    AssignView, AssignmentValue, CteView, DistinctMode, DistinctView, LogicalOp, PartsView, QueryParts,
    SelectLockClause, UpdateAssignment, WhereEntry,
};
use crate::dialect::{
    RenderedPagination, render_pagination, pagination_rendered_ok, spec_render_pagination, spec_capabilities, Dialect,
    PaginationSyntaxFamily,
};
use crate::builder::state::PaginationState;
use crate::sql::{
    identifier, identifier_text, join_frags, join_values, fragments, msg_empty_part, parts_nonempty, spec_fragment,
    spec_join, validation_msg,
};
use crate::backend::backend_for_dialect;
use crate::dialect::{dialect_key, InsertConflictStyle, RecursiveCteStyle};
use crate::expr_node::WarningView;
use crate::expr_node::{eval_expr_for_dialect_ctx, ExprNode, WarningsCtx};
use crate::sql::{to_query_fragment, array_fragment, chunks2, chunks3, msg_empty_array, spec_render_value, sql, sql_frags, surfaced, values1, values2};
use crate::text::{lemma_split_on_nonempty, split_char, split_on};
use crate::error::QueryError;
use crate::types::{RenderResult, Duplicate, QueryView, SqlIdentifier, SqlQuery, SqlValue, ValueView};
use vstd::prelude::*;

verus! {

// ─── Buffer helpers ──────────────────────────────────────────────────────────

/// `b` followed by `prefix` and `f`, with a space between when `b` already has text.
pub open spec fn pushed(b: QueryView, prefix: Seq<char>, f: QueryView) -> QueryView {
    let b1 = if b.text.len() > 0 { b.then_text(" "@) } else { b };
    b1.then_text(prefix).append(f)
}

/// Write a fragment into `buf`, inserting a space first if `buf` already has text.
fn buf_push(buf: &mut SqlQuery, prefix: &str, frag: &SqlQuery)
    ensures
        final(buf)@ == pushed(old(buf)@, prefix@, frag@),
{
    if !buf.text.as_str().is_empty() {
        buf.push_lit(" ");
    }
    buf.push_lit(prefix);
    buf.push_query(frag);
}

/// Fragments joined by a separator.
pub open spec fn joined(qs: Seq<QueryView>, sep: Seq<char>) -> QueryView
    decreases qs.len(),
{
    if qs.len() == 0 {
        QueryView::empty()
    } else {
        let prev = joined(qs.drop_last(), sep);
        let prev = if qs.len() > 1 { prev.then_text(sep) } else { prev };
        prev.append(qs.last())
    }
}

/// Join fragments with a separator.
pub(crate) fn join_queries(qs: &Vec<SqlQuery>, sep: &str) -> (r: SqlQuery)
    ensures
        r@ == joined(qs.deep_view(), sep@),
{
    let ghost all = qs.deep_view();
    let mut acc = SqlQuery::empty();
    for i in 0..qs.len()
        invariant
            all == qs.deep_view(),
            acc@ == joined(all.take(i as int), sep@),
    {
        proof {
            assert(all.take(i + 1).drop_last() =~= all.take(i as int));
            assert(all[i as int] == qs@[i as int]@);
        }
        if i > 0 {
            acc.push_lit(sep);
        }
        acc.push_query(&qs[i]);
    }
    proof {
        assert(all.take(qs.len() as int) =~= all);
    }
    acc
}

// ─── WHERE / HAVING ──────────────────────────────────────────────────────────

/// `(prev) OP (pred)`.
pub open spec fn compose_clause(prev: QueryView, e: (QueryView, LogicalOp)) -> QueryView {
    QueryView::lit("("@).append(prev).then_text(") "@ + e.1.spec_as_str() + " ("@).append(e.0).then_text(")"@)
}

/// A non-empty predicate list composed left to right.
pub open spec fn clause_fold(cs: Seq<(QueryView, LogicalOp)>) -> QueryView
    decreases cs.len(),
{
    if cs.len() <= 1 {
        cs[0].0
    } else {
        compose_clause(clause_fold(cs.drop_last()), cs.last())
    }
}

/// A predicate list composed: nothing for an empty list, else `((p1) OP2 (p2)) OP3 (p3)…`.
pub open spec fn clause_list(cs: Seq<(QueryView, LogicalOp)>) -> Option<QueryView> {
    if cs.len() == 0 {
        None
    } else {
        Some(clause_fold(cs))
    }
}

/// Render a flat list of WHERE/HAVING predicates into one composed fragment.
fn render_clause_list(clauses: &Vec<WhereEntry>) -> (r: Result<Option<SqlQuery>, String>)
    ensures
        r matches Ok(o) && o.deep_view() == clause_list(clauses.deep_view()),
{
    if clauses.len() == 0 {
        return Ok(None);
    }
    let ghost all = clauses.deep_view();
    let mut result = clauses[0].pred.copy();
    proof {
        assert(all[0] == clauses@[0].deep_view());
        assert(all.take(1).len() == 1);
        assert(clause_fold(all.take(1)) == all[0].0);
    }
    for i in 1..clauses.len()
        invariant
            all == clauses.deep_view(),
            1 <= i <= clauses.len(),
            result@ == clause_fold(all.take(i as int)),
    {
        let entry = &clauses[i];
        proof {
            assert(all.take(i + 1).drop_last() =~= all.take(i as int));
            assert(all[i as int] == clauses@[i as int].deep_view());
        }
        let mut next = SqlQuery::literal("(");
        next.push_query(&result);
        next.push_lit(") ");
        next.push_lit(entry.op.as_str());
        next.push_lit(" (");
        next.push_query(&entry.pred);
        next.push_lit(")");
        proof {
            assert(next@ =~= compose_clause(result@, all[i as int]));
        }
        result = next;
    }
    proof {
        assert(all.take(clauses.len() as int) =~= all);
    }
    Ok(Some(result))
}

// ─── SELECT pieces ───────────────────────────────────────────────────────────

/// The text of a lock clause: `FOR UPDATE [NOWAIT|SKIP LOCKED]`.
pub open spec fn lock_text(lock: SelectLockClause) -> Seq<char> {
    match lock.modifier {
        Some(m) => lock.strength.spec_as_sql() + " "@ + m.spec_as_sql(),
        None => lock.strength.spec_as_sql(),
    }
}

fn render_select_lock_clause(lock: SelectLockClause) -> (q: SqlQuery)
    ensures
        q@ == QueryView::lit(lock_text(lock)),
{
    let mut raw = String::from_str(lock.strength.as_sql());
    match lock.modifier {
        Some(m) => {
            crate::text::push_str(&mut raw, " ");
            crate::text::push_str(&mut raw, m.as_sql());
        },
        None => {},
    }
    SqlQuery { text: raw.clone(), raw, values: Vec::new() }
}

/// `prefix [middle ]tail`.
pub open spec fn prefixed_view(prefix: Seq<char>, middle: Option<QueryView>, tail: QueryView) -> QueryView {
    match middle {
        Some(m) => QueryView::lit(prefix).append(m).then_text(" "@).append(tail),
        None => QueryView::lit(prefix).append(tail),
    }
}

fn build_prefixed_query(prefix: &str, middle: Option<&SqlQuery>, tail: &SqlQuery) -> (r: SqlQuery)
    ensures
        r@ == prefixed_view(prefix@, middle.deep_view(), tail@),
{
    let mut r = SqlQuery::literal(prefix);
    match middle {
        Some(m) => {
            r.push_query(m);
            r.push_lit(" ");
        },
        None => {},
    }
    r.push_query(tail);
    r
}

/// The SELECT projection: `SELECT [DISTINCT [ON (…)] ][prefix ]content`.
pub open spec fn projection_view(p: PartsView, sp: Option<QueryView>) -> Result<QueryView, Seq<char>> {
    match p.select {
        None => Err("Cannot build SELECT query without a projection"@),
        Some(sel) => match p.distinct {
            None => Ok(prefixed_view("SELECT "@, sp, sel)),
            Some(DistinctView::Distinct) => Ok(prefixed_view("SELECT DISTINCT "@, sp, sel)),
            Some(DistinctView::On(exprs)) => Ok(
                QueryView::lit("SELECT DISTINCT ON ("@).append(joined(exprs, ", "@)).then_text(") "@).append(sel),
            ),
        },
    }
}

fn build_select_projection(parts: &QueryParts, select_prefix: Option<&SqlQuery>) -> (r: Result<SqlQuery, String>)
    ensures
        crate::sql::query_result_is(r, projection_view(parts.deep_view(), select_prefix.deep_view())),
{
    let select = match &parts.select {
        Some(s) => s,
        None => return Err(String::from_str("Cannot build SELECT query without a projection")),
    };
    match &parts.distinct {
        None => Ok(build_prefixed_query("SELECT ", select_prefix, select)),
        Some(DistinctMode::Distinct) => Ok(build_prefixed_query("SELECT DISTINCT ", select_prefix, select)),
        Some(DistinctMode::On(expressions)) => {
            let distinct_exprs = join_queries(expressions, ", ");
            let mut r = SqlQuery::literal("SELECT DISTINCT ON (");
            r.push_query(&distinct_exprs);
            r.push_lit(") ");
            r.push_query(select);
            Ok(r)
        },
    }
}

/// The fragment of a quoted identifier with the given parts.
pub open spec fn ident_frag(parts: Seq<Seq<char>>) -> Result<QueryView, Seq<char>> {
    if parts_nonempty(parts) {
        Ok(QueryView { text: identifier_text(parts, true), raw: identifier_text(parts, false), values: Seq::empty() })
    } else {
        Err(msg_empty_part())
    }
}

/// Joins pushed one after another.
pub open spec fn joins_pushed(b: QueryView, js: Seq<QueryView>) -> QueryView
    decreases js.len(),
{
    if js.len() == 0 {
        b
    } else {
        pushed(joins_pushed(b, js.drop_last()), ""@, js.last())
    }
}

/// The SELECT tail after GROUP BY: HAVING, ORDER BY, pagination and lock.
pub open spec fn base_tail(p: PartsView, b: QueryView, tc: Option<QueryView>) -> QueryView {
    let b = match clause_list(p.having_clauses) {
        Some(h) => pushed(b, "HAVING "@, h),
        None => b,
    };
    let b = if p.order_by.len() > 0 { pushed(b, "ORDER BY "@, joined(p.order_by, ", "@)) } else { b };
    let b = match tc {
        Some(t) => pushed(b, ""@, t),
        None => b,
    };
    match p.lock {
        Some(l) => pushed(b, ""@, QueryView::lit(lock_text(l))),
        None => b,
    }
}

/// The body of a SELECT, given the rendered pagination fragments.
pub open spec fn base_view(p: PartsView, sp: Option<QueryView>, tc: Option<QueryView>) -> Result<QueryView, Seq<char>> {
    match projection_view(p, sp) {
        Err(e) => Err(e),
        Ok(proj) => {
            let b = pushed(QueryView::empty(), ""@, proj);
            let b = match p.from {
                Some(f) => pushed(b, ""@, f),
                None => b,
            };
            let b = joins_pushed(b, p.joins);
            let b = match clause_list(p.where_clauses) {
                Some(w) => pushed(b, "WHERE "@, w),
                None => b,
            };
            if p.group_by.len() > 0 {
                match join_frags(p.group_by.map_values(|id: Seq<Seq<char>>| ident_frag(id)), ", "@) {
                    Err(m) => Err(validation_msg(m)),
                    Ok(g) => Ok(base_tail(p, pushed(b, "GROUP BY "@, g), tc)),
                }
            } else {
                Ok(base_tail(p, b, tc))
            }
        },
    }
}

fn push_tail(parts: &QueryParts, buf: &mut SqlQuery, trailing: &Option<SqlQuery>) -> (r: Result<(), String>)
    ensures
        r is Ok,
        final(buf)@ == base_tail(parts.deep_view(), old(buf)@, trailing.deep_view()),
{
    if parts.having_clauses.len() > 0 {
        match render_clause_list(&parts.having_clauses)? {
            Some(h) => buf_push(buf, "HAVING ", &h),
            None => {},
        }
    }
    if parts.order_by.len() > 0 {
        let ob = join_queries(&parts.order_by, ", ");
        buf_push(buf, "ORDER BY ", &ob);
    }
    match trailing {
        Some(t) => buf_push(buf, "", t),
        None => {},
    }
    match parts.lock {
        Some(lock) => {
            let lock_clause = render_select_lock_clause(lock);
            buf_push(buf, "", &lock_clause);
        },
        None => {},
    }
    Ok(())
}

fn push_joins(buf: &mut SqlQuery, joins: &Vec<SqlQuery>)
    ensures
        final(buf)@ == joins_pushed(old(buf)@, joins.deep_view()),
{
    let ghost start = buf@;
    let ghost js = joins.deep_view();
    for i in 0..joins.len()
        invariant
            js == joins.deep_view(),
            buf@ == joins_pushed(start, js.take(i as int)),
    {
        proof {
            assert(js.take(i + 1).drop_last() =~= js.take(i as int));
            assert(js[i as int] == joins@[i as int]@);
        }
        buf_push(buf, "", &joins[i]);
    }
    proof {
        assert(js.take(joins.len() as int) =~= js);
    }
}

fn group_by_list(group_by: &Vec<SqlIdentifier>) -> (r: Result<SqlQuery, String>)
    ensures
        crate::sql::query_result_is(r, surfaced(join_frags(group_by.deep_view().map_values(|id: Seq<Seq<char>>| ident_frag(id)), ", "@))),
{
    let mut idents: Vec<SqlValue> = Vec::new();
    let ghost gv = group_by.deep_view();
    let ghost gf = gv.map_values(|id: Seq<Seq<char>>| ident_frag(id));
    for i in 0..group_by.len()
        invariant
            gv == group_by.deep_view(),
            gf == gv.map_values(|id: Seq<Seq<char>>| ident_frag(id)),
            idents@.len() == i,
            fragments(idents@) =~= gf.take(i as int),
    {
        proof {
            assert(gv[i as int] == group_by@[i as int].deep_view());
        }
        idents.push(SqlValue::Identifier(group_by[i].copy()));
        assert(fragments(idents@) =~= gf.take(i + 1));
    }
    proof {
        assert(gf.take(group_by.len() as int) =~= gf);
    }
    crate::sql::join(idents, Some(String::from_str(", ")))
}

/// Render the body of a SELECT, given the dialect's rendering of its pagination.
pub fn build_base_query(parts: &QueryParts, pagination: &RenderedPagination) -> (r: Result<SqlQuery, String>)
    ensures
        crate::sql::query_result_is(
            r,
            base_view(parts.deep_view(), pagination.select_prefix.deep_view(), pagination.trailing_clause.deep_view()),
        ),
{
    let ghost pv = parts.deep_view();
    let ghost sp = pagination.select_prefix.deep_view();
    let ghost tc = pagination.trailing_clause.deep_view();
    let prefix_ref: Option<&SqlQuery> = match &pagination.select_prefix {
        Some(q) => Some(q),
        None => None,
    };
    let projection = match build_select_projection(parts, prefix_ref) {
        Ok(q) => q,
        Err(e) => {
            return Err(e);
        },
    };
    let mut buf = SqlQuery::empty();
    buf_push(&mut buf, "", &projection);
    match &parts.from {
        Some(from) => buf_push(&mut buf, "", from),
        None => {},
    }
    push_joins(&mut buf, &parts.joins);
    if parts.where_clauses.len() > 0 {
        match render_clause_list(&parts.where_clauses)? {
            Some(w) => buf_push(&mut buf, "WHERE ", &w),
            None => {},
        }
    }
    if parts.group_by.len() > 0 {
        let gb_joined = group_by_list(&parts.group_by)?;
        buf_push(&mut buf, "GROUP BY ", &gb_joined);
    }
    push_tail(parts, &mut buf, &pagination.trailing_clause)?;
    Ok(buf)
}

// ─── Values and identifiers ──────────────────────────────────────────────────

/// The fragment a value with the given content interpolates as.
pub open spec fn value_frag(v: ValueView) -> Result<QueryView, Seq<char>> {
    match v {
        ValueView::Query(q) => Ok(q),
        ValueView::Identifier(parts) => ident_frag(parts),
        ValueView::Raw(t) => Ok(QueryView::lit(t)),
        ValueView::Array(arr) => if arr.len() == 0 {
            Err(msg_empty_array())
        } else {
            Ok(array_fragment(arr))
        },
        ValueView::Primitive(p) => Ok(QueryView { text: "?"@, raw: spec_render_value(p), values: seq![p] }),
    }
}

/// A single-part identifier, as interpolated: quoted, or failing for an empty name.
pub open spec fn name_frag(c: Seq<char>) -> Result<QueryView, Seq<char>> {
    ident_frag(seq![c])
}

/// A comma-separated list of quoted names; an empty name fails the list.
pub open spec fn names_frag(cols: Seq<Seq<char>>) -> Result<QueryView, Seq<char>> {
    match join_frags(cols.map_values(|c: Seq<char>| name_frag(c)), ", "@) {
        Err(m) => Err(validation_msg(m)),
        Ok(j) => Ok(j),
    }
}

/// `"a", "b"` for a list of names.
fn names_list(cols: &Vec<String>) -> (r: Result<SqlQuery, String>)
    ensures
        crate::sql::query_result_is(r, names_frag(cols.deep_view())),
{
    let ghost cv = cols.deep_view();
    let mut vals: Vec<SqlValue> = Vec::new();
    for i in 0..cols.len()
        invariant
            cv == cols.deep_view(),
            vals@.len() == i,
            fragments(vals@) =~= cv.map_values(|c: Seq<char>| name_frag(c)).take(i as int),
    {
        let mut parts: Vec<String> = Vec::new();
        parts.push(cols[i].clone());
        proof {
            assert(parts.deep_view() =~= seq![cv[i as int]]);
        }
        vals.push(SqlValue::Identifier(SqlIdentifier::new(parts)));
    }
    proof {
        assert(cv.map_values(|c: Seq<char>| name_frag(c)).take(cols.len() as int) =~= cv.map_values(|c: Seq<char>| name_frag(c)));
    }
    crate::sql::join(vals, Some(String::from_str(", ")))
}

/// The quoted identifier of a (possibly dotted) table name.
fn table_identifier(table: &str) -> (r: Result<SqlIdentifier, String>)
    ensures
        ident_frag(split_on(table@, '.')) is Ok ==> (r matches Ok(id) && id.parts.deep_view() == split_on(table@, '.')),
        ident_frag(split_on(table@, '.')) is Err ==> (r matches Err(e) && e@ == validation_msg(msg_empty_part())),
{
    proof {
        lemma_split_on_nonempty(table@, '.');
    }
    identifier(split_char(table, '.'))
}

fn name_identifier(name: &String) -> (r: Result<SqlIdentifier, String>)
    ensures
        name@.len() > 0 ==> (r matches Ok(id) && id.parts.deep_view() == seq![name@]),
        name@.len() == 0 ==> (r matches Err(e) && e@ == validation_msg(msg_empty_part())),
{
    let mut parts: Vec<String> = Vec::new();
    parts.push(name.clone());
    proof {
        assert(parts.deep_view() =~= seq![name@]);
        if name@.len() == 0 {
            assert(parts.deep_view()[0].len() == 0);
        }
    }
    identifier(parts)
}

// ─── Assignments ─────────────────────────────────────────────────────────────

/// Whether the dialect renders insert conflicts MySQL-style.
pub open spec fn mysql_conflicts(d: Dialect) -> bool {
    spec_capabilities(d).insert_conflict == InsertConflictStyle::MySql
}

/// The outcome of rendering an assignment's value: its own error, or the fragment
/// outcome of the value it renders to.
pub open spec fn assign_value(v: AssignView, d: Dialect) -> Result<Result<QueryView, Seq<char>>, Seq<char>> {
    match v {
        AssignView::Sql(vv) => Ok(value_frag(vv)),
        AssignView::Expr(sem) => if mysql_conflicts(d) && sem.excluded is Some {
            let c = sem.excluded->0;
            if c.len() == 0 {
                Err(validation_msg(msg_empty_part()))
            } else {
                Ok(Ok(QueryView::lit("VALUES("@).append(name_frag(c)->Ok_0).then_text(")"@)))
            }
        } else {
            match (sem.eval)(Some(dialect_key(d)), false).res {
                Ok(q) => Ok(Ok(q)),
                Err(e) => Err(e),
            }
        },
    }
}

/// `"col" = value`.
pub open spec fn assignment_frag(a: (Seq<char>, AssignView), d: Dialect) -> Result<QueryView, Seq<char>> {
    if a.0.len() == 0 {
        Err(validation_msg(msg_empty_part()))
    } else {
        match assign_value(a.1, d) {
            Err(e) => Err(e),
            Ok(vf) => surfaced(sql_frags(seq![""@, " = "@, ""@], seq![name_frag(a.0), vf])),
        }
    }
}

/// Assignments joined with `, `; the first failing assignment decides the error.
pub open spec fn assignments_frag(asg: Seq<(Seq<char>, AssignView)>, d: Dialect) -> Result<QueryView, Seq<char>> {
    join_frags(asg.map_values(|a: (Seq<char>, AssignView)| assignment_frag(a, d)), ", "@)
}

fn render_assignment_value(value: &AssignmentValue, dialect: &Dialect) -> (r: Result<SqlValue, String>)
    ensures
        match assign_value(value.deep_view(), *dialect) {
            Err(e) => r matches Err(m) && m@ == e,
            Ok(f) => r matches Ok(v) && spec_fragment(v) == f,
        },
{
    let is_mysql_conflict = match backend_for_dialect(dialect).capabilities().insert_conflict {
        InsertConflictStyle::MySql => true,
        _ => false,
    };
    match value {
        AssignmentValue::Sql(v) => Ok(v.duplicate()),
        AssignmentValue::Expr(expr) => {
            match expr {
                ExprNode::Excluded { column } => {
                    if is_mysql_conflict {
                        let column_id = name_identifier(column)?;
                        let idq = match to_query_fragment(&SqlValue::Identifier(column_id)) {
                            Ok(q) => q,
                            Err(e) => {
                                assert(false);
                                return Err(e);
                            },
                        };
                        let mut q = SqlQuery::literal("VALUES(");
                        q.push_query(&idq);
                        q.push_lit(")");
                        return Ok(SqlValue::Query(q));
                    }
                },
                _ => {},
            }
            let node = expr.duplicate();
            let mut none: Option<WarningsCtx> = None;
            match eval_expr_for_dialect_ctx(node, dialect, &mut none) {
                Ok(q) => Ok(SqlValue::Query(q)),
                Err(e) => Err(e),
            }
        },
    }
}

fn render_assignment(a: &UpdateAssignment, dialect: &Dialect) -> (r: Result<SqlQuery, String>)
    ensures
        crate::sql::query_result_is(r, assignment_frag(a.deep_view(), *dialect)),
{
    let col_id = name_identifier(&a.column)?;
    let ghost cv = a.column@;
    let value = render_assignment_value(&a.value, dialect)?;
    let ghost vf = spec_fragment(value);
    let strings = chunks3("", " = ", "");
    let exprs = values2(SqlValue::Identifier(col_id), value);
    proof {
        assert(fragments(exprs@) =~= seq![name_frag(cv), vf]);
    }
    sql(strings, exprs)
}

fn render_assignments(assignments: &Vec<UpdateAssignment>, dialect: &Dialect) -> (r: Result<SqlQuery, String>)
    ensures
        crate::sql::query_result_is(r, assignments_frag(assignments.deep_view(), *dialect)),
{
    let ghost av = assignments.deep_view();
    let ghost fr = av.map_values(|a: (Seq<char>, AssignView)| assignment_frag(a, *dialect));
    let mut rendered: Vec<SqlQuery> = Vec::new();
    for i in 0..assignments.len()
        invariant
            av == assignments.deep_view(),
            fr == av.map_values(|a: (Seq<char>, AssignView)| assignment_frag(a, *dialect)),
            rendered@.len() == i,
            forall|j: int| 0 <= j < i ==> #[trigger] fr[j] == Ok::<QueryView, Seq<char>>(rendered@[j]@),
    {
        proof {
            assert(av[i as int] == assignments@[i as int].deep_view());
        }
        match render_assignment(&assignments[i], dialect) {
            Ok(q) => rendered.push(q),
            Err(e) => {
                proof {
                    lemma_ok_prefix_join(fr, i as int, ", "@);
                    crate::sql::lemma_join_err_stays(fr, ", "@, i + 1, fr.len() as int);
                    assert(fr.take(fr.len() as int) =~= fr);
                }
                return Err(e);
            },
        }
    }
    proof {
        assert(fr =~= rendered.deep_view().map_values(|q: QueryView| Ok::<QueryView, Seq<char>>(q)));
        lemma_joined_ok(rendered.deep_view(), ", "@);
    }
    Ok(join_queries(&rendered, ", "))
}

/// When the first `i` fragments succeed and fragment `i` fails, the join fails with it.
proof fn lemma_ok_prefix_join(fr: Seq<Result<QueryView, Seq<char>>>, i: int, sep: Seq<char>)
    requires
        0 <= i < fr.len(),
        forall|j: int| 0 <= j < i ==> (#[trigger] fr[j]) is Ok,
        fr[i] is Err,
    ensures
        join_frags(fr.take(i + 1), sep) == Err::<QueryView, Seq<char>>(fr[i]->Err_0),
{
    assert(fr.take(i + 1).drop_last() =~= fr.take(i));
    crate::sql::lemma_join_all_ok(fr.take(i), sep);
}

/// Joining successful fragments is the join of their contents.
proof fn lemma_joined_ok(qs: Seq<QueryView>, sep: Seq<char>)
    ensures
        join_frags(qs.map_values(|q: QueryView| Ok::<QueryView, Seq<char>>(q)), sep) == Ok::<QueryView, Seq<char>>(joined(qs, sep)),
    decreases qs.len(),
{
    if qs.len() > 0 {
        lemma_joined_ok(qs.drop_last(), sep);
        assert(qs.map_values(|q: QueryView| Ok::<QueryView, Seq<char>>(q)).drop_last()
            =~= qs.drop_last().map_values(|q: QueryView| Ok::<QueryView, Seq<char>>(q)));
    }
}

// ─── INSERT ──────────────────────────────────────────────────────────────────

/// The rendered conflict target: `(cols…)` or `ON CONSTRAINT "name"`.
pub open spec fn target_frag(t: Option<TargetView>) -> Result<Option<QueryView>, Seq<char>> {
    match t {
        None => Ok(None),
        Some(TargetView::Columns(cols)) => match names_frag(cols) {
            Err(e) => Err(e),
            Ok(j) => Ok(Some(QueryView::lit("("@).append(j).then_text(")"@))),
        },
        Some(TargetView::Constraint(c)) => match name_frag(c) {
            Err(m) => Err(validation_msg(m)),
            Ok(n) => Ok(Some(QueryView::lit("ON CONSTRAINT "@).append(n))),
        },
    }
}

/// The rendered conflict clause of an insert, if any.
pub open spec fn conflict_view(ins: InsertView, d: Dialect) -> Result<Option<QueryView>, Seq<char>> {
    match ins.conflict.action {
        None => Ok(None),
        Some(action) => match target_frag(ins.conflict.target) {
            Err(e) => Err(e),
            Ok(t) => match action {
                ActionView::DoNothing => match t {
                    Some(tq) => Ok(Some(QueryView::lit("ON CONFLICT "@).append(tq).then_text(" DO NOTHING"@))),
                    None => Ok(Some(QueryView::lit("ON CONFLICT DO NOTHING"@))),
                },
                ActionView::DoUpdate { assignments, predicate } => match assignments_frag(assignments, d) {
                    Err(e) => Err(e),
                    Ok(a) => if mysql_conflicts(d) {
                        Ok(Some(QueryView::lit("ON DUPLICATE KEY UPDATE "@).append(a)))
                    } else {
                        match t {
                            None => Err("Insert conflict update requires a conflict target."@),
                            Some(tq) => {
                                let c = QueryView::lit("ON CONFLICT "@).append(tq).then_text(" DO UPDATE SET "@).append(a);
                                Ok(Some(match predicate {
                                    Some(p) => pushed(c, "WHERE "@, p),
                                    None => c,
                                }))
                            },
                        }
                    },
                },
            },
        },
    }
}

fn render_conflict_target(insert: &InsertState) -> (r: Result<Option<SqlQuery>, String>)
    ensures
        match target_frag(insert.deep_view().conflict.target) {
            Err(e) => r matches Err(m) && m@ == e,
            Ok(t) => r matches Ok(o) && o.deep_view() == t,
        },
{
    match &insert.conflict.target {
        None => Ok(None),
        Some(InsertConflictTarget::Columns(columns)) => {
            let joined = names_list(columns)?;
            let mut q = SqlQuery::literal("(");
            q.push_query(&joined);
            q.push_lit(")");
            Ok(Some(q))
        },
        Some(InsertConflictTarget::Constraint(constraint)) => {
            let constraint_id = name_identifier(constraint)?;
            let idq = match to_query_fragment(&SqlValue::Identifier(constraint_id)) {
                Ok(q) => q,
                Err(e) => {
                    assert(false);
                    return Err(e);
                },
            };
            let mut q = SqlQuery::literal("ON CONSTRAINT ");
            q.push_query(&idq);
            Ok(Some(q))
        },
    }
}

fn render_insert_conflict(insert: &InsertState, dialect: &Dialect) -> (r: Result<Option<SqlQuery>, String>)
    ensures
        match conflict_view(insert.deep_view(), *dialect) {
            Err(e) => r matches Err(m) && m@ == e,
            Ok(c) => r matches Ok(o) && o.deep_view() == c,
        },
{
    let action = match &insert.conflict.action {
        None => return Ok(None),
        Some(action) => action,
    };
    let target = render_conflict_target(insert)?;
    match action {
        InsertConflictAction::DoNothing => match target {
            Some(t) => {
                let mut q = SqlQuery::literal("ON CONFLICT ");
                q.push_query(&t);
                q.push_lit(" DO NOTHING");
                Ok(Some(q))
            },
            None => Ok(Some(SqlQuery::literal("ON CONFLICT DO NOTHING"))),
        },
        InsertConflictAction::DoUpdate { assignments, predicate } => {
            let assignments_sql = render_assignments(assignments, dialect)?;
            let conflict_style = backend_for_dialect(dialect).capabilities().insert_conflict;
            match conflict_style {
                InsertConflictStyle::MySql => {
                    let mut q = SqlQuery::literal("ON DUPLICATE KEY UPDATE ");
                    q.push_query(&assignments_sql);
                    return Ok(Some(q));
                },
                _ => {},
            }
            let target_sql = match target {
                Some(t) => t,
                None => return Err(String::from_str("Insert conflict update requires a conflict target.")),
            };
            let mut conflict = SqlQuery::literal("ON CONFLICT ");
            conflict.push_query(&target_sql);
            conflict.push_lit(" DO UPDATE SET ");
            conflict.push_query(&assignments_sql);
            match predicate {
                Some(p) => buf_push(&mut conflict, "WHERE ", p),
                None => {},
            }
            Ok(Some(conflict))
        },
    }
}

/// `(v1, v2, …)` for one row of values.
pub open spec fn row_frag(row: Seq<ValueView>) -> Result<QueryView, Seq<char>> {
    match join_frags(row.map_values(|v: ValueView| value_frag(v)), ", "@) {
        Err(m) => Err(validation_msg(m)),
        Ok(j) => Ok(QueryView::lit("("@).append(j).then_text(")"@)),
    }
}

/// All rows, comma-separated; the first failing value decides the error.
pub open spec fn rows_frag(rows: Seq<Seq<ValueView>>) -> Result<QueryView, Seq<char>> {
    join_frags(rows.map_values(|row: Seq<ValueView>| row_frag(row)), ", "@)
}

fn render_row(row: &Vec<SqlValue>) -> (r: Result<SqlQuery, String>)
    ensures
        crate::sql::query_result_is(r, row_frag(row.deep_view())),
{
    let vals = crate::types::duplicate_vec(row);
    proof {
        assert(fragments(vals@) =~= row.deep_view().map_values(|v: ValueView| value_frag(v)));
    }
    let joined = crate::sql::join(vals, Some(String::from_str(", ")))?;
    let mut q = SqlQuery::literal("(");
    q.push_query(&joined);
    q.push_lit(")");
    Ok(q)
}

fn render_rows(rows: &Vec<Vec<SqlValue>>) -> (r: Result<SqlQuery, String>)
    ensures
        crate::sql::query_result_is(r, rows_frag(rows.deep_view())),
{
    let ghost rv = rows.deep_view();
    let ghost fr = rv.map_values(|row: Seq<ValueView>| row_frag(row));
    let mut rendered: Vec<SqlQuery> = Vec::new();
    for i in 0..rows.len()
        invariant
            rv == rows.deep_view(),
            fr == rv.map_values(|row: Seq<ValueView>| row_frag(row)),
            rendered@.len() == i,
            forall|j: int| 0 <= j < i ==> #[trigger] fr[j] == Ok::<QueryView, Seq<char>>(rendered@[j]@),
    {
        proof {
            assert(rv[i as int] == rows@[i as int].deep_view());
        }
        match render_row(&rows[i]) {
            Ok(q) => rendered.push(q),
            Err(e) => {
                proof {
                    lemma_ok_prefix_join(fr, i as int, ", "@);
                    crate::sql::lemma_join_err_stays(fr, ", "@, i + 1, fr.len() as int);
                    assert(fr.take(fr.len() as int) =~= fr);
                }
                return Err(e);
            },
        }
    }
    proof {
        assert(fr =~= rendered.deep_view().map_values(|q: QueryView| Ok::<QueryView, Seq<char>>(q)));
        lemma_joined_ok(rendered.deep_view(), ", "@);
    }
    Ok(join_queries(&rendered, ", "))
}

/// The keyword an insert starts with (`INSERT IGNORE INTO` for a MySQL-style DO NOTHING
/// without target).
pub open spec fn insert_keyword(ins: InsertView, d: Dialect) -> Seq<char> {
    if mysql_conflicts(d) && ins.conflict.action == Some(ActionView::DoNothing) && ins.conflict.target is None {
        "INSERT IGNORE INTO "@
    } else {
        "INSERT INTO "@
    }
}

/// `q` followed by the conflict clause, where the dialect renders one.
pub open spec fn with_conflict(q: QueryView, ins: InsertView, d: Dialect) -> Result<QueryView, Seq<char>> {
    if !mysql_conflicts(d) || ins.conflict.action matches Some(ActionView::DoUpdate { .. }) {
        match conflict_view(ins, d) {
            Err(e) => Err(e),
            Ok(Some(c)) => Ok(pushed(q, ""@, c)),
            Ok(None) => Ok(q),
        }
    } else {
        Ok(q)
    }
}

/// The rendered INSERT statement.
pub open spec fn insert_view(ins: InsertView, d: Dialect) -> Result<QueryView, Seq<char>> {
    match ins.into {
        None => Err("Cannot build INSERT query without a target table"@),
        Some(table) => match ident_frag(split_on(table, '.')) {
            Err(_) => Err(validation_msg(msg_empty_part())),
            Ok(tid) => {
                let colf: Result<QueryView, Seq<char>> = if ins.column_names.len() > 0 {
                    match names_frag(ins.column_names) {
                        Err(e) => Err(e),
                        Ok(j) => Ok(QueryView::lit(" ("@).append(j).then_text(")"@)),
                    }
                } else {
                    Ok(QueryView::empty())
                };
                match colf {
                    Err(e) => Err(e),
                    Ok(cf) => {
                        let head = QueryView::lit(insert_keyword(ins, d)).append(tid).append(cf);
                        match ins.select {
                            Some(sel) => with_conflict(head.then_text(" "@).append(sel), ins, d),
                            None => if ins.rows.len() == 0 {
                                Err("Cannot build INSERT query without values or select()"@)
                            } else {
                                match rows_frag(ins.rows) {
                                    Err(e) => Err(e),
                                    Ok(vl) => with_conflict(head.then_text(" VALUES "@).append(vl), ins, d),
                                }
                            },
                        }
                    },
                }
            },
        },
    }
}

fn finish_insert(query: SqlQuery, insert: &InsertState, dialect: &Dialect) -> (r: Result<SqlQuery, String>)
    ensures
        crate::sql::query_result_is(r, with_conflict(query@, insert.deep_view(), *dialect)),
{
    let mysql = match backend_for_dialect(dialect).capabilities().insert_conflict {
        InsertConflictStyle::MySql => true,
        _ => false,
    };
    let do_update = match &insert.conflict.action {
        Some(InsertConflictAction::DoUpdate { .. }) => true,
        _ => false,
    };
    let mut query = query;
    if !mysql || do_update {
        match render_insert_conflict(insert, dialect)? {
            Some(conflict) => buf_push(&mut query, "", &conflict),
            None => {},
        }
    }
    Ok(query)
}

/// Render an INSERT statement.
pub fn build_insert_query(insert: &InsertState, dialect: &Dialect) -> (r: Result<SqlQuery, String>)
    ensures
        crate::sql::query_result_is(r, insert_view(insert.deep_view(), *dialect)),
{
    let table = match &insert.into {
        Some(t) => t,
        None => return Err(String::from_str("Cannot build INSERT query without a target table")),
    };
    let table_id = table_identifier(table.as_str())?;
    let tq = match to_query_fragment(&SqlValue::Identifier(table_id)) {
        Ok(q) => q,
        Err(e) => {
            assert(false);
            return Err(e);
        },
    };
    let column_fragment = if insert.column_names.len() > 0 {
        let joined = names_list(&insert.column_names)?;
        let mut q = SqlQuery::literal(" (");
        q.push_query(&joined);
        q.push_lit(")");
        q
    } else {
        SqlQuery::empty()
    };
    let mysql = match backend_for_dialect(dialect).capabilities().insert_conflict {
        InsertConflictStyle::MySql => true,
        _ => false,
    };
    let ignore = mysql && match &insert.conflict.action {
        Some(InsertConflictAction::DoNothing) => true,
        _ => false,
    } && insert.conflict.target.is_none();
    let mut head = if ignore { SqlQuery::literal("INSERT IGNORE INTO ") } else { SqlQuery::literal("INSERT INTO ") };
    head.push_query(&tq);
    head.push_query(&column_fragment);
    match &insert.select {
        Some(sel) => {
            head.push_lit(" ");
            head.push_query(sel);
            finish_insert(head, insert, dialect)
        },
        None => {
            if insert.rows.len() == 0 {
                return Err(String::from_str("Cannot build INSERT query without values or select()"));
            }
            let values_list = render_rows(&insert.rows)?;
            head.push_lit(" VALUES ");
            head.push_query(&values_list);
            finish_insert(head, insert, dialect)
        },
    }
}

// ─── UPDATE / DELETE ─────────────────────────────────────────────────────────

/// `head [WHERE preds]`.
pub open spec fn with_where(head: QueryView, cs: Seq<(QueryView, LogicalOp)>) -> QueryView {
    match clause_list(cs) {
        Some(w) => head.then_text(" "@).then_text("WHERE "@).append(w),
        None => head,
    }
}

fn push_where(head: &mut SqlQuery, where_clauses: &Vec<WhereEntry>) -> (r: Result<(), String>)
    ensures
        r is Ok,
        final(head)@ == with_where(old(head)@, where_clauses.deep_view()),
{
    match render_clause_list(where_clauses)? {
        Some(w) => {
            head.push_lit(" ");
            head.push_lit("WHERE ");
            head.push_query(&w);
        },
        None => {},
    }
    Ok(())
}

/// The rendered UPDATE statement (assignments are rendered as for Postgres).
pub open spec fn update_view(u: UpdateView, cs: Seq<(QueryView, LogicalOp)>) -> Result<QueryView, Seq<char>> {
    match u.table {
        None => Err("Cannot build UPDATE query without a target table"@),
        Some(t) => if u.assignments.len() == 0 {
            Err("Cannot build UPDATE query without set()"@)
        } else {
            match ident_frag(split_on(t, '.')) {
                Err(_) => Err(validation_msg(msg_empty_part())),
                Ok(tid) => match assignments_frag(u.assignments, Dialect::Postgres) {
                    Err(e) => Err(e),
                    Ok(a) => Ok(with_where(QueryView::lit("UPDATE "@).append(tid).then_text(" SET "@).append(a), cs)),
                },
            }
        },
    }
}

fn build_update_query(update: &UpdateState, where_clauses: &Vec<WhereEntry>) -> (r: Result<SqlQuery, String>)
    ensures
        crate::sql::query_result_is(r, update_view(update.deep_view(), where_clauses.deep_view())),
{
    let table = match &update.table {
        Some(t) => t,
        None => return Err(String::from_str("Cannot build UPDATE query without a target table")),
    };
    if update.assignments.len() == 0 {
        return Err(String::from_str("Cannot build UPDATE query without set()"));
    }
    let table_id = table_identifier(table.as_str())?;
    let tq = match to_query_fragment(&SqlValue::Identifier(table_id)) {
        Ok(q) => q,
        Err(e) => {
            assert(false);
            return Err(e);
        },
    };
    let assignments_joined = render_assignments(&update.assignments, &Dialect::Postgres)?;
    let mut head = SqlQuery::literal("UPDATE ");
    head.push_query(&tq);
    head.push_lit(" SET ");
    head.push_query(&assignments_joined);
    push_where(&mut head, where_clauses)?;
    Ok(head)
}

/// The rendered DELETE statement.
pub open spec fn delete_view(table: Seq<char>, cs: Seq<(QueryView, LogicalOp)>) -> Result<QueryView, Seq<char>> {
    match ident_frag(split_on(table, '.')) {
        Err(_) => Err(validation_msg(msg_empty_part())),
        Ok(tid) => Ok(with_where(QueryView::lit("DELETE FROM "@).append(tid), cs)),
    }
}

fn build_delete_query(from_table: &str, where_clauses: &Vec<WhereEntry>) -> (r: Result<SqlQuery, String>)
    ensures
        crate::sql::query_result_is(r, delete_view(from_table@, where_clauses.deep_view())),
{
    let table_id = table_identifier(from_table)?;
    let tq = match to_query_fragment(&SqlValue::Identifier(table_id)) {
        Ok(q) => q,
        Err(e) => {
            assert(false);
            return Err(e);
        },
    };
    let mut head = SqlQuery::literal("DELETE FROM ");
    head.push_query(&tq);
    push_where(&mut head, where_clauses)?;
    Ok(head)
}

// ─── Pending join ────────────────────────────────────────────────────────────

/// `<message> for the '<dialect>' dialect`.
pub open spec fn join_msg(what: Seq<char>, name: Seq<char>) -> Seq<char> {
    what + " is not supported for the '"@ + name + "' dialect"@
}

/// The state with its pending join committed into the join list.
pub open spec fn normalize_view(p: PartsView) -> Result<PartsView, Seq<char>> {
    match p.pending_join {
        None => Ok(p),
        Some(pj) => {
            let caps = spec_capabilities(p.dialect);
            let name = p.dialect.spec_as_str();
            if pj.predicate is None && pj.using.len() == 0 {
                Err("Join predicate is required. Call on() or using() before continuing the query."@)
            } else if pj.join_type == JoinType::Right && !caps.joins.right_join {
                Err(join_msg("RIGHT JOIN"@, name))
            } else if pj.join_type == JoinType::FullOuter && !caps.joins.full_outer_join {
                Err(join_msg("FULL OUTER JOIN"@, name))
            } else if pj.using.len() > 0 && !caps.joins.using_syntax {
                Err(join_msg("USING syntax"@, name))
            } else {
                let kw = QueryView::lit(pj.join_type.spec_as_sql() + " "@).append(pj.source);
                let clause: Result<QueryView, Seq<char>> = match pj.predicate {
                    Some(pred) => Ok(kw.then_text(" ON "@).append(pred)),
                    None => match join_frags(pj.using.map_values(|id: Seq<Seq<char>>| ident_frag(id)), ", "@) {
                        Err(m) => Err(validation_msg(m)),
                        Ok(u) => Ok(kw.then_text(" USING ("@).append(u).then_text(")"@)),
                    },
                };
                match clause {
                    Err(e) => Err(e),
                    Ok(c) => Ok(PartsView { pending_join: None, joins: p.joins.push(c), ..p }),
                }
            }
        },
    }
}

fn join_unsupported(what: &str, dialect: &Dialect) -> (e: String)
    ensures
        e@ == join_msg(what@, dialect.spec_as_str()),
{
    let mut e = String::from_str(what);
    crate::text::push_str(&mut e, " is not supported for the '");
    crate::text::push_str(&mut e, dialect.as_str());
    crate::text::push_str(&mut e, "' dialect");
    e
}

/// Commit a pending join (with ON or USING) into the joins list, after checking the
/// join type and USING syntax against the dialect.
pub fn normalize_pending_join(parts: QueryParts) -> (r: Result<QueryParts, String>)
    ensures
        match normalize_view(parts.deep_view()) {
            Ok(v) => r matches Ok(q) && q.deep_view() == v,
            Err(e) => r matches Err(m) && m@ == e,
        },
{
    let mut parts = parts;
    let ghost before = parts.deep_view();
    let pj = match parts.pending_join.take() {
        None => return Ok(parts),
        Some(pj) => pj,
    };
    if pj.predicate.is_none() && pj.using.len() == 0 {
        return Err(String::from_str("Join predicate is required. Call on() or using() before continuing the query."));
    }
    let caps = backend_for_dialect(&parts.dialect).capabilities();
    match pj.join_type {
        JoinType::Right => if !caps.joins.right_join {
            return Err(join_unsupported("RIGHT JOIN", &parts.dialect));
        },
        JoinType::FullOuter => if !caps.joins.full_outer_join {
            return Err(join_unsupported("FULL OUTER JOIN", &parts.dialect));
        },
        _ => {},
    }
    if pj.using.len() > 0 && !caps.joins.using_syntax {
        return Err(join_unsupported("USING syntax", &parts.dialect));
    }
    let mut clause = SqlQuery::literal(pj.join_type.as_sql());
    clause.push_lit(" ");
    clause.push_query(&pj.source);
    match &pj.predicate {
        Some(pred) => {
            clause.push_lit(" ON ");
            clause.push_query(pred);
        },
        None => {
            let using_joined = group_by_list(&pj.using)?;
            clause.push_lit(" USING (");
            clause.push_query(&using_joined);
            clause.push_lit(")");
        },
    }
    let ghost old_joins = parts.joins.deep_view();
    parts.joins.push(clause);
    proof {
        assert(parts.joins.deep_view() =~= old_joins.push(clause@));
    }
    Ok(parts)
}

// ─── Full query ──────────────────────────────────────────────────────────────

/// One rendered CTE: `"name"[(cols)] AS (query)`.
pub open spec fn cte_frag(c: CteView, aliases_required: bool) -> Result<QueryView, Seq<char>> {
    match name_frag(c.name) {
        Err(m) => Err(validation_msg(m)),
        Ok(n) => {
            let head: Result<QueryView, Seq<char>> = if c.recursive && aliases_required && c.columns.len() > 0 {
                match names_frag(c.columns) {
                    Err(e) => Err(e),
                    Ok(cols) => Ok(pushed(n, "("@, cols).then_text(")"@)),
                }
            } else {
                Ok(n)
            };
            match head {
                Err(e) => Err(e),
                Ok(h) => Ok(h.then_text(" AS ("@).append(c.query).then_text(")"@)),
            }
        },
    }
}

/// The rendered CTEs, comma-separated.
pub open spec fn ctes_frag(ctes: Seq<CteView>, aliases_required: bool) -> Result<QueryView, Seq<char>> {
    join_frags(ctes.map_values(|c: CteView| cte_frag(c, aliases_required)), ", "@)
}

/// The keyword the CTE list starts with.
pub open spec fn ctes_keyword(ctes: Seq<CteView>, d: Dialect) -> Seq<char> {
    if (exists|i: int| 0 <= i < ctes.len() && (#[trigger] ctes[i]).recursive)
        && spec_capabilities(d).recursive_ctes.style == RecursiveCteStyle::WithRecursiveKeyword {
        "WITH RECURSIVE "@
    } else {
        "WITH "@
    }
}

fn render_cte(cte: &CteDefinition, aliases_required: bool) -> (r: Result<SqlQuery, String>)
    ensures
        crate::sql::query_result_is(r, cte_frag(cte.deep_view(), aliases_required)),
{
    let name_id = name_identifier(&cte.name)?;
    let mut name_query = match to_query_fragment(&SqlValue::Identifier(name_id)) {
        Ok(q) => q,
        Err(e) => {
            assert(false);
            return Err(e);
        },
    };
    if cte.recursive && aliases_required && cte.columns.len() > 0 {
        let columns = names_list(&cte.columns)?;
        buf_push(&mut name_query, "(", &columns);
        name_query.push_lit(")");
    }
    name_query.push_lit(" AS (");
    name_query.push_query(&cte.query);
    name_query.push_lit(")");
    Ok(name_query)
}

fn render_ctes(ctes: &Vec<CteDefinition>, aliases_required: bool) -> (r: Result<SqlQuery, String>)
    ensures
        crate::sql::query_result_is(r, ctes_frag(ctes.deep_view(), aliases_required)),
{
    let ghost cv = ctes.deep_view();
    let ghost fr = cv.map_values(|c: CteView| cte_frag(c, aliases_required));
    let mut rendered: Vec<SqlQuery> = Vec::new();
    for i in 0..ctes.len()
        invariant
            cv == ctes.deep_view(),
            fr == cv.map_values(|c: CteView| cte_frag(c, aliases_required)),
            rendered@.len() == i,
            forall|j: int| 0 <= j < i ==> #[trigger] fr[j] == Ok::<QueryView, Seq<char>>(rendered@[j]@),
    {
        proof {
            assert(cv[i as int] == ctes@[i as int].deep_view());
        }
        match render_cte(&ctes[i], aliases_required) {
            Ok(q) => rendered.push(q),
            Err(e) => {
                proof {
                    lemma_ok_prefix_join(fr, i as int, ", "@);
                    crate::sql::lemma_join_err_stays(fr, ", "@, i + 1, fr.len() as int);
                    assert(fr.take(fr.len() as int) =~= fr);
                }
                return Err(e);
            },
        }
    }
    proof {
        assert(fr =~= rendered.deep_view().map_values(|q: QueryView| Ok::<QueryView, Seq<char>>(q)));
        lemma_joined_ok(rendered.deep_view(), ", "@);
    }
    Ok(join_queries(&rendered, ", "))
}

fn any_recursive(ctes: &Vec<CteDefinition>) -> (r: bool)
    ensures
        r == exists|i: int| 0 <= i < ctes.deep_view().len() && (#[trigger] ctes.deep_view()[i]).recursive,
{
    for i in 0..ctes.len()
        invariant
            forall|j: int| 0 <= j < i ==> !(#[trigger] ctes.deep_view()[j]).recursive,
    {
        if ctes[i].recursive {
            assert(ctes.deep_view()[i as int].recursive);
            return true;
        }
    }
    false
}

/// The message refusing a recorded fallback rewrite in strict mode.
pub open spec fn strict_msg(w: WarningView) -> Seq<char> {
    "Dialect \""@ + w.dialect + "\" does not support "@ + w.feature + " (strict mode): "@ + w.message
}

/// The statement body: the SELECT, INSERT, UPDATE or DELETE, with RETURNING.
pub open spec fn body_view(p: PartsView, sp: Option<QueryView>, tc: Option<QueryView>) -> Result<QueryView, Seq<char>> {
    let body = match p.statement {
        Some(StatementKind::Insert) => insert_view(p.insert, p.dialect),
        Some(StatementKind::Update) => update_view(p.update, p.where_clauses),
        Some(StatementKind::Delete) => match p.delete_from {
            None => Err("Cannot build DELETE query without a target table"@),
            Some(t) => delete_view(t, p.where_clauses),
        },
        _ => base_view(p, sp, tc),
    };
    match body {
        Err(e) => Err(e),
        Ok(b) => Ok(match p.returning {
            Some(r) => pushed(b, "RETURNING "@, r),
            None => b,
        }),
    }
}

/// `buf` followed by each compound part: ` OP (query)`.
pub open spec fn compounds_pushed(b: QueryView, cs: Seq<(CompoundOperator, QueryView)>) -> QueryView
    decreases cs.len(),
{
    if cs.len() == 0 {
        b
    } else {
        let prev = compounds_pushed(b, cs.drop_last());
        let prev = if prev.text.len() > 0 { prev.then_text(" "@) } else { prev };
        prev.then_text(cs.last().0.spec_as_sql()).then_text(" ("@).append(cs.last().1).then_text(")"@)
    }
}

/// The rendered query of a validated state without a pending join.
pub open spec fn render_view(p: PartsView, sp: Option<QueryView>, tc: Option<QueryView>) -> Result<QueryView, Seq<char>> {
    if p.dialect_strict && p.pending_warnings.len() > 0 {
        Err(strict_msg(p.pending_warnings[0]))
    } else {
        let start: Result<QueryView, Seq<char>> = if p.ctes.len() > 0 {
            match ctes_frag(p.ctes, spec_capabilities(p.dialect).recursive_ctes.column_aliases_required) {
                Err(e) => Err(e),
                Ok(j) => Ok(pushed(QueryView::empty(), ctes_keyword(p.ctes, p.dialect), j)),
            }
        } else {
            Ok(QueryView::empty())
        };
        match start {
            Err(e) => Err(e),
            Ok(b) => match body_view(p, sp, tc) {
                Err(e) => Err(e),
                Ok(body) => Ok(compounds_pushed(pushed(b, ""@, body), p.compounds)),
            },
        }
    }
}

fn push_compounds(buf: &mut SqlQuery, compounds: &Vec<CompoundPart>)
    ensures
        final(buf)@ == compounds_pushed(old(buf)@, compounds.deep_view()),
{
    let ghost start = buf@;
    let ghost cs = compounds.deep_view();
    for i in 0..compounds.len()
        invariant
            cs == compounds.deep_view(),
            buf@ == compounds_pushed(start, cs.take(i as int)),
    {
        proof {
            assert(cs.take(i + 1).drop_last() =~= cs.take(i as int));
            assert(cs[i as int] == compounds@[i as int].deep_view());
        }
        let compound = &compounds[i];
        if !buf.text.as_str().is_empty() {
            buf.push_lit(" ");
        }
        buf.push_lit(compound.operator.as_sql());
        buf.push_lit(" (");
        buf.push_query(&compound.query);
        buf.push_lit(")");
    }
    proof {
        assert(cs.take(compounds.len() as int) =~= cs);
    }
}

fn build_body(parts: &QueryParts, pagination: &RenderedPagination) -> (r: Result<SqlQuery, String>)
    requires
        pagination_rendered_ok(parts.dialect, parts.pagination, *pagination),
    ensures
        crate::sql::query_result_is(
            r,
            body_view(parts.deep_view(), pagination.select_prefix.deep_view(), pagination.trailing_clause.deep_view()),
        ),
{
    let mut body = match parts.statement {
        Some(StatementKind::Insert) => build_insert_query(&parts.insert, &parts.dialect),
        Some(StatementKind::Update) => build_update_query(&parts.update, &parts.where_clauses),
        Some(StatementKind::Delete) => match &parts.delete.from_table {
            Some(t) => build_delete_query(t.as_str(), &parts.where_clauses),
            None => Err(String::from_str("Cannot build DELETE query without a target table")),
        },
        _ => build_base_query(parts, pagination),
    }?;
    match &parts.returning {
        Some(returning) => buf_push(&mut body, "RETURNING ", returning),
        None => {},
    }
    Ok(body)
}

fn render_state(parts: &QueryParts, pagination: &RenderedPagination) -> (r: Result<SqlQuery, String>)
    requires
        pagination_rendered_ok(parts.dialect, parts.pagination, *pagination),
    ensures
        crate::sql::query_result_is(
            r,
            render_view(parts.deep_view(), pagination.select_prefix.deep_view(), pagination.trailing_clause.deep_view()),
        ),
{
    let ghost pv = parts.deep_view();
    let ghost sp = pagination.select_prefix.deep_view();
    let ghost tc = pagination.trailing_clause.deep_view();
    if parts.dialect_strict && parts.pending_warnings.len() > 0 {
        let w = &parts.pending_warnings[0];
        let mut e = String::from_str("Dialect \"");
        crate::text::push_str(&mut e, w.dialect.as_str());
        crate::text::push_str(&mut e, "\" does not support ");
        crate::text::push_str(&mut e, w.feature.as_str());
        crate::text::push_str(&mut e, " (strict mode): ");
        crate::text::push_str(&mut e, w.message.as_str());
        proof {
            assert(pv.pending_warnings[0] == w.deep_view());
            assert(e@ =~= strict_msg(pv.pending_warnings[0]));
            assert(crate::sql::query_result_is(Err(e), render_view(pv, sp, tc)));
        }
        return Err(e);
    }
    let mut buf = SqlQuery::empty();
    if parts.ctes.len() > 0 {
        let caps = backend_for_dialect(&parts.dialect).capabilities();
        let has_recursive = any_recursive(&parts.ctes);
        let keyword = match caps.recursive_ctes.style {
            RecursiveCteStyle::WithRecursiveKeyword => if has_recursive { "WITH RECURSIVE " } else { "WITH " },
            _ => "WITH ",
        };
        let ctes_joined = match render_ctes(&parts.ctes, caps.recursive_ctes.column_aliases_required) {
            Ok(q) => q,
            Err(e) => {
                assert(crate::sql::query_result_is(Err(e), render_view(pv, sp, tc)));
                return Err(e);
            },
        };
        buf_push(&mut buf, keyword, &ctes_joined);
    }
    let body = match build_body(parts, pagination) {
        Ok(b) => b,
        Err(e) => {
            assert(crate::sql::query_result_is(Err(e), render_view(pv, sp, tc)));
            return Err(e);
        },
    };
    buf_push(&mut buf, "", &body);
    push_compounds(&mut buf, &parts.compounds);
    assert(crate::sql::query_result_is(Ok(buf), render_view(pv, sp, tc)));
    Ok(buf)
}

// ─── Validation and the full build ───────────────────────────────────────────

/// The outcome of validating a state (with its pending join committed first).
pub open spec fn validation_outcome(p: PartsView) -> Result<(), Seq<char>> {
    match normalize_view(p) {
        Err(e) => Err(e),
        Ok(n) => spec_validate_parts(n),
    }
}

/// The validation outcome as the state's cache reports it.
pub open spec fn cached_validation(p: PartsView) -> Result<(), Seq<char>> {
    if p.validation.0 == VALIDATION_STATUS_VALID {
        Ok(())
    } else if p.validation.0 == VALIDATION_STATUS_INVALID {
        Err(match p.validation.1 {
            Some(s) => s,
            None => "Validation cache missing stored error"@,
        })
    } else {
        match validation_outcome(p) {
            Ok(_) => Ok(()),
            Err(e) => Err(match p.validation.1 {
                Some(s) => s,
                None => e,
            }),
        }
    }
}

/// The cache once the state has been validated.
pub open spec fn validated_cache(p: PartsView) -> (u8, Option<Seq<char>>) {
    if p.validation.0 == VALIDATION_STATUS_VALID || p.validation.0 == VALIDATION_STATUS_INVALID {
        p.validation
    } else {
        match validation_outcome(p) {
            Ok(_) => (VALIDATION_STATUS_VALID, p.validation.1),
            Err(e) => (VALIDATION_STATUS_INVALID, Some(match p.validation.1 {
                Some(s) => s,
                None => e,
            })),
        }
    }
}

/// `r` reports the unit outcome `s`.
pub open spec fn unit_result_is(r: Result<(), String>, s: Result<(), Seq<char>>) -> bool {
    match s {
        Ok(_) => r is Ok,
        Err(m) => r matches Err(e) && e@ == m,
    }
}

/// Validate a state, committing its pending join first.
fn validate_query_uncached(parts: &QueryParts) -> (r: Result<(), String>)
    ensures
        unit_result_is(r, validation_outcome(parts.deep_view())),
{
    if parts.pending_join.is_some() {
        let normalized = normalize_pending_join(parts.duplicate())?;
        validate_query_parts(&normalized)
    } else {
        validate_query_parts(parts)
    }
}

/// The rendered query of a state: its pending join committed, then rendered.
pub open spec fn normalized_render(p: PartsView, sp: Option<QueryView>, tc: Option<QueryView>) -> Result<QueryView, Seq<char>> {
    match normalize_view(p) {
        Err(e) => Err(e),
        Ok(n) => render_view(n, sp, tc),
    }
}

/// The pagination fragments of a state.
pub open spec fn pagination_of(p: PartsView) -> (Option<QueryView>, Option<QueryView>) {
    spec_render_pagination(p.dialect, p.pagination)
}

proof fn lemma_body_ignores_caches(n: PartsView, m: PartsView, sp: Option<QueryView>, tc: Option<QueryView>)
    requires
        m == (PartsView { cached_query: m.cached_query, validation: m.validation, ..n }),
    ensures
        body_view(m, sp, tc) == body_view(n, sp, tc),
{
}

/// Rendering and validating a state do not read its caches (its remembered query and
/// validation outcome).
#[verifier::spinoff_prover]
pub proof fn lemma_render_ignores_caches(p: PartsView, q: PartsView)
    requires
        q == (PartsView { cached_query: q.cached_query, validation: q.validation, ..p }),
    ensures
        build_view(q) == build_view(p),
        validation_outcome(q) == validation_outcome(p),
{
    assert(pagination_of(q) == pagination_of(p));
    match normalize_view(p) {
        Err(_) => {},
        Ok(n) => {
            let m = PartsView { cached_query: q.cached_query, validation: q.validation, ..n };
            assert(normalize_view(q) == Ok::<PartsView, Seq<char>>(m));
            lemma_body_ignores_caches(n, m, pagination_of(p).0, pagination_of(p).1);
            assert(render_view(m, pagination_of(p).0, pagination_of(p).1) == render_view(n, pagination_of(p).0, pagination_of(p).1));
            assert(spec_validate_parts(m) == spec_validate_parts(n));
        },
    }
}

/// The query a state renders to (after validation).
pub open spec fn build_view(p: PartsView) -> Result<QueryView, Seq<char>> {
    normalized_render(p, pagination_of(p).0, pagination_of(p).1)
}

fn render_normalized(parts: &QueryParts) -> (r: Result<SqlQuery, String>)
    ensures
        crate::sql::query_result_is(r, build_view(parts.deep_view())),
{
    let ghost pv = parts.deep_view();
    let pagination = match render_pagination(&parts.dialect, &parts.pagination) {
        Ok(p) => p,
        Err(e) => {
            assert(false);
            return Err(e);
        },
    };
    let ghost sp = pagination.select_prefix.deep_view();
    let ghost tc = pagination.trailing_clause.deep_view();
    assert(sp == pagination_of(pv).0 && tc == pagination_of(pv).1);
    if parts.pending_join.is_some() {
        let normalized = match normalize_pending_join(parts.duplicate()) {
            Ok(n) => n,
            Err(e) => {
                assert(crate::sql::query_result_is(Err(e), normalized_render(pv, sp, tc)));
                return Err(e);
            },
        };
        let r = render_state(&normalized, &pagination);
        assert(crate::sql::query_result_is(r, normalized_render(pv, sp, tc)));
        r
    } else {
        let r = render_state(parts, &pagination);
        assert(crate::sql::query_result_is(r, normalized_render(pv, sp, tc)));
        r
    }
}

/// Validate (through the state's cache) and render a builder state.
///
/// The cache of `parts` records the validation outcome; nothing else changes.
pub fn build_query(parts: &mut QueryParts) -> (r: Result<SqlQuery, String>)
    ensures
        match cached_validation(old(parts).deep_view()) {
            Err(e) => r matches Err(m) && m@ == e,
            Ok(_) => crate::sql::query_result_is(r, build_view(old(parts).deep_view())),
        },
        final(parts).deep_view() == (PartsView { validation: validated_cache(old(parts).deep_view()), ..old(parts).deep_view() }),
{
    let ghost before = parts.deep_view();
    let mut cache = parts.validation_cache.duplicate();
    let snapshot: &QueryParts = parts;
    let check = || -> (res: Result<(), String>)
        ensures
            unit_result_is(res, validation_outcome(snapshot.deep_view())),
        { validate_query_uncached(snapshot) };
    let validated = cache.get_or_try_init(check);
    let r = match validated {
        Err(e) => Err(e),
        Ok(()) => render_normalized(parts),
    };
    parts.validation_cache = cache;
    proof {
        assert(parts.deep_view() =~= (PartsView { validation: validated_cache(before), ..before }));
    }
    r
}

/// Build a query and return it with the warnings recorded while the state was built.
/// In strict mode a recorded warning is an error: the first one comes back as a
/// [`QueryError::HardError`] and the state is left as it was; every other build failure
/// is a [`QueryError::Validation`].
pub fn build_query_with_context(parts: &mut QueryParts) -> (r: Result<RenderResult, QueryError>)
    ensures
        old(parts).dialect_strict && old(parts).deep_view().pending_warnings.len() > 0 ==> {
            let w = old(parts).deep_view().pending_warnings[0];
            &&& r matches Err(QueryError::HardError { feature, dialect, message })
            &&& feature@ == w.feature && dialect@ == w.dialect && message@ == w.message
            &&& final(parts).deep_view() == old(parts).deep_view()
        },
        !(old(parts).dialect_strict && old(parts).deep_view().pending_warnings.len() > 0) ==> {
            &&& match cached_validation(old(parts).deep_view()) {
                Err(e) => r matches Err(QueryError::Validation(m)) && m@ == e,
                Ok(_) => match build_view(old(parts).deep_view()) {
                    Ok(v) => r matches Ok(rr) && rr.query@ == v && rr.warnings.deep_view() == old(parts).deep_view().pending_warnings,
                    Err(e) => r matches Err(QueryError::Validation(m)) && m@ == e,
                },
            }
            &&& final(parts).deep_view() == (PartsView { validation: validated_cache(old(parts).deep_view()), ..old(parts).deep_view() })
        },
{
    if parts.dialect_strict && parts.pending_warnings.len() > 0 {
        let w = &parts.pending_warnings[0];
        proof {
            assert(parts.deep_view().pending_warnings[0] == parts.pending_warnings@[0].view());
        }
        return Err(QueryError::HardError {
            feature: w.feature.clone(),
            dialect: w.dialect.clone(),
            message: w.message.clone(),
        });
    }
    let query = match build_query(parts) {
        Ok(q) => q,
        Err(e) => return Err(QueryError::Validation(e)),
    };
    Ok(RenderResult { query, warnings: crate::types::duplicate_vec(&parts.pending_warnings) })
}

// ─── Runtime values ──────────────────────────────────────────────────────────

/// Whether a value binds runtime parameters.
pub open spec fn value_has_runtime(v: ValueView) -> bool {
    match v {
        ValueView::Array(a) => a.len() > 0,
        ValueView::Query(q) => q.values.len() > 0,
        ValueView::Identifier(_) => false,
        ValueView::Raw(_) => false,
        ValueView::Primitive(_) => true,
    }
}

/// Whether an assignment value binds runtime parameters (expressions always count).
pub open spec fn assign_has_runtime(a: AssignView) -> bool {
    match a {
        AssignView::Sql(v) => value_has_runtime(v),
        AssignView::Expr(_) => true,
    }
}

pub open spec fn binds(q: QueryView) -> bool {
    q.values.len() > 0
}

pub open spec fn opt_binds(q: Option<QueryView>) -> bool {
    q matches Some(x) && binds(x)
}

pub open spec fn any_binds(qs: Seq<QueryView>) -> bool {
    exists|i: int| 0 <= i < qs.len() && binds(#[trigger] qs[i])
}

pub open spec fn any_clause_binds(cs: Seq<(QueryView, LogicalOp)>) -> bool {
    exists|i: int| 0 <= i < cs.len() && binds(#[trigger] cs[i].0)
}

pub open spec fn any_assign_binds(asg: Seq<(Seq<char>, AssignView)>) -> bool {
    exists|i: int| 0 <= i < asg.len() && assign_has_runtime(#[trigger] asg[i].1)
}

/// Whether a state binds runtime parameters anywhere.
pub open spec fn parts_have_runtime(p: PartsView) -> bool {
    ||| opt_binds(p.select)
    ||| opt_binds(p.from)
    ||| any_binds(p.joins)
    ||| (p.pending_join matches Some(pj) && (binds(pj.source) || opt_binds(pj.predicate)))
    ||| any_clause_binds(p.where_clauses)
    ||| any_clause_binds(p.having_clauses)
    ||| any_binds(p.order_by)
    ||| opt_binds(p.returning)
    ||| (exists|i: int| 0 <= i < p.ctes.len() && binds(#[trigger] p.ctes[i].query))
    ||| (exists|i: int| 0 <= i < p.compounds.len() && binds(#[trigger] p.compounds[i].1))
    ||| (p.distinct matches Some(DistinctView::On(e)) && any_binds(e))
    ||| (exists|i: int, j: int| 0 <= i < p.insert.rows.len() && 0 <= j < p.insert.rows[i].len()
            && value_has_runtime(#[trigger] p.insert.rows[i][j]))
    ||| opt_binds(p.insert.select)
    ||| (p.insert.conflict.action matches Some(ActionView::DoUpdate { assignments, predicate })
            && (any_assign_binds(assignments) || opt_binds(predicate)))
    ||| any_assign_binds(p.update.assignments)
}

fn sql_value_contains_runtime_values(value: &SqlValue) -> (r: bool)
    ensures
        r == value_has_runtime(value.deep_view()),
{
    match value {
        SqlValue::Array(values) => values.len() > 0,
        SqlValue::Query(query) => query.values.len() > 0,
        SqlValue::Identifier(_) => false,
        SqlValue::Raw(_) => false,
        SqlValue::Primitive(_) => true,
    }
}

fn assignment_contains_runtime_values(value: &AssignmentValue) -> (r: bool)
    ensures
        r == assign_has_runtime(value.deep_view()),
{
    match value {
        AssignmentValue::Sql(v) => sql_value_contains_runtime_values(v),
        AssignmentValue::Expr(_) => true,
    }
}

fn option_binds(q: &Option<SqlQuery>) -> (r: bool)
    ensures
        r == opt_binds(q.deep_view()),
{
    match q {
        Some(x) => x.values.len() > 0,
        None => false,
    }
}

fn queries_bind(qs: &Vec<SqlQuery>) -> (r: bool)
    ensures
        r == any_binds(qs.deep_view()),
{
    for i in 0..qs.len()
        invariant
            forall|j: int| 0 <= j < i ==> !binds(#[trigger] qs.deep_view()[j]),
    {
        assert(qs.deep_view()[i as int] == qs@[i as int]@);
        if qs[i].values.len() > 0 {
            return true;
        }
    }
    false
}

fn clauses_bind(cs: &Vec<WhereEntry>) -> (r: bool)
    ensures
        r == any_clause_binds(cs.deep_view()),
{
    for i in 0..cs.len()
        invariant
            forall|j: int| 0 <= j < i ==> !binds(#[trigger] cs.deep_view()[j].0),
    {
        assert(cs.deep_view()[i as int] == cs@[i as int].deep_view());
        if cs[i].pred.values.len() > 0 {
            assert(binds(cs.deep_view()[i as int].0));
            return true;
        }
    }
    false
}

fn assignments_bind(asg: &Vec<UpdateAssignment>) -> (r: bool)
    ensures
        r == any_assign_binds(asg.deep_view()),
{
    for i in 0..asg.len()
        invariant
            forall|j: int| 0 <= j < i ==> !assign_has_runtime(#[trigger] asg.deep_view()[j].1),
    {
        assert(asg.deep_view()[i as int] == asg@[i as int].deep_view());
        if assignment_contains_runtime_values(&asg[i].value) {
            assert(assign_has_runtime(asg.deep_view()[i as int].1));
            return true;
        }
    }
    false
}

fn ctes_bind(ctes: &Vec<CteDefinition>) -> (r: bool)
    ensures
        r == (exists|i: int| 0 <= i < ctes.deep_view().len() && binds(#[trigger] ctes.deep_view()[i].query)),
{
    for i in 0..ctes.len()
        invariant
            forall|j: int| 0 <= j < i ==> !binds(#[trigger] ctes.deep_view()[j].query),
    {
        assert(ctes.deep_view()[i as int] == ctes@[i as int].deep_view());
        if ctes[i].query.values.len() > 0 {
            assert(binds(ctes.deep_view()[i as int].query));
            return true;
        }
    }
    false
}

fn compounds_bind(cs: &Vec<CompoundPart>) -> (r: bool)
    ensures
        r == (exists|i: int| 0 <= i < cs.deep_view().len() && binds(#[trigger] cs.deep_view()[i].1)),
{
    for i in 0..cs.len()
        invariant
            forall|j: int| 0 <= j < i ==> !binds(#[trigger] cs.deep_view()[j].1),
    {
        assert(cs.deep_view()[i as int] == cs@[i as int].deep_view());
        if cs[i].query.values.len() > 0 {
            assert(binds(cs.deep_view()[i as int].1));
            return true;
        }
    }
    false
}

fn rows_bind(rows: &Vec<Vec<SqlValue>>) -> (r: bool)
    ensures
        r == (exists|i: int, j: int| 0 <= i < rows.deep_view().len() && 0 <= j < rows.deep_view()[i].len()
            && value_has_runtime(#[trigger] rows.deep_view()[i][j])),
{
    let ghost rv = rows.deep_view();
    for i in 0..rows.len()
        invariant
            rv == rows.deep_view(),
            forall|a: int, b: int| 0 <= a < i && 0 <= b < rv[a].len() ==> !value_has_runtime(#[trigger] rv[a][b]),
    {
        assert(rv[i as int] == rows@[i as int].deep_view());
        let row = &rows[i];
        for j in 0..row.len()
            invariant
                row == rows@[i as int],
                rv == rows.deep_view(),
                0 <= i < rows.len(),
                rv[i as int] == rows@[i as int].deep_view(),
                forall|a: int, b: int| 0 <= a < i && 0 <= b < rv[a].len() ==> !value_has_runtime(#[trigger] rv[a][b]),
                forall|b: int| 0 <= b < j ==> !value_has_runtime(#[trigger] rv[i as int][b]),
        {
            assert(rv[i as int][j as int] == row@[j as int].deep_view());
            if sql_value_contains_runtime_values(&row[j]) {
                return true;
            }
        }
    }
    false
}

/// Whether any fragment of the state binds runtime parameters.
pub fn query_parts_contain_runtime_values(parts: &QueryParts) -> (r: bool)
    ensures
        r == parts_have_runtime(parts.deep_view()),
{
    let pending = match &parts.pending_join {
        Some(pj) => pj.source.values.len() > 0 || option_binds(&pj.predicate),
        None => false,
    };
    let distinct = match &parts.distinct {
        Some(DistinctMode::On(e)) => queries_bind(e),
        _ => false,
    };
    let conflict = match &parts.insert.conflict.action {
        Some(InsertConflictAction::DoUpdate { assignments, predicate }) => assignments_bind(assignments)
            || option_binds(predicate),
        _ => false,
    };
    let ghost pv = parts.deep_view();
    let select = option_binds(&parts.select);
    let from = option_binds(&parts.from);
    let joins = queries_bind(&parts.joins);
    let wheres = clauses_bind(&parts.where_clauses);
    let havings = clauses_bind(&parts.having_clauses);
    let orders = queries_bind(&parts.order_by);
    let returning = option_binds(&parts.returning);
    let ctes = ctes_bind(&parts.ctes);
    let compounds = compounds_bind(&parts.compounds);
    let rows = rows_bind(&parts.insert.rows);
    let insert_select = option_binds(&parts.insert.select);
    let updates = assignments_bind(&parts.update.assignments);
    proof {
        assert(pending == (pv.pending_join matches Some(pj) && (binds(pj.source) || opt_binds(pj.predicate))));
        assert(distinct == (pv.distinct matches Some(DistinctView::On(e)) && any_binds(e)));
        assert(conflict == (pv.insert.conflict.action matches Some(ActionView::DoUpdate { assignments, predicate })
            && (any_assign_binds(assignments) || opt_binds(predicate))));
        assert(ctes == (exists|i: int| 0 <= i < pv.ctes.len() && binds(#[trigger] pv.ctes[i].query)));
        assert(compounds == (exists|i: int| 0 <= i < pv.compounds.len() && binds(#[trigger] pv.compounds[i].1)));
        assert(rows == (exists|i: int, j: int| 0 <= i < pv.insert.rows.len() && 0 <= j < pv.insert.rows[i].len()
            && value_has_runtime(#[trigger] pv.insert.rows[i][j])));
        assert(wheres == any_clause_binds(pv.where_clauses));
        assert(select == opt_binds(pv.select));
        assert(updates == any_assign_binds(pv.update.assignments));
    }
    select || from || joins || pending || wheres || havings || orders || returning || ctes || compounds || distinct
        || rows || insert_select || conflict || updates
}

} // verus!
