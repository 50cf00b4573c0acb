//! Builder operations: the inputs they take, the fragments they build, and how each
//! one changes a builder state.
use crate::builder::render::{build_query, ident_frag, normalize_pending_join, normalize_view};
use crate::builder::output::{build_outcome, handle_query, query_of_handle};
use crate::builder::registry::{handle_parts, Registry, RegistryView};
use crate::builder::state::{
    ActionView, AssignView, AssignmentValue, CompoundOperator, CompoundPart, CteDefinition, CteView, DeleteState,
    DistinctMode, DistinctView, InsertConflictAction, InsertConflictTarget, InsertState, JoinType, LockModifier,
    LockStrength, LogicalOp, PartsView, PendingJoinState, PendingJoinView, QueryParts, SelectLockClause,
    StatementKind, TargetView, UpdateAssignment, UpdateState, UpdateView, WhereEntry, empty_insert, InsertView,
    spec_parse_join_type,
};
use crate::dialect::{dialect_key, spec_capabilities, Dialect};
use crate::expr_copy::NodeSem;
use crate::expr_node::{
    eval_node, out, spec_eval, warning_views, EvalOut, ExprNode, WarningView, WarningsCtx,
};
use crate::expressions::{outcome_is, spec_cmp, spec_logical};
use crate::sql::{fragments, join_frags, msg_empty_part, surfaced, validation_msg};
use crate::text::{lemma_split_on_nonempty, push_str, split_char, split_on, str_eq, to_uppercase, unicode_upper};
use crate::types::{duplicate_vec, Duplicate, QueryView, SqlIdentifier, SqlQuery, SqlValue, ValueView};
use vstd::prelude::*;

verus! {

// ─── Inputs ──────────────────────────────────────────────────────────────────

/// A WHERE / HAVING / ON predicate: an expression tree, or an already rendered query.
pub enum Predicate {
    Node(ExprNode),
    Query(SqlQuery),
}

/// The value of one assignment: an expression tree, or a plain SQL value.
pub enum AssignmentInputValue {
    Node(ExprNode),
    Sql(SqlValue),
}

/// One `DISTINCT ON` expression: an expression tree, or an already rendered query.
pub enum DistinctOnInput {
    Node(ExprNode),
    Query(SqlQuery),
}

/// One entry of an aliased projection; a bare entry is rendered without `AS alias`.
pub struct SelectAliasedEntry {
    pub alias: String,
    pub expr: ExprNode,
    pub bare: bool,
}

/// Where a projection goes.
#[derive(Clone, Copy, PartialEq, Eq, Structural, Debug)]
pub enum ProjectionTarget {
    Select,
    Returning,
}

// ─── Fragments ───────────────────────────────────────────────────────────────

/// The parts of a dotted column path.
pub open spec fn col_parts(col: Seq<char>) -> Seq<Seq<char>> {
    split_on(col, '.')
}

/// The quoted identifier of a dotted column path, as a fragment.
pub open spec fn col_frag(col: Seq<char>) -> Result<QueryView, Seq<char>> {
    surfaced(ident_frag(col_parts(col)))
}

/// The quoted identifier of a single name, as a fragment.
pub open spec fn alias_frag(name: Seq<char>) -> Result<QueryView, Seq<char>> {
    surfaced(ident_frag(seq![name]))
}

/// `prefix table` or `prefix table alias`.
pub open spec fn table_source(prefix: Seq<char>, table: Seq<char>, alias: Option<Seq<char>>) -> Result<QueryView, Seq<char>> {
    match col_frag(table) {
        Err(e) => Err(e),
        Ok(t) => match alias {
            None => Ok(QueryView::lit(prefix).append(t)),
            Some(a) => match alias_frag(a) {
                Err(e) => Err(e),
                Ok(af) => Ok(QueryView::lit(prefix).append(t).then_text(" "@).append(af)),
            },
        },
    }
}

/// `(query) alias`.
pub open spec fn subquery_source(q: QueryView, alias: Seq<char>) -> Result<QueryView, Seq<char>> {
    match alias_frag(alias) {
        Err(e) => Err(e),
        Ok(a) => Ok(QueryView::lit("("@).append(q).then_text(") "@).append(a)),
    }
}

/// The last part of a dotted column path.
pub open spec fn col_local(col: Seq<char>) -> Seq<char> {
    col_parts(col).last()
}

/// `existing` and `next` combined by `op` as `(existing) op (next)`.
pub open spec fn composed(existing: Option<QueryView>, op: Seq<char>, next: QueryView) -> QueryView {
    match existing {
        None => next,
        Some(ex) => QueryView::lit("("@).append(ex).then_text(") "@ + op + " ("@).append(next).then_text(")"@),
    }
}

/// The first failure among fragment outcomes, or all fragments.
pub open spec fn all_frags(rs: Seq<Result<QueryView, Seq<char>>>) -> Result<Seq<QueryView>, Seq<char>>
    decreases rs.len(),
{
    if rs.len() == 0 {
        Ok(Seq::empty())
    } else {
        match all_frags(rs.drop_last()) {
            Err(e) => Err(e),
            Ok(qs) => match rs.last() {
                Err(e) => Err(e),
                Ok(q) => Ok(qs.push(q)),
            },
        }
    }
}

/// `r` is the executable counterpart of a list outcome.
pub open spec fn queries_result_is(r: Result<Vec<SqlQuery>, String>, s: Result<Seq<QueryView>, Seq<char>>) -> bool {
    match (r, s) {
        (Ok(v), Ok(qs)) => v.deep_view() == qs,
        (Err(e), Err(m)) => e@ == m,
        _ => false,
    }
}

/// Split a dotted column path into its parts.
fn split_col(col: &str) -> (r: Vec<String>)
    ensures
        r.deep_view() == col_parts(col@),
        r.len() >= 1,
{
    proof {
        lemma_split_on_nonempty(col@, '.');
    }
    split_char(col, '.')
}

/// The quoted identifier of a dotted column path.
fn col_to_identifier(col: &str) -> (r: Result<SqlIdentifier, String>)
    ensures
        col_frag(col@) is Ok ==> (r matches Ok(id) && id.parts.deep_view() == col_parts(col@)),
        col_frag(col@) matches Err(m) ==> (r matches Err(e) && e@ == m),
{
    let parts = split_col(col);
    crate::sql::identifier(parts)
}

/// The quoted identifier of a single name.
fn name_to_identifier(name: &String) -> (r: Result<SqlIdentifier, String>)
    ensures
        alias_frag(name@) is Ok ==> (r matches Ok(id) && id.parts.deep_view() == seq![name@]),
        alias_frag(name@) matches Err(m) ==> (r matches Err(e) && e@ == m),
{
    let mut parts: Vec<String> = Vec::new();
    parts.push(name.clone());
    proof {
        assert(parts.deep_view() =~= seq![name@]);
    }
    crate::sql::identifier(parts)
}

/// The fragment of a valid identifier.
fn ident_query(id: &SqlIdentifier) -> (r: SqlQuery)
    requires
        ident_frag(id.parts.deep_view()) is Ok,
    ensures
        Ok::<QueryView, Seq<char>>(r@) == ident_frag(id.parts.deep_view()),
{
    let v = SqlValue::Identifier(SqlIdentifier::new(duplicate_vec(&id.parts)));
    match crate::sql::to_query_fragment(&v) {
        Ok(q) => q,
        Err(_) => {
            assert(false);
            SqlQuery::empty()
        },
    }
}

/// The quoted identifier of a dotted column path, as a fragment.
pub(crate) fn col_to_query(col: &str) -> (r: Result<SqlQuery, String>)
    ensures
        crate::sql::query_result_is(r, col_frag(col@)),
{
    let id = col_to_identifier(col)?;
    Ok(ident_query(&id))
}

/// The quoted identifier of a single name, as a fragment.
pub(crate) fn name_to_query(name: &String) -> (r: Result<SqlQuery, String>)
    ensures
        crate::sql::query_result_is(r, alias_frag(name@)),
{
    let id = name_to_identifier(name)?;
    Ok(ident_query(&id))
}

/// The last part of a dotted column path.
fn col_to_local(col: &str) -> (r: String)
    ensures
        r@ == col_local(col@),
{
    let parts = split_col(col);
    let last = parts.len() - 1;
    parts[last].clone()
}

/// `prefix table` or `prefix table alias`.
fn table_fragment(prefix: &str, table: &str, alias: Option<&String>) -> (r: Result<SqlQuery, String>)
    ensures
        crate::sql::query_result_is(r, table_source(prefix@, table@, match alias { Some(a) => Some(a@), None => None })),
{
    let t = col_to_query(table)?;
    let mut q = SqlQuery::literal(prefix);
    q.push_query(&t);
    match alias {
        None => Ok(q),
        Some(a) => {
            let af = name_to_query(a)?;
            q.push_lit(" ");
            q.push_query(&af);
            proof {
                reveal_strlit(" ");
            }
            Ok(q)
        },
    }
}

/// `(query) alias`.
fn subquery_fragment(query: &SqlQuery, alias: &String) -> (r: Result<SqlQuery, String>)
    ensures
        crate::sql::query_result_is(r, subquery_source(query@, alias@)),
{
    let a = name_to_query(alias)?;
    let mut q = SqlQuery::literal("(");
    q.push_query(query);
    q.push_lit(") ");
    q.push_query(&a);
    proof {
        reveal_strlit("(");
        reveal_strlit(") ");
    }
    Ok(q)
}

/// Combine join predicates as `(existing) op (next)`.
fn compose_logical(existing: Option<SqlQuery>, op: &str, next: SqlQuery) -> (r: SqlQuery)
    ensures
        r@ == composed(existing.deep_view(), op@, next@),
{
    match existing {
        None => next,
        Some(ex) => {
            let mut q = SqlQuery::literal("(");
            q.push_query(&ex);
            let mut sep = String::from_str(") ");
            push_str(&mut sep, op);
            push_str(&mut sep, " (");
            q.push_lit(sep.as_str());
            q.push_query(&next);
            q.push_lit(")");
            proof {
                reveal_strlit("(");
                reveal_strlit(") ");
                reveal_strlit(" (");
                reveal_strlit(")");
                assert(sep@ =~= ") "@ + op@ + " ("@);
            }
            q
        },
    }
}

// ─── Lists ───────────────────────────────────────────────────────────────────

pub(crate) proof fn lemma_all_frags_step(rs: Seq<Result<QueryView, Seq<char>>>, i: int)
    requires
        0 <= i < rs.len(),
    ensures
        all_frags(rs.take(i + 1)) == (match all_frags(rs.take(i)) {
            Err(e) => Err(e),
            Ok(qs) => match rs[i] {
                Err(e) => Err(e),
                Ok(q) => Ok(qs.push(q)),
            },
        }),
{
    assert(rs.take(i + 1).drop_last() =~= rs.take(i));
}

pub(crate) proof fn lemma_all_frags_stays(rs: Seq<Result<QueryView, Seq<char>>>, i: int)
    requires
        0 <= i <= rs.len(),
        all_frags(rs.take(i)) is Err,
    ensures
        all_frags(rs) == all_frags(rs.take(i)),
    decreases rs.len() - i,
{
    if i < rs.len() {
        lemma_all_frags_step(rs, i);
        lemma_all_frags_stays(rs, i + 1);
    } else {
        assert(rs.take(i) =~= rs);
    }
}

/// A projected column: `*` stays bare when `star` is set, anything else is a column path.
pub open spec fn proj_frag(c: Seq<char>, star: bool) -> Result<QueryView, Seq<char>> {
    if star && c == "*"@ {
        Ok(QueryView::lit("*"@))
    } else {
        col_frag(c)
    }
}

/// The column-path fragments of a list of columns.
pub open spec fn col_frags(cols: Seq<Seq<char>>, star: bool) -> Seq<Result<QueryView, Seq<char>>> {
    cols.map_values(|c: Seq<char>| proj_frag(c, star))
}

/// The quoted identifiers of a list of dotted column paths.
fn col_identifiers(cols: &Vec<String>) -> (r: Result<Vec<SqlIdentifier>, String>)
    ensures
        all_frags(col_frags(cols.deep_view(), false)) is Ok ==> (r matches Ok(ids)
            && ids.deep_view() == cols.deep_view().map_values(|c: Seq<char>| col_parts(c))),
        all_frags(col_frags(cols.deep_view(), false)) matches Err(m) ==> (r matches Err(e) && e@ == m),
{
    let ghost cv = cols.deep_view();
    let ghost rs = col_frags(cv, false);
    let mut ids: Vec<SqlIdentifier> = Vec::new();
    proof {
        assert(rs.take(0) =~= Seq::<Result<QueryView, Seq<char>>>::empty());
        assert(ids.deep_view() =~= cv.take(0).map_values(|c: Seq<char>| col_parts(c)));
    }
    for i in 0..cols.len()
        invariant
            cv == cols.deep_view(),
            rs == col_frags(cv, false),
            all_frags(rs.take(i as int)) is Ok,
            ids.deep_view() == cv.take(i as int).map_values(|c: Seq<char>| col_parts(c)),
    {
        proof {
            lemma_all_frags_step(rs, i as int);
            assert(cv[i as int] == cols@[i as int]@);
        }
        match col_to_identifier(cols[i].as_str()) {
            Ok(id) => {
                let ghost before = ids.deep_view();
                let ghost idv = id.deep_view();
                assert(idv == col_parts(cv[i as int]));
                ids.push(id);
                proof {
                    assert(ids.deep_view() =~= before.push(idv));
                    assert(cv.take(i + 1).map_values(|c: Seq<char>| col_parts(c)) =~= cv.take(i as int).map_values(|c: Seq<char>| col_parts(c)).push(col_parts(cv[i as int])));
                }
            },
            Err(e) => {
                proof {
                    lemma_all_frags_stays(rs, i + 1);
                }
                return Err(e);
            },
        }
    }
    proof {
        assert(rs.take(cols.len() as int) =~= rs);
        assert(cv.take(cols.len() as int) =~= cv);
    }
    Ok(ids)
}

/// The fragments of a list of projected columns.
fn col_queries(cols: &Vec<String>, star: bool) -> (r: Result<Vec<SqlQuery>, String>)
    ensures
        queries_result_is(r, all_frags(col_frags(cols.deep_view(), star))),
{
    let ghost cv = cols.deep_view();
    let ghost rs = col_frags(cv, star);
    let mut qs: Vec<SqlQuery> = Vec::new();
    proof {
        assert(rs.take(0) =~= Seq::<Result<QueryView, Seq<char>>>::empty());
        assert(qs.deep_view() =~= Seq::<QueryView>::empty());
    }
    for i in 0..cols.len()
        invariant
            cv == cols.deep_view(),
            rs == col_frags(cv, star),
            all_frags(rs.take(i as int)) == Ok::<Seq<QueryView>, Seq<char>>(qs.deep_view()),
    {
        proof {
            lemma_all_frags_step(rs, i as int);
            assert(cv[i as int] == cols@[i as int]@);
        }
        let item = if star && str_eq(cols[i].as_str(), "*") {
            proof {
                reveal_strlit("*");
            }
            Ok(SqlQuery::literal("*"))
        } else {
            col_to_query(cols[i].as_str())
        };
        match item {
            Ok(q) => {
                let ghost before = qs.deep_view();
                qs.push(q);
                proof {
                    assert(qs.deep_view() =~= before.push(q@));
                }
            },
            Err(e) => {
                proof {
                    lemma_all_frags_stays(rs, i + 1);
                }
                return Err(e);
            },
        }
    }
    proof {
        assert(rs.take(cols.len() as int) =~= rs);
    }
    Ok(qs)
}

// ─── Predicates ──────────────────────────────────────────────────────────────

/// Evaluating a predicate for a dialect, collecting rewrite warnings.
pub open spec fn pred_out(pred: Predicate, d: Dialect) -> EvalOut {
    match pred {
        Predicate::Node(n) => spec_eval(n, Some(dialect_key(d)), true),
        Predicate::Query(q) => out(Ok(q@), Seq::empty()),
    }
}

/// The state with warnings appended.
pub open spec fn with_warnings(p: PartsView, w: Seq<WarningView>) -> PartsView {
    PartsView { pending_warnings: p.pending_warnings + w, ..p }
}

/// Evaluate a predicate against the state's dialect, appending its warnings to the state.
fn eval_pred(pred: &Predicate, parts: &mut QueryParts) -> (r: Result<SqlQuery, String>)
    ensures
        crate::sql::query_result_is(r, pred_out(*pred, old(parts).dialect).res),
        r is Ok ==> final(parts).deep_view() == with_warnings(old(parts).deep_view(), pred_out(*pred, old(parts).dialect).warns),
{
    match pred {
        Predicate::Query(q) => {
            assert(parts.deep_view() =~= with_warnings(parts.deep_view(), Seq::<WarningView>::empty()));
            Ok(q.copy())
        },
        Predicate::Node(n) => {
            let ghost before = parts.deep_view();
            let mut ws: Vec<crate::dialect::DialectWarning> = Vec::new();
            std::mem::swap(&mut ws, &mut parts.pending_warnings);
            let d = parts.dialect.copy();
            let mut ctx = Some(WarningsCtx { warnings: ws, strict: false });
            let r = eval_node(n, Some(&d), &mut ctx);
            match ctx {
                Some(c) => {
                    parts.pending_warnings = c.warnings;
                },
                None => {
                    assert(false);
                },
            }
            proof {
                let w = spec_eval(*n, Some(dialect_key(d)), true).warns;
                assert(parts.pending_warnings.deep_view() =~= warning_views(parts.pending_warnings@));
                assert(before.pending_warnings =~= warning_views(ws@));
                assert(parts.deep_view() =~= with_warnings(before, w));
            }
            r
        },
    }
}

// ─── WHERE / HAVING ──────────────────────────────────────────────────────────

/// The state after adding a WHERE (or HAVING) predicate joined by `op`.
pub open spec fn clause_result(p: PartsView, pred: Predicate, op: LogicalOp, having: bool) -> Result<PartsView, Seq<char>> {
    let o = pred_out(pred, p.dialect);
    match o.res {
        Err(e) => Err(e),
        Ok(q) => {
            let p1 = with_warnings(p, o.warns);
            Ok(if having {
                PartsView { having_clauses: p1.having_clauses.push((q, op)), ..p1 }
            } else {
                PartsView { where_clauses: p1.where_clauses.push((q, op)), ..p1 }
            })
        },
    }
}

/// `r` is the executable counterpart of a state outcome.
pub open spec fn parts_result_is(r: Result<(), String>, after: QueryParts, s: Result<PartsView, Seq<char>>) -> bool {
    match s {
        Ok(v) => r is Ok && after.deep_view() == v,
        Err(m) => r matches Err(e) && e@ == m,
    }
}

fn apply_clause(parts: &mut QueryParts, pred: &Predicate, op: LogicalOp, having: bool) -> (r: Result<(), String>)
    ensures
        parts_result_is(r, *final(parts), clause_result(old(parts).deep_view(), *pred, op, having)),
{
    let q = eval_pred(pred, parts)?;
    let ghost mid = parts.deep_view();
    let ghost qv = q@;
    if having {
        parts.having_clauses.push(WhereEntry { pred: q, op });
        assert(parts.deep_view().having_clauses =~= mid.having_clauses.push((qv, op)));
    } else {
        parts.where_clauses.push(WhereEntry { pred: q, op });
        assert(parts.deep_view().where_clauses =~= mid.where_clauses.push((qv, op)));
    }
    Ok(())
}

// ─── JOIN predicates ─────────────────────────────────────────────────────────

/// The state with `cond` combined into the pending join's ON predicate by `op`.
pub open spec fn join_pred_result(p: PartsView, op: Seq<char>, cond: QueryView, require_existing: bool) -> Result<PartsView, Seq<char>> {
    match p.pending_join {
        None => Err("No pending join — call join() first"@),
        Some(pj) => if require_existing && pj.predicate is None {
            Err("Call on() before andOn() or orOn()"@)
        } else if pj.using.len() > 0 {
            Err("Cannot combine using() with on() / andOn() / orOn()"@)
        } else {
            Ok(PartsView {
                pending_join: Some(PendingJoinView { predicate: Some(composed(pj.predicate, op, cond)), ..pj }),
                ..p
            })
        },
    }
}

/// The state after an `on` / `andOn` / `orOn` predicate.
pub open spec fn on_result(p: PartsView, pred: Predicate, op: Seq<char>, require_existing: bool) -> Result<PartsView, Seq<char>> {
    let o = pred_out(pred, p.dialect);
    match o.res {
        Err(e) => Err(e),
        Ok(q) => join_pred_result(with_warnings(p, o.warns), op, q, require_existing),
    }
}

fn update_pending_join_predicate(parts: &mut QueryParts, op: &str, condition: SqlQuery, require_existing: bool) -> (r: Result<(), String>)
    ensures
        parts_result_is(r, *final(parts), join_pred_result(old(parts).deep_view(), op@, condition@, require_existing)),
{
    let ghost before = parts.deep_view();
    let pj = match parts.pending_join.take() {
        Some(pj) => pj,
        None => return Err(String::from_str("No pending join — call join() first")),
    };
    if require_existing && pj.predicate.is_none() {
        return Err(String::from_str("Call on() before andOn() or orOn()"));
    }
    if pj.using.len() > 0 {
        return Err(String::from_str("Cannot combine using() with on() / andOn() / orOn()"));
    }
    let PendingJoinState { join_type, source, predicate, using } = pj;
    let composed_pred = compose_logical(predicate, op, condition);
    parts.pending_join = Some(PendingJoinState { join_type, source, predicate: Some(composed_pred), using });
    proof {
        assert(parts.deep_view() =~= join_pred_result(before, op@, condition@, require_existing)->Ok_0);
    }
    Ok(())
}

fn apply_on(parts: &mut QueryParts, pred: &Predicate, op: &str, require_existing: bool) -> (r: Result<(), String>)
    ensures
        parts_result_is(r, *final(parts), on_result(old(parts).deep_view(), *pred, op@, require_existing)),
{
    let q = eval_pred(pred, parts)?;
    update_pending_join_predicate(parts, op, q, require_existing)
}

/// The state after `using(cols)`.
pub open spec fn using_result(p: PartsView, cols: Seq<Seq<char>>) -> Result<PartsView, Seq<char>> {
    match p.pending_join {
        None => Err("No pending join — call join() first"@),
        Some(pj) => if pj.predicate is Some {
            Err("Cannot combine using() with on()"@)
        } else {
            match all_frags(col_frags(cols, false)) {
                Err(e) => Err(e),
                Ok(_) => Ok(PartsView {
                    pending_join: Some(PendingJoinView { using: cols.map_values(|c: Seq<char>| col_parts(c)), ..pj }),
                    ..p
                }),
            }
        },
    }
}

fn apply_using_columns(parts: &mut QueryParts, cols: &Vec<String>) -> (r: Result<(), String>)
    ensures
        parts_result_is(r, *final(parts), using_result(old(parts).deep_view(), cols.deep_view())),
{
    let ghost before = parts.deep_view();
    let pj = match parts.pending_join.take() {
        Some(pj) => pj,
        None => return Err(String::from_str("No pending join — call join() first")),
    };
    if pj.predicate.is_some() {
        return Err(String::from_str("Cannot combine using() with on()"));
    }
    let ids = col_identifiers(cols)?;
    let PendingJoinState { join_type, source, predicate, using: _ } = pj;
    parts.pending_join = Some(PendingJoinState { join_type, source, predicate, using: ids });
    proof {
        assert(parts.deep_view() =~= using_result(before, cols.deep_view())->Ok_0);
    }
    Ok(())
}

// ─── FROM and JOIN sources ───────────────────────────────────────────────────

/// The state reading from `from`; the projection, distinct mode and lock are reset.
pub open spec fn from_result(p: PartsView, from: QueryView) -> PartsView {
    PartsView {
        from: Some(from),
        statement: Some(StatementKind::Select),
        selected_columns: Seq::empty(),
        select: None,
        returning: None,
        distinct: None,
        lock: None,
        ..p
    }
}

fn set_from(parts: &mut QueryParts, from: SqlQuery)
    ensures
        final(parts).deep_view() == from_result(old(parts).deep_view(), from@),
{
    let ghost before = parts.deep_view();
    parts.from = Some(from);
    parts.statement = Some(StatementKind::Select);
    parts.selected_columns = Vec::new();
    parts.select = None;
    parts.returning = None;
    parts.distinct = None;
    parts.lock = None;
    proof {
        assert(parts.deep_view().selected_columns =~= Seq::<Seq<char>>::empty());
        assert(parts.deep_view() =~= from_result(before, from@));
    }
}

/// The state after `FROM table [alias]`.
pub open spec fn from_table_result(p: PartsView, table: Seq<char>, alias: Option<Seq<char>>) -> Result<PartsView, Seq<char>> {
    match table_source("FROM "@, table, alias) {
        Err(e) => Err(e),
        Ok(f) => Ok(from_result(p, f)),
    }
}

fn apply_from_table(parts: &mut QueryParts, table: &String, alias: Option<&String>) -> (r: Result<(), String>)
    ensures
        parts_result_is(r, *final(parts), from_table_result(old(parts).deep_view(), table@, match alias { Some(a) => Some(a@), None => None })),
{
    let f = table_fragment("FROM ", table.as_str(), alias)?;
    proof {
        reveal_strlit("FROM ");
    }
    set_from(parts, f);
    Ok(())
}

/// `FROM (query) alias` as a fragment.
pub open spec fn from_subquery_frag(q: QueryView, alias: Seq<char>) -> Result<QueryView, Seq<char>> {
    match subquery_source(q, alias) {
        Err(e) => Err(e),
        Ok(s) => Ok(QueryView::lit("FROM "@).append(s)),
    }
}

/// The state after `FROM (query) alias`.
pub open spec fn from_subquery_result(p: PartsView, q: QueryView, alias: Seq<char>) -> Result<PartsView, Seq<char>> {
    match from_subquery_frag(q, alias) {
        Err(e) => Err(e),
        Ok(f) => Ok(from_result(p, f)),
    }
}

fn apply_from_subquery(parts: &mut QueryParts, query: &SqlQuery, alias: &String) -> (r: Result<(), String>)
    ensures
        parts_result_is(r, *final(parts), from_subquery_result(old(parts).deep_view(), query@, alias@)),
{
    let s = subquery_fragment(query, alias)?;
    let mut f = SqlQuery::literal("FROM ");
    f.push_query(&s);
    proof {
        reveal_strlit("FROM ");
    }
    set_from(parts, f);
    Ok(())
}

/// Commit a pending join (if any) in place.
fn normalize_in_place(parts: &mut QueryParts) -> (r: Result<(), String>)
    ensures
        parts_result_is(r, *final(parts), normalize_view(old(parts).deep_view())),
{
    if parts.pending_join.is_none() {
        return Ok(());
    }
    let mut tmp = QueryParts::fresh(Dialect::Postgres);
    std::mem::swap(&mut tmp, parts);
    let n = normalize_pending_join(tmp)?;
    *parts = n;
    Ok(())
}

/// The state after opening a join of the named type on `src` (a cross join is committed
/// at once, any other join waits for its predicate).
pub open spec fn join_result(p: PartsView, join_type: Seq<char>, src: QueryView) -> Result<PartsView, Seq<char>> {
    match spec_parse_join_type(join_type) {
        Err(e) => Err(e),
        Ok(t) => if t == JoinType::Cross {
            Ok(PartsView { joins: p.joins.push(QueryView::lit("CROSS JOIN "@).append(src)), ..p })
        } else {
            Ok(PartsView {
                pending_join: Some(PendingJoinView { join_type: t, source: src, predicate: None, using: Seq::empty() }),
                ..p
            })
        },
    }
}

fn apply_join(parts: &mut QueryParts, join_type: &str, src: SqlQuery) -> (r: Result<(), String>)
    ensures
        parts_result_is(r, *final(parts), join_result(old(parts).deep_view(), join_type@, src@)),
{
    let ghost before = parts.deep_view();
    let t = JoinType::parse(join_type)?;
    if t == JoinType::Cross {
        let mut j = SqlQuery::literal("CROSS JOIN ");
        j.push_query(&src);
        let ghost jv = j@;
        parts.joins.push(j);
        proof {
            reveal_strlit("CROSS JOIN ");
            assert(parts.deep_view().joins =~= before.joins.push(jv));
        }
    } else {
        parts.pending_join = Some(PendingJoinState { join_type: t, source: src, predicate: None, using: Vec::new() });
        proof {
            assert(parts.deep_view().pending_join->Some_0.using =~= Seq::<Seq<Seq<char>>>::empty());
        }
    }
    proof {
        assert(parts.deep_view() =~= join_result(before, join_type@, src@)->Ok_0);
    }
    Ok(())
}

/// The state after a join of a table (the pending join committed first).
pub open spec fn join_table_result(p: PartsView, join_type: Seq<char>, table: Seq<char>, alias: Option<Seq<char>>) -> Result<PartsView, Seq<char>> {
    match normalize_view(p) {
        Err(e) => Err(e),
        Ok(n) => match table_source(""@, table, alias) {
            Err(e) => Err(e),
            Ok(src) => join_result(n, join_type, src),
        },
    }
}

fn apply_join_table(parts: &mut QueryParts, join_type: &String, table: &String, alias: Option<&String>) -> (r: Result<(), String>)
    ensures
        parts_result_is(r, *final(parts), join_table_result(old(parts).deep_view(), join_type@, table@, match alias { Some(a) => Some(a@), None => None })),
{
    normalize_in_place(parts)?;
    let src = table_fragment("", table.as_str(), alias)?;
    proof {
        reveal_strlit("");
    }
    apply_join(parts, join_type.as_str(), src)
}

/// The state after a join of a subquery (the pending join committed first).
pub open spec fn join_subquery_result(p: PartsView, join_type: Seq<char>, alias: Seq<char>, q: QueryView) -> Result<PartsView, Seq<char>> {
    match normalize_view(p) {
        Err(e) => Err(e),
        Ok(n) => match subquery_source(q, alias) {
            Err(e) => Err(e),
            Ok(src) => join_result(n, join_type, src),
        },
    }
}

fn apply_join_subquery(parts: &mut QueryParts, join_type: &String, alias: &String, query: &SqlQuery) -> (r: Result<(), String>)
    ensures
        parts_result_is(r, *final(parts), join_subquery_result(old(parts).deep_view(), join_type@, alias@, query@)),
{
    normalize_in_place(parts)?;
    let src = subquery_fragment(query, alias)?;
    apply_join(parts, join_type.as_str(), src)
}

/// The state after `onColumns(pairs)`: `l = r` for each pair, all joined by AND.
pub open spec fn pair_cond(pair: (Seq<char>, Seq<char>)) -> Result<QueryView, Seq<char>> {
    match (col_frag(pair.0), col_frag(pair.1)) {
        (Err(e), _) => Err(e),
        (_, Err(e)) => Err(e),
        (Ok(l), Ok(r)) => spec_cmp(Ok(l), "="@, Ok(r)),
    }
}

/// The AND of the column-equality conditions of `pairs`.
pub open spec fn on_columns_cond(pairs: Seq<(Seq<char>, Seq<char>)>) -> Result<QueryView, Seq<char>> {
    match all_frags(pairs.map_values(|pr: (Seq<char>, Seq<char>)| pair_cond(pr))) {
        Err(e) => Err(e),
        Ok(cs) => spec_logical(cs.map_values(|c: QueryView| Ok::<QueryView, Seq<char>>(c)), " AND "@, "and() requires at least one condition"@),
    }
}

/// The state after `onColumns(pairs)`.
pub open spec fn on_columns_result(p: PartsView, pairs: Seq<(Seq<char>, Seq<char>)>) -> Result<PartsView, Seq<char>> {
    match on_columns_cond(pairs) {
        Err(e) => Err(e),
        Ok(c) => join_pred_result(p, "AND"@, c, false),
    }
}

/// The views of column pairs.
pub open spec fn pair_views(pairs: Seq<(String, String)>) -> Seq<(Seq<char>, Seq<char>)> {
    pairs.map_values(|pr: (String, String)| (pr.0@, pr.1@))
}

/// `l = r` for two valid identifiers.
fn column_equality(l: &SqlIdentifier, r: &SqlIdentifier) -> (c: Result<SqlQuery, String>)
    requires
        ident_frag(l.parts.deep_view()) is Ok,
        ident_frag(r.parts.deep_view()) is Ok,
    ensures
        crate::sql::query_result_is(c, spec_cmp(ident_frag(l.parts.deep_view()), "="@, ident_frag(r.parts.deep_view()))),
{
    let lq = ident_query(l);
    let rq = ident_query(r);
    proof {
        reveal_strlit("=");
    }
    crate::expressions::cmp(SqlValue::Query(lq), String::from_str("="), SqlValue::Query(rq))
}

fn apply_on_columns(parts: &mut QueryParts, pairs: &Vec<(String, String)>) -> (r: Result<(), String>)
    ensures
        parts_result_is(r, *final(parts), on_columns_result(old(parts).deep_view(), pair_views(pairs@))),
{
    let ghost pv = pair_views(pairs@);
    let ghost rs = pv.map_values(|pr: (Seq<char>, Seq<char>)| pair_cond(pr));
    let mut conds: Vec<SqlValue> = Vec::new();
    let mut qs: Vec<SqlQuery> = Vec::new();
    proof {
        assert(rs.take(0) =~= Seq::<Result<QueryView, Seq<char>>>::empty());
        assert(qs.deep_view() =~= Seq::<QueryView>::empty());
    }
    for i in 0..pairs.len()
        invariant
            pv == pair_views(pairs@),
            rs == pv.map_values(|pr: (Seq<char>, Seq<char>)| pair_cond(pr)),
            all_frags(rs.take(i as int)) == Ok::<Seq<QueryView>, Seq<char>>(qs.deep_view()),
            fragments(conds@) == qs.deep_view().map_values(|c: QueryView| Ok::<QueryView, Seq<char>>(c)),
    {
        proof {
            lemma_all_frags_step(rs, i as int);
        }
        let l = col_to_identifier(pairs[i].0.as_str());
        let l = match l {
            Ok(l) => l,
            Err(e) => {
                proof {
                    lemma_all_frags_stays(rs, i + 1);
                }
                return Err(e);
            },
        };
        let rr = col_to_identifier(pairs[i].1.as_str());
        let rr = match rr {
            Ok(rr) => rr,
            Err(e) => {
                proof {
                    lemma_all_frags_stays(rs, i + 1);
                }
                return Err(e);
            },
        };
        let c = column_equality(&l, &rr);
        match c {
            Ok(q) => {
                let ghost before = qs.deep_view();
                let ghost fb = fragments(conds@);
                conds.push(SqlValue::Query(q.copy()));
                qs.push(q);
                proof {
                    assert(qs.deep_view() =~= before.push(q@));
                    assert(fragments(conds@) =~= fb.push(Ok(q@)));
                    assert(qs.deep_view().map_values(|c: QueryView| Ok::<QueryView, Seq<char>>(c)) =~= before.map_values(|c: QueryView| Ok::<QueryView, Seq<char>>(c)).push(Ok(q@)));
                }
            },
            Err(e) => {
                proof {
                    lemma_all_frags_stays(rs, i + 1);
                }
                return Err(e);
            },
        }
    }
    proof {
        assert(rs.take(pairs.len() as int) =~= rs);
    }
    let cond = crate::expressions::and(conds)?;
    proof {
        reveal_strlit("AND");
    }
    update_pending_join_predicate(parts, "AND", cond, false)
}

// ─── Projections ─────────────────────────────────────────────────────────────

/// The state with a projection in place (SELECT list or RETURNING list).
pub open spec fn projection_result(p: PartsView, content: QueryView, selected: Seq<Seq<char>>, target: ProjectionTarget) -> PartsView {
    match target {
        ProjectionTarget::Select => PartsView {
            select: Some(content),
            statement: Some(StatementKind::Select),
            selected_columns: selected,
            ..p
        },
        ProjectionTarget::Returning => PartsView { returning: Some(content), selected_columns: selected, ..p },
    }
}

pub(crate) fn apply_projection(parts: &mut QueryParts, content: SqlQuery, selected_columns: Vec<String>, target: ProjectionTarget)
    ensures
        final(parts).deep_view() == projection_result(old(parts).deep_view(), content@, selected_columns.deep_view(), target),
{
    match target {
        ProjectionTarget::Select => {
            parts.select = Some(content);
            parts.statement = Some(StatementKind::Select);
        },
        ProjectionTarget::Returning => {
            parts.returning = Some(content);
        },
    }
    parts.selected_columns = selected_columns;
}

/// Fragments joined by `, `, or the first failure.
pub open spec fn list_content(rs: Seq<Result<QueryView, Seq<char>>>) -> Result<QueryView, Seq<char>> {
    match all_frags(rs) {
        Err(e) => Err(e),
        Ok(qs) => Ok(crate::builder::render::joined(qs, ", "@)),
    }
}

/// The state after projecting plain columns (`*` stays bare in a SELECT list).
pub open spec fn columns_projection_result(p: PartsView, cols: Seq<Seq<char>>, target: ProjectionTarget) -> Result<PartsView, Seq<char>> {
    match list_content(col_frags(cols, target == ProjectionTarget::Select)) {
        Err(e) => Err(e),
        Ok(c) => Ok(projection_result(p, c, cols.map_values(|x: Seq<char>| col_local(x)), target)),
    }
}

fn apply_columns_projection(parts: &mut QueryParts, cols: &Vec<String>, target: ProjectionTarget) -> (r: Result<(), String>)
    ensures
        parts_result_is(r, *final(parts), columns_projection_result(old(parts).deep_view(), cols.deep_view(), target)),
{
    let qs = col_queries(cols, target == ProjectionTarget::Select)?;
    let content = crate::builder::render::join_queries(&qs, ", ");
    let mut locals: Vec<String> = Vec::new();
    for i in 0..cols.len()
        invariant
            locals.deep_view() == cols.deep_view().take(i as int).map_values(|x: Seq<char>| col_local(x)),
    {
        let ghost before = locals.deep_view();
        let l = col_to_local(cols[i].as_str());
        locals.push(l);
        proof {
            assert(cols.deep_view()[i as int] == cols@[i as int]@);
            assert(locals.deep_view() =~= before.push(col_local(cols.deep_view()[i as int])));
            assert(cols.deep_view().take(i + 1).map_values(|x: Seq<char>| col_local(x)) =~= before.push(col_local(cols.deep_view()[i as int])));
        }
    }
    proof {
        reveal_strlit(", ");
        assert(cols.deep_view().take(cols.len() as int) =~= cols.deep_view());
    }
    apply_projection(parts, content, locals, target);
    Ok(())
}

/// One aliased projection entry: `expr AS alias`, or the bare expression.
pub open spec fn aliased_frag(e: SelectAliasedEntry, d: Dialect) -> Result<QueryView, Seq<char>> {
    match spec_eval(e.expr, Some(dialect_key(d)), false).res {
        Err(m) => Err(m),
        Ok(q) => if e.bare {
            Ok(q)
        } else {
            match alias_frag(e.alias@) {
                Err(m) => Err(m),
                Ok(a) => Ok(q.then_text(" AS "@).append(a)),
            }
        },
    }
}

/// The state after an aliased projection.
pub open spec fn aliased_projection_result(p: PartsView, entries: Seq<SelectAliasedEntry>, target: ProjectionTarget) -> Result<PartsView, Seq<char>> {
    match list_content(entries.map_values(|e: SelectAliasedEntry| aliased_frag(e, p.dialect))) {
        Err(e) => Err(e),
        Ok(c) => Ok(projection_result(p, c, entries.map_values(|e: SelectAliasedEntry| e.alias@), target)),
    }
}

pub(crate) fn aliased_query(e: &SelectAliasedEntry, d: &Dialect) -> (r: Result<SqlQuery, String>)
    ensures
        crate::sql::query_result_is(r, aliased_frag(*e, *d)),
{
    let mut none: Option<WarningsCtx> = None;
    let q = eval_node(&e.expr, Some(d), &mut none)?;
    if e.bare {
        Ok(q)
    } else {
        let a = name_to_query(&e.alias)?;
        let mut r = q;
        r.push_lit(" AS ");
        r.push_query(&a);
        proof {
            reveal_strlit(" AS ");
        }
        Ok(r)
    }
}

fn apply_aliased_projection(parts: &mut QueryParts, entries: &Vec<SelectAliasedEntry>, target: ProjectionTarget) -> (r: Result<(), String>)
    ensures
        parts_result_is(r, *final(parts), aliased_projection_result(old(parts).deep_view(), entries@, target)),
{
    let d = parts.dialect.copy();
    let ghost rs = entries@.map_values(|e: SelectAliasedEntry| aliased_frag(e, d));
    let mut qs: Vec<SqlQuery> = Vec::new();
    let mut aliases: Vec<String> = Vec::new();
    proof {
        assert(rs.take(0) =~= Seq::<Result<QueryView, Seq<char>>>::empty());
        assert(qs.deep_view() =~= Seq::<QueryView>::empty());
        assert(aliases.deep_view() =~= Seq::<Seq<char>>::empty());
    }
    for i in 0..entries.len()
        invariant
            d == parts.dialect,
            rs == entries@.map_values(|e: SelectAliasedEntry| aliased_frag(e, d)),
            all_frags(rs.take(i as int)) == Ok::<Seq<QueryView>, Seq<char>>(qs.deep_view()),
            aliases.deep_view() == entries@.take(i as int).map_values(|e: SelectAliasedEntry| e.alias@),
    {
        proof {
            lemma_all_frags_step(rs, i as int);
        }
        match aliased_query(&entries[i], &d) {
            Ok(q) => {
                let ghost before = qs.deep_view();
                let ghost ab = aliases.deep_view();
                qs.push(q);
                aliases.push(entries[i].alias.clone());
                proof {
                    assert(qs.deep_view() =~= before.push(q@));
                    assert(aliases.deep_view() =~= ab.push(entries@[i as int].alias@));
                    assert(entries@.take(i + 1).map_values(|e: SelectAliasedEntry| e.alias@) =~= ab.push(entries@[i as int].alias@));
                }
            },
            Err(e) => {
                proof {
                    lemma_all_frags_stays(rs, i + 1);
                }
                return Err(e);
            },
        }
    }
    proof {
        reveal_strlit(", ");
        assert(rs.take(entries.len() as int) =~= rs);
        assert(entries@.take(entries.len() as int) =~= entries@);
    }
    let content = crate::builder::render::join_queries(&qs, ", ");
    apply_projection(parts, content, aliases, target);
    Ok(())
}

// ─── DISTINCT ────────────────────────────────────────────────────────────────

/// The fragment of one `DISTINCT ON` input.
pub open spec fn distinct_frag(e: DistinctOnInput, d: Dialect) -> Result<QueryView, Seq<char>> {
    match e {
        DistinctOnInput::Node(n) => spec_eval(n, Some(dialect_key(d)), false).res,
        DistinctOnInput::Query(q) => Ok(q@),
    }
}

pub open spec fn distinct_on_empty_msg() -> Seq<char> {
    "distinctOn(...) requires at least one expression."@
}

/// The state after `DISTINCT ON` a list of fragment outcomes.
pub open spec fn distinct_on_result(p: PartsView, rs: Seq<Result<QueryView, Seq<char>>>) -> Result<PartsView, Seq<char>> {
    if rs.len() == 0 {
        Err(distinct_on_empty_msg())
    } else {
        match all_frags(rs) {
            Err(e) => Err(e),
            Ok(qs) => Ok(PartsView { distinct: Some(DistinctView::On(qs)), ..p }),
        }
    }
}

fn apply_distinct_on_columns(parts: &mut QueryParts, cols: &Vec<String>) -> (r: Result<(), String>)
    ensures
        parts_result_is(r, *final(parts), distinct_on_result(old(parts).deep_view(), col_frags(cols.deep_view(), false))),
{
    if cols.len() == 0 {
        return Err(String::from_str("distinctOn(...) requires at least one expression."));
    }
    let qs = col_queries(cols, false)?;
    parts.distinct = Some(DistinctMode::On(qs));
    Ok(())
}

fn apply_distinct_on_exprs(parts: &mut QueryParts, exprs: &Vec<DistinctOnInput>) -> (r: Result<(), String>)
    ensures
        parts_result_is(r, *final(parts), distinct_on_result(old(parts).deep_view(),
            exprs@.map_values(|e: DistinctOnInput| distinct_frag(e, old(parts).dialect)))),
{
    if exprs.len() == 0 {
        return Err(String::from_str("distinctOn(...) requires at least one expression."));
    }
    let d = parts.dialect.copy();
    let ghost rs = exprs@.map_values(|e: DistinctOnInput| distinct_frag(e, d));
    let mut qs: Vec<SqlQuery> = Vec::new();
    proof {
        assert(rs.take(0) =~= Seq::<Result<QueryView, Seq<char>>>::empty());
        assert(qs.deep_view() =~= Seq::<QueryView>::empty());
    }
    for i in 0..exprs.len()
        invariant
            d == old(parts).dialect,
            exprs.len() > 0,
            rs == exprs@.map_values(|e: DistinctOnInput| distinct_frag(e, d)),
            all_frags(rs.take(i as int)) == Ok::<Seq<QueryView>, Seq<char>>(qs.deep_view()),
    {
        proof {
            lemma_all_frags_step(rs, i as int);
        }
        let item = match &exprs[i] {
            DistinctOnInput::Node(n) => {
                let mut none: Option<WarningsCtx> = None;
                eval_node(n, Some(&d), &mut none)
            },
            DistinctOnInput::Query(q) => Ok(q.copy()),
        };
        match item {
            Ok(q) => {
                let ghost before = qs.deep_view();
                qs.push(q);
                proof {
                    assert(qs.deep_view() =~= before.push(q@));
                }
            },
            Err(e) => {
                proof {
                    lemma_all_frags_stays(rs, i + 1);
                }
                return Err(e);
            },
        }
    }
    proof {
        assert(rs.take(exprs.len() as int) =~= rs);
    }
    parts.distinct = Some(DistinctMode::On(qs));
    Ok(())
}

// ─── ORDER BY / GROUP BY ─────────────────────────────────────────────────────

pub open spec fn nulls_unsupported_msg(d: Dialect) -> Seq<char> {
    "Dialect \""@ + d.spec_as_str() + "\" does not support NULLS FIRST/LAST in ORDER BY."@
}

/// One ORDER BY item: the column, then the uppercased direction and `NULLS` order.
pub open spec fn order_frag(col: Seq<char>, dir: Option<Seq<char>>, nulls: Option<Seq<char>>, d: Dialect) -> Result<QueryView, Seq<char>> {
    if nulls is Some && !spec_capabilities(d).null_ordering {
        Err(nulls_unsupported_msg(d))
    } else {
        match col_frag(col) {
            Err(e) => Err(e),
            Ok(id) => {
                let a = match dir {
                    Some(x) => id.then_text(" "@ + unicode_upper(x)),
                    None => id,
                };
                Ok(match nulls {
                    Some(n) => a.then_text(" NULLS "@ + unicode_upper(n)),
                    None => a,
                })
            },
        }
    }
}

fn render_order_by(col: &str, direction: Option<&String>, null_order: Option<&String>, dialect: &Dialect) -> (r: Result<SqlQuery, String>)
    ensures
        crate::sql::query_result_is(r, order_frag(col@,
            match direction { Some(x) => Some(x@), None => None },
            match null_order { Some(x) => Some(x@), None => None }, *dialect)),
{
    if null_order.is_some() && !crate::dialect::capabilities_for_dialect(dialect).null_ordering {
        let mut e = String::from_str("Dialect \"");
        push_str(&mut e, dialect.as_str());
        push_str(&mut e, "\" does not support NULLS FIRST/LAST in ORDER BY.");
        proof {
            assert(e@ =~= nulls_unsupported_msg(*dialect));
        }
        return Err(e);
    }
    let mut q = col_to_query(col)?;
    if let Some(x) = direction {
        let u = to_uppercase(x.as_str());
        let mut t = String::from_str(" ");
        push_str(&mut t, u.as_str());
        q.push_lit(t.as_str());
        proof {
            reveal_strlit(" ");
            assert(t@ =~= " "@ + unicode_upper(x@));
        }
    }
    if let Some(n) = null_order {
        let u = to_uppercase(n.as_str());
        let mut t = String::from_str(" NULLS ");
        push_str(&mut t, u.as_str());
        q.push_lit(t.as_str());
        proof {
            reveal_strlit(" NULLS ");
            assert(t@ =~= " NULLS "@ + unicode_upper(n@));
        }
    }
    Ok(q)
}

/// The optional-string views of an ORDER BY direction or NULLS order.
pub open spec fn opt_view(o: Option<String>) -> Option<Seq<char>> {
    match o {
        Some(x) => Some(x@),
        None => None,
    }
}

/// The state after ORDER BY one column.
pub open spec fn order_by_result(p: PartsView, col: Seq<char>, dir: Option<Seq<char>>, nulls: Option<Seq<char>>) -> Result<PartsView, Seq<char>> {
    match order_frag(col, dir, nulls, p.dialect) {
        Err(e) => Err(e),
        Ok(f) => Ok(PartsView { order_by: p.order_by.push(f), ..p }),
    }
}

fn apply_order_by(parts: &mut QueryParts, col: &String, direction: &Option<String>, null_order: &Option<String>) -> (r: Result<(), String>)
    ensures
        parts_result_is(r, *final(parts), order_by_result(old(parts).deep_view(), col@, opt_view(*direction), opt_view(*null_order))),
{
    let ghost before = parts.deep_view();
    let f = render_order_by(col.as_str(), direction.as_ref(), null_order.as_ref(), &parts.dialect)?;
    let ghost fv = f@;
    parts.order_by.push(f);
    assert(parts.deep_view().order_by =~= before.order_by.push(fv));
    Ok(())
}

/// The state after ORDER BY several columns (no direction), in order.
pub open spec fn order_by_columns_result(p: PartsView, cols: Seq<Seq<char>>) -> Result<PartsView, Seq<char>>
    decreases cols.len(),
{
    if cols.len() == 0 {
        Ok(p)
    } else {
        match order_by_columns_result(p, cols.drop_last()) {
            Err(e) => Err(e),
            Ok(q) => order_by_result(q, cols.last(), None, None),
        }
    }
}

fn apply_order_by_columns(parts: &mut QueryParts, cols: &Vec<String>) -> (r: Result<(), String>)
    ensures
        parts_result_is(r, *final(parts), order_by_columns_result(old(parts).deep_view(), cols.deep_view())),
{
    let ghost start = parts.deep_view();
    let none: Option<String> = None;
    assert(cols.deep_view().take(0) =~= Seq::<Seq<char>>::empty());
    for i in 0..cols.len()
        invariant
            start == old(parts).deep_view(),
            order_by_columns_result(start, cols.deep_view().take(i as int)) == Ok::<PartsView, Seq<char>>(parts.deep_view()),
            none is None,
    {
        proof {
            assert(cols.deep_view().take(i + 1).drop_last() =~= cols.deep_view().take(i as int));
            assert(cols.deep_view()[i as int] == cols@[i as int]@);
        }
        let r = apply_order_by(parts, &cols[i], &none, &none);
        if r.is_err() {
            proof {
                lemma_order_cols_err_stays(start, cols.deep_view(), i + 1);
            }
            return r;
        }
    }
    proof {
        assert(cols.deep_view().take(cols.len() as int) =~= cols.deep_view());
    }
    Ok(())
}

proof fn lemma_order_cols_err_stays(p: PartsView, cols: Seq<Seq<char>>, i: int)
    requires
        0 <= i <= cols.len(),
        order_by_columns_result(p, cols.take(i)) is Err,
    ensures
        order_by_columns_result(p, cols) == order_by_columns_result(p, cols.take(i)),
    decreases cols.len() - i,
{
    if i < cols.len() {
        assert(cols.take(i + 1).drop_last() =~= cols.take(i));
        lemma_order_cols_err_stays(p, cols, i + 1);
    } else {
        assert(cols.take(i) =~= cols);
    }
}

/// The state after GROUP BY a list of columns.
pub open spec fn group_by_result(p: PartsView, cols: Seq<Seq<char>>) -> Result<PartsView, Seq<char>> {
    match all_frags(col_frags(cols, false)) {
        Err(e) => Err(e),
        Ok(_) => Ok(PartsView { group_by: p.group_by + cols.map_values(|c: Seq<char>| col_parts(c)), ..p }),
    }
}

fn apply_group_by(parts: &mut QueryParts, cols: &Vec<String>) -> (r: Result<(), String>)
    ensures
        parts_result_is(r, *final(parts), group_by_result(old(parts).deep_view(), cols.deep_view())),
{
    let ghost before = parts.deep_view();
    let mut ids = col_identifiers(cols)?;
    let ghost idv = ids.deep_view();
    parts.group_by.append(&mut ids);
    assert(parts.deep_view().group_by =~= before.group_by + idv);
    Ok(())
}

// ─── LIMIT / OFFSET / locks ──────────────────────────────────────────────────

pub open spec fn lock_builder_msg() -> Seq<char> {
    "SELECT lock clauses are only supported for SELECT builders."@
}

pub open spec fn lock_modifier_msg() -> Seq<char> {
    "Select lock modifier requires a lock strength first."@
}

/// The state after a lock strength (or, with `modifier`, a lock modifier).
pub open spec fn lock_result(p: PartsView, strength: Option<LockStrength>, modifier: Option<LockModifier>) -> Result<PartsView, Seq<char>> {
    if p.statement == Some(StatementKind::Insert) || p.statement == Some(StatementKind::Update)
        || p.statement == Some(StatementKind::Delete) {
        Err(lock_builder_msg())
    } else {
        match strength {
            Some(s) => Ok(PartsView { lock: Some(SelectLockClause { strength: s, modifier: None }), ..p }),
            None => match p.lock {
                None => Err(lock_modifier_msg()),
                Some(l) => Ok(PartsView { lock: Some(SelectLockClause { strength: l.strength, modifier }), ..p }),
            },
        }
    }
}

fn apply_lock(parts: &mut QueryParts, strength: Option<LockStrength>, modifier: Option<LockModifier>) -> (r: Result<(), String>)
    ensures
        parts_result_is(r, *final(parts), lock_result(old(parts).deep_view(), strength, modifier)),
{
    match parts.statement {
        Some(StatementKind::Insert) | Some(StatementKind::Update) | Some(StatementKind::Delete) => {
            return Err(String::from_str("SELECT lock clauses are only supported for SELECT builders."));
        },
        _ => {},
    }
    match strength {
        Some(s) => {
            parts.lock = Some(SelectLockClause { strength: s, modifier: None });
        },
        None => match parts.lock {
            None => {
                return Err(String::from_str("Select lock modifier requires a lock strength first."));
            },
            Some(l) => {
                parts.lock = Some(SelectLockClause { strength: l.strength, modifier });
            },
        },
    }
    Ok(())
}

// ─── INSERT / UPDATE / DELETE ────────────────────────────────────────────────

/// An update with no table and no assignments.
pub open spec fn empty_update() -> UpdateView {
    UpdateView { table: None, assignments: Seq::empty() }
}

/// The state turned into an INSERT into `table`; other statement state is cleared.
pub open spec fn insert_into_result(p: PartsView, table: Seq<char>) -> PartsView {
    PartsView {
        statement: Some(StatementKind::Insert),
        insert: InsertView { into: Some(table), ..empty_insert() },
        update: empty_update(),
        delete_from: None,
        where_clauses: Seq::empty(),
        returning: None,
        selected_columns: Seq::empty(),
        ..p
    }
}

/// The state turned into an UPDATE of `table`; other statement state is cleared.
pub open spec fn update_result(p: PartsView, table: Seq<char>) -> PartsView {
    PartsView {
        statement: Some(StatementKind::Update),
        update: UpdateView { table: Some(table), assignments: Seq::empty() },
        insert: empty_insert(),
        delete_from: None,
        where_clauses: Seq::empty(),
        returning: None,
        selected_columns: Seq::empty(),
        ..p
    }
}

/// The state turned into a DELETE from `table`; other statement state is cleared.
pub open spec fn delete_result(p: PartsView, table: Seq<char>) -> PartsView {
    PartsView {
        statement: Some(StatementKind::Delete),
        delete_from: Some(table),
        insert: empty_insert(),
        update: empty_update(),
        where_clauses: Seq::empty(),
        returning: None,
        selected_columns: Seq::empty(),
        ..p
    }
}

/// Which statement a table-taking operation starts.
#[derive(Clone, Copy, PartialEq, Eq, Structural, Debug)]
pub enum StatementStart {
    Insert,
    Update,
    Delete,
}

/// The state after starting a statement on `table`.
pub open spec fn statement_result(p: PartsView, kind: StatementStart, table: Seq<char>) -> PartsView {
    match kind {
        StatementStart::Insert => insert_into_result(p, table),
        StatementStart::Update => update_result(p, table),
        StatementStart::Delete => delete_result(p, table),
    }
}

fn apply_statement(parts: &mut QueryParts, kind: StatementStart, table: &String)
    ensures
        final(parts).deep_view() == statement_result(old(parts).deep_view(), kind, table@),
{
    let ghost before = parts.deep_view();
    parts.insert = InsertState::new();
    parts.update = UpdateState::new();
    parts.delete = DeleteState::new();
    match kind {
        StatementStart::Insert => {
            parts.statement = Some(StatementKind::Insert);
            parts.insert.into = Some(table.clone());
        },
        StatementStart::Update => {
            parts.statement = Some(StatementKind::Update);
            parts.update.table = Some(table.clone());
        },
        StatementStart::Delete => {
            parts.statement = Some(StatementKind::Delete);
            parts.delete.from_table = Some(table.clone());
        },
    }
    parts.where_clauses = Vec::new();
    parts.returning = None;
    parts.selected_columns = Vec::new();
    proof {
        assert(parts.deep_view().where_clauses =~= Seq::<(QueryView, LogicalOp)>::empty());
        assert(parts.deep_view().selected_columns =~= Seq::<Seq<char>>::empty());
        assert(parts.deep_view().update.assignments =~= Seq::<(Seq<char>, AssignView)>::empty());
        assert(parts.deep_view() =~= statement_result(before, kind, table@));
    }
}

/// The state with an INSERT column list (rows and source query cleared).
pub open spec fn insert_columns_result(p: PartsView, cols: Seq<Seq<char>>) -> PartsView {
    PartsView {
        insert: InsertView { column_names: cols, rows: Seq::empty(), select: None, ..p.insert },
        returning: None,
        selected_columns: Seq::empty(),
        ..p
    }
}

fn apply_insert_columns(parts: &mut QueryParts, cols: &Vec<String>)
    ensures
        final(parts).deep_view() == insert_columns_result(old(parts).deep_view(), cols.deep_view()),
{
    let ghost before = parts.deep_view();
    parts.insert.column_names = duplicate_vec(cols);
    parts.insert.rows = Vec::new();
    parts.insert.select = None;
    parts.returning = None;
    parts.selected_columns = Vec::new();
    proof {
        assert(parts.deep_view().insert.rows =~= Seq::<Seq<ValueView>>::empty());
        assert(parts.deep_view().selected_columns =~= Seq::<Seq<char>>::empty());
        assert(parts.deep_view() =~= insert_columns_result(before, cols.deep_view()));
    }
}

/// The state after `values(rows)` (with column names when given).
pub open spec fn values_result(p: PartsView, column_names: Seq<Seq<char>>, rows: Seq<Seq<ValueView>>) -> Result<PartsView, Seq<char>> {
    if rows.len() == 0 {
        Err("values() requires at least one row"@)
    } else {
        Ok(PartsView {
            insert: InsertView {
                column_names: if column_names.len() > 0 { column_names } else { p.insert.column_names },
                rows,
                select: None,
                ..p.insert
            },
            returning: None,
            selected_columns: Seq::empty(),
            ..p
        })
    }
}

fn apply_values_insert(parts: &mut QueryParts, column_names: &Vec<String>, rows: &Vec<Vec<SqlValue>>) -> (r: Result<(), String>)
    ensures
        parts_result_is(r, *final(parts), values_result(old(parts).deep_view(), column_names.deep_view(), rows.deep_view())),
{
    if rows.len() == 0 {
        return Err(String::from_str("values() requires at least one row"));
    }
    let ghost before = parts.deep_view();
    if column_names.len() > 0 {
        parts.insert.column_names = duplicate_vec(column_names);
    }
    parts.insert.rows = duplicate_vec(rows);
    parts.insert.select = None;
    parts.returning = None;
    parts.selected_columns = Vec::new();
    proof {
        assert(parts.deep_view().selected_columns =~= Seq::<Seq<char>>::empty());
        assert(parts.deep_view() =~= values_result(before, column_names.deep_view(), rows.deep_view())->Ok_0);
    }
    Ok(())
}

/// The state reading its INSERT rows from `q`.
pub open spec fn insert_select_result(p: PartsView, q: QueryView) -> PartsView {
    PartsView {
        insert: InsertView { select: Some(q), rows: Seq::empty(), ..p.insert },
        returning: None,
        selected_columns: Seq::empty(),
        ..p
    }
}

fn apply_insert_select(parts: &mut QueryParts, q: SqlQuery)
    ensures
        final(parts).deep_view() == insert_select_result(old(parts).deep_view(), q@),
{
    let ghost before = parts.deep_view();
    parts.insert.select = Some(q);
    parts.insert.rows = Vec::new();
    parts.returning = None;
    parts.selected_columns = Vec::new();
    proof {
        assert(parts.deep_view().insert.rows =~= Seq::<Seq<ValueView>>::empty());
        assert(parts.deep_view().selected_columns =~= Seq::<Seq<char>>::empty());
        assert(parts.deep_view() =~= insert_select_result(before, q@));
    }
}

/// What an assignment input stores.
pub open spec fn assign_input_view(v: AssignmentInputValue) -> AssignView {
    match v {
        AssignmentInputValue::Node(n) => AssignView::Expr(n.deep_view()),
        AssignmentInputValue::Sql(x) => AssignView::Sql(x.deep_view()),
    }
}

/// What a list of `(column, value)` inputs stores.
pub open spec fn assignments_view(asg: Seq<(String, AssignmentInputValue)>) -> Seq<(Seq<char>, AssignView)> {
    asg.map_values(|a: (String, AssignmentInputValue)| (a.0@, assign_input_view(a.1)))
}

fn to_assignments(asg: &Vec<(String, AssignmentInputValue)>) -> (r: Vec<UpdateAssignment>)
    ensures
        r.deep_view() == assignments_view(asg@),
{
    let mut out: Vec<UpdateAssignment> = Vec::new();
    for i in 0..asg.len()
        invariant
            out.deep_view() == assignments_view(asg@.take(i as int)),
    {
        let ghost before = out.deep_view();
        let value = match &asg[i].1 {
            AssignmentInputValue::Node(n) => AssignmentValue::Expr(n.duplicate()),
            AssignmentInputValue::Sql(x) => AssignmentValue::Sql(x.duplicate()),
        };
        let a = UpdateAssignment { column: asg[i].0.clone(), value };
        let ghost av = a.deep_view();
        out.push(a);
        proof {
            assert(av == (asg@[i as int].0@, assign_input_view(asg@[i as int].1)));
            assert(out.deep_view() =~= before.push(av));
            assert(assignments_view(asg@.take(i + 1)) =~= assignments_view(asg@.take(i as int)).push(av));
        }
    }
    proof {
        assert(asg@.take(asg.len() as int) =~= asg@);
    }
    out
}

/// The state after `set(assignments)`.
pub open spec fn set_result(p: PartsView, asg: Seq<(Seq<char>, AssignView)>) -> Result<PartsView, Seq<char>> {
    if asg.len() == 0 {
        Err("set() requires at least one column"@)
    } else {
        Ok(PartsView {
            update: UpdateView { assignments: asg, ..p.update },
            returning: None,
            selected_columns: Seq::empty(),
            ..p
        })
    }
}

fn apply_set(parts: &mut QueryParts, asg: &Vec<(String, AssignmentInputValue)>) -> (r: Result<(), String>)
    ensures
        parts_result_is(r, *final(parts), set_result(old(parts).deep_view(), assignments_view(asg@))),
{
    if asg.len() == 0 {
        return Err(String::from_str("set() requires at least one column"));
    }
    let ghost before = parts.deep_view();
    parts.update.assignments = to_assignments(asg);
    parts.returning = None;
    parts.selected_columns = Vec::new();
    proof {
        assert(parts.deep_view().selected_columns =~= Seq::<Seq<char>>::empty());
        assert(parts.deep_view() =~= set_result(before, assignments_view(asg@))->Ok_0);
    }
    Ok(())
}

// ─── ON CONFLICT ─────────────────────────────────────────────────────────────

pub open spec fn mixed_target_msg() -> Seq<char> {
    "Insert conflict target cannot mix columns and constraint targets."@
}

/// The state with an ON CONFLICT target (a columns target and a constraint target do
/// not mix).
pub open spec fn conflict_target_result(p: PartsView, t: TargetView) -> Result<PartsView, Seq<char>> {
    let mixed = match (p.insert.conflict.target, t) {
        (Some(TargetView::Columns(_)), TargetView::Constraint(_)) => true,
        (Some(TargetView::Constraint(_)), TargetView::Columns(_)) => true,
        _ => false,
    };
    if mixed {
        Err(mixed_target_msg())
    } else {
        Ok(PartsView {
            insert: InsertView { conflict: crate::builder::state::ConflictView { target: Some(t), ..p.insert.conflict }, ..p.insert },
            ..p
        })
    }
}

fn apply_conflict_target(parts: &mut QueryParts, target: InsertConflictTarget) -> (r: Result<(), String>)
    ensures
        parts_result_is(r, *final(parts), conflict_target_result(old(parts).deep_view(), target.deep_view())),
{
    let mixed = match (&parts.insert.conflict.target, &target) {
        (Some(InsertConflictTarget::Columns(_)), InsertConflictTarget::Constraint(_)) => true,
        (Some(InsertConflictTarget::Constraint(_)), InsertConflictTarget::Columns(_)) => true,
        _ => false,
    };
    if mixed {
        return Err(String::from_str("Insert conflict target cannot mix columns and constraint targets."));
    }
    let ghost before = parts.deep_view();
    parts.insert.conflict.target = Some(target);
    proof {
        assert(parts.deep_view() =~= conflict_target_result(before, target.deep_view())->Ok_0);
    }
    Ok(())
}

/// Whether some column name is empty.
pub open spec fn some_empty(cols: Seq<Seq<char>>) -> bool {
    exists|i: int| 0 <= i < cols.len() && (#[trigger] cols[i]).len() == 0
}

/// The state after `onConflict(cols)`.
pub open spec fn conflict_columns_result(p: PartsView, cols: Seq<Seq<char>>) -> Result<PartsView, Seq<char>> {
    if cols.len() == 0 {
        Err("onConflict(...) requires at least one column."@)
    } else if some_empty(cols) {
        Err("onConflict(...) columns cannot be empty."@)
    } else {
        conflict_target_result(p, TargetView::Columns(cols))
    }
}

pub(crate) fn has_empty(cols: &Vec<String>) -> (r: bool)
    ensures
        r == some_empty(cols.deep_view()),
{
    for i in 0..cols.len()
        invariant
            forall|j: int| 0 <= j < i ==> (#[trigger] cols.deep_view()[j]).len() > 0,
    {
        proof {
            assert(cols.deep_view()[i as int] == cols@[i as int]@);
        }
        if cols[i].as_str().is_empty() {
            assert(cols.deep_view()[i as int].len() == 0);
            return true;
        }
    }
    false
}

fn apply_conflict_columns(parts: &mut QueryParts, cols: &Vec<String>) -> (r: Result<(), String>)
    ensures
        parts_result_is(r, *final(parts), conflict_columns_result(old(parts).deep_view(), cols.deep_view())),
{
    if cols.len() == 0 {
        return Err(String::from_str("onConflict(...) requires at least one column."));
    }
    if has_empty(cols) {
        return Err(String::from_str("onConflict(...) columns cannot be empty."));
    }
    apply_conflict_target(parts, InsertConflictTarget::Columns(duplicate_vec(cols)))
}

/// The state after `onConflictOnConstraint(name)`.
pub open spec fn conflict_constraint_result(p: PartsView, name: Seq<char>) -> Result<PartsView, Seq<char>> {
    if name.len() == 0 {
        Err("onConflictOnConstraint(...) requires a non-empty constraint name."@)
    } else {
        conflict_target_result(p, TargetView::Constraint(name))
    }
}

fn apply_conflict_constraint(parts: &mut QueryParts, name: &String) -> (r: Result<(), String>)
    ensures
        parts_result_is(r, *final(parts), conflict_constraint_result(old(parts).deep_view(), name@)),
{
    if name.as_str().is_empty() {
        return Err(String::from_str("onConflictOnConstraint(...) requires a non-empty constraint name."));
    }
    apply_conflict_target(parts, InsertConflictTarget::Constraint(name.clone()))
}

/// The state with an ON CONFLICT action.
pub open spec fn conflict_action_result(p: PartsView, a: ActionView) -> PartsView {
    PartsView {
        insert: InsertView { conflict: crate::builder::state::ConflictView { action: Some(a), ..p.insert.conflict }, ..p.insert },
        ..p
    }
}

fn set_conflict_action(parts: &mut QueryParts, action: InsertConflictAction)
    ensures
        final(parts).deep_view() == conflict_action_result(old(parts).deep_view(), action.deep_view()),
{
    let ghost before = parts.deep_view();
    parts.insert.conflict.action = Some(action);
    assert(parts.deep_view() =~= conflict_action_result(before, action.deep_view()));
}

/// The state after `doUpdateSet(assignments)`.
pub open spec fn do_update_result(p: PartsView, asg: Seq<(Seq<char>, AssignView)>) -> Result<PartsView, Seq<char>> {
    if asg.len() == 0 {
        Err("doUpdateSet(...) requires at least one column."@)
    } else {
        Ok(conflict_action_result(p, ActionView::DoUpdate { assignments: asg, predicate: None }))
    }
}

fn apply_do_update(parts: &mut QueryParts, asg: &Vec<(String, AssignmentInputValue)>) -> (r: Result<(), String>)
    ensures
        parts_result_is(r, *final(parts), do_update_result(old(parts).deep_view(), assignments_view(asg@))),
{
    if asg.len() == 0 {
        return Err(String::from_str("doUpdateSet(...) requires at least one column."));
    }
    let assignments = to_assignments(asg);
    set_conflict_action(parts, InsertConflictAction::DoUpdate { assignments, predicate: None });
    Ok(())
}

pub open spec fn conflict_where_msg() -> Seq<char> {
    "conflictWhere() requires doUpdateSet(...) first."@
}

/// The state after `conflictWhere(pred)`.
pub open spec fn conflict_where_result(p: PartsView, pred: Predicate) -> Result<PartsView, Seq<char>> {
    let o = pred_out(pred, p.dialect);
    match o.res {
        Err(e) => Err(e),
        Ok(q) => {
            let p1 = with_warnings(p, o.warns);
            match p1.insert.conflict.action {
                Some(ActionView::DoUpdate { assignments, predicate: _ }) =>
                    Ok(conflict_action_result(p1, ActionView::DoUpdate { assignments, predicate: Some(q) })),
                _ => Err(conflict_where_msg()),
            }
        },
    }
}

fn apply_conflict_where(parts: &mut QueryParts, pred: &Predicate) -> (r: Result<(), String>)
    ensures
        parts_result_is(r, *final(parts), conflict_where_result(old(parts).deep_view(), *pred)),
{
    let q = eval_pred(pred, parts)?;
    match parts.insert.conflict.action.take() {
        Some(InsertConflictAction::DoUpdate { assignments, predicate: _ }) => {
            set_conflict_action(parts, InsertConflictAction::DoUpdate { assignments, predicate: Some(q) });
            Ok(())
        },
        _ => Err(String::from_str("conflictWhere() requires doUpdateSet(...) first.")),
    }
}

// ─── Operations ──────────────────────────────────────────────────────────────

/// One builder operation. Handle fields name other registered builders; inline variants
/// carry the operations that build their child query on top of a base builder.
pub enum BuilderOp {
    Distinct,
    DistinctOnColumns { cols: Vec<String> },
    DistinctOnExprs { exprs: Vec<DistinctOnInput> },
    Where { pred: Predicate },
    AndWhere { pred: Predicate },
    OrWhere { pred: Predicate },
    Having { pred: Predicate },
    AndHaving { pred: Predicate },
    OrHaving { pred: Predicate },
    On { pred: Predicate },
    AndOn { pred: Predicate },
    OrOn { pred: Predicate },
    UsingColumns { cols: Vec<String> },
    OnColumns { pairs: Vec<(String, String)> },
    FromTable { table: String },
    FromTableAlias { table: String, alias: String },
    JoinTable { join_type: String, table: String },
    JoinTableAlias { join_type: String, table: String, alias: String },
    WithHandle { name: String, rhs_handle: String },
    WithQuery { name: String, query: SqlQuery },
    WithRecursiveHandle { name: String, rhs_handle: String },
    WithRecursiveQuery { name: String, query: SqlQuery, columns: Vec<String> },
    InsertInto { table: String },
    ValuesInsert { column_names: Vec<String>, rows: Vec<Vec<SqlValue>> },
    InsertColumns { cols: Vec<String> },
    Update { table: String },
    DeleteFrom { table: String },
    SetColumns { assignments: Vec<(String, AssignmentInputValue)> },
    OnConflictColumns { cols: Vec<String> },
    OnConflictConstraint { name: String },
    DoNothing,
    DoUpdateSet { assignments: Vec<(String, AssignmentInputValue)> },
    ConflictWhere { pred: Predicate },
    OrderBy { col: String, direction: Option<String>, null_order: Option<String> },
    OrderByColumns { cols: Vec<String> },
    GroupBy { cols: Vec<String> },
    Limit { count: u32 },
    Offset { count: u32 },
    ForUpdate,
    ForShare,
    NoWait,
    SkipLocked,
    SelectAliased { entries: Vec<SelectAliasedEntry> },
    SelectColumns { cols: Vec<String> },
    ReturningAliased { entries: Vec<SelectAliasedEntry> },
    ReturningColumns { cols: Vec<String> },
    UnionHandle { rhs_handle: String },
    Union { query: SqlQuery },
    UnionAllHandle { rhs_handle: String },
    UnionAll { query: SqlQuery },
    IntersectHandle { rhs_handle: String },
    Intersect { query: SqlQuery },
    ExceptHandle { rhs_handle: String },
    Except { query: SqlQuery },
    FromSubqueryHandle { alias: String, rhs_handle: String },
    FromSubquery { alias: String, query: SqlQuery },
    JoinSubqueryHandle { join_type: String, alias: String, rhs_handle: String },
    JoinSubquery { join_type: String, alias: String, query: SqlQuery },
    InsertSelectHandle { rhs_handle: String },
    InsertSelect { query: SqlQuery },
    WithInline { name: String, base_handle: String, child_ops: Vec<BuilderOp> },
    WithRecursiveInline { name: String, base_handle: String, child_ops: Vec<BuilderOp> },
    FromSubqueryInline { alias: String, base_handle: String, child_ops: Vec<BuilderOp> },
    JoinSubqueryInline { join_type: String, alias: String, base_handle: String, child_ops: Vec<BuilderOp> },
    UnionInline { base_handle: String, child_ops: Vec<BuilderOp> },
    UnionAllInline { base_handle: String, child_ops: Vec<BuilderOp> },
    IntersectInline { base_handle: String, child_ops: Vec<BuilderOp> },
    ExceptInline { base_handle: String, child_ops: Vec<BuilderOp> },
}

/// The state with a CTE appended.
pub open spec fn cte_result(p: PartsView, name: Seq<char>, q: QueryView, recursive: bool, columns: Seq<Seq<char>>) -> PartsView {
    PartsView { ctes: p.ctes.push(CteView { name, recursive, columns, query: q }), ..p }
}

/// The state with a compound part appended (the pending join committed first).
pub open spec fn compound_result(p: PartsView, op: CompoundOperator, q: QueryView) -> Result<PartsView, Seq<char>> {
    match normalize_view(p) {
        Err(e) => Err(e),
        Ok(n) => Ok(PartsView { compounds: n.compounds.push((op, q)), ..n }),
    }
}

/// `f` applied to the query a handle stands for.
pub open spec fn with_handle_query(r: RegistryView, h: Seq<char>, f: spec_fn(QueryView) -> Result<PartsView, Seq<char>>) -> Result<PartsView, Seq<char>> {
    match handle_query(r, h) {
        Err(e) => Err(e),
        Ok(q) => f(q),
    }
}

/// The state after one operation; handles are resolved against the registry.
#[verifier::opaque]
pub open spec fn spec_apply_op(r: RegistryView, p: PartsView, op: BuilderOp) -> Result<PartsView, Seq<char>>
    decreases op, 0nat,
{
    match op {
        BuilderOp::Distinct => Ok(PartsView { distinct: Some(DistinctView::Distinct), ..p }),
        BuilderOp::DistinctOnColumns { cols } => distinct_on_result(p, col_frags(cols.deep_view(), false)),
        BuilderOp::DistinctOnExprs { exprs } =>
            distinct_on_result(p, exprs@.map_values(|e: DistinctOnInput| distinct_frag(e, p.dialect))),
        BuilderOp::Where { pred } => clause_result(p, pred, LogicalOp::And, false),
        BuilderOp::AndWhere { pred } => clause_result(p, pred, LogicalOp::And, false),
        BuilderOp::OrWhere { pred } => clause_result(p, pred, LogicalOp::Or, false),
        BuilderOp::Having { pred } => clause_result(p, pred, LogicalOp::And, true),
        BuilderOp::AndHaving { pred } => clause_result(p, pred, LogicalOp::And, true),
        BuilderOp::OrHaving { pred } => clause_result(p, pred, LogicalOp::Or, true),
        BuilderOp::On { pred } => on_result(p, pred, "AND"@, false),
        BuilderOp::AndOn { pred } => on_result(p, pred, "AND"@, true),
        BuilderOp::OrOn { pred } => on_result(p, pred, "OR"@, true),
        BuilderOp::UsingColumns { cols } => using_result(p, cols.deep_view()),
        BuilderOp::OnColumns { pairs } => on_columns_result(p, pair_views(pairs@)),
        BuilderOp::FromTable { table } => from_table_result(p, table@, None),
        BuilderOp::FromTableAlias { table, alias } => from_table_result(p, table@, Some(alias@)),
        BuilderOp::JoinTable { join_type, table } => join_table_result(p, join_type@, table@, None),
        BuilderOp::JoinTableAlias { join_type, table, alias } => join_table_result(p, join_type@, table@, Some(alias@)),
        BuilderOp::WithHandle { name, rhs_handle } =>
            with_handle_query(r, rhs_handle@, |q: QueryView| Ok(cte_result(p, name@, q, false, Seq::empty()))),
        BuilderOp::WithQuery { name, query } => Ok(cte_result(p, name@, query@, false, Seq::empty())),
        BuilderOp::WithRecursiveHandle { name, rhs_handle } => match handle_parts(r, rhs_handle@) {
            Err(e) => Err(e),
            Ok(rp) => with_handle_query(r, rhs_handle@, |q: QueryView| Ok(cte_result(p, name@, q, true, rp.selected_columns))),
        },
        BuilderOp::WithRecursiveQuery { name, query, columns } => Ok(cte_result(p, name@, query@, true, columns.deep_view())),
        BuilderOp::InsertInto { table } => Ok(statement_result(p, StatementStart::Insert, table@)),
        BuilderOp::ValuesInsert { column_names, rows } => values_result(p, column_names.deep_view(), rows.deep_view()),
        BuilderOp::InsertColumns { cols } => Ok(insert_columns_result(p, cols.deep_view())),
        BuilderOp::Update { table } => Ok(statement_result(p, StatementStart::Update, table@)),
        BuilderOp::DeleteFrom { table } => Ok(statement_result(p, StatementStart::Delete, table@)),
        BuilderOp::SetColumns { assignments } => set_result(p, assignments_view(assignments@)),
        BuilderOp::OnConflictColumns { cols } => conflict_columns_result(p, cols.deep_view()),
        BuilderOp::OnConflictConstraint { name } => conflict_constraint_result(p, name@),
        BuilderOp::DoNothing => Ok(conflict_action_result(p, ActionView::DoNothing)),
        BuilderOp::DoUpdateSet { assignments } => do_update_result(p, assignments_view(assignments@)),
        BuilderOp::ConflictWhere { pred } => conflict_where_result(p, pred),
        BuilderOp::OrderBy { col, direction, null_order } => order_by_result(p, col@, opt_view(direction), opt_view(null_order)),
        BuilderOp::OrderByColumns { cols } => order_by_columns_result(p, cols.deep_view()),
        BuilderOp::GroupBy { cols } => group_by_result(p, cols.deep_view()),
        BuilderOp::Limit { count } => Ok(PartsView { pagination: crate::builder::state::PaginationState { limit: Some(count), ..p.pagination }, ..p }),
        BuilderOp::Offset { count } => Ok(PartsView { pagination: crate::builder::state::PaginationState { offset: Some(count), ..p.pagination }, ..p }),
        BuilderOp::ForUpdate => lock_result(p, Some(LockStrength::Update), None),
        BuilderOp::ForShare => lock_result(p, Some(LockStrength::Share), None),
        BuilderOp::NoWait => lock_result(p, None, Some(LockModifier::NoWait)),
        BuilderOp::SkipLocked => lock_result(p, None, Some(LockModifier::SkipLocked)),
        BuilderOp::SelectAliased { entries } => aliased_projection_result(p, entries@, ProjectionTarget::Select),
        BuilderOp::SelectColumns { cols } => columns_projection_result(p, cols.deep_view(), ProjectionTarget::Select),
        BuilderOp::ReturningAliased { entries } => aliased_projection_result(p, entries@, ProjectionTarget::Returning),
        BuilderOp::ReturningColumns { cols } => columns_projection_result(p, cols.deep_view(), ProjectionTarget::Returning),
        BuilderOp::UnionHandle { rhs_handle } =>
            with_handle_query(r, rhs_handle@, |q: QueryView| compound_result(p, CompoundOperator::Union, q)),
        BuilderOp::Union { query } => compound_result(p, CompoundOperator::Union, query@),
        BuilderOp::UnionAllHandle { rhs_handle } =>
            with_handle_query(r, rhs_handle@, |q: QueryView| compound_result(p, CompoundOperator::UnionAll, q)),
        BuilderOp::UnionAll { query } => compound_result(p, CompoundOperator::UnionAll, query@),
        BuilderOp::IntersectHandle { rhs_handle } =>
            with_handle_query(r, rhs_handle@, |q: QueryView| compound_result(p, CompoundOperator::Intersect, q)),
        BuilderOp::Intersect { query } => compound_result(p, CompoundOperator::Intersect, query@),
        BuilderOp::ExceptHandle { rhs_handle } =>
            with_handle_query(r, rhs_handle@, |q: QueryView| compound_result(p, CompoundOperator::Except, q)),
        BuilderOp::Except { query } => compound_result(p, CompoundOperator::Except, query@),
        BuilderOp::FromSubqueryHandle { alias, rhs_handle } =>
            with_handle_query(r, rhs_handle@, |q: QueryView| from_subquery_result(p, q, alias@)),
        BuilderOp::FromSubquery { alias, query } => from_subquery_result(p, query@, alias@),
        BuilderOp::JoinSubqueryHandle { join_type, alias, rhs_handle } =>
            with_handle_query(r, rhs_handle@, |q: QueryView| join_subquery_result(p, join_type@, alias@, q)),
        BuilderOp::JoinSubquery { join_type, alias, query } => join_subquery_result(p, join_type@, alias@, query@),
        BuilderOp::InsertSelectHandle { rhs_handle } =>
            with_handle_query(r, rhs_handle@, |q: QueryView| Ok(insert_select_result(p, q))),
        BuilderOp::InsertSelect { query } => Ok(insert_select_result(p, query@)),
        BuilderOp::WithInline { name, base_handle, child_ops } => match inline_child(r, base_handle@, child_ops@) {
            Err(e) => Err(e),
            Ok(c) => Ok(cte_result(p, name@, c.1, false, Seq::empty())),
        },
        BuilderOp::WithRecursiveInline { name, base_handle, child_ops } => match inline_child(r, base_handle@, child_ops@) {
            Err(e) => Err(e),
            Ok(c) => Ok(cte_result(p, name@, c.1, true, c.0.selected_columns)),
        },
        BuilderOp::FromSubqueryInline { alias, base_handle, child_ops } => match inline_child(r, base_handle@, child_ops@) {
            Err(e) => Err(e),
            Ok(c) => from_subquery_result(p, c.1, alias@),
        },
        BuilderOp::JoinSubqueryInline { join_type, alias, base_handle, child_ops } => match inline_child(r, base_handle@, child_ops@) {
            Err(e) => Err(e),
            Ok(c) => join_subquery_result(p, join_type@, alias@, c.1),
        },
        BuilderOp::UnionInline { base_handle, child_ops } => match inline_child(r, base_handle@, child_ops@) {
            Err(e) => Err(e),
            Ok(c) => compound_result(p, CompoundOperator::Union, c.1),
        },
        BuilderOp::UnionAllInline { base_handle, child_ops } => match inline_child(r, base_handle@, child_ops@) {
            Err(e) => Err(e),
            Ok(c) => compound_result(p, CompoundOperator::UnionAll, c.1),
        },
        BuilderOp::IntersectInline { base_handle, child_ops } => match inline_child(r, base_handle@, child_ops@) {
            Err(e) => Err(e),
            Ok(c) => compound_result(p, CompoundOperator::Intersect, c.1),
        },
        BuilderOp::ExceptInline { base_handle, child_ops } => match inline_child(r, base_handle@, child_ops@) {
            Err(e) => Err(e),
            Ok(c) => compound_result(p, CompoundOperator::Except, c.1),
        },
    }
}

/// The child state and query of an inline operation: the base builder with the child
/// operations applied, then built.
pub open spec fn inline_child(r: RegistryView, base: Seq<char>, ops: Seq<BuilderOp>) -> Result<(PartsView, QueryView), Seq<char>>
    decreases ops, 2nat,
{
    match handle_parts(r, base) {
        Err(e) => Err(e),
        Ok(bp) => match spec_apply_ops(r, bp, ops) {
            Err(e) => Err(e),
            Ok(cp) => match build_outcome(cp) {
                Err(e) => Err(e),
                Ok(q) => Ok((cp, q)),
            },
        },
    }
}

/// The state after a sequence of operations, stopping at the first failure.
pub open spec fn spec_apply_ops(r: RegistryView, p: PartsView, ops: Seq<BuilderOp>) -> Result<PartsView, Seq<char>>
    decreases ops, 1nat,
{
    if ops.len() == 0 {
        Ok(p)
    } else {
        match spec_apply_ops(r, p, ops.drop_last()) {
            Err(e) => Err(e),
            Ok(q) => spec_apply_op(r, q, ops.last()),
        }
    }
}

fn push_cte(parts: &mut QueryParts, name: &String, q: SqlQuery, recursive: bool, columns: Vec<String>)
    ensures
        final(parts).deep_view() == cte_result(old(parts).deep_view(), name@, q@, recursive, columns.deep_view()),
{
    let ghost before = parts.deep_view();
    let c = CteDefinition { name: name.clone(), recursive, columns, query: q };
    let ghost cv = c.deep_view();
    parts.ctes.push(c);
    assert(parts.deep_view().ctes =~= before.ctes.push(cv));
}

fn push_plain_cte(parts: &mut QueryParts, name: &String, q: SqlQuery, recursive: bool)
    ensures
        final(parts).deep_view() == cte_result(old(parts).deep_view(), name@, q@, recursive, Seq::empty()),
{
    let cols: Vec<String> = Vec::new();
    assert(cols.deep_view() =~= Seq::<Seq<char>>::empty());
    push_cte(parts, name, q, recursive, cols);
}

fn push_compound(parts: &mut QueryParts, op: CompoundOperator, q: SqlQuery) -> (r: Result<(), String>)
    ensures
        parts_result_is(r, *final(parts), compound_result(old(parts).deep_view(), op, q@)),
{
    normalize_in_place(parts)?;
    let ghost before = parts.deep_view();
    let ghost qv = q@;
    parts.compounds.push(CompoundPart { operator: op, query: q });
    assert(parts.deep_view().compounds =~= before.compounds.push((op, qv)));
    Ok(())
}

/// Apply the child operations of an inline operation to its base builder and build the
/// result: the child's selected columns and its query.
fn inline_child_query(reg: &Registry, base: &String, ops: &Vec<BuilderOp>) -> (r: Result<(Vec<String>, SqlQuery), String>)
    ensures
        match inline_child(reg@, base@, ops@) {
            Ok(c) => r matches Ok(x) && x.0.deep_view() == c.0.selected_columns && x.1@ == c.1,
            Err(e) => r matches Err(m) && m@ == e,
        },
    decreases ops@, 2nat,
{
    let bp = reg.registry_get_cloned(base.as_str())?;
    let mut cp = apply_ops_to_parts(reg, bp, ops)?;
    let cols = duplicate_vec(&cp.selected_columns);
    let q = build_query(&mut cp)?;
    Ok((cols, q))
}

pub(crate) proof fn lemma_apply_ops_step(r: RegistryView, p: PartsView, ops: Seq<BuilderOp>, i: int)
    requires
        0 <= i < ops.len(),
    ensures
        spec_apply_ops(r, p, ops.take(i + 1)) == (match spec_apply_ops(r, p, ops.take(i)) {
            Err(e) => Err(e),
            Ok(q) => spec_apply_op(r, q, ops[i]),
        }),
{
    reveal(spec_apply_op);
    assert(ops.take(i + 1).drop_last() =~= ops.take(i));
    assert(ops.take(i + 1).last() == ops[i]);
}

pub(crate) proof fn lemma_apply_ops_none(r: RegistryView, p: PartsView, ops: Seq<BuilderOp>)
    ensures
        spec_apply_ops(r, p, ops.take(0)) == Ok::<PartsView, Seq<char>>(p),
{
    reveal(spec_apply_op);
    assert(ops.take(0).len() == 0);
}

proof fn lemma_apply_ops_err_stays(r: RegistryView, p: PartsView, ops: Seq<BuilderOp>, i: int)
    requires
        0 <= i <= ops.len(),
        spec_apply_ops(r, p, ops.take(i)) is Err,
    ensures
        spec_apply_ops(r, p, ops) == spec_apply_ops(r, p, ops.take(i)),
    decreases ops.len() - i,
{
    if i < ops.len() {
        lemma_apply_ops_step(r, p, ops, i);
        lemma_apply_ops_err_stays(r, p, ops, i + 1);
    } else {
        assert(ops.take(i) =~= ops);
    }
}

/// Apply a sequence of operations to a builder state, stopping at the first failure.
pub fn apply_ops_to_parts(reg: &Registry, initial: QueryParts, ops: &Vec<BuilderOp>) -> (r: Result<QueryParts, String>)
    ensures
        match spec_apply_ops(reg@, initial.deep_view(), ops@) {
            Ok(v) => r matches Ok(q) && q.deep_view() == v,
            Err(e) => r matches Err(m) && m@ == e,
        },
    decreases ops@, 1nat,
{
    let ghost start = initial.deep_view();
    let mut parts = initial;
    proof {
        lemma_apply_ops_none(reg@, start, ops@);
    }
    let mut i: usize = 0;
    while i < ops.len()
        invariant
            i <= ops.len(),
            start == initial.deep_view(),
            spec_apply_ops(reg@, start, ops@.take(i as int)) == Ok::<PartsView, Seq<char>>(parts.deep_view()),
        decreases ops.len() - i,
    {
        proof {
            lemma_apply_ops_step(reg@, start, ops@, i as int);
            assert(decreases_to!(ops@ => ops@[i as int]));
        }
        let res = apply_op(reg, &mut parts, &ops[i]);
        if let Err(e) = res {
            proof {
                lemma_apply_ops_err_stays(reg@, start, ops@, i + 1);
            }
            return Err(e);
        }
        i = i + 1;
    }
    assert(ops@.take(ops.len() as int) =~= ops@);
    Ok(parts)
}

fn apply_predicate_op(reg: &Registry, parts: &mut QueryParts, op: &BuilderOp) -> (r: Result<(), String>)
    requires
        op is Distinct || op is DistinctOnColumns || op is DistinctOnExprs || op is Where || op is AndWhere || op is OrWhere || op is Having || op is AndHaving || op is OrHaving || op is On || op is AndOn || op is OrOn || op is UsingColumns || op is OnColumns,
    ensures
        parts_result_is(r, *final(parts), spec_apply_op(reg@, old(parts).deep_view(), *op)),
{
    proof {
        reveal(spec_apply_op);
        reveal_strlit("AND");
        reveal_strlit("OR");
    }
    match op {
        BuilderOp::Distinct => {
            parts.distinct = Some(DistinctMode::Distinct);
            Ok(())
        },
        BuilderOp::DistinctOnColumns { cols } => apply_distinct_on_columns(parts, cols),
        BuilderOp::DistinctOnExprs { exprs } => apply_distinct_on_exprs(parts, exprs),
        BuilderOp::Where { pred } => apply_clause(parts, pred, LogicalOp::And, false),
        BuilderOp::AndWhere { pred } => apply_clause(parts, pred, LogicalOp::And, false),
        BuilderOp::OrWhere { pred } => apply_clause(parts, pred, LogicalOp::Or, false),
        BuilderOp::Having { pred } => apply_clause(parts, pred, LogicalOp::And, true),
        BuilderOp::AndHaving { pred } => apply_clause(parts, pred, LogicalOp::And, true),
        BuilderOp::OrHaving { pred } => apply_clause(parts, pred, LogicalOp::Or, true),
        BuilderOp::On { pred } => apply_on(parts, pred, "AND", false),
        BuilderOp::AndOn { pred } => apply_on(parts, pred, "AND", true),
        BuilderOp::OrOn { pred } => apply_on(parts, pred, "OR", true),
        BuilderOp::UsingColumns { cols } => apply_using_columns(parts, cols),
        BuilderOp::OnColumns { pairs } => apply_on_columns(parts, pairs),
        _ => {
            assert(false);
            Ok(())
        },
    }
}

fn apply_source_op(reg: &Registry, parts: &mut QueryParts, op: &BuilderOp) -> (r: Result<(), String>)
    requires
        op is FromTable || op is FromTableAlias || op is JoinTable || op is JoinTableAlias,
    ensures
        parts_result_is(r, *final(parts), spec_apply_op(reg@, old(parts).deep_view(), *op)),
{
    proof {
        reveal(spec_apply_op);
        reveal_strlit("AND");
        reveal_strlit("OR");
    }
    match op {
        BuilderOp::FromTable { table } => apply_from_table(parts, table, None),
        BuilderOp::FromTableAlias { table, alias } => apply_from_table(parts, table, Some(alias)),
        BuilderOp::JoinTable { join_type, table } => apply_join_table(parts, join_type, table, None),
        BuilderOp::JoinTableAlias { join_type, table, alias } => apply_join_table(parts, join_type, table, Some(alias)),
        _ => {
            assert(false);
            Ok(())
        },
    }
}

fn apply_cte_handle_op(reg: &Registry, parts: &mut QueryParts, op: &BuilderOp) -> (r: Result<(), String>)
    requires
        op is WithHandle || op is WithRecursiveHandle,
    ensures
        parts_result_is(r, *final(parts), spec_apply_op(reg@, old(parts).deep_view(), *op)),
{
    proof {
        reveal(spec_apply_op);
    }
    match op {
        BuilderOp::WithHandle { name, rhs_handle } => {
            let q = query_of_handle(reg, rhs_handle.as_str())?;
            push_plain_cte(parts, name, q, false);
            Ok(())
        },
        BuilderOp::WithRecursiveHandle { name, rhs_handle } => {
            let rp = reg.registry_get_cloned(rhs_handle.as_str())?;
            let q = query_of_handle(reg, rhs_handle.as_str())?;
            push_cte(parts, name, q, true, rp.selected_columns);
            Ok(())
        },
        _ => {
            assert(false);
            Ok(())
        },
    }
}

fn apply_cte_op(reg: &Registry, parts: &mut QueryParts, op: &BuilderOp) -> (r: Result<(), String>)
    requires
        op is WithQuery || op is WithRecursiveQuery,
    ensures
        parts_result_is(r, *final(parts), spec_apply_op(reg@, old(parts).deep_view(), *op)),
{
    proof {
        reveal(spec_apply_op);
    }
    match op {
        BuilderOp::WithQuery { name, query } => {
            push_plain_cte(parts, name, query.copy(), false);
            Ok(())
        },
        BuilderOp::WithRecursiveQuery { name, query, columns } => {
            push_cte(parts, name, query.copy(), true, duplicate_vec(columns));
            Ok(())
        },
        _ => {
            assert(false);
            Ok(())
        },
    }
}

fn apply_statement_start_op(reg: &Registry, parts: &mut QueryParts, op: &BuilderOp) -> (r: Result<(), String>)
    requires
        op is InsertInto || op is ValuesInsert || op is InsertColumns || op is Update || op is DeleteFrom,
    ensures
        parts_result_is(r, *final(parts), spec_apply_op(reg@, old(parts).deep_view(), *op)),
{
    proof {
        reveal(spec_apply_op);
        reveal_strlit("AND");
        reveal_strlit("OR");
    }
    match op {
        BuilderOp::InsertInto { table } => {
            apply_statement(parts, StatementStart::Insert, table);
            Ok(())
        },
        BuilderOp::ValuesInsert { column_names, rows } => apply_values_insert(parts, column_names, rows),
        BuilderOp::InsertColumns { cols } => {
            apply_insert_columns(parts, cols);
            Ok(())
        },
        BuilderOp::Update { table } => {
            apply_statement(parts, StatementStart::Update, table);
            Ok(())
        },
        BuilderOp::DeleteFrom { table } => {
            apply_statement(parts, StatementStart::Delete, table);
            Ok(())
        },
        _ => {
            assert(false);
            Ok(())
        },
    }
}

fn apply_statement_op(reg: &Registry, parts: &mut QueryParts, op: &BuilderOp) -> (r: Result<(), String>)
    requires
        op is SetColumns || op is OnConflictColumns || op is OnConflictConstraint || op is DoNothing || op is DoUpdateSet || op is ConflictWhere || op is OrderBy || op is OrderByColumns || op is GroupBy || op is Limit || op is Offset || op is ForUpdate || op is ForShare || op is NoWait || op is SkipLocked,
    ensures
        parts_result_is(r, *final(parts), spec_apply_op(reg@, old(parts).deep_view(), *op)),
{
    proof {
        reveal(spec_apply_op);
        reveal_strlit("AND");
        reveal_strlit("OR");
    }
    match op {
        BuilderOp::SetColumns { assignments } => apply_set(parts, assignments),
        BuilderOp::OnConflictColumns { cols } => apply_conflict_columns(parts, cols),
        BuilderOp::OnConflictConstraint { name } => apply_conflict_constraint(parts, name),
        BuilderOp::DoNothing => {
            set_conflict_action(parts, InsertConflictAction::DoNothing);
            Ok(())
        },
        BuilderOp::DoUpdateSet { assignments } => apply_do_update(parts, assignments),
        BuilderOp::ConflictWhere { pred } => apply_conflict_where(parts, pred),
        BuilderOp::OrderBy { col, direction, null_order } => apply_order_by(parts, col, direction, null_order),
        BuilderOp::OrderByColumns { cols } => apply_order_by_columns(parts, cols),
        BuilderOp::GroupBy { cols } => apply_group_by(parts, cols),
        BuilderOp::Limit { count } => {
            parts.pagination.limit = Some(*count);
            Ok(())
        },
        BuilderOp::Offset { count } => {
            parts.pagination.offset = Some(*count);
            Ok(())
        },
        BuilderOp::ForUpdate => apply_lock(parts, Some(LockStrength::Update), None),
        BuilderOp::ForShare => apply_lock(parts, Some(LockStrength::Share), None),
        BuilderOp::NoWait => apply_lock(parts, None, Some(LockModifier::NoWait)),
        BuilderOp::SkipLocked => apply_lock(parts, None, Some(LockModifier::SkipLocked)),
        _ => {
            assert(false);
            Ok(())
        },
    }
}

fn apply_projection_op(reg: &Registry, parts: &mut QueryParts, op: &BuilderOp) -> (r: Result<(), String>)
    requires
        op is SelectAliased || op is SelectColumns || op is ReturningAliased || op is ReturningColumns || op is UnionHandle || op is Union || op is UnionAllHandle || op is UnionAll || op is IntersectHandle || op is Intersect || op is ExceptHandle || op is Except,
    ensures
        parts_result_is(r, *final(parts), spec_apply_op(reg@, old(parts).deep_view(), *op)),
{
    proof {
        reveal(spec_apply_op);
        reveal_strlit("AND");
        reveal_strlit("OR");
    }
    match op {
        BuilderOp::SelectAliased { entries } => apply_aliased_projection(parts, entries, ProjectionTarget::Select),
        BuilderOp::SelectColumns { cols } => apply_columns_projection(parts, cols, ProjectionTarget::Select),
        BuilderOp::ReturningAliased { entries } => apply_aliased_projection(parts, entries, ProjectionTarget::Returning),
        BuilderOp::ReturningColumns { cols } => apply_columns_projection(parts, cols, ProjectionTarget::Returning),
        BuilderOp::UnionHandle { rhs_handle } => {
            let q = query_of_handle(reg, rhs_handle.as_str())?;
            push_compound(parts, CompoundOperator::Union, q)
        },
        BuilderOp::Union { query } => push_compound(parts, CompoundOperator::Union, query.copy()),
        BuilderOp::UnionAllHandle { rhs_handle } => {
            let q = query_of_handle(reg, rhs_handle.as_str())?;
            push_compound(parts, CompoundOperator::UnionAll, q)
        },
        BuilderOp::UnionAll { query } => push_compound(parts, CompoundOperator::UnionAll, query.copy()),
        BuilderOp::IntersectHandle { rhs_handle } => {
            let q = query_of_handle(reg, rhs_handle.as_str())?;
            push_compound(parts, CompoundOperator::Intersect, q)
        },
        BuilderOp::Intersect { query } => push_compound(parts, CompoundOperator::Intersect, query.copy()),
        BuilderOp::ExceptHandle { rhs_handle } => {
            let q = query_of_handle(reg, rhs_handle.as_str())?;
            push_compound(parts, CompoundOperator::Except, q)
        },
        BuilderOp::Except { query } => push_compound(parts, CompoundOperator::Except, query.copy()),
        _ => {
            assert(false);
            Ok(())
        },
    }
}

fn apply_subquery_op(reg: &Registry, parts: &mut QueryParts, op: &BuilderOp) -> (r: Result<(), String>)
    requires
        op is FromSubqueryHandle || op is FromSubquery || op is JoinSubqueryHandle || op is JoinSubquery || op is InsertSelectHandle || op is InsertSelect,
    ensures
        parts_result_is(r, *final(parts), spec_apply_op(reg@, old(parts).deep_view(), *op)),
{
    proof {
        reveal(spec_apply_op);
        reveal_strlit("AND");
        reveal_strlit("OR");
    }
    match op {
        BuilderOp::FromSubqueryHandle { alias, rhs_handle } => {
            let q = query_of_handle(reg, rhs_handle.as_str())?;
            apply_from_subquery(parts, &q, alias)
        },
        BuilderOp::FromSubquery { alias, query } => apply_from_subquery(parts, query, alias),
        BuilderOp::JoinSubqueryHandle { join_type, alias, rhs_handle } => {
            let q = query_of_handle(reg, rhs_handle.as_str())?;
            apply_join_subquery(parts, join_type, alias, &q)
        },
        BuilderOp::JoinSubquery { join_type, alias, query } => apply_join_subquery(parts, join_type, alias, query),
        BuilderOp::InsertSelectHandle { rhs_handle } => {
            let q = query_of_handle(reg, rhs_handle.as_str())?;
            apply_insert_select(parts, q);
            Ok(())
        },
        BuilderOp::InsertSelect { query } => {
            apply_insert_select(parts, query.copy());
            Ok(())
        },
        _ => {
            assert(false);
            Ok(())
        },
    }
}

fn apply_inline_cte_op(reg: &Registry, parts: &mut QueryParts, op: &BuilderOp) -> (r: Result<(), String>)
    requires
        op is WithInline || op is WithRecursiveInline,
    ensures
        parts_result_is(r, *final(parts), spec_apply_op(reg@, old(parts).deep_view(), *op)),
    decreases *op, 0nat,
{
    proof {
        reveal(spec_apply_op);
    }
    match op {
        BuilderOp::WithInline { name, base_handle, child_ops } => {
            let (_, q) = inline_child_query(reg, base_handle, child_ops)?;
            push_plain_cte(parts, name, q, false);
            Ok(())
        },
        BuilderOp::WithRecursiveInline { name, base_handle, child_ops } => {
            let (cols, q) = inline_child_query(reg, base_handle, child_ops)?;
            push_cte(parts, name, q, true, cols);
            Ok(())
        },
        _ => {
            assert(false);
            Ok(())
        },
    }
}

fn apply_inline_source_op(reg: &Registry, parts: &mut QueryParts, op: &BuilderOp) -> (r: Result<(), String>)
    requires
        op is FromSubqueryInline || op is JoinSubqueryInline,
    ensures
        parts_result_is(r, *final(parts), spec_apply_op(reg@, old(parts).deep_view(), *op)),
    decreases *op, 0nat,
{
    proof {
        reveal(spec_apply_op);
    }
    match op {
        BuilderOp::FromSubqueryInline { alias, base_handle, child_ops } => {
            let (_, q) = inline_child_query(reg, base_handle, child_ops)?;
            apply_from_subquery(parts, &q, alias)
        },
        BuilderOp::JoinSubqueryInline { join_type, alias, base_handle, child_ops } => {
            let (_, q) = inline_child_query(reg, base_handle, child_ops)?;
            apply_join_subquery(parts, join_type, alias, &q)
        },
        _ => {
            assert(false);
            Ok(())
        },
    }
}

fn apply_inline_compound_op(reg: &Registry, parts: &mut QueryParts, op: &BuilderOp) -> (r: Result<(), String>)
    requires
        op is UnionInline || op is UnionAllInline || op is IntersectInline || op is ExceptInline,
    ensures
        parts_result_is(r, *final(parts), spec_apply_op(reg@, old(parts).deep_view(), *op)),
    decreases *op, 0nat,
{
    proof {
        reveal(spec_apply_op);
        reveal_strlit("AND");
        reveal_strlit("OR");
    }
    match op {
        BuilderOp::UnionInline { base_handle, child_ops } => {
            let (_, q) = inline_child_query(reg, base_handle, child_ops)?;
            push_compound(parts, CompoundOperator::Union, q)
        },
        BuilderOp::UnionAllInline { base_handle, child_ops } => {
            let (_, q) = inline_child_query(reg, base_handle, child_ops)?;
            push_compound(parts, CompoundOperator::UnionAll, q)
        },
        BuilderOp::IntersectInline { base_handle, child_ops } => {
            let (_, q) = inline_child_query(reg, base_handle, child_ops)?;
            push_compound(parts, CompoundOperator::Intersect, q)
        },
        BuilderOp::ExceptInline { base_handle, child_ops } => {
            let (_, q) = inline_child_query(reg, base_handle, child_ops)?;
            push_compound(parts, CompoundOperator::Except, q)
        },
        _ => {
            assert(false);
            Ok(())
        },
    }
}

/// Apply one operation to a builder state.
fn apply_op(reg: &Registry, parts: &mut QueryParts, op: &BuilderOp) -> (r: Result<(), String>)
    ensures
        parts_result_is(r, *final(parts), spec_apply_op(reg@, old(parts).deep_view(), *op)),
    decreases *op, 1nat,
{
    match op {
        BuilderOp::Distinct | BuilderOp::DistinctOnColumns { .. } | BuilderOp::DistinctOnExprs { .. } | BuilderOp::Where { .. } | BuilderOp::AndWhere { .. } | BuilderOp::OrWhere { .. } | BuilderOp::Having { .. } | BuilderOp::AndHaving { .. } | BuilderOp::OrHaving { .. } | BuilderOp::On { .. } | BuilderOp::AndOn { .. } | BuilderOp::OrOn { .. } | BuilderOp::UsingColumns { .. } | BuilderOp::OnColumns { .. } => apply_predicate_op(reg, parts, op),
        BuilderOp::FromTable { .. } | BuilderOp::FromTableAlias { .. } | BuilderOp::JoinTable { .. } | BuilderOp::JoinTableAlias { .. } => apply_source_op(reg, parts, op),
        BuilderOp::WithHandle { .. } | BuilderOp::WithRecursiveHandle { .. } => apply_cte_handle_op(reg, parts, op),
        BuilderOp::WithQuery { .. } | BuilderOp::WithRecursiveQuery { .. } => apply_cte_op(reg, parts, op),
        BuilderOp::InsertInto { .. } | BuilderOp::ValuesInsert { .. } | BuilderOp::InsertColumns { .. } | BuilderOp::Update { .. } | BuilderOp::DeleteFrom { .. } => apply_statement_start_op(reg, parts, op),
        BuilderOp::SetColumns { .. } | BuilderOp::OnConflictColumns { .. } | BuilderOp::OnConflictConstraint { .. } | BuilderOp::DoNothing | BuilderOp::DoUpdateSet { .. } | BuilderOp::ConflictWhere { .. } | BuilderOp::OrderBy { .. } | BuilderOp::OrderByColumns { .. } | BuilderOp::GroupBy { .. } | BuilderOp::Limit { .. } | BuilderOp::Offset { .. } | BuilderOp::ForUpdate | BuilderOp::ForShare | BuilderOp::NoWait | BuilderOp::SkipLocked => apply_statement_op(reg, parts, op),
        BuilderOp::SelectAliased { .. } | BuilderOp::SelectColumns { .. } | BuilderOp::ReturningAliased { .. } | BuilderOp::ReturningColumns { .. } | BuilderOp::UnionHandle { .. } | BuilderOp::Union { .. } | BuilderOp::UnionAllHandle { .. } | BuilderOp::UnionAll { .. } | BuilderOp::IntersectHandle { .. } | BuilderOp::Intersect { .. } | BuilderOp::ExceptHandle { .. } | BuilderOp::Except { .. } => apply_projection_op(reg, parts, op),
        BuilderOp::FromSubqueryHandle { .. } | BuilderOp::FromSubquery { .. } | BuilderOp::JoinSubqueryHandle { .. } | BuilderOp::JoinSubquery { .. } | BuilderOp::InsertSelectHandle { .. } | BuilderOp::InsertSelect { .. } => apply_subquery_op(reg, parts, op),
        BuilderOp::WithInline { .. } | BuilderOp::WithRecursiveInline { .. } => apply_inline_cte_op(reg, parts, op),
        BuilderOp::FromSubqueryInline { .. } | BuilderOp::JoinSubqueryInline { .. } => apply_inline_source_op(reg, parts, op),
        BuilderOp::UnionInline { .. } | BuilderOp::UnionAllInline { .. } | BuilderOp::IntersectInline { .. } | BuilderOp::ExceptInline { .. } => apply_inline_compound_op(reg, parts, op),
    }
}

} // verus!
