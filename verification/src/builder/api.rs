//! The builder API over a registry: each call reads the state a handle names, applies
//! operations to a copy, and registers the result under a new handle.
use crate::builder::methods::{
    compound_result, cte_result, from_subquery_result, insert_select_result, join_subquery_result, with_handle_query,
    apply_ops_to_parts, spec_apply_op, spec_apply_ops, AssignmentInputValue, BuilderOp, DistinctOnInput, Predicate,
    SelectAliasedEntry, some_empty, aliased_frag, aliased_query, alias_frag, all_frags, apply_projection, col_frag,
    col_to_query, lemma_all_frags_stays, lemma_all_frags_step, list_content, name_to_query, projection_result,
    ProjectionTarget,
};
use crate::sql::{spec_fragment, validation_msg};
use crate::builder::compact::{parse_builder_ops_bin, spec_frames};
use crate::builder::output::{get_or_build_query, handle_query, registry_after_build};
use crate::builder::registry::{handle_parts, is_handle, reset_caches, Registry, RegistryView};
use crate::builder::state::{CompoundOperator, fresh_parts, InsertConflictTarget, PartsView, QueryParts, TargetView};
use crate::dialect::{dialect_for_name, spec_normalize_dialect_name, Dialect};
use crate::types::{copy_primitives, copy_strings, Primitive, QueryView, SqlQuery, SqlValue};
use vstd::prelude::*;

verus! {

/// The registry after registering `p` under its next handle.
pub open spec fn inserted(r: RegistryView, p: PartsView) -> RegistryView {
    RegistryView { entries: r.entries.insert(r.next, reset_caches(p)), next: r.next.wrapping_add(1), ..r }
}

/// `f` applied to the state a handle names.
pub open spec fn on_handle(r: RegistryView, h: Seq<char>, f: spec_fn(PartsView) -> Result<PartsView, Seq<char>>) -> Result<PartsView, Seq<char>> {
    match handle_parts(r, h) {
        Err(e) => Err(e),
        Ok(p) => f(p),
    }
}

/// A builder call with outcome `res` went from registry `old` to `new` and returned `r`:
/// a new state is registered under the next handle, a failure changes nothing.
pub open spec fn applied(old: RegistryView, new: RegistryView, res: Result<PartsView, Seq<char>>, r: Result<String, String>) -> bool {
    match res {
        Ok(p) => r matches Ok(h) && is_handle(h, old.next) && new == inserted(old, p),
        Err(e) => r matches Err(m) && m@ == e && new == old,
    }
}

/// Apply operations to the state a handle names and register the result.
pub fn builder_apply_parsed_ops(reg: &mut Registry, handle: &str, ops: Vec<BuilderOp>) -> (r: Result<String, String>)
    ensures
        applied(old(reg)@, final(reg)@, on_handle(old(reg)@, handle@, |p: PartsView| spec_apply_ops(old(reg)@, p, ops@)), r),
{
    let parts = reg.registry_get_cloned(handle)?;
    let parts = apply_ops_to_parts(reg, parts, &ops)?;
    Ok(reg.registry_insert(parts))
}

proof fn lemma_single_op(r: RegistryView, p: PartsView, op: BuilderOp)
    ensures
        spec_apply_ops(r, p, seq![op]) == spec_apply_op(r, p, op),
{
    let ops = seq![op];
    crate::builder::methods::lemma_apply_ops_none(r, p, ops);
    crate::builder::methods::lemma_apply_ops_step(r, p, ops, 0);
    assert(ops.take(1) =~= ops);
}

/// Apply one operation to the state a handle names and register the result.
pub fn apply_single_builder_op(reg: &mut Registry, handle: &str, op: BuilderOp) -> (r: Result<String, String>)
    ensures
        applied(old(reg)@, final(reg)@, on_handle(old(reg)@, handle@, |p: PartsView| spec_apply_op(old(reg)@, p, op)), r),
{
    let ghost r0 = reg@;
    let ghost op0 = op;
    proof {
        assert forall|p: PartsView| spec_apply_ops(r0, p, seq![op0]) == spec_apply_op(r0, p, op0) by {
            lemma_single_op(r0, p, op0);
        }
    }
    let mut ops: Vec<BuilderOp> = Vec::new();
    ops.push(op);
    assert(ops@ =~= seq![op0]);
    builder_apply_parsed_ops(reg, handle, ops)
}

/// Register a new, empty builder for the named dialect (Postgres when none is named).
pub fn builder_new(reg: &mut Registry, dialect: Option<&str>) -> (r: String)
    ensures
        is_handle(r, old(reg)@.next),
        final(reg)@.next == old(reg)@.next.wrapping_add(1),
        exists|d: Dialect| final(reg)@.entries == old(reg)@.entries.insert(old(reg)@.next, fresh_parts(d))
            && match dialect {
                Some(name) => dialect_for_name(d, spec_normalize_dialect_name(name@)),
                None => d is Postgres,
            },
{
    reg.registry_new(dialect)
}

/// Copy the builder a handle names under a new handle.
pub fn builder_clone(reg: &mut Registry, handle: &str) -> (r: Result<String, String>)
    ensures
        match crate::builder::registry::spec_parse_handle(handle@) {
            Err(e) => r matches Err(m) && m@ == e && final(reg)@ == old(reg)@,
            Ok(k) => {
                &&& final(reg)@.next == old(reg)@.next.wrapping_add(1)
                &&& if old(reg)@.entries.contains_key(k) {
                    &&& r matches Ok(h) && is_handle(h, old(reg)@.next)
                    &&& final(reg)@.entries == old(reg)@.entries.insert(old(reg)@.next,
                        PartsView { cached_query: None, ..old(reg)@.entries[k] })
                } else {
                    &&& r matches Err(m) && m@ == crate::builder::registry::not_found_msg(handle@)
                    &&& final(reg)@.entries == old(reg)@.entries
                }
            },
        },
{
    reg.registry_clone(handle)
}

/// Forget the builder a handle names.
pub fn builder_drop(reg: &mut Registry, handle: &str)
    ensures
        match crate::builder::registry::spec_parse_handle(handle@) {
            Err(_) => final(reg)@ == old(reg)@,
            Ok(k) => final(reg)@ == (RegistryView { entries: old(reg)@.entries.remove(k), ..old(reg)@ }),
        },
{
    reg.registry_drop(handle)
}

/// Register a new, empty builder with the dialect of the one a handle names (Postgres
/// when the handle names none).
pub fn builder_clear(reg: &mut Registry, handle: &str) -> (r: Result<String, String>)
    ensures
        r matches Ok(h) && is_handle(h, old(reg)@.next),
        final(reg)@ == inserted(old(reg)@, fresh_parts(match handle_parts(old(reg)@, handle@) {
            Ok(p) => p.dialect,
            Err(_) => Dialect::Postgres,
        })),
{
    let d = reg.registry_get_dialect(handle);
    let parts = QueryParts::fresh(d);
    Ok(reg.registry_insert(parts))
}

/// Turn strict dialect mode on or off for a copy of the builder a handle names.
pub fn builder_dialect_strict(reg: &mut Registry, handle: &str, strict: bool) -> (r: Result<String, String>)
    ensures
        applied(old(reg)@, final(reg)@, on_handle(old(reg)@, handle@,
            |p: PartsView| Ok(PartsView { dialect_strict: strict, cached_query: None, ..p })), r),
{
    let mut parts = reg.registry_get_cloned(handle)?;
    parts.dialect_strict = strict;
    parts.cached_query = None;
    Ok(reg.registry_insert(parts))
}

/// Register a copy of the builder a handle names with `ON CONFLICT (cols)`; the columns
/// are checked before the handle is looked up.
pub fn builder_on_conflict_columns(reg: &mut Registry, handle: &str, cols: Vec<String>) -> (r: Result<String, String>)
    ensures
        cols.len() == 0 ==> (r matches Err(m) && m@ == "onConflict(...) requires at least one column."@ && final(reg)@ == old(reg)@),
        cols.len() > 0 && some_empty(cols.deep_view()) ==> (r matches Err(m) && m@ == "onConflict(...) columns cannot be empty."@ && final(reg)@ == old(reg)@),
        cols.len() > 0 && !some_empty(cols.deep_view()) ==>
            applied(old(reg)@, final(reg)@, on_handle(old(reg)@, handle@,
                |p: PartsView| spec_apply_op(old(reg)@, p, BuilderOp::OnConflictColumns { cols })), r),
{
    if cols.len() == 0 {
        return Err(String::from_str("onConflict(...) requires at least one column."));
    }
    if crate::builder::methods::has_empty(&cols) {
        return Err(String::from_str("onConflict(...) columns cannot be empty."));
    }
    apply_single_builder_op(reg, handle, BuilderOp::OnConflictColumns { cols })
}

/// Register a copy of the builder a handle names with `SELECT DISTINCT`.
pub fn builder_distinct(reg: &mut Registry, handle: &str) -> (r: Result<String, String>)
    ensures
        applied(old(reg)@, final(reg)@, on_handle(old(reg)@, handle@, |p: PartsView| spec_apply_op(old(reg)@, p, BuilderOp::Distinct)), r),
{
    apply_single_builder_op(reg, handle, BuilderOp::Distinct)
}

/// Register a copy of the builder a handle names with `DISTINCT ON` columns.
pub fn builder_distinct_on_columns(reg: &mut Registry, handle: &str, cols: Vec<String>) -> (r: Result<String, String>)
    ensures
        applied(old(reg)@, final(reg)@, on_handle(old(reg)@, handle@, |p: PartsView| spec_apply_op(old(reg)@, p, BuilderOp::DistinctOnColumns { cols })), r),
{
    apply_single_builder_op(reg, handle, BuilderOp::DistinctOnColumns { cols })
}

/// Register a copy of the builder a handle names with `DISTINCT ON` expressions.
pub fn builder_distinct_on_exprs(reg: &mut Registry, handle: &str, exprs: Vec<DistinctOnInput>) -> (r: Result<String, String>)
    ensures
        applied(old(reg)@, final(reg)@, on_handle(old(reg)@, handle@, |p: PartsView| spec_apply_op(old(reg)@, p, BuilderOp::DistinctOnExprs { exprs })), r),
{
    apply_single_builder_op(reg, handle, BuilderOp::DistinctOnExprs { exprs })
}

/// Register a copy of the builder a handle names with a WHERE predicate (joined by AND).
pub fn builder_where(reg: &mut Registry, handle: &str, pred: Predicate) -> (r: Result<String, String>)
    ensures
        applied(old(reg)@, final(reg)@, on_handle(old(reg)@, handle@, |p: PartsView| spec_apply_op(old(reg)@, p, BuilderOp::Where { pred })), r),
{
    apply_single_builder_op(reg, handle, BuilderOp::Where { pred })
}

/// Register a copy of the builder a handle names with a WHERE predicate joined by AND.
pub fn builder_and_where(reg: &mut Registry, handle: &str, pred: Predicate) -> (r: Result<String, String>)
    ensures
        applied(old(reg)@, final(reg)@, on_handle(old(reg)@, handle@, |p: PartsView| spec_apply_op(old(reg)@, p, BuilderOp::AndWhere { pred })), r),
{
    apply_single_builder_op(reg, handle, BuilderOp::AndWhere { pred })
}

/// Register a copy of the builder a handle names with a WHERE predicate joined by OR.
pub fn builder_or_where(reg: &mut Registry, handle: &str, pred: Predicate) -> (r: Result<String, String>)
    ensures
        applied(old(reg)@, final(reg)@, on_handle(old(reg)@, handle@, |p: PartsView| spec_apply_op(old(reg)@, p, BuilderOp::OrWhere { pred })), r),
{
    apply_single_builder_op(reg, handle, BuilderOp::OrWhere { pred })
}

/// Register a copy of the builder a handle names with a HAVING predicate (joined by AND).
pub fn builder_having(reg: &mut Registry, handle: &str, pred: Predicate) -> (r: Result<String, String>)
    ensures
        applied(old(reg)@, final(reg)@, on_handle(old(reg)@, handle@, |p: PartsView| spec_apply_op(old(reg)@, p, BuilderOp::Having { pred })), r),
{
    apply_single_builder_op(reg, handle, BuilderOp::Having { pred })
}

/// Register a copy of the builder a handle names with a HAVING predicate joined by AND.
pub fn builder_and_having(reg: &mut Registry, handle: &str, pred: Predicate) -> (r: Result<String, String>)
    ensures
        applied(old(reg)@, final(reg)@, on_handle(old(reg)@, handle@, |p: PartsView| spec_apply_op(old(reg)@, p, BuilderOp::AndHaving { pred })), r),
{
    apply_single_builder_op(reg, handle, BuilderOp::AndHaving { pred })
}

/// Register a copy of the builder a handle names with a HAVING predicate joined by OR.
pub fn builder_or_having(reg: &mut Registry, handle: &str, pred: Predicate) -> (r: Result<String, String>)
    ensures
        applied(old(reg)@, final(reg)@, on_handle(old(reg)@, handle@, |p: PartsView| spec_apply_op(old(reg)@, p, BuilderOp::OrHaving { pred })), r),
{
    apply_single_builder_op(reg, handle, BuilderOp::OrHaving { pred })
}

/// Register a copy of the builder a handle names with the ON predicate of the pending join.
pub fn builder_on(reg: &mut Registry, handle: &str, pred: Predicate) -> (r: Result<String, String>)
    ensures
        applied(old(reg)@, final(reg)@, on_handle(old(reg)@, handle@, |p: PartsView| spec_apply_op(old(reg)@, p, BuilderOp::On { pred })), r),
{
    apply_single_builder_op(reg, handle, BuilderOp::On { pred })
}

/// Register a copy of the builder a handle names with an ON predicate joined by AND.
pub fn builder_and_on(reg: &mut Registry, handle: &str, pred: Predicate) -> (r: Result<String, String>)
    ensures
        applied(old(reg)@, final(reg)@, on_handle(old(reg)@, handle@, |p: PartsView| spec_apply_op(old(reg)@, p, BuilderOp::AndOn { pred })), r),
{
    apply_single_builder_op(reg, handle, BuilderOp::AndOn { pred })
}

/// Register a copy of the builder a handle names with an ON predicate joined by OR.
pub fn builder_or_on(reg: &mut Registry, handle: &str, pred: Predicate) -> (r: Result<String, String>)
    ensures
        applied(old(reg)@, final(reg)@, on_handle(old(reg)@, handle@, |p: PartsView| spec_apply_op(old(reg)@, p, BuilderOp::OrOn { pred })), r),
{
    apply_single_builder_op(reg, handle, BuilderOp::OrOn { pred })
}

/// Register a copy of the builder a handle names with USING columns for the pending join.
pub fn builder_using_columns(reg: &mut Registry, handle: &str, cols: Vec<String>) -> (r: Result<String, String>)
    ensures
        applied(old(reg)@, final(reg)@, on_handle(old(reg)@, handle@, |p: PartsView| spec_apply_op(old(reg)@, p, BuilderOp::UsingColumns { cols })), r),
{
    apply_single_builder_op(reg, handle, BuilderOp::UsingColumns { cols })
}

/// Register a copy of the builder a handle names with ON column equalities for the pending join.
pub fn builder_on_columns(reg: &mut Registry, handle: &str, pairs: Vec<(String, String)>) -> (r: Result<String, String>)
    ensures
        applied(old(reg)@, final(reg)@, on_handle(old(reg)@, handle@, |p: PartsView| spec_apply_op(old(reg)@, p, BuilderOp::OnColumns { pairs })), r),
{
    apply_single_builder_op(reg, handle, BuilderOp::OnColumns { pairs })
}

/// Register a copy of the builder a handle names with `FROM table`.
pub fn builder_from_table(reg: &mut Registry, handle: &str, table: String) -> (r: Result<String, String>)
    ensures
        applied(old(reg)@, final(reg)@, on_handle(old(reg)@, handle@, |p: PartsView| spec_apply_op(old(reg)@, p, BuilderOp::FromTable { table })), r),
{
    apply_single_builder_op(reg, handle, BuilderOp::FromTable { table })
}

/// Register a copy of the builder a handle names with `FROM table alias`.
pub fn builder_from_table_alias(reg: &mut Registry, handle: &str, table: String, alias: String) -> (r: Result<String, String>)
    ensures
        applied(old(reg)@, final(reg)@, on_handle(old(reg)@, handle@, |p: PartsView| spec_apply_op(old(reg)@, p, BuilderOp::FromTableAlias { table, alias })), r),
{
    apply_single_builder_op(reg, handle, BuilderOp::FromTableAlias { table, alias })
}

/// Register a copy of the builder a handle names with `FROM (query) alias`.
pub fn builder_from_subquery(reg: &mut Registry, handle: &str, alias: String, query: SqlQuery) -> (r: Result<String, String>)
    ensures
        applied(old(reg)@, final(reg)@, on_handle(old(reg)@, handle@, |p: PartsView| spec_apply_op(old(reg)@, p, BuilderOp::FromSubquery { alias, query })), r),
{
    apply_single_builder_op(reg, handle, BuilderOp::FromSubquery { alias, query })
}

/// Register a copy of the builder a handle names with a join of a table.
pub fn builder_join_table(reg: &mut Registry, handle: &str, join_type: String, table: String) -> (r: Result<String, String>)
    ensures
        applied(old(reg)@, final(reg)@, on_handle(old(reg)@, handle@, |p: PartsView| spec_apply_op(old(reg)@, p, BuilderOp::JoinTable { join_type, table })), r),
{
    apply_single_builder_op(reg, handle, BuilderOp::JoinTable { join_type, table })
}

/// Register a copy of the builder a handle names with a join of an aliased table.
pub fn builder_join_table_alias(reg: &mut Registry, handle: &str, join_type: String, table: String, alias: String) -> (r: Result<String, String>)
    ensures
        applied(old(reg)@, final(reg)@, on_handle(old(reg)@, handle@, |p: PartsView| spec_apply_op(old(reg)@, p, BuilderOp::JoinTableAlias { join_type, table, alias })), r),
{
    apply_single_builder_op(reg, handle, BuilderOp::JoinTableAlias { join_type, table, alias })
}

/// Register a copy of the builder a handle names with a join of a subquery.
pub fn builder_join_subquery(reg: &mut Registry, handle: &str, join_type: String, alias: String, query: SqlQuery) -> (r: Result<String, String>)
    ensures
        applied(old(reg)@, final(reg)@, on_handle(old(reg)@, handle@, |p: PartsView| spec_apply_op(old(reg)@, p, BuilderOp::JoinSubquery { join_type, alias, query })), r),
{
    apply_single_builder_op(reg, handle, BuilderOp::JoinSubquery { join_type, alias, query })
}

/// Register a copy of the builder a handle names with GROUP BY columns.
pub fn builder_group_by_columns(reg: &mut Registry, handle: &str, cols: Vec<String>) -> (r: Result<String, String>)
    ensures
        applied(old(reg)@, final(reg)@, on_handle(old(reg)@, handle@, |p: PartsView| spec_apply_op(old(reg)@, p, BuilderOp::GroupBy { cols })), r),
{
    apply_single_builder_op(reg, handle, BuilderOp::GroupBy { cols })
}

/// Register a copy of the builder a handle names with ORDER BY one column.
pub fn builder_order_by_column(reg: &mut Registry, handle: &str, col: String, direction: Option<String>, null_order: Option<String>) -> (r: Result<String, String>)
    ensures
        applied(old(reg)@, final(reg)@, on_handle(old(reg)@, handle@, |p: PartsView| spec_apply_op(old(reg)@, p, BuilderOp::OrderBy { col, direction, null_order })), r),
{
    apply_single_builder_op(reg, handle, BuilderOp::OrderBy { col, direction, null_order })
}

/// Register a copy of the builder a handle names with ORDER BY several columns.
pub fn builder_order_by_columns(reg: &mut Registry, handle: &str, cols: Vec<String>) -> (r: Result<String, String>)
    ensures
        applied(old(reg)@, final(reg)@, on_handle(old(reg)@, handle@, |p: PartsView| spec_apply_op(old(reg)@, p, BuilderOp::OrderByColumns { cols })), r),
{
    apply_single_builder_op(reg, handle, BuilderOp::OrderByColumns { cols })
}

/// Register a copy of the builder a handle names with LIMIT.
pub fn builder_limit(reg: &mut Registry, handle: &str, count: u32) -> (r: Result<String, String>)
    ensures
        applied(old(reg)@, final(reg)@, on_handle(old(reg)@, handle@, |p: PartsView| spec_apply_op(old(reg)@, p, BuilderOp::Limit { count })), r),
{
    apply_single_builder_op(reg, handle, BuilderOp::Limit { count })
}

/// Register a copy of the builder a handle names with OFFSET.
pub fn builder_offset(reg: &mut Registry, handle: &str, count: u32) -> (r: Result<String, String>)
    ensures
        applied(old(reg)@, final(reg)@, on_handle(old(reg)@, handle@, |p: PartsView| spec_apply_op(old(reg)@, p, BuilderOp::Offset { count })), r),
{
    apply_single_builder_op(reg, handle, BuilderOp::Offset { count })
}

/// Register a copy of the builder a handle names with `FOR UPDATE`.
pub fn builder_for_update(reg: &mut Registry, handle: &str) -> (r: Result<String, String>)
    ensures
        applied(old(reg)@, final(reg)@, on_handle(old(reg)@, handle@, |p: PartsView| spec_apply_op(old(reg)@, p, BuilderOp::ForUpdate)), r),
{
    apply_single_builder_op(reg, handle, BuilderOp::ForUpdate)
}

/// Register a copy of the builder a handle names with `FOR SHARE`.
pub fn builder_for_share(reg: &mut Registry, handle: &str) -> (r: Result<String, String>)
    ensures
        applied(old(reg)@, final(reg)@, on_handle(old(reg)@, handle@, |p: PartsView| spec_apply_op(old(reg)@, p, BuilderOp::ForShare)), r),
{
    apply_single_builder_op(reg, handle, BuilderOp::ForShare)
}

/// Register a copy of the builder a handle names with `NOWAIT` on the lock.
pub fn builder_no_wait(reg: &mut Registry, handle: &str) -> (r: Result<String, String>)
    ensures
        applied(old(reg)@, final(reg)@, on_handle(old(reg)@, handle@, |p: PartsView| spec_apply_op(old(reg)@, p, BuilderOp::NoWait)), r),
{
    apply_single_builder_op(reg, handle, BuilderOp::NoWait)
}

/// Register a copy of the builder a handle names with `SKIP LOCKED` on the lock.
pub fn builder_skip_locked(reg: &mut Registry, handle: &str) -> (r: Result<String, String>)
    ensures
        applied(old(reg)@, final(reg)@, on_handle(old(reg)@, handle@, |p: PartsView| spec_apply_op(old(reg)@, p, BuilderOp::SkipLocked)), r),
{
    apply_single_builder_op(reg, handle, BuilderOp::SkipLocked)
}

/// Register a copy of the builder a handle names with `UNION (query)`.
pub fn builder_union(reg: &mut Registry, handle: &str, query: SqlQuery) -> (r: Result<String, String>)
    ensures
        applied(old(reg)@, final(reg)@, on_handle(old(reg)@, handle@, |p: PartsView| spec_apply_op(old(reg)@, p, BuilderOp::Union { query })), r),
{
    apply_single_builder_op(reg, handle, BuilderOp::Union { query })
}

/// Register a copy of the builder a handle names with `UNION ALL (query)`.
pub fn builder_union_all(reg: &mut Registry, handle: &str, query: SqlQuery) -> (r: Result<String, String>)
    ensures
        applied(old(reg)@, final(reg)@, on_handle(old(reg)@, handle@, |p: PartsView| spec_apply_op(old(reg)@, p, BuilderOp::UnionAll { query })), r),
{
    apply_single_builder_op(reg, handle, BuilderOp::UnionAll { query })
}

/// Register a copy of the builder a handle names with `INTERSECT (query)`.
pub fn builder_intersect(reg: &mut Registry, handle: &str, query: SqlQuery) -> (r: Result<String, String>)
    ensures
        applied(old(reg)@, final(reg)@, on_handle(old(reg)@, handle@, |p: PartsView| spec_apply_op(old(reg)@, p, BuilderOp::Intersect { query })), r),
{
    apply_single_builder_op(reg, handle, BuilderOp::Intersect { query })
}

/// Register a copy of the builder a handle names with `EXCEPT (query)`.
pub fn builder_except(reg: &mut Registry, handle: &str, query: SqlQuery) -> (r: Result<String, String>)
    ensures
        applied(old(reg)@, final(reg)@, on_handle(old(reg)@, handle@, |p: PartsView| spec_apply_op(old(reg)@, p, BuilderOp::Except { query })), r),
{
    apply_single_builder_op(reg, handle, BuilderOp::Except { query })
}

/// Register a copy of the builder a handle names with a CTE.
pub fn builder_with(reg: &mut Registry, handle: &str, name: String, query: SqlQuery) -> (r: Result<String, String>)
    ensures
        applied(old(reg)@, final(reg)@, on_handle(old(reg)@, handle@, |p: PartsView| spec_apply_op(old(reg)@, p, BuilderOp::WithQuery { name, query })), r),
{
    apply_single_builder_op(reg, handle, BuilderOp::WithQuery { name, query })
}

/// Register a copy of the builder a handle names with a recursive CTE.
pub fn builder_with_recursive(reg: &mut Registry, handle: &str, name: String, query: SqlQuery) -> (r: Result<String, String>)
    ensures
        applied(old(reg)@, final(reg)@, on_handle(old(reg)@, handle@, |p: PartsView| Ok(cte_result(p, name@, query@, true, Seq::empty()))), r),
{
    let columns: Vec<String> = Vec::new();
    proof {
        reveal(spec_apply_op);
        assert(columns.deep_view() =~= Seq::<Seq<char>>::empty());
    }
    apply_single_builder_op(reg, handle, BuilderOp::WithRecursiveQuery { name, query, columns })
}

/// Register a copy of the builder a handle names with a recursive CTE with column names.
pub fn builder_with_recursive_columns(reg: &mut Registry, handle: &str, name: String, query: SqlQuery, columns: Vec<String>) -> (r: Result<String, String>)
    ensures
        applied(old(reg)@, final(reg)@, on_handle(old(reg)@, handle@, |p: PartsView| spec_apply_op(old(reg)@, p, BuilderOp::WithRecursiveQuery { name, query, columns })), r),
{
    apply_single_builder_op(reg, handle, BuilderOp::WithRecursiveQuery { name, query, columns })
}

/// Register a copy of the builder a handle names with an INSERT into a table.
pub fn builder_insert_into(reg: &mut Registry, handle: &str, table: String) -> (r: Result<String, String>)
    ensures
        applied(old(reg)@, final(reg)@, on_handle(old(reg)@, handle@, |p: PartsView| spec_apply_op(old(reg)@, p, BuilderOp::InsertInto { table })), r),
{
    apply_single_builder_op(reg, handle, BuilderOp::InsertInto { table })
}

/// Register a copy of the builder a handle names with the INSERT column list.
pub fn builder_columns(reg: &mut Registry, handle: &str, cols: Vec<String>) -> (r: Result<String, String>)
    ensures
        applied(old(reg)@, final(reg)@, on_handle(old(reg)@, handle@, |p: PartsView| spec_apply_op(old(reg)@, p, BuilderOp::InsertColumns { cols })), r),
{
    apply_single_builder_op(reg, handle, BuilderOp::InsertColumns { cols })
}

/// Register a copy of the builder a handle names with INSERT rows.
pub fn builder_values_insert(reg: &mut Registry, handle: &str, column_names: Vec<String>, rows: Vec<Vec<SqlValue>>) -> (r: Result<String, String>)
    ensures
        applied(old(reg)@, final(reg)@, on_handle(old(reg)@, handle@, |p: PartsView| spec_apply_op(old(reg)@, p, BuilderOp::ValuesInsert { column_names, rows })), r),
{
    apply_single_builder_op(reg, handle, BuilderOp::ValuesInsert { column_names, rows })
}

/// Register a copy of the builder a handle names with `INSERT … SELECT` from a query.
pub fn builder_insert_select(reg: &mut Registry, handle: &str, query: SqlQuery) -> (r: Result<String, String>)
    ensures
        applied(old(reg)@, final(reg)@, on_handle(old(reg)@, handle@, |p: PartsView| spec_apply_op(old(reg)@, p, BuilderOp::InsertSelect { query })), r),
{
    apply_single_builder_op(reg, handle, BuilderOp::InsertSelect { query })
}

/// Register a copy of the builder a handle names with `ON CONFLICT ON CONSTRAINT`.
pub fn builder_on_conflict_constraint(reg: &mut Registry, handle: &str, constraint: String) -> (r: Result<String, String>)
    ensures
        applied(old(reg)@, final(reg)@, on_handle(old(reg)@, handle@, |p: PartsView| spec_apply_op(old(reg)@, p, BuilderOp::OnConflictConstraint { name: constraint })), r),
{
    apply_single_builder_op(reg, handle, BuilderOp::OnConflictConstraint { name: constraint })
}

/// Register a copy of the builder a handle names with `DO NOTHING` on conflict.
pub fn builder_do_nothing(reg: &mut Registry, handle: &str) -> (r: Result<String, String>)
    ensures
        applied(old(reg)@, final(reg)@, on_handle(old(reg)@, handle@, |p: PartsView| spec_apply_op(old(reg)@, p, BuilderOp::DoNothing)), r),
{
    apply_single_builder_op(reg, handle, BuilderOp::DoNothing)
}

/// Register a copy of the builder a handle names with `DO UPDATE SET` on conflict.
pub fn builder_do_update_set(reg: &mut Registry, handle: &str, assignments: Vec<(String, AssignmentInputValue)>) -> (r: Result<String, String>)
    ensures
        applied(old(reg)@, final(reg)@, on_handle(old(reg)@, handle@, |p: PartsView| spec_apply_op(old(reg)@, p, BuilderOp::DoUpdateSet { assignments })), r),
{
    apply_single_builder_op(reg, handle, BuilderOp::DoUpdateSet { assignments })
}

/// Register a copy of the builder a handle names with the WHERE of `DO UPDATE`.
pub fn builder_conflict_where(reg: &mut Registry, handle: &str, pred: Predicate) -> (r: Result<String, String>)
    ensures
        applied(old(reg)@, final(reg)@, on_handle(old(reg)@, handle@, |p: PartsView| spec_apply_op(old(reg)@, p, BuilderOp::ConflictWhere { pred })), r),
{
    apply_single_builder_op(reg, handle, BuilderOp::ConflictWhere { pred })
}

/// Register a copy of the builder a handle names with an UPDATE of a table.
pub fn builder_update(reg: &mut Registry, handle: &str, table: String) -> (r: Result<String, String>)
    ensures
        applied(old(reg)@, final(reg)@, on_handle(old(reg)@, handle@, |p: PartsView| spec_apply_op(old(reg)@, p, BuilderOp::Update { table })), r),
{
    apply_single_builder_op(reg, handle, BuilderOp::Update { table })
}

/// Register a copy of the builder a handle names with UPDATE assignments.
pub fn builder_set(reg: &mut Registry, handle: &str, assignments: Vec<(String, AssignmentInputValue)>) -> (r: Result<String, String>)
    ensures
        applied(old(reg)@, final(reg)@, on_handle(old(reg)@, handle@, |p: PartsView| spec_apply_op(old(reg)@, p, BuilderOp::SetColumns { assignments })), r),
{
    apply_single_builder_op(reg, handle, BuilderOp::SetColumns { assignments })
}

/// Register a copy of the builder a handle names with a DELETE from a table.
pub fn builder_delete_from(reg: &mut Registry, handle: &str, table: String) -> (r: Result<String, String>)
    ensures
        applied(old(reg)@, final(reg)@, on_handle(old(reg)@, handle@, |p: PartsView| spec_apply_op(old(reg)@, p, BuilderOp::DeleteFrom { table })), r),
{
    apply_single_builder_op(reg, handle, BuilderOp::DeleteFrom { table })
}

/// Register a copy of the builder a handle names with a SELECT list of columns.
pub fn builder_select_columns(reg: &mut Registry, handle: &str, cols: Vec<String>) -> (r: Result<String, String>)
    ensures
        applied(old(reg)@, final(reg)@, on_handle(old(reg)@, handle@, |p: PartsView| spec_apply_op(old(reg)@, p, BuilderOp::SelectColumns { cols })), r),
{
    apply_single_builder_op(reg, handle, BuilderOp::SelectColumns { cols })
}

/// Register a copy of the builder a handle names with a SELECT list of aliased expressions.
pub fn builder_select_aliased_entries(reg: &mut Registry, handle: &str, entries: Vec<SelectAliasedEntry>) -> (r: Result<String, String>)
    ensures
        applied(old(reg)@, final(reg)@, on_handle(old(reg)@, handle@, |p: PartsView| spec_apply_op(old(reg)@, p, BuilderOp::SelectAliased { entries })), r),
{
    apply_single_builder_op(reg, handle, BuilderOp::SelectAliased { entries })
}

/// Register a copy of the builder a handle names with a RETURNING list of columns.
pub fn builder_returning_columns(reg: &mut Registry, handle: &str, cols: Vec<String>) -> (r: Result<String, String>)
    ensures
        applied(old(reg)@, final(reg)@, on_handle(old(reg)@, handle@, |p: PartsView| spec_apply_op(old(reg)@, p, BuilderOp::ReturningColumns { cols })), r),
{
    apply_single_builder_op(reg, handle, BuilderOp::ReturningColumns { cols })
}

/// Register a copy of the builder a handle names with a RETURNING list of aliased expressions.
pub fn builder_returning_aliased(reg: &mut Registry, handle: &str, entries: Vec<SelectAliasedEntry>) -> (r: Result<String, String>)
    ensures
        applied(old(reg)@, final(reg)@, on_handle(old(reg)@, handle@, |p: PartsView| spec_apply_op(old(reg)@, p, BuilderOp::ReturningAliased { entries })), r),
{
    apply_single_builder_op(reg, handle, BuilderOp::ReturningAliased { entries })
}

/// Register a copy of the builder a handle names with `UNION` with the query of another builder.
pub fn builder_union_handle(reg: &mut Registry, handle: &str, rhs_handle: &str) -> (r: Result<String, String>)
    ensures
        applied(old(reg)@, final(reg)@, on_handle(old(reg)@, handle@, |p: PartsView| with_handle_query(old(reg)@, rhs_handle@, |q: QueryView| compound_result(p, CompoundOperator::Union, q))), r),
{
    let rhs = rhs_handle.to_string();
    let op = BuilderOp::UnionHandle { rhs_handle: rhs };
    proof {
        reveal(spec_apply_op);
    }
    apply_single_builder_op(reg, handle, op)
}

/// Register a copy of the builder a handle names with `UNION ALL` with the query of another builder.
pub fn builder_union_all_handle(reg: &mut Registry, handle: &str, rhs_handle: &str) -> (r: Result<String, String>)
    ensures
        applied(old(reg)@, final(reg)@, on_handle(old(reg)@, handle@, |p: PartsView| with_handle_query(old(reg)@, rhs_handle@, |q: QueryView| compound_result(p, CompoundOperator::UnionAll, q))), r),
{
    let rhs = rhs_handle.to_string();
    let op = BuilderOp::UnionAllHandle { rhs_handle: rhs };
    proof {
        reveal(spec_apply_op);
    }
    apply_single_builder_op(reg, handle, op)
}

/// Register a copy of the builder a handle names with `INTERSECT` with the query of another builder.
pub fn builder_intersect_handle(reg: &mut Registry, handle: &str, rhs_handle: &str) -> (r: Result<String, String>)
    ensures
        applied(old(reg)@, final(reg)@, on_handle(old(reg)@, handle@, |p: PartsView| with_handle_query(old(reg)@, rhs_handle@, |q: QueryView| compound_result(p, CompoundOperator::Intersect, q))), r),
{
    let rhs = rhs_handle.to_string();
    let op = BuilderOp::IntersectHandle { rhs_handle: rhs };
    proof {
        reveal(spec_apply_op);
    }
    apply_single_builder_op(reg, handle, op)
}

/// Register a copy of the builder a handle names with `EXCEPT` with the query of another builder.
pub fn builder_except_handle(reg: &mut Registry, handle: &str, rhs_handle: &str) -> (r: Result<String, String>)
    ensures
        applied(old(reg)@, final(reg)@, on_handle(old(reg)@, handle@, |p: PartsView| with_handle_query(old(reg)@, rhs_handle@, |q: QueryView| compound_result(p, CompoundOperator::Except, q))), r),
{
    let rhs = rhs_handle.to_string();
    let op = BuilderOp::ExceptHandle { rhs_handle: rhs };
    proof {
        reveal(spec_apply_op);
    }
    apply_single_builder_op(reg, handle, op)
}

/// Register a copy of the builder a handle names with a CTE holding the query of another builder.
pub fn builder_with_handle(reg: &mut Registry, handle: &str, name: String, rhs_handle: &str) -> (r: Result<String, String>)
    ensures
        applied(old(reg)@, final(reg)@, on_handle(old(reg)@, handle@, |p: PartsView| with_handle_query(old(reg)@, rhs_handle@, |q: QueryView| Ok(cte_result(p, name@, q, false, Seq::empty())))), r),
{
    let rhs = rhs_handle.to_string();
    let op = BuilderOp::WithHandle { name, rhs_handle: rhs };
    proof {
        reveal(spec_apply_op);
    }
    apply_single_builder_op(reg, handle, op)
}

/// Register a copy of the builder a handle names with a recursive CTE holding the query of another builder.
pub fn builder_with_recursive_handle(reg: &mut Registry, handle: &str, name: String, rhs_handle: &str) -> (r: Result<String, String>)
    ensures
        applied(old(reg)@, final(reg)@, on_handle(old(reg)@, handle@, |p: PartsView| match handle_parts(old(reg)@, rhs_handle@) { Err(e) => Err(e), Ok(rp) => with_handle_query(old(reg)@, rhs_handle@, |q: QueryView| Ok(cte_result(p, name@, q, true, rp.selected_columns))) }), r),
{
    let rhs = rhs_handle.to_string();
    let op = BuilderOp::WithRecursiveHandle { name, rhs_handle: rhs };
    proof {
        reveal(spec_apply_op);
    }
    apply_single_builder_op(reg, handle, op)
}

/// Register a copy of the builder a handle names with `FROM (query) alias` with the query of another builder.
pub fn builder_from_subquery_handle(reg: &mut Registry, handle: &str, alias: String, rhs_handle: &str) -> (r: Result<String, String>)
    ensures
        applied(old(reg)@, final(reg)@, on_handle(old(reg)@, handle@, |p: PartsView| with_handle_query(old(reg)@, rhs_handle@, |q: QueryView| from_subquery_result(p, q, alias@))), r),
{
    let rhs = rhs_handle.to_string();
    let op = BuilderOp::FromSubqueryHandle { alias, rhs_handle: rhs };
    proof {
        reveal(spec_apply_op);
    }
    apply_single_builder_op(reg, handle, op)
}

/// Register a copy of the builder a handle names with a join of the query of another builder.
pub fn builder_join_subquery_handle(reg: &mut Registry, handle: &str, join_type: String, alias: String, rhs_handle: &str) -> (r: Result<String, String>)
    ensures
        applied(old(reg)@, final(reg)@, on_handle(old(reg)@, handle@, |p: PartsView| with_handle_query(old(reg)@, rhs_handle@, |q: QueryView| join_subquery_result(p, join_type@, alias@, q))), r),
{
    let rhs = rhs_handle.to_string();
    let op = BuilderOp::JoinSubqueryHandle { join_type, alias, rhs_handle: rhs };
    proof {
        reveal(spec_apply_op);
    }
    apply_single_builder_op(reg, handle, op)
}

/// Register a copy of the builder a handle names with `INSERT … SELECT` from the query of another builder.
pub fn builder_insert_select_handle(reg: &mut Registry, handle: &str, rhs_handle: &str) -> (r: Result<String, String>)
    ensures
        applied(old(reg)@, final(reg)@, on_handle(old(reg)@, handle@, |p: PartsView| with_handle_query(old(reg)@, rhs_handle@, |q: QueryView| Ok(insert_select_result(p, q)))), r),
{
    let rhs = rhs_handle.to_string();
    let op = BuilderOp::InsertSelectHandle { rhs_handle: rhs };
    proof {
        reveal(spec_apply_op);
    }
    apply_single_builder_op(reg, handle, op)
}

// ─── Projections built outside the operation list ────────────────────────────

/// The value of a `[alias, value]` projection pair: a column path or a SQL value.
pub enum SelectAliasValue {
    ColumnName(String),
    Expression(SqlValue),
}

/// One entry of `selectAliased`: an `[alias, value]` pair or an expression entry.
pub enum SelectAliasedInputEntry {
    Tuple(String, SelectAliasValue),
    Entry(SelectAliasedEntry),
}

/// The fragment of one `selectAliased` input.
pub open spec fn aliased_input_frag(e: SelectAliasedInputEntry, d: Dialect) -> Result<QueryView, Seq<char>> {
    match e {
        SelectAliasedInputEntry::Tuple(alias, SelectAliasValue::ColumnName(col)) => match col_frag(col@) {
            Err(m) => Err(m),
            Ok(c) => match alias_frag(alias@) {
                Err(m) => Err(m),
                Ok(a) => Ok(c.then_text(" AS "@).append(a)),
            },
        },
        SelectAliasedInputEntry::Tuple(alias, SelectAliasValue::Expression(v)) => match alias_frag(alias@) {
            Err(m) => Err(m),
            Ok(a) => match spec_fragment(v) {
                Err(m) => Err(validation_msg(m)),
                Ok(f) => Ok(f.then_text(" AS "@).append(a)),
            },
        },
        SelectAliasedInputEntry::Entry(en) => aliased_frag(en, d),
    }
}

/// The alias of one `selectAliased` input.
pub open spec fn aliased_input_alias(e: SelectAliasedInputEntry) -> Seq<char> {
    match e {
        SelectAliasedInputEntry::Tuple(alias, _) => alias@,
        SelectAliasedInputEntry::Entry(en) => en.alias@,
    }
}

fn aliased_input_query(e: &SelectAliasedInputEntry, d: &Dialect) -> (r: Result<SqlQuery, String>)
    ensures
        crate::sql::query_result_is(r, aliased_input_frag(*e, *d)),
{
    match e {
        SelectAliasedInputEntry::Tuple(alias, SelectAliasValue::ColumnName(col)) => {
            let mut q = col_to_query(col.as_str())?;
            let a = name_to_query(alias)?;
            q.push_lit(" AS ");
            q.push_query(&a);
            proof {
                reveal_strlit(" AS ");
            }
            Ok(q)
        },
        SelectAliasedInputEntry::Tuple(alias, SelectAliasValue::Expression(v)) => {
            let a = name_to_query(alias)?;
            let mut q = crate::sql::to_query_fragment(v)?;
            q.push_lit(" AS ");
            q.push_query(&a);
            proof {
                reveal_strlit(" AS ");
            }
            Ok(q)
        },
        SelectAliasedInputEntry::Entry(en) => aliased_query(en, d),
    }
}

/// The state after `selectAliased(entries)`.
pub open spec fn select_aliased_result(p: PartsView, entries: Seq<SelectAliasedInputEntry>) -> Result<PartsView, Seq<char>> {
    match list_content(entries.map_values(|e: SelectAliasedInputEntry| aliased_input_frag(e, p.dialect))) {
        Err(e) => Err(e),
        Ok(c) => Ok(projection_result(p, c, entries.map_values(|e: SelectAliasedInputEntry| aliased_input_alias(e)), ProjectionTarget::Select)),
    }
}

/// Register a copy of the builder a handle names with a SELECT list of aliased columns
/// and expressions.
#[verifier::loop_isolation(false)]
pub fn builder_select_aliased(reg: &mut Registry, handle: &str, entries: Vec<SelectAliasedInputEntry>) -> (r: Result<String, String>)
    ensures
        applied(old(reg)@, final(reg)@, on_handle(old(reg)@, handle@, |p: PartsView| select_aliased_result(p, entries@)), r),
{
    let mut parts = reg.registry_get_cloned(handle)?;
    let d = parts.dialect.copy();
    let ghost rs = entries@.map_values(|e: SelectAliasedInputEntry| aliased_input_frag(e, d));
    let mut qs: Vec<SqlQuery> = Vec::new();
    let mut aliases: Vec<String> = Vec::new();
    proof {
        assert(rs.take(0) =~= Seq::<Result<QueryView, Seq<char>>>::empty());
        assert(qs.deep_view() =~= Seq::<QueryView>::empty());
        assert(aliases.deep_view() =~= Seq::<Seq<char>>::empty());
    }
    for i in 0..entries.len()
        invariant
            rs == entries@.map_values(|e: SelectAliasedInputEntry| aliased_input_frag(e, d)),
            all_frags(rs.take(i as int)) == Ok::<Seq<QueryView>, Seq<char>>(qs.deep_view()),
            aliases.deep_view() == entries@.take(i as int).map_values(|e: SelectAliasedInputEntry| aliased_input_alias(e)),
    {
        proof {
            lemma_all_frags_step(rs, i as int);
        }
        match aliased_input_query(&entries[i], &d) {
            Ok(q) => {
                let ghost before = qs.deep_view();
                let ghost ab = aliases.deep_view();
                qs.push(q);
                let a = match &entries[i] {
                    SelectAliasedInputEntry::Tuple(alias, _) => alias.clone(),
                    SelectAliasedInputEntry::Entry(en) => en.alias.clone(),
                };
                aliases.push(a);
                proof {
                    assert(qs.deep_view() =~= before.push(q@));
                    assert(aliases.deep_view() =~= ab.push(aliased_input_alias(entries@[i as int])));
                    assert(entries@.take(i + 1).map_values(|e: SelectAliasedInputEntry| aliased_input_alias(e))
                        =~= ab.push(aliased_input_alias(entries@[i as int])));
                }
            },
            Err(e) => {
                proof {
                    lemma_all_frags_stays(rs, i + 1);
                }
                return Err(e);
            },
        }
    }
    proof {
        reveal_strlit(", ");
        assert(rs.take(entries.len() as int) =~= rs);
        assert(entries@.take(entries.len() as int) =~= entries@);
    }
    let content = crate::builder::render::join_queries(&qs, ", ");
    apply_projection(&mut parts, content, aliases, ProjectionTarget::Select);
    Ok(reg.registry_insert(parts))
}

/// Register a copy of the builder a handle names with a ready-made SELECT list.
pub fn builder_select_fragment(reg: &mut Registry, handle: &str, fragment: SqlQuery, selected_cols: Vec<String>) -> (r: Result<String, String>)
    ensures
        applied(old(reg)@, final(reg)@, on_handle(old(reg)@, handle@,
            |p: PartsView| Ok(projection_result(p, fragment@, selected_cols.deep_view(), ProjectionTarget::Select))), r),
{
    let mut parts = reg.registry_get_cloned(handle)?;
    apply_projection(&mut parts, fragment, selected_cols, ProjectionTarget::Select);
    Ok(reg.registry_insert(parts))
}

/// Register a copy of the builder a handle names with a ready-made RETURNING list.
pub fn builder_returning_fragment(reg: &mut Registry, handle: &str, fragment: SqlQuery, selected_cols: Vec<String>) -> (r: Result<String, String>)
    ensures
        applied(old(reg)@, final(reg)@, on_handle(old(reg)@, handle@,
            |p: PartsView| Ok(projection_result(p, fragment@, selected_cols.deep_view(), ProjectionTarget::Returning))), r),
{
    let mut parts = reg.registry_get_cloned(handle)?;
    apply_projection(&mut parts, fragment, selected_cols, ProjectionTarget::Returning);
    Ok(reg.registry_insert(parts))
}

// ─── Batches of operations ───────────────────────────────────────────────────

/// Apply a batch of operations to the state a handle names and register the result.
pub fn builder_apply_ops(reg: &mut Registry, handle: &str, ops: Vec<BuilderOp>) -> (r: Result<String, String>)
    ensures
        applied(old(reg)@, final(reg)@, on_handle(old(reg)@, handle@, |p: PartsView| spec_apply_ops(old(reg)@, p, ops@)), r),
{
    builder_apply_parsed_ops(reg, handle, ops)
}

/// Every frame decoded to the operation at the same index.
pub open spec fn frames_decoded<D: Fn(&Vec<u8>) -> Result<BuilderOp, String>>(decode: D, frames: Seq<Vec<u8>>, ops: Seq<BuilderOp>) -> bool {
    &&& ops.len() == frames.len()
    &&& forall|i: int| 0 <= i < frames.len() ==> decode.ensures((&frames[i],), Ok::<BuilderOp, String>(#[trigger] ops[i]))
}

/// The contents of a list of frames.
pub open spec fn frames_view(frames: Seq<Vec<u8>>) -> Seq<Seq<u8>> {
    frames.map_values(|x: Vec<u8>| x@)
}

/// Decoding the frame failed with `e`.
pub open spec fn decode_failed<D: Fn(&Vec<u8>) -> Result<BuilderOp, String>>(decode: D, frame: Vec<u8>, e: String) -> bool {
    decode.ensures((&frame,), Err::<BuilderOp, String>(e))
}

/// Apply a binary batch of operations: the payload is split into op frames (see
/// [`parse_builder_ops_bin`]), each frame is decoded by `decode`, and the operations are
/// applied in order. A framing error, or the first decoding error (every frame before it
/// decoded), is returned as is.
pub fn builder_apply_ops_bin<D: Fn(&Vec<u8>) -> Result<BuilderOp, String>>(reg: &mut Registry, handle: &str, payload: Vec<u8>, decode: D) -> (r: Result<String, String>)
    requires
        forall|f: &Vec<u8>| decode.requires((f,)),
    ensures
        spec_frames(payload@) matches Err(e) ==> (r matches Err(m) && m@ == e && final(reg)@ == old(reg)@),
        spec_frames(payload@) matches Ok(fs) ==> (exists|frames: Seq<Vec<u8>>|
            #[trigger] frames_view(frames) == fs && (
                (exists|ops: Seq<BuilderOp>| #[trigger] frames_decoded(decode, frames, ops)
                    && applied(old(reg)@, final(reg)@, on_handle(old(reg)@, handle@, |p: PartsView| spec_apply_ops(old(reg)@, p, ops)), r))
                || (exists|i: int, e: String, ops: Seq<BuilderOp>| 0 <= i < frames.len() && #[trigger] decode_failed(decode, frames[i], e)
                    && #[trigger] frames_decoded(decode, frames.take(i), ops)
                    && r == Err::<String, String>(e) && final(reg)@ == old(reg)@))),
{
    let frames = parse_builder_ops_bin(&payload)?;
    let mut ops: Vec<BuilderOp> = Vec::new();
    for i in 0..frames.len()
        invariant
            forall|f: &Vec<u8>| decode.requires((f,)),
            frames_decoded(decode, frames@.take(i as int), ops@),
            reg@ == old(reg)@,
            spec_frames(payload@) matches Ok(fs) && frames@.map_values(|x: Vec<u8>| x@) == fs,
    {
        match decode(&frames[i]) {
            Ok(op) => {
                let ghost before = ops@;
                ops.push(op);
                proof {
                    assert forall|j: int| 0 <= j < i + 1 implies decode.ensures((&frames@.take(i + 1)[j],), Ok::<BuilderOp, String>(#[trigger] ops@[j])) by {
                        if j < i {
                            assert(frames@.take(i + 1)[j] == frames@.take(i as int)[j]);
                            assert(ops@[j] == before[j]);
                        }
                    }
                }
            },
            Err(e) => {
                proof {
                    assert(frames_view(frames@) == frames@.map_values(|x: Vec<u8>| x@));
                    assert(decode_failed(decode, frames@[i as int], e));
                    assert(frames_decoded(decode, frames@.take(i as int), ops@));
                }
                return Err(e);
            },
        }
    }
    assert(frames@.take(frames.len() as int) =~= frames@);
    let ghost fr = frames@;
    let ghost os = ops@;
    assert(frames_view(fr) == fr.map_values(|x: Vec<u8>| x@));
    assert(frames_decoded(decode, fr, os));
    builder_apply_parsed_ops(reg, handle, ops)
}

} // verus!
