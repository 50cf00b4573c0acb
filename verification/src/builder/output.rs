//! Rendered output of registered builders: the query a handle stands for, and the
//! values read from it.
use crate::builder::registry::{handle_parts, spec_parse_handle, stored_parts, registry_parse_handle, Registry, RegistryView};
use crate::builder::render::{build_query, build_view, cached_validation, validated_cache};
use crate::builder::state::{InsertConflictTarget, PartsView, TargetView};
use crate::types::{copy_primitives, copy_strings, Primitive, QueryView, SqlQuery};
use vstd::prelude::*;

verus! {

/// The outcome of building a state: its remembered validation error, or its rendering.
pub open spec fn build_outcome(p: PartsView) -> Result<QueryView, Seq<char>> {
    match cached_validation(p) {
        Err(e) => Err(e),
        Ok(_) => build_view(p),
    }
}

/// The query a stored state stands for: its cached query, or its build outcome.
pub open spec fn stored_query(p: PartsView) -> Result<QueryView, Seq<char>> {
    match p.cached_query {
        Some(q) => Ok(q),
        None => build_outcome(p),
    }
}

/// The query stored under a key.
pub open spec fn key_query(r: RegistryView, key: u64) -> Result<QueryView, Seq<char>> {
    match stored_parts(r, key) {
        Err(e) => Err(e),
        Ok(p) => stored_query(p),
    }
}

/// The query a handle text stands for.
pub open spec fn handle_query(r: RegistryView, id: Seq<char>) -> Result<QueryView, Seq<char>> {
    match spec_parse_handle(id) {
        Err(e) => Err(e),
        Ok(k) => key_query(r, k),
    }
}

/// A stored state once its query has been produced: the validation outcome and (when
/// the build succeeds) the query are remembered.
pub open spec fn after_build(p: PartsView) -> PartsView {
    if p.cached_query is Some {
        p
    } else {
        let v = PartsView { validation: validated_cache(p), ..p };
        match build_outcome(p) {
            Ok(q) => PartsView { cached_query: Some(q), ..v },
            Err(_) => v,
        }
    }
}

/// The registry once the query of `id` has been produced.
pub open spec fn registry_after_build(r: RegistryView, id: Seq<char>) -> RegistryView {
    match spec_parse_handle(id) {
        Ok(k) => if r.entries.contains_key(k) {
            RegistryView { entries: r.entries.insert(k, after_build(r.entries[k])), ..r }
        } else {
            r
        },
        Err(_) => r,
    }
}

/// The query a handle stands for, without remembering anything.
pub(crate) fn query_of_handle(reg: &Registry, id: &str) -> (r: Result<SqlQuery, String>)
    ensures
        crate::sql::query_result_is(r, handle_query(reg@, id@)),
{
    let key = registry_parse_handle(id)?;
    if let Some(q) = reg.registry_try_get_cached_key(key) {
        return Ok(q);
    }
    let mut parts = reg.registry_get_cloned_key(key)?;
    build_query(&mut parts)
}

/// The query a handle stands for: the cached one, or a fresh build whose query and
/// validation outcome are then remembered for the handle.
pub fn get_or_build_query(reg: &mut Registry, id: &str) -> (r: Result<SqlQuery, String>)
    ensures
        crate::sql::query_result_is(r, handle_query(old(reg)@, id@)),
        final(reg)@ == registry_after_build(old(reg)@, id@),
{
    let key = registry_parse_handle(id)?;
    if let Some(q) = reg.registry_try_get_cached_key(key) {
        proof {
            assert(reg@.entries.insert(key, reg@.entries[key]) =~= reg@.entries);
        }
        return Ok(q);
    }
    let mut parts = reg.registry_get_cloned_key(key)?;
    let ghost before = parts.deep_view();
    let r = build_query(&mut parts);
    match &r {
        Ok(q) => {
            parts.cached_query = Some(q.copy());
        },
        Err(_) => {},
    }
    proof {
        assert(parts.deep_view() == after_build(before));
    }
    reg.put(key, parts);
    r
}

/// The rendered query of a builder.
pub fn builder_query_typed(reg: &mut Registry, handle: &str) -> (r: Result<SqlQuery, String>)
    ensures
        crate::sql::query_result_is(r, handle_query(old(reg)@, handle@)),
        final(reg)@ == registry_after_build(old(reg)@, handle@),
{
    get_or_build_query(reg, handle)
}

/// The parameterised text of a builder's query.
pub fn builder_text(reg: &mut Registry, handle: &str) -> (r: Result<String, String>)
    ensures
        match handle_query(old(reg)@, handle@) {
            Ok(q) => r matches Ok(t) && t@ == q.text,
            Err(e) => r matches Err(m) && m@ == e,
        },
        final(reg)@ == registry_after_build(old(reg)@, handle@),
{
    let q = get_or_build_query(reg, handle)?;
    Ok(q.text)
}

/// The raw (values inlined) text of a builder's query.
pub fn builder_raw(reg: &mut Registry, handle: &str) -> (r: Result<String, String>)
    ensures
        match handle_query(old(reg)@, handle@) {
            Ok(q) => r matches Ok(t) && t@ == q.raw,
            Err(e) => r matches Err(m) && m@ == e,
        },
        final(reg)@ == registry_after_build(old(reg)@, handle@),
{
    let q = get_or_build_query(reg, handle)?;
    Ok(q.raw)
}

/// The bound values of a builder's query.
pub fn builder_values_typed(reg: &mut Registry, handle: &str) -> (r: Result<Vec<Primitive>, String>)
    ensures
        match handle_query(old(reg)@, handle@) {
            Ok(q) => r matches Ok(v) && v@ == q.values,
            Err(e) => r matches Err(m) && m@ == e,
        },
        final(reg)@ == registry_after_build(old(reg)@, handle@),
{
    let q = get_or_build_query(reg, handle)?;
    Ok(q.values)
}

/// The text, raw text and values of a builder's query.
pub struct CompiledBundle {
    pub text: String,
    pub raw: String,
    pub values: Vec<Primitive>,
}

/// The text, raw text and values of a builder's query, in one bundle.
pub fn builder_compile_bundle_typed(reg: &mut Registry, handle: &str) -> (r: Result<CompiledBundle, String>)
    ensures
        match handle_query(old(reg)@, handle@) {
            Ok(q) => r matches Ok(b) && b.text@ == q.text && b.raw@ == q.raw && b.values@ == q.values,
            Err(e) => r matches Err(m) && m@ == e,
        },
        final(reg)@ == registry_after_build(old(reg)@, handle@),
{
    let q = get_or_build_query(reg, handle)?;
    Ok(CompiledBundle { text: q.text, raw: q.raw, values: q.values })
}

/// A copy of the state a handle names.
pub fn registry_get_parts(reg: &Registry, handle: &str) -> (r: Result<crate::builder::state::QueryParts, String>)
    ensures
        match handle_parts(reg@, handle@) {
            Ok(p) => r matches Ok(q) && q.deep_view() == p,
            Err(e) => r matches Err(m) && m@ == e,
        },
{
    reg.registry_get_cloned(handle)
}

/// The names of the columns a builder selects (or returns).
pub fn builder_selected_columns_typed(reg: &Registry, handle: &str) -> (r: Result<Vec<String>, String>)
    ensures
        match handle_parts(reg@, handle@) {
            Ok(p) => r matches Ok(v) && v.deep_view() == p.selected_columns,
            Err(e) => r matches Err(m) && m@ == e,
        },
{
    let parts = reg.registry_get_cloned(handle)?;
    Ok(parts.selected_columns)
}

/// The INSERT column names of a builder.
pub fn builder_insert_columns_typed(reg: &Registry, handle: &str) -> (r: Result<Vec<String>, String>)
    ensures
        match handle_parts(reg@, handle@) {
            Ok(p) => r matches Ok(v) && v.deep_view() == p.insert.column_names,
            Err(e) => r matches Err(m) && m@ == e,
        },
{
    let parts = reg.registry_get_cloned(handle)?;
    Ok(parts.insert.column_names)
}

/// `"columns"`, `"constraint"` or `"none"`: the kind of a builder's ON CONFLICT target.
pub open spec fn target_kind(t: Option<TargetView>) -> Seq<char> {
    match t {
        Some(TargetView::Columns(_)) => "columns"@,
        Some(TargetView::Constraint(_)) => "constraint"@,
        None => "none"@,
    }
}

/// The kind of a builder's ON CONFLICT target.
pub fn builder_conflict_target_kind_typed(reg: &Registry, handle: &str) -> (r: Result<String, String>)
    ensures
        match handle_parts(reg@, handle@) {
            Ok(p) => r matches Ok(k) && k@ == target_kind(p.insert.conflict.target),
            Err(e) => r matches Err(m) && m@ == e,
        },
{
    let parts = reg.registry_get_cloned(handle)?;
    let kind = match parts.insert.conflict.target {
        Some(InsertConflictTarget::Columns(_)) => "columns",
        Some(InsertConflictTarget::Constraint(_)) => "constraint",
        None => "none",
    };
    proof {
        reveal_strlit("columns");
        reveal_strlit("constraint");
        reveal_strlit("none");
    }
    Ok(kind.to_string())
}

/// A builder's query under an alias, with its parts and selected columns.
pub struct AliasedQueryData {
    pub kind: String,
    pub alias: String,
    pub handle: String,
    pub query: SqlQuery,
    pub text: String,
    pub raw: String,
    pub values: Vec<Primitive>,
    pub selected_columns: Vec<String>,
}

/// A builder's query wrapped as an aliased query (`kind` is `"aliased-query"`).
pub fn builder_as_typed(reg: &mut Registry, handle: &str, alias: String) -> (r: Result<AliasedQueryData, String>)
    ensures
        match handle_query(old(reg)@, handle@) {
            Ok(q) => match handle_parts(old(reg)@, handle@) {
                Ok(p) => r matches Ok(a) && a.kind@ == "aliased-query"@ && a.alias == alias && a.handle@ == handle@
                    && a.query@ == q && a.text@ == q.text && a.raw@ == q.raw && a.values@ == q.values
                    && a.selected_columns.deep_view() == p.selected_columns,
                Err(e) => r matches Err(m) && m@ == e,
            },
            Err(e) => r matches Err(m) && m@ == e,
        },
        final(reg)@ == registry_after_build(old(reg)@, handle@),
{
    let query = get_or_build_query(reg, handle)?;
    let parts = reg.registry_get_cloned(handle)?;
    proof {
        reveal_strlit("aliased-query");
    }
    Ok(AliasedQueryData {
        kind: String::from_str("aliased-query"),
        text: query.text.clone(),
        raw: query.raw.clone(),
        values: copy_primitives(&query.values),
        query,
        alias,
        handle: handle.to_string(),
        selected_columns: parts.selected_columns,
    })
}

} // verus!
