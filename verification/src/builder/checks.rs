//! Structural and dialect checks a builder state must pass before it renders.
use crate::builder::state::{
    ActionView, CteView, DistinctMode, DistinctView, InsertConflictAction, InsertConflictTarget, LockModifier,
    LockStrength, PartsView, QueryParts, StatementKind, TargetView,
};
use crate::dialect::{
    capabilities_for_dialect, spec_capabilities, CapabilitiesView, Dialect, InsertConflictStyle, PaginationSyntaxFamily,
    RecursiveCteStyle,
};
use crate::text::push_str;
use vstd::prelude::*;

verus! {

/// `Dialect "<name>" <rest>`.
pub open spec fn dialect_msg(name: Seq<char>, rest: Seq<char>) -> Seq<char> {
    "Dialect \""@ + name + "\" "@ + rest
}

fn dialect_says(d: &Dialect, rest: &str) -> (e: String)
    ensures
        e@ == dialect_msg(d.spec_as_str(), rest@),
{
    let mut e = String::from_str("Dialect \"");
    push_str(&mut e, d.as_str());
    push_str(&mut e, "\" ");
    push_str(&mut e, rest);
    e
}

/// The first failing DISTINCT ON check.
pub open spec fn distinct_error(p: PartsView, caps: CapabilitiesView, name: Seq<char>) -> Option<Seq<char>> {
    match p.distinct {
        Some(DistinctView::On(e)) => if e.len() == 0 {
            Some("DISTINCT ON requires at least one expression."@)
        } else if !caps.distinct_on {
            Some(dialect_msg(name, "does not support DISTINCT ON in this builder."@))
        } else {
            None
        },
        _ => None,
    }
}

/// The first recursive CTE the dialect cannot render, if any.
pub open spec fn cte_error(ctes: Seq<CteView>, caps: CapabilitiesView, name: Seq<char>) -> Option<Seq<char>>
    decreases ctes.len(),
{
    if ctes.len() == 0 {
        None
    } else {
        let c = ctes[0];
        if c.recursive && caps.recursive_ctes.style == RecursiveCteStyle::Unsupported {
            Some(dialect_msg(name, "does not support recursive CTEs in this builder."@))
        } else if c.recursive && caps.recursive_ctes.column_aliases_required && c.columns.len() == 0 {
            Some(dialect_msg(name, "requires column aliases for recursive CTE \""@ + c.name + "\"."@))
        } else {
            cte_error(ctes.skip(1), caps, name)
        }
    }
}

/// The first failing check on the insert conflict target.
pub open spec fn target_error(p: PartsView) -> Option<Seq<char>> {
    match p.insert.conflict.target {
        Some(TargetView::Columns(cols)) => if cols.len() == 0 {
            Some("Insert conflict columns cannot be empty."@)
        } else if exists|i: int| 0 <= i < cols.len() && (#[trigger] cols[i]).len() == 0 {
            Some("Insert conflict columns cannot contain empty names."@)
        } else {
            None
        },
        Some(TargetView::Constraint(c)) => if c.len() == 0 {
            Some("Insert conflict constraint name cannot be empty."@)
        } else {
            None
        },
        None => None,
    }
}

/// The first failing check on the insert conflict action.
pub open spec fn action_error(p: PartsView, caps: CapabilitiesView, name: Seq<char>) -> Option<Seq<char>> {
    let target = p.insert.conflict.target;
    if target is Some && p.insert.conflict.action is None {
        Some("Insert conflict target requires an action."@)
    } else {
        match p.insert.conflict.action {
            Some(ActionView::DoNothing) => match caps.insert_conflict {
                InsertConflictStyle::Unsupported => Some(
                    dialect_msg(name, "does not support DO NOTHING insert conflict handling."@),
                ),
                InsertConflictStyle::MySql => if target is Some {
                    Some(dialect_msg(name, "does not support explicit conflict targets for DO NOTHING inserts."@))
                } else {
                    None
                },
                InsertConflictStyle::OnConflict => None,
            },
            Some(ActionView::DoUpdate { assignments, predicate }) => if assignments.len() == 0 {
                Some("Insert conflict update requires at least one assignment."@)
            } else {
                match caps.insert_conflict {
                    InsertConflictStyle::Unsupported => Some(
                        dialect_msg(name, "does not support DO UPDATE insert conflict handling."@),
                    ),
                    InsertConflictStyle::MySql => if target is Some {
                        Some(dialect_msg(name, "does not support explicit conflict targets for DO UPDATE inserts."@))
                    } else if predicate is Some {
                        Some(dialect_msg(name, "does not support conflict WHERE for DO UPDATE inserts."@))
                    } else {
                        None
                    },
                    InsertConflictStyle::OnConflict => if target is None {
                        Some("Insert conflict update requires a conflict target."@)
                    } else {
                        None
                    },
                }
            },
            None => None,
        }
    }
}

/// Whether the statement is a data-modifying one.
pub open spec fn is_write(s: Option<StatementKind>) -> bool {
    s == Some(StatementKind::Insert) || s == Some(StatementKind::Update) || s == Some(StatementKind::Delete)
}

/// The first failing RETURNING check.
pub open spec fn returning_error(p: PartsView, caps: CapabilitiesView, name: Seq<char>) -> Option<Seq<char>> {
    if p.returning is Some {
        if !is_write(p.statement) {
            Some("RETURNING is only supported for INSERT, UPDATE, and DELETE builders."@)
        } else if !caps.returning {
            Some(dialect_msg(name, "does not support RETURNING in this builder."@))
        } else {
            None
        }
    } else {
        None
    }
}

/// The first failing lock-clause check.
pub open spec fn lock_error(p: PartsView, caps: CapabilitiesView, name: Seq<char>) -> Option<Seq<char>> {
    match p.lock {
        Some(lock) => if !(p.statement is None || p.statement == Some(StatementKind::Select)) {
            Some("SELECT lock clauses are only supported for SELECT builders."@)
        } else if !caps.lock_strengths.contains(lock.strength) {
            Some(dialect_msg(name, "does not support "@ + lock.strength.spec_as_sql() + " in this builder."@))
        } else {
            match lock.modifier {
                Some(m) => if !caps.lock_modifiers.contains(m) {
                    Some(dialect_msg(name, "does not support "@ + m.spec_as_sql() + " with SELECT lock clauses in this builder."@))
                } else {
                    None
                },
                None => None,
            }
        },
        None => None,
    }
}

/// The first failing pagination check.
pub open spec fn pagination_error(p: PartsView, caps: CapabilitiesView, name: Seq<char>) -> Option<Seq<char>> {
    let has_limit = p.pagination.limit is Some;
    let has_offset = p.pagination.offset is Some;
    if has_limit || has_offset {
        if caps.pagination.family == PaginationSyntaxFamily::Unsupported {
            Some(dialect_msg(name, "does not support pagination in this builder."@))
        } else if has_offset && !has_limit && !caps.pagination.offset_only_allowed {
            Some(dialect_msg(name, "does not support OFFSET without LIMIT in this builder."@))
        } else if has_offset && caps.pagination.offset_requires_order_by && p.order_by.len() == 0 {
            Some(dialect_msg(name, "requires ORDER BY when using OFFSET/FETCH pagination in this builder."@))
        } else {
            None
        }
    } else {
        None
    }
}

/// The outcome of validating a builder state: the first failing check, in order.
pub open spec fn spec_validate_parts(p: PartsView) -> Result<(), Seq<char>> {
    let caps = spec_capabilities(p.dialect);
    let name = p.dialect.spec_as_str();
    if let Some(e) = distinct_error(p, caps, name) {
        Err(e)
    } else if let Some(e) = cte_error(p.ctes, caps, name) {
        Err(e)
    } else if let Some(e) = target_error(p) {
        Err(e)
    } else if let Some(e) = action_error(p, caps, name) {
        Err(e)
    } else if let Some(e) = returning_error(p, caps, name) {
        Err(e)
    } else if let Some(e) = lock_error(p, caps, name) {
        Err(e)
    } else if let Some(e) = pagination_error(p, caps, name) {
        Err(e)
    } else {
        Ok(())
    }
}

/// `r` reports the check outcome `s`.
pub open spec fn check_is(r: Result<(), String>, s: Option<Seq<char>>) -> bool {
    match s {
        Some(m) => r matches Err(e) && e@ == m,
        None => r is Ok,
    }
}

fn check_distinct(parts: &QueryParts, caps: &crate::dialect::DialectCapabilities) -> (r: Result<(), String>)
    requires
        caps@ == spec_capabilities(parts.dialect),
    ensures
        check_is(r, distinct_error(parts.deep_view(), caps@, parts.dialect.spec_as_str())),
{
    match &parts.distinct {
        Some(DistinctMode::On(expressions)) => {
            if expressions.len() == 0 {
                return Err(String::from_str("DISTINCT ON requires at least one expression."));
            }
            if !caps.distinct_on {
                return Err(dialect_says(&parts.dialect, "does not support DISTINCT ON in this builder."));
            }
            Ok(())
        },
        _ => Ok(()),
    }
}

#[verifier::loop_isolation(false)]
fn check_ctes(parts: &QueryParts, caps: &crate::dialect::DialectCapabilities) -> (r: Result<(), String>)
    requires
        caps@ == spec_capabilities(parts.dialect),
    ensures
        check_is(r, cte_error(parts.ctes.deep_view(), caps@, parts.dialect.spec_as_str())),
{
    let ghost all = parts.ctes.deep_view();
    let ghost name = parts.dialect.spec_as_str();
    assert(all.skip(0) =~= all);
    for i in 0..parts.ctes.len()
        invariant
            all == parts.ctes.deep_view(),
            caps@ == spec_capabilities(parts.dialect),
            cte_error(all, caps@, name) == cte_error(all.skip(i as int), caps@, name),
    {
        let cte = &parts.ctes[i];
        proof {
            assert(all[i as int] == parts.ctes@[i as int].deep_view());
            assert(all.skip(i as int)[0] == all[i as int]);
            assert(all.skip(i as int).skip(1) =~= all.skip(i + 1));
        }
        if cte.recursive {
            match caps.recursive_ctes.style {
                RecursiveCteStyle::Unsupported => {
                    return Err(dialect_says(&parts.dialect, "does not support recursive CTEs in this builder."));
                },
                _ => {
                    if caps.recursive_ctes.column_aliases_required && cte.columns.len() == 0 {
                        let mut e = dialect_says(&parts.dialect, "requires column aliases for recursive CTE \"");
                        push_str(&mut e, cte.name.as_str());
                        push_str(&mut e, "\".");
                        proof {
                            assert(e@ =~= dialect_msg(name, "requires column aliases for recursive CTE \""@ + cte.name@ + "\"."@));
                        }
                        return Err(e);
                    }
                },
            }
        }
    }
    proof {
        assert(all.skip(all.len() as int) =~= Seq::<CteView>::empty());
    }
    Ok(())
}

#[verifier::loop_isolation(false)]
fn check_target(parts: &QueryParts) -> (r: Result<(), String>)
    ensures
        check_is(r, target_error(parts.deep_view())),
{
    match &parts.insert.conflict.target {
        Some(InsertConflictTarget::Columns(columns)) => {
            if columns.len() == 0 {
                return Err(String::from_str("Insert conflict columns cannot be empty."));
            }
            let ghost cols = columns.deep_view();
            for i in 0..columns.len()
                invariant
                    cols == columns.deep_view(),
                    forall|j: int| 0 <= j < i ==> (#[trigger] cols[j]).len() > 0,
            {
                proof {
                    assert(cols[i as int] == columns@[i as int]@);
                }
                if columns[i].as_str().is_empty() {
                    proof {
                        assert(cols[i as int].len() == 0);
                    }
                    return Err(String::from_str("Insert conflict columns cannot contain empty names."));
                }
            }
            Ok(())
        },
        Some(InsertConflictTarget::Constraint(c)) => {
            if c.as_str().is_empty() {
                return Err(String::from_str("Insert conflict constraint name cannot be empty."));
            }
            Ok(())
        },
        None => Ok(()),
    }
}

fn check_action(parts: &QueryParts, caps: &crate::dialect::DialectCapabilities) -> (r: Result<(), String>)
    requires
        caps@ == spec_capabilities(parts.dialect),
    ensures
        check_is(r, action_error(parts.deep_view(), caps@, parts.dialect.spec_as_str())),
{
    let has_target = parts.insert.conflict.target.is_some();
    if has_target && parts.insert.conflict.action.is_none() {
        return Err(String::from_str("Insert conflict target requires an action."));
    }
    match &parts.insert.conflict.action {
        Some(InsertConflictAction::DoNothing) => match caps.insert_conflict {
            InsertConflictStyle::Unsupported => Err(
                dialect_says(&parts.dialect, "does not support DO NOTHING insert conflict handling."),
            ),
            InsertConflictStyle::MySql => if has_target {
                Err(dialect_says(&parts.dialect, "does not support explicit conflict targets for DO NOTHING inserts."))
            } else {
                Ok(())
            },
            InsertConflictStyle::OnConflict => Ok(()),
        },
        Some(InsertConflictAction::DoUpdate { assignments, predicate }) => {
            if assignments.len() == 0 {
                return Err(String::from_str("Insert conflict update requires at least one assignment."));
            }
            match caps.insert_conflict {
                InsertConflictStyle::Unsupported => Err(
                    dialect_says(&parts.dialect, "does not support DO UPDATE insert conflict handling."),
                ),
                InsertConflictStyle::MySql => if has_target {
                    Err(dialect_says(&parts.dialect, "does not support explicit conflict targets for DO UPDATE inserts."))
                } else if predicate.is_some() {
                    Err(dialect_says(&parts.dialect, "does not support conflict WHERE for DO UPDATE inserts."))
                } else {
                    Ok(())
                },
                InsertConflictStyle::OnConflict => if !has_target {
                    Err(String::from_str("Insert conflict update requires a conflict target."))
                } else {
                    Ok(())
                },
            }
        },
        None => Ok(()),
    }
}

fn check_returning(parts: &QueryParts, caps: &crate::dialect::DialectCapabilities) -> (r: Result<(), String>)
    requires
        caps@ == spec_capabilities(parts.dialect),
    ensures
        check_is(r, returning_error(parts.deep_view(), caps@, parts.dialect.spec_as_str())),
{
    if parts.returning.is_some() {
        let write = match parts.statement {
            Some(StatementKind::Insert) => true,
            Some(StatementKind::Update) => true,
            Some(StatementKind::Delete) => true,
            _ => false,
        };
        if !write {
            return Err(String::from_str("RETURNING is only supported for INSERT, UPDATE, and DELETE builders."));
        }
        if !caps.returning {
            return Err(dialect_says(&parts.dialect, "does not support RETURNING in this builder."));
        }
    }
    Ok(())
}

fn has_strength(v: &Vec<LockStrength>, s: LockStrength) -> (r: bool)
    ensures
        r == v@.contains(s),
{
    for i in 0..v.len()
        invariant
            forall|j: int| 0 <= j < i ==> v@[j] != s,
    {
        if v[i] == s {
            assert(v@[i as int] == s);
            return true;
        }
    }
    false
}

fn has_modifier(v: &Vec<LockModifier>, m: LockModifier) -> (r: bool)
    ensures
        r == v@.contains(m),
{
    for i in 0..v.len()
        invariant
            forall|j: int| 0 <= j < i ==> v@[j] != m,
    {
        if v[i] == m {
            assert(v@[i as int] == m);
            return true;
        }
    }
    false
}

fn check_lock(parts: &QueryParts, caps: &crate::dialect::DialectCapabilities) -> (r: Result<(), String>)
    requires
        caps@ == spec_capabilities(parts.dialect),
    ensures
        check_is(r, lock_error(parts.deep_view(), caps@, parts.dialect.spec_as_str())),
{
    match parts.lock {
        Some(lock) => {
            let select_like = match parts.statement {
                None => true,
                Some(StatementKind::Select) => true,
                _ => false,
            };
            if !select_like {
                return Err(String::from_str("SELECT lock clauses are only supported for SELECT builders."));
            }
            if !has_strength(&caps.lock_strengths, lock.strength) {
                let mut e = dialect_says(&parts.dialect, "does not support ");
                push_str(&mut e, lock.strength.as_sql());
                push_str(&mut e, " in this builder.");
                proof {
                    assert(e@ =~= dialect_msg(parts.dialect.spec_as_str(), "does not support "@ + lock.strength.spec_as_sql() + " in this builder."@));
                }
                return Err(e);
            }
            match lock.modifier {
                Some(m) => {
                    if !has_modifier(&caps.lock_modifiers, m) {
                        let mut e = dialect_says(&parts.dialect, "does not support ");
                        push_str(&mut e, m.as_sql());
                        push_str(&mut e, " with SELECT lock clauses in this builder.");
                        proof {
                            assert(e@ =~= dialect_msg(parts.dialect.spec_as_str(), "does not support "@ + m.spec_as_sql() + " with SELECT lock clauses in this builder."@));
                        }
                        return Err(e);
                    }
                    Ok(())
                },
                None => Ok(()),
            }
        },
        None => Ok(()),
    }
}

fn check_pagination(parts: &QueryParts, caps: &crate::dialect::DialectCapabilities) -> (r: Result<(), String>)
    requires
        caps@ == spec_capabilities(parts.dialect),
    ensures
        check_is(r, pagination_error(parts.deep_view(), caps@, parts.dialect.spec_as_str())),
{
    let has_limit = parts.pagination.limit.is_some();
    let has_offset = parts.pagination.offset.is_some();
    if has_limit || has_offset {
        let pagination = caps.pagination;
        if pagination.family == PaginationSyntaxFamily::Unsupported {
            return Err(dialect_says(&parts.dialect, "does not support pagination in this builder."));
        }
        if has_offset && !has_limit && !pagination.offset_only_allowed {
            return Err(dialect_says(&parts.dialect, "does not support OFFSET without LIMIT in this builder."));
        }
        if has_offset && pagination.offset_requires_order_by && parts.order_by.len() == 0 {
            return Err(
                dialect_says(&parts.dialect, "requires ORDER BY when using OFFSET/FETCH pagination in this builder."),
            );
        }
    }
    Ok(())
}

/// Check a builder state against the structural rules and the capabilities of its dialect.
pub fn validate_query_parts(parts: &QueryParts) -> (r: Result<(), String>)
    ensures
        match spec_validate_parts(parts.deep_view()) {
            Ok(_) => r is Ok,
            Err(m) => r matches Err(e) && e@ == m,
        },
{
    let capabilities = capabilities_for_dialect(&parts.dialect);
    check_distinct(parts, &capabilities)?;
    check_ctes(parts, &capabilities)?;
    check_target(parts)?;
    check_action(parts, &capabilities)?;
    check_returning(parts, &capabilities)?;
    check_lock(parts, &capabilities)?;
    check_pagination(parts, &capabilities)?;
    Ok(())
}

} // verus!
