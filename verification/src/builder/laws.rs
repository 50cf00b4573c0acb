//! Properties of the builder that hold across calls.
use crate::builder::api::{applied, inserted};
use crate::builder::canonical::{
    canonical_hash, lemma_canonical_ignores_bound_values, same_clause_shapes,
    assign_pairs, canonical_ir, handle_canonical, lemma_assignment_order_irrelevant, lemma_canonical_ignores_caches,
};
use crate::builder::render::normalize_view;
use crate::builder::methods::{spec_apply_ops, BuilderOp};
use crate::builder::output::{after_build, build_outcome, handle_query, key_query, registry_after_build, stored_query};
use crate::builder::registry::{handle_parts, is_handle, reset_caches, spec_parse_handle, RegistryView};
use crate::types::QueryView;
use crate::builder::state::{
    cache_after, join_type_for, outcome_view, remembered_outcome, CompoundOperator, JoinType, PartsView, UpdateView, ValidationCache,
};
use crate::builder::placeholders::{lemma_build_view_counted, parts_clean, well_counted};
use crate::text::{decimal, lemma_parse_decimal};
use vstd::prelude::*;

verus! {

/// The handle text of a key reads back as that key.
pub proof fn lemma_handle_roundtrip(k: u64)
    ensures
        spec_parse_handle(decimal(k as nat)) == Ok::<u64, Seq<char>>(k),
{
    lemma_parse_decimal(k);
}

/// Reading the handle a state was just registered under gives back that state (with its
/// cached query and validation outcome cleared).
pub proof fn lemma_insert_then_get(old: RegistryView, p: PartsView, h: Seq<char>)
    requires
        h == decimal(old.next as nat),
    ensures
        handle_parts(inserted(old, p), h) == Ok::<PartsView, Seq<char>>(reset_caches(p)),
{
    lemma_parse_decimal(old.next);
}

/// A builder call never changes the state another handle names: every call registers its
/// result under a new handle.
pub proof fn lemma_builder_immutable(old: RegistryView, new: RegistryView, res: Result<PartsView, Seq<char>>, r: Result<String, String>, k: u64)
    requires
        applied(old, new, res, r),
        old.entries.contains_key(k),
        k != old.next,
    ensures
        new.entries.contains_key(k),
        new.entries[k] == old.entries[k],
{
}

/// Storing a state under the next handle, while the counter has not reached its largest
/// value, stores it under a key that named nothing and keeps every key below the next
/// handle.
pub proof fn lemma_store_keeps_keys_fresh(r: RegistryView, s: RegistryView, v: PartsView)
    requires
        r.keys_below_next(),
        r.next < u64::MAX,
        s.entries == r.entries.insert(r.next, v),
        s.next == r.next.wrapping_add(1),
    ensures
        !r.entries.contains_key(r.next),
        s.next == r.next + 1,
        s.keys_below_next(),
{
    assert forall|k: u64| #[trigger] s.entries.contains_key(k) implies k < s.next by {
        if k != r.next {
            assert(r.entries.contains_key(k));
        }
    }
}

/// Handles are fresh: while the counter has not wrapped, a builder call returns a handle
/// that named no state before, keeps every stored key below the next handle, and leaves
/// every stored state as it was.
pub proof fn lemma_builder_handles_fresh(old: RegistryView, new: RegistryView, res: Result<PartsView, Seq<char>>, r: Result<String, String>, k: u64)
    requires
        old.keys_below_next(),
        old.next < u64::MAX,
        applied(old, new, res, r),
    ensures
        res is Ok ==> !old.entries.contains_key(old.next),
        new.keys_below_next(),
        old.entries.contains_key(k) ==> new.entries.contains_key(k) && new.entries[k] == old.entries[k],
{
    if let Ok(p) = res {
        lemma_store_keeps_keys_fresh(old, new, reset_caches(p));
    }
}

/// Calls made after a clone never change the cloned builder or the clone: with the
/// counter short of its largest value, the clone and every later result get handles of
/// their own.
pub proof fn lemma_clone_then_call_keeps_both(r0: RegistryView, r1: RegistryView, r2: RegistryView, v: PartsView, res: Result<PartsView, Seq<char>>, r: Result<String, String>, k: u64)
    requires
        r0.keys_below_next(),
        r0.next < u64::MAX - 1,
        r0.entries.contains_key(k),
        r1.entries == r0.entries.insert(r0.next, v),
        r1.next == r0.next.wrapping_add(1),
        applied(r1, r2, res, r),
    ensures
        r2.entries.contains_key(k) && r2.entries[k] == r0.entries[k],
        r2.entries.contains_key(r0.next) && r2.entries[r0.next] == v,
{
    lemma_store_keeps_keys_fresh(r0, r1, v);
    lemma_builder_handles_fresh(r1, r2, res, r, k);
    lemma_builder_handles_fresh(r1, r2, res, r, r0.next);
}

/// Applying a batch of operations is applying its first part, then (if that succeeds)
/// its second part to the result.
pub proof fn lemma_apply_ops_concat(r: RegistryView, p: PartsView, a: Seq<BuilderOp>, b: Seq<BuilderOp>)
    ensures
        spec_apply_ops(r, p, a + b) == (match spec_apply_ops(r, p, a) {
            Err(e) => Err(e),
            Ok(q) => spec_apply_ops(r, q, b),
        }),
    decreases b.len(),
{
    if b.len() == 0 {
        assert(a + b =~= a);
        crate::builder::methods::lemma_apply_ops_none(r, p, b);
        assert(b.take(0) =~= b);
        match spec_apply_ops(r, p, a) {
            Err(_) => {},
            Ok(q) => {
                crate::builder::methods::lemma_apply_ops_none(r, q, b);
            },
        }
    } else {
        let b0 = b.drop_last();
        lemma_apply_ops_concat(r, p, a, b0);
        let ab = a + b;
        crate::builder::methods::lemma_apply_ops_step(r, p, ab, ab.len() - 1);
        assert(ab.take(ab.len() - 1) =~= a + b0);
        assert(ab.take(ab.len() as int) =~= ab);
        assert(ab[ab.len() - 1] == b.last());
        match spec_apply_ops(r, p, a) {
            Err(_) => {},
            Ok(q) => {
                crate::builder::methods::lemma_apply_ops_step(r, q, b, b.len() - 1);
                assert(b.take(b.len() - 1) =~= b0);
                assert(b.take(b.len() as int) =~= b);
            },
        }
    }
}

/// Once a builder's query has been asked for, asking again gives the same answer: the
/// same query, or the same error.
pub proof fn lemma_query_remembered(r: RegistryView, h: Seq<char>)
    ensures
        handle_query(registry_after_build(r, h), h) == handle_query(r, h),
{
    match spec_parse_handle(h) {
        Err(_) => {},
        Ok(k) => if r.entries.contains_key(k) {
            let p = r.entries[k];
            assert(registry_after_build(r, h).entries[k] == after_build(p));
        },
    }
}

/// The canonical keyword of every join type is recognised as that join type.
pub proof fn lemma_join_keyword_roundtrip(t: JoinType)
    ensures
        join_type_for(t.spec_as_sql()) == Some(t),
{
    reveal_strlit("INNER JOIN");
    reveal_strlit("INNER");
    reveal_strlit("LEFT JOIN");
    reveal_strlit("LEFT OUTER JOIN");
    reveal_strlit("LEFT");
    reveal_strlit("RIGHT JOIN");
    reveal_strlit("RIGHT OUTER JOIN");
    reveal_strlit("RIGHT");
    reveal_strlit("FULL OUTER JOIN");
    reveal_strlit("FULL JOIN");
    reveal_strlit("FULL OUTER");
    reveal_strlit("FULL");
    reveal_strlit("CROSS JOIN");
    reveal_strlit("CROSS");
    assert("INNER JOIN"@.len() != "INNER"@.len());
    assert("INNER JOIN"@.len() != "LEFT JOIN"@.len());
    assert("INNER JOIN"@.len() != "LEFT OUTER JOIN"@.len());
    assert("INNER JOIN"@.len() != "LEFT"@.len());
    assert("INNER JOIN"@[0] != "RIGHT JOIN"@[0]);
    assert("INNER JOIN"@.len() != "RIGHT OUTER JOIN"@.len());
    assert("INNER JOIN"@.len() != "RIGHT"@.len());
    assert("INNER JOIN"@.len() != "FULL OUTER JOIN"@.len());
    assert("INNER JOIN"@.len() != "FULL JOIN"@.len());
    assert("INNER JOIN"@[0] != "FULL OUTER"@[0]);
    assert("INNER JOIN"@.len() != "FULL"@.len());
    assert("INNER JOIN"@[0] != "CROSS JOIN"@[0]);
    assert("INNER JOIN"@.len() != "CROSS"@.len());
    assert("LEFT JOIN"@.len() != "INNER JOIN"@.len());
    assert("LEFT JOIN"@.len() != "INNER"@.len());
    assert("LEFT JOIN"@.len() != "LEFT OUTER JOIN"@.len());
    assert("LEFT JOIN"@.len() != "LEFT"@.len());
    assert("LEFT JOIN"@.len() != "RIGHT JOIN"@.len());
    assert("LEFT JOIN"@.len() != "RIGHT OUTER JOIN"@.len());
    assert("LEFT JOIN"@.len() != "RIGHT"@.len());
    assert("LEFT JOIN"@.len() != "FULL OUTER JOIN"@.len());
    assert("LEFT JOIN"@[0] != "FULL JOIN"@[0]);
    assert("LEFT JOIN"@.len() != "FULL OUTER"@.len());
    assert("LEFT JOIN"@.len() != "FULL"@.len());
    assert("LEFT JOIN"@.len() != "CROSS JOIN"@.len());
    assert("LEFT JOIN"@.len() != "CROSS"@.len());
    assert("RIGHT JOIN"@[0] != "INNER JOIN"@[0]);
    assert("RIGHT JOIN"@.len() != "INNER"@.len());
    assert("RIGHT JOIN"@.len() != "LEFT JOIN"@.len());
    assert("RIGHT JOIN"@.len() != "LEFT OUTER JOIN"@.len());
    assert("RIGHT JOIN"@.len() != "LEFT"@.len());
    assert("RIGHT JOIN"@.len() != "RIGHT OUTER JOIN"@.len());
    assert("RIGHT JOIN"@.len() != "RIGHT"@.len());
    assert("RIGHT JOIN"@.len() != "FULL OUTER JOIN"@.len());
    assert("RIGHT JOIN"@.len() != "FULL JOIN"@.len());
    assert("RIGHT JOIN"@[0] != "FULL OUTER"@[0]);
    assert("RIGHT JOIN"@.len() != "FULL"@.len());
    assert("RIGHT JOIN"@[0] != "CROSS JOIN"@[0]);
    assert("RIGHT JOIN"@.len() != "CROSS"@.len());
    assert("FULL OUTER JOIN"@.len() != "INNER JOIN"@.len());
    assert("FULL OUTER JOIN"@.len() != "INNER"@.len());
    assert("FULL OUTER JOIN"@.len() != "LEFT JOIN"@.len());
    assert("FULL OUTER JOIN"@[0] != "LEFT OUTER JOIN"@[0]);
    assert("FULL OUTER JOIN"@.len() != "LEFT"@.len());
    assert("FULL OUTER JOIN"@.len() != "RIGHT JOIN"@.len());
    assert("FULL OUTER JOIN"@.len() != "RIGHT OUTER JOIN"@.len());
    assert("FULL OUTER JOIN"@.len() != "RIGHT"@.len());
    assert("FULL OUTER JOIN"@.len() != "FULL JOIN"@.len());
    assert("FULL OUTER JOIN"@.len() != "FULL OUTER"@.len());
    assert("FULL OUTER JOIN"@.len() != "FULL"@.len());
    assert("FULL OUTER JOIN"@.len() != "CROSS JOIN"@.len());
    assert("FULL OUTER JOIN"@.len() != "CROSS"@.len());
    assert("CROSS JOIN"@[0] != "INNER JOIN"@[0]);
    assert("CROSS JOIN"@.len() != "INNER"@.len());
    assert("CROSS JOIN"@.len() != "LEFT JOIN"@.len());
    assert("CROSS JOIN"@.len() != "LEFT OUTER JOIN"@.len());
    assert("CROSS JOIN"@.len() != "LEFT"@.len());
    assert("CROSS JOIN"@[0] != "RIGHT JOIN"@[0]);
    assert("CROSS JOIN"@.len() != "RIGHT OUTER JOIN"@.len());
    assert("CROSS JOIN"@.len() != "RIGHT"@.len());
    assert("CROSS JOIN"@.len() != "FULL OUTER JOIN"@.len());
    assert("CROSS JOIN"@.len() != "FULL JOIN"@.len());
    assert("CROSS JOIN"@[0] != "FULL OUTER"@[0]);
    assert("CROSS JOIN"@.len() != "FULL"@.len());
    assert("CROSS JOIN"@.len() != "CROSS"@.len());
}

/// Compound operators have distinct keywords, each of which `from_keyword` accepts.
pub proof fn lemma_compound_keyword_roundtrip(a: CompoundOperator, b: CompoundOperator)
    ensures
        a.spec_as_sql() == b.spec_as_sql() ==> a == b,
        a.spec_as_sql() == "UNION"@ || a.spec_as_sql() == "UNION ALL"@ || a.spec_as_sql() == "INTERSECT"@
            || a.spec_as_sql() == "EXCEPT"@,
{
    reveal_strlit("UNION");
    reveal_strlit("UNION ALL");
    reveal_strlit("INTERSECT");
    reveal_strlit("EXCEPT");
    assert("UNION"@.len() != "UNION ALL"@.len());
    assert("UNION"@.len() != "INTERSECT"@.len());
    assert("UNION"@.len() != "EXCEPT"@.len());
    assert("UNION ALL"@[0] != "INTERSECT"@[0]);
    assert("UNION ALL"@.len() != "EXCEPT"@.len());
    assert("INTERSECT"@.len() != "EXCEPT"@.len());
}

/// Producing a builder's query, which fills that builder's caches, leaves the canonical
/// text of every handle as it was.
pub proof fn lemma_canonical_ignores_render_cache(r: RegistryView, built: Seq<char>, id: Seq<char>)
    ensures
        handle_canonical(registry_after_build(r, built), id) == handle_canonical(r, id),
{
    match spec_parse_handle(built) {
        Ok(k) => if r.entries.contains_key(k) {
            let p = r.entries[k];
            lemma_canonical_ignores_caches(p, after_build(p));
        },
        Err(_) => {},
    }
}

/// Two states that differ only in the order of their SET assignments, with no column set
/// twice and no assigned value that fails, have the same canonical text.
pub proof fn lemma_canonical_ignores_assignment_order(p: PartsView, q: PartsView)
    requires
        q == (PartsView { update: UpdateView { assignments: q.update.assignments, ..p.update }, ..p }),
        q.update.assignments.to_multiset() == p.update.assignments.to_multiset(),
        forall|i: int, j: int|
            0 <= i < p.update.assignments.len() && 0 <= j < p.update.assignments.len() && i != j
                ==> #[trigger] p.update.assignments[i].0 != #[trigger] p.update.assignments[j].0,
        assign_pairs(p.update.assignments, p.dialect) is Ok,
    ensures
        canonical_ir(q) == canonical_ir(p),
{
    lemma_assignment_order_irrelevant(p.update.assignments, q.update.assignments, p.dialect);
    match normalize_view(p) {
        Err(_) => {},
        Ok(n) => {
            assert(normalize_view(q) == Ok::<PartsView, Seq<char>>(PartsView { update: q.update, ..n }));
        },
    }
}


/// A validation cache remembers its first outcome: once a call has run the check and
/// returned `r`, the cache holds `r`, and every later call returns it again and leaves the
/// cache as it is (`get_or_try_init` returns a held outcome without running its check).
pub proof fn lemma_validation_outcome_remembered(c0: ValidationCache, res: Result<(), String>, c1: ValidationCache, r: Result<(), String>)
    requires
        cache_after(c0, res, c1, r),
    ensures
        remembered_outcome(c1) == Some(outcome_view(r)),
{
}

/// A clone has the same canonical text, and so the same hash, as the builder it copies;
/// when that builder's remembered query (if any) is its own build, the clone also stands
/// for the same query: the same text, raw text and values.
#[verifier::spinoff_prover]
pub proof fn lemma_clone_same_outputs(r0: RegistryView, r1: RegistryView, h: Seq<char>, k: u64)
    requires
        spec_parse_handle(h) == Ok::<u64, Seq<char>>(k),
        r0.entries.contains_key(k),
        r1.entries == r0.entries.insert(r0.next, PartsView { cached_query: None, ..r0.entries[k] }),
    ensures
        handle_canonical(r1, decimal(r0.next as nat)) == handle_canonical(r0, h),
        canonical_hash(r1.entries[r0.next]) == canonical_hash(r0.entries[k]),
        (r0.entries[k].cached_query matches Some(q) ==> build_outcome(r0.entries[k]) == Ok::<QueryView, Seq<char>>(q))
            ==> handle_query(r1, decimal(r0.next as nat)) == handle_query(r0, h),
{
    lemma_parse_decimal(r0.next);
    let p = r0.entries[k];
    let c = PartsView { cached_query: None, ..p };
    lemma_canonical_ignores_caches(p, c);
    assert(r1.entries[r0.next] == c);
    crate::builder::render::lemma_render_ignores_caches(p, c);
    assert(build_outcome(c) == build_outcome(p));
}

/// Builders that differ only in the values bound in their WHERE and HAVING predicates
/// (same predicate texts, operators and numbers of values) have the same canonical hash.
pub proof fn lemma_canonical_hash_ignores_bound_values(p: PartsView, q: PartsView)
    requires
        q == (PartsView { where_clauses: q.where_clauses, having_clauses: q.having_clauses, ..p }),
        same_clause_shapes(p.where_clauses, q.where_clauses),
        same_clause_shapes(p.having_clauses, q.having_clauses),
    ensures
        canonical_hash(q) == canonical_hash(p),
{
    lemma_canonical_ignores_bound_values(p, q);
}

/// Producing a builder's output (its query, text, raw text or values) builds the query at
/// most once: a successful build is remembered, so producing any output again changes
/// nothing and gives the same answer. Only the state the handle names changes; the
/// structural cache, the other handles and the next handle are left alone.
#[verifier::spinoff_prover]
pub proof fn lemma_outputs_build_once(r: RegistryView, h: Seq<char>)
    ensures
        registry_after_build(registry_after_build(r, h), h) == registry_after_build(r, h),
        handle_query(registry_after_build(r, h), h) == handle_query(r, h),
        registry_after_build(r, h).structural == r.structural,
        registry_after_build(r, h).capacity == r.capacity,
        registry_after_build(r, h).next == r.next,
        forall|k: u64| #![trigger registry_after_build(r, h).entries[k]]
            spec_parse_handle(h) != Ok::<u64, Seq<char>>(k) && r.entries.contains_key(k) ==>
                registry_after_build(r, h).entries.contains_key(k) && registry_after_build(r, h).entries[k] == r.entries[k],
        forall|k: u64| spec_parse_handle(h) == Ok::<u64, Seq<char>>(k) && r.entries.contains_key(k) && handle_query(r, h) is Ok ==>
            (#[trigger] registry_after_build(r, h).entries[k]).cached_query is Some,
{
    lemma_query_remembered(r, h);
    match spec_parse_handle(h) {
        Err(_) => {},
        Ok(k) => if r.entries.contains_key(k) {
            let p = r.entries[k];
            let a = after_build(p);
            assert(registry_after_build(r, h).entries[k] == a);
            if p.cached_query is None {
                let v = PartsView { validation: crate::builder::render::validated_cache(p), ..p };
                crate::builder::render::lemma_render_ignores_caches(p, v);
                assert(crate::builder::render::validated_cache(v) == v.validation);
                assert(build_outcome(v) == build_outcome(p));
            }
            assert(after_build(a) == a);
            assert(registry_after_build(registry_after_build(r, h), h).entries =~= registry_after_build(r, h).entries);
        },
    }
}

/// A builder's query binds exactly one value per `?` in its text, when the fragments its
/// state stores do and its names, identifiers and raw texts hold no `?` (see
/// [`parts_clean`]), and the query it remembers, if any, does too.
pub proof fn lemma_query_placeholders(p: PartsView)
    requires
        parts_clean(p),
        p.cached_query matches Some(q) ==> well_counted(q),
    ensures
        stored_query(p) matches Ok(q) ==> crate::backend::count_placeholders(q.text) == q.values.len(),
{
    lemma_build_view_counted(p);
}

} // verus!
