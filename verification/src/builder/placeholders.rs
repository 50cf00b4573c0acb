//! Placeholder counts: a rendered query binds one value per `?` in its text, when the
//! fragments it is built from do.
use crate::backend::count_placeholders;
use crate::builder::render::{
    assign_value, assignment_frag, assignments_frag, base_tail, base_view, body_view, build_view, clause_fold, clause_list,
    compose_clause, compounds_pushed, conflict_view, cte_frag, ctes_frag, ctes_keyword, delete_view, ident_frag, insert_keyword,
    insert_view, joined, joins_pushed, lock_text, name_frag, names_frag, normalize_view, normalized_render, pagination_of,
    prefixed_view, projection_view, pushed, render_view, row_frag, rows_frag, target_frag, update_view, value_frag,
    with_conflict, with_where,
};
use crate::builder::state::{
    ActionView, AssignView, CompoundOperator, CteView, DistinctView, InsertView, JoinType, LogicalOp, PartsView,
    SelectLockClause, StatementKind, TargetView, UpdateView,
};
use crate::sql::{identifier_text, join_frags, part_text, parts_nonempty, sql_frags, template_frags, array_fragment, surfaced};
use crate::text::{double_char, split_on};
use crate::types::{QueryView, ValueView};
use vstd::prelude::*;

verus! {

/// Text holding no `?`.
pub open spec fn no_marks(s: Seq<char>) -> bool {
    forall|i: int| 0 <= i < s.len() ==> #[trigger] s[i] != '?'
}

/// A fragment binding exactly one value per `?` in its text.
pub open spec fn well_counted(q: QueryView) -> bool {
    count_placeholders(q.text) == q.values.len()
}

pub proof fn lemma_count_concat(a: Seq<char>, b: Seq<char>)
    ensures
        count_placeholders(a + b) == count_placeholders(a) + count_placeholders(b),
    decreases b.len(),
{
    if b.len() > 0 {
        assert((a + b).drop_last() =~= a + b.drop_last());
        lemma_count_concat(a, b.drop_last());
    } else {
        assert(a + b =~= a);
    }
}

pub proof fn lemma_count_no_marks(s: Seq<char>)
    requires
        no_marks(s),
    ensures
        count_placeholders(s) == 0,
    decreases s.len(),
{
    if s.len() > 0 {
        assert(s.last() == s[s.len() - 1]);
        lemma_count_no_marks(s.drop_last());
    }
}

pub proof fn lemma_append(a: QueryView, b: QueryView)
    requires
        well_counted(a),
        well_counted(b),
    ensures
        well_counted(a.append(b)),
{
    lemma_count_concat(a.text, b.text);
}

pub proof fn lemma_then(a: QueryView, s: Seq<char>)
    requires
        well_counted(a),
        no_marks(s),
    ensures
        well_counted(a.then_text(s)),
{
    lemma_count_concat(a.text, s);
    lemma_count_no_marks(s);
}

pub proof fn lemma_lit(s: Seq<char>)
    requires
        no_marks(s),
    ensures
        well_counted(QueryView::lit(s)),
{
    lemma_count_no_marks(s);
}

pub proof fn lemma_no_marks_concat(a: Seq<char>, b: Seq<char>)
    requires
        no_marks(a),
        no_marks(b),
    ensures
        no_marks(a + b),
{
    assert forall|i: int| 0 <= i < (a + b).len() implies #[trigger] (a + b)[i] != '?' by {
        if i < a.len() {
            assert((a + b)[i] == a[i]);
        } else {
            assert((a + b)[i] == b[i - a.len()]);
        }
    }
}

/// The literal pieces the renderer writes hold no `?`.
pub proof fn lemma_literals_a()
    ensures
        no_marks(""@), no_marks(" "@), no_marks(", "@), no_marks("("@), no_marks(")"@), no_marks(") "@),
        no_marks(" ("@), no_marks("SELECT "@), no_marks("SELECT DISTINCT "@), no_marks("SELECT DISTINCT ON ("@),
        no_marks("WHERE "@), no_marks("GROUP BY "@), no_marks("HAVING "@), no_marks("ORDER BY "@),
        no_marks("RETURNING "@), no_marks(" = "@), no_marks("VALUES("@),
{
    reveal_strlit("");
    reveal_strlit(" ");
    reveal_strlit(", ");
    reveal_strlit("(");
    reveal_strlit(")");
    reveal_strlit(") ");
    reveal_strlit(" (");
    reveal_strlit("SELECT ");
    reveal_strlit("SELECT DISTINCT ");
    reveal_strlit("SELECT DISTINCT ON (");
    reveal_strlit("WHERE ");
    reveal_strlit("GROUP BY ");
    reveal_strlit("HAVING ");
    reveal_strlit("ORDER BY ");
    reveal_strlit("RETURNING ");
    reveal_strlit(" = ");
    reveal_strlit("VALUES(");
}

pub proof fn lemma_literals_b()
    ensures
        no_marks("INSERT INTO "@), no_marks("INSERT IGNORE INTO "@), no_marks(" VALUES "@),
        no_marks("ON CONFLICT "@), no_marks(" DO NOTHING"@), no_marks("ON CONFLICT DO NOTHING"@),
        no_marks("ON DUPLICATE KEY UPDATE "@), no_marks(" DO UPDATE SET "@), no_marks("ON CONSTRAINT "@),
        no_marks("UPDATE "@), no_marks(" SET "@), no_marks("DELETE FROM "@), no_marks(" AS ("@),
        no_marks("WITH "@), no_marks("WITH RECURSIVE "@), no_marks(" ON "@), no_marks(" USING ("@),
{
    reveal_strlit("INSERT INTO ");
    reveal_strlit("INSERT IGNORE INTO ");
    reveal_strlit(" VALUES ");
    reveal_strlit("ON CONFLICT ");
    reveal_strlit(" DO NOTHING");
    reveal_strlit("ON CONFLICT DO NOTHING");
    reveal_strlit("ON DUPLICATE KEY UPDATE ");
    reveal_strlit(" DO UPDATE SET ");
    reveal_strlit("ON CONSTRAINT ");
    reveal_strlit("UPDATE ");
    reveal_strlit(" SET ");
    reveal_strlit("DELETE FROM ");
    reveal_strlit(" AS (");
    reveal_strlit("WITH ");
    reveal_strlit("WITH RECURSIVE ");
    reveal_strlit(" ON ");
    reveal_strlit(" USING (");
}

pub proof fn lemma_keywords(j: JoinType, c: CompoundOperator, o: LogicalOp, l: SelectLockClause)
    ensures
        no_marks(j.spec_as_sql()), no_marks(c.spec_as_sql()), no_marks(o.spec_as_str()), no_marks(lock_text(l)),
{
    reveal_strlit("INNER JOIN");
    reveal_strlit("LEFT JOIN");
    reveal_strlit("RIGHT JOIN");
    reveal_strlit("FULL OUTER JOIN");
    reveal_strlit("CROSS JOIN");
    reveal_strlit("UNION");
    reveal_strlit("UNION ALL");
    reveal_strlit("INTERSECT");
    reveal_strlit("EXCEPT");
    reveal_strlit("AND");
    reveal_strlit("OR");
    reveal_strlit("FOR UPDATE");
    reveal_strlit("FOR SHARE");
    reveal_strlit("NOWAIT");
    reveal_strlit("SKIP LOCKED");
    reveal_strlit(" ");
    match l.modifier {
        Some(m) => {
            lemma_no_marks_concat(l.strength.spec_as_sql(), " "@);
            lemma_no_marks_concat(l.strength.spec_as_sql() + " "@, m.spec_as_sql());
        },
        None => {},
    }
}

pub proof fn lemma_empty()
    ensures
        well_counted(QueryView::empty()),
{
}

pub proof fn lemma_pushed(b: QueryView, prefix: Seq<char>, f: QueryView)
    requires
        well_counted(b),
        well_counted(f),
        no_marks(prefix),
    ensures
        well_counted(pushed(b, prefix, f)),
{
    lemma_literals_a();
    let b1 = if b.text.len() > 0 { b.then_text(" "@) } else { b };
    if b.text.len() > 0 {
        lemma_then(b, " "@);
    }
    lemma_then(b1, prefix);
    lemma_append(b1.then_text(prefix), f);
}

/// Every fragment of a list is well counted.
pub open spec fn all_counted(qs: Seq<QueryView>) -> bool {
    forall|i: int| 0 <= i < qs.len() ==> well_counted(#[trigger] qs[i])
}

/// Every fragment a list of outcomes succeeds with is well counted.
pub open spec fn ok_counted(fs: Seq<Result<QueryView, Seq<char>>>) -> bool {
    forall|i: int| 0 <= i < fs.len() ==> (#[trigger] fs[i] matches Ok(q) ==> well_counted(q))
}

pub proof fn lemma_joined(qs: Seq<QueryView>, sep: Seq<char>)
    requires
        all_counted(qs),
        no_marks(sep),
    ensures
        well_counted(joined(qs, sep)),
    decreases qs.len(),
{
    if qs.len() > 0 {
        let d = qs.drop_last();
        assert(all_counted(d)) by {
            assert forall|i: int| 0 <= i < d.len() implies well_counted(#[trigger] d[i]) by {
                assert(d[i] == qs[i]);
            }
        }
        lemma_joined(d, sep);
        let prev = joined(d, sep);
        if qs.len() > 1 {
            lemma_then(prev, sep);
        }
        let prev2 = if qs.len() > 1 { prev.then_text(sep) } else { prev };
        assert(well_counted(qs[qs.len() - 1]));
        lemma_append(prev2, qs.last());
    }
}

pub proof fn lemma_join_frags(fs: Seq<Result<QueryView, Seq<char>>>, sep: Seq<char>)
    requires
        ok_counted(fs),
        no_marks(sep),
    ensures
        join_frags(fs, sep) matches Ok(q) ==> well_counted(q),
    decreases fs.len(),
{
    if fs.len() > 0 {
        let d = fs.drop_last();
        assert(ok_counted(d)) by {
            assert forall|i: int| 0 <= i < d.len() implies (#[trigger] d[i] matches Ok(q) ==> well_counted(q)) by {
                assert(d[i] == fs[i]);
            }
        }
        lemma_join_frags(d, sep);
        match join_frags(d, sep) {
            Err(_) => {},
            Ok(q) => {
                if fs.len() > 1 {
                    lemma_then(q, sep);
                }
                let q2 = if fs.len() > 1 { q.then_text(sep) } else { q };
                assert(fs.last() == fs[fs.len() - 1]);
                match fs.last() {
                    Ok(f) => lemma_append(q2, f),
                    Err(_) => {},
                }
            },
        }
    }
}

/// Every predicate of a clause list is well counted.
pub open spec fn clauses_counted(cs: Seq<(QueryView, LogicalOp)>) -> bool {
    forall|i: int| 0 <= i < cs.len() ==> well_counted((#[trigger] cs[i]).0)
}

pub proof fn lemma_clause_fold(cs: Seq<(QueryView, LogicalOp)>)
    requires
        cs.len() > 0,
        clauses_counted(cs),
    ensures
        well_counted(clause_fold(cs)),
    decreases cs.len(),
{
    assert(well_counted(cs[0].0));
    if cs.len() > 1 {
        let d = cs.drop_last();
        assert(clauses_counted(d)) by {
            assert forall|i: int| 0 <= i < d.len() implies well_counted((#[trigger] d[i]).0) by {
                assert(d[i] == cs[i]);
            }
        }
        lemma_clause_fold(d);
        let e = cs.last();
        assert(well_counted(cs[cs.len() - 1].0));
        lemma_literals_a();
        lemma_keywords(JoinType::Inner, CompoundOperator::Union, e.1, SelectLockClause { strength: crate::builder::state::LockStrength::Update, modifier: None });
        lemma_no_marks_concat(") "@, e.1.spec_as_str());
        lemma_no_marks_concat(") "@ + e.1.spec_as_str(), " ("@);
        lemma_lit("("@);
        lemma_append(QueryView::lit("("@), clause_fold(d));
        lemma_then(QueryView::lit("("@).append(clause_fold(d)), ") "@ + e.1.spec_as_str() + " ("@);
        lemma_append(QueryView::lit("("@).append(clause_fold(d)).then_text(") "@ + e.1.spec_as_str() + " ("@), e.0);
        lemma_then(QueryView::lit("("@).append(clause_fold(d)).then_text(") "@ + e.1.spec_as_str() + " ("@).append(e.0), ")"@);
    }
}

pub proof fn lemma_clause_list(cs: Seq<(QueryView, LogicalOp)>)
    requires
        clauses_counted(cs),
    ensures
        clause_list(cs) matches Some(q) ==> well_counted(q),
{
    if cs.len() > 0 {
        lemma_clause_fold(cs);
    }
}

pub proof fn lemma_joins_pushed(b: QueryView, js: Seq<QueryView>)
    requires
        well_counted(b),
        all_counted(js),
    ensures
        well_counted(joins_pushed(b, js)),
    decreases js.len(),
{
    if js.len() > 0 {
        let d = js.drop_last();
        assert(all_counted(d)) by {
            assert forall|i: int| 0 <= i < d.len() implies well_counted(#[trigger] d[i]) by {
                assert(d[i] == js[i]);
            }
        }
        lemma_joins_pushed(b, d);
        assert(well_counted(js[js.len() - 1]));
        lemma_literals_a();
        lemma_pushed(joins_pushed(b, d), ""@, js.last());
    }
}

/// Every query of a compound list is well counted.
pub open spec fn compounds_counted(cs: Seq<(CompoundOperator, QueryView)>) -> bool {
    forall|i: int| 0 <= i < cs.len() ==> well_counted((#[trigger] cs[i]).1)
}

pub proof fn lemma_compounds_pushed(b: QueryView, cs: Seq<(CompoundOperator, QueryView)>)
    requires
        well_counted(b),
        compounds_counted(cs),
    ensures
        well_counted(compounds_pushed(b, cs)),
    decreases cs.len(),
{
    if cs.len() > 0 {
        let d = cs.drop_last();
        assert(compounds_counted(d)) by {
            assert forall|i: int| 0 <= i < d.len() implies well_counted((#[trigger] d[i]).1) by {
                assert(d[i] == cs[i]);
            }
        }
        lemma_compounds_pushed(b, d);
        let prev = compounds_pushed(b, d);
        lemma_literals_a();
        if prev.text.len() > 0 {
            lemma_then(prev, " "@);
        }
        let prev2 = if prev.text.len() > 0 { prev.then_text(" "@) } else { prev };
        let e = cs.last();
        assert(well_counted(cs[cs.len() - 1].1));
        lemma_keywords(JoinType::Inner, e.0, LogicalOp::And, SelectLockClause { strength: crate::builder::state::LockStrength::Update, modifier: None });
        lemma_then(prev2, e.0.spec_as_sql());
        lemma_then(prev2.then_text(e.0.spec_as_sql()), " ("@);
        lemma_append(prev2.then_text(e.0.spec_as_sql()).then_text(" ("@), e.1);
        lemma_then(prev2.then_text(e.0.spec_as_sql()).then_text(" ("@).append(e.1), ")"@);
    }
}

/// Every name (or identifier part) of a list holds no `?`.
pub open spec fn names_clean(ns: Seq<Seq<char>>) -> bool {
    forall|i: int| 0 <= i < ns.len() ==> no_marks(#[trigger] ns[i])
}

proof fn lemma_double_char_clean(s: Seq<char>, q: char)
    requires
        no_marks(s),
        q != '?',
    ensures
        no_marks(double_char(s, q)),
    decreases s.len(),
{
    if s.len() > 0 {
        assert(no_marks(s.drop_first())) by {
            assert forall|i: int| 0 <= i < s.drop_first().len() implies #[trigger] s.drop_first()[i] != '?' by {
                assert(s.drop_first()[i] == s[i + 1]);
            }
        }
        lemma_double_char_clean(s.drop_first(), q);
        let head = if s[0] == q { seq![q, q] } else { seq![s[0]] };
        assert(no_marks(head));
        lemma_no_marks_concat(head, double_char(s.drop_first(), q));
    }
}

proof fn lemma_identifier_clean(parts: Seq<Seq<char>>)
    requires
        names_clean(parts),
    ensures
        no_marks(identifier_text(parts, true)),
    decreases parts.len(),
{
    if parts.len() > 0 {
        let d = parts.drop_last();
        assert(names_clean(d)) by {
            assert forall|i: int| 0 <= i < d.len() implies no_marks(#[trigger] d[i]) by {
                assert(d[i] == parts[i]);
            }
        }
        lemma_identifier_clean(d);
        let prev = identifier_text(d, true);
        let prev2 = if parts.len() > 1 { prev.push('.') } else { prev };
        if parts.len() > 1 {
            assert(prev.push('.') == prev + seq!['.']);
            lemma_no_marks_concat(prev, seq!['.']);
        }
        assert(no_marks(parts[parts.len() - 1]));
        lemma_double_char_clean(parts.last(), '"');
        lemma_no_marks_concat(seq!['"'], double_char(parts.last(), '"'));
        lemma_no_marks_concat(seq!['"'] + double_char(parts.last(), '"'), seq!['"']);
        lemma_no_marks_concat(prev2, part_text(parts.last(), true));
    }
}

pub proof fn lemma_ident_frag(parts: Seq<Seq<char>>)
    requires
        names_clean(parts),
    ensures
        ident_frag(parts) matches Ok(q) ==> well_counted(q),
{
    lemma_identifier_clean(parts);
    lemma_count_no_marks(identifier_text(parts, true));
}

pub proof fn lemma_name_frag(c: Seq<char>)
    requires
        no_marks(c),
    ensures
        name_frag(c) matches Ok(q) ==> well_counted(q),
{
    assert(names_clean(seq![c]));
    lemma_ident_frag(seq![c]);
}

pub proof fn lemma_names_frag(cols: Seq<Seq<char>>)
    requires
        names_clean(cols),
    ensures
        names_frag(cols) matches Ok(q) ==> well_counted(q),
{
    let fs = cols.map_values(|c: Seq<char>| name_frag(c));
    assert(ok_counted(fs)) by {
        assert forall|i: int| 0 <= i < fs.len() implies (#[trigger] fs[i] matches Ok(q) ==> well_counted(q)) by {
            assert(no_marks(cols[i]));
            lemma_name_frag(cols[i]);
        }
    }
    lemma_literals_a();
    lemma_join_frags(fs, ", "@);
}

pub proof fn lemma_template_frags(strings: Seq<Seq<char>>, fs: Seq<Result<QueryView, Seq<char>>>, k: nat)
    requires
        names_clean(strings),
        ok_counted(fs),
        k <= strings.len(),
    ensures
        template_frags(strings, fs, k) matches Ok(q) ==> well_counted(q),
    decreases k,
{
    if k > 0 {
        lemma_template_frags(strings, fs, (k - 1) as nat);
        match template_frags(strings, fs, (k - 1) as nat) {
            Err(_) => {},
            Ok(q) => {
                assert(no_marks(strings[k - 1]));
                lemma_then(q, strings[k - 1]);
                if k - 1 < fs.len() {
                    match fs[k - 1] {
                        Ok(f) => lemma_append(q.then_text(strings[k - 1]), f),
                        Err(_) => {},
                    }
                }
            },
        }
    }
}

/// Every value of an assignment list renders well counted (for dialect `d`), and every
/// assigned column name holds no `?`.
pub open spec fn assignments_counted(asg: Seq<(Seq<char>, AssignView)>, d: crate::dialect::Dialect) -> bool {
    forall|i: int| 0 <= i < asg.len() ==> {
        &&& no_marks((#[trigger] asg[i]).0)
        &&& (assign_value(asg[i].1, d) matches Ok(Ok(q)) ==> well_counted(q))
    }
}

pub proof fn lemma_assignment_frag(a: (Seq<char>, AssignView), d: crate::dialect::Dialect)
    requires
        no_marks(a.0),
        assign_value(a.1, d) matches Ok(Ok(q)) ==> well_counted(q),
    ensures
        assignment_frag(a, d) matches Ok(q) ==> well_counted(q),
{
    if a.0.len() > 0 {
        match assign_value(a.1, d) {
            Err(_) => {},
            Ok(vf) => {
                lemma_literals_a();
                let strings = seq![""@, " = "@, ""@];
                let fs = seq![name_frag(a.0), vf];
                assert(names_clean(strings)) by {
                    assert forall|i: int| 0 <= i < strings.len() implies no_marks(#[trigger] strings[i]) by {
                        assert(i == 0 || i == 1 || i == 2);
                    }
                }
                lemma_name_frag(a.0);
                assert(ok_counted(fs)) by {
                    assert forall|i: int| 0 <= i < fs.len() implies (#[trigger] fs[i] matches Ok(q) ==> well_counted(q)) by {
                        assert(i == 0 || i == 1);
                    }
                }
                lemma_template_frags(strings, fs, 3);
            },
        }
    }
}

pub proof fn lemma_assignments_frag(asg: Seq<(Seq<char>, AssignView)>, d: crate::dialect::Dialect)
    requires
        assignments_counted(asg, d),
    ensures
        assignments_frag(asg, d) matches Ok(q) ==> well_counted(q),
{
    let fs = asg.map_values(|a: (Seq<char>, AssignView)| assignment_frag(a, d));
    assert(ok_counted(fs)) by {
        assert forall|i: int| 0 <= i < fs.len() implies (#[trigger] fs[i] matches Ok(q) ==> well_counted(q)) by {
            let a = asg[i];
            assert(no_marks(a.0));
            lemma_assignment_frag(a, d);
        }
    }
    lemma_literals_a();
    lemma_join_frags(fs, ", "@);
}

proof fn lemma_mark_count()
    ensures
        count_placeholders("?"@) == 1,
        no_marks(", "@),
{
    reveal_strlit("?");
    reveal_strlit(", ");
    assert("?"@.drop_last() =~= Seq::<char>::empty());
    assert(count_placeholders(Seq::<char>::empty()) == 0);
    assert("?"@.len() == 1 && "?"@.last() == '?');
    assert(count_placeholders("?"@) == count_placeholders("?"@.drop_last()) + 1);
}

pub proof fn lemma_array_fragment(arr: Seq<crate::types::Primitive>)
    ensures
        well_counted(array_fragment(arr)),
    decreases arr.len(),
{
    if arr.len() > 0 {
        lemma_array_fragment(arr.drop_last());
        let prev = array_fragment(arr.drop_last());
        lemma_mark_count();
        if arr.len() > 1 {
            lemma_then(prev, ", "@);
        }
        let prev2 = if arr.len() > 1 { prev.then_text(", "@) } else { prev };
        lemma_count_concat(prev2.text, "?"@);
    }
}

/// A value whose fragment is well counted: a stored query that is, an identifier or raw
/// text without `?`, or a bound value or array.
pub open spec fn value_clean(v: ValueView) -> bool {
    match v {
        ValueView::Query(q) => well_counted(q),
        ValueView::Identifier(parts) => names_clean(parts),
        ValueView::Raw(t) => no_marks(t),
        _ => true,
    }
}

pub proof fn lemma_value_frag(v: ValueView)
    requires
        value_clean(v),
    ensures
        value_frag(v) matches Ok(q) ==> well_counted(q),
{
    match v {
        ValueView::Identifier(parts) => lemma_ident_frag(parts),
        ValueView::Raw(t) => lemma_lit(t),
        ValueView::Array(arr) => lemma_array_fragment(arr),
        ValueView::Primitive(p) => lemma_mark_count(),
        _ => {},
    }
}

/// Every value of every row is clean.
pub open spec fn rows_clean(rows: Seq<Seq<ValueView>>) -> bool {
    forall|i: int, j: int| 0 <= i < rows.len() && 0 <= j < rows[i].len() ==> value_clean(#[trigger] rows[i][j])
}

pub proof fn lemma_row_frag(row: Seq<ValueView>)
    requires
        forall|j: int| 0 <= j < row.len() ==> value_clean(#[trigger] row[j]),
    ensures
        row_frag(row) matches Ok(q) ==> well_counted(q),
{
    let fs = row.map_values(|v: ValueView| value_frag(v));
    assert(ok_counted(fs)) by {
        assert forall|i: int| 0 <= i < fs.len() implies (#[trigger] fs[i] matches Ok(q) ==> well_counted(q)) by {
            lemma_value_frag(row[i]);
        }
    }
    lemma_literals_a();
    lemma_join_frags(fs, ", "@);
    match join_frags(fs, ", "@) {
        Err(_) => {},
        Ok(j) => {
            lemma_lit("("@);
            lemma_append(QueryView::lit("("@), j);
            lemma_then(QueryView::lit("("@).append(j), ")"@);
        },
    }
}

pub proof fn lemma_rows_frag(rows: Seq<Seq<ValueView>>)
    requires
        rows_clean(rows),
    ensures
        rows_frag(rows) matches Ok(q) ==> well_counted(q),
{
    let fs = rows.map_values(|row: Seq<ValueView>| row_frag(row));
    assert(ok_counted(fs)) by {
        assert forall|i: int| 0 <= i < fs.len() implies (#[trigger] fs[i] matches Ok(q) ==> well_counted(q)) by {
            let row = rows[i];
            assert forall|j: int| 0 <= j < row.len() implies value_clean(#[trigger] row[j]) by {
                assert(value_clean(rows[i][j]));
            }
            lemma_row_frag(row);
        }
    }
    lemma_literals_a();
    lemma_join_frags(fs, ", "@);
}

proof fn lemma_split_clean(s: Seq<char>, d: char)
    requires
        no_marks(s),
    ensures
        names_clean(split_on(s, d)),
    decreases s.len(),
{
    if s.len() > 0 {
        let t = s.drop_first();
        assert(no_marks(t)) by {
            assert forall|i: int| 0 <= i < t.len() implies #[trigger] t[i] != '?' by {
                assert(t[i] == s[i + 1]);
            }
        }
        lemma_split_clean(t, d);
        crate::text::lemma_split_on_nonempty(t, d);
        let rest = split_on(t, d);
        if s[0] == d {
            let r = seq![Seq::<char>::empty()] + rest;
            assert forall|i: int| 0 <= i < r.len() implies no_marks(#[trigger] r[i]) by {
                if i > 0 {
                    assert(r[i] == rest[i - 1]);
                }
            }
        } else {
            assert(no_marks(rest[0]));
            assert(no_marks(seq![s[0]]));
            lemma_no_marks_concat(seq![s[0]], rest[0]);
            let r = rest.update(0, seq![s[0]] + rest[0]);
            assert forall|i: int| 0 <= i < r.len() implies no_marks(#[trigger] r[i]) by {
                if i > 0 {
                    assert(r[i] == rest[i]);
                }
            }
        }
    }
}

pub proof fn lemma_table_frag(t: Seq<char>)
    requires
        no_marks(t),
    ensures
        ident_frag(split_on(t, '.')) matches Ok(q) ==> well_counted(q),
{
    lemma_split_clean(t, '.');
    lemma_ident_frag(split_on(t, '.'));
}

/// What an insert's rendering reads holds the property: its table, columns and conflict
/// target names hold no `?`, its select query and conflict predicate are well counted,
/// its values are clean and its conflict assignments render well counted.
pub open spec fn insert_clean(ins: InsertView, d: crate::dialect::Dialect) -> bool {
    &&& (ins.into matches Some(t) ==> no_marks(t))
    &&& names_clean(ins.column_names)
    &&& rows_clean(ins.rows)
    &&& (ins.select matches Some(q) ==> well_counted(q))
    &&& match ins.conflict.target {
        Some(TargetView::Columns(cols)) => names_clean(cols),
        Some(TargetView::Constraint(c)) => no_marks(c),
        None => true,
    }
    &&& (ins.conflict.action matches Some(ActionView::DoUpdate { assignments, predicate }) ==>
        assignments_counted(assignments, d) && (predicate matches Some(p) ==> well_counted(p)))
}

pub proof fn lemma_target_frag(t: Option<TargetView>)
    requires
        match t {
            Some(TargetView::Columns(cols)) => names_clean(cols),
            Some(TargetView::Constraint(c)) => no_marks(c),
            None => true,
        },
    ensures
        target_frag(t) matches Ok(Some(q)) ==> well_counted(q),
{
    lemma_literals_a();
    lemma_literals_b();
    match t {
        Some(TargetView::Columns(cols)) => {
            lemma_names_frag(cols);
            if let Ok(j) = names_frag(cols) {
                lemma_lit("("@);
                lemma_append(QueryView::lit("("@), j);
                lemma_then(QueryView::lit("("@).append(j), ")"@);
            }
        },
        Some(TargetView::Constraint(c)) => {
            lemma_name_frag(c);
            if let Ok(n) = name_frag(c) {
                lemma_lit("ON CONSTRAINT "@);
                lemma_append(QueryView::lit("ON CONSTRAINT "@), n);
            }
        },
        None => {},
    }
}

pub proof fn lemma_conflict_view(ins: InsertView, d: crate::dialect::Dialect)
    requires
        insert_clean(ins, d),
    ensures
        conflict_view(ins, d) matches Ok(Some(q)) ==> well_counted(q),
{
    lemma_literals_a();
    lemma_literals_b();
    lemma_target_frag(ins.conflict.target);
    match ins.conflict.action {
        None => {},
        Some(action) => match target_frag(ins.conflict.target) {
            Err(_) => {},
            Ok(t) => match action {
                ActionView::DoNothing => match t {
                    Some(tq) => {
                        lemma_lit("ON CONFLICT "@);
                        lemma_append(QueryView::lit("ON CONFLICT "@), tq);
                        lemma_then(QueryView::lit("ON CONFLICT "@).append(tq), " DO NOTHING"@);
                    },
                    None => lemma_lit("ON CONFLICT DO NOTHING"@),
                },
                ActionView::DoUpdate { assignments, predicate } => {
                    lemma_assignments_frag(assignments, d);
                    match assignments_frag(assignments, d) {
                        Err(_) => {},
                        Ok(a) => {
                            lemma_lit("ON DUPLICATE KEY UPDATE "@);
                            lemma_append(QueryView::lit("ON DUPLICATE KEY UPDATE "@), a);
                            match t {
                                None => {},
                                Some(tq) => {
                                    lemma_lit("ON CONFLICT "@);
                                    lemma_append(QueryView::lit("ON CONFLICT "@), tq);
                                    lemma_then(QueryView::lit("ON CONFLICT "@).append(tq), " DO UPDATE SET "@);
                                    let c = QueryView::lit("ON CONFLICT "@).append(tq).then_text(" DO UPDATE SET "@).append(a);
                                    lemma_append(QueryView::lit("ON CONFLICT "@).append(tq).then_text(" DO UPDATE SET "@), a);
                                    match predicate {
                                        Some(p) => lemma_pushed(c, "WHERE "@, p),
                                        None => {},
                                    }
                                },
                            }
                        },
                    }
                },
            },
        },
    }
}

pub proof fn lemma_with_conflict(q: QueryView, ins: InsertView, d: crate::dialect::Dialect)
    requires
        well_counted(q),
        insert_clean(ins, d),
    ensures
        with_conflict(q, ins, d) matches Ok(r) ==> well_counted(r),
{
    lemma_literals_a();
    lemma_conflict_view(ins, d);
    if let Ok(Some(c)) = conflict_view(ins, d) {
        lemma_pushed(q, ""@, c);
    }
}

pub proof fn lemma_insert_view(ins: InsertView, d: crate::dialect::Dialect)
    requires
        insert_clean(ins, d),
    ensures
        insert_view(ins, d) matches Ok(q) ==> well_counted(q),
{
    lemma_literals_a();
    lemma_literals_b();
    match ins.into {
        None => {},
        Some(table) => {
            lemma_table_frag(table);
            match ident_frag(split_on(table, '.')) {
                Err(_) => {},
                Ok(tid) => {
                    lemma_names_frag(ins.column_names);
                    let colf: Result<QueryView, Seq<char>> = if ins.column_names.len() > 0 {
                        match names_frag(ins.column_names) {
                            Err(e) => Err(e),
                            Ok(j) => Ok(QueryView::lit(" ("@).append(j).then_text(")"@)),
                        }
                    } else {
                        Ok(QueryView::empty())
                    };
                    if let Ok(j) = names_frag(ins.column_names) {
                        lemma_lit(" ("@);
                        lemma_append(QueryView::lit(" ("@), j);
                        lemma_then(QueryView::lit(" ("@).append(j), ")"@);
                    }
                    match colf {
                        Err(_) => {},
                        Ok(cf) => {
                            let kw = insert_keyword(ins, d);
                            assert(no_marks(kw));
                            lemma_lit(kw);
                            lemma_append(QueryView::lit(kw), tid);
                            lemma_append(QueryView::lit(kw).append(tid), cf);
                            let head = QueryView::lit(kw).append(tid).append(cf);
                            match ins.select {
                                Some(sel) => {
                                    lemma_then(head, " "@);
                                    lemma_append(head.then_text(" "@), sel);
                                    lemma_with_conflict(head.then_text(" "@).append(sel), ins, d);
                                },
                                None => {
                                    lemma_rows_frag(ins.rows);
                                    if let Ok(vl) = rows_frag(ins.rows) {
                                        lemma_then(head, " VALUES "@);
                                        lemma_append(head.then_text(" VALUES "@), vl);
                                        lemma_with_conflict(head.then_text(" VALUES "@).append(vl), ins, d);
                                    }
                                },
                            }
                        },
                    }
                },
            }
        },
    }
}

pub proof fn lemma_with_where(head: QueryView, cs: Seq<(QueryView, LogicalOp)>)
    requires
        well_counted(head),
        clauses_counted(cs),
    ensures
        well_counted(with_where(head, cs)),
{
    lemma_literals_a();
    lemma_clause_list(cs);
    if let Some(w) = clause_list(cs) {
        lemma_then(head, " "@);
        lemma_then(head.then_text(" "@), "WHERE "@);
        lemma_append(head.then_text(" "@).then_text("WHERE "@), w);
    }
}

pub proof fn lemma_update_view(u: UpdateView, cs: Seq<(QueryView, LogicalOp)>)
    requires
        u.table matches Some(t) ==> no_marks(t),
        assignments_counted(u.assignments, crate::dialect::Dialect::Postgres),
        clauses_counted(cs),
    ensures
        update_view(u, cs) matches Ok(q) ==> well_counted(q),
{
    lemma_literals_b();
    if let Some(t) = u.table {
        lemma_table_frag(t);
        lemma_assignments_frag(u.assignments, crate::dialect::Dialect::Postgres);
        if let (Ok(tid), Ok(a)) = (ident_frag(split_on(t, '.')), assignments_frag(u.assignments, crate::dialect::Dialect::Postgres)) {
            lemma_lit("UPDATE "@);
            lemma_append(QueryView::lit("UPDATE "@), tid);
            lemma_then(QueryView::lit("UPDATE "@).append(tid), " SET "@);
            lemma_append(QueryView::lit("UPDATE "@).append(tid).then_text(" SET "@), a);
            lemma_with_where(QueryView::lit("UPDATE "@).append(tid).then_text(" SET "@).append(a), cs);
        }
    }
}

pub proof fn lemma_delete_view(table: Seq<char>, cs: Seq<(QueryView, LogicalOp)>)
    requires
        no_marks(table),
        clauses_counted(cs),
    ensures
        delete_view(table, cs) matches Ok(q) ==> well_counted(q),
{
    lemma_literals_b();
    lemma_table_frag(table);
    if let Ok(tid) = ident_frag(split_on(table, '.')) {
        lemma_lit("DELETE FROM "@);
        lemma_append(QueryView::lit("DELETE FROM "@), tid);
        lemma_with_where(QueryView::lit("DELETE FROM "@).append(tid), cs);
    }
}

proof fn lemma_pagination_literals()
    ensures
        no_marks("OFFSET "@), no_marks(" ROWS"@), no_marks("LIMIT "@), no_marks("TOP ("@),
        no_marks(" OFFSET "@), no_marks(" ROWS FETCH NEXT "@), no_marks(" ROWS ONLY"@),
{
    reveal_strlit("OFFSET ");
    reveal_strlit(" ROWS");
    reveal_strlit("LIMIT ");
    reveal_strlit("TOP (");
    reveal_strlit(" OFFSET ");
    reveal_strlit(" ROWS FETCH NEXT ");
    reveal_strlit(" ROWS ONLY");
}

proof fn lemma_single(prefix: Seq<char>, n: u32, suffix: Seq<char>)
    requires
        no_marks(prefix),
        no_marks(suffix),
    ensures
        well_counted(crate::dialect::single_fragment(prefix, n, suffix)),
{
    lemma_mark_count();
    lemma_count_no_marks(prefix);
    lemma_count_no_marks(suffix);
    lemma_count_concat(prefix, "?"@);
    lemma_count_concat(prefix + "?"@, suffix);
}

proof fn lemma_pair(prefix: Seq<char>, a: u32, middle: Seq<char>, b: u32, suffix: Seq<char>)
    requires
        no_marks(prefix),
        no_marks(middle),
        no_marks(suffix),
    ensures
        well_counted(crate::dialect::pair_fragment(prefix, a, middle, b, suffix)),
{
    lemma_mark_count();
    lemma_count_no_marks(prefix);
    lemma_count_no_marks(middle);
    lemma_count_no_marks(suffix);
    lemma_count_concat(prefix, "?"@);
    lemma_count_concat(prefix + "?"@, middle);
    lemma_count_concat(prefix + "?"@ + middle, "?"@);
    lemma_count_concat(prefix + "?"@ + middle + "?"@, suffix);
}

pub proof fn lemma_pagination(p: PartsView)
    ensures
        pagination_of(p).0 matches Some(q) ==> well_counted(q),
        pagination_of(p).1 matches Some(q) ==> well_counted(q),
{
    lemma_literals_a();
    lemma_pagination_literals();
    match (p.pagination.limit, p.pagination.offset) {
        (None, None) => {},
        (None, Some(o)) => {
            lemma_single("OFFSET "@, o, ""@);
            lemma_single("OFFSET "@, o, " ROWS"@);
        },
        (Some(l), None) => {
            lemma_single("LIMIT "@, l, ""@);
            lemma_single("TOP ("@, l, ")"@);
        },
        (Some(l), Some(o)) => {
            lemma_pair("LIMIT "@, l, " OFFSET "@, o, ""@);
            lemma_pair("OFFSET "@, o, " ROWS FETCH NEXT "@, l, " ROWS ONLY"@);
        },
    }
}

/// Every identifier of a list has parts without `?`.
pub open spec fn idents_clean(ids: Seq<Seq<Seq<char>>>) -> bool {
    forall|i: int| 0 <= i < ids.len() ==> names_clean(#[trigger] ids[i])
}

/// A builder state whose stored fragments bind one value per `?` and whose names,
/// identifiers and raw texts hold no `?`: the fragments it stores (projection, source,
/// joins, pending join, WHERE and HAVING predicates, ORDER BY items, DISTINCT ON
/// expressions, CTE queries, compound parts, RETURNING, insert select and conflict
/// predicate) are well counted; its names (CTE names and columns, GROUP BY identifiers,
/// USING columns, insert, update and delete tables, insert and conflict columns) hold no
/// `?`; its insert values are clean; and its assignments render well counted.
pub open spec fn parts_clean(p: PartsView) -> bool {
    &&& (p.select matches Some(q) ==> well_counted(q))
    &&& (p.from matches Some(q) ==> well_counted(q))
    &&& all_counted(p.joins)
    &&& (p.pending_join matches Some(pj) ==> well_counted(pj.source)
        && (pj.predicate matches Some(q) ==> well_counted(q)) && idents_clean(pj.using))
    &&& clauses_counted(p.where_clauses)
    &&& clauses_counted(p.having_clauses)
    &&& all_counted(p.order_by)
    &&& (p.distinct matches Some(DistinctView::On(es)) ==> all_counted(es))
    &&& idents_clean(p.group_by)
    &&& (forall|i: int| 0 <= i < p.ctes.len() ==> {
        &&& no_marks((#[trigger] p.ctes[i]).name)
        &&& names_clean(p.ctes[i].columns)
        &&& well_counted(p.ctes[i].query)
    })
    &&& compounds_counted(p.compounds)
    &&& (p.returning matches Some(q) ==> well_counted(q))
    &&& insert_clean(p.insert, p.dialect)
    &&& (p.update.table matches Some(t) ==> no_marks(t))
    &&& assignments_counted(p.update.assignments, crate::dialect::Dialect::Postgres)
    &&& (p.delete_from matches Some(t) ==> no_marks(t))
}

pub proof fn lemma_prefixed(prefix: Seq<char>, middle: Option<QueryView>, tail: QueryView)
    requires
        no_marks(prefix),
        middle matches Some(m) ==> well_counted(m),
        well_counted(tail),
    ensures
        well_counted(prefixed_view(prefix, middle, tail)),
{
    lemma_literals_a();
    lemma_lit(prefix);
    match middle {
        Some(m) => {
            lemma_append(QueryView::lit(prefix), m);
            lemma_then(QueryView::lit(prefix).append(m), " "@);
            lemma_append(QueryView::lit(prefix).append(m).then_text(" "@), tail);
        },
        None => lemma_append(QueryView::lit(prefix), tail),
    }
}

pub proof fn lemma_projection(p: PartsView, sp: Option<QueryView>)
    requires
        parts_clean(p),
        sp matches Some(q) ==> well_counted(q),
    ensures
        projection_view(p, sp) matches Ok(q) ==> well_counted(q),
{
    lemma_literals_a();
    if let Some(sel) = p.select {
        match p.distinct {
            None => lemma_prefixed("SELECT "@, sp, sel),
            Some(DistinctView::Distinct) => lemma_prefixed("SELECT DISTINCT "@, sp, sel),
            Some(DistinctView::On(es)) => {
                lemma_joined(es, ", "@);
                lemma_lit("SELECT DISTINCT ON ("@);
                lemma_append(QueryView::lit("SELECT DISTINCT ON ("@), joined(es, ", "@));
                lemma_then(QueryView::lit("SELECT DISTINCT ON ("@).append(joined(es, ", "@)), ") "@);
                lemma_append(QueryView::lit("SELECT DISTINCT ON ("@).append(joined(es, ", "@)).then_text(") "@), sel);
            },
        }
    }
}

pub proof fn lemma_base_tail(p: PartsView, b: QueryView, tc: Option<QueryView>)
    requires
        parts_clean(p),
        well_counted(b),
        tc matches Some(q) ==> well_counted(q),
    ensures
        well_counted(base_tail(p, b, tc)),
{
    lemma_literals_a();
    lemma_clause_list(p.having_clauses);
    let b1 = match clause_list(p.having_clauses) {
        Some(h) => pushed(b, "HAVING "@, h),
        None => b,
    };
    if let Some(h) = clause_list(p.having_clauses) {
        lemma_pushed(b, "HAVING "@, h);
    }
    lemma_joined(p.order_by, ", "@);
    let b2 = if p.order_by.len() > 0 { pushed(b1, "ORDER BY "@, joined(p.order_by, ", "@)) } else { b1 };
    if p.order_by.len() > 0 {
        lemma_pushed(b1, "ORDER BY "@, joined(p.order_by, ", "@));
    }
    let b3 = match tc {
        Some(t) => pushed(b2, ""@, t),
        None => b2,
    };
    if let Some(t) = tc {
        lemma_pushed(b2, ""@, t);
    }
    if let Some(l) = p.lock {
        lemma_keywords(JoinType::Inner, CompoundOperator::Union, LogicalOp::And, l);
        lemma_lit(lock_text(l));
        lemma_pushed(b3, ""@, QueryView::lit(lock_text(l)));
    }
}

#[verifier::spinoff_prover]
pub proof fn lemma_base_view(p: PartsView, sp: Option<QueryView>, tc: Option<QueryView>)
    requires
        parts_clean(p),
        sp matches Some(q) ==> well_counted(q),
        tc matches Some(q) ==> well_counted(q),
    ensures
        base_view(p, sp, tc) matches Ok(q) ==> well_counted(q),
{
    lemma_literals_a();
    lemma_projection(p, sp);
    if let Ok(proj) = projection_view(p, sp) {
        lemma_empty();
        lemma_pushed(QueryView::empty(), ""@, proj);
        let b0 = pushed(QueryView::empty(), ""@, proj);
        let b1 = match p.from {
            Some(f) => pushed(b0, ""@, f),
            None => b0,
        };
        if let Some(f) = p.from {
            lemma_pushed(b0, ""@, f);
        }
        lemma_joins_pushed(b1, p.joins);
        let b2 = joins_pushed(b1, p.joins);
        lemma_clause_list(p.where_clauses);
        let b3 = match clause_list(p.where_clauses) {
            Some(w) => pushed(b2, "WHERE "@, w),
            None => b2,
        };
        if let Some(w) = clause_list(p.where_clauses) {
            lemma_pushed(b2, "WHERE "@, w);
        }
        if p.group_by.len() > 0 {
            let fs = p.group_by.map_values(|id: Seq<Seq<char>>| ident_frag(id));
            assert(ok_counted(fs)) by {
                assert forall|i: int| 0 <= i < fs.len() implies (#[trigger] fs[i] matches Ok(q) ==> well_counted(q)) by {
                    assert(names_clean(p.group_by[i]));
                    lemma_ident_frag(p.group_by[i]);
                }
            }
            lemma_join_frags(fs, ", "@);
            if let Ok(g) = join_frags(fs, ", "@) {
                lemma_pushed(b3, "GROUP BY "@, g);
                lemma_base_tail(p, pushed(b3, "GROUP BY "@, g), tc);
            }
        } else {
            lemma_base_tail(p, b3, tc);
        }
    }
}

#[verifier::spinoff_prover]
pub proof fn lemma_body_view(p: PartsView, sp: Option<QueryView>, tc: Option<QueryView>)
    requires
        parts_clean(p),
        sp matches Some(q) ==> well_counted(q),
        tc matches Some(q) ==> well_counted(q),
    ensures
        body_view(p, sp, tc) matches Ok(q) ==> well_counted(q),
{
    lemma_literals_a();
    lemma_insert_view(p.insert, p.dialect);
    lemma_update_view(p.update, p.where_clauses);
    if let Some(t) = p.delete_from {
        lemma_delete_view(t, p.where_clauses);
    }
    lemma_base_view(p, sp, tc);
    let body = match p.statement {
        Some(StatementKind::Insert) => insert_view(p.insert, p.dialect),
        Some(StatementKind::Update) => update_view(p.update, p.where_clauses),
        Some(StatementKind::Delete) => match p.delete_from {
            None => Err("Cannot build DELETE query without a target table"@),
            Some(t) => delete_view(t, p.where_clauses),
        },
        _ => base_view(p, sp, tc),
    };
    assert(body matches Ok(b) ==> well_counted(b));
    if let (Ok(b), Some(r)) = (body, p.returning) {
        lemma_pushed(b, "RETURNING "@, r);
    }
}

pub proof fn lemma_cte_frag(c: CteView, aliases_required: bool)
    requires
        no_marks(c.name),
        names_clean(c.columns),
        well_counted(c.query),
    ensures
        cte_frag(c, aliases_required) matches Ok(q) ==> well_counted(q),
{
    lemma_literals_a();
    lemma_literals_b();
    lemma_name_frag(c.name);
    lemma_names_frag(c.columns);
    if let Ok(n) = name_frag(c.name) {
        let head: Result<QueryView, Seq<char>> = if c.recursive && aliases_required && c.columns.len() > 0 {
            match names_frag(c.columns) {
                Err(e) => Err(e),
                Ok(cols) => Ok(pushed(n, "("@, cols).then_text(")"@)),
            }
        } else {
            Ok(n)
        };
        if let Ok(cols) = names_frag(c.columns) {
            lemma_pushed(n, "("@, cols);
            lemma_then(pushed(n, "("@, cols), ")"@);
        }
        if let Ok(h) = head {
            lemma_then(h, " AS ("@);
            lemma_append(h.then_text(" AS ("@), c.query);
            lemma_then(h.then_text(" AS ("@).append(c.query), ")"@);
        }
    }
}

pub proof fn lemma_ctes_frag(ctes: Seq<CteView>, aliases_required: bool)
    requires
        forall|i: int| 0 <= i < ctes.len() ==> {
            &&& no_marks((#[trigger] ctes[i]).name)
            &&& names_clean(ctes[i].columns)
            &&& well_counted(ctes[i].query)
        },
    ensures
        ctes_frag(ctes, aliases_required) matches Ok(q) ==> well_counted(q),
{
    let fs = ctes.map_values(|c: CteView| cte_frag(c, aliases_required));
    assert(ok_counted(fs)) by {
        assert forall|i: int| 0 <= i < fs.len() implies (#[trigger] fs[i] matches Ok(q) ==> well_counted(q)) by {
            let c = ctes[i];
            assert(no_marks(c.name));
            lemma_cte_frag(c, aliases_required);
        }
    }
    lemma_literals_a();
    lemma_join_frags(fs, ", "@);
}

#[verifier::spinoff_prover]
pub proof fn lemma_render_view(p: PartsView, sp: Option<QueryView>, tc: Option<QueryView>)
    requires
        parts_clean(p),
        sp matches Some(q) ==> well_counted(q),
        tc matches Some(q) ==> well_counted(q),
    ensures
        render_view(p, sp, tc) matches Ok(q) ==> well_counted(q),
{
    lemma_literals_a();
    lemma_literals_b();
    lemma_empty();
    let aliases = crate::dialect::spec_capabilities(p.dialect).recursive_ctes.column_aliases_required;
    lemma_ctes_frag(p.ctes, aliases);
    let start: Result<QueryView, Seq<char>> = if p.ctes.len() > 0 {
        match ctes_frag(p.ctes, aliases) {
            Err(e) => Err(e),
            Ok(j) => Ok(pushed(QueryView::empty(), ctes_keyword(p.ctes, p.dialect), j)),
        }
    } else {
        Ok(QueryView::empty())
    };
    if let Ok(j) = ctes_frag(p.ctes, aliases) {
        assert(no_marks(ctes_keyword(p.ctes, p.dialect)));
        lemma_pushed(QueryView::empty(), ctes_keyword(p.ctes, p.dialect), j);
    }
    lemma_body_view(p, sp, tc);
    if let (Ok(b), Ok(body)) = (start, body_view(p, sp, tc)) {
        lemma_pushed(b, ""@, body);
        lemma_compounds_pushed(pushed(b, ""@, body), p.compounds);
    }
}

#[verifier::spinoff_prover]
pub proof fn lemma_normalize_clean(p: PartsView)
    requires
        parts_clean(p),
    ensures
        normalize_view(p) matches Ok(n) ==> parts_clean(n),
{
    if let Some(pj) = p.pending_join {
        lemma_literals_a();
        lemma_literals_b();
        lemma_keywords(pj.join_type, CompoundOperator::Union, LogicalOp::And, SelectLockClause { strength: crate::builder::state::LockStrength::Update, modifier: None });
        lemma_no_marks_concat(pj.join_type.spec_as_sql(), " "@);
        let kw = QueryView::lit(pj.join_type.spec_as_sql() + " "@).append(pj.source);
        lemma_lit(pj.join_type.spec_as_sql() + " "@);
        lemma_append(QueryView::lit(pj.join_type.spec_as_sql() + " "@), pj.source);
        let fs = pj.using.map_values(|id: Seq<Seq<char>>| ident_frag(id));
        assert(ok_counted(fs)) by {
            assert forall|i: int| 0 <= i < fs.len() implies (#[trigger] fs[i] matches Ok(q) ==> well_counted(q)) by {
                assert(names_clean(pj.using[i]));
                lemma_ident_frag(pj.using[i]);
            }
        }
        lemma_join_frags(fs, ", "@);
        let clause: Result<QueryView, Seq<char>> = match pj.predicate {
            Some(pred) => Ok(kw.then_text(" ON "@).append(pred)),
            None => match join_frags(fs, ", "@) {
                Err(m) => Err(crate::sql::validation_msg(m)),
                Ok(u) => Ok(kw.then_text(" USING ("@).append(u).then_text(")"@)),
            },
        };
        match pj.predicate {
            Some(pred) => {
                lemma_then(kw, " ON "@);
                lemma_append(kw.then_text(" ON "@), pred);
            },
            None => if let Ok(u) = join_frags(fs, ", "@) {
                lemma_then(kw, " USING ("@);
                lemma_append(kw.then_text(" USING ("@), u);
                lemma_then(kw.then_text(" USING ("@).append(u), ")"@);
            },
        }
        if let Ok(c) = clause {
            let js = p.joins.push(c);
            assert(all_counted(js)) by {
                assert forall|i: int| 0 <= i < js.len() implies well_counted(#[trigger] js[i]) by {
                    if i < p.joins.len() {
                        assert(js[i] == p.joins[i]);
                    }
                }
            }
        }
    }
}

/// The query a state builds binds one value per `?` in its text, given a state whose
/// stored fragments do and whose names hold no `?` (see [`parts_clean`]).
pub proof fn lemma_build_view_counted(p: PartsView)
    requires
        parts_clean(p),
    ensures
        build_view(p) matches Ok(q) ==> well_counted(q),
{
    lemma_pagination(p);
    lemma_normalize_clean(p);
    if let Ok(n) = normalize_view(p) {
        lemma_render_view(n, pagination_of(p).0, pagination_of(p).1);
    }
}

} // verus!
