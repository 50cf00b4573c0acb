//! The canonical form of a builder state: a JSON text that depends only on what the
//! query means (not on handles, caches or the order in which SET assignments were
//! given), and its BLAKE3 digest.
use crate::builder::compact::{hex, hex_digit, json_escape_char, json_escaped, json_string, push_json_string};
use crate::builder::registry::{handle_parts, Registry, RegistryView};
use crate::builder::render::{normalize_pending_join, normalize_view};
use crate::builder::state::{PartsView, QueryParts};
use crate::dialect::{dialect_key, Dialect};
use crate::expr_node::{eval_expr_for_dialect, spec_eval};
use crate::text::{chars_of, decimal, push_char, push_decimal, push_str};
use crate::types::Duplicate;
use crate::builder::state::{
    ActionView, AssignView, AssignmentValue, InsertConflictAction, InsertState, InsertView, UpdateAssignment,
    UpdateState, UpdateView,
    CompoundOperator, CteDefinition, CteView, DistinctMode, DistinctView, InsertConflictTarget, LockModifier,
    LockStrength, LogicalOp, SelectLockClause, StatementKind, TargetView, WhereEntry, CompoundPart,
};
use crate::types::{Primitive, QueryView, SqlIdentifier, SqlQuery, SqlValue, ValueView};
use vstd::prelude::*;
use vstd::relations::{sorted_by, total_ordering};

verus! {

// ─── JSON arrays of canonical texts ──────────────────────────────────────────

/// Texts separated by commas.
pub open spec fn joined(items: Seq<Seq<char>>) -> Seq<char>
    decreases items.len(),
{
    if items.len() == 0 {
        Seq::empty()
    } else if items.len() == 1 {
        items[0]
    } else {
        joined(items.drop_last()) + seq![','] + items.last()
    }
}

/// A JSON array of the given element texts.
pub open spec fn array_text(items: Seq<Seq<char>>) -> Seq<char> {
    seq!['['] + joined(items) + seq![']']
}

/// Values that have a canonical JSON text, a function of their deep view.
pub trait CanonJson: DeepView + Sized {
    spec fn canon(v: Self::V) -> Seq<char>;

    fn push_canon(&self, out: &mut String)
        ensures
            final(out)@ == old(out)@ + Self::canon(self.deep_view()),
    ;
}

/// The canonical JSON array of a list of values.
pub open spec fn array_of<T: CanonJson>(vs: Seq<T::V>) -> Seq<char> {
    array_text(vs.map_values(|v: T::V| T::canon(v)))
}

proof fn lemma_joined_take(texts: Seq<Seq<char>>, i: int)
    requires
        0 <= i < texts.len(),
    ensures
        joined(texts.take(i + 1)) == if i == 0 { texts[0] } else { joined(texts.take(i)) + seq![','] + texts[i] },
{
    assert(texts.take(i + 1).drop_last() =~= texts.take(i));
}

fn push_array<T: CanonJson>(out: &mut String, items: &Vec<T>)
    ensures
        final(out)@ == old(out)@ + array_of::<T>(items.deep_view()),
{
    let ghost start = out@;
    let ghost texts = items.deep_view().map_values(|v: T::V| T::canon(v));
    push_char(out, '[');
    let mut i: usize = 0;
    while i < items.len()
        invariant
            i <= items.len(),
            texts == items.deep_view().map_values(|v: T::V| T::canon(v)),
            out@ == start + seq!['['] + joined(texts.take(i as int)),
        decreases items.len() - i,
    {
        let ghost before = out@;
        if i > 0 {
            push_char(out, ',');
        }
        items[i].push_canon(out);
        proof {
            lemma_joined_take(texts, i as int);
            assert(texts[i as int] == T::canon(items[i as int].deep_view()));
            if i == 0 {
                assert(out@ =~= start + seq!['['] + joined(texts.take(1)));
            } else {
                assert(out@ =~= start + seq!['['] + joined(texts.take(i + 1)));
            }
        }
        i += 1;
    }
    push_char(out, ']');
    proof {
        assert(texts.take(items.len() as int) =~= texts);
        assert(out@ =~= start + array_of::<T>(items.deep_view()));
    }
}

// ─── Leaf values ─────────────────────────────────────────────────────────────

/// `null`.
pub open spec fn null_text() -> Seq<char> {
    "null"@
}

/// `true` or `false`.
pub open spec fn bool_text(b: bool) -> Seq<char> {
    if b { "true"@ } else { "false"@ }
}

fn push_bool(out: &mut String, b: bool)
    ensures
        final(out)@ == old(out)@ + bool_text(b),
{
    if b {
        push_str(out, "true");
    } else {
        push_str(out, "false");
    }
}

/// A compiled fragment, by its parameterised text and its number of bound values.
pub open spec fn query_text(q: QueryView) -> Seq<char> {
    "{\"text\":"@ + json_string(q.text) + ",\"value_count\":"@ + decimal(q.values.len()) + "}"@
}

/// An optional fragment.
pub open spec fn opt_query_text(q: Option<QueryView>) -> Seq<char> {
    match q {
        None => null_text(),
        Some(q) => query_text(q),
    }
}

/// An optional string.
pub open spec fn opt_string_text(s: Option<Seq<char>>) -> Seq<char> {
    match s {
        None => null_text(),
        Some(s) => json_string(s),
    }
}

/// An optional count.
pub open spec fn opt_u32_text(n: Option<u32>) -> Seq<char> {
    match n {
        None => null_text(),
        Some(n) => decimal(n as nat),
    }
}

fn push_opt_u32(out: &mut String, n: Option<u32>)
    ensures
        final(out)@ == old(out)@ + opt_u32_text(n),
{
    match n {
        None => push_str(out, "null"),
        Some(n) => push_decimal(out, n as u64),
    }
}

fn push_opt_string(out: &mut String, s: &Option<String>)
    ensures
        final(out)@ == old(out)@ + opt_string_text(s.deep_view()),
{
    match s {
        None => push_str(out, "null"),
        Some(s) => push_json_string(out, s.as_str()),
    }
}

fn push_opt_query(out: &mut String, q: &Option<SqlQuery>)
    ensures
        final(out)@ == old(out)@ + opt_query_text(q.deep_view()),
{
    match q {
        None => push_str(out, "null"),
        Some(q) => q.push_canon(out),
    }
}

impl CanonJson for String {
    open spec fn canon(v: Seq<char>) -> Seq<char> {
        json_string(v)
    }

    fn push_canon(&self, out: &mut String) {
        push_json_string(out, self.as_str());
    }
}

impl CanonJson for SqlQuery {
    open spec fn canon(v: QueryView) -> Seq<char> {
        query_text(v)
    }

    fn push_canon(&self, out: &mut String) {
        let ghost start = out@;
        push_str(out, "{\"text\":");
        push_json_string(out, self.text.as_str());
        push_str(out, ",\"value_count\":");
        push_decimal(out, self.values.len() as u64);
        push_str(out, "}");
        assert(out@ =~= start + query_text(self@));
    }
}

/// The name of a primitive's kind.
pub open spec fn primitive_kind(p: Primitive) -> Seq<char> {
    match p {
        Primitive::Null => "null"@,
        Primitive::Bool(_) => "bool"@,
        Primitive::Number(_) => "number"@,
        Primitive::String(_) => "string"@,
        Primitive::BigInt(_) => "bigInt"@,
        Primitive::Date(_) => "date"@,
    }
}

fn kind_name(p: &Primitive) -> (r: &'static str)
    ensures
        r@ == primitive_kind(*p),
{
    match p {
        Primitive::Null => "null",
        Primitive::Bool(_) => "bool",
        Primitive::Number(_) => "number",
        Primitive::String(_) => "string",
        Primitive::BigInt(_) => "bigInt",
        Primitive::Date(_) => "date",
    }
}

impl CanonJson for Primitive {
    open spec fn canon(v: Primitive) -> Seq<char> {
        json_string(primitive_kind(v))
    }

    fn push_canon(&self, out: &mut String) {
        push_json_string(out, kind_name(self));
    }
}

/// An identifier, as its wire form: `{"__kind":"identifier","parts":[…]}`.
pub open spec fn identifier_text(parts: Seq<Seq<char>>) -> Seq<char> {
    "{\"__kind\":\"identifier\",\"parts\":"@ + array_of::<String>(parts) + "}"@
}

impl CanonJson for SqlIdentifier {
    open spec fn canon(v: Seq<Seq<char>>) -> Seq<char> {
        identifier_text(v)
    }

    fn push_canon(&self, out: &mut String) {
        let ghost start = out@;
        push_str(out, "{\"__kind\":\"identifier\",\"parts\":");
        push_array(out, &self.parts);
        push_str(out, "}");
        assert(out@ =~= start + identifier_text(self.deep_view()));
    }
}

// ─── Values ──────────────────────────────────────────────────────────────────

/// A value, tagged by its kind; bound values are represented by their kinds only.
pub open spec fn value_text(v: ValueView) -> Seq<char> {
    match v {
        ValueView::Array(items) => "{\"kind\":\"array\",\"len\":"@ + decimal(items.len()) + ",\"element_kinds\":"@
            + array_of::<Primitive>(items) + "}"@,
        ValueView::Query(q) => "{\"kind\":\"query\",\"text\":"@ + json_string(q.text) + ",\"value_count\":"@
            + decimal(q.values.len()) + "}"@,
        ValueView::Identifier(parts) => "{\"kind\":\"identifier\",\"parts\":"@ + array_of::<String>(parts) + "}"@,
        ValueView::Raw(t) => "{\"kind\":\"raw\",\"text\":"@ + json_string(t) + "}"@,
        ValueView::Primitive(p) => "{\"kind\":\"primitive\",\"primitive\":"@ + json_string(primitive_kind(p)) + "}"@,
    }
}

fn push_query_value(out: &mut String, q: &SqlQuery)
    ensures
        final(out)@ == old(out)@ + value_text(ValueView::Query(q@)),
{
    let ghost start = out@;
    push_str(out, "{\"kind\":\"query\",\"text\":");
    push_json_string(out, q.text.as_str());
    push_str(out, ",\"value_count\":");
    push_decimal(out, q.values.len() as u64);
    push_str(out, "}");
    assert(out@ =~= start + value_text(ValueView::Query(q@)));
}

impl CanonJson for SqlValue {
    open spec fn canon(v: ValueView) -> Seq<char> {
        value_text(v)
    }

    fn push_canon(&self, out: &mut String) {
        let ghost start = out@;
        match self {
            SqlValue::Array(items) => {
                push_str(out, "{\"kind\":\"array\",\"len\":");
                push_decimal(out, items.len() as u64);
                push_str(out, ",\"element_kinds\":");
                push_array(out, items);
                push_str(out, "}");
                assert(items.deep_view() =~= items@);
            },
            SqlValue::Query(q) => push_query_value(out, q),
            SqlValue::Identifier(id) => {
                push_str(out, "{\"kind\":\"identifier\",\"parts\":");
                push_array(out, &id.parts);
                push_str(out, "}");
            },
            SqlValue::Raw(r) => {
                push_str(out, "{\"kind\":\"raw\",\"text\":");
                push_json_string(out, r.text.as_str());
                push_str(out, "}");
            },
            SqlValue::Primitive(p) => {
                push_str(out, "{\"kind\":\"primitive\",\"primitive\":");
                push_json_string(out, kind_name(p));
                push_str(out, "}");
            },
        }
        assert(out@ =~= start + value_text(self.deep_view()));
    }
}

impl CanonJson for Vec<SqlValue> {
    open spec fn canon(v: Seq<ValueView>) -> Seq<char> {
        array_of::<SqlValue>(v)
    }

    fn push_canon(&self, out: &mut String) {
        push_array(out, self);
    }
}

// ─── Clauses ─────────────────────────────────────────────────────────────────

/// A common table expression.
pub open spec fn cte_text(c: CteView) -> Seq<char> {
    "{\"name\":"@ + json_string(c.name) + ",\"recursive\":"@ + bool_text(c.recursive) + ",\"columns\":"@
        + array_of::<String>(c.columns) + ",\"query\":"@ + query_text(c.query) + "}"@
}

impl CanonJson for CteDefinition {
    open spec fn canon(v: CteView) -> Seq<char> {
        cte_text(v)
    }

    fn push_canon(&self, out: &mut String) {
        let ghost start = out@;
        push_str(out, "{\"name\":");
        push_json_string(out, self.name.as_str());
        push_str(out, ",\"recursive\":");
        push_bool(out, self.recursive);
        push_str(out, ",\"columns\":");
        push_array(out, &self.columns);
        push_str(out, ",\"query\":");
        self.query.push_canon(out);
        push_str(out, "}");
        assert(out@ =~= start + cte_text(self.deep_view()));
    }
}

/// The name of a logical operator.
pub open spec fn op_name(op: LogicalOp) -> Seq<char> {
    match op {
        LogicalOp::And => "and"@,
        LogicalOp::Or => "or"@,
    }
}

/// A WHERE or HAVING predicate with the operator joining it on.
pub open spec fn clause_text(c: (QueryView, LogicalOp)) -> Seq<char> {
    "{\"op\":"@ + json_string(op_name(c.1)) + ",\"pred\":"@ + query_text(c.0) + "}"@
}

impl CanonJson for WhereEntry {
    open spec fn canon(v: (QueryView, LogicalOp)) -> Seq<char> {
        clause_text(v)
    }

    fn push_canon(&self, out: &mut String) {
        let ghost start = out@;
        push_str(out, "{\"op\":");
        match self.op {
            LogicalOp::And => push_json_string(out, "and"),
            LogicalOp::Or => push_json_string(out, "or"),
        }
        push_str(out, ",\"pred\":");
        self.pred.push_canon(out);
        push_str(out, "}");
        assert(out@ =~= start + clause_text(self.deep_view()));
    }
}

/// The name of a compound operator.
pub open spec fn compound_name(op: CompoundOperator) -> Seq<char> {
    match op {
        CompoundOperator::Union => "union"@,
        CompoundOperator::UnionAll => "unionAll"@,
        CompoundOperator::Intersect => "intersect"@,
        CompoundOperator::Except => "except"@,
    }
}

/// One part of a compound query.
pub open spec fn compound_text(c: (CompoundOperator, QueryView)) -> Seq<char> {
    "{\"operator\":"@ + json_string(compound_name(c.0)) + ",\"query\":"@ + query_text(c.1) + "}"@
}

impl CanonJson for CompoundPart {
    open spec fn canon(v: (CompoundOperator, QueryView)) -> Seq<char> {
        compound_text(v)
    }

    fn push_canon(&self, out: &mut String) {
        let ghost start = out@;
        push_str(out, "{\"operator\":");
        let name = match self.operator {
            CompoundOperator::Union => "union",
            CompoundOperator::UnionAll => "unionAll",
            CompoundOperator::Intersect => "intersect",
            CompoundOperator::Except => "except",
        };
        push_json_string(out, name);
        push_str(out, ",\"query\":");
        self.query.push_canon(out);
        push_str(out, "}");
        assert(out@ =~= start + compound_text(self.deep_view()));
    }
}

/// The statement kind, if one was chosen.
pub open spec fn statement_text(s: Option<StatementKind>) -> Seq<char> {
    match s {
        None => null_text(),
        Some(StatementKind::Select) => json_string("select"@),
        Some(StatementKind::Insert) => json_string("insert"@),
        Some(StatementKind::Update) => json_string("update"@),
        Some(StatementKind::Delete) => json_string("delete"@),
    }
}

fn push_statement(out: &mut String, s: Option<StatementKind>)
    ensures
        final(out)@ == old(out)@ + statement_text(s),
{
    match s {
        None => push_str(out, "null"),
        Some(StatementKind::Select) => push_json_string(out, "select"),
        Some(StatementKind::Insert) => push_json_string(out, "insert"),
        Some(StatementKind::Update) => push_json_string(out, "update"),
        Some(StatementKind::Delete) => push_json_string(out, "delete"),
    }
}

/// DISTINCT, DISTINCT ON, or nothing.
pub open spec fn distinct_text(d: Option<DistinctView>) -> Seq<char> {
    match d {
        None => null_text(),
        Some(DistinctView::Distinct) => "{\"kind\":\"distinct\"}"@,
        Some(DistinctView::On(es)) => "{\"kind\":\"on\",\"expressions\":"@ + array_of::<SqlQuery>(es) + "}"@,
    }
}

fn push_distinct(out: &mut String, d: &Option<DistinctMode>)
    ensures
        final(out)@ == old(out)@ + distinct_text(d.deep_view()),
{
    let ghost start = out@;
    match d {
        None => push_str(out, "null"),
        Some(DistinctMode::Distinct) => push_str(out, "{\"kind\":\"distinct\"}"),
        Some(DistinctMode::On(es)) => {
            push_str(out, "{\"kind\":\"on\",\"expressions\":");
            push_array(out, es);
            push_str(out, "}");
            assert(out@ =~= start + distinct_text(d.deep_view()));
        },
    }
}

/// The row lock, if any.
pub open spec fn lock_text(l: Option<SelectLockClause>) -> Seq<char> {
    match l {
        None => null_text(),
        Some(l) => "{\"strength\":"@ + json_string(
            match l.strength {
                LockStrength::Update => "update"@,
                LockStrength::Share => "share"@,
            },
        ) + ",\"modifier\":"@ + match l.modifier {
            None => null_text(),
            Some(LockModifier::NoWait) => json_string("noWait"@),
            Some(LockModifier::SkipLocked) => json_string("skipLocked"@),
        } + "}"@,
    }
}

fn push_lock(out: &mut String, l: Option<SelectLockClause>)
    ensures
        final(out)@ == old(out)@ + lock_text(l),
{
    let ghost start = out@;
    match l {
        None => push_str(out, "null"),
        Some(l) => {
            push_str(out, "{\"strength\":");
            match l.strength {
                LockStrength::Update => push_json_string(out, "update"),
                LockStrength::Share => push_json_string(out, "share"),
            }
            push_str(out, ",\"modifier\":");
            match l.modifier {
                None => push_str(out, "null"),
                Some(LockModifier::NoWait) => push_json_string(out, "noWait"),
                Some(LockModifier::SkipLocked) => push_json_string(out, "skipLocked"),
            }
            push_str(out, "}");
            assert(out@ =~= start + lock_text(Some(l)));
        },
    }
}

/// The conflict target of an insert, if any.
pub open spec fn target_text(t: Option<TargetView>) -> Seq<char> {
    match t {
        None => null_text(),
        Some(TargetView::Columns(cs)) => "{\"kind\":\"columns\",\"columns\":"@ + array_of::<String>(cs) + "}"@,
        Some(TargetView::Constraint(n)) => "{\"kind\":\"constraint\",\"name\":"@ + json_string(n) + "}"@,
    }
}

fn push_target(out: &mut String, t: &Option<InsertConflictTarget>)
    ensures
        final(out)@ == old(out)@ + target_text(t.deep_view()),
{
    let ghost start = out@;
    match t {
        None => push_str(out, "null"),
        Some(InsertConflictTarget::Columns(cs)) => {
            push_str(out, "{\"kind\":\"columns\",\"columns\":");
            push_array(out, cs);
            push_str(out, "}");
            assert(out@ =~= start + target_text(t.deep_view()));
        },
        Some(InsertConflictTarget::Constraint(n)) => {
            push_str(out, "{\"kind\":\"constraint\",\"name\":");
            push_json_string(out, n.as_str());
            push_str(out, "}");
            assert(out@ =~= start + target_text(t.deep_view()));
        },
    }
}

// ─── Assignments ─────────────────────────────────────────────────────────────

/// The canonical value of an assignment: a ready value as it is; an expression as the
/// fragment it evaluates to under the dialect, or the evaluation's error.
pub open spec fn assign_canon(v: AssignView, d: Dialect) -> Result<Seq<char>, Seq<char>> {
    match v {
        AssignView::Sql(vv) => Ok(value_text(vv)),
        AssignView::Expr(sem) => match (sem.eval)(Some(dialect_key(d)), false).res {
            Ok(q) => Ok(value_text(ValueView::Query(q))),
            Err(e) => Err(e),
        },
    }
}

/// Each assignment's column with its canonical value, in the order given; the first
/// assignment whose value fails decides the error.
pub open spec fn assign_pairs(asg: Seq<(Seq<char>, AssignView)>, d: Dialect) -> Result<Seq<(Seq<char>, Seq<char>)>, Seq<char>>
    decreases asg.len(),
{
    if asg.len() == 0 {
        Ok(Seq::empty())
    } else {
        match assign_pairs(asg.drop_last(), d) {
            Err(e) => Err(e),
            Ok(prev) => match assign_canon(asg.last().1, d) {
                Err(e) => Err(e),
                Ok(t) => Ok(prev.push((asg.last().0, t))),
            },
        }
    }
}

/// From position `i` on, `a` sorts strictly before `b`.
pub open spec fn before_from(a: Seq<char>, b: Seq<char>, i: nat) -> bool
    decreases a.len() - i,
{
    if i >= a.len() {
        i < b.len()
    } else if i >= b.len() {
        false
    } else if a[i as int] != b[i as int] {
        (a[i as int] as int) < (b[i as int] as int)
    } else {
        before_from(a, b, i + 1)
    }
}

/// `a` sorts strictly before `b`: the lexicographic order of code points, which is the
/// order of their UTF-8 bytes.
pub open spec fn str_before(a: Seq<char>, b: Seq<char>) -> bool {
    before_from(a, b, 0)
}

/// `x` placed into `sorted` after every entry whose column does not sort after its own.
pub open spec fn insert_by_column(sorted: Seq<(Seq<char>, Seq<char>)>, x: (Seq<char>, Seq<char>)) -> Seq<(Seq<char>, Seq<char>)>
    decreases sorted.len(),
{
    if sorted.len() == 0 {
        seq![x]
    } else if !str_before(x.0, sorted.last().0) {
        sorted.push(x)
    } else {
        insert_by_column(sorted.drop_last(), x).push(sorted.last())
    }
}

/// The entries ordered by column, entries with equal columns keeping their order.
pub open spec fn sort_by_column(s: Seq<(Seq<char>, Seq<char>)>) -> Seq<(Seq<char>, Seq<char>)>
    decreases s.len(),
{
    if s.len() == 0 {
        s
    } else {
        insert_by_column(sort_by_column(s.drop_last()), s.last())
    }
}

/// One assignment: `{"column":…,"value":…}`.
pub open spec fn assignment_text(p: (Seq<char>, Seq<char>)) -> Seq<char> {
    "{\"column\":"@ + json_string(p.0) + ",\"value\":"@ + p.1 + "}"@
}

/// The assignments, ordered by column, or the first failing assignment's error.
pub open spec fn assignments_text(asg: Seq<(Seq<char>, AssignView)>, d: Dialect) -> Result<Seq<char>, Seq<char>> {
    match assign_pairs(asg, d) {
        Err(e) => Err(e),
        Ok(ps) => Ok(array_of::<(String, String)>(sort_by_column(ps))),
    }
}

impl CanonJson for (String, String) {
    open spec fn canon(v: (Seq<char>, Seq<char>)) -> Seq<char> {
        assignment_text(v)
    }

    fn push_canon(&self, out: &mut String) {
        let ghost start = out@;
        push_str(out, "{\"column\":");
        push_json_string(out, self.0.as_str());
        push_str(out, ",\"value\":");
        push_str(out, self.1.as_str());
        push_str(out, "}");
        assert(out@ =~= start + assignment_text(self.deep_view()));
    }
}

fn assign_value_text(v: &AssignmentValue, d: &Dialect) -> (r: Result<String, String>)
    ensures
        match assign_canon(v.deep_view(), *d) {
            Ok(t) => r matches Ok(s) && s@ == t,
            Err(e) => r matches Err(m) && m@ == e,
        },
{
    let mut out = String::new();
    match v {
        AssignmentValue::Sql(value) => {
            value.push_canon(&mut out);
            assert(out@ =~= value_text(value.deep_view()));
            Ok(out)
        },
        AssignmentValue::Expr(expr) => {
            let node = expr.duplicate();
            assert(spec_eval(node, Some(dialect_key(*d)), false) == (expr.deep_view().eval)(Some(dialect_key(*d)), false));
            match eval_expr_for_dialect(node, d) {
                Ok(q) => {
                    push_query_value(&mut out, &q);
                    assert(out@ =~= value_text(ValueView::Query(q@)));
                    Ok(out)
                },
                Err(e) => Err(e),
            }
        },
    }
}

proof fn lemma_pairs_error_stays(asg: Seq<(Seq<char>, AssignView)>, d: Dialect, i: int, j: int)
    requires
        0 <= i <= j <= asg.len(),
        assign_pairs(asg.take(i), d) is Err,
    ensures
        assign_pairs(asg.take(j), d) == assign_pairs(asg.take(i), d),
    decreases j - i,
{
    if j > i {
        lemma_pairs_error_stays(asg, d, i, j - 1);
        assert(asg.take(j).drop_last() =~= asg.take(j - 1));
    }
}

fn assignment_pairs(asg: &Vec<UpdateAssignment>, d: &Dialect) -> (r: Result<Vec<(String, String)>, String>)
    ensures
        match assign_pairs(asg.deep_view(), *d) {
            Ok(ps) => r matches Ok(v) && v.deep_view() == ps,
            Err(e) => r matches Err(m) && m@ == e,
        },
{
    let ghost all = asg.deep_view();
    let mut res: Vec<(String, String)> = Vec::new();
    assert(res.deep_view() =~= Seq::<(Seq<char>, Seq<char>)>::empty());
    assert(all.take(0) =~= Seq::<(Seq<char>, AssignView)>::empty());
    let mut i: usize = 0;
    while i < asg.len()
        invariant
            i <= asg.len(),
            all == asg.deep_view(),
            assign_pairs(all.take(i as int), *d) == Ok::<Seq<(Seq<char>, Seq<char>)>, Seq<char>>(res.deep_view()),
        decreases asg.len() - i,
    {
        assert(all.take(i + 1).drop_last() =~= all.take(i as int));
        assert(all.take(i + 1).last() == asg[i as int].deep_view());
        match assign_value_text(&asg[i].value, d) {
            Ok(t) => {
                let ghost before = res.deep_view();
                res.push((asg[i].column.clone(), t));
                assert(res.deep_view() =~= before.push((asg[i as int].column@, t@)));
            },
            Err(e) => {
                proof {
                    lemma_pairs_error_stays(all, *d, i + 1, all.len() as int);
                    assert(all.take(all.len() as int) =~= all);
                }
                return Err(e);
            },
        }
        i += 1;
    }
    assert(all.take(asg.len() as int) =~= all);
    Ok(res)
}

fn str_before_exec(a: &str, b: &str) -> (r: bool)
    ensures
        r == str_before(a@, b@),
{
    let ca = chars_of(a);
    let cb = chars_of(b);
    let mut i: usize = 0;
    while i < ca.len() && i < cb.len()
        invariant
            ca@ == a@,
            cb@ == b@,
            i <= ca.len(),
            i <= cb.len(),
            before_from(a@, b@, 0) == before_from(a@, b@, i as nat),
        decreases ca.len() - i,
    {
        if ca[i] != cb[i] {
            return ca[i] < cb[i];
        }
        i += 1;
    }
    i < cb.len()
}

proof fn lemma_insert_at(s: Seq<(Seq<char>, Seq<char>)>, x: (Seq<char>, Seq<char>), j: int)
    requires
        0 <= j <= s.len(),
        j == 0 || !str_before(x.0, s[j - 1].0),
        forall|k: int| j <= k < s.len() ==> str_before(x.0, #[trigger] s[k].0),
    ensures
        insert_by_column(s, x) == s.insert(j, x),
    decreases s.len(),
{
    if s.len() == 0 {
        assert(s.insert(j, x) =~= seq![x]);
    } else if !str_before(x.0, s.last().0) {
        assert(j == s.len());
        assert(s.insert(j, x) =~= s.push(x));
    } else {
        let t = s.drop_last();
        assert(j < s.len());
        lemma_insert_at(t, x, j);
        assert(s.insert(j, x) =~= t.insert(j, x).push(s.last()));
    }
}

fn sort_pairs(v: Vec<(String, String)>) -> (r: Vec<(String, String)>)
    ensures
        r.deep_view() == sort_by_column(v.deep_view()),
{
    let ghost all = v.deep_view();
    let mut res: Vec<(String, String)> = Vec::new();
    assert(res.deep_view() =~= sort_by_column(all.take(0)));
    let mut i: usize = 0;
    while i < v.len()
        invariant
            i <= v.len(),
            all == v.deep_view(),
            res.deep_view() == sort_by_column(all.take(i as int)),
        decreases v.len() - i,
    {
        let x = (v[i].0.clone(), v[i].1.clone());
        let ghost xv = x.deep_view();
        let ghost sorted = res.deep_view();
        let mut j: usize = res.len();
        while j > 0 && str_before_exec(x.0.as_str(), res[j - 1].0.as_str())
            invariant
                j <= res.len(),
                sorted == res.deep_view(),
                xv == x.deep_view(),
                forall|k: int| j <= k < sorted.len() ==> str_before(xv.0, #[trigger] sorted[k].0),
            decreases j,
        {
            j -= 1;
        }
        proof {
            lemma_insert_at(sorted, xv, j as int);
            assert(all.take(i + 1).drop_last() =~= all.take(i as int));
            assert(all.take(i + 1).last() == xv);
        }
        res.insert(j, x);
        assert(res.deep_view() =~= sorted.insert(j as int, xv));
        i += 1;
    }
    assert(all.take(v.len() as int) =~= all);
    res
}

fn assignments_canon(asg: &Vec<UpdateAssignment>, d: &Dialect) -> (r: Result<String, String>)
    ensures
        match assignments_text(asg.deep_view(), *d) {
            Ok(t) => r matches Ok(s) && s@ == t,
            Err(e) => r matches Err(m) && m@ == e,
        },
{
    let pairs = assignment_pairs(asg, d)?;
    let sorted = sort_pairs(pairs);
    let mut out = String::new();
    push_array(&mut out, &sorted);
    assert(out@ =~= array_of::<(String, String)>(sorted.deep_view()));
    Ok(out)
}

// ─── INSERT and UPDATE ───────────────────────────────────────────────────────

/// What an insert does on conflict, if anything was chosen.
pub open spec fn action_text(a: Option<ActionView>, d: Dialect) -> Result<Seq<char>, Seq<char>> {
    match a {
        None => Ok(null_text()),
        Some(ActionView::DoNothing) => Ok("{\"kind\":\"doNothing\"}"@),
        Some(ActionView::DoUpdate { assignments, predicate }) => match assignments_text(assignments, d) {
            Err(e) => Err(e),
            Ok(t) => Ok("{\"kind\":\"doUpdate\",\"assignments\":"@ + t + ",\"predicate\":"@ + opt_query_text(predicate) + "}"@),
        },
    }
}

/// The INSERT state.
pub open spec fn insert_text(ins: InsertView, d: Dialect) -> Result<Seq<char>, Seq<char>> {
    match action_text(ins.conflict.action, d) {
        Err(e) => Err(e),
        Ok(a) => Ok("{\"into\":"@ + opt_string_text(ins.into) + ",\"column_names\":"@ + array_of::<String>(ins.column_names)
            + ",\"rows\":"@ + array_of::<Vec<SqlValue>>(ins.rows) + ",\"select\":"@ + opt_query_text(ins.select)
            + ",\"conflict\":{\"target\":"@ + target_text(ins.conflict.target) + ",\"action\":"@ + a + "}}"@),
    }
}

/// The UPDATE state.
pub open spec fn update_text(upd: UpdateView, d: Dialect) -> Result<Seq<char>, Seq<char>> {
    match assignments_text(upd.assignments, d) {
        Err(e) => Err(e),
        Ok(a) => Ok("{\"table\":"@ + opt_string_text(upd.table) + ",\"assignments\":"@ + a + "}"@),
    }
}

fn action_canon(a: &Option<InsertConflictAction>, d: &Dialect) -> (r: Result<String, String>)
    ensures
        match action_text(a.deep_view(), *d) {
            Ok(t) => r matches Ok(s) && s@ == t,
            Err(e) => r matches Err(m) && m@ == e,
        },
{
    let mut out = String::new();
    match a {
        None => {
            push_str(&mut out, "null");
            assert(out@ =~= null_text());
        },
        Some(InsertConflictAction::DoNothing) => {
            push_str(&mut out, "{\"kind\":\"doNothing\"}");
            assert(out@ =~= "{\"kind\":\"doNothing\"}"@);
        },
        Some(InsertConflictAction::DoUpdate { assignments, predicate }) => {
            let asg = assignments_canon(assignments, d)?;
            push_str(&mut out, "{\"kind\":\"doUpdate\",\"assignments\":");
            push_str(&mut out, asg.as_str());
            push_str(&mut out, ",\"predicate\":");
            push_opt_query(&mut out, predicate);
            push_str(&mut out, "}");
            assert(out@ =~= "{\"kind\":\"doUpdate\",\"assignments\":"@ + asg@ + ",\"predicate\":"@
                + opt_query_text(predicate.deep_view()) + "}"@);
        },
    }
    Ok(out)
}

fn insert_canon(ins: &InsertState, d: &Dialect) -> (r: Result<String, String>)
    ensures
        match insert_text(ins.deep_view(), *d) {
            Ok(t) => r matches Ok(s) && s@ == t,
            Err(e) => r matches Err(m) && m@ == e,
        },
{
    let action = action_canon(&ins.conflict.action, d)?;
    let mut out = String::new();
    push_str(&mut out, "{\"into\":");
    push_opt_string(&mut out, &ins.into);
    push_str(&mut out, ",\"column_names\":");
    push_array(&mut out, &ins.column_names);
    push_str(&mut out, ",\"rows\":");
    push_array(&mut out, &ins.rows);
    push_str(&mut out, ",\"select\":");
    push_opt_query(&mut out, &ins.select);
    push_str(&mut out, ",\"conflict\":{\"target\":");
    push_target(&mut out, &ins.conflict.target);
    push_str(&mut out, ",\"action\":");
    push_str(&mut out, action.as_str());
    push_str(&mut out, "}}");
    let ghost v = ins.deep_view();
    assert(out@ =~= "{\"into\":"@ + opt_string_text(v.into) + ",\"column_names\":"@ + array_of::<String>(v.column_names)
        + ",\"rows\":"@ + array_of::<Vec<SqlValue>>(v.rows) + ",\"select\":"@ + opt_query_text(v.select)
        + ",\"conflict\":{\"target\":"@ + target_text(v.conflict.target) + ",\"action\":"@ + action@ + "}}"@);
    Ok(out)
}

fn update_canon(upd: &UpdateState, d: &Dialect) -> (r: Result<String, String>)
    ensures
        match update_text(upd.deep_view(), *d) {
            Ok(t) => r matches Ok(s) && s@ == t,
            Err(e) => r matches Err(m) && m@ == e,
        },
{
    let asg = assignments_canon(&upd.assignments, d)?;
    let mut out = String::new();
    push_str(&mut out, "{\"table\":");
    push_opt_string(&mut out, &upd.table);
    push_str(&mut out, ",\"assignments\":");
    push_str(&mut out, asg.as_str());
    push_str(&mut out, "}");
    assert(out@ =~= "{\"table\":"@ + opt_string_text(upd.deep_view().table) + ",\"assignments\":"@ + asg@ + "}"@);
    Ok(out)
}

// ─── The whole state ─────────────────────────────────────────────────────────

/// The fields from the dialect to DISTINCT.
pub open spec fn opening_text(n: PartsView) -> Seq<char> {
    "{\"dialect\":"@ + json_string(n.dialect.spec_as_str()) + ",\"statement\":"@ + statement_text(n.statement)
        + ",\"ctes\":"@ + array_of::<CteDefinition>(n.ctes) + ",\"distinct\":"@ + distinct_text(n.distinct)
}

/// The fields from the projection to the WHERE clauses.
pub open spec fn select_text(n: PartsView) -> Seq<char> {
    ",\"select\":"@ + opt_query_text(n.select) + ",\"selected_columns\":"@ + array_of::<String>(n.selected_columns)
        + ",\"from\":"@ + opt_query_text(n.from) + ",\"joins\":"@ + array_of::<SqlQuery>(n.joins)
        + ",\"where_clauses\":"@ + array_of::<WhereEntry>(n.where_clauses)
}

/// The fields from GROUP BY to the pagination.
pub open spec fn grouping_text(n: PartsView) -> Seq<char> {
    ",\"group_by\":"@ + array_of::<SqlIdentifier>(n.group_by) + ",\"having_clauses\":"@ + array_of::<WhereEntry>(n.having_clauses)
        + ",\"order_by\":"@ + array_of::<SqlQuery>(n.order_by) + ",\"pagination\":{\"limit\":"@
        + opt_u32_text(n.pagination.limit) + ",\"offset\":"@ + opt_u32_text(n.pagination.offset) + "}"@
}

/// The fields from the row lock to the compound parts.
pub open spec fn trailer_text(n: PartsView) -> Seq<char> {
    ",\"lock\":"@ + lock_text(n.lock) + ",\"returning\":"@ + opt_query_text(n.returning)
        + ",\"compounds\":"@ + array_of::<CompoundPart>(n.compounds)
}

/// The canonical JSON text of a state: its pending join committed first (or that
/// commit's error), then every field that gives the query its meaning, SET assignments
/// ordered by column; the cached query, validation and warnings play no part.
pub open spec fn canonical_ir(p: PartsView) -> Result<Seq<char>, Seq<char>> {
    match normalize_view(p) {
        Err(e) => Err(e),
        Ok(n) => match insert_text(n.insert, n.dialect) {
            Err(e) => Err(e),
            Ok(ins) => match update_text(n.update, n.dialect) {
                Err(e) => Err(e),
                Ok(upd) => Ok(opening_text(n) + select_text(n) + grouping_text(n) + trailer_text(n) + ",\"insert\":"@ + ins + ",\"update\":"@ + upd
                    + ",\"delete_from_table\":"@ + opt_string_text(n.delete_from) + ",\"dialect_strict\":"@
                    + bool_text(n.dialect_strict) + "}"@),
            },
        },
    }
}

#[verifier::rlimit(40)]
fn push_opening(out: &mut String, n: &QueryParts)
    ensures
        final(out)@ == old(out)@ + opening_text(n.deep_view()),
{
    let ghost start = out@;
    push_str(out, "{\"dialect\":");
    push_json_string(out, n.dialect.as_str());
    push_str(out, ",\"statement\":");
    push_statement(out, n.statement);
    push_str(out, ",\"ctes\":");
    push_array(out, &n.ctes);
    push_str(out, ",\"distinct\":");
    push_distinct(out, &n.distinct);
    assert(out@ =~= start + opening_text(n.deep_view()));
}

#[verifier::rlimit(40)]
fn push_select(out: &mut String, n: &QueryParts)
    ensures
        final(out)@ == old(out)@ + select_text(n.deep_view()),
{
    let ghost start = out@;
    push_str(out, ",\"select\":");
    push_opt_query(out, &n.select);
    push_str(out, ",\"selected_columns\":");
    push_array(out, &n.selected_columns);
    push_str(out, ",\"from\":");
    push_opt_query(out, &n.from);
    push_str(out, ",\"joins\":");
    push_array(out, &n.joins);
    push_str(out, ",\"where_clauses\":");
    push_array(out, &n.where_clauses);
    assert(out@ =~= start + select_text(n.deep_view()));
}

#[verifier::rlimit(40)]
fn push_grouping(out: &mut String, n: &QueryParts)
    ensures
        final(out)@ == old(out)@ + grouping_text(n.deep_view()),
{
    let ghost start = out@;
    push_str(out, ",\"group_by\":");
    push_array(out, &n.group_by);
    push_str(out, ",\"having_clauses\":");
    push_array(out, &n.having_clauses);
    push_str(out, ",\"order_by\":");
    push_array(out, &n.order_by);
    push_str(out, ",\"pagination\":{\"limit\":");
    push_opt_u32(out, n.pagination.limit);
    push_str(out, ",\"offset\":");
    push_opt_u32(out, n.pagination.offset);
    push_str(out, "}");
    assert(out@ =~= start + grouping_text(n.deep_view()));
}

#[verifier::rlimit(40)]
fn push_trailer(out: &mut String, n: &QueryParts)
    ensures
        final(out)@ == old(out)@ + trailer_text(n.deep_view()),
{
    let ghost start = out@;
    push_str(out, ",\"lock\":");
    push_lock(out, n.lock);
    push_str(out, ",\"returning\":");
    push_opt_query(out, &n.returning);
    push_str(out, ",\"compounds\":");
    push_array(out, &n.compounds);
    assert(out@ =~= start + trailer_text(n.deep_view()));
}

/// The canonical JSON text of a state (see [`canonical_ir`]).
pub fn canonical_ir_json_for_parts(parts: &QueryParts) -> (r: Result<String, String>)
    ensures
        match canonical_ir(parts.deep_view()) {
            Ok(t) => r matches Ok(s) && s@ == t,
            Err(e) => r matches Err(m) && m@ == e,
        },
{
    let n = normalize_pending_join(parts.duplicate())?;
    let ins = insert_canon(&n.insert, &n.dialect)?;
    let upd = update_canon(&n.update, &n.dialect)?;
    let mut out = String::new();
    push_opening(&mut out, &n);
    push_select(&mut out, &n);
    push_grouping(&mut out, &n);
    push_trailer(&mut out, &n);
    push_str(&mut out, ",\"insert\":");
    push_str(&mut out, ins.as_str());
    push_str(&mut out, ",\"update\":");
    push_str(&mut out, upd.as_str());
    push_str(&mut out, ",\"delete_from_table\":");
    push_opt_string(&mut out, &n.delete.from_table);
    push_str(&mut out, ",\"dialect_strict\":");
    push_bool(&mut out, n.dialect_strict);
    push_str(&mut out, "}");
    let ghost v = n.deep_view();
    assert(out@ =~= opening_text(v) + select_text(v) + grouping_text(v) + trailer_text(v) + ",\"insert\":"@ + ins@ + ",\"update\":"@ + upd@
        + ",\"delete_from_table\":"@ + opt_string_text(v.delete_from) + ",\"dialect_strict\":"@
        + bool_text(v.dialect_strict) + "}"@);
    Ok(out)
}

/// The canonical text of the state a handle names, or why there is none.
pub open spec fn handle_canonical(r: RegistryView, id: Seq<char>) -> Result<Seq<char>, Seq<char>> {
    match handle_parts(r, id) {
        Err(e) => Err(e),
        Ok(p) => canonical_ir(p),
    }
}

/// The hash of a state's canonical text: the hexadecimal BLAKE3 digest of that text.
pub open spec fn canonical_hash(p: PartsView) -> Result<Seq<char>, Seq<char>> {
    match canonical_ir(p) {
        Ok(t) => Ok(hex_text(blake3_digest(t))),
        Err(e) => Err(e),
    }
}

/// The canonical JSON text of the state a builder handle names.
pub fn builder_canonical_ir_json(reg: &Registry, handle: &str) -> (r: Result<String, String>)
    ensures
        match handle_canonical(reg@, handle@) {
            Ok(t) => r matches Ok(s) && s@ == t,
            Err(e) => r matches Err(m) && m@ == e,
        },
{
    let parts = reg.registry_get_cloned(handle)?;
    canonical_ir_json_for_parts(&parts)
}

// ─── Digests ─────────────────────────────────────────────────────────────────

/// The BLAKE3 digest of the UTF-8 bytes of a text.
pub uninterp spec fn blake3_digest(text: Seq<char>) -> Seq<u8>;

/// `blake3::hash` of the UTF-8 bytes of `text`, as its 32 bytes. The contract claims that
/// the bytes are a function of the text alone and that there are 32 of them; which bytes
/// they are is left unsaid.
#[verifier::external_body]
fn blake3_hash(text: &str) -> (r: Vec<u8>)
    ensures
        r@ == blake3_digest(text@),
        r@.len() == 32,
{
    blake3::hash(text.as_bytes()).as_bytes().to_vec()
}

/// Bytes in lowercase hexadecimal, two digits per byte, high digit first.
pub open spec fn hex_text(b: Seq<u8>) -> Seq<char>
    decreases b.len(),
{
    if b.len() == 0 {
        Seq::empty()
    } else {
        hex_text(b.drop_last()) + seq![hex_digit((b.last() / 16) as nat), hex_digit((b.last() % 16) as nat)]
    }
}

/// A digest in lowercase hexadecimal (what `blake3::Hash::to_hex` writes).
pub fn digest_hex(digest: &Vec<u8>) -> (r: String)
    ensures
        r@ == hex_text(digest@),
{
    let mut out = String::new();
    let mut i: usize = 0;
    while i < digest.len()
        invariant
            i <= digest.len(),
            out@ == hex_text(digest@.take(i as int)),
        decreases digest.len() - i,
    {
        let b = digest[i];
        push_char(&mut out, hex((b / 16) as u32));
        push_char(&mut out, hex((b % 16) as u32));
        assert(digest@.take(i + 1).drop_last() =~= digest@.take(i as int));
        assert(out@ =~= hex_text(digest@.take(i + 1)));
        i += 1;
    }
    assert(digest@.take(digest.len() as int) =~= digest@);
    out
}

/// The first eight bytes of a digest read as a little-endian number.
pub open spec fn le_prefix(b: Seq<u8>) -> nat {
    b[0] as nat + 0x100 * (b[1] as nat) + 0x1_0000 * (b[2] as nat) + 0x100_0000 * (b[3] as nat)
        + 0x1_0000_0000 * (b[4] as nat) + 0x100_0000_0000 * (b[5] as nat) + 0x1_0000_0000_0000 * (b[6] as nat)
        + 0x100_0000_0000_0000 * (b[7] as nat)
}

/// The first eight bytes of a digest read as a little-endian `u64`.
pub fn digest_prefix_u64(digest: &Vec<u8>) -> (r: u64)
    requires
        digest@.len() >= 8,
    ensures
        r == le_prefix(digest@),
{
    (digest[0] as u64) + (digest[1] as u64) * 0x100 + (digest[2] as u64) * 0x1_0000 + (digest[3] as u64) * 0x100_0000
        + (digest[4] as u64) * 0x1_0000_0000 + (digest[5] as u64) * 0x100_0000_0000
        + (digest[6] as u64) * 0x1_0000_0000_0000 + (digest[7] as u64) * 0x100_0000_0000_0000
}

/// The hexadecimal BLAKE3 digest of a state's canonical text.
pub fn canonical_ir_hash_for_parts(parts: &QueryParts) -> (r: Result<String, String>)
    ensures
        match canonical_ir(parts.deep_view()) {
            Ok(t) => r matches Ok(h) && h@ == hex_text(blake3_digest(t)),
            Err(e) => r matches Err(m) && m@ == e,
        },
{
    let text = canonical_ir_json_for_parts(parts)?;
    let digest = blake3_hash(text.as_str());
    Ok(digest_hex(&digest))
}

/// A number drawn from the BLAKE3 digest of a state's canonical text: its first eight
/// bytes, little-endian.
pub fn canonical_fingerprint_for_parts(parts: &QueryParts) -> (r: Result<u64, String>)
    ensures
        match canonical_ir(parts.deep_view()) {
            Ok(t) => r matches Ok(f) && f == le_prefix(blake3_digest(t)),
            Err(e) => r matches Err(m) && m@ == e,
        },
{
    let text = canonical_ir_json_for_parts(parts)?;
    let digest = blake3_hash(text.as_str());
    Ok(digest_prefix_u64(&digest))
}

/// The hexadecimal BLAKE3 digest of the canonical text of the state a builder handle names.
pub fn builder_canonical_ir_hash(reg: &Registry, handle: &str) -> (r: Result<String, String>)
    ensures
        match handle_canonical(reg@, handle@) {
            Ok(t) => r matches Ok(h) && h@ == hex_text(blake3_digest(t)),
            Err(e) => r matches Err(m) && m@ == e,
        },
{
    let parts = reg.registry_get_cloned(handle)?;
    canonical_ir_hash_for_parts(&parts)
}

/// Filling a state's caches (its query and validation outcome) leaves its canonical text
/// as it was.
pub proof fn lemma_canonical_ignores_caches(p: PartsView, q: PartsView)
    requires
        q == (PartsView { cached_query: q.cached_query, validation: q.validation, ..p }),
    ensures
        canonical_ir(q) == canonical_ir(p),
{
    match normalize_view(p) {
        Err(_) => {},
        Ok(n) => {
            assert(normalize_view(q) == Ok::<PartsView, Seq<char>>(
                PartsView { cached_query: q.cached_query, validation: q.validation, ..n },
            ));
        },
    }
}

/// Two clause lists with the same operators, predicate texts and numbers of bound values.
pub open spec fn same_clause_shapes(a: Seq<(QueryView, LogicalOp)>, b: Seq<(QueryView, LogicalOp)>) -> bool {
    &&& a.len() == b.len()
    &&& forall|i: int| 0 <= i < a.len() ==> (#[trigger] a[i]).1 == b[i].1 && a[i].0.text == b[i].0.text
        && a[i].0.values.len() == b[i].0.values.len()
}

proof fn lemma_clause_arrays_equal(a: Seq<(QueryView, LogicalOp)>, b: Seq<(QueryView, LogicalOp)>)
    requires
        same_clause_shapes(a, b),
    ensures
        array_of::<WhereEntry>(a) == array_of::<WhereEntry>(b),
{
    assert(a.map_values(|v: (QueryView, LogicalOp)| WhereEntry::canon(v)) =~= b.map_values(|v: (QueryView, LogicalOp)| WhereEntry::canon(v))) by {
        assert forall|i: int| 0 <= i < a.len() implies clause_text(#[trigger] a[i]) == clause_text(b[i]) by {
            assert(a[i].1 == b[i].1);
        }
    }
}

/// The canonical text, and so the hash, ignores the values bound in WHERE and HAVING
/// predicates: two states that differ only there, with the same predicate texts, operators
/// and numbers of values, have the same canonical text.
pub proof fn lemma_canonical_ignores_bound_values(p: PartsView, q: PartsView)
    requires
        q == (PartsView { where_clauses: q.where_clauses, having_clauses: q.having_clauses, ..p }),
        same_clause_shapes(p.where_clauses, q.where_clauses),
        same_clause_shapes(p.having_clauses, q.having_clauses),
    ensures
        canonical_ir(q) == canonical_ir(p),
{
    lemma_clause_arrays_equal(p.where_clauses, q.where_clauses);
    lemma_clause_arrays_equal(p.having_clauses, q.having_clauses);
    match normalize_view(p) {
        Err(_) => {},
        Ok(n) => {
            let m = PartsView { where_clauses: q.where_clauses, having_clauses: q.having_clauses, ..n };
            assert(normalize_view(q) == Ok::<PartsView, Seq<char>>(m));
            assert(select_text(m) == select_text(n));
            assert(grouping_text(m) == grouping_text(n));
        },
    }
}

proof fn lemma_plain_letters(w: Seq<char>)
    requires
        forall|i: int| 0 <= i < w.len() ==> 'a' <= #[trigger] w[i] && w[i] <= 'z',
    ensures
        json_escaped(w) == w,
    decreases w.len(),
{
    if w.len() > 0 {
        lemma_plain_letters(w.drop_last());
        let c = w.last();
        assert('a' <= c && c <= 'z');
        assert(json_escape_char(c) == seq![c]);
        assert(w.drop_last() + seq![c] =~= w);
    }
}

proof fn lemma_op_json(op: LogicalOp)
    ensures
        op == LogicalOp::And ==> json_string(op_name(op)) == seq!['"', 'a', 'n', 'd', '"'],
        op == LogicalOp::Or ==> json_string(op_name(op)) == seq!['"', 'o', 'r', '"'],
{
    reveal_strlit("and");
    reveal_strlit("or");
    let a = "and"@;
    let o = "or"@;
    assert(a =~= seq!['a', 'n', 'd']);
    assert(o =~= seq!['o', 'r']);
    lemma_plain_letters(a);
    lemma_plain_letters(o);
    assert(json_string(a) =~= seq!['"', 'a', 'n', 'd', '"']);
    assert(json_string(o) =~= seq!['"', 'o', 'r', '"']);
}

/// The canonical text of a WHERE/HAVING entry names its operator: an And entry reads
/// `{"op":"and","pred":…}`, an Or entry `{"op":"or","pred":…}`, so no And entry has the
/// text of an Or entry.
pub proof fn lemma_clause_names_operator(q: QueryView, q2: QueryView)
    ensures
        clause_text((q, LogicalOp::And)) == seq!['{', '"', 'o', 'p', '"', ':', '"', 'a', 'n', 'd', '"'] + ",\"pred\":"@ + query_text(q) + "}"@,
        clause_text((q, LogicalOp::Or)) == seq!['{', '"', 'o', 'p', '"', ':', '"', 'o', 'r', '"'] + ",\"pred\":"@ + query_text(q) + "}"@,
        clause_text((q, LogicalOp::And)).len() > 7 && clause_text((q, LogicalOp::And))[7] == 'a',
        clause_text((q2, LogicalOp::Or)).len() > 7 && clause_text((q2, LogicalOp::Or))[7] == 'o',
        clause_text((q, LogicalOp::And)) != clause_text((q2, LogicalOp::Or)),
{
    lemma_op_json(LogicalOp::And);
    lemma_op_json(LogicalOp::Or);
    reveal_strlit("{\"op\":");
    let h = "{\"op\":"@;
    assert(h =~= seq!['{', '"', 'o', 'p', '"', ':']);
    assert(h + seq!['"', 'a', 'n', 'd', '"'] =~= seq!['{', '"', 'o', 'p', '"', ':', '"', 'a', 'n', 'd', '"']);
    assert(h + seq!['"', 'o', 'r', '"'] =~= seq!['{', '"', 'o', 'p', '"', ':', '"', 'o', 'r', '"']);
    let ta = clause_text((q, LogicalOp::And));
    let to = clause_text((q2, LogicalOp::Or));
    assert(ta =~= seq!['{', '"', 'o', 'p', '"', ':', '"', 'a', 'n', 'd', '"'] + ",\"pred\":"@ + query_text(q) + "}"@);
    assert(to =~= seq!['{', '"', 'o', 'p', '"', ':', '"', 'o', 'r', '"'] + ",\"pred\":"@ + query_text(q2) + "}"@);
    assert(ta[7] == 'a');
    assert(to[7] == 'o');
}

proof fn lemma_joined_prefix(texts: Seq<Seq<char>>, a: int, b: int)
    requires
        0 <= a <= b <= texts.len(),
    ensures
        joined(texts.take(a)).len() <= joined(texts.take(b)).len(),
        forall|k: int| 0 <= k < joined(texts.take(a)).len() ==> joined(texts.take(b))[k] == #[trigger] joined(texts.take(a))[k],
    decreases b - a,
{
    if a < b {
        lemma_joined_prefix(texts, a, b - 1);
        lemma_joined_take(texts, b - 1);
        let jp = joined(texts.take(b - 1));
        let jb = joined(texts.take(b));
        if b - 1 > 0 {
            assert forall|k: int| 0 <= k < jp.len() implies jb[k] == #[trigger] jp[k] by {
                assert(jb == jp + seq![','] + texts[b - 1]);
                assert((jp + seq![','] + texts[b - 1])[k] == jp[k]);
            }
        } else {
            assert(texts.take(0) =~= Seq::<Seq<char>>::empty());
            assert(jp.len() == 0);
        }
    }
}

/// The texts of two clause lists that differ only in the operator of clause `i` differ
/// at some position.
proof fn lemma_where_arrays_differ(wn: Seq<(QueryView, LogicalOp)>, i: int, op: LogicalOp)
    requires
        0 <= i < wn.len(),
        op != wn[i].1,
    ensures
        exists|k: int| 0 <= k < array_of::<WhereEntry>(wn).len() && k < array_of::<WhereEntry>(wn.update(i, (wn[i].0, op))).len()
            && array_of::<WhereEntry>(wn)[k] != array_of::<WhereEntry>(wn.update(i, (wn[i].0, op)))[k],
{
    let wm = wn.update(i, (wn[i].0, op));
    let tn = wn.map_values(|v: (QueryView, LogicalOp)| WhereEntry::canon(v));
    let tm = wm.map_values(|v: (QueryView, LogicalOp)| WhereEntry::canon(v));
    assert(tn.take(i) =~= tm.take(i));
    let pre: Seq<char> = if i == 0 { Seq::empty() } else { joined(tn.take(i)) + seq![','] };
    lemma_joined_take(tn, i);
    lemma_joined_take(tm, i);
    assert(joined(tn.take(i + 1)) =~= pre + tn[i]);
    assert(joined(tm.take(i + 1)) =~= pre + tm[i]);
    lemma_joined_prefix(tn, i + 1, tn.len() as int);
    lemma_joined_prefix(tm, i + 1, tm.len() as int);
    assert(tn.take(tn.len() as int) =~= tn);
    assert(tm.take(tm.len() as int) =~= tm);
    lemma_clause_names_operator(wn[i].0, wn[i].0);
    let cn = tn[i];
    let cm = tm[i];
    assert(cn == clause_text(wn[i]));
    assert(cm == clause_text((wn[i].0, op)));
    assert(cn.len() > 7 && cm.len() > 7 && cn[7] != cm[7]) by {
        if op == LogicalOp::Or {
            assert(wn[i].1 == LogicalOp::And);
        } else {
            assert(wn[i].1 == LogicalOp::Or);
        }
    }
    let kk: int = pre.len() as int + 7;
    assert((pre + cn)[kk] == cn[7]);
    assert((pre + cm)[kk] == cm[7]);
    assert(joined(tn)[kk] == cn[7]);
    assert(joined(tm)[kk] == cm[7]);
    let an = array_of::<WhereEntry>(wn);
    let am = array_of::<WhereEntry>(wm);
    assert(an == seq!['['] + joined(tn) + seq![']']);
    assert(am == seq!['['] + joined(tm) + seq![']']);
    assert(an[kk + 1] == cn[7]);
    assert(am[kk + 1] == cm[7]);
}

/// The canonical text of a committed state, given the texts of its insert and update.
pub open spec fn canon_of(n: PartsView, ins: Seq<char>, upd: Seq<char>) -> Seq<char> {
    opening_text(n) + select_text(n) + grouping_text(n) + trailer_text(n) + ",\"insert\":"@ + ins + ",\"update\":"@ + upd
        + ",\"delete_from_table\":"@ + opt_string_text(n.delete_from) + ",\"dialect_strict\":"@
        + bool_text(n.dialect_strict) + "}"@
}

/// The fields before the WHERE clause list.
pub open spec fn before_where(n: PartsView) -> Seq<char> {
    opening_text(n) + ",\"select\":"@ + opt_query_text(n.select) + ",\"selected_columns\":"@ + array_of::<String>(n.selected_columns)
        + ",\"from\":"@ + opt_query_text(n.from) + ",\"joins\":"@ + array_of::<SqlQuery>(n.joins) + ",\"where_clauses\":"@
}

proof fn lemma_canon_of_at(n: PartsView, ins: Seq<char>, upd: Seq<char>, k: int)
    requires
        0 <= k < array_of::<WhereEntry>(n.where_clauses).len(),
    ensures
        before_where(n).len() + k < canon_of(n, ins, upd).len(),
        canon_of(n, ins, upd)[before_where(n).len() + k] == array_of::<WhereEntry>(n.where_clauses)[k],
{
    let o = opening_text(n) + select_text(n);
    let bw = before_where(n);
    let an = array_of::<WhereEntry>(n.where_clauses);
    assert(o =~= bw + an);
    let pos = bw.len() + k;
    assert(o[pos] == an[k]);
    let c = canon_of(n, ins, upd);
    assert(c.len() >= o.len());
    assert(c[pos] == o[pos]);
}

/// The canonical text names each WHERE clause's operator: two states that differ only in
/// the operator joining one WHERE clause (And against Or) have different canonical texts.
#[verifier::spinoff_prover]
pub proof fn lemma_canonical_names_where_operators(p: PartsView, i: int, op: LogicalOp)
    requires
        0 <= i < p.where_clauses.len(),
        op != p.where_clauses[i].1,
    ensures
        canonical_ir(p) matches Ok(t) ==> canonical_ir(PartsView {
            where_clauses: p.where_clauses.update(i, (p.where_clauses[i].0, op)),
            ..p
        }) matches Ok(u) && u != t,
{
    let q = PartsView { where_clauses: p.where_clauses.update(i, (p.where_clauses[i].0, op)), ..p };
    match normalize_view(p) {
        Err(_) => {},
        Ok(n) => {
            let m = PartsView { where_clauses: q.where_clauses, ..n };
            assert(normalize_view(q) == Ok::<PartsView, Seq<char>>(m));
            let wn = n.where_clauses;
            assert(m.where_clauses == wn.update(i, (wn[i].0, op)));
            match insert_text(n.insert, n.dialect) {
                Err(_) => {},
                Ok(ins) => match update_text(n.update, n.dialect) {
                    Err(_) => {},
                    Ok(upd) => {
                        assert(canonical_ir(p) == Ok::<Seq<char>, Seq<char>>(canon_of(n, ins, upd)));
                        assert(canonical_ir(q) == Ok::<Seq<char>, Seq<char>>(canon_of(m, ins, upd)));
                        lemma_where_arrays_differ(wn, i, op);
                        let an = array_of::<WhereEntry>(wn);
                        let am = array_of::<WhereEntry>(m.where_clauses);
                        let k = choose|k: int| 0 <= k < an.len() && k < am.len() && an[k] != am[k];
                        lemma_canon_of_at(n, ins, upd, k);
                        lemma_canon_of_at(m, ins, upd, k);
                        assert(before_where(m) == before_where(n));
                    },
                },
            }
        },
    }
}

// ─── The order of columns ────────────────────────────────────────────────────

proof fn lemma_before_asymmetric(a: Seq<char>, b: Seq<char>, i: nat)
    ensures
        !(before_from(a, b, i) && before_from(b, a, i)),
    decreases a.len() - i,
{
    if i < a.len() && i < b.len() && a[i as int] == b[i as int] {
        lemma_before_asymmetric(a, b, i + 1);
    }
}

proof fn lemma_before_total(a: Seq<char>, b: Seq<char>, i: nat)
    requires
        i <= a.len(),
        i <= b.len(),
        a.skip(i as int) != b.skip(i as int),
    ensures
        before_from(a, b, i) || before_from(b, a, i),
    decreases a.len() - i,
{
    if i < a.len() && i < b.len() && a[i as int] == b[i as int] {
        if a.skip(i + 1int) == b.skip(i + 1int) {
            assert(a.skip(i as int) =~= seq![a[i as int]] + a.skip(i + 1int));
            assert(b.skip(i as int) =~= seq![b[i as int]] + b.skip(i + 1int));
        }
        lemma_before_total(a, b, i + 1);
    } else if i == a.len() && i == b.len() {
        assert(a.skip(i as int) =~= b.skip(i as int));
    } else if i < a.len() && i < b.len() {
        assert((a[i as int] as int) != (b[i as int] as int));
    }
}

proof fn lemma_before_transitive(a: Seq<char>, b: Seq<char>, c: Seq<char>, i: nat)
    requires
        before_from(a, b, i),
        before_from(b, c, i),
    ensures
        before_from(a, c, i),
    decreases a.len() - i,
{
    if i < a.len() && i < b.len() && i < c.len() && a[i as int] == b[i as int] && b[i as int] == c[i as int] {
        lemma_before_transitive(a, b, c, i + 1);
    }
}

/// `a` sorts before `b` or is `b`.
pub open spec fn str_le(a: Seq<char>, b: Seq<char>) -> bool {
    a == b || str_before(a, b)
}

/// Distinct texts are ordered one way or the other, never both.
pub proof fn lemma_str_order(a: Seq<char>, b: Seq<char>)
    ensures
        !(str_before(a, b) && str_before(b, a)),
        !str_before(a, a),
        a != b ==> (str_before(a, b) || str_before(b, a)),
{
    lemma_before_asymmetric(a, b, 0);
    lemma_before_asymmetric(a, a, 0);
    if a != b {
        assert(a.skip(0) =~= a);
        assert(b.skip(0) =~= b);
        lemma_before_total(a, b, 0);
    }
}

/// Sorting before is transitive.
pub proof fn lemma_str_before_transitive(a: Seq<char>, b: Seq<char>, c: Seq<char>)
    requires
        str_before(a, b),
        str_before(b, c),
    ensures
        str_before(a, c),
{
    lemma_before_transitive(a, b, c, 0);
}

/// Entries ordered by column, then by value.
pub open spec fn entry_le(p: (Seq<char>, Seq<char>), q: (Seq<char>, Seq<char>)) -> bool {
    str_before(p.0, q.0) || (p.0 == q.0 && str_le(p.1, q.1))
}

proof fn lemma_entry_le_total()
    ensures
        total_ordering(|p: (Seq<char>, Seq<char>), q: (Seq<char>, Seq<char>)| entry_le(p, q)),
{
    let leq = |p: (Seq<char>, Seq<char>), q: (Seq<char>, Seq<char>)| entry_le(p, q);
    assert forall|p: (Seq<char>, Seq<char>)| #[trigger] leq(p, p) by {
        lemma_str_order(p.0, p.0);
    }
    assert forall|p: (Seq<char>, Seq<char>), q: (Seq<char>, Seq<char>)| #[trigger] leq(p, q) && #[trigger] leq(q, p) implies p == q by {
        lemma_str_order(p.0, q.0);
        lemma_str_order(p.1, q.1);
    }
    assert forall|p: (Seq<char>, Seq<char>), q: (Seq<char>, Seq<char>), r: (Seq<char>, Seq<char>)| #[trigger] leq(p, q) && #[trigger] leq(q, r) implies leq(p, r) by {
        if str_before(p.0, q.0) && str_before(q.0, r.0) {
            lemma_str_before_transitive(p.0, q.0, r.0);
        }
        if p.0 == q.0 && q.0 == r.0 && str_before(p.1, q.1) && str_before(q.1, r.1) {
            lemma_str_before_transitive(p.1, q.1, r.1);
        }
    }
    assert forall|p: (Seq<char>, Seq<char>), q: (Seq<char>, Seq<char>)| #[trigger] leq(p, q) || #[trigger] leq(q, p) by {
        lemma_str_order(p.0, q.0);
        lemma_str_order(p.1, q.1);
    }
}

// ─── Sorting by column ───────────────────────────────────────────────────────

/// No column is named twice.
pub open spec fn distinct_columns(s: Seq<(Seq<char>, Seq<char>)>) -> bool {
    forall|i: int, j: int| 0 <= i < s.len() && 0 <= j < s.len() && i != j ==> #[trigger] s[i].0 != #[trigger] s[j].0
}

/// No entry's column sorts before an earlier entry's.
pub open spec fn column_sorted(s: Seq<(Seq<char>, Seq<char>)>) -> bool {
    forall|i: int, j: int| 0 <= i < j < s.len() ==> !str_before(#[trigger] s[j].0, #[trigger] s[i].0)
}

proof fn lemma_insert_multiset(sorted: Seq<(Seq<char>, Seq<char>)>, x: (Seq<char>, Seq<char>))
    ensures
        insert_by_column(sorted, x).to_multiset() =~= sorted.to_multiset().insert(x),
    decreases sorted.len(),
{
    broadcast use vstd::seq_lib::group_to_multiset_ensures;
    if sorted.len() == 0 {
        assert(seq![x] =~= Seq::<(Seq<char>, Seq<char>)>::empty().push(x));
    } else if !str_before(x.0, sorted.last().0) {
    } else {
        let t = sorted.drop_last();
        lemma_insert_multiset(t, x);
        assert(sorted =~= t.push(sorted.last()));
    }
}

proof fn lemma_sort_multiset(s: Seq<(Seq<char>, Seq<char>)>)
    ensures
        sort_by_column(s).to_multiset() =~= s.to_multiset(),
    decreases s.len(),
{
    broadcast use vstd::seq_lib::group_to_multiset_ensures;
    if s.len() > 0 {
        lemma_sort_multiset(s.drop_last());
        lemma_insert_multiset(sort_by_column(s.drop_last()), s.last());
        assert(s =~= s.drop_last().push(s.last()));
    }
}

proof fn lemma_member_index(s: Seq<(Seq<char>, Seq<char>)>, e: (Seq<char>, Seq<char>)) -> (k: int)
    requires
        s.to_multiset().count(e) > 0,
    ensures
        0 <= k < s.len(),
        s[k] == e,
{
    broadcast use vstd::seq_lib::group_to_multiset_ensures;
    assert(s.contains(e));
    choose|k: int| 0 <= k < s.len() && s[k] == e
}

proof fn lemma_insert_sorted(sorted: Seq<(Seq<char>, Seq<char>)>, x: (Seq<char>, Seq<char>))
    requires
        column_sorted(sorted),
    ensures
        column_sorted(insert_by_column(sorted, x)),
    decreases sorted.len(),
{
    broadcast use vstd::seq_lib::group_to_multiset_ensures;
    if sorted.len() == 0 {
    } else if !str_before(x.0, sorted.last().0) {
        let r = sorted.push(x);
        let last = sorted.last();
        assert forall|i: int, j: int| 0 <= i < j < r.len() implies !str_before(#[trigger] r[j].0, #[trigger] r[i].0) by {
            if j == sorted.len() {
                if i < sorted.len() - 1 {
                    assert(!str_before(last.0, sorted[i].0));
                    lemma_str_order(last.0, sorted[i].0);
                    if str_before(x.0, sorted[i].0) && str_before(sorted[i].0, last.0) {
                        lemma_str_before_transitive(x.0, sorted[i].0, last.0);
                    }
                }
            }
        }
    } else {
        let t = sorted.drop_last();
        let last = sorted.last();
        lemma_insert_sorted(t, x);
        lemma_insert_multiset(t, x);
        let rec = insert_by_column(t, x);
        let r = rec.push(last);
        assert forall|i: int, j: int| 0 <= i < j < r.len() implies !str_before(#[trigger] r[j].0, #[trigger] r[i].0) by {
            if j == rec.len() {
                let e = rec[i];
                assert(rec.contains(e));
                assert(rec.to_multiset().count(e) > 0);
                if e == x {
                    lemma_str_order(x.0, last.0);
                } else {
                    assert(t.to_multiset().count(e) > 0);
                    let m = lemma_member_index(t, e);
                    assert(sorted[m] == e);
                    assert(!str_before(sorted[sorted.len() - 1].0, sorted[m].0));
                }
            }
        }
    }
}

proof fn lemma_sort_sorted(s: Seq<(Seq<char>, Seq<char>)>)
    ensures
        column_sorted(sort_by_column(s)),
    decreases s.len(),
{
    if s.len() > 0 {
        lemma_sort_sorted(s.drop_last());
        lemma_insert_sorted(sort_by_column(s.drop_last()), s.last());
    }
}

proof fn lemma_entry_sorted(s: Seq<(Seq<char>, Seq<char>)>, r: Seq<(Seq<char>, Seq<char>)>)
    requires
        distinct_columns(s),
        r.to_multiset() == s.to_multiset(),
        column_sorted(r),
    ensures
        sorted_by(r, |p: (Seq<char>, Seq<char>), q: (Seq<char>, Seq<char>)| entry_le(p, q)),
{
    broadcast use vstd::seq_lib::group_to_multiset_ensures;
    assert(s.no_duplicates()) by {
        assert forall|i: int, j: int| 0 <= i < s.len() && 0 <= j < s.len() && i != j implies s[i] != s[j] by {
            assert(s[i].0 != s[j].0);
        }
    }
    s.lemma_multiset_has_no_duplicates();
    r.lemma_multiset_has_no_duplicates_conv();
    let leq = |p: (Seq<char>, Seq<char>), q: (Seq<char>, Seq<char>)| entry_le(p, q);
    assert forall|i: int, j: int| 0 <= i < j < r.len() implies #[trigger] leq(r[i], r[j]) by {
        assert(!str_before(r[j].0, r[i].0));
        lemma_str_order(r[i].0, r[j].0);
        if r[i].0 == r[j].0 {
            assert(r.contains(r[i]));
            assert(r.contains(r[j]));
            let a = lemma_member_index(s, r[i]);
            let b = lemma_member_index(s, r[j]);
            assert(r[i] != r[j]);
            assert(a != b);
            assert(s[a].0 != s[b].0);
        }
    }
}

/// Lists holding the same entries, with no column named twice, are sorted into the same
/// list: the order in which entries were given does not matter.
pub proof fn lemma_sort_by_column_unique(s1: Seq<(Seq<char>, Seq<char>)>, s2: Seq<(Seq<char>, Seq<char>)>)
    requires
        s1.to_multiset() == s2.to_multiset(),
        distinct_columns(s1),
    ensures
        sort_by_column(s1) == sort_by_column(s2),
{
    let r1 = sort_by_column(s1);
    let r2 = sort_by_column(s2);
    lemma_sort_multiset(s1);
    lemma_sort_multiset(s2);
    lemma_sort_sorted(s1);
    lemma_sort_sorted(s2);
    lemma_entry_sorted(s1, r1);
    lemma_entry_sorted(s1, r2);
    lemma_entry_le_total();
    vstd::seq_lib::lemma_sorted_unique(r1, r2, |p: (Seq<char>, Seq<char>), q: (Seq<char>, Seq<char>)| entry_le(p, q));
}

/// An assignment's column with its canonical value (when that value does not fail).
pub open spec fn assign_entry(a: (Seq<char>, AssignView), d: Dialect) -> (Seq<char>, Seq<char>) {
    (a.0, assign_canon(a.1, d)->Ok_0)
}

proof fn lemma_pairs_ok(asg: Seq<(Seq<char>, AssignView)>, d: Dialect)
    ensures
        (assign_pairs(asg, d) is Ok) <==> (forall|i: int| 0 <= i < asg.len() ==> (#[trigger] assign_canon(asg[i].1, d)) is Ok),
        assign_pairs(asg, d) is Ok ==> assign_pairs(asg, d)->Ok_0 =~= asg.map_values(|a: (Seq<char>, AssignView)| assign_entry(a, d)),
    decreases asg.len(),
{
    if asg.len() > 0 {
        let t = asg.drop_last();
        lemma_pairs_ok(t, d);
        if !(assign_pairs(asg, d) is Ok) {
            if assign_pairs(t, d) is Err {
                let i = choose|i: int| 0 <= i < t.len() && !((#[trigger] assign_canon(t[i].1, d)) is Ok);
                assert(asg[i] == t[i]);
            } else {
                assert(!(assign_canon(asg[asg.len() - 1].1, d) is Ok));
            }
        } else {
            assert forall|i: int| 0 <= i < asg.len() implies (#[trigger] assign_canon(asg[i].1, d)) is Ok by {
                if i < t.len() {
                    assert(asg[i] == t[i]);
                }
            }
        }
    }
}

proof fn lemma_map_multiset<A, B>(s1: Seq<A>, s2: Seq<A>, f: spec_fn(A) -> B)
    requires
        s1.to_multiset() == s2.to_multiset(),
    ensures
        s1.map_values(f).to_multiset() =~= s2.map_values(f).to_multiset(),
    decreases s1.len(),
{
    broadcast use vstd::seq_lib::group_to_multiset_ensures;
    broadcast use vstd::multiset::group_multiset_axioms;
    if s1.len() == 0 {
        vstd::seq_lib::to_multiset_len(s1);
        vstd::seq_lib::to_multiset_len(s2);
        assert(s2.len() == 0);
        assert(s1.map_values(f) =~= Seq::<B>::empty());
        assert(s2.map_values(f) =~= Seq::<B>::empty());
    } else {
        let x = s1.last();
        let t1 = s1.drop_last();
        assert(s1 =~= t1.push(x));
        assert(s1.contains(x));
        assert(s2.to_multiset().count(x) > 0);
        assert(s2.contains(x));
        let k = choose|k: int| 0 <= k < s2.len() && s2[k] == x;
        let t2 = s2.remove(k);
        assert(t2.to_multiset() =~= s2.to_multiset().remove(x));
        assert(t1.to_multiset() =~= s1.to_multiset().remove(x));
        lemma_map_multiset(t1, t2, f);
        assert(s1.map_values(f) =~= t1.map_values(f).push(f(x)));
        assert(s2.map_values(f).remove(k) =~= t2.map_values(f));
        assert(s2.map_values(f)[k] == f(x));
        assert(s2.map_values(f).to_multiset().count(f(x)) > 0) by {
            assert(s2.map_values(f).contains(f(x)));
        }
        assert(s2.map_values(f).to_multiset() =~= t2.map_values(f).to_multiset().insert(f(x)));
    }
}

/// Assignment lists holding the same assignments in another order, with no column set
/// twice and no value that fails, have the same canonical text.
pub proof fn lemma_assignment_order_irrelevant(a1: Seq<(Seq<char>, AssignView)>, a2: Seq<(Seq<char>, AssignView)>, d: Dialect)
    requires
        a1.to_multiset() == a2.to_multiset(),
        forall|i: int, j: int| 0 <= i < a1.len() && 0 <= j < a1.len() && i != j ==> #[trigger] a1[i].0 != #[trigger] a1[j].0,
        assign_pairs(a1, d) is Ok,
    ensures
        assignments_text(a1, d) == assignments_text(a2, d),
{
    broadcast use vstd::seq_lib::group_to_multiset_ensures;
    let f = |a: (Seq<char>, AssignView)| assign_entry(a, d);
    lemma_pairs_ok(a1, d);
    lemma_pairs_ok(a2, d);
    assert forall|i: int| 0 <= i < a2.len() implies (#[trigger] assign_canon(a2[i].1, d)) is Ok by {
        assert(a2.contains(a2[i]));
        assert(a1.to_multiset().count(a2[i]) > 0);
        assert(a1.contains(a2[i]));
        let k = choose|k: int| 0 <= k < a1.len() && a1[k] == a2[i];
        assert(assign_canon(a1[k].1, d) is Ok);
    }
    let p1 = a1.map_values(f);
    let p2 = a2.map_values(f);
    lemma_map_multiset(a1, a2, f);
    assert(distinct_columns(p1)) by {
        assert forall|i: int, j: int| 0 <= i < p1.len() && 0 <= j < p1.len() && i != j implies #[trigger] p1[i].0 != #[trigger] p1[j].0 by {
            assert(a1[i].0 != a1[j].0);
        }
    }
    lemma_sort_by_column_unique(p1, p2);
}

} // verus!
