//! Accumulated query-builder state.
use crate::dialect::{Dialect, DialectWarning};
use crate::expr_copy::NodeSem;
use crate::expr_node::{ExprNode, WarningView};
use crate::text::{ascii_lower, ascii_lower_char, ascii_upper, ascii_upper_char, is_ascii_text, is_white_space, str_eq, to_uppercase, trim_str, trim, trim_end, trim_start, unicode_upper, push_str};
use crate::types::{
    duplicate_option, duplicate_vec, Duplicate, QueryView, SqlIdentifier, SqlQuery, SqlValue, ValueView,
};
use vstd::prelude::*;

verus! {

/// Strength of a `SELECT … FOR …` row lock.
#[derive(Clone, Copy, PartialEq, Eq, Structural, Debug)]
pub enum LockStrength {
    Update,
    Share,
}

impl LockStrength {
    pub open spec fn spec_as_sql(self) -> Seq<char> {
        match self {
            LockStrength::Update => "FOR UPDATE"@,
            LockStrength::Share => "FOR SHARE"@,
        }
    }

    pub fn as_sql(self) -> (r: &'static str)
        ensures
            r@ == self.spec_as_sql(),
    {
        match self {
            LockStrength::Update => "FOR UPDATE",
            LockStrength::Share => "FOR SHARE",
        }
    }
}

/// Modifier of a `SELECT … FOR …` row lock.
#[derive(Clone, Copy, PartialEq, Eq, Structural, Debug)]
pub enum LockModifier {
    NoWait,
    SkipLocked,
}

impl LockModifier {
    pub open spec fn spec_as_sql(self) -> Seq<char> {
        match self {
            LockModifier::NoWait => "NOWAIT"@,
            LockModifier::SkipLocked => "SKIP LOCKED"@,
        }
    }

    pub fn as_sql(self) -> (r: &'static str)
        ensures
            r@ == self.spec_as_sql(),
    {
        match self {
            LockModifier::NoWait => "NOWAIT",
            LockModifier::SkipLocked => "SKIP LOCKED",
        }
    }
}

/// A `SELECT` lock clause.
#[derive(Clone, Copy, PartialEq, Eq, Structural, Debug)]
pub struct SelectLockClause {
    pub strength: LockStrength,
    pub modifier: Option<LockModifier>,
}

/// `LIMIT` / `OFFSET` state of a `SELECT`.
#[derive(Clone, Copy, PartialEq, Eq, Structural, Debug)]
pub struct PaginationState {
    pub limit: Option<u32>,
    pub offset: Option<u32>,
}

impl PaginationState {
    pub fn new() -> (r: Self)
        ensures
            r.limit is None,
            r.offset is None,
    {
        PaginationState { limit: None, offset: None }
    }
}

// ─── Statement kind ──────────────────────────────────────────────────────────

/// The kind of statement a builder produces.
#[derive(Clone, Copy, PartialEq, Eq, Structural, Debug)]
pub enum StatementKind {
    Select,
    Insert,
    Update,
    Delete,
}

// ─── CTE ─────────────────────────────────────────────────────────────────────

/// One common table expression.
pub struct CteDefinition {
    pub name: String,
    pub recursive: bool,
    pub columns: Vec<String>,
    pub query: SqlQuery,
}

/// The abstract content of a [`CteDefinition`].
pub struct CteView {
    pub name: Seq<char>,
    pub recursive: bool,
    pub columns: Seq<Seq<char>>,
    pub query: QueryView,
}

impl DeepView for CteDefinition {
    type V = CteView;

    open spec fn deep_view(&self) -> CteView {
        CteView { name: self.name@, recursive: self.recursive, columns: self.columns.deep_view(), query: self.query@ }
    }
}

impl Duplicate for CteDefinition {
    fn duplicate(&self) -> (r: CteDefinition) {
        CteDefinition {
            name: self.name.clone(),
            recursive: self.recursive,
            columns: duplicate_vec(&self.columns),
            query: self.query.copy(),
        }
    }
}

// ─── JOIN ────────────────────────────────────────────────────────────────────

/// Canonical SQL join type understood by the builder.
#[derive(Clone, Copy, PartialEq, Eq, Structural, Debug)]
pub enum JoinType {
    Inner,
    Left,
    Right,
    FullOuter,
    Cross,
}

/// The join type a trimmed, uppercased keyword names, if any.
pub open spec fn join_type_for(u: Seq<char>) -> Option<JoinType> {
    if u == "INNER JOIN"@ || u == "INNER"@ {
        Some(JoinType::Inner)
    } else if u == "LEFT JOIN"@ || u == "LEFT OUTER JOIN"@ || u == "LEFT"@ {
        Some(JoinType::Left)
    } else if u == "RIGHT JOIN"@ || u == "RIGHT OUTER JOIN"@ || u == "RIGHT"@ {
        Some(JoinType::Right)
    } else if u == "FULL OUTER JOIN"@ || u == "FULL JOIN"@ || u == "FULL OUTER"@ || u == "FULL"@ {
        Some(JoinType::FullOuter)
    } else if u == "CROSS JOIN"@ || u == "CROSS"@ {
        Some(JoinType::Cross)
    } else {
        None
    }
}

/// What [`JoinType::parse`] gives for `s`.
pub open spec fn spec_parse_join_type(s: Seq<char>) -> Result<JoinType, Seq<char>> {
    let u = unicode_upper(trim(s));
    match join_type_for(u) {
        Some(t) => Ok(t),
        None => Err("Unknown join type: '"@ + u + "'"@),
    }
}

/// Upper-case words: ASCII capitals separated by single-character spaces, with a letter
/// at each end.
pub open spec fn upper_words(k: Seq<char>) -> bool {
    &&& k.len() > 0
    &&& k[0] != ' '
    &&& k.last() != ' '
    &&& forall|i: int| 0 <= i < k.len() ==> ('A' <= #[trigger] k[i] && k[i] <= 'Z') || k[i] == ' '
}

proof fn lemma_upper_words(k: Seq<char>)
    requires
        upper_words(k),
    ensures
        trim(k) == k,
        is_ascii_text(k),
        ascii_upper(k) == k,
        trim(ascii_lower(k)) == ascii_lower(k),
        is_ascii_text(ascii_lower(k)),
        ascii_upper(ascii_lower(k)) == k,
{
    let l = ascii_lower(k);
    assert(!is_white_space(k[0]));
    assert(!is_white_space(k.last()));
    assert(trim_start(k) == k);
    assert(trim(k) == k);
    assert(ascii_upper(k) =~= k);
    assert(l[0] == ascii_lower_char(k[0]));
    assert(l.last() == ascii_lower_char(k.last()));
    assert(!is_white_space(l[0]));
    assert(!is_white_space(l.last()));
    assert(trim_start(l) == l);
    assert(ascii_upper(l) =~= k) by {
        assert forall|i: int| 0 <= i < k.len() implies ascii_upper(l)[i] == k[i] by {
            assert(l[i] == ascii_lower_char(k[i]));
            assert(ascii_upper_char(ascii_lower_char(k[i])) == k[i]);
        }
    }
    assert forall|i: int| 0 <= i < l.len() implies (#[trigger] l[i] as u32) < 128 by {
        assert(l[i] == ascii_lower_char(k[i]));
    }
}

/// The canonical keyword of a join type, and its lowercase spelling, are ASCII text with
/// no surrounding white space whose upper case is the keyword.
proof fn lemma_keyword_spellings(t: JoinType)
    ensures
        is_ascii_text(trim(t.spec_as_sql())),
        join_type_for(ascii_upper(trim(t.spec_as_sql()))) == Some(t),
        is_ascii_text(trim(ascii_lower(t.spec_as_sql()))),
        join_type_for(ascii_upper(trim(ascii_lower(t.spec_as_sql())))) == Some(t),
{
    let k = t.spec_as_sql();
    reveal_strlit("INNER JOIN");
    reveal_strlit("LEFT JOIN");
    reveal_strlit("RIGHT JOIN");
    reveal_strlit("FULL OUTER JOIN");
    reveal_strlit("CROSS JOIN");
    assert(upper_words(k));
    lemma_upper_words(k);
    crate::builder::laws::lemma_join_keyword_roundtrip(t);
}

impl JoinType {
    pub open spec fn spec_as_sql(self) -> Seq<char> {
        match self {
            JoinType::Inner => "INNER JOIN"@,
            JoinType::Left => "LEFT JOIN"@,
            JoinType::Right => "RIGHT JOIN"@,
            JoinType::FullOuter => "FULL OUTER JOIN"@,
            JoinType::Cross => "CROSS JOIN"@,
        }
    }

    /// Parse a case-insensitive join type string (surrounding white space ignored). Every
    /// canonical keyword, and its lowercase spelling, parses back to its join type.
    pub fn parse(s: &str) -> (r: Result<JoinType, String>)
        ensures
            match (r, spec_parse_join_type(s@)) {
                (Ok(a), Ok(b)) => a == b,
                (Err(a), Err(b)) => a@ == b,
                _ => false,
            },
            is_ascii_text(trim(s@)) ==> match join_type_for(ascii_upper(trim(s@))) {
                Some(t) => r == Ok::<JoinType, String>(t),
                None => r is Err,
            },
            forall|t: JoinType| #![trigger t.spec_as_sql()]
                s@ == t.spec_as_sql() || s@ == ascii_lower(t.spec_as_sql()) ==> r == Ok::<JoinType, String>(t),
    {
        let t = trim_str(s);
        let u = to_uppercase(t.as_str());
        proof {
            assert forall|jt: JoinType| #![trigger jt.spec_as_sql()]
                s@ == jt.spec_as_sql() || s@ == ascii_lower(jt.spec_as_sql()) implies
                    is_ascii_text(trim(s@)) && join_type_for(ascii_upper(trim(s@))) == Some(jt) by {
                lemma_keyword_spellings(jt);
            }
        }
        let v = u.as_str();
        if str_eq(v, "INNER JOIN") || str_eq(v, "INNER") {
            Ok(JoinType::Inner)
        } else if str_eq(v, "LEFT JOIN") || str_eq(v, "LEFT OUTER JOIN") || str_eq(v, "LEFT") {
            Ok(JoinType::Left)
        } else if str_eq(v, "RIGHT JOIN") || str_eq(v, "RIGHT OUTER JOIN") || str_eq(v, "RIGHT") {
            Ok(JoinType::Right)
        } else if str_eq(v, "FULL OUTER JOIN") || str_eq(v, "FULL JOIN") || str_eq(v, "FULL OUTER") || str_eq(v, "FULL") {
            Ok(JoinType::FullOuter)
        } else if str_eq(v, "CROSS JOIN") || str_eq(v, "CROSS") {
            Ok(JoinType::Cross)
        } else {
            let mut e = String::from_str("Unknown join type: '");
            push_str(&mut e, v);
            push_str(&mut e, "'");
            Err(e)
        }
    }

    /// The canonical SQL keyword of this join type.
    pub fn as_sql(self) -> (r: &'static str)
        ensures
            r@ == self.spec_as_sql(),
    {
        match self {
            JoinType::Inner => "INNER JOIN",
            JoinType::Left => "LEFT JOIN",
            JoinType::Right => "RIGHT JOIN",
            JoinType::FullOuter => "FULL OUTER JOIN",
            JoinType::Cross => "CROSS JOIN",
        }
    }
}

/// A join opened by a `join*()` call, awaiting `on()` / `using()`.
pub struct PendingJoinState {
    pub join_type: JoinType,
    pub source: SqlQuery,
    pub predicate: Option<SqlQuery>,
    pub using: Vec<SqlIdentifier>,
}

/// The abstract content of a [`PendingJoinState`].
pub struct PendingJoinView {
    pub join_type: JoinType,
    pub source: QueryView,
    pub predicate: Option<QueryView>,
    pub using: Seq<Seq<Seq<char>>>,
}

impl DeepView for PendingJoinState {
    type V = PendingJoinView;

    open spec fn deep_view(&self) -> PendingJoinView {
        PendingJoinView {
            join_type: self.join_type,
            source: self.source@,
            predicate: self.predicate.deep_view(),
            using: self.using.deep_view(),
        }
    }
}

impl Duplicate for PendingJoinState {
    fn duplicate(&self) -> (r: PendingJoinState) {
        PendingJoinState {
            join_type: self.join_type,
            source: self.source.copy(),
            predicate: duplicate_option(&self.predicate),
            using: duplicate_vec(&self.using),
        }
    }
}

// ─── Compound operators ──────────────────────────────────────────────────────

/// A set operator combining two queries.
#[derive(Clone, Copy, PartialEq, Eq, Structural, Debug)]
pub enum CompoundOperator {
    Union,
    UnionAll,
    Intersect,
    Except,
}

impl CompoundOperator {
    pub open spec fn spec_as_sql(self) -> Seq<char> {
        match self {
            CompoundOperator::Union => "UNION"@,
            CompoundOperator::UnionAll => "UNION ALL"@,
            CompoundOperator::Intersect => "INTERSECT"@,
            CompoundOperator::Except => "EXCEPT"@,
        }
    }

    pub fn as_sql(self) -> (r: &'static str)
        ensures
            r@ == self.spec_as_sql(),
    {
        match self {
            CompoundOperator::Union => "UNION",
            CompoundOperator::UnionAll => "UNION ALL",
            CompoundOperator::Intersect => "INTERSECT",
            CompoundOperator::Except => "EXCEPT",
        }
    }

    /// The operator whose SQL keyword is exactly `s`.
    pub fn from_keyword(s: &str) -> (r: Result<CompoundOperator, String>)
        ensures
            r matches Ok(op) ==> op.spec_as_sql() == s@,
            r is Err <==> (s@ != "UNION"@ && s@ != "UNION ALL"@ && s@ != "INTERSECT"@ && s@ != "EXCEPT"@),
            r matches Err(e) ==> e@ == "Unknown compound operator: "@ + s@,
    {
        if str_eq(s, "UNION") {
            Ok(CompoundOperator::Union)
        } else if str_eq(s, "UNION ALL") {
            Ok(CompoundOperator::UnionAll)
        } else if str_eq(s, "INTERSECT") {
            Ok(CompoundOperator::Intersect)
        } else if str_eq(s, "EXCEPT") {
            Ok(CompoundOperator::Except)
        } else {
            let mut e = String::from_str("Unknown compound operator: ");
            push_str(&mut e, s);
            Err(e)
        }
    }
}

/// One set operation appended to the query.
pub struct CompoundPart {
    pub operator: CompoundOperator,
    pub query: SqlQuery,
}

impl DeepView for CompoundPart {
    type V = (CompoundOperator, QueryView);

    open spec fn deep_view(&self) -> (CompoundOperator, QueryView) {
        (self.operator, self.query@)
    }
}

impl Duplicate for CompoundPart {
    fn duplicate(&self) -> (r: CompoundPart) {
        CompoundPart { operator: self.operator, query: self.query.copy() }
    }
}

// ─── INSERT ──────────────────────────────────────────────────────────────────

/// The conflict target of an insert.
pub enum InsertConflictTarget {
    Columns(Vec<String>),
    Constraint(String),
}

pub enum TargetView {
    Columns(Seq<Seq<char>>),
    Constraint(Seq<char>),
}

impl DeepView for InsertConflictTarget {
    type V = TargetView;

    open spec fn deep_view(&self) -> TargetView {
        match self {
            InsertConflictTarget::Columns(c) => TargetView::Columns(c.deep_view()),
            InsertConflictTarget::Constraint(n) => TargetView::Constraint(n@),
        }
    }
}

impl Duplicate for InsertConflictTarget {
    fn duplicate(&self) -> (r: InsertConflictTarget) {
        match self {
            InsertConflictTarget::Columns(c) => InsertConflictTarget::Columns(duplicate_vec(c)),
            InsertConflictTarget::Constraint(n) => InsertConflictTarget::Constraint(n.clone()),
        }
    }
}

/// The value assigned to a column: a ready value or an expression evaluated at render time.
pub enum AssignmentValue {
    Sql(SqlValue),
    Expr(ExprNode),
}

pub enum AssignView {
    Sql(ValueView),
    Expr(NodeSem),
}

impl DeepView for AssignmentValue {
    type V = AssignView;

    open spec fn deep_view(&self) -> AssignView {
        match self {
            AssignmentValue::Sql(v) => AssignView::Sql(v.deep_view()),
            AssignmentValue::Expr(e) => AssignView::Expr(e.deep_view()),
        }
    }
}

impl Duplicate for AssignmentValue {
    fn duplicate(&self) -> (r: AssignmentValue) {
        match self {
            AssignmentValue::Sql(v) => AssignmentValue::Sql(v.duplicate()),
            AssignmentValue::Expr(e) => AssignmentValue::Expr(e.duplicate()),
        }
    }
}

/// `column = value`.
pub struct UpdateAssignment {
    pub column: String,
    pub value: AssignmentValue,
}

impl DeepView for UpdateAssignment {
    type V = (Seq<char>, AssignView);

    open spec fn deep_view(&self) -> (Seq<char>, AssignView) {
        (self.column@, self.value.deep_view())
    }
}

impl Duplicate for UpdateAssignment {
    fn duplicate(&self) -> (r: UpdateAssignment) {
        UpdateAssignment { column: self.column.clone(), value: self.value.duplicate() }
    }
}

/// What an insert does on conflict.
pub enum InsertConflictAction {
    DoNothing,
    DoUpdate { assignments: Vec<UpdateAssignment>, predicate: Option<SqlQuery> },
}

pub enum ActionView {
    DoNothing,
    DoUpdate { assignments: Seq<(Seq<char>, AssignView)>, predicate: Option<QueryView> },
}

impl DeepView for InsertConflictAction {
    type V = ActionView;

    open spec fn deep_view(&self) -> ActionView {
        match self {
            InsertConflictAction::DoNothing => ActionView::DoNothing,
            InsertConflictAction::DoUpdate { assignments, predicate } => ActionView::DoUpdate {
                assignments: assignments.deep_view(),
                predicate: predicate.deep_view(),
            },
        }
    }
}

impl Duplicate for InsertConflictAction {
    fn duplicate(&self) -> (r: InsertConflictAction) {
        match self {
            InsertConflictAction::DoNothing => InsertConflictAction::DoNothing,
            InsertConflictAction::DoUpdate { assignments, predicate } => InsertConflictAction::DoUpdate {
                assignments: duplicate_vec(assignments),
                predicate: duplicate_option(predicate),
            },
        }
    }
}

/// Conflict handling of an insert.
pub struct InsertConflict {
    pub target: Option<InsertConflictTarget>,
    pub action: Option<InsertConflictAction>,
}

pub struct ConflictView {
    pub target: Option<TargetView>,
    pub action: Option<ActionView>,
}

impl DeepView for InsertConflict {
    type V = ConflictView;

    open spec fn deep_view(&self) -> ConflictView {
        ConflictView { target: self.target.deep_view(), action: self.action.deep_view() }
    }
}

impl Duplicate for InsertConflict {
    fn duplicate(&self) -> (r: InsertConflict) {
        InsertConflict { target: duplicate_option(&self.target), action: duplicate_option(&self.action) }
    }
}

/// State of an INSERT.
pub struct InsertState {
    pub into: Option<String>,
    pub column_names: Vec<String>,
    pub rows: Vec<Vec<SqlValue>>,
    pub select: Option<SqlQuery>,
    pub conflict: InsertConflict,
}

pub struct InsertView {
    pub into: Option<Seq<char>>,
    pub column_names: Seq<Seq<char>>,
    pub rows: Seq<Seq<ValueView>>,
    pub select: Option<QueryView>,
    pub conflict: ConflictView,
}

impl DeepView for InsertState {
    type V = InsertView;

    open spec fn deep_view(&self) -> InsertView {
        InsertView {
            into: self.into.deep_view(),
            column_names: self.column_names.deep_view(),
            rows: self.rows.deep_view(),
            select: self.select.deep_view(),
            conflict: self.conflict.deep_view(),
        }
    }
}

impl Duplicate for Vec<SqlValue> {
    fn duplicate(&self) -> (r: Vec<SqlValue>) {
        duplicate_vec(self)
    }
}

impl Duplicate for InsertState {
    fn duplicate(&self) -> (r: InsertState) {
        InsertState {
            into: duplicate_option(&self.into),
            column_names: duplicate_vec(&self.column_names),
            rows: duplicate_vec(&self.rows),
            select: duplicate_option(&self.select),
            conflict: self.conflict.duplicate(),
        }
    }
}

impl InsertState {
    /// An insert with nothing set.
    pub fn new() -> (r: InsertState)
        ensures
            r.deep_view() == empty_insert(),
    {
        let r = InsertState {
            into: None,
            column_names: Vec::new(),
            rows: Vec::new(),
            select: None,
            conflict: InsertConflict { target: None, action: None },
        };
        assert(r.deep_view().column_names =~= Seq::<Seq<char>>::empty());
        assert(r.deep_view().rows =~= Seq::<Seq<ValueView>>::empty());
        r
    }
}

pub open spec fn empty_insert() -> InsertView {
    InsertView {
        into: None,
        column_names: Seq::empty(),
        rows: Seq::empty(),
        select: None,
        conflict: ConflictView { target: None, action: None },
    }
}

// ─── UPDATE ──────────────────────────────────────────────────────────────────

/// State of an UPDATE.
pub struct UpdateState {
    pub table: Option<String>,
    pub assignments: Vec<UpdateAssignment>,
}

pub struct UpdateView {
    pub table: Option<Seq<char>>,
    pub assignments: Seq<(Seq<char>, AssignView)>,
}

impl DeepView for UpdateState {
    type V = UpdateView;

    open spec fn deep_view(&self) -> UpdateView {
        UpdateView { table: self.table.deep_view(), assignments: self.assignments.deep_view() }
    }
}

impl Duplicate for UpdateState {
    fn duplicate(&self) -> (r: UpdateState) {
        UpdateState { table: duplicate_option(&self.table), assignments: duplicate_vec(&self.assignments) }
    }
}

impl UpdateState {
    pub fn new() -> (r: UpdateState)
        ensures
            r.deep_view() == (UpdateView { table: None, assignments: Seq::empty() }),
    {
        let r = UpdateState { table: None, assignments: Vec::new() };
        assert(r.deep_view().assignments =~= Seq::<(Seq<char>, AssignView)>::empty());
        r
    }
}

// ─── WHERE / HAVING ──────────────────────────────────────────────────────────

/// Logical operator joining a predicate onto the preceding one.
#[derive(Clone, Copy, PartialEq, Eq, Structural, Debug)]
pub enum LogicalOp {
    And,
    Or,
}

impl LogicalOp {
    pub open spec fn spec_as_str(self) -> Seq<char> {
        match self {
            LogicalOp::And => "AND"@,
            LogicalOp::Or => "OR"@,
        }
    }

    pub fn as_str(self) -> (r: &'static str)
        ensures
            r@ == self.spec_as_str(),
    {
        match self {
            LogicalOp::And => "AND",
            LogicalOp::Or => "OR",
        }
    }
}

/// One predicate of a flat WHERE / HAVING list.
pub struct WhereEntry {
    pub pred: SqlQuery,
    pub op: LogicalOp,
}

impl DeepView for WhereEntry {
    type V = (QueryView, LogicalOp);

    open spec fn deep_view(&self) -> (QueryView, LogicalOp) {
        (self.pred@, self.op)
    }
}

impl Duplicate for WhereEntry {
    fn duplicate(&self) -> (r: WhereEntry) {
        WhereEntry { pred: self.pred.copy(), op: self.op }
    }
}

// ─── DELETE ──────────────────────────────────────────────────────────────────

/// State of a DELETE.
pub struct DeleteState {
    pub from_table: Option<String>,
}

impl DeleteState {
    pub fn new() -> (r: DeleteState)
        ensures
            r.from_table is None,
    {
        DeleteState { from_table: None }
    }
}

// ─── DISTINCT ────────────────────────────────────────────────────────────────

/// DISTINCT, or DISTINCT ON a list of expressions.
pub enum DistinctMode {
    Distinct,
    On(Vec<SqlQuery>),
}

pub enum DistinctView {
    Distinct,
    On(Seq<QueryView>),
}

impl DeepView for DistinctMode {
    type V = DistinctView;

    open spec fn deep_view(&self) -> DistinctView {
        match self {
            DistinctMode::Distinct => DistinctView::Distinct,
            DistinctMode::On(v) => DistinctView::On(v.deep_view()),
        }
    }
}

impl Duplicate for DistinctMode {
    fn duplicate(&self) -> (r: DistinctMode) {
        match self {
            DistinctMode::Distinct => DistinctMode::Distinct,
            DistinctMode::On(v) => DistinctMode::On(duplicate_vec(v)),
        }
    }
}

impl DeepView for DialectWarning {
    type V = WarningView;

    open spec fn deep_view(&self) -> WarningView {
        self@
    }
}

impl Duplicate for DialectWarning {
    fn duplicate(&self) -> (r: DialectWarning) {
        self.copy()
    }
}

// ─── Validation cache ────────────────────────────────────────────────────────

pub const VALIDATION_STATUS_UNKNOWN: u8 = 0;

pub const VALIDATION_STATUS_VALID: u8 = 1;

pub const VALIDATION_STATUS_INVALID: u8 = 2;

/// The remembered outcome of validating one builder state.
pub struct ValidationCache {
    pub status: u8,
    pub error: Option<String>,
}

/// The cache after running the validation with outcome `res`, and what is returned.
pub open spec fn cache_after(old: ValidationCache, res: Result<(), String>, new: ValidationCache, r: Result<(), String>) -> bool {
    match res {
        Ok(_) => new.status == VALIDATION_STATUS_VALID && new.error == old.error && r is Ok,
        Err(e) => {
            let stored = match old.error {
                Some(s) => s,
                None => e,
            };
            new.status == VALIDATION_STATUS_INVALID && new.error == Some(stored) && r == Err::<(), String>(stored)
        },
    }
}

/// The outcome a cache holds, when it holds one: a stored success, or a stored failure
/// with its message.
pub open spec fn remembered_outcome(c: ValidationCache) -> Option<Result<(), Seq<char>>> {
    if c.status == VALIDATION_STATUS_VALID {
        Some(Ok(()))
    } else if c.status == VALIDATION_STATUS_INVALID {
        Some(Err(match c.error {
            Some(s) => s@,
            None => "Validation cache missing stored error"@,
        }))
    } else {
        None
    }
}

/// The outcome a call returned, by its view.
pub open spec fn outcome_view(r: Result<(), String>) -> Result<(), Seq<char>> {
    match r {
        Ok(_) => Ok(()),
        Err(e) => Err(e@),
    }
}

impl ValidationCache {
    /// A cache that knows nothing yet.
    pub fn new() -> (r: ValidationCache)
        ensures
            r.status == VALIDATION_STATUS_UNKNOWN,
            r.error is None,
    {
        ValidationCache { status: VALIDATION_STATUS_UNKNOWN, error: None }
    }

    /// The remembered outcome, or the outcome of `init` (which is then remembered).
    pub fn get_or_try_init<F: FnOnce() -> Result<(), String>>(&mut self, init: F) -> (r: Result<(), String>)
        requires
            init.requires(()),
        ensures
            old(self).status == VALIDATION_STATUS_VALID ==> r is Ok && *final(self) == *old(self),
            old(self).status == VALIDATION_STATUS_INVALID ==> *final(self) == *old(self) && (r matches Err(e) && e@ == (
                match old(self).error {
                    Some(s) => s@,
                    None => "Validation cache missing stored error"@,
                })),
            old(self).status != VALIDATION_STATUS_VALID && old(self).status != VALIDATION_STATUS_INVALID ==> exists|res: Result<(), String>|
                init.ensures((), res) && cache_after(*old(self), res, *final(self), r),
            remembered_outcome(*old(self)) matches Some(o) ==> outcome_view(r) == o && *final(self) == *old(self),
    {
        if self.status == VALIDATION_STATUS_VALID {
            return Ok(());
        }
        if self.status == VALIDATION_STATUS_INVALID {
            return match &self.error {
                Some(e) => Err(e.clone()),
                None => Err(String::from_str("Validation cache missing stored error")),
            };
        }
        let ghost before = *self;
        let res = init();
        let ghost gres = res;
        let r = match res {
            Ok(()) => {
                self.status = VALIDATION_STATUS_VALID;
                Ok(())
            },
            Err(err) => {
                let stored = match &self.error {
                    Some(s) => s.clone(),
                    None => err,
                };
                self.error = Some(stored.clone());
                self.status = VALIDATION_STATUS_INVALID;
                Err(stored)
            },
        };
        assert(init.ensures((), gres) && cache_after(before, gres, *self, r));
        r
    }
}

impl DeepView for ValidationCache {
    type V = (u8, Option<Seq<char>>);

    open spec fn deep_view(&self) -> (u8, Option<Seq<char>>) {
        (self.status, self.error.deep_view())
    }
}

impl Duplicate for ValidationCache {
    fn duplicate(&self) -> (r: ValidationCache) {
        ValidationCache { status: self.status, error: duplicate_option(&self.error) }
    }
}

// ─── QueryParts ──────────────────────────────────────────────────────────────

/// All accumulated state of one query-builder instance.
pub struct QueryParts {
    pub dialect: Dialect,
    pub statement: Option<StatementKind>,
    pub ctes: Vec<CteDefinition>,
    pub distinct: Option<DistinctMode>,
    /// Content of the SELECT clause (no leading keyword).
    pub select: Option<SqlQuery>,
    pub selected_columns: Vec<String>,
    pub from: Option<SqlQuery>,
    pub joins: Vec<SqlQuery>,
    pub pending_join: Option<PendingJoinState>,
    pub where_clauses: Vec<WhereEntry>,
    pub group_by: Vec<SqlIdentifier>,
    pub having_clauses: Vec<WhereEntry>,
    pub order_by: Vec<SqlQuery>,
    pub pagination: PaginationState,
    pub lock: Option<SelectLockClause>,
    pub returning: Option<SqlQuery>,
    pub compounds: Vec<CompoundPart>,
    pub insert: InsertState,
    pub update: UpdateState,
    pub delete: DeleteState,
    /// The rendered query, once an output has been asked for.
    pub cached_query: Option<SqlQuery>,
    /// The remembered outcome of validating this exact state.
    pub validation_cache: ValidationCache,
    /// When set, fallback rewrites are refused instead of rendered with a warning.
    pub dialect_strict: bool,
    /// Warnings recorded while evaluating predicates.
    pub pending_warnings: Vec<DialectWarning>,
}

/// The abstract content of a [`QueryParts`].
pub struct PartsView {
    pub dialect: Dialect,
    pub statement: Option<StatementKind>,
    pub ctes: Seq<CteView>,
    pub distinct: Option<DistinctView>,
    pub select: Option<QueryView>,
    pub selected_columns: Seq<Seq<char>>,
    pub from: Option<QueryView>,
    pub joins: Seq<QueryView>,
    pub pending_join: Option<PendingJoinView>,
    pub where_clauses: Seq<(QueryView, LogicalOp)>,
    pub group_by: Seq<Seq<Seq<char>>>,
    pub having_clauses: Seq<(QueryView, LogicalOp)>,
    pub order_by: Seq<QueryView>,
    pub pagination: PaginationState,
    pub lock: Option<SelectLockClause>,
    pub returning: Option<QueryView>,
    pub compounds: Seq<(CompoundOperator, QueryView)>,
    pub insert: InsertView,
    pub update: UpdateView,
    pub delete_from: Option<Seq<char>>,
    pub cached_query: Option<QueryView>,
    pub validation: (u8, Option<Seq<char>>),
    pub dialect_strict: bool,
    pub pending_warnings: Seq<WarningView>,
}

impl DeepView for QueryParts {
    type V = PartsView;

    open spec fn deep_view(&self) -> PartsView {
        PartsView {
            dialect: self.dialect,
            statement: self.statement,
            ctes: self.ctes.deep_view(),
            distinct: self.distinct.deep_view(),
            select: self.select.deep_view(),
            selected_columns: self.selected_columns.deep_view(),
            from: self.from.deep_view(),
            joins: self.joins.deep_view(),
            pending_join: self.pending_join.deep_view(),
            where_clauses: self.where_clauses.deep_view(),
            group_by: self.group_by.deep_view(),
            having_clauses: self.having_clauses.deep_view(),
            order_by: self.order_by.deep_view(),
            pagination: self.pagination,
            lock: self.lock,
            returning: self.returning.deep_view(),
            compounds: self.compounds.deep_view(),
            insert: self.insert.deep_view(),
            update: self.update.deep_view(),
            delete_from: self.delete.from_table.deep_view(),
            cached_query: self.cached_query.deep_view(),
            validation: self.validation_cache.deep_view(),
            dialect_strict: self.dialect_strict,
            pending_warnings: self.pending_warnings.deep_view(),
        }
    }
}

impl Duplicate for QueryParts {
    fn duplicate(&self) -> (r: QueryParts) {
        QueryParts {
            dialect: self.dialect.copy(),
            statement: self.statement,
            ctes: duplicate_vec(&self.ctes),
            distinct: duplicate_option(&self.distinct),
            select: duplicate_option(&self.select),
            selected_columns: duplicate_vec(&self.selected_columns),
            from: duplicate_option(&self.from),
            joins: duplicate_vec(&self.joins),
            pending_join: duplicate_option(&self.pending_join),
            where_clauses: duplicate_vec(&self.where_clauses),
            group_by: duplicate_vec(&self.group_by),
            having_clauses: duplicate_vec(&self.having_clauses),
            order_by: duplicate_vec(&self.order_by),
            pagination: self.pagination,
            lock: self.lock,
            returning: duplicate_option(&self.returning),
            compounds: duplicate_vec(&self.compounds),
            insert: self.insert.duplicate(),
            update: self.update.duplicate(),
            delete: DeleteState { from_table: duplicate_option(&self.delete.from_table) },
            cached_query: duplicate_option(&self.cached_query),
            validation_cache: self.validation_cache.duplicate(),
            dialect_strict: self.dialect_strict,
            pending_warnings: duplicate_vec(&self.pending_warnings),
        }
    }
}

/// The state of a new builder for `dialect`.
pub open spec fn fresh_parts(dialect: Dialect) -> PartsView {
    PartsView {
        dialect,
        statement: None,
        ctes: Seq::empty(),
        distinct: None,
        select: None,
        selected_columns: Seq::empty(),
        from: None,
        joins: Seq::empty(),
        pending_join: None,
        where_clauses: Seq::empty(),
        group_by: Seq::empty(),
        having_clauses: Seq::empty(),
        order_by: Seq::empty(),
        pagination: PaginationState { limit: None, offset: None },
        lock: None,
        returning: None,
        compounds: Seq::empty(),
        insert: empty_insert(),
        update: UpdateView { table: None, assignments: Seq::empty() },
        delete_from: None,
        cached_query: None,
        validation: (VALIDATION_STATUS_UNKNOWN, None),
        dialect_strict: false,
        pending_warnings: Seq::empty(),
    }
}

impl QueryParts {
    /// The state of a new builder for `dialect`.
    pub fn fresh(dialect: Dialect) -> (r: QueryParts)
        ensures
            r.deep_view() == fresh_parts(dialect),
    {
        let r = QueryParts {
            dialect,
            statement: None,
            ctes: Vec::new(),
            distinct: None,
            select: None,
            selected_columns: Vec::new(),
            from: None,
            joins: Vec::new(),
            pending_join: None,
            where_clauses: Vec::new(),
            group_by: Vec::new(),
            having_clauses: Vec::new(),
            order_by: Vec::new(),
            pagination: PaginationState::new(),
            lock: None,
            returning: None,
            compounds: Vec::new(),
            insert: InsertState::new(),
            update: UpdateState::new(),
            delete: DeleteState::new(),
            cached_query: None,
            validation_cache: ValidationCache::new(),
            dialect_strict: false,
            pending_warnings: Vec::new(),
        };
        assert(r.deep_view() =~= fresh_parts(dialect)) by {
            assert(r.ctes.deep_view() =~= Seq::<CteView>::empty());
            assert(r.selected_columns.deep_view() =~= Seq::<Seq<char>>::empty());
            assert(r.joins.deep_view() =~= Seq::<QueryView>::empty());
            assert(r.where_clauses.deep_view() =~= Seq::<(QueryView, LogicalOp)>::empty());
            assert(r.group_by.deep_view() =~= Seq::<Seq<Seq<char>>>::empty());
            assert(r.having_clauses.deep_view() =~= Seq::<(QueryView, LogicalOp)>::empty());
            assert(r.order_by.deep_view() =~= Seq::<QueryView>::empty());
            assert(r.compounds.deep_view() =~= Seq::<(CompoundOperator, QueryView)>::empty());
            assert(r.pending_warnings.deep_view() =~= Seq::<WarningView>::empty());
        }
        r
    }
}

impl Default for QueryParts {
    fn default() -> (r: QueryParts)
        ensures
            r.deep_view() == fresh_parts(Dialect::Postgres),
    {
        QueryParts::fresh(Dialect::Postgres)
    }
}

} // verus!
