//! Value types of the query builder: primitives, identifiers, raw fragments and
//! compiled query fragments.
use vstd::prelude::*;

verus! {

/// A JSON number: a non-negative integer, a negative integer, or another number held as
/// the text JSON writes for it.
#[derive(Debug, PartialEq)]
pub enum JsonNumber {
    PosInt(u64),
    NegInt(i64),
    Float(String),
}

impl JsonNumber {
    /// The text JSON writes for this number.
    pub open spec fn spec_text(self) -> Seq<char> {
        match self {
            JsonNumber::PosInt(u) => crate::text::decimal(u as nat),
            JsonNumber::NegInt(i) => if i < 0 {
                seq!['-'] + crate::text::decimal((-i) as nat)
            } else {
                crate::text::decimal(i as nat)
            },
            JsonNumber::Float(t) => t@,
        }
    }

    /// The number `n`.
    pub fn from_u64(n: u64) -> (r: JsonNumber)
        ensures
            r == JsonNumber::PosInt(n),
    {
        JsonNumber::PosInt(n)
    }

    pub fn copy(&self) -> (r: JsonNumber)
        ensures
            r == *self,
    {
        match self {
            JsonNumber::PosInt(u) => JsonNumber::PosInt(*u),
            JsonNumber::NegInt(i) => JsonNumber::NegInt(*i),
            JsonNumber::Float(t) => JsonNumber::Float(t.clone()),
        }
    }

    /// Appends the text JSON writes for this number.
    pub fn push_text(&self, out: &mut String)
        ensures
            final(out)@ == old(out)@ + self.spec_text(),
    {
        match self {
            JsonNumber::PosInt(u) => crate::text::push_decimal(out, *u),
            JsonNumber::NegInt(i) => {
                let i = *i;
                if i < 0 {
                    let a: u64 = if i == i64::MIN { 9223372036854775808u64 } else { (0 - i) as u64 };
                    let ghost start = out@;
                    crate::text::push_char(out, '-');
                    crate::text::push_decimal(out, a);
                    assert(out@ =~= start + (seq!['-'] + crate::text::decimal((-i) as nat)));
                } else {
                    crate::text::push_decimal(out, i as u64);
                }
            },
            JsonNumber::Float(t) => crate::text::push_str(out, t.as_str()),
        }
    }
}

/// Wire representation of a BigInt value: `{ "__kind": "bigint", "value": "123" }`.
#[derive(Debug, PartialEq)]
pub struct BigIntWire {
    pub value: String,
}

impl BigIntWire {
    pub fn new(value: String) -> (r: Self)
        ensures
            r.value == value,
    {
        BigIntWire { value }
    }
}

/// Wire representation of a Date value: `{ "__kind": "date", "value": "2023-01-01T00:00:00.000Z" }`.
#[derive(Debug, PartialEq)]
pub struct DateWire {
    pub value: String,
}

impl DateWire {
    pub fn new(value: String) -> (r: Self)
        ensures
            r.value == value,
    {
        DateWire { value }
    }
}

/// A SQL primitive value (a query parameter or literal).
#[derive(Debug, PartialEq)]
pub enum Primitive {
    Null,
    Bool(bool),
    Number(JsonNumber),
    String(String),
    BigInt(BigIntWire),
    Date(DateWire),
}

impl Primitive {
    /// A copy of this primitive.
    pub fn copy(&self) -> (r: Primitive)
        ensures
            r == *self,
    {
        match self {
            Primitive::Null => Primitive::Null,
            Primitive::Bool(b) => Primitive::Bool(*b),
            Primitive::Number(n) => Primitive::Number(n.copy()),
            Primitive::String(s) => Primitive::String(s.clone()),
            Primitive::BigInt(b) => Primitive::BigInt(BigIntWire { value: b.value.clone() }),
            Primitive::Date(d) => Primitive::Date(DateWire { value: d.value.clone() }),
        }
    }
}

/// A copy of a list of primitives.
pub fn copy_primitives(v: &Vec<Primitive>) -> (r: Vec<Primitive>)
    ensures
        r@ == v@,
{
    let mut r: Vec<Primitive> = Vec::new();
    for i in 0..v.len()
        invariant
            r@ == v@.take(i as int),
    {
        r.push(v[i].copy());
        assert(v@.take(i + 1) == v@.take(i as int).push(v@[i as int]));
    }
    assert(v@.take(v.len() as int) == v@);
    r
}

/// Appends copies of `src` to `dst`.
pub fn extend_primitives(dst: &mut Vec<Primitive>, src: &Vec<Primitive>)
    ensures
        final(dst)@ == old(dst)@ + src@,
{
    let ghost start = dst@;
    for i in 0..src.len()
        invariant
            dst@ == start + src@.take(i as int),
    {
        dst.push(src[i].copy());
        assert(src@.take(i + 1) == src@.take(i as int).push(src@[i as int]));
        assert(start + src@.take(i + 1) =~= (start + src@.take(i as int)).push(src@[i as int]));
    }
    assert(src@.take(src.len() as int) == src@);
}

/// The abstract content of a compiled query fragment.
#[verifier::ext_equal]
pub struct QueryView {
    pub text: Seq<char>,
    pub raw: Seq<char>,
    pub values: Seq<Primitive>,
}

impl QueryView {
    pub open spec fn empty() -> QueryView {
        QueryView { text: Seq::empty(), raw: Seq::empty(), values: Seq::empty() }
    }

    /// The same literal text appended to both the parameterised and the raw text.
    pub open spec fn then_text(self, s: Seq<char>) -> QueryView {
        QueryView { text: self.text + s, raw: self.raw + s, values: self.values }
    }

    /// This fragment followed by `q`.
    pub open spec fn append(self, q: QueryView) -> QueryView {
        QueryView { text: self.text + q.text, raw: self.raw + q.raw, values: self.values + q.values }
    }

    /// A fragment holding only literal text.
    pub open spec fn lit(s: Seq<char>) -> QueryView {
        QueryView { text: s, raw: s, values: Seq::empty() }
    }
}

/// A compiled SQL query fragment: parameterised text, raw literal text, and bound values.
#[derive(Debug)]
pub struct SqlQuery {
    pub text: String,
    pub raw: String,
    pub values: Vec<Primitive>,
}

impl View for SqlQuery {
    type V = QueryView;

    open spec fn view(&self) -> QueryView {
        QueryView { text: self.text@, raw: self.raw@, values: self.values@ }
    }
}

impl SqlQuery {
    /// The empty fragment.
    pub fn empty() -> (q: SqlQuery)
        ensures
            q@ == QueryView::empty(),
    {
        SqlQuery { text: String::new(), raw: String::new(), values: Vec::new() }
    }

    /// A fragment whose text and raw text are both `s` and which binds nothing.
    pub fn literal(s: &str) -> (q: SqlQuery)
        ensures
            q@ == QueryView::lit(s@),
    {
        SqlQuery { text: String::from_str(s), raw: String::from_str(s), values: Vec::new() }
    }

    /// A copy of this fragment.
    pub fn copy(&self) -> (r: SqlQuery)
        ensures
            r@ == self@,
    {
        SqlQuery { text: self.text.clone(), raw: self.raw.clone(), values: copy_primitives(&self.values) }
    }

    /// Appends the same literal text to the text and the raw text.
    pub fn push_lit(&mut self, s: &str)
        ensures
            final(self)@ == old(self)@.then_text(s@),
    {
        crate::text::push_str(&mut self.text, s);
        crate::text::push_str(&mut self.raw, s);
    }

    /// Appends a fragment.
    pub fn push_query(&mut self, q: &SqlQuery)
        ensures
            final(self)@ == old(self)@.append(q@),
    {
        crate::text::push_str(&mut self.text, q.text.as_str());
        crate::text::push_str(&mut self.raw, q.raw.as_str());
        extend_primitives(&mut self.values, &q.values);
    }
}

/// A quoted SQL identifier (table or column name): `{ "__kind": "identifier", "parts": [...] }`.
#[derive(Debug)]
pub struct SqlIdentifier {
    pub parts: Vec<String>,
}

impl SqlIdentifier {
    pub fn new(parts: Vec<String>) -> (r: Self)
        ensures
            r.parts == parts,
    {
        SqlIdentifier { parts }
    }

    pub fn copy(&self) -> (r: SqlIdentifier)
        ensures
            r.parts.deep_view() == self.parts.deep_view(),
    {
        SqlIdentifier { parts: copy_strings(&self.parts) }
    }
}

/// A copy of a list of strings.
pub fn copy_strings(v: &Vec<String>) -> (r: Vec<String>)
    ensures
        r.deep_view() == v.deep_view(),
{
    let mut r: Vec<String> = Vec::new();
    for i in 0..v.len()
        invariant
            r.len() == i,
            i <= v.len(),
            forall|j: int| 0 <= j < i ==> #[trigger] r@[j]@ == v@[j]@,
    {
        r.push(v[i].clone());
    }
    assert(r.deep_view() =~= v.deep_view());
    r
}

/// A raw SQL fragment (not parameterised, injected verbatim): `{ "__kind": "raw", "text": "..." }`.
#[derive(Debug)]
pub struct SqlRaw {
    pub text: String,
}

impl SqlRaw {
    pub fn new(text: String) -> (r: Self)
        ensures
            r.text == text,
    {
        SqlRaw { text }
    }
}

/// Any value that can appear in a SQL expression.
#[derive(Debug)]
pub enum SqlValue {
    Array(Vec<Primitive>),
    Query(SqlQuery),
    Identifier(SqlIdentifier),
    Raw(SqlRaw),
    Primitive(Primitive),
}

/// One ORDER BY item inside an OVER(...) clause, already rendered.
#[derive(Debug)]
pub struct WindowOrderItem {
    pub expression: SqlQuery,
    pub direction: Option<String>,
    pub nulls: Option<String>,
}

/// The abstract content of a window ORDER BY item.
pub struct WindowItemView {
    pub expression: QueryView,
    pub direction: Option<Seq<char>>,
    pub nulls: Option<Seq<char>>,
}

impl View for WindowOrderItem {
    type V = WindowItemView;

    open spec fn view(&self) -> WindowItemView {
        WindowItemView {
            expression: self.expression@,
            direction: match self.direction {
                Some(d) => Some(d@),
                None => None,
            },
            nulls: match self.nulls {
                Some(n) => Some(n@),
                None => None,
            },
        }
    }
}

/// The output of a successful SQL render pass: the query and the warnings for every
/// fallback rewrite applied on the way.
#[derive(Debug)]
pub struct RenderResult {
    pub query: SqlQuery,
    pub warnings: Vec<crate::dialect::DialectWarning>,
}

// ─── Deep views and duplication ──────────────────────────────────────────────

impl DeepView for Primitive {
    type V = Primitive;

    open spec fn deep_view(&self) -> Primitive {
        *self
    }
}

impl DeepView for SqlQuery {
    type V = QueryView;

    open spec fn deep_view(&self) -> QueryView {
        self@
    }
}

impl DeepView for SqlIdentifier {
    type V = Seq<Seq<char>>;

    open spec fn deep_view(&self) -> Seq<Seq<char>> {
        self.parts.deep_view()
    }
}

/// The abstract content of a [`SqlValue`].
pub enum ValueView {
    Array(Seq<Primitive>),
    Query(QueryView),
    Identifier(Seq<Seq<char>>),
    Raw(Seq<char>),
    Primitive(Primitive),
}

impl DeepView for SqlValue {
    type V = ValueView;

    open spec fn deep_view(&self) -> ValueView {
        match self {
            SqlValue::Array(a) => ValueView::Array(a@),
            SqlValue::Query(q) => ValueView::Query(q@),
            SqlValue::Identifier(id) => ValueView::Identifier(id.parts.deep_view()),
            SqlValue::Raw(r) => ValueView::Raw(r.text@),
            SqlValue::Primitive(p) => ValueView::Primitive(*p),
        }
    }
}

/// Values that can be duplicated into a value with the same deep view.
pub trait Duplicate: DeepView + Sized {
    fn duplicate(&self) -> (r: Self)
        ensures
            r.deep_view() == self.deep_view(),
    ;
}

impl Duplicate for String {
    fn duplicate(&self) -> (r: String) {
        self.clone()
    }
}

impl Duplicate for Primitive {
    fn duplicate(&self) -> (r: Primitive) {
        self.copy()
    }
}

impl Duplicate for SqlQuery {
    fn duplicate(&self) -> (r: SqlQuery) {
        self.copy()
    }
}

impl Duplicate for SqlIdentifier {
    fn duplicate(&self) -> (r: SqlIdentifier) {
        self.copy()
    }
}

impl Duplicate for SqlValue {
    fn duplicate(&self) -> (r: SqlValue) {
        match self {
            SqlValue::Array(arr) => SqlValue::Array(copy_primitives(arr)),
            SqlValue::Query(q) => SqlValue::Query(q.copy()),
            SqlValue::Identifier(id) => SqlValue::Identifier(id.copy()),
            SqlValue::Raw(r) => SqlValue::Raw(SqlRaw { text: r.text.clone() }),
            SqlValue::Primitive(p) => SqlValue::Primitive(p.copy()),
        }
    }
}

/// A duplicate of every element of a list.
pub fn duplicate_vec<T: Duplicate>(v: &Vec<T>) -> (r: Vec<T>)
    ensures
        r.deep_view() == v.deep_view(),
{
    let mut r: Vec<T> = Vec::new();
    for i in 0..v.len()
        invariant
            r.deep_view() =~= v.deep_view().take(i as int),
    {
        let x = v[i].duplicate();
        let ghost old_r = r.deep_view();
        r.push(x);
        assert(r.deep_view() =~= old_r.push(v@[i as int].deep_view()));
        assert(v.deep_view().take(i + 1) =~= v.deep_view().take(i as int).push(v@[i as int].deep_view()));
    }
    assert(v.deep_view().take(v.len() as int) =~= v.deep_view());
    r
}

/// A duplicate of an optional value.
pub fn duplicate_option<T: Duplicate>(o: &Option<T>) -> (r: Option<T>)
    ensures
        r.deep_view() == o.deep_view(),
{
    match o {
        Some(x) => Some(x.duplicate()),
        None => None,
    }
}

} // verus!
