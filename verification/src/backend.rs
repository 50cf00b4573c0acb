//! Per-dialect SQL rendering backends.
use crate::dialect::{capabilities_for_dialect, spec_capabilities, CapabilitiesView, Dialect, DialectCapabilities, PlaceholderStyle, dialect_for_name, spec_normalize_dialect_name};
use crate::text::{decimal, push_char, push_decimal, push_str};
use crate::types::{QueryView, SqlQuery};
use vstd::prelude::*;

verus! {

/// Number of `?` characters in `s`.
pub open spec fn count_placeholders(s: Seq<char>) -> nat
    decreases s.len(),
{
    if s.len() == 0 {
        0
    } else {
        count_placeholders(s.drop_last()) + if s.last() == '?' { 1nat } else { 0nat }
    }
}

/// The text `?` number `k` (1-based) is rewritten to, when `k` values are bound to it.
pub open spec fn placeholder_text(style: PlaceholderStyle, k: nat) -> Seq<char> {
    match style {
        PlaceholderStyle::DollarNumbered => seq!['$'] + decimal(k),
        PlaceholderStyle::AtPNamed => seq!['@', 'p'] + decimal(k),
        _ => seq!['?'],
    }
}

/// `s` with its first `n` placeholders rewritten in `style`; later ones stay `?`.
pub open spec fn compile_text(s: Seq<char>, style: PlaceholderStyle, n: nat) -> Seq<char>
    decreases s.len(),
{
    if s.len() == 0 {
        Seq::empty()
    } else {
        let prev = compile_text(s.drop_last(), style, n);
        let c = s.last();
        if c == '?' {
            let k = count_placeholders(s.drop_last()) + 1;
            if k <= n { prev + placeholder_text(style, k) } else { prev.push('?') }
        } else {
            prev.push(c)
        }
    }
}

/// The outcome of placeholder compilation for a dialect named `name`.
pub open spec fn compile_ok(style: PlaceholderStyle, name: Seq<char>, q: QueryView, r: Result<SqlQuery, String>) -> bool {
    if style == PlaceholderStyle::Unsupported {
        r matches Err(e) && e@ == "Dialect \""@ + name + "\" does not support SQL placeholder compilation in this builder."@
    } else if count_placeholders(q.text) != q.values.len() {
        r matches Err(e) && e@ == "Dialect \""@ + name + "\" compilation expected "@ + decimal(q.values.len())
            + " placeholders but found "@ + decimal(count_placeholders(q.text)) + "."@
    } else {
        r matches Ok(c) && c@ == (QueryView { text: compile_text(q.text, style, q.values.len()), raw: q.raw, values: q.values })
    }
}

/// Rewrite `?` placeholders of `query.text` into the given placeholder style.
pub fn compile_placeholders_with(style: PlaceholderStyle, name: &str, query: SqlQuery) -> (r: Result<SqlQuery, String>)
    ensures
        compile_ok(style, name@, query@, r),
{
    if style == PlaceholderStyle::Unsupported {
        let mut e = String::from_str("Dialect \"");
        push_str(&mut e, name);
        push_str(&mut e, "\" does not support SQL placeholder compilation in this builder.");
        return Err(e);
    }
    let value_count = query.values.len();
    let cs = crate::text::chars_of(query.text.as_str());
    let mut placeholder_index: usize = 0;
    let mut compiled = String::new();
    for i in 0..cs.len()
        invariant
            cs@ == query.text@,
            value_count == query.values@.len(),
            style != PlaceholderStyle::Unsupported,
            placeholder_index == count_placeholders(cs@.take(i as int)),
            placeholder_index <= i,
            compiled@ == compile_text(cs@.take(i as int), style, value_count as nat),
    {
        let ch = cs[i];
        proof {
            assert(cs@.take(i + 1).drop_last() == cs@.take(i as int));
            assert(cs@.take(i + 1).last() == ch);
        }
        if ch == '?' {
            placeholder_index = placeholder_index + 1;
            if placeholder_index <= value_count {
                let ghost before = compiled@;
                match style {
                    PlaceholderStyle::DollarNumbered => {
                        push_char(&mut compiled, '$');
                        push_decimal(&mut compiled, placeholder_index as u64);
                        assert(compiled@ =~= before + placeholder_text(style, placeholder_index as nat));
                    },
                    PlaceholderStyle::QuestionMark => {
                        push_char(&mut compiled, '?');
                        assert(compiled@ =~= before + placeholder_text(style, placeholder_index as nat));
                    },
                    PlaceholderStyle::AtPNamed => {
                        push_char(&mut compiled, '@');
                        push_char(&mut compiled, 'p');
                        push_decimal(&mut compiled, placeholder_index as u64);
                        assert(compiled@ =~= before + placeholder_text(style, placeholder_index as nat));
                    },
                    PlaceholderStyle::Unsupported => {},
                }
            } else {
                push_char(&mut compiled, '?');
            }
        } else {
            push_char(&mut compiled, ch);
        }
    }
    assert(cs@.take(cs.len() as int) == cs@);
    if placeholder_index != value_count {
        let mut e = String::from_str("Dialect \"");
        push_str(&mut e, name);
        push_str(&mut e, "\" compilation expected ");
        push_decimal(&mut e, value_count as u64);
        push_str(&mut e, " placeholders but found ");
        push_decimal(&mut e, placeholder_index as u64);
        push_str(&mut e, ".");
        return Err(e);
    }
    Ok(SqlQuery { text: compiled, raw: query.raw, values: query.values })
}

/// Contract for a dialect-specific SQL rendering backend.
pub trait SqlBackend {
    /// The canonical name this backend reports.
    spec fn spec_name(&self) -> Seq<char>;

    /// The capabilities this backend reports.
    spec fn spec_caps(&self) -> CapabilitiesView;

    /// Canonical lowercase name of this dialect (e.g. `"postgres"`).
    fn name(&self) -> (r: &str)
        ensures
            r@ == self.spec_name();

    /// Capability flags governing SQL rendering for this dialect.
    fn capabilities(&self) -> (c: DialectCapabilities)
        ensures
            c@ == self.spec_caps();

    /// Rewrite `?` placeholders in `query.text` to this dialect's native style.
    fn compile_placeholders(&self, query: SqlQuery) -> (r: Result<SqlQuery, String>)
        ensures
            compile_ok(self.spec_caps().placeholder_style, self.spec_name(), query@, r),
    {
        let style = self.capabilities().placeholder_style;
        compile_placeholders_with(style, self.name(), query)
    }
}

/// SQL rendering backend for PostgreSQL.
pub struct PostgresBackend;

impl SqlBackend for PostgresBackend {
    open spec fn spec_name(&self) -> Seq<char> {
        "postgres"@
    }

    open spec fn spec_caps(&self) -> CapabilitiesView {
        spec_capabilities(Dialect::Postgres)
    }

    fn name(&self) -> (r: &str) {
        "postgres"
    }

    fn capabilities(&self) -> (c: DialectCapabilities) {
        capabilities_for_dialect(&Dialect::Postgres)
    }
}

/// SQL rendering backend for MySQL.
pub struct MySqlBackend;

impl SqlBackend for MySqlBackend {
    open spec fn spec_name(&self) -> Seq<char> {
        "mysql"@
    }

    open spec fn spec_caps(&self) -> CapabilitiesView {
        spec_capabilities(Dialect::Mysql)
    }

    fn name(&self) -> (r: &str) {
        "mysql"
    }

    fn capabilities(&self) -> (c: DialectCapabilities) {
        capabilities_for_dialect(&Dialect::Mysql)
    }
}

/// SQL rendering backend for SQLite.
pub struct SqliteBackend;

impl SqlBackend for SqliteBackend {
    open spec fn spec_name(&self) -> Seq<char> {
        "sqlite"@
    }

    open spec fn spec_caps(&self) -> CapabilitiesView {
        spec_capabilities(Dialect::Sqlite)
    }

    fn name(&self) -> (r: &str) {
        "sqlite"
    }

    fn capabilities(&self) -> (c: DialectCapabilities) {
        capabilities_for_dialect(&Dialect::Sqlite)
    }
}

/// Fallback backend for dialects without a dedicated struct.
struct GenericBackend {
    dialect: Dialect,
}

impl SqlBackend for GenericBackend {
    closed spec fn spec_name(&self) -> Seq<char> {
        self.dialect.spec_as_str()
    }

    closed spec fn spec_caps(&self) -> CapabilitiesView {
        spec_capabilities(self.dialect)
    }

    fn name(&self) -> (r: &str) {
        self.dialect.as_str()
    }

    fn capabilities(&self) -> (c: DialectCapabilities) {
        capabilities_for_dialect(&self.dialect)
    }
}

/// A handle to a backend: the name and capabilities it reports.
pub struct BackendRef {
    name: String,
    caps: DialectCapabilities,
}

impl BackendRef {
    pub closed spec fn spec_name(&self) -> Seq<char> {
        self.name@
    }

    pub closed spec fn spec_caps(&self) -> CapabilitiesView {
        self.caps@
    }

    /// Wrap a backend.
    pub fn new<T: SqlBackend>(backend: T) -> (r: Self)
        ensures
            r.spec_name() == backend.spec_name(),
            r.spec_caps() == backend.spec_caps(),
    {
        BackendRef { name: String::from_str(backend.name()), caps: backend.capabilities() }
    }

    /// Returns the canonical dialect name for this backend.
    pub fn name(&self) -> (r: &str)
        ensures
            r@ == self.spec_name(),
    {
        self.name.as_str()
    }

    /// Returns the capability flags for this backend's dialect.
    pub fn capabilities(&self) -> (c: DialectCapabilities)
        ensures
            c@ == self.spec_caps(),
    {
        let caps = &self.caps;
        let mut lock_strengths = Vec::new();
        for i in 0..caps.lock_strengths.len()
            invariant
                lock_strengths@ == caps.lock_strengths@.take(i as int),
        {
            lock_strengths.push(caps.lock_strengths[i]);
            assert(caps.lock_strengths@.take(i + 1) == caps.lock_strengths@.take(i as int).push(caps.lock_strengths@[i as int]));
        }
        let mut lock_modifiers = Vec::new();
        for i in 0..caps.lock_modifiers.len()
            invariant
                lock_modifiers@ == caps.lock_modifiers@.take(i as int),
        {
            lock_modifiers.push(caps.lock_modifiers[i]);
            assert(caps.lock_modifiers@.take(i + 1) == caps.lock_modifiers@.take(i as int).push(caps.lock_modifiers@[i as int]));
        }
        assert(caps.lock_strengths@.take(caps.lock_strengths@.len() as int) == caps.lock_strengths@);
        assert(caps.lock_modifiers@.take(caps.lock_modifiers@.len() as int) == caps.lock_modifiers@);
        DialectCapabilities {
            placeholder_style: caps.placeholder_style,
            returning: caps.returning,
            window_functions: caps.window_functions,
            null_ordering: caps.null_ordering,
            distinct_on: caps.distinct_on,
            supports_cte: caps.supports_cte,
            ilike: caps.ilike,
            insert_conflict: caps.insert_conflict,
            pagination: caps.pagination,
            lock_strengths,
            lock_modifiers,
            joins: caps.joins,
            recursive_ctes: caps.recursive_ctes,
        }
    }

    /// Rewrite `?` placeholders in `query.text` to this backend's native style.
    pub fn compile_placeholders(&self, query: SqlQuery) -> (r: Result<SqlQuery, String>)
        ensures
            compile_ok(self.spec_caps().placeholder_style, self.spec_name(), query@, r),
    {
        compile_placeholders_with(self.caps.placeholder_style, self.name.as_str(), query)
    }
}

/// The backend of a dialect: dedicated ones for Postgres, MySQL and SQLite, a generic one otherwise.
pub fn backend_for_dialect(dialect: &Dialect) -> (b: BackendRef)
    ensures
        b.spec_name() == dialect.spec_as_str(),
        b.spec_caps() == spec_capabilities(*dialect),
{
    match dialect {
        Dialect::Postgres => BackendRef::new(PostgresBackend),
        Dialect::Mysql => BackendRef::new(MySqlBackend),
        Dialect::Sqlite => BackendRef::new(SqliteBackend),
        other => BackendRef::new(GenericBackend { dialect: other.copy() }),
    }
}

/// The backend of the dialect named `name`.
pub fn backend_for_dialect_name(name: &str) -> (b: BackendRef)
    ensures
        exists|d: Dialect| dialect_for_name(d, spec_normalize_dialect_name(name@))
            && b.spec_name() == d.spec_as_str() && b.spec_caps() == spec_capabilities(d),
{
    let d = Dialect::parse(name);
    backend_for_dialect(&d)
}

} // verus!
