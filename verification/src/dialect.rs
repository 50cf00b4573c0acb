//! SQL dialects, their capability tables, and the dialect policy.
use crate::builder::state::{LockModifier, LockStrength, PaginationState};
use crate::text::{ascii_lower, ascii_upper, decimal, str_eq, to_ascii_lowercase, to_ascii_uppercase, trim, trim_str};
use crate::types::{JsonNumber, Primitive, QueryView, SqlQuery};
use vstd::prelude::*;

verus! {

/// A SQL dialect; names outside the known set are kept as `Unknown(normalized name)`.
#[derive(PartialEq, Eq, Hash, Debug)]
pub enum Dialect {
    Postgres,
    DuckDb,
    Sqlite,
    Mysql,
    Mssql,
    Oracle,
    Snowflake,
    GoogleSql,
    Redshift,
    BigQuery,
    ClickHouse,
    Unknown(String),
}

/// `input` trimmed and ASCII-lowercased.
pub open spec fn spec_normalize_dialect_name(input: Seq<char>) -> Seq<char> {
    ascii_lower(trim(input))
}

/// The dialect a normalized name denotes.
pub open spec fn dialect_for_name(d: Dialect, n: Seq<char>) -> bool {
    if n == "postgres"@ {
        d is Postgres
    } else if n == "duckdb"@ {
        d is DuckDb
    } else if n == "sqlite"@ {
        d is Sqlite
    } else if n == "mysql"@ {
        d is Mysql
    } else if n == "mssql"@ || n == "mssqlserver"@ {
        d is Mssql
    } else if n == "oracle"@ {
        d is Oracle
    } else if n == "snowflake"@ {
        d is Snowflake
    } else if n == "googlesql"@ {
        d is GoogleSql
    } else if n == "redshift"@ {
        d is Redshift
    } else if n == "bigquery"@ {
        d is BigQuery
    } else if n == "clickhouse"@ {
        d is ClickHouse
    } else {
        d matches Dialect::Unknown(s) && s@ == n
    }
}

/// Normalize a dialect name: trim surrounding white space and lowercase ASCII letters.
pub fn normalize_dialect_name(input: &str) -> (r: String)
    ensures
        r@ == spec_normalize_dialect_name(input@),
{
    let t = trim_str(input);
    to_ascii_lowercase(t.as_str())
}

/// Parsing a dialect name gives the dialect whose canonical name is the normalized name
/// (with `mssqlserver` an alias of `mssql`), and parsing that canonical name again gives
/// the same dialect.
pub proof fn lemma_dialect_name_roundtrip(d: Dialect, d2: Dialect, input: Seq<char>)
    requires
        dialect_for_name(d, spec_normalize_dialect_name(input)),
        dialect_for_name(d2, spec_normalize_dialect_name(d.spec_as_str())),
    ensures
        d.spec_as_str() == (if spec_normalize_dialect_name(input) == "mssqlserver"@ { "mssql"@ } else { spec_normalize_dialect_name(input) }),
        d2.spec_as_str() == d.spec_as_str(),
        !(d is Unknown) ==> d2 == d,
{
    let n = spec_normalize_dialect_name(input);
    crate::text::lemma_lower_trim_idempotent(input);
    reveal_strlit("postgres");
    reveal_strlit("duckdb");
    reveal_strlit("sqlite");
    reveal_strlit("mysql");
    reveal_strlit("mssql");
    reveal_strlit("mssqlserver");
    reveal_strlit("oracle");
    reveal_strlit("snowflake");
    reveal_strlit("googlesql");
    reveal_strlit("redshift");
    reveal_strlit("bigquery");
    reveal_strlit("clickhouse");
    assert(spec_normalize_dialect_name(n) == n);
    if n == "mssqlserver"@ {
        assert(trim("mssql"@) == "mssql"@);
        assert(ascii_lower("mssql"@) =~= "mssql"@);
        assert(spec_normalize_dialect_name(d.spec_as_str()) == "mssql"@);
    } else {
        assert(d.spec_as_str() == n);
        assert(spec_normalize_dialect_name(d.spec_as_str()) == n);
    }
    let m = spec_normalize_dialect_name(d.spec_as_str());
    match d {
        Dialect::Postgres => assert(m == "postgres"@ && d2 is Postgres),
        Dialect::DuckDb => assert(m == "duckdb"@ && d2 is DuckDb),
        Dialect::Sqlite => assert(m == "sqlite"@ && d2 is Sqlite),
        Dialect::Mysql => assert(m == "mysql"@ && d2 is Mysql),
        Dialect::Mssql => {
            assert(n == "mssql"@ || n == "mssqlserver"@);
            assert(m == "mssql"@);
            assert("mssql"@[1] != "mysql"@[1]);
            assert(d2 is Mssql);
        },
        Dialect::Oracle => assert(m == "oracle"@ && d2 is Oracle),
        Dialect::Snowflake => assert(m == "snowflake"@ && d2 is Snowflake),
        Dialect::GoogleSql => assert(m == "googlesql"@ && d2 is GoogleSql),
        Dialect::Redshift => assert(m == "redshift"@ && d2 is Redshift),
        Dialect::BigQuery => assert(m == "bigquery"@ && d2 is BigQuery),
        Dialect::ClickHouse => assert(m == "clickhouse"@ && d2 is ClickHouse),
        Dialect::Unknown(_) => {},
    }
}

impl Dialect {
    /// Parse a dialect name; aliases are accepted and unknown names are kept normalized.
    pub fn parse(input: &str) -> (d: Self)
        ensures
            dialect_for_name(d, spec_normalize_dialect_name(input@)),
    {
        let normalized = normalize_dialect_name(input);
        let n = normalized.as_str();
        if str_eq(n, "postgres") {
            Dialect::Postgres
        } else if str_eq(n, "duckdb") {
            Dialect::DuckDb
        } else if str_eq(n, "sqlite") {
            Dialect::Sqlite
        } else if str_eq(n, "mysql") {
            Dialect::Mysql
        } else if str_eq(n, "mssql") || str_eq(n, "mssqlserver") {
            Dialect::Mssql
        } else if str_eq(n, "oracle") {
            Dialect::Oracle
        } else if str_eq(n, "snowflake") {
            Dialect::Snowflake
        } else if str_eq(n, "googlesql") {
            Dialect::GoogleSql
        } else if str_eq(n, "redshift") {
            Dialect::Redshift
        } else if str_eq(n, "bigquery") {
            Dialect::BigQuery
        } else if str_eq(n, "clickhouse") {
            Dialect::ClickHouse
        } else {
            Dialect::Unknown(normalized)
        }
    }

    /// The canonical name of the dialect.
    pub open spec fn spec_as_str(&self) -> Seq<char> {
        match self {
            Dialect::Postgres => "postgres"@,
            Dialect::DuckDb => "duckdb"@,
            Dialect::Sqlite => "sqlite"@,
            Dialect::Mysql => "mysql"@,
            Dialect::Mssql => "mssql"@,
            Dialect::Oracle => "oracle"@,
            Dialect::Snowflake => "snowflake"@,
            Dialect::GoogleSql => "googlesql"@,
            Dialect::Redshift => "redshift"@,
            Dialect::BigQuery => "bigquery"@,
            Dialect::ClickHouse => "clickhouse"@,
            Dialect::Unknown(v) => v@,
        }
    }

    /// The canonical name of the dialect (what `Display` prints).
    pub fn as_str(&self) -> (r: &str)
        ensures
            r@ == self.spec_as_str(),
    {
        match self {
            Dialect::Postgres => "postgres",
            Dialect::DuckDb => "duckdb",
            Dialect::Sqlite => "sqlite",
            Dialect::Mysql => "mysql",
            Dialect::Mssql => "mssql",
            Dialect::Oracle => "oracle",
            Dialect::Snowflake => "snowflake",
            Dialect::GoogleSql => "googlesql",
            Dialect::Redshift => "redshift",
            Dialect::BigQuery => "bigquery",
            Dialect::ClickHouse => "clickhouse",
            Dialect::Unknown(v) => v.as_str(),
        }
    }

    /// Whether this is one of the known SQL dialects.
    pub fn is_sql(&self) -> (r: bool)
        ensures
            r == !(self is Unknown),
    {
        match self {
            Dialect::Unknown(_) => false,
            _ => true,
        }
    }

    /// The capability flags of this dialect (the same as [`capabilities_for_dialect`]).
    pub fn capabilities(&self) -> (c: DialectCapabilities)
        ensures
            c@ == spec_capabilities(*self),
    {
        capabilities_for_dialect(self)
    }

    /// A copy of this dialect.
    pub fn copy(&self) -> (r: Dialect)
        ensures
            r == *self,
    {
        match self {
            Dialect::Postgres => Dialect::Postgres,
            Dialect::DuckDb => Dialect::DuckDb,
            Dialect::Sqlite => Dialect::Sqlite,
            Dialect::Mysql => Dialect::Mysql,
            Dialect::Mssql => Dialect::Mssql,
            Dialect::Oracle => Dialect::Oracle,
            Dialect::Snowflake => Dialect::Snowflake,
            Dialect::GoogleSql => Dialect::GoogleSql,
            Dialect::Redshift => Dialect::Redshift,
            Dialect::BigQuery => Dialect::BigQuery,
            Dialect::ClickHouse => Dialect::ClickHouse,
            Dialect::Unknown(v) => Dialect::Unknown(v.clone()),
        }
    }
}

impl Default for Dialect {
    fn default() -> (d: Self)
        ensures
            d is Postgres,
    {
        Dialect::Postgres
    }
}

// ─── Capability types ────────────────────────────────────────────────────────

#[derive(Clone, Copy, PartialEq, Eq, Structural, Debug)]
pub enum InsertConflictStyle {
    Unsupported,
    OnConflict,
    MySql,
}

#[derive(Clone, Copy, PartialEq, Eq, Structural, Debug)]
pub enum PaginationSyntaxFamily {
    Unsupported,
    LimitOffset,
    TopOffsetFetch,
}

#[derive(Clone, Copy, PartialEq, Eq, Structural, Debug)]
pub enum RecursiveCteStyle {
    Unsupported,
    WithRecursiveKeyword,
    WithOnly,
}

#[derive(Clone, Copy, PartialEq, Eq, Structural, Debug)]
pub enum PlaceholderStyle {
    Unsupported,
    DollarNumbered,
    QuestionMark,
    AtPNamed,
}

#[derive(Clone, Copy, PartialEq, Eq, Structural, Debug)]
pub struct RecursiveCteCapabilities {
    pub style: RecursiveCteStyle,
    pub column_aliases_required: bool,
}

#[derive(Clone, Copy, PartialEq, Eq, Structural, Debug)]
pub struct PaginationCapabilities {
    pub family: PaginationSyntaxFamily,
    pub offset_requires_order_by: bool,
    pub offset_only_allowed: bool,
    pub limit_only_uses_top: bool,
}

/// Join-syntax capabilities; INNER, LEFT and CROSS joins are supported everywhere.
#[derive(Clone, Copy, PartialEq, Eq, Structural, Debug)]
pub struct JoinCapabilities {
    /// Whether `RIGHT [OUTER] JOIN` is supported.
    pub right_join: bool,
    /// Whether `FULL [OUTER] JOIN` is supported.
    pub full_outer_join: bool,
    /// Whether `USING (col, ...)` syntax is supported as an alternative to `ON`.
    pub using_syntax: bool,
    /// Whether `LATERAL` subquery joins are supported.
    pub lateral_join: bool,
}

#[derive(Clone, Copy, PartialEq, Eq, Structural, Debug)]
pub enum OperatorKind {
    Comparison,
    Arithmetic,
}

#[derive(Clone, Copy, PartialEq, Eq, Structural, Debug)]
pub enum FunctionFamily {
    Aggregate,
    Scalar,
    Window,
}

#[derive(Clone, Copy, PartialEq, Eq, Structural, Debug)]
pub struct FunctionCapability {
    pub family: FunctionFamily,
    pub window: bool,
}

#[derive(Clone, Copy, PartialEq, Eq, Structural, Debug)]
pub enum OperatorFamily {
    Comparison,
    Arithmetic,
}

#[derive(Clone, Copy, PartialEq, Eq, Structural, Debug)]
pub struct OperatorCapability {
    pub family: OperatorFamily,
}

/// Capability flags of a dialect.
pub struct DialectCapabilities {
    pub placeholder_style: PlaceholderStyle,
    pub returning: bool,
    pub window_functions: bool,
    /// Whether the dialect accepts explicit `NULLS FIRST` / `NULLS LAST` in ORDER BY.
    pub null_ordering: bool,
    pub distinct_on: bool,
    /// Whether the dialect supports basic `WITH` (non-recursive) CTEs.
    pub supports_cte: bool,
    /// Whether the dialect supports the `ILIKE` case-insensitive pattern operator.
    pub ilike: bool,
    pub insert_conflict: InsertConflictStyle,
    pub pagination: PaginationCapabilities,
    pub lock_strengths: Vec<LockStrength>,
    pub lock_modifiers: Vec<LockModifier>,
    pub joins: JoinCapabilities,
    pub recursive_ctes: RecursiveCteCapabilities,
}

/// The abstract content of [`DialectCapabilities`].
pub struct CapabilitiesView {
    pub placeholder_style: PlaceholderStyle,
    pub returning: bool,
    pub window_functions: bool,
    pub null_ordering: bool,
    pub distinct_on: bool,
    pub supports_cte: bool,
    pub ilike: bool,
    pub insert_conflict: InsertConflictStyle,
    pub pagination: PaginationCapabilities,
    pub lock_strengths: Seq<LockStrength>,
    pub lock_modifiers: Seq<LockModifier>,
    pub joins: JoinCapabilities,
    pub recursive_ctes: RecursiveCteCapabilities,
}

impl View for DialectCapabilities {
    type V = CapabilitiesView;

    open spec fn view(&self) -> CapabilitiesView {
        CapabilitiesView {
            placeholder_style: self.placeholder_style,
            returning: self.returning,
            window_functions: self.window_functions,
            null_ordering: self.null_ordering,
            distinct_on: self.distinct_on,
            supports_cte: self.supports_cte,
            ilike: self.ilike,
            insert_conflict: self.insert_conflict,
            pagination: self.pagination,
            lock_strengths: self.lock_strengths@,
            lock_modifiers: self.lock_modifiers@,
            joins: self.joins,
            recursive_ctes: self.recursive_ctes,
        }
    }
}

pub open spec fn unsupported_pagination() -> PaginationCapabilities {
    PaginationCapabilities {
        family: PaginationSyntaxFamily::Unsupported,
        offset_requires_order_by: false,
        offset_only_allowed: false,
        limit_only_uses_top: false,
    }
}

pub open spec fn limit_offset_pagination() -> PaginationCapabilities {
    PaginationCapabilities {
        family: PaginationSyntaxFamily::LimitOffset,
        offset_requires_order_by: false,
        offset_only_allowed: true,
        limit_only_uses_top: false,
    }
}

pub open spec fn mysql_pagination() -> PaginationCapabilities {
    PaginationCapabilities {
        family: PaginationSyntaxFamily::LimitOffset,
        offset_requires_order_by: false,
        offset_only_allowed: false,
        limit_only_uses_top: false,
    }
}

pub open spec fn mssql_pagination() -> PaginationCapabilities {
    PaginationCapabilities {
        family: PaginationSyntaxFamily::TopOffsetFetch,
        offset_requires_order_by: true,
        offset_only_allowed: true,
        limit_only_uses_top: true,
    }
}

pub open spec fn recursive_ctes(style: RecursiveCteStyle, columns: bool) -> RecursiveCteCapabilities {
    RecursiveCteCapabilities { style, column_aliases_required: columns }
}

pub open spec fn joins(right: bool, full: bool, using: bool, lateral: bool) -> JoinCapabilities {
    JoinCapabilities { right_join: right, full_outer_join: full, using_syntax: using, lateral_join: lateral }
}

/// The capability table.
pub open spec fn spec_capabilities(d: Dialect) -> CapabilitiesView {
    match d {
        Dialect::Postgres | Dialect::DuckDb => CapabilitiesView {
            placeholder_style: PlaceholderStyle::DollarNumbered,
            returning: true,
            window_functions: true,
            null_ordering: true,
            distinct_on: true,
            supports_cte: true,
            ilike: true,
            insert_conflict: InsertConflictStyle::OnConflict,
            pagination: limit_offset_pagination(),
            lock_strengths: if d is Postgres { seq![LockStrength::Update, LockStrength::Share] } else { seq![] },
            lock_modifiers: if d is Postgres { seq![LockModifier::NoWait, LockModifier::SkipLocked] } else { seq![] },
            joins: joins(true, true, true, true),
            recursive_ctes: recursive_ctes(RecursiveCteStyle::WithRecursiveKeyword, false),
        },
        Dialect::Sqlite => CapabilitiesView {
            placeholder_style: PlaceholderStyle::QuestionMark,
            returning: true,
            window_functions: true,
            null_ordering: true,
            distinct_on: false,
            supports_cte: true,
            ilike: false,
            insert_conflict: InsertConflictStyle::OnConflict,
            pagination: limit_offset_pagination(),
            lock_strengths: seq![],
            lock_modifiers: seq![],
            joins: joins(false, false, true, false),
            recursive_ctes: recursive_ctes(RecursiveCteStyle::WithRecursiveKeyword, false),
        },
        Dialect::Mysql => CapabilitiesView {
            placeholder_style: PlaceholderStyle::QuestionMark,
            returning: false,
            window_functions: true,
            null_ordering: false,
            distinct_on: false,
            supports_cte: true,
            ilike: false,
            insert_conflict: InsertConflictStyle::MySql,
            pagination: mysql_pagination(),
            lock_strengths: seq![],
            lock_modifiers: seq![],
            joins: joins(true, false, true, true),
            recursive_ctes: recursive_ctes(RecursiveCteStyle::WithRecursiveKeyword, false),
        },
        Dialect::Mssql => CapabilitiesView {
            placeholder_style: PlaceholderStyle::AtPNamed,
            returning: false,
            window_functions: true,
            null_ordering: false,
            distinct_on: false,
            supports_cte: true,
            ilike: false,
            insert_conflict: InsertConflictStyle::Unsupported,
            pagination: mssql_pagination(),
            lock_strengths: seq![],
            lock_modifiers: seq![],
            joins: joins(true, true, false, true),
            recursive_ctes: recursive_ctes(RecursiveCteStyle::WithOnly, false),
        },
        Dialect::Oracle | Dialect::Snowflake => CapabilitiesView {
            placeholder_style: PlaceholderStyle::Unsupported,
            returning: false,
            window_functions: true,
            null_ordering: true,
            distinct_on: false,
            supports_cte: true,
            ilike: d is Snowflake,
            insert_conflict: InsertConflictStyle::Unsupported,
            pagination: unsupported_pagination(),
            lock_strengths: seq![],
            lock_modifiers: seq![],
            joins: joins(true, true, true, true),
            recursive_ctes: if d is Oracle {
                recursive_ctes(RecursiveCteStyle::WithOnly, true)
            } else {
                recursive_ctes(RecursiveCteStyle::WithRecursiveKeyword, true)
            },
        },
        Dialect::GoogleSql | Dialect::Redshift | Dialect::BigQuery => CapabilitiesView {
            placeholder_style: PlaceholderStyle::Unsupported,
            returning: false,
            window_functions: true,
            null_ordering: false,
            distinct_on: false,
            supports_cte: true,
            ilike: d is Redshift,
            insert_conflict: InsertConflictStyle::Unsupported,
            pagination: unsupported_pagination(),
            lock_strengths: seq![],
            lock_modifiers: seq![],
            joins: joins(true, true, true, true),
            recursive_ctes: recursive_ctes(RecursiveCteStyle::WithRecursiveKeyword, d is Redshift),
        },
        Dialect::ClickHouse => CapabilitiesView {
            placeholder_style: PlaceholderStyle::Unsupported,
            returning: false,
            window_functions: true,
            null_ordering: false,
            distinct_on: false,
            supports_cte: true,
            ilike: false,
            insert_conflict: InsertConflictStyle::Unsupported,
            pagination: unsupported_pagination(),
            lock_strengths: seq![],
            lock_modifiers: seq![],
            joins: joins(true, true, true, false),
            recursive_ctes: recursive_ctes(RecursiveCteStyle::WithRecursiveKeyword, false),
        },
        Dialect::Unknown(_) => CapabilitiesView {
            placeholder_style: PlaceholderStyle::Unsupported,
            returning: false,
            window_functions: false,
            null_ordering: false,
            distinct_on: false,
            supports_cte: false,
            ilike: false,
            insert_conflict: InsertConflictStyle::Unsupported,
            pagination: unsupported_pagination(),
            lock_strengths: seq![],
            lock_modifiers: seq![],
            joins: joins(false, false, false, false),
            recursive_ctes: recursive_ctes(RecursiveCteStyle::Unsupported, false),
        },
    }
}

fn pagination_caps(
    family: PaginationSyntaxFamily,
    offset_requires_order_by: bool,
    offset_only_allowed: bool,
    limit_only_uses_top: bool,
) -> (r: PaginationCapabilities)
    ensures
        r == (PaginationCapabilities { family, offset_requires_order_by, offset_only_allowed, limit_only_uses_top }),
{
    PaginationCapabilities { family, offset_requires_order_by, offset_only_allowed, limit_only_uses_top }
}

fn join_caps(right: bool, full: bool, using: bool, lateral: bool) -> (r: JoinCapabilities)
    ensures
        r == joins(right, full, using, lateral),
{
    JoinCapabilities { right_join: right, full_outer_join: full, using_syntax: using, lateral_join: lateral }
}

fn cte_caps(style: RecursiveCteStyle, columns: bool) -> (r: RecursiveCteCapabilities)
    ensures
        r == recursive_ctes(style, columns),
{
    RecursiveCteCapabilities { style, column_aliases_required: columns }
}

/// The canonical capability flags of a dialect.
pub fn capabilities_for_dialect(dialect: &Dialect) -> (c: DialectCapabilities)
    ensures
        c@ == spec_capabilities(*dialect),
{
    let unsupported = pagination_caps(PaginationSyntaxFamily::Unsupported, false, false, false);
    let limit_offset = pagination_caps(PaginationSyntaxFamily::LimitOffset, false, true, false);
    match dialect {
        Dialect::Postgres | Dialect::DuckDb => {
            let is_pg = matches!(dialect, Dialect::Postgres);
            let mut lock_strengths: Vec<LockStrength> = Vec::new();
            let mut lock_modifiers: Vec<LockModifier> = Vec::new();
            if is_pg {
                lock_strengths.push(LockStrength::Update);
                lock_strengths.push(LockStrength::Share);
                lock_modifiers.push(LockModifier::NoWait);
                lock_modifiers.push(LockModifier::SkipLocked);
            }
            proof {
                if is_pg {
                    assert(lock_strengths@ =~= seq![LockStrength::Update, LockStrength::Share]);
                    assert(lock_modifiers@ =~= seq![LockModifier::NoWait, LockModifier::SkipLocked]);
                } else {
                    assert(lock_strengths@ =~= Seq::<LockStrength>::empty());
                    assert(lock_modifiers@ =~= Seq::<LockModifier>::empty());
                }
            }
            DialectCapabilities {
                placeholder_style: PlaceholderStyle::DollarNumbered,
                returning: true,
                window_functions: true,
                null_ordering: true,
                distinct_on: true,
                supports_cte: true,
                ilike: true,
                insert_conflict: InsertConflictStyle::OnConflict,
                pagination: limit_offset,
                lock_strengths,
                lock_modifiers,
                joins: join_caps(true, true, true, true),
                recursive_ctes: cte_caps(RecursiveCteStyle::WithRecursiveKeyword, false),
            }
        },
        Dialect::Sqlite => DialectCapabilities {
            placeholder_style: PlaceholderStyle::QuestionMark,
            returning: true,
            window_functions: true,
            null_ordering: true,
            distinct_on: false,
            supports_cte: true,
            ilike: false,
            insert_conflict: InsertConflictStyle::OnConflict,
            pagination: limit_offset,
            lock_strengths: Vec::new(),
            lock_modifiers: Vec::new(),
            joins: join_caps(false, false, true, false),
            recursive_ctes: cte_caps(RecursiveCteStyle::WithRecursiveKeyword, false),
        },
        Dialect::Mysql => DialectCapabilities {
            placeholder_style: PlaceholderStyle::QuestionMark,
            returning: false,
            window_functions: true,
            null_ordering: false,
            distinct_on: false,
            supports_cte: true,
            ilike: false,
            insert_conflict: InsertConflictStyle::MySql,
            pagination: pagination_caps(PaginationSyntaxFamily::LimitOffset, false, false, false),
            lock_strengths: Vec::new(),
            lock_modifiers: Vec::new(),
            joins: join_caps(true, false, true, true),
            recursive_ctes: cte_caps(RecursiveCteStyle::WithRecursiveKeyword, false),
        },
        Dialect::Mssql => DialectCapabilities {
            placeholder_style: PlaceholderStyle::AtPNamed,
            returning: false,
            window_functions: true,
            null_ordering: false,
            distinct_on: false,
            supports_cte: true,
            ilike: false,
            insert_conflict: InsertConflictStyle::Unsupported,
            pagination: pagination_caps(PaginationSyntaxFamily::TopOffsetFetch, true, true, true),
            lock_strengths: Vec::new(),
            lock_modifiers: Vec::new(),
            joins: join_caps(true, true, false, true),
            recursive_ctes: cte_caps(RecursiveCteStyle::WithOnly, false),
        },
        Dialect::Oracle | Dialect::Snowflake => {
            let is_oracle = matches!(dialect, Dialect::Oracle);
            DialectCapabilities {
                placeholder_style: PlaceholderStyle::Unsupported,
                returning: false,
                window_functions: true,
                null_ordering: true,
                distinct_on: false,
                supports_cte: true,
                ilike: !is_oracle,
                insert_conflict: InsertConflictStyle::Unsupported,
                pagination: unsupported,
                lock_strengths: Vec::new(),
                lock_modifiers: Vec::new(),
                joins: join_caps(true, true, true, true),
                recursive_ctes: if is_oracle {
                    cte_caps(RecursiveCteStyle::WithOnly, true)
                } else {
                    cte_caps(RecursiveCteStyle::WithRecursiveKeyword, true)
                },
            }
        },
        Dialect::GoogleSql | Dialect::Redshift | Dialect::BigQuery => {
            let is_redshift = matches!(dialect, Dialect::Redshift);
            DialectCapabilities {
                placeholder_style: PlaceholderStyle::Unsupported,
                returning: false,
                window_functions: true,
                null_ordering: false,
                distinct_on: false,
                supports_cte: true,
                ilike: is_redshift,
                insert_conflict: InsertConflictStyle::Unsupported,
                pagination: unsupported,
                lock_strengths: Vec::new(),
                lock_modifiers: Vec::new(),
                joins: join_caps(true, true, true, true),
                recursive_ctes: cte_caps(RecursiveCteStyle::WithRecursiveKeyword, is_redshift),
            }
        },
        Dialect::ClickHouse => DialectCapabilities {
            placeholder_style: PlaceholderStyle::Unsupported,
            returning: false,
            window_functions: true,
            null_ordering: false,
            distinct_on: false,
            supports_cte: true,
            ilike: false,
            insert_conflict: InsertConflictStyle::Unsupported,
            pagination: unsupported,
            lock_strengths: Vec::new(),
            lock_modifiers: Vec::new(),
            joins: join_caps(true, true, true, false),
            recursive_ctes: cte_caps(RecursiveCteStyle::WithRecursiveKeyword, false),
        },
        Dialect::Unknown(_) => DialectCapabilities {
            placeholder_style: PlaceholderStyle::Unsupported,
            returning: false,
            window_functions: false,
            null_ordering: false,
            distinct_on: false,
            supports_cte: false,
            ilike: false,
            insert_conflict: InsertConflictStyle::Unsupported,
            pagination: unsupported,
            lock_strengths: Vec::new(),
            lock_modifiers: Vec::new(),
            joins: join_caps(false, false, false, false),
            recursive_ctes: cte_caps(RecursiveCteStyle::Unsupported, false),
        },
    }
}

/// The capability flags of the dialect named `dialect`.
pub fn capabilities_for(dialect: &str) -> (c: DialectCapabilities)
    ensures
        forall|d: Dialect| dialect_for_name(d, spec_normalize_dialect_name(dialect@)) ==> c@ == spec_capabilities(d),
{
    let d = Dialect::parse(dialect);
    let c = capabilities_for_dialect(&d);
    proof {
        assert forall|d2: Dialect| dialect_for_name(d2, spec_normalize_dialect_name(dialect@)) implies c@ == spec_capabilities(d2) by {
            lemma_dialect_for_name_capabilities(d, d2, spec_normalize_dialect_name(dialect@));
        }
    }
    c
}

/// Two dialects denoting the same name have the same capabilities.
pub proof fn lemma_dialect_for_name_capabilities(d1: Dialect, d2: Dialect, n: Seq<char>)
    requires
        dialect_for_name(d1, n),
        dialect_for_name(d2, n),
    ensures
        spec_capabilities(d1) == spec_capabilities(d2),
{
}

// ─── Function / operator registries ──────────────────────────────────────────

/// `name` trimmed and ASCII-uppercased.
pub open spec fn spec_normalize_function_name(name: Seq<char>) -> Seq<char> {
    ascii_upper(trim(name))
}

/// Normalize a function name: trim and uppercase ASCII letters.
pub fn normalize_function_name(name: &str) -> (r: String)
    ensures
        r@ == spec_normalize_function_name(name@),
{
    let t = trim_str(name);
    to_ascii_uppercase(t.as_str())
}

/// Normalize an operator: trim surrounding white space.
pub fn normalize_operator(operator: &str) -> (r: String)
    ensures
        r@ == trim(operator@),
{
    trim_str(operator)
}

/// The registered functions and their capabilities.
pub open spec fn function_entry(n: Seq<char>) -> Option<FunctionCapability> {
    let agg = FunctionCapability { family: FunctionFamily::Aggregate, window: true };
    let scalar = FunctionCapability { family: FunctionFamily::Scalar, window: false };
    let win = FunctionCapability { family: FunctionFamily::Window, window: true };
    if n == "COUNT"@ || n == "SUM"@ || n == "AVG"@ || n == "MIN"@ || n == "MAX"@ {
        Some(agg)
    } else if n == "COALESCE"@ || n == "LOWER"@ || n == "UPPER"@ {
        Some(scalar)
    } else if n == "LAG"@ || n == "LEAD"@ || n == "ROW_NUMBER"@ || n == "RANK"@ || n == "DENSE_RANK"@ {
        Some(win)
    } else {
        None
    }
}

/// The capability of a function in a dialect: none for unknown dialects.
pub open spec fn spec_function_capability(d: Dialect, name: Seq<char>) -> Option<FunctionCapability> {
    if d is Unknown {
        None
    } else {
        function_entry(spec_normalize_function_name(name))
    }
}

fn lookup_function(n: &str) -> (r: Option<FunctionCapability>)
    ensures
        r == function_entry(n@),
{
    let agg = FunctionCapability { family: FunctionFamily::Aggregate, window: true };
    let scalar = FunctionCapability { family: FunctionFamily::Scalar, window: false };
    let win = FunctionCapability { family: FunctionFamily::Window, window: true };
    if str_eq(n, "COUNT") || str_eq(n, "SUM") || str_eq(n, "AVG") || str_eq(n, "MIN") || str_eq(n, "MAX") {
        Some(agg)
    } else if str_eq(n, "COALESCE") || str_eq(n, "LOWER") || str_eq(n, "UPPER") {
        Some(scalar)
    } else if str_eq(n, "LAG") || str_eq(n, "LEAD") || str_eq(n, "ROW_NUMBER") || str_eq(n, "RANK")
        || str_eq(n, "DENSE_RANK") {
        Some(win)
    } else {
        None
    }
}

/// Look up a function (case-insensitively) in the registry of a SQL dialect.
pub fn function_capability_for(dialect: &Dialect, name: &str) -> (r: Option<FunctionCapability>)
    ensures
        r == spec_function_capability(*dialect, name@),
{
    if !dialect.is_sql() {
        return None;
    }
    let normalized = normalize_function_name(name);
    lookup_function(normalized.as_str())
}

/// Whether a dialect supports a function.
pub fn supports_function(dialect: &Dialect, name: &str) -> (r: bool)
    ensures
        r == spec_function_capability(*dialect, name@) is Some,
{
    function_capability_for(dialect, name).is_some()
}

/// The registered operators of a kind.
pub open spec fn operator_entry(kind: OperatorKind, n: Seq<char>) -> Option<OperatorCapability> {
    match kind {
        OperatorKind::Comparison => if n == "="@ || n == "!="@ || n == "<>"@ || n == ">"@ || n == ">="@
            || n == "<"@ || n == "<="@ {
            Some(OperatorCapability { family: OperatorFamily::Comparison })
        } else {
            None
        },
        OperatorKind::Arithmetic => if n == "+"@ || n == "-"@ || n == "*"@ || n == "/"@ {
            Some(OperatorCapability { family: OperatorFamily::Arithmetic })
        } else {
            None
        },
    }
}

/// The capability of an operator in a dialect: none for unknown dialects.
pub open spec fn spec_operator_capability(d: Dialect, kind: OperatorKind, op: Seq<char>) -> Option<OperatorCapability> {
    if d is Unknown {
        None
    } else {
        operator_entry(kind, trim(op))
    }
}

/// Look up an operator (after trimming) in the registry of a SQL dialect.
pub fn operator_capability_for(dialect: &Dialect, kind: OperatorKind, operator: &str) -> (r: Option<OperatorCapability>)
    ensures
        r == spec_operator_capability(*dialect, kind, operator@),
{
    if !dialect.is_sql() {
        return None;
    }
    let normalized = normalize_operator(operator);
    let n = normalized.as_str();
    match kind {
        OperatorKind::Comparison => if str_eq(n, "=") || str_eq(n, "!=") || str_eq(n, "<>") || str_eq(n, ">")
            || str_eq(n, ">=") || str_eq(n, "<") || str_eq(n, "<=") {
            Some(OperatorCapability { family: OperatorFamily::Comparison })
        } else {
            None
        },
        OperatorKind::Arithmetic => if str_eq(n, "+") || str_eq(n, "-") || str_eq(n, "*") || str_eq(n, "/") {
            Some(OperatorCapability { family: OperatorFamily::Arithmetic })
        } else {
            None
        },
    }
}

/// Whether a dialect supports an operator of a kind.
pub fn supports_operator(dialect: &Dialect, kind: OperatorKind, operator: &str) -> (r: bool)
    ensures
        r == spec_operator_capability(*dialect, kind, operator@) is Some,
{
    operator_capability_for(dialect, kind, operator).is_some()
}

// ─── Dialect policy ──────────────────────────────────────────────────────────

/// A SQL feature that may be handled differently across dialects.
#[derive(Clone, Copy, PartialEq, Eq, Structural, Debug)]
pub enum DialectFeature {
    /// `RETURNING` clause on INSERT / UPDATE / DELETE.
    Returning,
    /// `ILIKE` case-insensitive pattern operator.
    Ilike,
    /// `INTERSECT ALL` compound set operator.
    IntersectAll,
    /// `DISTINCT ON (...)` projection-level deduplication.
    DistinctOn,
    /// `LIMIT x OFFSET y` — may be rewritten to `OFFSET … FETCH NEXT … ROWS ONLY`.
    PaginationLimitOffset,
}

/// How the renderer handles a dialect/feature combination.
#[derive(Clone, Copy, PartialEq, Eq, Structural, Debug)]
pub enum DialectPolicy {
    /// The feature has no valid SQL equivalent in this dialect.
    HardError,
    /// The feature exists in this dialect but renders differently.
    DialectRender,
    /// The feature can be preserved via a transparent SQL rewrite (with a warning).
    FallbackRewrite,
}

/// The policy for a dialect/feature pair.
pub open spec fn spec_classify(d: Dialect, feature: DialectFeature) -> DialectPolicy {
    let caps = spec_capabilities(d);
    match feature {
        DialectFeature::Returning => if caps.returning { DialectPolicy::DialectRender } else { DialectPolicy::HardError },
        DialectFeature::Ilike => if caps.ilike { DialectPolicy::DialectRender } else { DialectPolicy::FallbackRewrite },
        DialectFeature::IntersectAll => if d is Mysql { DialectPolicy::HardError } else { DialectPolicy::DialectRender },
        DialectFeature::DistinctOn => if caps.distinct_on { DialectPolicy::DialectRender } else { DialectPolicy::HardError },
        DialectFeature::PaginationLimitOffset => match caps.pagination.family {
            PaginationSyntaxFamily::LimitOffset => DialectPolicy::DialectRender,
            PaginationSyntaxFamily::TopOffsetFetch => DialectPolicy::FallbackRewrite,
            PaginationSyntaxFamily::Unsupported => DialectPolicy::HardError,
        },
    }
}

/// Returns the handling policy for a given `(dialect, feature)` pair.
pub fn classify(dialect: &Dialect, feature: DialectFeature) -> (p: DialectPolicy)
    ensures
        p == spec_classify(*dialect, feature),
{
    let caps = capabilities_for_dialect(dialect);
    match feature {
        DialectFeature::Returning => if caps.returning { DialectPolicy::DialectRender } else { DialectPolicy::HardError },
        DialectFeature::Ilike => if caps.ilike { DialectPolicy::DialectRender } else { DialectPolicy::FallbackRewrite },
        DialectFeature::IntersectAll => match dialect {
            Dialect::Mysql => DialectPolicy::HardError,
            _ => DialectPolicy::DialectRender,
        },
        DialectFeature::DistinctOn => if caps.distinct_on { DialectPolicy::DialectRender } else { DialectPolicy::HardError },
        DialectFeature::PaginationLimitOffset => match caps.pagination.family {
            PaginationSyntaxFamily::LimitOffset => DialectPolicy::DialectRender,
            PaginationSyntaxFamily::TopOffsetFetch => DialectPolicy::FallbackRewrite,
            PaginationSyntaxFamily::Unsupported => DialectPolicy::HardError,
        },
    }
}

/// Contextual information attached to a fallback SQL rewrite performed during rendering.
#[derive(PartialEq, Eq, Debug)]
pub struct DialectWarning {
    /// Short identifier of the SQL feature that was rewritten (e.g. `"ILIKE"`).
    pub feature: String,
    /// The canonical name of the dialect that triggered the rewrite.
    pub dialect: String,
    /// Human-readable description of the rewrite that was applied.
    pub message: String,
}

impl DialectWarning {
    pub fn copy(&self) -> (r: DialectWarning)
        ensures
            r == *self,
    {
        DialectWarning { feature: self.feature.clone(), dialect: self.dialect.clone(), message: self.message.clone() }
    }
}

// ─── Pagination rendering ────────────────────────────────────────────────────

/// A `SELECT` prefix (such as `TOP (n)`) and a trailing clause rendering pagination.
pub struct RenderedPagination {
    pub select_prefix: Option<SqlQuery>,
    pub trailing_clause: Option<SqlQuery>,
}

/// `prefix ? suffix` with `n` bound (its raw text is the decimal form of `n`).
pub open spec fn single_fragment(prefix: Seq<char>, n: u32, suffix: Seq<char>) -> QueryView {
    QueryView {
        text: prefix + "?"@ + suffix,
        raw: prefix + decimal(n as nat) + suffix,
        values: seq![Primitive::Number(JsonNumber::PosInt(n as u64))],
    }
}

/// `prefix ? middle ? suffix` with `a` and `b` bound in that order.
pub open spec fn pair_fragment(prefix: Seq<char>, a: u32, middle: Seq<char>, b: u32, suffix: Seq<char>) -> QueryView {
    QueryView {
        text: prefix + "?"@ + middle + "?"@ + suffix,
        raw: prefix + decimal(a as nat) + middle + decimal(b as nat) + suffix,
        values: seq![Primitive::Number(JsonNumber::PosInt(a as u64)), Primitive::Number(JsonNumber::PosInt(b as u64))],
    }
}

fn pagination_single_fragment(prefix: &str, count: u32, suffix: &str) -> (q: SqlQuery)
    ensures
        q@ == single_fragment(prefix@, count, suffix@),
{
    let digits = crate::text::decimal_string(count as u64);
    let mut text = String::from_str(prefix);
    crate::text::push_str(&mut text, "?");
    crate::text::push_str(&mut text, suffix);
    let mut raw = String::from_str(prefix);
    crate::text::push_str(&mut raw, digits.as_str());
    crate::text::push_str(&mut raw, suffix);
    let mut values: Vec<Primitive> = Vec::new();
    values.push(Primitive::Number(JsonNumber::from_u64(count as u64)));
    let q = SqlQuery { text, raw, values };
    assert(q@ =~= single_fragment(prefix@, count, suffix@));
    q
}

fn pagination_pair_fragment(prefix: &str, first: u32, middle: &str, second: u32, suffix: &str) -> (q: SqlQuery)
    ensures
        q@ == pair_fragment(prefix@, first, middle@, second, suffix@),
{
    let a = crate::text::decimal_string(first as u64);
    let b = crate::text::decimal_string(second as u64);
    let mut text = String::from_str(prefix);
    crate::text::push_str(&mut text, "?");
    crate::text::push_str(&mut text, middle);
    crate::text::push_str(&mut text, "?");
    crate::text::push_str(&mut text, suffix);
    let mut raw = String::from_str(prefix);
    crate::text::push_str(&mut raw, a.as_str());
    crate::text::push_str(&mut raw, middle);
    crate::text::push_str(&mut raw, b.as_str());
    crate::text::push_str(&mut raw, suffix);
    let mut values: Vec<Primitive> = Vec::new();
    values.push(Primitive::Number(JsonNumber::from_u64(first as u64)));
    values.push(Primitive::Number(JsonNumber::from_u64(second as u64)));
    let q = SqlQuery { text, raw, values };
    assert(q@ =~= pair_fragment(prefix@, first, middle@, second, suffix@));
    q
}

/// The rendering of a pagination state under a dialect.
/// The fragments a pagination state renders to under a dialect: an optional SELECT
/// prefix (`TOP (…)`) and an optional trailing clause.
pub open spec fn spec_render_pagination(d: Dialect, p: PaginationState) -> (Option<QueryView>, Option<QueryView>) {
    let fam = spec_capabilities(d).pagination.family;
    match (p.limit, p.offset) {
        (None, None) => (None, None),
        (None, Some(o)) => match fam {
            PaginationSyntaxFamily::LimitOffset => (None, Some(single_fragment("OFFSET "@, o, ""@))),
            PaginationSyntaxFamily::TopOffsetFetch => (None, Some(single_fragment("OFFSET "@, o, " ROWS"@))),
            PaginationSyntaxFamily::Unsupported => (None, None),
        },
        (Some(l), None) => match fam {
            PaginationSyntaxFamily::LimitOffset => (None, Some(single_fragment("LIMIT "@, l, ""@))),
            PaginationSyntaxFamily::TopOffsetFetch => (Some(single_fragment("TOP ("@, l, ")"@)), None),
            PaginationSyntaxFamily::Unsupported => (None, None),
        },
        (Some(l), Some(o)) => match fam {
            PaginationSyntaxFamily::LimitOffset => (None, Some(pair_fragment("LIMIT "@, l, " OFFSET "@, o, ""@))),
            PaginationSyntaxFamily::TopOffsetFetch => (None, Some(pair_fragment("OFFSET "@, o, " ROWS FETCH NEXT "@, l, " ROWS ONLY"@))),
            PaginationSyntaxFamily::Unsupported => (None, None),
        },
    }
}

/// Pagination names each count by its own keyword and binds it as a value: with
/// LIMIT/OFFSET syntax, an offset alone is `OFFSET ?`, a limit alone `LIMIT ?`, both
/// `LIMIT ? OFFSET ?` (limit bound first); with TOP/OFFSET-FETCH syntax, an offset alone is
/// `OFFSET ? ROWS`, a limit alone the `TOP (?)` prefix, both `OFFSET ? ROWS FETCH NEXT ?
/// ROWS ONLY` (offset bound first); dialects without pagination syntax render nothing.
pub proof fn lemma_pagination_keywords(d: Dialect, p: PaginationState)
    ensures
        spec_capabilities(d).pagination.family == PaginationSyntaxFamily::LimitOffset ==> match (p.limit, p.offset) {
            (None, None) => spec_render_pagination(d, p) == (None::<QueryView>, None::<QueryView>),
            (None, Some(o)) => spec_render_pagination(d, p) == (None::<QueryView>, Some(QueryView {
                text: "OFFSET ?"@,
                raw: "OFFSET "@ + decimal(o as nat),
                values: seq![Primitive::Number(JsonNumber::PosInt(o as u64))],
            })),
            (Some(l), None) => spec_render_pagination(d, p) == (None::<QueryView>, Some(QueryView {
                text: "LIMIT ?"@,
                raw: "LIMIT "@ + decimal(l as nat),
                values: seq![Primitive::Number(JsonNumber::PosInt(l as u64))],
            })),
            (Some(l), Some(o)) => spec_render_pagination(d, p) == (None::<QueryView>, Some(QueryView {
                text: "LIMIT ? OFFSET ?"@,
                raw: "LIMIT "@ + decimal(l as nat) + " OFFSET "@ + decimal(o as nat),
                values: seq![Primitive::Number(JsonNumber::PosInt(l as u64)), Primitive::Number(JsonNumber::PosInt(o as u64))],
            })),
        },
        spec_capabilities(d).pagination.family == PaginationSyntaxFamily::TopOffsetFetch ==> match (p.limit, p.offset) {
            (None, None) => spec_render_pagination(d, p) == (None::<QueryView>, None::<QueryView>),
            (None, Some(o)) => spec_render_pagination(d, p) == (None::<QueryView>, Some(QueryView {
                text: "OFFSET ? ROWS"@,
                raw: "OFFSET "@ + decimal(o as nat) + " ROWS"@,
                values: seq![Primitive::Number(JsonNumber::PosInt(o as u64))],
            })),
            (Some(l), None) => spec_render_pagination(d, p) == (Some(QueryView {
                text: "TOP (?)"@,
                raw: "TOP ("@ + decimal(l as nat) + ")"@,
                values: seq![Primitive::Number(JsonNumber::PosInt(l as u64))],
            }), None::<QueryView>),
            (Some(l), Some(o)) => spec_render_pagination(d, p) == (None::<QueryView>, Some(QueryView {
                text: "OFFSET ? ROWS FETCH NEXT ? ROWS ONLY"@,
                raw: "OFFSET "@ + decimal(o as nat) + " ROWS FETCH NEXT "@ + decimal(l as nat) + " ROWS ONLY"@,
                values: seq![Primitive::Number(JsonNumber::PosInt(o as u64)), Primitive::Number(JsonNumber::PosInt(l as u64))],
            })),
        },
        spec_capabilities(d).pagination.family == PaginationSyntaxFamily::Unsupported ==>
            spec_render_pagination(d, p) == (None::<QueryView>, None::<QueryView>),
{
    reveal_strlit("OFFSET ?");
    reveal_strlit("OFFSET ");
    reveal_strlit("LIMIT ?");
    reveal_strlit("LIMIT ");
    reveal_strlit("LIMIT ? OFFSET ?");
    reveal_strlit(" OFFSET ");
    reveal_strlit("OFFSET ? ROWS");
    reveal_strlit(" ROWS");
    reveal_strlit("TOP (?)");
    reveal_strlit("TOP (");
    reveal_strlit(")");
    reveal_strlit("OFFSET ? ROWS FETCH NEXT ? ROWS ONLY");
    reveal_strlit(" ROWS FETCH NEXT ");
    reveal_strlit(" ROWS ONLY");
    reveal_strlit("?");
    reveal_strlit("");
    assert("OFFSET "@ + "?"@ + ""@ =~= "OFFSET ?"@);
    assert("OFFSET "@ + decimal(0) + ""@ =~= "OFFSET "@ + decimal(0));
    if let Some(o) = p.offset {
        assert("OFFSET "@ + decimal(o as nat) + ""@ =~= "OFFSET "@ + decimal(o as nat));
    }
    if let Some(l) = p.limit {
        assert("LIMIT "@ + decimal(l as nat) + ""@ =~= "LIMIT "@ + decimal(l as nat));
        if let Some(o) = p.offset {
            assert("LIMIT "@ + decimal(l as nat) + " OFFSET "@ + decimal(o as nat) + ""@
                =~= "LIMIT "@ + decimal(l as nat) + " OFFSET "@ + decimal(o as nat));
        }
    }
    assert("LIMIT "@ + "?"@ + ""@ =~= "LIMIT ?"@);
    assert("LIMIT "@ + "?"@ + " OFFSET "@ + "?"@ + ""@ =~= "LIMIT ? OFFSET ?"@);
    assert("OFFSET "@ + "?"@ + " ROWS"@ =~= "OFFSET ? ROWS"@);
    assert("TOP ("@ + "?"@ + ")"@ =~= "TOP (?)"@);
    assert("OFFSET "@ + "?"@ + " ROWS FETCH NEXT "@ + "?"@ + " ROWS ONLY"@ =~= "OFFSET ? ROWS FETCH NEXT ? ROWS ONLY"@);
}

/// The aggregate functions COUNT, SUM, AVG, MIN and MAX, written in any letter case and
/// with any surrounding white space, are registered in every known dialect as aggregates
/// that may be used as window functions; an unknown dialect registers no function.
pub proof fn lemma_aggregates_registered(d: Dialect, name: Seq<char>)
    requires
        ascii_upper(trim(name)) == "COUNT"@ || ascii_upper(trim(name)) == "SUM"@ || ascii_upper(trim(name)) == "AVG"@
            || ascii_upper(trim(name)) == "MIN"@ || ascii_upper(trim(name)) == "MAX"@,
    ensures
        !(d is Unknown) ==> spec_function_capability(d, name) == Some(FunctionCapability { family: FunctionFamily::Aggregate, window: true }),
        d is Unknown ==> spec_function_capability(d, name) is None,
{
}

/// The function registry of every known dialect, by name in any letter case and with any
/// surrounding white space: COALESCE, LOWER and UPPER are scalar functions that cannot be
/// used as windows; LAG, LEAD, ROW_NUMBER, RANK and DENSE_RANK are window functions; any
/// name outside these and the aggregates is not registered.
pub proof fn lemma_function_registry(d: Dialect, name: Seq<char>)
    requires
        !(d is Unknown),
    ensures
        ascii_upper(trim(name)) == "COALESCE"@ || ascii_upper(trim(name)) == "LOWER"@ || ascii_upper(trim(name)) == "UPPER"@
            ==> spec_function_capability(d, name) == Some(FunctionCapability { family: FunctionFamily::Scalar, window: false }),
        ascii_upper(trim(name)) == "LAG"@ || ascii_upper(trim(name)) == "LEAD"@ || ascii_upper(trim(name)) == "ROW_NUMBER"@
            || ascii_upper(trim(name)) == "RANK"@ || ascii_upper(trim(name)) == "DENSE_RANK"@
            ==> spec_function_capability(d, name) == Some(FunctionCapability { family: FunctionFamily::Window, window: true }),
        !(ascii_upper(trim(name)) == "COUNT"@ || ascii_upper(trim(name)) == "SUM"@ || ascii_upper(trim(name)) == "AVG"@
            || ascii_upper(trim(name)) == "MIN"@ || ascii_upper(trim(name)) == "MAX"@
            || ascii_upper(trim(name)) == "COALESCE"@ || ascii_upper(trim(name)) == "LOWER"@ || ascii_upper(trim(name)) == "UPPER"@
            || ascii_upper(trim(name)) == "LAG"@ || ascii_upper(trim(name)) == "LEAD"@ || ascii_upper(trim(name)) == "ROW_NUMBER"@
            || ascii_upper(trim(name)) == "RANK"@ || ascii_upper(trim(name)) == "DENSE_RANK"@)
            ==> spec_function_capability(d, name) is None,
{
    reveal_strlit("COUNT");
    reveal_strlit("SUM");
    reveal_strlit("AVG");
    reveal_strlit("MIN");
    reveal_strlit("MAX");
    reveal_strlit("COALESCE");
    reveal_strlit("LOWER");
    reveal_strlit("UPPER");
    reveal_strlit("LAG");
    reveal_strlit("LEAD");
    reveal_strlit("ROW_NUMBER");
    reveal_strlit("RANK");
    reveal_strlit("DENSE_RANK");
    assert("LOWER"@[0] != "COUNT"@[0] && "LOWER"@[0] != "MIN"@[0] && "LOWER"@[0] != "MAX"@[0]);
    assert("UPPER"@[0] != "COUNT"@[0] && "UPPER"@[0] != "MIN"@[0] && "UPPER"@[0] != "MAX"@[0]);
    assert("LAG"@[0] != "SUM"@[0] && "LAG"@[0] != "AVG"@[0] && "LAG"@[0] != "MIN"@[0] && "LAG"@[0] != "MAX"@[0]);
    assert("RANK"@[0] != "COUNT"@[0]);
    assert("LEAD"@.len() != "COUNT"@.len() && "LEAD"@.len() != "SUM"@.len());
    assert("RANK"@.len() != "COUNT"@.len() && "RANK"@.len() != "SUM"@.len());
    assert("ROW_NUMBER"@.len() != "COUNT"@.len() && "ROW_NUMBER"@.len() != "SUM"@.len());
    assert("ROW_NUMBER"@.len() != "COALESCE"@.len() && "ROW_NUMBER"@.len() != "LOWER"@.len());
    assert("DENSE_RANK"@.len() != "COUNT"@.len() && "DENSE_RANK"@.len() != "SUM"@.len());
    assert("DENSE_RANK"@.len() != "COALESCE"@.len() && "DENSE_RANK"@.len() != "LOWER"@.len());
    assert("LAG"@.len() != "COALESCE"@.len() && "LAG"@.len() != "LOWER"@.len());
    assert("LEAD"@.len() != "COALESCE"@.len() && "LEAD"@.len() != "LOWER"@.len());
    assert("RANK"@.len() != "COALESCE"@.len() && "RANK"@.len() != "LOWER"@.len());
}

/// `r` is the rendering of `p` under `d`.
pub open spec fn pagination_rendered_ok(d: Dialect, p: PaginationState, r: RenderedPagination) -> bool {
    let (sp, tc) = spec_render_pagination(d, p);
    &&& match r.select_prefix {
        Some(q) => sp == Some(q@),
        None => sp is None,
    }
    &&& match r.trailing_clause {
        Some(q) => tc == Some(q@),
        None => tc is None,
    }
}

/// Render `LIMIT` / `OFFSET` in the dialect's pagination syntax; dialects without
/// pagination syntax render nothing.
pub fn render_pagination(dialect: &Dialect, pagination: &PaginationState) -> (r: Result<RenderedPagination, String>)
    ensures
        r matches Ok(rp) && pagination_rendered_ok(*dialect, *pagination, rp),
{
    let family = capabilities_for_dialect(dialect).pagination.family;
    let none = RenderedPagination { select_prefix: None, trailing_clause: None };
    match (pagination.limit, pagination.offset) {
        (None, None) => Ok(none),
        (None, Some(offset)) => match family {
            PaginationSyntaxFamily::LimitOffset => Ok(RenderedPagination {
                select_prefix: None,
                trailing_clause: Some(pagination_single_fragment("OFFSET ", offset, "")),
            }),
            PaginationSyntaxFamily::TopOffsetFetch => Ok(RenderedPagination {
                select_prefix: None,
                trailing_clause: Some(pagination_single_fragment("OFFSET ", offset, " ROWS")),
            }),
            PaginationSyntaxFamily::Unsupported => Ok(none),
        },
        (Some(limit), None) => match family {
            PaginationSyntaxFamily::LimitOffset => Ok(RenderedPagination {
                select_prefix: None,
                trailing_clause: Some(pagination_single_fragment("LIMIT ", limit, "")),
            }),
            PaginationSyntaxFamily::TopOffsetFetch => Ok(RenderedPagination {
                select_prefix: Some(pagination_single_fragment("TOP (", limit, ")")),
                trailing_clause: None,
            }),
            PaginationSyntaxFamily::Unsupported => Ok(none),
        },
        (Some(limit), Some(offset)) => match family {
            PaginationSyntaxFamily::LimitOffset => Ok(RenderedPagination {
                select_prefix: None,
                trailing_clause: Some(pagination_pair_fragment("LIMIT ", limit, " OFFSET ", offset, "")),
            }),
            PaginationSyntaxFamily::TopOffsetFetch => Ok(RenderedPagination {
                select_prefix: None,
                trailing_clause: Some(
                    pagination_pair_fragment("OFFSET ", offset, " ROWS FETCH NEXT ", limit, " ROWS ONLY"),
                ),
            }),
            PaginationSyntaxFamily::Unsupported => Ok(none),
        },
    }
}

} // verus!

verus! {

/// Everything the renderer reads of a dialect: its name, its capabilities, and whether it
/// is unknown or MySQL.
pub struct DialectKey {
    pub name: Seq<char>,
    pub caps: CapabilitiesView,
    pub unknown: bool,
    pub mysql: bool,
}

/// The key of a dialect.
pub open spec fn dialect_key(d: Dialect) -> DialectKey {
    DialectKey { name: d.spec_as_str(), caps: spec_capabilities(d), unknown: d is Unknown, mysql: d is Mysql }
}

/// The key of the dialect a name parses to.
pub open spec fn key_of_name(input: Seq<char>) -> DialectKey {
    let n = spec_normalize_dialect_name(input);
    if n == "postgres"@ {
        dialect_key(Dialect::Postgres)
    } else if n == "duckdb"@ {
        dialect_key(Dialect::DuckDb)
    } else if n == "sqlite"@ {
        dialect_key(Dialect::Sqlite)
    } else if n == "mysql"@ {
        dialect_key(Dialect::Mysql)
    } else if n == "mssql"@ || n == "mssqlserver"@ {
        dialect_key(Dialect::Mssql)
    } else if n == "oracle"@ {
        dialect_key(Dialect::Oracle)
    } else if n == "snowflake"@ {
        dialect_key(Dialect::Snowflake)
    } else if n == "googlesql"@ {
        dialect_key(Dialect::GoogleSql)
    } else if n == "redshift"@ {
        dialect_key(Dialect::Redshift)
    } else if n == "bigquery"@ {
        dialect_key(Dialect::BigQuery)
    } else if n == "clickhouse"@ {
        dialect_key(Dialect::ClickHouse)
    } else {
        DialectKey { name: n, caps: spec_capabilities(Dialect::Unknown(arbitrary())), unknown: true, mysql: false }
    }
}

/// A parsed dialect has the key of its name.
pub proof fn lemma_parsed_key(d: Dialect, input: Seq<char>)
    requires
        dialect_for_name(d, spec_normalize_dialect_name(input)),
    ensures
        dialect_key(d) == key_of_name(input),
{
}

/// The capability of a function under a dialect key.
pub open spec fn key_function_capability(k: DialectKey, name: Seq<char>) -> Option<FunctionCapability> {
    if k.unknown {
        None
    } else {
        function_entry(spec_normalize_function_name(name))
    }
}

/// The capability of an operator under a dialect key.
pub open spec fn key_operator_capability(k: DialectKey, kind: OperatorKind, op: Seq<char>) -> Option<OperatorCapability> {
    if k.unknown {
        None
    } else {
        operator_entry(kind, trim(op))
    }
}

} // verus!
