//! Error types of the query builder.
use vstd::prelude::*;
use vstd::std_specs::convert::FromSpecImpl;

verus! {

/// Internal error type for builder, registry, and SQL-rendering operations.
pub enum BuilderError {
    InvalidHandle(String),
    HandleNotFound(String),
    Validation(String),
    Render(String),
    /// A serialization failure, carrying the serializer's message.
    Serialization(String),
}

impl BuilderError {
    /// The human-readable message of this error.
    pub open spec fn spec_message(&self) -> Seq<char> {
        match self {
            BuilderError::InvalidHandle(s) => "Invalid builder handle: "@ + s@,
            BuilderError::HandleNotFound(s) => "Builder handle '"@ + s@ + "' not found or expired"@,
            BuilderError::Validation(s) => "Validation error: "@ + s@,
            BuilderError::Render(s) => "Render error: "@ + s@,
            BuilderError::Serialization(s) => "Serialization error: "@ + s@,
        }
    }

    /// The human-readable message of this error (what `to_string` prints).
    pub fn message(&self) -> (r: String)
        ensures
            r@ == self.spec_message(),
    {
        match self {
            BuilderError::InvalidHandle(s) => {
                let mut r = String::from_str("Invalid builder handle: ");
                crate::text::push_str(&mut r, s.as_str());
                r
            },
            BuilderError::HandleNotFound(s) => {
                let mut r = String::from_str("Builder handle '");
                crate::text::push_str(&mut r, s.as_str());
                crate::text::push_str(&mut r, "' not found or expired");
                r
            },
            BuilderError::Validation(s) => {
                let mut r = String::from_str("Validation error: ");
                crate::text::push_str(&mut r, s.as_str());
                r
            },
            BuilderError::Render(s) => {
                let mut r = String::from_str("Render error: ");
                crate::text::push_str(&mut r, s.as_str());
                r
            },
            BuilderError::Serialization(s) => {
                let mut r = String::from_str("Serialization error: ");
                crate::text::push_str(&mut r, s.as_str());
                r
            },
        }
    }
}

/// An error produced during query building or SQL rendering.
#[derive(Debug)]
pub enum QueryError {
    /// A SQL feature that is fundamentally incompatible with the active dialect.
    HardError {
        /// Short identifier for the unsupported feature (e.g. `"RETURNING"`).
        feature: String,
        /// The canonical dialect name (e.g. `"mysql"`).
        dialect: String,
        /// Human-readable explanation of why the feature is unavailable.
        message: String,
    },
    /// A structural or semantic error in the query state that prevents rendering.
    Validation(String),
}

impl QueryError {
    pub open spec fn spec_message(&self) -> Seq<char> {
        match self {
            QueryError::HardError { feature, dialect, message } => "Dialect \""@ + dialect@
                + "\" does not support "@ + feature@ + ": "@ + message@,
            QueryError::Validation(m) => m@,
        }
    }

    /// The human-readable message of this error (what `to_string` prints).
    pub fn message(&self) -> (r: String)
        ensures
            r@ == self.spec_message(),
    {
        match self {
            QueryError::HardError { feature, dialect, message } => {
                let mut r = String::from_str("Dialect \"");
                crate::text::push_str(&mut r, dialect.as_str());
                crate::text::push_str(&mut r, "\" does not support ");
                crate::text::push_str(&mut r, feature.as_str());
                crate::text::push_str(&mut r, ": ");
                crate::text::push_str(&mut r, message.as_str());
                r
            },
            QueryError::Validation(m) => m.clone(),
        }
    }

}

impl PartialEq for QueryError {
    fn eq(&self, other: &QueryError) -> (r: bool) {
        match (self, other) {
            (
                QueryError::HardError { feature: f1, dialect: d1, message: m1 },
                QueryError::HardError { feature: f2, dialect: d2, message: m2 },
            ) => f1.eq(f2) && d1.eq(d2) && m1.eq(m2),
            (QueryError::Validation(a), QueryError::Validation(b)) => a.eq(b),
            _ => false,
        }
    }
}

impl vstd::std_specs::cmp::PartialEqSpecImpl for QueryError {
    open spec fn obeys_eq_spec() -> bool {
        true
    }

    open spec fn eq_spec(&self, other: &QueryError) -> bool {
        match (self, other) {
            (
                QueryError::HardError { feature: f1, dialect: d1, message: m1 },
                QueryError::HardError { feature: f2, dialect: d2, message: m2 },
            ) => f1@ == f2@ && d1@ == d2@ && m1@ == m2@,
            (QueryError::Validation(a), QueryError::Validation(b)) => a@ == b@,
            _ => false,
        }
    }
}

/// Converts a legacy `String` error into a [`QueryError::Validation`].
impl From<String> for QueryError {
    fn from(msg: String) -> (r: Self) {
        QueryError::Validation(msg)
    }
}

impl FromSpecImpl<String> for QueryError {
    open spec fn obeys_from_spec() -> bool {
        true
    }

    open spec fn from_spec(v: String) -> QueryError {
        QueryError::Validation(v)
    }
}

/// A specific SQL feature that a dialect does not support.
#[derive(PartialEq, Eq, Structural, Clone, Copy, Debug)]
pub enum UnsupportedFeature {
    /// `RIGHT JOIN` syntax.
    RightJoin,
    /// `FULL OUTER JOIN` syntax.
    FullJoin,
    /// `RETURNING` clause on an `UPDATE` statement.
    ReturningOnUpdate,
    /// Window function expressions (e.g. `COUNT(*) OVER (...)`).
    WindowFunction,
}

impl UnsupportedFeature {
    pub open spec fn spec_name(self) -> Seq<char> {
        match self {
            UnsupportedFeature::RightJoin => "RightJoin"@,
            UnsupportedFeature::FullJoin => "FullJoin"@,
            UnsupportedFeature::ReturningOnUpdate => "ReturningOnUpdate"@,
            UnsupportedFeature::WindowFunction => "WindowFunction"@,
        }
    }

    /// The variant's name (what `to_string` prints).
    pub fn name(&self) -> (r: &'static str)
        ensures
            r@ == self.spec_name(),
    {
        match self {
            UnsupportedFeature::RightJoin => "RightJoin",
            UnsupportedFeature::FullJoin => "FullJoin",
            UnsupportedFeature::ReturningOnUpdate => "ReturningOnUpdate",
            UnsupportedFeature::WindowFunction => "WindowFunction",
        }
    }
}

/// A structured error from the dialect-aware pre-render validation pipeline.
pub struct ValidationError {
    /// Stable snake_case code for machine matching (e.g. `"right_join"`).
    pub code: String,
    /// Human-readable explanation of why the feature is unavailable.
    pub message: String,
    /// Typed discriminant identifying the unsupported feature.
    pub feature: UnsupportedFeature,
}

impl ValidationError {
    pub open spec fn spec_message(&self) -> Seq<char> {
        self.message@ + " (feature: "@ + self.feature.spec_name() + ")"@
    }

    /// `"<message> (feature: <Feature>)"` (what `to_string` prints).
    pub fn display(&self) -> (r: String)
        ensures
            r@ == self.spec_message(),
    {
        let mut r = self.message.clone();
        crate::text::push_str(&mut r, " (feature: ");
        crate::text::push_str(&mut r, self.feature.name());
        crate::text::push_str(&mut r, ")");
        r
    }
}

} // verus!
