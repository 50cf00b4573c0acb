use vstd::prelude::*;

pub mod backend;
pub mod builder;
pub mod dialect;
pub mod error;
pub mod expr_copy;
pub mod expr_node;
pub mod expressions;
pub mod sql;
pub mod syntax;
pub mod text;
pub mod lowering;
pub mod model;
pub mod parser;
pub mod types;

verus! {

#[verifier::external_type_specification]
#[verifier::external_body]
pub struct ExJsonError(serde_json::Error);

/// A minimal snapshot of an engine for a dialect.
pub struct EngineSnapshot {
    dialect: String,
}

/// The JSON text of an engine snapshot for the named dialect.
pub open spec fn snapshot_json(dialect: Seq<char>) -> Seq<char> {
    "{\"dialect\":\""@ + dialect + "\",\"stage\":\"start\",\"artifacts\":{\"text\":\"\",\"raw\":\"\",\"values_json\":[]}}"@
}

impl EngineSnapshot {
    /// The canonical name of the snapshot's dialect.
    pub closed spec fn dialect_name(&self) -> Seq<char> {
        self.dialect@
    }

    /// A snapshot for the named dialect (Postgres when none is named; unknown names are
    /// kept normalized).
    pub fn new(dialect: Option<&str>) -> (r: Self)
        ensures
            exists|d: dialect::Dialect| r.dialect_name() == d.spec_as_str() && match dialect {
                Some(name) => dialect::dialect_for_name(d, dialect::spec_normalize_dialect_name(name@)),
                None => d is Postgres,
            },
    {
        let d = match dialect {
            Some(name) => dialect::Dialect::parse(name),
            None => dialect::Dialect::Postgres,
        };
        let name = d.as_str().to_string();
        EngineSnapshot { dialect: name }
    }

    /// The snapshot as JSON: its dialect, the `start` stage and empty artifacts.
    pub fn to_json(&self) -> (r: Result<String, serde_json::Error>)
        ensures
            r matches Ok(s) && s@ == snapshot_json(self.dialect_name()),
    {
        let mut s = String::from_str("{\"dialect\":\"");
        text::push_str(&mut s, self.dialect.as_str());
        text::push_str(&mut s, "\",\"stage\":\"start\",\"artifacts\":{\"text\":\"\",\"raw\":\"\",\"values_json\":[]}}");
        assert(s@ =~= snapshot_json(self.dialect_name()));
        Ok(s)
    }
}

/// The library version.
pub fn version() -> (r: &'static str)
    ensures
        r@ == "0.1.0"@,
{
    "0.1.0"
}

} // verus!
