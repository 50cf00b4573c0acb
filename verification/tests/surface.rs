use plec_query_core::builder::api::{builder_clone, builder_from_table, builder_new, builder_select_aliased_entries, builder_where};
use plec_query_core::builder::methods::{Predicate, SelectAliasedEntry};
use plec_query_core::builder::output::{builder_query_typed, builder_text, registry_get_parts};
use plec_query_core::builder::registry::Registry;
use plec_query_core::builder::render::query_parts_contain_runtime_values;
use plec_query_core::builder::state::JoinType;
use plec_query_core::dialect::{capabilities_for, Dialect, PlaceholderStyle};
use plec_query_core::error::{UnsupportedFeature, ValidationError};
use plec_query_core::expr_node::ExprNode;
use plec_query_core::sql::{compile_postgres, compile_query, ref_identifier};
use plec_query_core::types::{JsonNumber, Primitive, SqlQuery};

fn s(x: &str) -> String {
    x.to_string()
}

fn one_param(text: &str) -> SqlQuery {
    SqlQuery { text: s(text), raw: s("a = 1"), values: vec![Primitive::Number(JsonNumber::PosInt(1))] }
}

#[test]
fn capabilities_for_reads_the_dialect_name() {
    assert_eq!(capabilities_for("postgres").placeholder_style, PlaceholderStyle::DollarNumbered);
    assert_eq!(capabilities_for("mysql").placeholder_style, PlaceholderStyle::QuestionMark);
    assert_eq!(capabilities_for("mongodb").placeholder_style, PlaceholderStyle::Unsupported);
}

#[test]
fn ref_identifier_refuses_empty_parts() {
    assert_eq!(ref_identifier(vec![]).unwrap_err(), "Identifier must have at least one part");
    assert_eq!(
        ref_identifier(vec![s("u"), s("")]).unwrap_err(),
        "Validation error: Identifier part cannot be empty"
    );
    assert_eq!(ref_identifier(vec![s("u"), s("id")]).unwrap().parts, vec![s("u"), s("id")]);
}

#[test]
fn compile_postgres_numbers_placeholders() {
    let compiled = compile_postgres(one_param("a = ?")).unwrap();
    assert_eq!(compiled.text, "a = $1");
    assert_eq!(compiled.raw, "a = 1");
}

#[test]
fn compile_query_follows_the_named_dialect() {
    assert_eq!(compile_query(one_param("a = ?"), "mssql").unwrap().text, "a = @p1");
    assert_eq!(compile_query(one_param("a = ?"), "mysql").unwrap().text, "a = ?");
    assert_eq!(
        compile_query(one_param("a = ? AND b = ?"), "postgres").unwrap_err(),
        "Dialect \"postgres\" compilation expected 1 placeholders but found 2."
    );
}

#[test]
fn validation_error_display_names_the_feature() {
    let e = ValidationError { code: s("right_join"), message: s("no RIGHT JOIN"), feature: UnsupportedFeature::RightJoin };
    assert_eq!(e.display(), "no RIGHT JOIN (feature: RightJoin)");
}

#[test]
fn select_aliased_entries_render_their_aliases() {
    let mut reg = Registry::new();
    let h = builder_new(&mut reg, Some("postgres"));
    let h = builder_from_table(&mut reg, &h, s("users")).unwrap();
    let entries = vec![SelectAliasedEntry { alias: s("userId"), expr: ExprNode::Ref { parts: vec![s("id")] }, bare: false }];
    let h = builder_select_aliased_entries(&mut reg, &h, entries).unwrap();
    assert_eq!(builder_query_typed(&mut reg, &h).unwrap().raw, "SELECT id AS userId FROM users");
}

#[test]
fn runtime_values_are_found_in_a_where_clause() {
    let mut reg = Registry::new();
    let h = builder_new(&mut reg, Some("postgres"));
    let h = builder_from_table(&mut reg, &h, s("users")).unwrap();
    assert!(!query_parts_contain_runtime_values(&registry_get_parts(&reg, &h).unwrap()));
    let pred = Predicate::Node(ExprNode::Cmp {
        left: Box::new(ExprNode::Ref { parts: vec![s("id")] }),
        op: s("="),
        right: Box::new(ExprNode::Val { value: Primitive::Number(JsonNumber::PosInt(7)) }),
    });
    let h = builder_where(&mut reg, &h, pred).unwrap();
    assert!(query_parts_contain_runtime_values(&registry_get_parts(&reg, &h).unwrap()));
}

#[test]
fn a_remembered_render_is_returned_for_its_handle() {
    let mut reg = Registry::new();
    let h = builder_new(&mut reg, Some("postgres"));
    let h = builder_from_table(&mut reg, &h, s("users")).unwrap();
    reg.registry_set_cached(&h, SqlQuery { text: s("SELECT 42"), raw: s("SELECT 42"), values: vec![] });
    assert_eq!(builder_query_typed(&mut reg, &h).unwrap().text, "SELECT 42");
}

#[test]
fn join_keywords_parse_back_in_either_case() {
    for t in [JoinType::Inner, JoinType::Left, JoinType::Right, JoinType::FullOuter, JoinType::Cross] {
        assert_eq!(JoinType::parse(t.as_sql()), Ok(t));
        assert_eq!(JoinType::parse(&t.as_sql().to_lowercase()), Ok(t));
    }
    assert_eq!(JoinType::parse("LEFT OUTER JOIN").unwrap().as_sql(), "LEFT JOIN");
}

#[test]
fn dialect_names_round_trip_through_parse() {
    let d = Dialect::parse(" MSSQLServer ");
    assert_eq!(d.as_str(), "mssql");
    assert_eq!(Dialect::parse(d.as_str()), Dialect::parse(" MSSQLServer "));
    let u = Dialect::parse(" NoSuchDb ");
    assert_eq!(u.as_str(), "nosuchdb");
    assert_eq!(Dialect::parse(u.as_str()), u);
}

#[test]
fn calls_on_a_clone_leave_the_original_unchanged() {
    let mut reg = Registry::new();
    let h = builder_new(&mut reg, Some("postgres"));
    let h = builder_from_table(&mut reg, &h, s("users")).unwrap();
    let entries = vec![SelectAliasedEntry { alias: s("userId"), expr: ExprNode::Ref { parts: vec![s("id")] }, bare: false }];
    let h = builder_select_aliased_entries(&mut reg, &h, entries).unwrap();
    let before = builder_text(&mut reg, &h).unwrap();
    let c = builder_clone(&mut reg, &h).unwrap();
    assert_ne!(c, h);
    assert_eq!(builder_text(&mut reg, &c).unwrap(), before);
    let pred = Predicate::Node(ExprNode::Cmp {
        left: Box::new(ExprNode::Ref { parts: vec![s("id")] }),
        op: s("="),
        right: Box::new(ExprNode::Val { value: Primitive::Number(JsonNumber::PosInt(1)) }),
    });
    let c2 = builder_where(&mut reg, &c, pred).unwrap();
    assert_ne!(builder_text(&mut reg, &c2).unwrap(), before);
    assert_eq!(builder_text(&mut reg, &h).unwrap(), before);
    assert_eq!(builder_text(&mut reg, &c).unwrap(), before);
}

#[test]
fn not_found_messages_quote_the_key_a_handle_reads_as() {
    let mut reg = Registry::new();
    assert_eq!(builder_text(&mut reg, "007").unwrap_err(), "Builder handle '7' not found or expired");
    assert_eq!(builder_from_table(&mut reg, "007", s("users")).unwrap_err(), "Builder handle '7' not found or expired");
    assert_eq!(builder_clone(&mut reg, "007").unwrap_err(), "Builder handle '007' not found or expired");
}

#[test]
fn a_rendered_query_binds_one_value_per_placeholder() {
    let mut reg = Registry::new();
    let h = builder_new(&mut reg, Some("postgres"));
    let h = builder_from_table(&mut reg, &h, s("users")).unwrap();
    let entries = vec![SelectAliasedEntry { alias: s("userId"), expr: ExprNode::Ref { parts: vec![s("id")] }, bare: false }];
    let h = builder_select_aliased_entries(&mut reg, &h, entries).unwrap();
    let pred = Predicate::Node(ExprNode::Cmp {
        left: Box::new(ExprNode::Ref { parts: vec![s("id")] }),
        op: s(">"),
        right: Box::new(ExprNode::Val { value: Primitive::Number(JsonNumber::PosInt(7)) }),
    });
    let h = builder_where(&mut reg, &h, pred).unwrap();
    let h = plec_query_core::builder::api::builder_limit(&mut reg, &h, 10).unwrap();
    let q = builder_query_typed(&mut reg, &h).unwrap();
    assert_eq!(q.text.matches('?').count(), q.values.len());
    assert_eq!(q.values.len(), 2);
}
