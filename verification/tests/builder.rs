use plec_query_core::builder::api::{
    builder_apply_ops, builder_apply_ops_bin, builder_distinct, builder_from_table_alias, builder_insert_into,
    builder_join_table, builder_new, builder_returning_columns, builder_select_columns, builder_values_insert,
    builder_where, builder_and_where, builder_or_where, builder_limit, builder_clone, builder_drop,
};
use plec_query_core::builder::methods::{BuilderOp, Predicate};
use plec_query_core::builder::output::{builder_query_typed, builder_raw, builder_text, get_or_build_query};
use plec_query_core::builder::registry::{registry_parse_handle, Registry};
use plec_query_core::expr_node::ExprNode;
use plec_query_core::types::{JsonNumber, Primitive, SqlQuery, SqlValue};

fn s(x: &str) -> String {
    x.to_string()
}

fn strings(xs: &[&str]) -> Vec<String> {
    xs.iter().map(|x| x.to_string()).collect()
}

fn col(path: &str) -> ExprNode {
    ExprNode::Ref { parts: path.split('.').map(|p| p.to_string()).collect() }
}

fn num(n: u64) -> ExprNode {
    ExprNode::Val { value: Primitive::Number(JsonNumber::PosInt(n)) }
}

fn eq(l: ExprNode, r: ExprNode) -> Predicate {
    Predicate::Node(ExprNode::Cmp { left: Box::new(l), op: s("="), right: Box::new(r) })
}

#[test]
fn unknown_join_type_is_rejected() {
    let mut reg = Registry::new();
    let handle = builder_new(&mut reg, Some("postgres"));
    let handle = builder_from_table_alias(&mut reg, &handle, "users".to_string(), "u".to_string()).unwrap();
    let err = builder_join_table(&mut reg, &handle, "BANANA JOIN".to_string(), "orders".to_string()).unwrap_err();
    assert!(err.contains("Unknown join type"), "got: {err}");
}

#[test]
fn batch_apply_ops_bin_rejects_truncated_payload() {
    let mut reg = Registry::new();
    let handle = builder_new(&mut reg, Some("postgres"));
    let err = builder_apply_ops_bin(&mut reg, &handle, vec![1, 0, 0], |_frame: &Vec<u8>| -> Result<BuilderOp, String> {
        Err(s("no frame should be decoded"))
    })
    .unwrap_err();
    assert!(err.contains("too short"));
}

#[test]
fn reset_structural_cache_clears_cache() {
    let mut reg = Registry::new();
    reg.registry_set_structural_cached(7, SqlQuery::literal("SELECT 1"));
    assert_eq!(reg.structural_cache_len(), 1);
    reg.reset_structural_cache();

    assert_eq!(reg.structural_cache_len(), 0);
}

#[test]
fn insert_values_returning_columns_renders() {
    let mut reg = Registry::new();
    let handle = builder_new(&mut reg, Some("postgres"));
    let handle = builder_insert_into(&mut reg, &handle, "users".to_string()).unwrap();
    let handle = builder_values_insert(
        &mut reg,
        &handle,
        strings(&["id", "name"]),
        vec![vec![
            SqlValue::Primitive(Primitive::String("u_1".to_string())),
            SqlValue::Primitive(Primitive::String("Ada".to_string())),
        ]],
    )
    .unwrap();
    let handle = builder_returning_columns(&mut reg, &handle, strings(&["id", "name"])).unwrap();

    let query = builder_query_typed(&mut reg, &handle).unwrap();
    assert_eq!(query.text, r#"INSERT INTO "users" ("id", "name") VALUES (?, ?) RETURNING "id", "name""#);
    assert_eq!(query.raw, "INSERT INTO users (id, name) VALUES ('u_1', 'Ada') RETURNING id, name");
}

#[test]
fn plain_distinct_still_renders() {
    let mut reg = Registry::new();
    let handle = builder_new(&mut reg, Some("postgres"));
    let handle = builder_from_table_alias(&mut reg, &handle, "users".to_string(), "u".to_string()).unwrap();
    let handle = builder_distinct(&mut reg, &handle).unwrap();
    let handle = builder_select_columns(&mut reg, &handle, strings(&["u.id", "u.name"])).unwrap();

    let query = builder_query_typed(&mut reg, &handle).unwrap();
    assert_eq!(query.raw, "SELECT DISTINCT u.id, u.name FROM users u");
}

#[test]
fn select_star_renders_unquoted_wildcard() {
    let mut reg = Registry::new();
    let handle = builder_new(&mut reg, Some("duckdb"));
    let handle = builder_from_table_alias(&mut reg, &handle, "org_acme.users".to_string(), "u".to_string()).unwrap();
    let handle = builder_select_columns(&mut reg, &handle, strings(&["*"])).unwrap();

    let query = builder_query_typed(&mut reg, &handle).unwrap();
    assert_eq!(query.text, r#"SELECT * FROM "org_acme"."users" "u""#);
    assert_eq!(query.raw, "SELECT * FROM org_acme.users u");
}

#[test]
fn handles_read_back_as_their_keys() {
    let mut reg = Registry::new();
    let a = builder_new(&mut reg, None);
    let b = builder_new(&mut reg, None);
    assert_eq!(a, "1");
    assert_eq!(b, "2");
    assert_eq!(registry_parse_handle(&a), Ok(1));
    assert_eq!(registry_parse_handle("+2"), Ok(2));
    assert_eq!(registry_parse_handle("x1").unwrap_err(), "Invalid builder handle: x1");
    assert_eq!(registry_parse_handle("").unwrap_err(), "Invalid builder handle: ");
    assert_eq!(registry_parse_handle("18446744073709551616").unwrap_err(), "Invalid builder handle: 18446744073709551616");
    assert_eq!(registry_parse_handle("18446744073709551615"), Ok(u64::MAX));
}

#[test]
fn builder_calls_leave_earlier_handles_unchanged() {
    let mut reg = Registry::new();
    let base = builder_new(&mut reg, Some("postgres"));
    let base = builder_from_table_alias(&mut reg, &base, s("users"), s("u")).unwrap();
    let base = builder_select_columns(&mut reg, &base, strings(&["*"])).unwrap();
    let with_where = builder_where(&mut reg, &base, eq(col("u.id"), num(7))).unwrap();
    assert_ne!(base, with_where);
    assert_eq!(builder_raw(&mut reg, &base).unwrap(), "SELECT * FROM users u");
    assert_eq!(builder_raw(&mut reg, &with_where).unwrap(), "SELECT * FROM users u WHERE u.id = 7");
    assert_eq!(builder_text(&mut reg, &with_where).unwrap(), r#"SELECT * FROM "users" "u" WHERE "u"."id" = ?"#);
}

#[test]
fn where_predicates_combine_in_order() {
    let mut reg = Registry::new();
    let h = builder_new(&mut reg, Some("postgres"));
    let h = builder_from_table_alias(&mut reg, &h, s("users"), s("u")).unwrap();
    let h = builder_select_columns(&mut reg, &h, strings(&["*"])).unwrap();
    let h = builder_where(&mut reg, &h, eq(col("u.id"), num(1))).unwrap();
    let h = builder_and_where(&mut reg, &h, eq(col("u.age"), num(2))).unwrap();
    let h = builder_or_where(&mut reg, &h, eq(col("u.age"), num(3))).unwrap();
    let raw = builder_raw(&mut reg, &h).unwrap();
    assert!(raw.starts_with("SELECT * FROM users u WHERE "), "got: {raw}");
    assert!(raw.contains("u.id = 1"), "got: {raw}");
    assert!(raw.contains("u.age = 2"), "got: {raw}");
    assert!(raw.contains("OR"), "got: {raw}");
}

#[test]
fn batch_of_operations_matches_single_calls() {
    let mut reg = Registry::new();
    let start = builder_new(&mut reg, Some("postgres"));
    let one = builder_from_table_alias(&mut reg, &start, s("users"), s("u")).unwrap();
    let one = builder_select_columns(&mut reg, &one, strings(&["u.id"])).unwrap();
    let one = builder_limit(&mut reg, &one, 5).unwrap();
    let batch = builder_apply_ops(
        &mut reg,
        &start,
        vec![
            BuilderOp::FromTableAlias { table: s("users"), alias: s("u") },
            BuilderOp::SelectColumns { cols: strings(&["u.id"]) },
            BuilderOp::Limit { count: 5 },
        ],
    )
    .unwrap();
    assert_eq!(builder_raw(&mut reg, &one).unwrap(), builder_raw(&mut reg, &batch).unwrap());
    assert_eq!(builder_raw(&mut reg, &batch).unwrap(), "SELECT u.id FROM users u LIMIT 5");
}

#[test]
fn asking_twice_for_a_query_gives_the_same_query() {
    let mut reg = Registry::new();
    let h = builder_new(&mut reg, Some("postgres"));
    let h = builder_from_table_alias(&mut reg, &h, s("users"), s("u")).unwrap();
    let h = builder_select_columns(&mut reg, &h, strings(&["u.id"])).unwrap();
    let first = get_or_build_query(&mut reg, &h).unwrap();
    let second = get_or_build_query(&mut reg, &h).unwrap();
    assert_eq!(first.text, second.text);
    assert_eq!(first.raw, second.raw);
    assert_eq!(reg.registry_try_get_cached(&h).unwrap().raw, first.raw);
}

#[test]
fn dropped_and_unknown_handles_are_not_found() {
    let mut reg = Registry::new();
    let h = builder_new(&mut reg, Some("postgres"));
    let c = builder_clone(&mut reg, &h).unwrap();
    builder_drop(&mut reg, &h);
    assert_eq!(builder_raw(&mut reg, &h).unwrap_err(), "Builder handle '1' not found or expired");
    assert_eq!(builder_distinct(&mut reg, &h).unwrap_err(), "Builder handle '1' not found or expired");
    assert_eq!(builder_distinct(&mut reg, "abc").unwrap_err(), "Invalid builder handle: abc");
    assert!(builder_distinct(&mut reg, &c).is_ok());
}
