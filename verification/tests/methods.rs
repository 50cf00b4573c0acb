use plec_query_core::builder::api::{
    builder_apply_ops, builder_apply_ops_bin, builder_columns, builder_dialect_strict, builder_join_table, builder_join_table_alias, builder_on, builder_on_columns,
    builder_using_columns, builder_conflict_where, builder_do_update_set, builder_on_conflict_constraint, builder_delete_from, builder_distinct_on_columns, builder_distinct_on_exprs,
    builder_do_nothing, builder_for_share, builder_for_update, builder_from_table_alias, builder_insert_into,
    builder_insert_select_handle, builder_new, builder_no_wait, builder_on_conflict_columns,
    builder_returning_aliased, builder_returning_columns, builder_select_columns, builder_set, builder_skip_locked,
    builder_update, builder_values_insert, builder_where, builder_with, builder_with_recursive,
    builder_with_recursive_columns,
};
use plec_query_core::builder::methods::{AssignmentInputValue, BuilderOp, DistinctOnInput, Predicate, SelectAliasedEntry};
use plec_query_core::backend::backend_for_dialect_name;
use plec_query_core::builder::output::{builder_query_typed, registry_get_parts};
use plec_query_core::builder::render::build_query_with_context;
use plec_query_core::dialect::{Dialect, InsertConflictStyle};
use plec_query_core::expressions::over_clause;
use plec_query_core::builder::registry::Registry;
use plec_query_core::expr_node::ExprNode;
use plec_query_core::sql;
use plec_query_core::types::{JsonNumber, Primitive, SqlQuery, SqlValue, WindowOrderItem};

fn s(x: &str) -> String {
    x.to_string()
}

fn strings(xs: &[&str]) -> Vec<String> {
    xs.iter().map(|x| x.to_string()).collect()
}

fn num(n: u64) -> Primitive {
    Primitive::Number(JsonNumber::PosInt(n))
}

fn text(v: &str) -> SqlValue {
    SqlValue::Primitive(Primitive::String(s(v)))
}

fn reference(parts: &[&str]) -> ExprNode {
    ExprNode::Ref { parts: strings(parts) }
}

fn simple_cte_query() -> SqlQuery {
    SqlQuery { text: s("SELECT 1 AS id"), raw: s("SELECT 1 AS id"), values: vec![] }
}

fn users_u(reg: &mut Registry, dialect: &str) -> String {
    let h = builder_new(reg, Some(dialect));
    builder_from_table_alias(reg, &h, s("users"), s("u")).unwrap()
}

fn fta(table: &str, alias: &str) -> BuilderOp {
    BuilderOp::FromTableAlias { table: s(table), alias: s(alias) }
}

fn sc(cols: &[&str]) -> BuilderOp {
    BuilderOp::SelectColumns { cols: strings(cols) }
}

fn ob(col: &str, direction: &str) -> BuilderOp {
    BuilderOp::OrderBy { col: s(col), direction: Some(s(direction)), null_order: None }
}

fn country_and_lower_email() -> Vec<DistinctOnInput> {
    vec![
        DistinctOnInput::Node(reference(&["u", "country"])),
        DistinctOnInput::Node(ExprNode::FnCall { name: s("LOWER"), args: vec![reference(&["u", "email"])] }),
    ]
}

fn equals(column: &str, value: SqlValue) -> Predicate {
    Predicate::Query(
        sql::sql(
            strings(&["", " = ", ""]),
            vec![SqlValue::Identifier(sql::identifier(vec![s(column)]).unwrap()), value],
        )
        .unwrap(),
    )
}

#[test]
fn distinct_on_columns_renders_for_postgres() {
    let mut reg = Registry::new();
    let h = users_u(&mut reg, "postgres");
    let h = builder_distinct_on_columns(&mut reg, &h, strings(&["u.country"])).unwrap();
    let h = builder_select_columns(&mut reg, &h, strings(&["u.id", "u.country"])).unwrap();

    let query = builder_query_typed(&mut reg, &h).unwrap();
    assert_eq!(query.text, r#"SELECT DISTINCT ON ("u"."country") "u"."id", "u"."country" FROM "users" "u""#);
    assert_eq!(query.raw, "SELECT DISTINCT ON (u.country) u.id, u.country FROM users u");
}

#[test]
fn distinct_on_exprs_renders_for_duckdb() {
    let mut reg = Registry::new();
    let h = users_u(&mut reg, "duckdb");
    let h = builder_distinct_on_exprs(&mut reg, &h, country_and_lower_email()).unwrap();
    let h = builder_select_columns(&mut reg, &h, strings(&["u.id", "u.email"])).unwrap();

    let query = builder_query_typed(&mut reg, &h).unwrap();
    assert_eq!(query.raw, "SELECT DISTINCT ON (u.country, LOWER(u.email)) u.id, u.email FROM users u");
}

#[test]
fn unsupported_dialect_rejects_distinct_on_before_sql_emission() {
    let mut reg = Registry::new();
    let h = users_u(&mut reg, "sqlite");
    let h = builder_distinct_on_columns(&mut reg, &h, strings(&["u.country"])).unwrap();
    let h = builder_select_columns(&mut reg, &h, strings(&["u.id"])).unwrap();

    let error = builder_query_typed(&mut reg, &h).unwrap_err();
    assert_eq!(error, r#"Dialect "sqlite" does not support DISTINCT ON in this builder."#);
}

fn nums_cte(reg: &mut Registry, dialect: &str, recursive: bool) -> String {
    let h = builder_new(reg, Some(dialect));
    let h = if recursive {
        builder_with_recursive(reg, &h, s("nums"), simple_cte_query()).unwrap()
    } else {
        builder_with(reg, &h, s("nums"), simple_cte_query()).unwrap()
    };
    let h = builder_from_table_alias(reg, &h, s("nums"), s("n")).unwrap();
    builder_select_columns(reg, &h, strings(&["n.id"])).unwrap()
}

#[test]
fn postgres_recursive_cte_renders_with_recursive_keyword() {
    let mut reg = Registry::new();
    let h = nums_cte(&mut reg, "postgres", true);
    let query = builder_query_typed(&mut reg, &h).unwrap();
    assert_eq!(query.raw, "WITH RECURSIVE nums AS (SELECT 1 AS id) SELECT n.id FROM nums n");
}

#[test]
fn non_recursive_cte_renders_with_keyword_only() {
    let mut reg = Registry::new();
    let h = nums_cte(&mut reg, "postgres", false);
    let query = builder_query_typed(&mut reg, &h).unwrap();
    assert_eq!(query.raw, "WITH nums AS (SELECT 1 AS id) SELECT n.id FROM nums n");
}

#[test]
fn mixed_ctes_render_one_recursive_with_keyword() {
    let mut reg = Registry::new();
    let h = builder_new(&mut reg, Some("postgres"));
    let h = builder_with(&mut reg, &h, s("seed"), simple_cte_query()).unwrap();
    let h = builder_with_recursive(&mut reg, &h, s("nums"), simple_cte_query()).unwrap();
    let h = builder_from_table_alias(&mut reg, &h, s("nums"), s("n")).unwrap();
    let h = builder_select_columns(&mut reg, &h, strings(&["n.id"])).unwrap();

    let query = builder_query_typed(&mut reg, &h).unwrap();
    assert_eq!(
        query.raw,
        "WITH RECURSIVE seed AS (SELECT 1 AS id), nums AS (SELECT 1 AS id) SELECT n.id FROM nums n"
    );
}

#[test]
fn unknown_dialect_rejects_recursive_cte_before_sql_emission() {
    let mut reg = Registry::new();
    let h = nums_cte(&mut reg, "unknown", true);
    let error = builder_query_typed(&mut reg, &h).unwrap_err();
    assert_eq!(error, r#"Dialect "unknown" does not support recursive CTEs in this builder."#);
}

#[test]
fn mssql_recursive_cte_renders_without_recursive_keyword() {
    let mut reg = Registry::new();
    let h = nums_cte(&mut reg, "mssql", true);
    let query = builder_query_typed(&mut reg, &h).unwrap();
    assert_eq!(query.raw, "WITH nums AS (SELECT 1 AS id) SELECT n.id FROM nums n");
}

#[test]
fn recursive_cte_column_aliases_are_required_when_dialect_requires_them() {
    let mut reg = Registry::new();
    let h = nums_cte(&mut reg, "snowflake", true);
    let error = builder_query_typed(&mut reg, &h).unwrap_err();
    assert_eq!(error, r#"Dialect "snowflake" requires column aliases for recursive CTE "nums"."#);
}

#[test]
fn recursive_cte_column_aliases_render_when_dialect_requires_them() {
    let mut reg = Registry::new();
    let h = builder_new(&mut reg, Some("snowflake"));
    let h = builder_with_recursive_columns(&mut reg, &h, s("nums"), simple_cte_query(), strings(&["id"])).unwrap();
    let h = builder_from_table_alias(&mut reg, &h, s("nums"), s("n")).unwrap();
    let h = builder_select_columns(&mut reg, &h, strings(&["n.id"])).unwrap();

    let query = builder_query_typed(&mut reg, &h).unwrap();
    assert_eq!(query.raw, "WITH RECURSIVE nums (id) AS (SELECT 1 AS id) SELECT n.id FROM nums n");
}

#[test]
fn batch_recursive_cte_query_columns_render_when_dialect_requires_them() {
    let mut reg = Registry::new();
    let h = builder_new(&mut reg, Some("snowflake"));
    let ops = vec![
        BuilderOp::WithRecursiveQuery { name: s("nums"), query: simple_cte_query(), columns: strings(&["id"]) },
        fta("nums", "n"),
        sc(&["n.id"]),
    ];
    let h = builder_apply_ops(&mut reg, &h, ops).unwrap();

    let query = builder_query_typed(&mut reg, &h).unwrap();
    assert_eq!(query.raw, "WITH RECURSIVE nums (id) AS (SELECT 1 AS id) SELECT n.id FROM nums n");
}

#[test]
fn batch_ops_support_distinct_on_with_ordering_sensitive_output() {
    let mut reg = Registry::new();
    let h = builder_new(&mut reg, Some("postgres"));
    let ops = vec![
        fta("users", "u"),
        BuilderOp::DistinctOnExprs { exprs: country_and_lower_email() },
        sc(&["u.id", "u.email", "u.country"]),
        ob("u.country", "ASC"),
        ob("u.email", "DESC"),
    ];
    let h = builder_apply_ops(&mut reg, &h, ops).unwrap();

    let query = builder_query_typed(&mut reg, &h).unwrap();
    assert_eq!(
        query.raw,
        "SELECT DISTINCT ON (u.country, LOWER(u.email)) u.id, u.email, u.country FROM users u ORDER BY u.country ASC, u.email DESC"
    );
}

#[test]
fn select_for_update_renders() {
    let mut reg = Registry::new();
    let h = users_u(&mut reg, "postgres");
    let h = builder_select_columns(&mut reg, &h, strings(&["u.id"])).unwrap();
    let h = builder_for_update(&mut reg, &h).unwrap();

    assert_eq!(builder_query_typed(&mut reg, &h).unwrap().raw, "SELECT u.id FROM users u FOR UPDATE");
}

#[test]
fn select_for_share_renders() {
    let mut reg = Registry::new();
    let h = users_u(&mut reg, "postgres");
    let h = builder_select_columns(&mut reg, &h, strings(&["u.id"])).unwrap();
    let h = builder_for_share(&mut reg, &h).unwrap();

    assert_eq!(builder_query_typed(&mut reg, &h).unwrap().raw, "SELECT u.id FROM users u FOR SHARE");
}

#[test]
fn select_lock_modifier_renders_after_order_and_pagination() {
    let mut reg = Registry::new();
    let h = builder_new(&mut reg, Some("postgres"));
    let ops = vec![
        fta("users", "u"),
        sc(&["u.id"]),
        ob("u.id", "DESC"),
        BuilderOp::Limit { count: 5 },
        BuilderOp::Offset { count: 10 },
        BuilderOp::ForUpdate,
        BuilderOp::SkipLocked,
    ];
    let h = builder_apply_ops(&mut reg, &h, ops).unwrap();

    assert_eq!(
        builder_query_typed(&mut reg, &h).unwrap().raw,
        "SELECT u.id FROM users u ORDER BY u.id DESC LIMIT 5 OFFSET 10 FOR UPDATE SKIP LOCKED"
    );
}

fn paged(reg: &mut Registry, dialect: &str, order: Option<&str>, limit: Option<u32>, offset: Option<u32>) -> String {
    let h = builder_new(reg, Some(dialect));
    let mut ops = vec![fta("users", "u"), sc(&["u.id"])];
    if let Some(direction) = order {
        ops.push(ob("u.id", direction));
    }
    if let Some(count) = limit {
        ops.push(BuilderOp::Limit { count });
    }
    if let Some(count) = offset {
        ops.push(BuilderOp::Offset { count });
    }
    builder_apply_ops(reg, &h, ops).unwrap()
}

#[test]
fn postgres_limit_only_renders_with_structured_pagination() {
    let mut reg = Registry::new();
    let h = paged(&mut reg, "postgres", None, Some(5), None);

    let query = builder_query_typed(&mut reg, &h).unwrap();
    assert_eq!(query.text, r#"SELECT "u"."id" FROM "users" "u" LIMIT ?"#);
    assert_eq!(query.raw, "SELECT u.id FROM users u LIMIT 5");
    assert_eq!(query.values, vec![num(5)]);
}

#[test]
fn postgres_limit_offset_renders_with_structured_pagination() {
    let mut reg = Registry::new();
    let h = paged(&mut reg, "postgres", None, Some(5), Some(10));

    let query = builder_query_typed(&mut reg, &h).unwrap();
    assert_eq!(query.text, r#"SELECT "u"."id" FROM "users" "u" LIMIT ? OFFSET ?"#);
    assert_eq!(query.raw, "SELECT u.id FROM users u LIMIT 5 OFFSET 10");
    assert_eq!(query.values, vec![num(5), num(10)]);
}

#[test]
fn mysql_rejects_offset_without_limit_before_sql_emission() {
    let mut reg = Registry::new();
    let h = paged(&mut reg, "mysql", None, None, Some(10));

    let error = builder_query_typed(&mut reg, &h).unwrap_err();
    assert_eq!(error, r#"Dialect "mysql" does not support OFFSET without LIMIT in this builder."#);
}

#[test]
fn mssql_limit_only_renders_top() {
    let mut reg = Registry::new();
    let h = paged(&mut reg, "mssql", None, Some(5), None);

    let query = builder_query_typed(&mut reg, &h).unwrap();
    assert_eq!(query.text, r#"SELECT TOP (?) "u"."id" FROM "users" "u""#);
    assert_eq!(query.raw, "SELECT TOP (5) u.id FROM users u");
    assert_eq!(query.values, vec![num(5)]);
}

#[test]
fn mssql_offset_only_renders_offset_rows() {
    let mut reg = Registry::new();
    let h = paged(&mut reg, "mssql", Some("ASC"), None, Some(10));

    let query = builder_query_typed(&mut reg, &h).unwrap();
    assert_eq!(query.text, r#"SELECT "u"."id" FROM "users" "u" ORDER BY "u"."id" ASC OFFSET ? ROWS"#);
    assert_eq!(query.raw, "SELECT u.id FROM users u ORDER BY u.id ASC OFFSET 10 ROWS");
    assert_eq!(query.values, vec![num(10)]);
}

#[test]
fn mssql_limit_offset_renders_offset_fetch() {
    let mut reg = Registry::new();
    let h = paged(&mut reg, "mssql", Some("DESC"), Some(5), Some(10));

    let query = builder_query_typed(&mut reg, &h).unwrap();
    assert_eq!(
        query.text,
        r#"SELECT "u"."id" FROM "users" "u" ORDER BY "u"."id" DESC OFFSET ? ROWS FETCH NEXT ? ROWS ONLY"#
    );
    assert_eq!(query.raw, "SELECT u.id FROM users u ORDER BY u.id DESC OFFSET 10 ROWS FETCH NEXT 5 ROWS ONLY");
    assert_eq!(query.values, vec![num(10), num(5)]);
}

#[test]
fn mssql_rejects_offset_without_order_by_before_sql_emission() {
    let mut reg = Registry::new();
    let h = paged(&mut reg, "mssql", None, None, Some(10));

    let error = builder_query_typed(&mut reg, &h).unwrap_err();
    assert_eq!(error, r#"Dialect "mssql" requires ORDER BY when using OFFSET/FETCH pagination in this builder."#);
}

#[test]
fn select_lock_modifier_requires_strength() {
    let mut reg = Registry::new();
    let h = users_u(&mut reg, "postgres");
    let h = builder_select_columns(&mut reg, &h, strings(&["u.id"])).unwrap();

    let error = builder_no_wait(&mut reg, &h).unwrap_err();
    assert_eq!(error, "Select lock modifier requires a lock strength first.");
}

#[test]
fn unsupported_dialect_rejects_select_lock_before_sql_emission() {
    let mut reg = Registry::new();
    let h = users_u(&mut reg, "sqlite");
    let h = builder_select_columns(&mut reg, &h, strings(&["u.id"])).unwrap();
    let h = builder_for_update(&mut reg, &h).unwrap();

    let error = builder_query_typed(&mut reg, &h).unwrap_err();
    assert_eq!(error, r#"Dialect "sqlite" does not support FOR UPDATE in this builder."#);
}

#[test]
fn replacing_lock_strength_clears_existing_modifier() {
    let mut reg = Registry::new();
    let h = users_u(&mut reg, "postgres");
    let h = builder_select_columns(&mut reg, &h, strings(&["u.id"])).unwrap();
    let h = builder_for_update(&mut reg, &h).unwrap();
    let h = builder_skip_locked(&mut reg, &h).unwrap();
    let h = builder_for_share(&mut reg, &h).unwrap();

    assert_eq!(builder_query_typed(&mut reg, &h).unwrap().raw, "SELECT u.id FROM users u FOR SHARE");
}

#[test]
fn insert_select_returning_columns_renders() {
    let mut reg = Registry::new();
    let rhs = users_u(&mut reg, "postgres");
    let rhs = builder_select_columns(&mut reg, &rhs, strings(&["u.id", "u.name"])).unwrap();

    let h = builder_new(&mut reg, Some("postgres"));
    let h = builder_insert_into(&mut reg, &h, s("teams")).unwrap();
    let h = builder_columns(&mut reg, &h, strings(&["id", "name"])).unwrap();
    let h = builder_insert_select_handle(&mut reg, &h, &rhs).unwrap();
    let h = builder_returning_columns(&mut reg, &h, strings(&["id"])).unwrap();

    assert_eq!(
        builder_query_typed(&mut reg, &h).unwrap().raw,
        "INSERT INTO teams (id, name) SELECT u.id, u.name FROM users u RETURNING id"
    );
}

#[test]
fn update_returning_aliased_renders() {
    let mut reg = Registry::new();
    let h = builder_new(&mut reg, Some("postgres"));
    let h = builder_update(&mut reg, &h, s("users")).unwrap();
    let h = builder_set(
        &mut reg,
        &h,
        vec![(s("name"), AssignmentInputValue::Sql(SqlValue::Raw(sql::raw(s("UPPER(name)")))))],
    )
    .unwrap();
    let h = builder_where(&mut reg, &h, equals("id", text("u_1"))).unwrap();
    let entries = vec![SelectAliasedEntry { alias: s("userId"), expr: reference(&["id"]), bare: false }];
    let h = builder_returning_aliased(&mut reg, &h, entries).unwrap();

    assert_eq!(
        builder_query_typed(&mut reg, &h).unwrap().raw,
        "UPDATE users SET name = UPPER(name) WHERE id = 'u_1' RETURNING id AS userId"
    );
}

#[test]
fn delete_returning_columns_renders() {
    let mut reg = Registry::new();
    let h = builder_new(&mut reg, Some("postgres"));
    let h = builder_delete_from(&mut reg, &h, s("users")).unwrap();
    let h = builder_where(&mut reg, &h, equals("country", text("NZ"))).unwrap();
    let h = builder_returning_columns(&mut reg, &h, strings(&["id"])).unwrap();

    let query = builder_query_typed(&mut reg, &h).unwrap();
    assert_eq!(query.text, r#"DELETE FROM "users" WHERE "country" = ? RETURNING "id""#);
    assert_eq!(query.values, vec![Primitive::String(s("NZ"))]);
}

#[test]
fn dml_qualified_table_names_render_as_identifier_parts() {
    let mut reg = Registry::new();
    let insert = builder_new(&mut reg, Some("duckdb"));
    let insert = builder_insert_into(&mut reg, &insert, s("platform.reps")).unwrap();
    let insert = builder_values_insert(
        &mut reg,
        &insert,
        strings(&["rep_id"]),
        vec![vec![SqlValue::Primitive(num(1))]],
    )
    .unwrap();
    let update = builder_new(&mut reg, Some("duckdb"));
    let update = builder_update(&mut reg, &update, s("platform.reps")).unwrap();
    let update =
        builder_set(&mut reg, &update, vec![(s("rep_name"), AssignmentInputValue::Sql(text("Ada")))]).unwrap();
    let delete = builder_new(&mut reg, Some("duckdb"));
    let delete = builder_delete_from(&mut reg, &delete, s("platform.reps")).unwrap();

    assert_eq!(builder_query_typed(&mut reg, &insert).unwrap().text, r#"INSERT INTO "platform"."reps" ("rep_id") VALUES (?)"#);
    assert_eq!(builder_query_typed(&mut reg, &update).unwrap().text, r#"UPDATE "platform"."reps" SET "rep_name" = ?"#);
    assert_eq!(builder_query_typed(&mut reg, &delete).unwrap().text, r#"DELETE FROM "platform"."reps""#);
}

fn users_insert(reg: &mut Registry, dialect: &str, columns: &[&str], row: Vec<SqlValue>) -> String {
    let h = builder_new(reg, Some(dialect));
    let h = builder_insert_into(reg, &h, s("users")).unwrap();
    builder_values_insert(reg, &h, strings(columns), vec![row]).unwrap()
}

#[test]
fn unsupported_dialect_rejects_returning_before_sql_emission() {
    let mut reg = Registry::new();
    let h = users_insert(&mut reg, "mysql", &["id"], vec![text("u_1")]);
    let h = builder_returning_columns(&mut reg, &h, strings(&["id"])).unwrap();

    let error = builder_query_typed(&mut reg, &h).unwrap_err();
    assert_eq!(error, r#"Dialect "mysql" does not support RETURNING in this builder."#);
}

#[test]
fn insert_values_on_conflict_columns_do_nothing_renders() {
    let mut reg = Registry::new();
    let h = users_insert(&mut reg, "postgres", &["id", "name"], vec![text("u_1"), text("Ada")]);
    let h = builder_on_conflict_columns(&mut reg, &h, strings(&["id"])).unwrap();
    let h = builder_do_nothing(&mut reg, &h).unwrap();

    assert_eq!(
        builder_query_typed(&mut reg, &h).unwrap().raw,
        "INSERT INTO users (id, name) VALUES ('u_1', 'Ada') ON CONFLICT (id) DO NOTHING"
    );
}

#[test]
fn insert_values_on_conflict_constraint_do_nothing_renders() {
    let mut reg = Registry::new();
    let h = users_insert(&mut reg, "postgres", &["email"], vec![text("ada@example.com")]);
    let h = builder_on_conflict_constraint(&mut reg, &h, s("users_email_key")).unwrap();
    let h = builder_do_nothing(&mut reg, &h).unwrap();

    assert_eq!(
        builder_query_typed(&mut reg, &h).unwrap().text,
        r#"INSERT INTO "users" ("email") VALUES (?) ON CONFLICT ON CONSTRAINT "users_email_key" DO NOTHING"#
    );
}

#[test]
fn insert_select_on_conflict_do_nothing_renders() {
    let mut reg = Registry::new();
    let rhs = users_u(&mut reg, "postgres");
    let rhs = builder_select_columns(&mut reg, &rhs, strings(&["u.id", "u.name"])).unwrap();

    let h = builder_new(&mut reg, Some("postgres"));
    let h = builder_insert_into(&mut reg, &h, s("teams")).unwrap();
    let h = builder_columns(&mut reg, &h, strings(&["id", "name"])).unwrap();
    let h = builder_insert_select_handle(&mut reg, &h, &rhs).unwrap();
    let h = builder_on_conflict_columns(&mut reg, &h, strings(&["id"])).unwrap();
    let h = builder_do_nothing(&mut reg, &h).unwrap();

    assert_eq!(
        builder_query_typed(&mut reg, &h).unwrap().raw,
        "INSERT INTO teams (id, name) SELECT u.id, u.name FROM users u ON CONFLICT (id) DO NOTHING"
    );
}

#[test]
fn mysql_targetless_do_nothing_renders_insert_ignore() {
    let mut reg = Registry::new();
    let h = users_insert(&mut reg, "mysql", &["id"], vec![text("u_1")]);
    let h = builder_do_nothing(&mut reg, &h).unwrap();

    assert_eq!(builder_query_typed(&mut reg, &h).unwrap().raw, "INSERT IGNORE INTO users (id) VALUES ('u_1')");
}

#[test]
fn unsupported_dialect_rejects_do_nothing_before_sql_emission() {
    let mut reg = Registry::new();
    let h = users_insert(&mut reg, "mssql", &["id"], vec![text("u_1")]);
    let h = builder_do_nothing(&mut reg, &h).unwrap();

    let error = builder_query_typed(&mut reg, &h).unwrap_err();
    assert_eq!(error, r#"Dialect "mssql" does not support DO NOTHING insert conflict handling."#);
}

#[test]
fn mysql_rejects_explicit_conflict_target_for_do_nothing() {
    let mut reg = Registry::new();
    let h = users_insert(&mut reg, "mysql", &["id"], vec![text("u_1")]);
    let h = builder_on_conflict_columns(&mut reg, &h, strings(&["id"])).unwrap();
    let h = builder_do_nothing(&mut reg, &h).unwrap();

    let error = builder_query_typed(&mut reg, &h).unwrap_err();
    assert_eq!(error, r#"Dialect "mysql" does not support explicit conflict targets for DO NOTHING inserts."#);
}

#[test]
fn insert_conflict_target_requires_action() {
    let mut reg = Registry::new();
    let h = users_insert(&mut reg, "postgres", &["id"], vec![text("u_1")]);
    let h = builder_on_conflict_columns(&mut reg, &h, strings(&["id"])).unwrap();

    let error = builder_query_typed(&mut reg, &h).unwrap_err();
    assert_eq!(error, "Insert conflict target requires an action.");
}

#[test]
fn insert_conflict_rejects_mixed_target_kinds() {
    let mut reg = Registry::new();
    let h = users_insert(&mut reg, "postgres", &["id"], vec![text("u_1")]);
    let h = builder_on_conflict_columns(&mut reg, &h, strings(&["id"])).unwrap();

    let error = builder_on_conflict_constraint(&mut reg, &h, s("users_email_key")).unwrap_err();
    assert_eq!(error, "Insert conflict target cannot mix columns and constraint targets.");
}

fn excluded(column: &str) -> AssignmentInputValue {
    AssignmentInputValue::Node(ExprNode::Excluded { column: s(column) })
}

#[test]
fn insert_values_on_conflict_do_update_renders() {
    let mut reg = Registry::new();
    let h = users_insert(&mut reg, "postgres", &["id", "name"], vec![text("u_1"), text("Ada")]);
    let h = builder_on_conflict_columns(&mut reg, &h, strings(&["id"])).unwrap();
    let h = builder_do_update_set(&mut reg, &h, vec![(s("name"), excluded("name"))]).unwrap();

    assert_eq!(
        builder_query_typed(&mut reg, &h).unwrap().raw,
        "INSERT INTO users (id, name) VALUES ('u_1', 'Ada') ON CONFLICT (id) DO UPDATE SET name = excluded.name"
    );
}

#[test]
fn insert_conflict_do_update_where_renders() {
    let mut reg = Registry::new();
    let h = users_insert(&mut reg, "postgres", &["id", "country"], vec![text("u_1"), text("AU")]);
    let h = builder_on_conflict_columns(&mut reg, &h, strings(&["id"])).unwrap();
    let h = builder_do_update_set(&mut reg, &h, vec![(s("country"), excluded("country"))]).unwrap();
    let predicate = Predicate::Node(ExprNode::Cmp {
        left: Box::new(reference(&["users", "country"])),
        op: s("<>"),
        right: Box::new(ExprNode::Excluded { column: s("country") }),
    });
    let h = builder_conflict_where(&mut reg, &h, predicate).unwrap();

    assert_eq!(
        builder_query_typed(&mut reg, &h).unwrap().raw,
        "INSERT INTO users (id, country) VALUES ('u_1', 'AU') ON CONFLICT (id) DO UPDATE SET country = excluded.country WHERE users.country <> excluded.country"
    );
}

#[test]
fn mysql_conflict_update_renders_on_duplicate_key() {
    let mut reg = Registry::new();
    let h = users_insert(&mut reg, "mysql", &["id", "name"], vec![text("u_1"), text("Ada")]);
    let h = builder_do_update_set(&mut reg, &h, vec![(s("name"), excluded("name"))]).unwrap();

    assert_eq!(
        builder_query_typed(&mut reg, &h).unwrap().raw,
        "INSERT INTO users (id, name) VALUES ('u_1', 'Ada') ON DUPLICATE KEY UPDATE name = VALUES(name)"
    );
}

#[test]
fn mysql_rejects_conflict_target_for_do_update() {
    let mut reg = Registry::new();
    let h = users_insert(&mut reg, "mysql", &["id"], vec![text("u_1")]);
    let h = builder_on_conflict_columns(&mut reg, &h, strings(&["id"])).unwrap();
    let h = builder_do_update_set(&mut reg, &h, vec![(s("id"), excluded("id"))]).unwrap();

    let error = builder_query_typed(&mut reg, &h).unwrap_err();
    assert_eq!(error, r#"Dialect "mysql" does not support explicit conflict targets for DO UPDATE inserts."#);
}

fn ordered(reg: &mut Registry, dialect: &str, table: &str, alias: &str, col: &str, direction: &str, nulls: Option<&str>) -> Result<String, String> {
    let h = builder_new(reg, Some(dialect));
    let ops = vec![
        fta(table, alias),
        sc(&[col]),
        BuilderOp::OrderBy { col: s(col), direction: Some(s(direction)), null_order: nulls.map(s) },
    ];
    builder_apply_ops(reg, &h, ops)
}

#[test]
fn order_by_nulls_first_renders_for_postgres() {
    let mut reg = Registry::new();
    let h = ordered(&mut reg, "postgres", "users", "u", "u.id", "ASC", Some("FIRST")).unwrap();
    assert_eq!(builder_query_typed(&mut reg, &h).unwrap().raw, "SELECT u.id FROM users u ORDER BY u.id ASC NULLS FIRST");
}

#[test]
fn order_by_nulls_last_renders_for_duckdb() {
    let mut reg = Registry::new();
    let h = ordered(&mut reg, "duckdb", "events", "e", "e.ts", "DESC", Some("LAST")).unwrap();
    assert_eq!(builder_query_typed(&mut reg, &h).unwrap().raw, "SELECT e.ts FROM events e ORDER BY e.ts DESC NULLS LAST");
}

#[test]
fn order_by_direction_only_unaffected_for_mysql() {
    let mut reg = Registry::new();
    let h = ordered(&mut reg, "mysql", "users", "u", "u.id", "ASC", None).unwrap();
    assert_eq!(builder_query_typed(&mut reg, &h).unwrap().raw, "SELECT u.id FROM users u ORDER BY u.id ASC");
}

#[test]
fn order_by_nulls_rejected_for_mysql() {
    let mut reg = Registry::new();
    let error = ordered(&mut reg, "mysql", "users", "u", "u.id", "ASC", Some("FIRST")).unwrap_err();
    assert_eq!(error, r#"Dialect "mysql" does not support NULLS FIRST/LAST in ORDER BY."#);
}

fn join_users(reg: &mut Registry, dialect: &str, join_type: &str) -> String {
    let h = users_u(reg, dialect);
    builder_join_table_alias(reg, &h, s(join_type), s("orders"), s("o")).unwrap()
}

fn user_order_pred() -> Predicate {
    Predicate::Query(SqlQuery { text: s("? = ?"), raw: s("u.id = o.user_id"), values: vec![] })
}

fn select_ids(reg: &mut Registry, h: &str) -> String {
    builder_select_columns(reg, h, strings(&["u.id"])).unwrap()
}

#[test]
fn cross_join_commits_without_predicate() {
    let mut reg = Registry::new();
    let h = users_u(&mut reg, "postgres");
    let h = builder_join_table(&mut reg, &h, s("CROSS JOIN"), s("tags")).unwrap();
    let h = select_ids(&mut reg, &h);

    let query = builder_query_typed(&mut reg, &h).unwrap();
    assert!(query.raw.contains("CROSS JOIN tags"), "got: {}", query.raw);
}

#[test]
fn inner_join_with_on_renders_for_postgres() {
    let mut reg = Registry::new();
    let h = join_users(&mut reg, "postgres", "INNER JOIN");
    let h = builder_on(&mut reg, &h, user_order_pred()).unwrap();
    let h = select_ids(&mut reg, &h);

    let query = builder_query_typed(&mut reg, &h).unwrap();
    assert!(query.raw.contains("INNER JOIN orders o ON"), "got: {}", query.raw);
}

#[test]
fn left_join_with_using_renders_for_postgres() {
    let mut reg = Registry::new();
    let h = join_users(&mut reg, "postgres", "LEFT JOIN");
    let h = builder_using_columns(&mut reg, &h, strings(&["user_id"])).unwrap();
    let h = select_ids(&mut reg, &h);

    let query = builder_query_typed(&mut reg, &h).unwrap();
    assert!(query.raw.contains("LEFT JOIN orders o USING (user_id)"), "got: {}", query.raw);
}

#[test]
fn right_join_accepted_for_mysql() {
    let mut reg = Registry::new();
    let h = join_users(&mut reg, "mysql", "RIGHT JOIN");
    let h = builder_on(&mut reg, &h, user_order_pred()).unwrap();
    let h = select_ids(&mut reg, &h);

    let query = builder_query_typed(&mut reg, &h).unwrap();
    assert!(query.raw.contains("RIGHT JOIN orders o ON"), "got: {}", query.raw);
}

#[test]
fn right_join_rejected_for_sqlite() {
    let mut reg = Registry::new();
    let h = join_users(&mut reg, "sqlite", "RIGHT JOIN");
    let h = builder_on(&mut reg, &h, user_order_pred()).unwrap();
    let h = select_ids(&mut reg, &h);

    let err = builder_query_typed(&mut reg, &h).unwrap_err();
    assert!(err.contains("RIGHT JOIN") && err.contains("sqlite"), "got: {err}");
}

#[test]
fn full_outer_join_accepted_for_postgres() {
    let mut reg = Registry::new();
    let h = join_users(&mut reg, "postgres", "FULL OUTER JOIN");
    let h = builder_on(&mut reg, &h, user_order_pred()).unwrap();
    let h = select_ids(&mut reg, &h);

    let query = builder_query_typed(&mut reg, &h).unwrap();
    assert!(query.raw.contains("FULL OUTER JOIN orders o ON"), "got: {}", query.raw);
}

#[test]
fn full_outer_join_rejected_for_mysql() {
    let mut reg = Registry::new();
    let h = join_users(&mut reg, "mysql", "FULL OUTER JOIN");
    let h = builder_on(&mut reg, &h, user_order_pred()).unwrap();
    let h = select_ids(&mut reg, &h);

    let err = builder_query_typed(&mut reg, &h).unwrap_err();
    assert!(err.contains("FULL OUTER JOIN") && err.contains("mysql"), "got: {err}");
}

#[test]
fn using_syntax_rejected_for_mssql() {
    let mut reg = Registry::new();
    let h = join_users(&mut reg, "mssql", "INNER JOIN");
    let h = builder_using_columns(&mut reg, &h, strings(&["user_id"])).unwrap();
    let h = select_ids(&mut reg, &h);

    let err = builder_query_typed(&mut reg, &h).unwrap_err();
    assert!(err.contains("USING") && err.contains("mssql"), "got: {err}");
}

#[test]
fn using_syntax_accepted_for_postgres() {
    let mut reg = Registry::new();
    let h = join_users(&mut reg, "postgres", "INNER JOIN");
    let h = builder_using_columns(&mut reg, &h, strings(&["user_id"])).unwrap();
    let h = select_ids(&mut reg, &h);

    let query = builder_query_typed(&mut reg, &h).unwrap();
    assert!(query.raw.contains("USING (user_id)"), "got: {}", query.raw);
}

#[test]
fn join_without_predicate_fails_at_render() {
    let mut reg = Registry::new();
    let h = join_users(&mut reg, "postgres", "INNER JOIN");
    let h = select_ids(&mut reg, &h);

    let err = builder_query_typed(&mut reg, &h).unwrap_err();
    assert!(err.contains("Join predicate is required"), "got: {err}");
}

#[test]
fn join_aliases_left_outer_join_keyword() {
    let mut reg = Registry::new();
    let h = join_users(&mut reg, "postgres", "LEFT OUTER JOIN");
    let h = builder_on(&mut reg, &h, user_order_pred()).unwrap();
    let h = select_ids(&mut reg, &h);

    let query = builder_query_typed(&mut reg, &h).unwrap();
    assert!(query.raw.contains("LEFT JOIN orders o ON"), "got: {}", query.raw);
}

#[test]
fn on_columns_renders_inner_join_predicate() {
    let mut reg = Registry::new();
    let h = join_users(&mut reg, "postgres", "INNER JOIN");
    let h = builder_on_columns(&mut reg, &h, vec![(s("u.id"), s("o.user_id"))]).unwrap();
    let h = select_ids(&mut reg, &h);

    let query = builder_query_typed(&mut reg, &h).unwrap();
    assert!(query.raw.contains("INNER JOIN orders o ON"), "got: {}", query.raw);
}

#[test]
fn order_by_nulls_rejected_for_mssql() {
    let mut reg = Registry::new();
    let error = ordered(&mut reg, "mssql", "users", "u", "u.id", "DESC", Some("LAST")).unwrap_err();
    assert_eq!(error, r#"Dialect "mssql" does not support NULLS FIRST/LAST in ORDER BY."#);
}

fn window_count_expr() -> SqlQuery {
    SqlQuery { text: s("COUNT(*)"), raw: s("COUNT(*)"), values: vec![] }
}

fn score_desc(nulls: Option<&str>) -> Vec<WindowOrderItem> {
    vec![WindowOrderItem {
        expression: SqlQuery { text: s("score"), raw: s("score"), values: vec![] },
        direction: Some(s("DESC")),
        nulls: nulls.map(s),
    }]
}

#[test]
fn window_order_by_nulls_first_renders_for_postgres() {
    let result = over_clause(window_count_expr(), vec![], score_desc(Some("FIRST")), &Dialect::Postgres).unwrap();

    assert!(result.raw.contains("NULLS FIRST"), "expected NULLS FIRST in: {}", result.raw);
    assert_eq!(result.raw, "COUNT(*) OVER (ORDER BY score DESC NULLS FIRST)");
}

#[test]
fn window_order_by_nulls_rejected_for_mssql() {
    let error = over_clause(window_count_expr(), vec![], score_desc(Some("LAST")), &Dialect::Mssql).unwrap_err();
    assert_eq!(error, r#"Dialect "mssql" does not support NULLS FIRST/LAST in ORDER BY."#);
}

#[test]
fn window_order_by_direction_only_unaffected_for_mssql() {
    let result = over_clause(window_count_expr(), vec![], score_desc(None), &Dialect::Mssql).unwrap();
    assert_eq!(result.raw, "COUNT(*) OVER (ORDER BY score DESC)");
}

#[test]
fn returning_on_mysql_is_hard_error() {
    let mut reg = Registry::new();
    let h = users_insert(&mut reg, "mysql", &["name"], vec![text("Alice")]);
    let h = builder_returning_columns(&mut reg, &h, strings(&["id"])).unwrap();

    let err = builder_query_typed(&mut reg, &h).unwrap_err();
    assert!(err.contains("RETURNING"), "error should mention RETURNING, got: {err}");
    assert!(err.contains("mysql"), "error should mention the dialect, got: {err}");
}

#[test]
fn returning_on_postgres_still_renders() {
    let mut reg = Registry::new();
    let h = users_insert(&mut reg, "postgres", &["name"], vec![text("Alice")]);
    let h = builder_returning_columns(&mut reg, &h, strings(&["id"])).unwrap();

    let query = builder_query_typed(&mut reg, &h).unwrap();
    assert!(query.raw.contains("RETURNING id"), "expected RETURNING in: {}", query.raw);
}

fn ilike_email(reg: &mut Registry, dialect: &str) -> String {
    let h = users_u(reg, dialect);
    let h = select_ids(reg, &h);
    let ilike = ExprNode::Ilike {
        value: Box::new(reference(&["u", "email"])),
        pattern: Box::new(ExprNode::Val { value: Primitive::String(s("%@example.com")) }),
    };
    builder_where(reg, &h, Predicate::Node(ilike)).unwrap()
}

#[test]
fn ilike_on_postgres_renders_natively() {
    let mut reg = Registry::new();
    let h = ilike_email(&mut reg, "postgres");

    let mut parts = registry_get_parts(&reg, &h).unwrap();
    let result = build_query_with_context(&mut parts).unwrap();
    assert!(result.query.raw.contains("ILIKE"), "expected native ILIKE on postgres, got: {}", result.query.raw);
    assert!(result.warnings.is_empty(), "expected no warnings on postgres");
}

#[test]
fn ilike_on_mysql_rewrites_to_lower_like_lower_with_warning() {
    let mut reg = Registry::new();
    let h = ilike_email(&mut reg, "mysql");

    let mut parts = registry_get_parts(&reg, &h).unwrap();
    let result = build_query_with_context(&mut parts).unwrap();
    assert!(
        result.query.raw.contains("LOWER") && result.query.raw.contains("LIKE"),
        "expected LOWER(...) LIKE rewrite on mysql, got: {}",
        result.query.raw
    );
    assert!(!result.query.raw.contains("ILIKE"), "ILIKE must not appear in rewritten output");
    assert_eq!(result.warnings.len(), 1, "expected exactly one warning");
    let w = &result.warnings[0];
    assert_eq!(w.feature, "ILIKE");
    assert_eq!(w.dialect, "mysql");
}

#[test]
fn dialect_strict_promotes_ilike_rewrite_to_error() {
    let mut reg = Registry::new();
    let h = ilike_email(&mut reg, "mysql");
    let h = builder_dialect_strict(&mut reg, &h, true).unwrap();

    let err = builder_query_typed(&mut reg, &h).unwrap_err();
    assert!(err.contains("ILIKE") && err.contains("mysql"), "expected strict error mentioning ILIKE and mysql, got: {err}");
}

#[test]
fn render_result_has_empty_warnings_on_clean_query() {
    let mut reg = Registry::new();
    let h = users_u(&mut reg, "postgres");
    let h = select_ids(&mut reg, &h);

    let mut parts = registry_get_parts(&reg, &h).unwrap();
    let result = build_query_with_context(&mut parts).unwrap();
    assert!(result.warnings.is_empty());
}

#[test]
fn postgres_backend_reports_returning_support() {
    let backend = backend_for_dialect_name("postgres");
    assert!(backend.capabilities().returning, "Postgres backend must report RETURNING support");
}

#[test]
fn unknown_backend_reports_no_returning_support() {
    let backend = backend_for_dialect_name("cassandra");
    assert!(!backend.capabilities().returning, "Unknown/cassandra backend must not claim RETURNING support");
}

#[test]
fn mysql_backend_uses_mysql_conflict_style() {
    let backend = backend_for_dialect_name("mysql");
    assert_eq!(
        backend.capabilities().insert_conflict,
        InsertConflictStyle::MySql,
        "MySQL backend must report MySql insert conflict style"
    );
}

#[test]
fn mysql_backend_reports_no_returning_support() {
    let backend = backend_for_dialect_name("mysql");
    assert!(!backend.capabilities().returning, "MySQL backend must not claim RETURNING support");
}

#[test]
fn sqlite_backend_reports_no_right_join_support() {
    let backend = backend_for_dialect_name("sqlite");
    assert!(!backend.capabilities().joins.right_join, "SQLite backend must not claim RIGHT JOIN support");
}

#[test]
fn sqlite_backend_reports_returning_support() {
    let backend = backend_for_dialect_name("sqlite");
    assert!(backend.capabilities().returning, "SQLite backend must report RETURNING support");
}

fn two_params(text: &str, raw: &str, a: u64, b: u64) -> SqlQuery {
    SqlQuery { text: s(text), raw: s(raw), values: vec![num(a), num(b)] }
}

#[test]
fn postgres_backend_compiles_dollar_numbered_placeholders() {
    let backend = backend_for_dialect_name("postgres");
    let compiled = backend.compile_placeholders(two_params("a = ? AND b = ?", "a = 1 AND b = 2", 1, 2)).unwrap();
    assert_eq!(compiled.text, "a = $1 AND b = $2");
    assert_eq!(compiled.raw, "a = 1 AND b = 2");
}

#[test]
fn duckdb_backend_compiles_dollar_numbered_placeholders() {
    let backend = backend_for_dialect_name("duckdb");
    let compiled = backend.compile_placeholders(two_params("LIMIT ? OFFSET ?", "LIMIT 5 OFFSET 10", 5, 10)).unwrap();
    assert_eq!(compiled.text, "LIMIT $1 OFFSET $2");
}

#[test]
fn mysql_backend_keeps_question_mark_placeholders() {
    let backend = backend_for_dialect_name("mysql");
    let compiled = backend.compile_placeholders(two_params("a = ? AND b = ?", "a = 1 AND b = 2", 1, 2)).unwrap();
    assert_eq!(compiled.text, "a = ? AND b = ?");
}

#[test]
fn mssql_backend_compiles_at_p_named_placeholders() {
    let backend = backend_for_dialect_name("mssql");
    let compiled = backend.compile_placeholders(two_params("a = ? AND b = ?", "a = 1 AND b = 2", 1, 2)).unwrap();
    assert_eq!(compiled.text, "a = @p1 AND b = @p2");
}

#[test]
fn unknown_backend_rejects_placeholder_compilation() {
    let backend = backend_for_dialect_name("mongodb");
    let query = SqlQuery { text: s("a = ?"), raw: s("a = 1"), values: vec![num(1)] };
    let error = backend.compile_placeholders(query).unwrap_err();
    assert_eq!(error, "Dialect \"mongodb\" does not support SQL placeholder compilation in this builder.");
}

fn cache_query(label: &str) -> SqlQuery {
    SqlQuery { text: s(label), raw: s(label), values: vec![] }
}

#[test]
fn lru_structural_cache_respects_max_size() {
    let mut reg = Registry::new();
    reg.set_structural_cache_capacity(2);
    reg.registry_set_structural_cached(1, cache_query("a"));
    reg.registry_set_structural_cached(2, cache_query("b"));
    reg.registry_set_structural_cached(3, cache_query("c"));

    assert_eq!(reg.structural_cache_len(), 2);
    assert!(reg.registry_try_get_structural_cached(1).is_none());
    assert!(reg.registry_try_get_structural_cached(2).is_some());
    assert!(reg.registry_try_get_structural_cached(3).is_some());
}

#[test]
fn lru_structural_cache_evicts_least_recently_used_entry() {
    let mut reg = Registry::new();
    reg.set_structural_cache_capacity(2);
    reg.registry_set_structural_cached(1, cache_query("hot"));
    reg.registry_set_structural_cached(2, cache_query("cold"));
    assert!(reg.registry_try_get_structural_cached(1).is_some());
    reg.registry_set_structural_cached(3, cache_query("new"));

    assert!(reg.registry_try_get_structural_cached(2).is_none());
    assert!(reg.registry_try_get_structural_cached(1).is_some());
    assert!(reg.registry_try_get_structural_cached(3).is_some());
    assert_eq!(reg.structural_cache_len(), 2);
}

#[test]
fn lru_structural_cache_keeps_frequently_used_queries_cached() {
    let mut reg = Registry::new();
    reg.set_structural_cache_capacity(2);
    reg.registry_set_structural_cached(1, cache_query("hot"));
    reg.registry_set_structural_cached(2, cache_query("cold"));
    assert!(reg.registry_try_get_structural_cached(1).is_some());
    assert!(reg.registry_try_get_structural_cached(1).is_some());
    reg.registry_set_structural_cached(3, cache_query("new"));

    assert!(reg.registry_try_get_structural_cached(1).is_some());
    assert!(reg.registry_try_get_structural_cached(2).is_none());
    assert!(reg.registry_try_get_structural_cached(3).is_some());
    assert_eq!(reg.structural_cache_len(), 2);
}

fn numbered_op(i: u8) -> BuilderOp {
    match i {
        0 => fta("users", "u"),
        1 => sc(&["u.id", "u.name"]),
        2 => BuilderOp::OrderBy { col: s("u.name"), direction: Some(s("ASC")), null_order: None },
        _ => BuilderOp::Limit { count: 5 },
    }
}

#[test]
fn batch_apply_ops_bin_matches_json_apply_semantics() {
    let mut reg = Registry::new();
    let handle_ops = builder_new(&mut reg, Some("postgres"));
    let handle_bin = builder_new(&mut reg, Some("postgres"));

    let after_ops = builder_apply_ops(&mut reg, &handle_ops, (0..4).map(numbered_op).collect()).unwrap();
    let mut payload = vec![1u8];
    payload.extend_from_slice(&4u32.to_le_bytes());
    for i in 0..4u8 {
        payload.push(0);
        payload.extend_from_slice(&1u32.to_le_bytes());
        payload.push(i);
    }
    let after_bin = builder_apply_ops_bin(&mut reg, &handle_bin, payload, |frame: &Vec<u8>| -> Result<BuilderOp, String> {
        Ok(numbered_op(frame[0]))
    })
    .unwrap();

    let ops_query = builder_query_typed(&mut reg, &after_ops).unwrap();
    let bin_query = builder_query_typed(&mut reg, &after_bin).unwrap();
    assert_eq!(ops_query.text, bin_query.text);
    assert_eq!(ops_query.raw, bin_query.raw);
    assert_eq!(ops_query.values, bin_query.values);
}

#[test]
fn strict_context_build_reports_the_first_warning_as_a_hard_error() {
    let mut reg = Registry::new();
    let h = ilike_email(&mut reg, "mysql");
    let h = builder_dialect_strict(&mut reg, &h, true).unwrap();

    let mut parts = registry_get_parts(&reg, &h).unwrap();
    match build_query_with_context(&mut parts) {
        Err(plec_query_core::error::QueryError::HardError { feature, dialect, .. }) => {
            assert_eq!(feature, "ILIKE");
            assert_eq!(dialect, "mysql");
        }
        _ => panic!("expected a hard error in strict mode"),
    }
}
