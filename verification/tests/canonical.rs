use plec_query_core::builder::api::{
    builder_delete_from, builder_from_table_alias, builder_insert_into, builder_join_table_alias, builder_new,
    builder_on, builder_select_columns, builder_set, builder_update, builder_values_insert, builder_where,
};
use plec_query_core::builder::canonical::{
    builder_canonical_ir_hash, builder_canonical_ir_json, canonical_fingerprint_for_parts,
    canonical_ir_hash_for_parts, canonical_ir_json_for_parts, digest_hex, digest_prefix_u64,
};
use plec_query_core::builder::methods::{AssignmentInputValue, Predicate};
use plec_query_core::builder::output::{builder_query_typed, registry_get_parts};
use plec_query_core::builder::registry::Registry;
use plec_query_core::expr_node::ExprNode;
use plec_query_core::types::{DateWire, JsonNumber, Primitive, SqlQuery, SqlValue};

fn s(x: &str) -> String {
    x.to_string()
}

fn strings(xs: &[&str]) -> Vec<String> {
    xs.iter().map(|x| x.to_string()).collect()
}

fn pred(text: &str, raw: &str, values: Vec<Primitive>) -> Predicate {
    Predicate::Query(SqlQuery { text: s(text), raw: s(raw), values })
}

fn users_ids(reg: &mut Registry, dialect: &str, columns: &[&str]) -> String {
    let h = builder_new(reg, Some(dialect));
    let h = builder_from_table_alias(reg, &h, s("users"), s("u")).unwrap();
    builder_select_columns(reg, &h, strings(columns)).unwrap()
}

fn text_value(v: &str) -> AssignmentInputValue {
    AssignmentInputValue::Sql(SqlValue::Primitive(Primitive::String(s(v))))
}

fn ir(reg: &Registry, handle: &str) -> String {
    canonical_ir_json_for_parts(&registry_get_parts(reg, handle).unwrap()).unwrap()
}

#[test]
fn canonical_ir_is_identical_for_equivalent_queries_built_from_independent_handles() {
    let mut reg = Registry::new();
    let first = users_ids(&mut reg, "postgres", &["u.id", "u.country"]);
    let first = builder_where(&mut reg, &first, pred("? = ?", "u.country = 'AU'", vec![])).unwrap();
    let second = users_ids(&mut reg, "postgres", &["u.id", "u.country"]);
    let second = builder_where(&mut reg, &second, pred("? = ?", "u.country = 'AU'", vec![])).unwrap();

    assert_eq!(ir(&reg, &first), ir(&reg, &second));
}

#[test]
fn canonical_ir_normalizes_update_assignments_by_column_name() {
    let mut reg = Registry::new();
    let first = builder_new(&mut reg, Some("postgres"));
    let first = builder_update(&mut reg, &first, s("users")).unwrap();
    let first =
        builder_set(&mut reg, &first, vec![(s("name"), text_value("Ada")), (s("country"), text_value("AU"))]).unwrap();

    let second = builder_new(&mut reg, Some("postgres"));
    let second = builder_update(&mut reg, &second, s("users")).unwrap();
    let second =
        builder_set(&mut reg, &second, vec![(s("country"), text_value("AU")), (s("name"), text_value("Ada"))]).unwrap();

    assert_eq!(ir(&reg, &first), ir(&reg, &second));
}

#[test]
fn canonical_ir_changes_when_query_semantics_change() {
    let mut reg = Registry::new();
    let first = users_ids(&mut reg, "postgres", &["u.id"]);
    let first = builder_where(&mut reg, &first, pred("? = ?", "u.country = 'AU'", vec![])).unwrap();
    let second = users_ids(&mut reg, "postgres", &["u.id"]);
    let second = builder_where(&mut reg, &second, pred("? <> ?", "u.country <> 'NZ'", vec![])).unwrap();

    assert_ne!(ir(&reg, &first), ir(&reg, &second));
}

#[test]
fn canonical_ir_is_unchanged_before_and_after_render_cache_population() {
    let mut reg = Registry::new();
    let handle = users_ids(&mut reg, "postgres", &["u.id"]);

    let before = ir(&reg, &handle);
    let _ = builder_query_typed(&mut reg, &handle).unwrap();
    let after = ir(&reg, &handle);

    assert_eq!(before, after);
}

#[test]
fn canonical_ir_serialization_is_deterministic_for_same_parts() {
    let mut reg = Registry::new();
    let handle = users_ids(&mut reg, "postgres", &["u.id"]);

    let parts = registry_get_parts(&reg, &handle).unwrap();
    let first = canonical_ir_json_for_parts(&parts).unwrap();
    let second = canonical_ir_json_for_parts(&parts).unwrap();

    assert_eq!(first, second);
}

#[test]
fn canonical_ir_preserves_parameter_structure_and_order() {
    let mut reg = Registry::new();
    let first = users_ids(&mut reg, "postgres", &["u.id"]);
    let first = builder_where(
        &mut reg,
        &first,
        pred(
            "? = ?",
            "u.created_at = '2024-01-01T00:00:00.000Z'",
            vec![Primitive::Date(DateWire::new(s("2024-01-01T00:00:00.000Z")))],
        ),
    )
    .unwrap();
    let second = users_ids(&mut reg, "postgres", &["u.id"]);
    let second = builder_where(
        &mut reg,
        &second,
        pred(
            "? = ?",
            "u.created_at = '2024-01-02T00:00:00.000Z'",
            vec![Primitive::Date(DateWire::new(s("2024-01-02T00:00:00.000Z")))],
        ),
    )
    .unwrap();

    let first_ir = ir(&reg, &first);
    let second_ir = ir(&reg, &second);
    assert!(first_ir.contains(r#""value_count":1"#));
    assert!(second_ir.contains(r#""value_count":1"#));
    assert_eq!(first_ir, second_ir);
}

#[test]
fn canonical_hash_same_ir_same_hash() {
    let mut reg = Registry::new();
    let first = users_ids(&mut reg, "postgres", &["u.id"]);
    let second = users_ids(&mut reg, "postgres", &["u.id"]);

    assert_eq!(builder_canonical_ir_hash(&reg, &first).unwrap(), builder_canonical_ir_hash(&reg, &second).unwrap());
}

fn age_over(reg: &mut Registry, n: u64) -> String {
    let h = users_ids(reg, "postgres", &["u.id"]);
    builder_where(
        reg,
        &h,
        pred("\"u\".\"age\" > ?", &format!("u.age > {n}"), vec![Primitive::Number(JsonNumber::PosInt(n))]),
    )
    .unwrap()
}

#[test]
fn canonical_hash_ignores_bound_values_for_same_query_shape() {
    let mut reg = Registry::new();
    let first = age_over(&mut reg, 18);
    let second = age_over(&mut reg, 21);

    assert_eq!(builder_canonical_ir_hash(&reg, &first).unwrap(), builder_canonical_ir_hash(&reg, &second).unwrap());
}

#[test]
fn canonical_fingerprint_ignores_bound_values_for_same_query_shape() {
    let mut reg = Registry::new();
    let first = age_over(&mut reg, 18);
    let second = age_over(&mut reg, 21);

    let first_fingerprint = canonical_fingerprint_for_parts(&registry_get_parts(&reg, &first).unwrap()).unwrap();
    let second_fingerprint = canonical_fingerprint_for_parts(&registry_get_parts(&reg, &second).unwrap()).unwrap();
    assert_eq!(first_fingerprint, second_fingerprint);
}

#[test]
fn canonical_hash_different_ir_different_hash() {
    let mut reg = Registry::new();
    let first = users_ids(&mut reg, "postgres", &["u.id"]);
    let second = users_ids(&mut reg, "mysql", &["u.id"]);

    assert_ne!(builder_canonical_ir_hash(&reg, &first).unwrap(), builder_canonical_ir_hash(&reg, &second).unwrap());
}

#[test]
fn canonical_hash_stable_across_repeated_calls() {
    let mut reg = Registry::new();
    let handle = users_ids(&mut reg, "postgres", &["u.id"]);

    assert_eq!(builder_canonical_ir_hash(&reg, &handle).unwrap(), builder_canonical_ir_hash(&reg, &handle).unwrap());
}

#[test]
fn canonical_hash_ignores_transient_render_cache() {
    let mut reg = Registry::new();
    let handle = users_ids(&mut reg, "postgres", &["u.id"]);

    let before = builder_canonical_ir_hash(&reg, &handle).unwrap();
    let _ = builder_query_typed(&mut reg, &handle).unwrap();
    let after = builder_canonical_ir_hash(&reg, &handle).unwrap();
    assert_eq!(before, after);
}

#[test]
fn canonical_hash_no_collisions_in_test_corpus() {
    let mut reg = Registry::new();
    let mut handles: Vec<String> = Vec::new();

    handles.push(users_ids(&mut reg, "postgres", &["u.id"]));

    let select_predicate = users_ids(&mut reg, "postgres", &["u.id"]);
    handles.push(builder_where(&mut reg, &select_predicate, pred("? = ?", "u.country = 'AU'", vec![])).unwrap());

    let select_join = {
        let h = builder_new(&mut reg, Some("postgres"));
        let h = builder_from_table_alias(&mut reg, &h, s("users"), s("u")).unwrap();
        let h = builder_join_table_alias(&mut reg, &h, s("INNER JOIN"), s("teams"), s("t")).unwrap();
        let h = builder_on(&mut reg, &h, pred("? = ?", "u.country = t.country", vec![])).unwrap();
        builder_select_columns(&mut reg, &h, strings(&["u.id"])).unwrap()
    };
    handles.push(select_join);

    let insert_values = {
        let h = builder_new(&mut reg, Some("postgres"));
        let h = builder_insert_into(&mut reg, &h, s("users")).unwrap();
        builder_values_insert(
            &mut reg,
            &h,
            strings(&["id", "name"]),
            vec![vec![
                SqlValue::Primitive(Primitive::String(s("u_1"))),
                SqlValue::Primitive(Primitive::String(s("Ada"))),
            ]],
        )
        .unwrap()
    };
    handles.push(insert_values);

    let update_set = {
        let h = builder_new(&mut reg, Some("postgres"));
        let h = builder_update(&mut reg, &h, s("users")).unwrap();
        builder_set(&mut reg, &h, vec![(s("country"), text_value("NZ"))]).unwrap()
    };
    handles.push(update_set);

    let delete_where = {
        let h = builder_new(&mut reg, Some("postgres"));
        let h = builder_delete_from(&mut reg, &h, s("users")).unwrap();
        builder_where(&mut reg, &h, pred("? = ?", "country = 'NZ'", vec![])).unwrap()
    };
    handles.push(delete_where);

    handles.push(users_ids(&mut reg, "mysql", &["u.id"]));

    let mut seen = std::collections::HashSet::new();
    for handle in handles {
        let hash = builder_canonical_ir_hash(&reg, &handle).unwrap();
        assert!(seen.insert(hash.clone()), "collision detected for hash: {}", hash);
    }
}

#[test]
fn fresh_builder_has_empty_canonical_form() {
    let mut reg = Registry::new();
    let h = builder_new(&mut reg, Some("postgres"));
    assert_eq!(
        builder_canonical_ir_json(&reg, &h).unwrap(),
        [
            r#"{"dialect":"postgres","statement":null,"ctes":[],"distinct":null,"select":null,"#,
            r#""selected_columns":[],"from":null,"joins":[],"where_clauses":[],"group_by":[],"#,
            r#""having_clauses":[],"order_by":[],"pagination":{"limit":null,"offset":null},"#,
            r#""lock":null,"returning":null,"compounds":[],"#,
            r#""insert":{"into":null,"column_names":[],"rows":[],"select":null,"#,
            r#""conflict":{"target":null,"action":null}},"update":{"table":null,"assignments":[]},"#,
            r#""delete_from_table":null,"dialect_strict":false}"#,
        ]
        .concat()
    );
}

#[test]
fn update_assignments_appear_sorted_by_column() {
    let mut reg = Registry::new();
    let h = builder_new(&mut reg, Some("postgres"));
    let h = builder_update(&mut reg, &h, s("users")).unwrap();
    let h = builder_set(&mut reg, &h, vec![(s("name"), text_value("Ada")), (s("Zone"), text_value("x")), (s("age"), text_value("3"))])
        .unwrap();
    let text = builder_canonical_ir_json(&reg, &h).unwrap();
    let expected = [
        r#""update":{"table":"users","assignments":["#,
        r#"{"column":"Zone","value":{"kind":"primitive","primitive":"string"}},"#,
        r#"{"column":"age","value":{"kind":"primitive","primitive":"string"}},"#,
        r#"{"column":"name","value":{"kind":"primitive","primitive":"string"}}]}"#,
    ]
    .concat();
    assert!(text.contains(&expected), "got: {text}");
}

#[test]
fn expression_assignments_appear_as_their_fragments() {
    let mut reg = Registry::new();
    let h = builder_new(&mut reg, Some("postgres"));
    let h = builder_update(&mut reg, &h, s("users")).unwrap();
    let h = builder_set(
        &mut reg,
        &h,
        vec![(s("n"), AssignmentInputValue::Node(ExprNode::Val { value: Primitive::Number(JsonNumber::PosInt(5)) }))],
    )
    .unwrap();
    let text = builder_canonical_ir_json(&reg, &h).unwrap();
    assert!(
        text.contains(r#"{"column":"n","value":{"kind":"query","text":"?","value_count":1}}"#),
        "got: {text}"
    );
}

#[test]
fn canonical_hash_is_the_blake3_hex_of_the_canonical_text() {
    let mut reg = Registry::new();
    let h = users_ids(&mut reg, "postgres", &["u.id"]);
    let text = builder_canonical_ir_json(&reg, &h).unwrap();
    let hash = builder_canonical_ir_hash(&reg, &h).unwrap();
    assert_eq!(hash, blake3::hash(text.as_bytes()).to_hex().to_string());
    assert_eq!(hash.len(), 64);
    let parts = registry_get_parts(&reg, &h).unwrap();
    assert_eq!(canonical_ir_hash_for_parts(&parts).unwrap(), hash);
    let digest = blake3::hash(text.as_bytes());
    let mut prefix = [0_u8; 8];
    prefix.copy_from_slice(&digest.as_bytes()[..8]);
    assert_eq!(canonical_fingerprint_for_parts(&parts).unwrap(), u64::from_le_bytes(prefix));
}

#[test]
fn digest_helpers_have_exact_values() {
    assert_eq!(digest_hex(&vec![0x00, 0x0f, 0xa5, 0xff]), "000fa5ff");
    assert_eq!(digest_prefix_u64(&vec![1, 2, 0, 0, 0, 0, 0, 0x80, 9]), 0x8000_0000_0000_0201);
}

#[test]
fn canonical_form_of_unknown_handle_is_not_found() {
    let reg = Registry::new();
    assert_eq!(builder_canonical_ir_json(&reg, "42").unwrap_err(), "Builder handle '42' not found or expired");
    assert_eq!(builder_canonical_ir_hash(&reg, "x").unwrap_err(), "Invalid builder handle: x");
}

#[test]
fn canonical_form_reports_an_uncommitted_join_without_predicate() {
    let mut reg = Registry::new();
    let h = builder_new(&mut reg, Some("postgres"));
    let h = builder_from_table_alias(&mut reg, &h, s("users"), s("u")).unwrap();
    let h = builder_join_table_alias(&mut reg, &h, s("INNER JOIN"), s("orders"), s("o")).unwrap();
    assert_eq!(
        builder_canonical_ir_json(&reg, &h).unwrap_err(),
        "Join predicate is required. Call on() or using() before continuing the query."
    );
}

#[test]
fn canonical_form_commits_a_pending_join() {
    let mut reg = Registry::new();
    let h = builder_new(&mut reg, Some("postgres"));
    let h = builder_from_table_alias(&mut reg, &h, s("users"), s("u")).unwrap();
    let h = builder_join_table_alias(&mut reg, &h, s("INNER JOIN"), s("orders"), s("o")).unwrap();
    let h = builder_on(&mut reg, &h, pred("? = ?", "u.id = o.user_id", vec![])).unwrap();
    let text = builder_canonical_ir_json(&reg, &h).unwrap();
    assert!(
        text.contains(r#""joins":[{"text":"INNER JOIN \"orders\" \"o\" ON ? = ?","value_count":0}]"#),
        "got: {text}"
    );
}
