use schemalens::infer::infer_relationships;
use schemalens::relationships::combine_relationships;
use schemalens::types::{ColumnInfo, Relationship, TableSchema};

fn column(name: &str, data_type: &str, is_primary_key: bool) -> ColumnInfo {
    ColumnInfo {
        name: name.to_string(),
        data_type: data_type.to_string(),
        is_nullable: !is_primary_key,
        is_primary_key,
        default_value: None,
    }
}

fn table(name: &str, columns: Vec<ColumnInfo>) -> TableSchema {
    TableSchema {
        table_name: name.to_string(),
        schema: None,
        columns,
    }
}

#[test]
fn rule_a_user_id_against_users_is_high_confidence() {
    let schemas = vec![
        table(
            "orders",
            vec![column("id", "integer", true), column("user_id", "integer", false)],
        ),
        table(
            "users",
            vec![column("id", "integer", true), column("email", "text", false)],
        ),
    ];
    let inferred = infer_relationships(&schemas);
    assert_eq!(inferred.len(), 1);
    let rel = &inferred[0];
    assert_eq!(rel.table_name, "orders");
    assert_eq!(rel.column_name, "user_id");
    assert_eq!(rel.foreign_table, "users");
    assert_eq!(rel.foreign_column, "id");
    assert_eq!(rel.relationship_type, "inferred");
    assert_eq!(rel.confidence.as_deref(), Some("high"));
    assert_eq!(rel.constraint_name, None);
}

#[test]
fn rule_a_prefers_the_bare_stem_over_plurals() {
    let schemas = vec![
        table("orders", vec![column("customer_id", "integer", false)]),
        table("customer", vec![column("id", "integer", true)]),
        table("customers", vec![column("id", "integer", true)]),
    ];
    let inferred = infer_relationships(&schemas);
    let rule_a: Vec<&Relationship> = inferred
        .iter()
        .filter(|r| r.confidence.as_deref() == Some("high"))
        .collect();
    assert_eq!(rule_a.len(), 1);
    assert_eq!(rule_a[0].foreign_table, "customer");
}

#[test]
fn rule_a_skips_type_incompatible_primary_keys() {
    let schemas = vec![
        table("orders", vec![column("user_id", "integer", false)]),
        table("users", vec![column("id", "text", true)]),
    ];
    let inferred = infer_relationships(&schemas);
    assert!(inferred.is_empty());
}

#[test]
fn rule_b_userid_without_underscore_is_medium_confidence() {
    let schemas = vec![
        table("orders", vec![column("userid", "integer", false)]),
        table("users", vec![column("id", "integer", true)]),
    ];
    let inferred = infer_relationships(&schemas);
    // "userid" ends with "id": rule B strips it to "user", pluralizes to
    // "users" and matches; rule A does not fire (no "_id" suffix).
    assert_eq!(inferred.len(), 1);
    assert_eq!(inferred[0].confidence.as_deref(), Some("medium"));
    assert_eq!(inferred[0].foreign_table, "users");
}

#[test]
fn a_column_named_exactly_id_is_never_a_reference() {
    let schemas = vec![
        table("orders", vec![column("id", "integer", false)]),
        table("i", vec![column("pk", "integer", true)]),
        table("is", vec![column("pk", "integer", true)]),
    ];
    let inferred = infer_relationships(&schemas);
    assert!(inferred.is_empty());
}

#[test]
fn rule_c_exact_match_is_low_confidence_and_respects_types() {
    // A string column named "user" against users with a string primary key.
    let schemas = vec![
        table("posts", vec![column("user", "string", false)]),
        table("users", vec![column("id", "string", true)]),
    ];
    let inferred = infer_relationships(&schemas);
    assert_eq!(inferred.len(), 1);
    let rel = &inferred[0];
    assert_eq!(rel.table_name, "posts");
    assert_eq!(rel.column_name, "user");
    assert_eq!(rel.foreign_table, "users");
    assert_eq!(rel.foreign_column, "id");
    assert_eq!(rel.confidence.as_deref(), Some("low"));

    // The same column typed integer against a text key: no record.
    let incompatible = vec![
        table("posts", vec![column("user", "integer", false)]),
        table("users", vec![column("id", "text", true)]),
    ];
    assert!(infer_relationships(&incompatible).is_empty());
}

#[test]
fn primary_key_columns_are_never_referencing_columns() {
    // users.id would match table "ids"? No - but "user_id" as primary key of
    // its own table must not produce a proposal even though rule A matches.
    let schemas = vec![
        table("orders", vec![column("user_id", "integer", true)]),
        table("users", vec![column("id", "integer", true)]),
    ];
    let inferred = infer_relationships(&schemas);
    assert!(inferred.is_empty());
}

#[test]
fn rules_fire_independently_for_one_column() {
    // "users" column named "users" (rule C) that also ends in "s"... and a
    // "profile_id" column matching rule A and rule B targets.
    let schemas = vec![
        table("accounts", vec![column("profile_id", "integer", false)]),
        table("profile", vec![column("id", "integer", true)]),
        table("profile_", vec![column("id", "integer", true)]),
    ];
    let inferred = infer_relationships(&schemas);
    // Rule A: stem "profile" exists -> high. Rule B: stem "profile_" exists
    // -> medium. Both fire for the same column.
    assert_eq!(inferred.len(), 2);
    assert_eq!(inferred[0].confidence.as_deref(), Some("high"));
    assert_eq!(inferred[0].foreign_table, "profile");
    assert_eq!(inferred[1].confidence.as_deref(), Some("medium"));
    assert_eq!(inferred[1].foreign_table, "profile_");
}

#[test]
fn explicit_and_duplicate_inferred_records_are_both_returned() {
    // One declared foreign key, and the naming convention that re-derives
    // it: the combined list keeps both, explicit first.
    let explicit = vec![Relationship {
        table_name: "orders".to_string(),
        column_name: "user_id".to_string(),
        foreign_table: "users".to_string(),
        foreign_column: "id".to_string(),
        constraint_name: Some("fk_orders_user".to_string()),
        relationship_type: "foreign_key".to_string(),
        confidence: None,
    }];
    let schemas = vec![
        table(
            "orders",
            vec![column("id", "integer", true), column("user_id", "integer", false)],
        ),
        table("users", vec![column("id", "integer", true)]),
    ];
    let inferred = infer_relationships(&schemas);
    let combined = combine_relationships(explicit, inferred);
    assert_eq!(combined.len(), 2);
    assert_eq!(combined[0].relationship_type, "foreign_key");
    assert_eq!(combined[0].constraint_name.as_deref(), Some("fk_orders_user"));
    assert_eq!(combined[1].relationship_type, "inferred");
    assert_eq!(combined[1].confidence.as_deref(), Some("high"));
    assert_eq!(combined[0].foreign_table, combined[1].foreign_table);
}
