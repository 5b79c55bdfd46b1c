use schemalens::normalize::{
    group_catalog_rows, schema_from_embedded_rows, tables_from_rows, CatalogColumnRow,
    EmbeddedColumnRow, TableListRow,
};
use schemalens::types::DatabaseType;

fn embedded_row(
    name: &str,
    declared_type: &str,
    not_null: i64,
    pk_rank: i64,
    default_value: Option<&str>,
) -> EmbeddedColumnRow {
    EmbeddedColumnRow {
        name: name.to_string(),
        declared_type: declared_type.to_string(),
        not_null,
        pk_rank,
        default_value: default_value.map(|s| s.to_string()),
    }
}

fn catalog_row(
    table_name: &str,
    column_name: &str,
    data_type: &str,
    is_nullable: &str,
    pk_flag: i64,
) -> CatalogColumnRow {
    CatalogColumnRow {
        table_name: table_name.to_string(),
        column_name: column_name.to_string(),
        data_type: data_type.to_string(),
        is_nullable: is_nullable.to_string(),
        column_default: None,
        pk_flag,
    }
}

#[test]
fn embedded_schema_normalizes_nullability_and_keys() {
    // A table declared (id INTEGER PRIMARY KEY, name TEXT): the key column
    // reports not_null=1 and pk rank 1, the other 0 and 0.
    let rows = vec![
        embedded_row("id", "INTEGER", 1, 1, None),
        embedded_row("name", "TEXT", 0, 0, None),
    ];
    let schema = schema_from_embedded_rows("people", &rows);
    assert_eq!(schema.table_name, "people");
    assert_eq!(schema.schema, None);
    assert_eq!(schema.columns.len(), 2);
    assert_eq!(schema.columns[0].name, "id");
    assert!(schema.columns[0].is_primary_key);
    assert!(!schema.columns[0].is_nullable);
    assert_eq!(schema.columns[1].name, "name");
    assert!(!schema.columns[1].is_primary_key);
    assert!(schema.columns[1].is_nullable);
}

#[test]
fn embedded_schema_has_one_column_per_row_in_order() {
    let rows = vec![
        embedded_row("a", "INTEGER", 0, 0, None),
        embedded_row("b", "TEXT", 0, 0, Some("'x'")),
        embedded_row("c", "REAL", 1, 0, None),
        embedded_row("d", "BLOB", 0, 0, None),
    ];
    let schema = schema_from_embedded_rows("wide", &rows);
    assert_eq!(schema.columns.len(), rows.len());
    for (i, row) in rows.iter().enumerate() {
        assert_eq!(schema.columns[i].name, row.name);
        assert_eq!(schema.columns[i].data_type, row.declared_type);
    }
    assert_eq!(schema.columns[1].default_value.as_deref(), Some("'x'"));
}

#[test]
fn catalog_rows_group_by_table_in_first_appearance_order() {
    let rows = vec![
        catalog_row("users", "id", "integer", "NO", 1),
        catalog_row("users", "email", "varchar(255)", "YES", 0),
        catalog_row("orders", "id", "integer", "NO", 1),
        catalog_row("orders", "user_id", "integer", "yes", 0),
    ];
    let schemas = group_catalog_rows(&rows, &Some("public".to_string()));
    assert_eq!(schemas.len(), 2);
    assert_eq!(schemas[0].table_name, "users");
    assert_eq!(schemas[0].schema.as_deref(), Some("public"));
    assert_eq!(schemas[0].columns.len(), 2);
    assert!(schemas[0].columns[0].is_primary_key);
    assert!(!schemas[0].columns[0].is_nullable);
    assert!(schemas[0].columns[1].is_nullable);
    assert_eq!(schemas[1].table_name, "orders");
    assert_eq!(schemas[1].columns.len(), 2);
    // Lower-case "yes" still counts as nullable.
    assert!(schemas[1].columns[1].is_nullable);
}

#[test]
fn grouping_keys_by_raw_case() {
    let rows = vec![
        catalog_row("Users", "id", "integer", "NO", 1),
        catalog_row("users", "id", "integer", "NO", 1),
    ];
    let schemas = group_catalog_rows(&rows, &None);
    assert_eq!(schemas.len(), 2);
    assert_eq!(schemas[0].table_name, "Users");
    assert_eq!(schemas[1].table_name, "users");
}

#[test]
fn table_list_drops_namespace_for_the_embedded_dialect() {
    let rows = vec![
        TableListRow { table_name: "users".to_string(), table_schema: Some("main".to_string()) },
        TableListRow { table_name: "orders".to_string(), table_schema: None },
    ];
    let embedded = tables_from_rows(DatabaseType::SQLite, &rows);
    assert_eq!(embedded.len(), 2);
    assert_eq!(embedded[0].name, "users");
    assert_eq!(embedded[0].schema, None);
    assert_eq!(embedded[0].row_count, None);

    let catalog = tables_from_rows(DatabaseType::Postgres, &rows);
    assert_eq!(catalog[0].schema.as_deref(), Some("main"));
    assert_eq!(catalog[1].schema, None);
}
