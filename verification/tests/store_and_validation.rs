use schemalens::credentials::CredentialStore;
use schemalens::types::{DatabaseCredentials, DatabaseError, DatabaseType};
use schemalens::validate::validate_query;

fn creds(id: &str, name: &str) -> DatabaseCredentials {
    DatabaseCredentials {
        id: id.to_string(),
        name: name.to_string(),
        db_type: DatabaseType::SQLite,
        host: None,
        port: None,
        database: "main".to_string(),
        username: None,
        password: None,
        file_path: Some("/tmp/example.db".to_string()),
    }
}

#[test]
fn unknown_database_id_is_a_credentials_error_not_a_query_error() {
    let store = CredentialStore::new();
    let result = store.get("missing");
    match result {
        Err(DatabaseError::CredentialsError(message)) => {
            assert_eq!(message, "Credentials not found: missing");
        },
        Err(_) => panic!("wrong error kind for an unknown identifier"),
        Ok(_) => panic!("an empty store returned credentials"),
    }
}

#[test]
fn store_add_get_list_remove_update() {
    let mut store = CredentialStore::new();
    store.add(creds("db1", "First")).unwrap();
    store.add(creds("db2", "Second")).unwrap();

    let fetched = store.get("db1").unwrap();
    assert_eq!(fetched.name, "First");

    // add with an existing id replaces the record
    store.add(creds("db1", "Renamed")).unwrap();
    assert_eq!(store.get("db1").unwrap().name, "Renamed");
    assert_eq!(store.list().unwrap().len(), 2);

    // update requires the record to exist
    store.update(creds("db2", "Second v2")).unwrap();
    assert_eq!(store.get("db2").unwrap().name, "Second v2");
    assert!(matches!(
        store.update(creds("db3", "Ghost")),
        Err(DatabaseError::CredentialsError(_))
    ));

    store.remove("db1").unwrap();
    assert!(store.get("db1").is_err());
    assert!(matches!(store.remove("db1"), Err(DatabaseError::CredentialsError(_))));
    assert_eq!(store.list().unwrap().len(), 1);
}

#[test]
fn error_messages_name_the_failure_kind() {
    let e = DatabaseError::ConnectionError("refused".to_string());
    assert_eq!(e.message(), "Connection error: refused");
    let e = DatabaseError::QueryError("syntax".to_string());
    assert_eq!(e.message(), "Query execution error: syntax");
    let e = DatabaseError::SQLInjection;
    assert_eq!(e.message(), "SQL injection detected");
    let e = DatabaseError::DestructiveOperation("DROP operations are not allowed".to_string());
    assert_eq!(
        e.message(),
        "Destructive operation not allowed: DROP operations are not allowed"
    );
}

#[test]
fn destructive_statements_are_rejected_with_the_keyword() {
    match validate_query("  drop table users") {
        Err(DatabaseError::DestructiveOperation(message)) => {
            assert_eq!(message, "DROP operations are not allowed");
        },
        _ => panic!("a DROP statement was not rejected"),
    }
    match validate_query("Update users set a = 1") {
        Err(DatabaseError::DestructiveOperation(message)) => {
            assert_eq!(message, "UPDATE operations are not allowed");
        },
        _ => panic!("an UPDATE statement was not rejected"),
    }
}

#[test]
fn injection_patterns_are_rejected() {
    assert!(matches!(
        validate_query("SELECT * FROM users -- hidden"),
        Err(DatabaseError::SQLInjection)
    ));
    assert!(matches!(
        validate_query("SELECT /* c */ 1"),
        Err(DatabaseError::SQLInjection)
    ));
    assert!(matches!(
        validate_query("SELECT 1; SELECT 2"),
        Err(DatabaseError::SQLInjection)
    ));
    assert!(matches!(
        validate_query("SELECT xp_cmdshell"),
        Err(DatabaseError::SQLInjection)
    ));
    assert!(matches!(
        validate_query("SELECT sp_help"),
        Err(DatabaseError::SQLInjection)
    ));
}

#[test]
fn one_trailing_semicolon_is_tolerated() {
    assert!(validate_query("SELECT * FROM users;").is_ok());
    assert!(validate_query("SELECT * FROM users;  ").is_ok());
    assert!(matches!(
        validate_query("SELECT 1;;"),
        Err(DatabaseError::SQLInjection)
    ));
}

#[test]
fn plain_select_statements_pass() {
    assert!(validate_query("SELECT name, email FROM users WHERE id = 1").is_ok());
    assert!(validate_query("  select count(*) from orders  ").is_ok());
}
