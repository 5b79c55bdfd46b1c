//! The uniform data model: dialects, credentials, schema descriptions,
//! relationships and the error kinds of the library.

use vstd::prelude::*;

verus! {

/// The three supported database dialects. The variant selects which catalog
/// queries are generated and how raw metadata rows are normalized.
#[derive(Debug, Clone, Copy, PartialEq, Eq, Structural)]
pub enum DatabaseType {
    Postgres,
    MySQL,
    SQLite,
}

/// Everything needed to reach one database. `host`, `port`, `username` and
/// `password` serve the client/server dialects; `file_path` serves the
/// embedded dialect.
#[derive(Debug, Clone)]
pub struct DatabaseCredentials {
    pub id: String,
    pub name: String,
    pub db_type: DatabaseType,
    pub host: Option<String>,
    pub port: Option<u16>,
    pub database: String,
    pub username: Option<String>,
    pub password: Option<String>,
    pub file_path: Option<String>,
}

/// Mathematical model of `DatabaseCredentials`.
#[verifier::ext_equal]
pub ghost struct CredentialsModel {
    pub id: Seq<char>,
    pub name: Seq<char>,
    pub db_type: DatabaseType,
    pub host: Option<Seq<char>>,
    pub port: Option<u16>,
    pub database: Seq<char>,
    pub username: Option<Seq<char>>,
    pub password: Option<Seq<char>>,
    pub file_path: Option<Seq<char>>,
}

impl View for DatabaseCredentials {
    type V = CredentialsModel;

    open spec fn view(&self) -> CredentialsModel {
        CredentialsModel {
            id: self.id@,
            name: self.name@,
            db_type: self.db_type,
            host: self.host.deep_view(),
            port: self.port,
            database: self.database@,
            username: self.username.deep_view(),
            password: self.password.deep_view(),
            file_path: self.file_path.deep_view(),
        }
    }
}

/// One table as listed for the caller. `row_count` is reserved for a later
/// counting pass and is always `None` here.
#[derive(Debug, Clone, PartialEq)]
pub struct TableInfo {
    pub name: String,
    pub schema: Option<String>,
    pub row_count: Option<i64>,
}

#[verifier::ext_equal]
pub ghost struct TableInfoModel {
    pub name: Seq<char>,
    pub schema: Option<Seq<char>>,
    pub row_count: Option<i64>,
}

impl View for TableInfo {
    type V = TableInfoModel;

    open spec fn view(&self) -> TableInfoModel {
        TableInfoModel {
            name: self.name@,
            schema: self.schema.deep_view(),
            row_count: self.row_count,
        }
    }
}

/// One column of a table, with the dialect-native type spelling and the
/// normalized nullability and primary-key flags.
#[derive(Debug, Clone, PartialEq)]
pub struct ColumnInfo {
    pub name: String,
    pub data_type: String,
    pub is_nullable: bool,
    pub is_primary_key: bool,
    pub default_value: Option<String>,
}

#[verifier::ext_equal]
pub ghost struct ColumnModel {
    pub name: Seq<char>,
    pub data_type: Seq<char>,
    pub is_nullable: bool,
    pub is_primary_key: bool,
    pub default_value: Option<Seq<char>>,
}

impl View for ColumnInfo {
    type V = ColumnModel;

    open spec fn view(&self) -> ColumnModel {
        ColumnModel {
            name: self.name@,
            data_type: self.data_type@,
            is_nullable: self.is_nullable,
            is_primary_key: self.is_primary_key,
            default_value: self.default_value.deep_view(),
        }
    }
}

/// The full description of one table: its name, optional namespace (absent
/// for the embedded dialect) and its columns in catalog ordinal order.
#[derive(Debug, Clone, PartialEq)]
pub struct TableSchema {
    pub table_name: String,
    pub schema: Option<String>,
    pub columns: Vec<ColumnInfo>,
}

#[verifier::ext_equal]
pub ghost struct TableSchemaModel {
    pub table_name: Seq<char>,
    pub schema: Option<Seq<char>>,
    pub columns: Seq<ColumnModel>,
}

impl View for TableSchema {
    type V = TableSchemaModel;

    open spec fn view(&self) -> TableSchemaModel {
        TableSchemaModel {
            table_name: self.table_name@,
            schema: self.schema.deep_view(),
            columns: Seq::new(self.columns@.len(), |i: int| self.columns@[i]@),
        }
    }
}

/// A relationship between two tables: either a declared foreign key
/// (`relationship_type` is `"foreign_key"`, `confidence` is `None`) or a
/// naming-convention guess (`relationship_type` is `"inferred"`,
/// `confidence` is one of `"high"`, `"medium"`, `"low"`).
#[derive(Debug, Clone, PartialEq)]
pub struct Relationship {
    pub table_name: String,
    pub column_name: String,
    pub foreign_table: String,
    pub foreign_column: String,
    pub constraint_name: Option<String>,
    pub relationship_type: String,
    pub confidence: Option<String>,
}

#[verifier::ext_equal]
pub ghost struct RelationshipModel {
    pub table_name: Seq<char>,
    pub column_name: Seq<char>,
    pub foreign_table: Seq<char>,
    pub foreign_column: Seq<char>,
    pub constraint_name: Option<Seq<char>>,
    pub relationship_type: Seq<char>,
    pub confidence: Option<Seq<char>>,
}

impl View for Relationship {
    type V = RelationshipModel;

    open spec fn view(&self) -> RelationshipModel {
        RelationshipModel {
            table_name: self.table_name@,
            column_name: self.column_name@,
            foreign_table: self.foreign_table@,
            foreign_column: self.foreign_column@,
            constraint_name: self.constraint_name.deep_view(),
            relationship_type: self.relationship_type@,
            confidence: self.confidence.deep_view(),
        }
    }
}

/// Outcome of probing a connection.
#[derive(Debug, Clone, PartialEq)]
pub struct ConnectionTestResult {
    pub success: bool,
    pub message: String,
    pub server_version: Option<String>,
}

/// The failure kinds of the library. Connection, query and credential
/// failures are distinct conditions; a missing credential entry is never
/// reported as a query failure.
#[derive(Debug, Clone)]
pub enum DatabaseError {
    ConnectionError(String),
    QueryError(String),
    CredentialsError(String),
    UnsupportedType,
    SQLInjection,
    DestructiveOperation(String),
    EncryptionError(String),
    Other(String),
}

impl DatabaseError {
    /// A human-readable description, in place of a `Display` impl.
    pub fn message(&self) -> String {
        match self {
            DatabaseError::ConnectionError(m) => String::from_str(
                "Connection error: ",
            ).concat(m.as_str()),
            DatabaseError::QueryError(m) => String::from_str(
                "Query execution error: ",
            ).concat(m.as_str()),
            DatabaseError::CredentialsError(m) => String::from_str(
                "Invalid credentials: ",
            ).concat(m.as_str()),
            DatabaseError::UnsupportedType => String::from_str("Unsupported database type"),
            DatabaseError::SQLInjection => String::from_str("SQL injection detected"),
            DatabaseError::DestructiveOperation(m) => String::from_str(
                "Destructive operation not allowed: ",
            ).concat(m.as_str()),
            DatabaseError::EncryptionError(m) => String::from_str(
                "Encryption error: ",
            ).concat(m.as_str()),
            DatabaseError::Other(m) => String::from_str(
                "Database error: ",
            ).concat(m.as_str()),
        }
    }
}

} // verus!
