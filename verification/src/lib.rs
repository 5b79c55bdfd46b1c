//! Cross-dialect schema introspection and relationship inference for
//! relational databases.
//!
//! The crate models three database dialects with incompatible metadata
//! catalogs, normalizes their table/column descriptions into one uniform
//! schema model, extracts declared foreign keys, and infers additional
//! relationships from naming conventions and type compatibility, ranked by
//! confidence. Credential bookkeeping, connection-string construction,
//! query-safety validation and credential encryption round out the library;
//! all query execution and other I/O is left to the caller.

pub mod compat;
pub mod connection;
pub mod credentials;
pub mod encryption;
pub mod infer;
pub mod normalize;
pub mod queries;
pub mod relationships;
pub mod text;
pub mod types;
pub mod validate;
