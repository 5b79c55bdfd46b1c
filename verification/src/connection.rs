//! Connection-string construction for the three dialects.
//!
//! The two client/server dialects require host, username and password and
//! fall back to their well-known default ports; the embedded dialect
//! requires a file path. A missing required field is reported as a
//! credentials error naming the field.

use vstd::prelude::*;
use crate::types::{ConnectionTestResult, CredentialsModel, DatabaseCredentials, DatabaseError,
    DatabaseType};

verus! {

/// The decimal digit character for one digit value.
pub open spec fn digit_char(d: int) -> char {
    ((48 + d) as u32) as char
}

/// The decimal rendering of `n`, most significant digit first.
pub open spec fn dec_digits(n: int) -> Seq<char>
    decreases n,
{
    if n < 10 {
        seq![digit_char(n)]
    } else {
        dec_digits(n / 10) + seq![digit_char(n % 10)]
    }
}

fn push_digits(n: u16, out: &mut Vec<char>)
    ensures
        final(out)@ == old(out)@ + dec_digits(n as int),
    decreases n,
{
    if n < 10 {
        out.push((((48 + n) as u8) as char));
        proof {
            assert(out@ =~= old(out)@ + dec_digits(n as int));
        }
    } else {
        push_digits(n / 10, out);
        out.push((((48 + (n % 10)) as u8) as char));
        proof {
            assert(out@ =~= old(out)@ + dec_digits(n as int));
        }
    }
}

/// Render a port number in decimal.
pub fn port_to_string(n: u16) -> (r: String)
    ensures
        r@ == dec_digits(n as int),
{
    let mut digits: Vec<char> = Vec::new();
    push_digits(n, &mut digits);
    proof {
        assert(digits@ =~= dec_digits(n as int));
    }
    crate::text::string_of(&digits)
}

/// The connection string owed to a credentials record, or the message of
/// the credentials error reporting the first missing required field.
pub open spec fn spec_connection_string(c: CredentialsModel) -> Result<Seq<char>, Seq<char>> {
    match c.db_type {
        DatabaseType::Postgres => {
            if c.host is None {
                Err("Host is required for PostgreSQL"@)
            } else if c.username is None {
                Err("Username is required for PostgreSQL"@)
            } else if c.password is None {
                Err("Password is required for PostgreSQL"@)
            } else {
                Ok(
                    "postgres://"@ + c.username.unwrap() + ":"@ + c.password.unwrap() + "@"@
                        + c.host.unwrap() + ":"@ + dec_digits(
                        match c.port {
                            Some(p) => p as int,
                            None => 5432,
                        },
                    ) + "/"@ + c.database,
                )
            }
        },
        DatabaseType::MySQL => {
            if c.host is None {
                Err("Host is required for MySQL"@)
            } else if c.username is None {
                Err("Username is required for MySQL"@)
            } else if c.password is None {
                Err("Password is required for MySQL"@)
            } else {
                Ok(
                    "mysql://"@ + c.username.unwrap() + ":"@ + c.password.unwrap() + "@"@
                        + c.host.unwrap() + ":"@ + dec_digits(
                        match c.port {
                            Some(p) => p as int,
                            None => 3306,
                        },
                    ) + "/"@ + c.database,
                )
            }
        },
        DatabaseType::SQLite => {
            if c.file_path is None {
                Err("File path is required for SQLite"@)
            } else {
                Ok("sqlite://"@ + c.file_path.unwrap())
            }
        },
    }
}

/// Build the driver connection string for a credentials record. A missing
/// required field gives a `CredentialsError` naming it.
pub fn build_connection_string(creds: &DatabaseCredentials) -> (r: Result<String, DatabaseError>)
    ensures
        match r {
            Ok(s) => spec_connection_string(creds@) == Ok::<Seq<char>, Seq<char>>(s@),
            Err(e) => e matches DatabaseError::CredentialsError(m) && spec_connection_string(
                creds@,
            ) == Err::<Seq<char>, Seq<char>>(m@),
        },
{
    match creds.db_type {
        DatabaseType::Postgres => {
            let host = match &creds.host {
                Some(h) => h,
                None => {
                    return Err(
                        DatabaseError::CredentialsError(
                            String::from_str("Host is required for PostgreSQL"),
                        ),
                    );
                },
            };
            let username = match &creds.username {
                Some(u) => u,
                None => {
                    return Err(
                        DatabaseError::CredentialsError(
                            String::from_str("Username is required for PostgreSQL"),
                        ),
                    );
                },
            };
            let password = match &creds.password {
                Some(p) => p,
                None => {
                    return Err(
                        DatabaseError::CredentialsError(
                            String::from_str("Password is required for PostgreSQL"),
                        ),
                    );
                },
            };
            let port: u16 = match creds.port {
                Some(p) => p,
                None => 5432,
            };
            Ok(
                String::from_str("postgres://").concat(username.as_str()).concat(":").concat(
                    password.as_str(),
                ).concat("@").concat(host.as_str()).concat(":").concat(
                    port_to_string(port).as_str(),
                ).concat("/").concat(creds.database.as_str()),
            )
        },
        DatabaseType::MySQL => {
            let host = match &creds.host {
                Some(h) => h,
                None => {
                    return Err(
                        DatabaseError::CredentialsError(
                            String::from_str("Host is required for MySQL"),
                        ),
                    );
                },
            };
            let username = match &creds.username {
                Some(u) => u,
                None => {
                    return Err(
                        DatabaseError::CredentialsError(
                            String::from_str("Username is required for MySQL"),
                        ),
                    );
                },
            };
            let password = match &creds.password {
                Some(p) => p,
                None => {
                    return Err(
                        DatabaseError::CredentialsError(
                            String::from_str("Password is required for MySQL"),
                        ),
                    );
                },
            };
            let port: u16 = match creds.port {
                Some(p) => p,
                None => 3306,
            };
            Ok(
                String::from_str("mysql://").concat(username.as_str()).concat(":").concat(
                    password.as_str(),
                ).concat("@").concat(host.as_str()).concat(":").concat(
                    port_to_string(port).as_str(),
                ).concat("/").concat(creds.database.as_str()),
            )
        },
        DatabaseType::SQLite => {
            let file_path = match &creds.file_path {
                Some(f) => f,
                None => {
                    return Err(
                        DatabaseError::CredentialsError(
                            String::from_str("File path is required for SQLite"),
                        ),
                    );
                },
            };
            Ok(String::from_str("sqlite://").concat(file_path.as_str()))
        },
    }
}

/// The successful probe result for a reported server version.
pub fn connection_test_result(version: String) -> (r: ConnectionTestResult)
    ensures
        r.success,
        r.message@ == "Connection successful"@,
        r.server_version.deep_view() == Some(version@),
{
    ConnectionTestResult {
        success: true,
        message: String::from_str("Connection successful"),
        server_version: Some(version),
    }
}

} // verus!
