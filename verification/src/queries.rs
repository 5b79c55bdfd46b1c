//! The dialect catalog adapter's query text.
//!
//! Each function renders the introspection SQL (or pragma) for one dialect.
//! Every table, schema or database name interpolated into query text goes
//! through `escape_literal`, which doubles single quotes, so a name cannot
//! break out of its quoted position.

use vstd::prelude::*;
use crate::text::{
    chars_of, split_char, split_char_spec, string_of, sub_chars, trim_any, trim_any_spec,
};
use crate::types::DatabaseType;

verus! {

/// A string-literal body with every single quote doubled.
pub open spec fn escaped_literal(s: Seq<char>) -> Seq<char>
    decreases s.len(),
{
    if s.len() == 0 {
        Seq::empty()
    } else {
        escaped_literal(s.drop_last()) + (if s.last() == '\'' {
            seq!['\'', '\'']
        } else {
            seq![s.last()]
        })
    }
}

/// Double every single quote in `s`, making it safe to stand between
/// single quotes in query text.
pub fn escape_literal(s: &str) -> (r: String)
    ensures
        r@ == escaped_literal(s@),
{
    let cs = chars_of(s);
    let mut out: Vec<char> = Vec::new();
    let mut i: usize = 0;
    while i < cs.len()
        invariant
            i <= cs@.len(),
            cs@ == s@,
            out@ == escaped_literal(cs@.subrange(0, i as int)),
        decreases cs@.len() - i,
    {
        proof {
            assert(cs@.subrange(0, i + 1).drop_last() =~= cs@.subrange(0, i as int));
            assert(cs@.subrange(0, i + 1).last() == cs@[i as int]);
        }
        if cs[i] == '\'' {
            out.push('\'');
            out.push('\'');
        } else {
            out.push(cs[i]);
        }
        proof {
            assert(out@ =~= escaped_literal(cs@.subrange(0, i + 1)));
        }
        i = i + 1;
    }
    proof {
        assert(cs@.subrange(0, cs@.len() as int) =~= cs@);
    }
    string_of(&out)
}

/// `name` escaped and wrapped in single quotes.
pub open spec fn quoted(name: Seq<char>) -> Seq<char> {
    seq!['\''] + escaped_literal(name) + seq!['\'']
}

/// The quoted names joined by `, `.
pub open spec fn name_list(names: Seq<Seq<char>>) -> Seq<char>
    decreases names.len(),
{
    if names.len() == 0 {
        Seq::empty()
    } else if names.len() == 1 {
        quoted(names[0])
    } else {
        name_list(names.drop_last()) + ", "@ + quoted(names.last())
    }
}

/// A SQL `IN` list: the quoted names, comma-separated, in parentheses.
pub open spec fn in_list(names: Seq<Seq<char>>) -> Seq<char> {
    seq!['('] + name_list(names) + seq![')']
}

/// Render the quoted, comma-separated, parenthesized `IN` list for the
/// given table names, each name escaped.
pub fn render_in_list(names: &Vec<String>) -> (r: String)
    ensures
        r@ == in_list(names@.map_values(|n: String| n@)),
{
    let ghost nm = names@.map_values(|n: String| n@);
    let mut out: Vec<char> = Vec::new();
    out.push('(');
    let mut i: usize = 0;
    while i < names.len()
        invariant
            i <= names@.len(),
            nm == names@.map_values(|n: String| n@),
            nm.len() == names@.len(),
            out@ == seq!['('] + name_list(nm.subrange(0, i as int)),
        decreases names@.len() - i,
    {
        proof {
            assert(nm[i as int] == names@[i as int]@);
        }
        if i > 0 {
            out.push(',');
            out.push(' ');
        }
        out.push('\'');
        let esc = escape_literal(names[i].as_str());
        let esc_chars = chars_of(esc.as_str());
        proof {
            reveal_strlit(", ");
            assert(esc_chars@.subrange(0, 0) =~= Seq::<char>::empty());
            if i > 0 {
                assert(out@ =~= seq!['('] + name_list(nm.subrange(0, i as int)) + ", "@
                    + seq!['\''] + esc_chars@.subrange(0, 0));
            } else {
                assert(out@ =~= seq!['('] + seq!['\''] + esc_chars@.subrange(0, 0));
            }
        }
        let mut j: usize = 0;
        while j < esc_chars.len()
            invariant
                j <= esc_chars@.len(),
                out@ == (if i > 0 {
                    seq!['('] + name_list(nm.subrange(0, i as int)) + ", "@ + seq!['\'']
                } else {
                    seq!['('] + seq!['\'']
                }) + esc_chars@.subrange(0, j as int),
                esc_chars@ == escaped_literal(nm[i as int]),
                i < nm.len(),
                nm == names@.map_values(|n: String| n@),
            decreases esc_chars@.len() - j,
        {
            out.push(esc_chars[j]);
            proof {
                assert(esc_chars@.subrange(0, j as int).push(esc_chars@[j as int]) =~= esc_chars@
                    .subrange(0, j + 1));
            }
            j = j + 1;
        }
        out.push('\'');
        proof {
            reveal_strlit(", ");
            assert(esc_chars@.subrange(0, esc_chars@.len() as int) =~= esc_chars@);
            assert(nm.subrange(0, i + 1).drop_last() =~= nm.subrange(0, i as int));
            assert(nm.subrange(0, i + 1).last() == nm[i as int]);
            if i > 0 {
                assert(nm.subrange(0, i + 1).len() > 1);
                assert(out@ =~= seq!['('] + name_list(nm.subrange(0, i + 1)));
            } else {
                assert(nm.subrange(0, 1).len() == 1);
                assert(nm.subrange(0, 1)[0] == nm[0]);
                assert(out@ =~= seq!['('] + name_list(nm.subrange(0, i + 1)));
            }
        }
        i = i + 1;
    }
    out.push(')');
    proof {
        assert(nm.subrange(0, nm.len() as int) =~= nm);
        assert(out@ =~= in_list(nm));
    }
    string_of(&out)
}

/// The table-list query of each dialect. The first client/server dialect
/// filters its system catalogs out by namespace; the second scopes by the
/// current database; the embedded dialect reads its master table.
pub open spec fn spec_tables_query(db_type: DatabaseType, database: Seq<char>) -> Seq<char> {
    match db_type {
        DatabaseType::Postgres =>
            "SELECT table_name::text, table_schema::text FROM information_schema.tables WHERE table_schema NOT IN ('pg_catalog', 'information_schema') ORDER BY table_name"@,
        DatabaseType::MySQL =>
            "SELECT table_name, table_schema FROM information_schema.tables WHERE table_schema = '"@
            + escaped_literal(database) + "' ORDER BY table_name"@,
        DatabaseType::SQLite =>
            "SELECT name as table_name FROM sqlite_master WHERE type='table' AND name NOT LIKE 'sqlite_%' ORDER BY name"@,
    }
}

pub fn tables_query(db_type: DatabaseType, database: &str) -> (r: String)
    ensures
        r@ == spec_tables_query(db_type, database@),
{
    match db_type {
        DatabaseType::Postgres => String::from_str(
            "SELECT table_name::text, table_schema::text FROM information_schema.tables WHERE table_schema NOT IN ('pg_catalog', 'information_schema') ORDER BY table_name",
        ),
        DatabaseType::MySQL => String::from_str(
            "SELECT table_name, table_schema FROM information_schema.tables WHERE table_schema = '",
        ).concat(escape_literal(database).as_str()).concat("' ORDER BY table_name"),
        DatabaseType::SQLite => String::from_str(
            "SELECT name as table_name FROM sqlite_master WHERE type='table' AND name NOT LIKE 'sqlite_%' ORDER BY name",
        ),
    }
}

/// The embedded dialect's per-table column introspection command.
pub open spec fn spec_table_info_pragma(table: Seq<char>) -> Seq<char> {
    "PRAGMA table_info('"@ + escaped_literal(table) + "')"@
}

pub fn table_info_pragma(table: &str) -> (r: String)
    ensures
        r@ == spec_table_info_pragma(table@),
{
    String::from_str("PRAGMA table_info('").concat(escape_literal(table).as_str()).concat("')")
}

/// The embedded dialect's per-table foreign-key introspection command.
pub open spec fn spec_foreign_key_pragma(table: Seq<char>) -> Seq<char> {
    "PRAGMA foreign_key_list('"@ + escaped_literal(table) + "')"@
}

pub fn foreign_key_pragma(table: &str) -> (r: String)
    ensures
        r@ == spec_foreign_key_pragma(table@),
{
    String::from_str("PRAGMA foreign_key_list('").concat(escape_literal(table).as_str()).concat(
        "')",
    )
}

/// The multi-table column query of the first client/server dialect: one
/// round trip for all requested tables, joining the key-usage catalog to
/// derive the primary-key flag, scoped to one namespace.
pub open spec fn spec_columns_query_a(tables: Seq<Seq<char>>, namespace: Seq<char>) -> Seq<char> {
    "SELECT c.table_name::text, c.column_name::text, c.data_type::text, c.is_nullable::text, c.column_default::text, CASE WHEN pk.column_name IS NOT NULL THEN true ELSE false END as is_primary_key FROM information_schema.columns c LEFT JOIN (SELECT ku.table_name::text, ku.column_name::text FROM information_schema.table_constraints tc JOIN information_schema.key_column_usage ku ON tc.constraint_name = ku.constraint_name AND tc.table_schema = ku.table_schema WHERE tc.constraint_type = 'PRIMARY KEY' AND tc.table_name IN "@
        + in_list(tables) + " AND tc.table_schema = '"@ + escaped_literal(namespace)
        + "') pk ON c.table_name = pk.table_name AND c.column_name = pk.column_name WHERE c.table_name IN "@
        + in_list(tables) + " AND c.table_schema = '"@ + escaped_literal(namespace)
        + "' ORDER BY c.table_name, c.ordinal_position"@
}

pub fn columns_query_a(tables: &Vec<String>, namespace: &str) -> (r: String)
    ensures
        r@ == spec_columns_query_a(tables@.map_values(|n: String| n@), namespace@),
{
    let list = render_in_list(tables);
    let ns = escape_literal(namespace);
    String::from_str(
        "SELECT c.table_name::text, c.column_name::text, c.data_type::text, c.is_nullable::text, c.column_default::text, CASE WHEN pk.column_name IS NOT NULL THEN true ELSE false END as is_primary_key FROM information_schema.columns c LEFT JOIN (SELECT ku.table_name::text, ku.column_name::text FROM information_schema.table_constraints tc JOIN information_schema.key_column_usage ku ON tc.constraint_name = ku.constraint_name AND tc.table_schema = ku.table_schema WHERE tc.constraint_type = 'PRIMARY KEY' AND tc.table_name IN ",
    ).concat(list.as_str()).concat(" AND tc.table_schema = '").concat(ns.as_str()).concat(
        "') pk ON c.table_name = pk.table_name AND c.column_name = pk.column_name WHERE c.table_name IN ",
    ).concat(list.as_str()).concat(" AND c.table_schema = '").concat(ns.as_str()).concat(
        "' ORDER BY c.table_name, c.ordinal_position",
    )
}

/// The multi-table column query of the second client/server dialect: the
/// key classification column is folded to a 0/1 flag, scoped by database.
pub open spec fn spec_columns_query_b(tables: Seq<Seq<char>>, database: Seq<char>) -> Seq<char> {
    "SELECT table_name, column_name, data_type, is_nullable, column_default, CASE WHEN column_key = 'PRI' THEN 1 ELSE 0 END as is_primary_key FROM information_schema.columns WHERE table_name IN "@
        + in_list(tables) + " AND table_schema = '"@ + escaped_literal(database)
        + "' ORDER BY table_name, ordinal_position"@
}

pub fn columns_query_b(tables: &Vec<String>, database: &str) -> (r: String)
    ensures
        r@ == spec_columns_query_b(tables@.map_values(|n: String| n@), database@),
{
    let list = render_in_list(tables);
    String::from_str(
        "SELECT table_name, column_name, data_type, is_nullable, column_default, CASE WHEN column_key = 'PRI' THEN 1 ELSE 0 END as is_primary_key FROM information_schema.columns WHERE table_name IN ",
    ).concat(list.as_str()).concat(" AND table_schema = '").concat(
        escape_literal(database).as_str(),
    ).concat("' ORDER BY table_name, ordinal_position")
}

/// The whole-database foreign-key query of each client/server dialect. The
/// first joins three constraint catalogs; the second reads the referenced
/// table directly off the key-usage catalog. The embedded dialect has no
/// whole-database view and uses `foreign_key_pragma` per table instead.
pub open spec fn spec_foreign_keys_query(db_type: DatabaseType, database: Seq<char>) -> Option<
    Seq<char>,
> {
    match db_type {
        DatabaseType::Postgres => Some(
            "SELECT tc.table_name::text, kcu.column_name::text, ccu.table_name::text AS foreign_table, ccu.column_name::text AS foreign_column, tc.constraint_name::text FROM information_schema.table_constraints AS tc JOIN information_schema.key_column_usage AS kcu ON tc.constraint_name = kcu.constraint_name AND tc.table_schema = kcu.table_schema JOIN information_schema.constraint_column_usage AS ccu ON ccu.constraint_name = tc.constraint_name AND ccu.table_schema = tc.table_schema WHERE tc.constraint_type = 'FOREIGN KEY'"@,
        ),
        DatabaseType::MySQL => Some(
            "SELECT table_name, column_name, referenced_table_name AS foreign_table, referenced_column_name AS foreign_column, constraint_name FROM information_schema.key_column_usage WHERE referenced_table_name IS NOT NULL AND table_schema = '"@
                + escaped_literal(database) + "'"@,
        ),
        DatabaseType::SQLite => None,
    }
}

pub fn foreign_keys_query(db_type: DatabaseType, database: &str) -> (r: Option<String>)
    ensures
        r.deep_view() == spec_foreign_keys_query(db_type, database@),
{
    match db_type {
        DatabaseType::Postgres => Some(
            String::from_str(
                "SELECT tc.table_name::text, kcu.column_name::text, ccu.table_name::text AS foreign_table, ccu.column_name::text AS foreign_column, tc.constraint_name::text FROM information_schema.table_constraints AS tc JOIN information_schema.key_column_usage AS kcu ON tc.constraint_name = kcu.constraint_name AND tc.table_schema = kcu.table_schema JOIN information_schema.constraint_column_usage AS ccu ON ccu.constraint_name = tc.constraint_name AND ccu.table_schema = tc.table_schema WHERE tc.constraint_type = 'FOREIGN KEY'",
            ),
        ),
        DatabaseType::MySQL => Some(
            String::from_str(
                "SELECT table_name, column_name, referenced_table_name AS foreign_table, referenced_column_name AS foreign_column, constraint_name FROM information_schema.key_column_usage WHERE referenced_table_name IS NOT NULL AND table_schema = '",
            ).concat(escape_literal(database).as_str()).concat("'"),
        ),
        DatabaseType::SQLite => None,
    }
}

/// The version-probe statement of each dialect.
pub open spec fn spec_version_query(db_type: DatabaseType) -> Seq<char> {
    match db_type {
        DatabaseType::Postgres => "SELECT version()"@,
        DatabaseType::MySQL => "SELECT VERSION()"@,
        DatabaseType::SQLite => "SELECT sqlite_version()"@,
    }
}

pub fn version_query(db_type: DatabaseType) -> (r: String)
    ensures
        r@ == spec_version_query(db_type),
{
    match db_type {
        DatabaseType::Postgres => String::from_str("SELECT version()"),
        DatabaseType::MySQL => String::from_str("SELECT VERSION()"),
        DatabaseType::SQLite => String::from_str("SELECT sqlite_version()"),
    }
}

/// A requested-tables argument parses to its comma-separated pieces, each
/// trimmed of blanks and of surrounding quotes, empty pieces dropped:
/// `"('users', 'files')"` parses to `users` and `files`.
pub open spec fn spec_parse_table_list(s: Seq<char>) -> Seq<Seq<char>> {
    let inner = trim_any_spec(s, "()"@);
    split_char_spec(inner, ',').map_values(
        |piece: Seq<char>| trim_any_spec(
            trim_any_spec(trim_any_spec(piece, " \t\n\r"@), "'"@),
            "\""@,
        ),
    ).filter(|piece: Seq<char>| piece.len() > 0)
}

/// Parse a requested-tables argument (`"('users', 'files')"`, a bare
/// `"users"`, with `'` or `"` quoting) into the individual table names.
pub fn parse_table_list(s: &str) -> (r: Vec<String>)
    ensures
        r@.map_values(|n: String| n@) == spec_parse_table_list(s@),
{
    let cs = chars_of(s);
    let parens = chars_of("()");
    let blanks = chars_of(" \t\n\r");
    let single_quotes = chars_of("'");
    let double_quotes = chars_of("\"");
    let inner = trim_any(&cs, &parens);
    let pieces = split_char(&inner, ',');
    let ghost pieces_m = split_char_spec(inner@, ',');
    let ghost cleaner = |piece: Seq<char>| trim_any_spec(
        trim_any_spec(trim_any_spec(piece, " \t\n\r"@), "'"@),
        "\""@,
    );
    let ghost keep = |piece: Seq<char>| piece.len() > 0;
    let mut out: Vec<String> = Vec::new();
    let mut i: usize = 0;
    while i < pieces.len()
        invariant
            i <= pieces@.len(),
            pieces.deep_view() == pieces_m,
            pieces@.len() == pieces_m.len(),
            blanks@ == " \t\n\r"@,
            single_quotes@ == "'"@,
            double_quotes@ == "\""@,
            cleaner == (|piece: Seq<char>| trim_any_spec(
                trim_any_spec(trim_any_spec(piece, " \t\n\r"@), "'"@),
                "\""@,
            )),
            keep == (|piece: Seq<char>| piece.len() > 0),
            out@.map_values(|n: String| n@) =~= pieces_m.subrange(0, i as int).map_values(
                cleaner,
            ).filter(keep),
        decreases pieces@.len() - i,
    {
        proof {
            reveal(Seq::filter);
            assert(pieces.deep_view()[i as int] =~= pieces@[i as int]@);
            assert(pieces_m.subrange(0, i + 1).drop_last() =~= pieces_m.subrange(0, i as int));
            assert(pieces_m.subrange(0, i + 1).last() == pieces_m[i as int]);
            assert(pieces_m.subrange(0, i + 1).map_values(cleaner).drop_last() =~= pieces_m
                .subrange(0, i as int).map_values(cleaner));
            assert(pieces_m.subrange(0, i + 1).map_values(cleaner).last() == cleaner(
                pieces_m[i as int],
            ));
        }
        let blank_trimmed = trim_any(&pieces[i], &blanks);
        let unquoted = trim_any(&blank_trimmed, &single_quotes);
        let cleaned = trim_any(&unquoted, &double_quotes);
        proof {
            assert(cleaned@ == cleaner(pieces_m[i as int]));
        }
        if cleaned.len() > 0 {
            out.push(string_of(&cleaned));
        }
        proof {
            assert(out@.map_values(|n: String| n@) =~= pieces_m.subrange(0, i + 1).map_values(
                cleaner,
            ).filter(keep));
        }
        i = i + 1;
    }
    proof {
        assert(pieces_m.subrange(0, pieces_m.len() as int) =~= pieces_m);
    }
    out
}

} // verus!
