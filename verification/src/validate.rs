//! Query-safety validation for caller-supplied SQL.
//!
//! A statement whose first word (after trimming, case-insensitively) is a
//! destructive keyword is rejected with `DestructiveOperation`; one holding
//! a comment marker, a procedure-call prefix, or a semicolon anywhere but
//! alone at the very end is rejected with `SQLInjection`.

use vstd::prelude::*;
use crate::text::{
    chars_of, contains_lit, contains_seq_spec, count_char, count_char_spec, ends_with,
    ends_with_lit, starts_with, starts_with_chars, string_of, trim_any, trim_any_spec,
    upper_chars, upper_seq,
};
use crate::types::DatabaseError;

verus! {

/// The keywords that open a destructive statement, in the order checked.
pub open spec fn destructive_keywords() -> Seq<Seq<char>> {
    seq![
        "DROP"@,
        "DELETE"@,
        "TRUNCATE"@,
        "ALTER"@,
        "CREATE"@,
        "INSERT"@,
        "UPDATE"@,
        "GRANT"@,
        "REVOKE"@,
    ]
}

/// ASCII whitespace, as trimmed from the ends of a statement.
pub open spec fn blank_chars() -> Seq<char> {
    " \t\n\r"@
}

/// The statement upper-cased after trimming, the form the keyword check
/// reads.
pub open spec fn normalized_statement(sql: Seq<char>) -> Seq<char> {
    upper_seq(trim_any_spec(sql, blank_chars()))
}

/// The first destructive keyword (from index `k` on) that the normalized
/// statement starts with.
pub open spec fn first_keyword_hit(up: Seq<char>, k: int) -> Option<int>
    decreases destructive_keywords().len() - k,
{
    if 0 <= k < destructive_keywords().len() {
        if starts_with(up, destructive_keywords()[k]) {
            Some(k)
        } else {
            first_keyword_hit(up, k + 1)
        }
    } else {
        None
    }
}

pub open spec fn spec_destructive_hit(sql: Seq<char>) -> Option<int> {
    first_keyword_hit(normalized_statement(sql), 0)
}

/// A single semicolon standing at the very end of the trimmed statement is
/// tolerated.
pub open spec fn spec_semicolon_ok(sql: Seq<char>) -> bool {
    ends_with(trim_any_spec(sql, blank_chars()), ";"@) && count_char_spec(sql, ';') == 1
}

/// The suspicious patterns: comment markers, procedure-call prefixes, and
/// any semicolon that is not a lone trailing one.
pub open spec fn spec_injection(sql: Seq<char>) -> bool {
    ||| contains_seq_spec(sql, "--"@)
    ||| contains_seq_spec(sql, "/*"@)
    ||| (contains_seq_spec(sql, ";"@) && !spec_semicolon_ok(sql))
    ||| contains_seq_spec(sql, "xp_"@)
    ||| contains_seq_spec(sql, "sp_"@)
}

/// Check caller-supplied SQL: reject destructive statements (with the
/// offending keyword named), then injection patterns; accept the rest.
pub fn validate_query(sql: &str) -> (r: Result<(), DatabaseError>)
    ensures
        match r {
            Ok(()) => spec_destructive_hit(sql@) is None && !spec_injection(sql@),
            Err(e) => match e {
                DatabaseError::DestructiveOperation(m) => spec_destructive_hit(sql@)
                    matches Some(k) && m@ == destructive_keywords()[k]
                    + " operations are not allowed"@,
                DatabaseError::SQLInjection => spec_destructive_hit(sql@) is None
                    && spec_injection(sql@),
                _ => false,
            },
        },
{
    let cs = chars_of(sql);
    let blanks = chars_of(" \t\n\r");
    let trimmed = trim_any(&cs, &blanks);
    let up = upper_chars(&trimmed);

    let mut keywords: Vec<Vec<char>> = Vec::new();
    keywords.push(chars_of("DROP"));
    keywords.push(chars_of("DELETE"));
    keywords.push(chars_of("TRUNCATE"));
    keywords.push(chars_of("ALTER"));
    keywords.push(chars_of("CREATE"));
    keywords.push(chars_of("INSERT"));
    keywords.push(chars_of("UPDATE"));
    keywords.push(chars_of("GRANT"));
    keywords.push(chars_of("REVOKE"));
    proof {
        assert(keywords.deep_view() =~~= destructive_keywords());
        assert(up@ == normalized_statement(sql@));
    }
    let mut k: usize = 0;
    while k < keywords.len()
        invariant
            k <= keywords@.len(),
            keywords.deep_view() =~~= destructive_keywords(),
            keywords@.len() == destructive_keywords().len(),
            up@ == normalized_statement(sql@),
            first_keyword_hit(up@, 0) == first_keyword_hit(up@, k as int),
        decreases keywords@.len() - k,
    {
        proof {
            assert(keywords.deep_view()[k as int] =~= keywords@[k as int]@);
        }
        if starts_with_chars(&up, &keywords[k]) {
            let message = string_of(&keywords[k]).concat(" operations are not allowed");
            return Err(DatabaseError::DestructiveOperation(message));
        }
        k = k + 1;
    }

    if contains_lit(&cs, "--") {
        return Err(DatabaseError::SQLInjection);
    }
    if contains_lit(&cs, "/*") {
        return Err(DatabaseError::SQLInjection);
    }
    if contains_lit(&cs, ";") {
        let single = count_char(&cs, ';') == 1;
        let at_end = ends_with_lit(&trimmed, ";");
        if !(single && at_end) {
            return Err(DatabaseError::SQLInjection);
        }
    }
    if contains_lit(&cs, "xp_") {
        return Err(DatabaseError::SQLInjection);
    }
    if contains_lit(&cs, "sp_") {
        return Err(DatabaseError::SQLInjection);
    }
    Ok(())
}

} // verus!
