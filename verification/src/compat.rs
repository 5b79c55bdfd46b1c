//! The type compatibility oracle: decides whether two column types are
//! join-compatible for relationship inference.
//!
//! Both inputs are normalized (ASCII lower-cased, any parenthesized
//! size/precision suffix stripped); normalized types are compatible when
//! they match exactly, are both integer types, are both string types, or
//! are both `uuid`.

use vstd::prelude::*;
use crate::text::{
    chars_of, eq_chars, eq_str, find_char, find_char_spec, lower_char, lower_chars, lower_seq,
    string_of, sub_chars,
};

verus! {

/// Normalized form of a type name: lower-cased, truncated at the first `(`.
pub open spec fn spec_normalize_type(s: Seq<char>) -> Seq<char> {
    let low = lower_seq(s);
    match find_char_spec(low, '(') {
        Some(i) => low.subrange(0, i),
        None => low,
    }
}

/// The integer family of normalized type names.
pub open spec fn spec_int_family(t: Seq<char>) -> bool {
    ||| t == "int"@
    ||| t == "integer"@
    ||| t == "bigint"@
    ||| t == "smallint"@
    ||| t == "tinyint"@
    ||| t == "serial"@
    ||| t == "bigserial"@
}

/// The string family of normalized type names.
pub open spec fn spec_string_family(t: Seq<char>) -> bool {
    ||| t == "varchar"@
    ||| t == "char"@
    ||| t == "text"@
    ||| t == "string"@
}

/// Compatibility of two raw type names, after normalization: exact match,
/// both integer types, both string types, or both `uuid`.
pub open spec fn spec_types_compatible(a: Seq<char>, b: Seq<char>) -> bool {
    let t1 = spec_normalize_type(a);
    let t2 = spec_normalize_type(b);
    ||| t1 == t2
    ||| (spec_int_family(t1) && spec_int_family(t2))
    ||| (spec_string_family(t1) && spec_string_family(t2))
    ||| (t1 == "uuid"@ && t2 == "uuid"@)
}

/// Normalize a type name for comparison: ASCII lower-case it and strip a
/// parenthesized suffix, so `"VARCHAR(255)"` becomes `"varchar"`.
pub fn normalize_type(data_type: &str) -> (r: String)
    ensures
        r@ == spec_normalize_type(data_type@),
{
    let cs = chars_of(data_type);
    let low = lower_chars(&cs);
    match find_char(&low, '(') {
        Some(i) => {
            let head = sub_chars(&low, 0, i);
            string_of(&head)
        },
        None => string_of(&low),
    }
}

fn in_int_family(t: &Vec<char>) -> (r: bool)
    ensures
        r == spec_int_family(t@),
{
    eq_str(t, "int") || eq_str(t, "integer") || eq_str(t, "bigint") || eq_str(t, "smallint")
        || eq_str(t, "tinyint") || eq_str(t, "serial") || eq_str(t, "bigserial")
}

fn in_string_family(t: &Vec<char>) -> (r: bool)
    ensures
        r == spec_string_family(t@),
{
    eq_str(t, "varchar") || eq_str(t, "char") || eq_str(t, "text") || eq_str(t, "string")
}

fn normalize_chars(s: &str) -> (r: Vec<char>)
    ensures
        r@ == spec_normalize_type(s@),
{
    let cs = chars_of(s);
    let low = lower_chars(&cs);
    match find_char(&low, '(') {
        Some(i) => sub_chars(&low, 0, i),
        None => low,
    }
}

/// Whether two column types are join-compatible for inference purposes.
/// Pure, total, reflexive and symmetric.
pub fn are_types_compatible(type1: &str, type2: &str) -> (r: bool)
    ensures
        r == spec_types_compatible(type1@, type2@),
{
    let t1 = normalize_chars(type1);
    let t2 = normalize_chars(type2);
    if eq_chars(&t1, &t2) {
        return true;
    }
    if in_int_family(&t1) && in_int_family(&t2) {
        return true;
    }
    if in_string_family(&t1) && in_string_family(&t2) {
        return true;
    }
    if eq_str(&t1, "uuid") && eq_str(&t2, "uuid") {
        return true;
    }
    false
}

/// The oracle is reflexive: every type is compatible with itself, since
/// normalization is a function and equal normal forms match exactly.
pub proof fn lemma_types_compatible_reflexive(a: Seq<char>)
    ensures
        spec_types_compatible(a, a),
{
}

/// The oracle is symmetric: compatibility reduces to equality and family
/// membership of the two normal forms, both symmetric in their arguments.
pub proof fn lemma_types_compatible_symmetric(a: Seq<char>, b: Seq<char>)
    ensures
        spec_types_compatible(a, b) == spec_types_compatible(b, a),
{
}

/// Lower-casing one character twice is the same as doing it once.
proof fn lemma_lower_char_idempotent(c: char)
    ensures
        lower_char(lower_char(c)) == lower_char(c),
{
}

/// Normalization is idempotent: a normalized type name is already
/// lower-case and holds no `(`, so a second pass returns it unchanged.
pub proof fn lemma_normalize_type_idempotent(x: Seq<char>)
    ensures
        spec_normalize_type(spec_normalize_type(x)) == spec_normalize_type(x),
{
    let low = lower_seq(x);
    let n = spec_normalize_type(x);
    crate::text::lemma_find_char_spec_props(low, '(');
    assert forall|i: int| 0 <= i < n.len() implies n[i] == lower_char(x[i]) && n[i] != '(' by {
        assert(n[i] == low[i]);
    }
    assert(lower_seq(n) =~= n) by {
        assert forall|i: int| 0 <= i < n.len() implies lower_seq(n)[i] == n[i] by {
            assert(lower_seq(n)[i] == lower_char(n[i]));
            lemma_lower_char_idempotent(x[i]);
        }
    }
    crate::text::lemma_find_char_spec_props(lower_seq(n), '(');
    if find_char_spec(lower_seq(n), '(') is Some {
        let k = find_char_spec(lower_seq(n), '(')->0;
        assert(lower_seq(n)[k] == n[k]);
        assert(false);
    }
    assert(spec_normalize_type(n) == lower_seq(n));
}

} // verus!
