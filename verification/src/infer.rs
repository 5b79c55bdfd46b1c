//! The relationship inference engine.
//!
//! Given the normalized schema of every table, it proposes additional
//! relationships from column naming conventions, each checked against the
//! type compatibility oracle and tagged with a confidence level:
//!
//! - a column ending in `_id` that names an existing table (stem, stem+`s`
//!   or stem+`es`) with a compatible primary key: confidence `high`;
//! - a column ending in `id` (but not named exactly `id`), stem or
//!   stem+`s`: confidence `medium`;
//! - a column whose lower-cased name equals a table's name or its singular
//!   form: confidence `low`.
//!
//! Primary-key columns are never treated as referencing columns. Rules fire
//! independently, so one column may contribute several records; proposals
//! are advisory and are not deduplicated against explicit foreign keys.

use vstd::prelude::*;
use crate::compat::{are_types_compatible, spec_types_compatible};
use crate::text::{chars_of, ends_with, ends_with_lit, eq_chars, eq_str, lower_chars, lower_seq,
    string_of, sub_chars, extend_chars};
use crate::types::{ColumnInfo, ColumnModel, Relationship, RelationshipModel, TableSchema,
    TableSchemaModel};

verus! {

pub open spec fn schema_models(schemas: Seq<TableSchema>) -> Seq<TableSchemaModel> {
    schemas.map_values(|s: TableSchema| s@)
}

/// An inferred relationship record: no constraint name, tagged with the
/// rule's confidence.
pub open spec fn inferred_record(
    table: Seq<char>,
    col_name: Seq<char>,
    foreign_table: Seq<char>,
    foreign_column: Seq<char>,
    confidence: Seq<char>,
) -> RelationshipModel {
    RelationshipModel {
        table_name: table,
        column_name: col_name,
        foreign_table,
        foreign_column,
        constraint_name: None,
        relationship_type: "inferred"@,
        confidence: Some(confidence),
    }
}

/// The first primary-key column of `cols` (from index `i` on) whose type is
/// compatible with `ty`: its name and type.
pub open spec fn first_pk_compat(cols: Seq<ColumnModel>, ty: Seq<char>, i: int) -> Option<
    ColumnModel,
>
    decreases cols.len() - i,
{
    if 0 <= i < cols.len() {
        if cols[i].is_primary_key && spec_types_compatible(ty, cols[i].data_type) {
            Some(cols[i])
        } else {
            first_pk_compat(cols, ty, i + 1)
        }
    } else {
        None
    }
}

/// Scan the schemas (from index `k` on) for a table named `t` holding a
/// primary-key column compatible with `ty`; the first hit wins.
pub open spec fn spec_lookup_pk(
    sm: Seq<TableSchemaModel>,
    t: Seq<char>,
    ty: Seq<char>,
    k: int,
) -> Option<ColumnModel>
    decreases sm.len() - k,
{
    if 0 <= k < sm.len() {
        if sm[k].table_name == t {
            match first_pk_compat(sm[k].columns, ty, 0) {
                Some(c) => Some(c),
                None => spec_lookup_pk(sm, t, ty, k + 1),
            }
        } else {
            spec_lookup_pk(sm, t, ty, k + 1)
        }
    } else {
        None
    }
}

/// Emit one record for the first candidate table name (from index `i` on)
/// that exists and has a compatible primary key.
pub open spec fn try_candidates(
    sm: Seq<TableSchemaModel>,
    table: Seq<char>,
    col: ColumnModel,
    cands: Seq<Seq<char>>,
    confidence: Seq<char>,
    i: int,
) -> Seq<RelationshipModel>
    decreases cands.len() - i,
{
    if 0 <= i < cands.len() {
        match spec_lookup_pk(sm, cands[i], col.data_type, 0) {
            Some(pk) => seq![
                inferred_record(table, col.name, cands[i], pk.name, confidence),
            ],
            None => try_candidates(sm, table, col, cands, confidence, i + 1),
        }
    } else {
        Seq::empty()
    }
}

/// Rule A: the column name (lower-cased) ends with `_id`; candidate target
/// tables are the stem, stem+`s` and stem+`es`, in that order.
pub open spec fn rule_a(sm: Seq<TableSchemaModel>, table: Seq<char>, col: ColumnModel) -> Seq<
    RelationshipModel,
> {
    let low = lower_seq(col.name);
    if ends_with(low, "_id"@) {
        let stem = low.subrange(0, low.len() - 3);
        try_candidates(sm, table, col, seq![stem, stem + "s"@, stem + "es"@], "high"@, 0)
    } else {
        Seq::empty()
    }
}

/// Rule B: the column name (lower-cased) ends with `id` without being
/// exactly `id`; candidates are the stem and stem+`s`.
pub open spec fn rule_b(sm: Seq<TableSchemaModel>, table: Seq<char>, col: ColumnModel) -> Seq<
    RelationshipModel,
> {
    let low = lower_seq(col.name);
    if ends_with(low, "id"@) && low != "id"@ {
        let stem = low.subrange(0, low.len() - 2);
        try_candidates(sm, table, col, seq![stem, stem + "s"@], "medium"@, 0)
    } else {
        Seq::empty()
    }
}

/// Whether a column named `low` (already lower-cased) names the table
/// `tname`: it equals the lower-cased table name, or that name with one
/// trailing `s` stripped.
pub open spec fn rule_c_matches(low: Seq<char>, tname: Seq<char>) -> bool {
    let tl = lower_seq(tname);
    let singular = if ends_with(tl, "s"@) {
        tl.subrange(0, tl.len() - 1)
    } else {
        tl
    };
    low == tl || low == singular
}

/// Rule C: one record per table (from index `k` on) whose name the column
/// matches and whose own columns hold a compatible primary key.
pub open spec fn rule_c(
    sm: Seq<TableSchemaModel>,
    table: Seq<char>,
    col: ColumnModel,
    k: int,
) -> Seq<RelationshipModel>
    decreases sm.len() - k,
{
    if 0 <= k < sm.len() {
        let head = if rule_c_matches(lower_seq(col.name), sm[k].table_name) {
            match first_pk_compat(sm[k].columns, col.data_type, 0) {
                Some(pk) => seq![
                    inferred_record(table, col.name, sm[k].table_name, pk.name, "low"@),
                ],
                None => Seq::<RelationshipModel>::empty(),
            }
        } else {
            Seq::<RelationshipModel>::empty()
        };
        head + rule_c(sm, table, col, k + 1)
    } else {
        Seq::empty()
    }
}

/// Everything the three rules propose for one column. A primary-key column
/// proposes nothing.
pub open spec fn inferred_for_column(
    sm: Seq<TableSchemaModel>,
    table: Seq<char>,
    col: ColumnModel,
) -> Seq<RelationshipModel> {
    if col.is_primary_key {
        Seq::empty()
    } else {
        rule_a(sm, table, col) + rule_b(sm, table, col) + rule_c(sm, table, col, 0)
    }
}

/// The proposals of one schema's columns, from column index `i` on.
pub open spec fn infer_for_schema(
    sm: Seq<TableSchemaModel>,
    s: TableSchemaModel,
    i: int,
) -> Seq<RelationshipModel>
    decreases s.columns.len() - i,
{
    if 0 <= i < s.columns.len() {
        inferred_for_column(sm, s.table_name, s.columns[i]) + infer_for_schema(sm, s, i + 1)
    } else {
        Seq::empty()
    }
}

/// The proposals of all schemas, from schema index `k` on.
pub open spec fn infer_spec_from(sm: Seq<TableSchemaModel>, k: int) -> Seq<RelationshipModel>
    decreases sm.len() - k,
{
    if 0 <= k < sm.len() {
        infer_for_schema(sm, sm[k], 0) + infer_spec_from(sm, k + 1)
    } else {
        Seq::empty()
    }
}

/// Every relationship the naming-convention rules propose, in schema order,
/// then column order, then rule order (A, B, C).
pub open spec fn infer_spec(sm: Seq<TableSchemaModel>) -> Seq<RelationshipModel> {
    infer_spec_from(sm, 0)
}

/// The name of the first compatible primary-key column of a table named
/// `t`, searching schemas in order.
fn lookup_pk(schemas: &Vec<TableSchema>, t: &Vec<char>, ty: &str) -> (r: Option<String>)
    ensures
        match r {
            Some(n) => spec_lookup_pk(schema_models(schemas@), t@, ty@, 0) matches Some(pk)
                && pk.name == n@,
            None => spec_lookup_pk(schema_models(schemas@), t@, ty@, 0) is None,
        },
{
    let ghost sm = schema_models(schemas@);
    let mut k: usize = 0;
    while k < schemas.len()
        invariant
            k <= schemas@.len(),
            sm == schema_models(schemas@),
            sm.len() == schemas@.len(),
            ty@ == ty@,
            spec_lookup_pk(sm, t@, ty@, 0) == spec_lookup_pk(sm, t@, ty@, k as int),
        decreases schemas@.len() - k,
    {
        let name_chars = chars_of(schemas[k].table_name.as_str());
        if eq_chars(&name_chars, t) {
            proof {
                assert(sm[k as int] == schemas@[k as int]@);
                assert(sm[k as int].table_name == t@);
            }
            let cols = &schemas[k].columns;
            let mut i: usize = 0;
            while i < cols.len()
                invariant
                    i <= cols@.len(),
                    sm == schema_models(schemas@),
                    sm.len() == schemas@.len(),
                    k < schemas@.len(),
                    cols == &schemas@[k as int].columns,
                    sm[k as int].columns =~= cols@.map_values(|c: ColumnInfo| c@),
                    sm[k as int].table_name == t@,
                    spec_lookup_pk(sm, t@, ty@, 0) == spec_lookup_pk(sm, t@, ty@, k as int),
                    first_pk_compat(sm[k as int].columns, ty@, 0) == first_pk_compat(
                        sm[k as int].columns,
                        ty@,
                        i as int,
                    ),
                decreases cols@.len() - i,
            {
                if cols[i].is_primary_key && are_types_compatible(
                    ty,
                    cols[i].data_type.as_str(),
                ) {
                    proof {
                        assert(sm[k as int].columns[i as int] == cols@[i as int]@);
                        assert(first_pk_compat(sm[k as int].columns, ty@, i as int) == Some(
                            cols@[i as int]@,
                        ));
                        assert(spec_lookup_pk(sm, t@, ty@, k as int) == Some(cols@[i as int]@));
                    }
                    return Some(cols[i].name.clone());
                }
                proof {
                    assert(sm[k as int].columns[i as int] == cols@[i as int]@);
                }
                i = i + 1;
            }
            proof {
                assert(first_pk_compat(sm[k as int].columns, ty@, i as int) is None);
                assert(spec_lookup_pk(sm, t@, ty@, k as int) == spec_lookup_pk(
                    sm,
                    t@,
                    ty@,
                    k + 1,
                ));
            }
        } else {
            proof {
                assert(sm[k as int] == schemas@[k as int]@);
                assert(sm[k as int].table_name != t@);
            }
        }
        k = k + 1;
    }
    None
}

/// The name of the first primary-key column among `cols` whose type is
/// compatible with `ty`.
fn first_pk_of_columns(cols: &Vec<ColumnInfo>, ty: &str) -> (r: Option<String>)
    ensures
        match r {
            Some(n) => first_pk_compat(cols@.map_values(|c: ColumnInfo| c@), ty@, 0)
                matches Some(pk) && pk.name == n@,
            None => first_pk_compat(cols@.map_values(|c: ColumnInfo| c@), ty@, 0) is None,
        },
{
    let ghost cm = cols@.map_values(|c: ColumnInfo| c@);
    let mut i: usize = 0;
    while i < cols.len()
        invariant
            i <= cols@.len(),
            cm == cols@.map_values(|c: ColumnInfo| c@),
            first_pk_compat(cm, ty@, 0) == first_pk_compat(cm, ty@, i as int),
        decreases cols@.len() - i,
    {
        proof {
            assert(cm[i as int] == cols@[i as int]@);
        }
        if cols[i].is_primary_key && are_types_compatible(ty, cols[i].data_type.as_str()) {
            return Some(cols[i].name.clone());
        }
        i = i + 1;
    }
    None
}

/// Build one inferred `Relationship` record.
fn make_inferred(
    table_name: &String,
    column_name: &String,
    foreign_table: String,
    foreign_column: String,
    confidence: &str,
) -> (r: Relationship)
    ensures
        r@ =~= inferred_record(
            table_name@,
            column_name@,
            foreign_table@,
            foreign_column@,
            confidence@,
        ),
{
    Relationship {
        table_name: table_name.clone(),
        column_name: column_name.clone(),
        foreign_table,
        foreign_column,
        constraint_name: None,
        relationship_type: String::from_str("inferred"),
        confidence: Some(String::from_str(confidence)),
    }
}

/// Emit at most one record for the first candidate table that exists and
/// has a compatible primary key.
fn try_candidates_exec(
    schemas: &Vec<TableSchema>,
    table_name: &String,
    col: &ColumnInfo,
    cands: &Vec<Vec<char>>,
    confidence: &str,
) -> (r: Option<Relationship>)
    ensures
        ({
            let recs = try_candidates(
                schema_models(schemas@),
                table_name@,
                col@,
                cands.deep_view(),
                confidence@,
                0,
            );
            match r {
                Some(rel) => recs =~= seq![rel@],
                None => recs =~= Seq::<RelationshipModel>::empty(),
            }
        }),
{
    let ghost sm = schema_models(schemas@);
    let ghost cm = cands.deep_view();
    let mut i: usize = 0;
    while i < cands.len()
        invariant
            i <= cands@.len(),
            sm == schema_models(schemas@),
            cm == cands.deep_view(),
            cm.len() == cands@.len(),
            try_candidates(sm, table_name@, col@, cm, confidence@, 0) == try_candidates(
                sm,
                table_name@,
                col@,
                cm,
                confidence@,
                i as int,
            ),
        decreases cands@.len() - i,
    {
        proof {
            assert(cm[i as int] =~= cands@[i as int]@);
        }
        match lookup_pk(schemas, &cands[i], col.data_type.as_str()) {
            Some(pk_name) => {
                let rel = make_inferred(
                    table_name,
                    &col.name,
                    string_of(&cands[i]),
                    pk_name,
                    confidence,
                );
                return Some(rel);
            },
            None => {},
        }
        i = i + 1;
    }
    None
}

/// Rule C for one column: one record per matching table, in schema order.
fn rule_c_exec(schemas: &Vec<TableSchema>, table_name: &String, col: &ColumnInfo, low: &Vec<
    char,
>) -> (r: Vec<Relationship>)
    requires
        low@ == lower_seq(col@.name),
    ensures
        r@.map_values(|x: Relationship| x@) =~= rule_c(
            schema_models(schemas@),
            table_name@,
            col@,
            0,
        ),
{
    let ghost sm = schema_models(schemas@);
    let mut out: Vec<Relationship> = Vec::new();
    let mut k: usize = 0;
    while k < schemas.len()
        invariant
            k <= schemas@.len(),
            sm == schema_models(schemas@),
            sm.len() == schemas@.len(),
            low@ == lower_seq(col@.name),
            rule_c(sm, table_name@, col@, 0) =~= out@.map_values(|x: Relationship| x@) + rule_c(
                sm,
                table_name@,
                col@,
                k as int,
            ),
        decreases schemas@.len() - k,
    {
        proof {
            assert(sm[k as int] == schemas@[k as int]@);
        }
        let ghost out_before = out@;
        let tname_chars = chars_of(schemas[k].table_name.as_str());
        let tl = lower_chars(&tname_chars);
        let matched: bool = if eq_chars(low, &tl) {
            true
        } else if tl.len() > 0 && ends_with_lit(&tl, "s") {
            let singular = sub_chars(&tl, 0, tl.len() - 1);
            eq_chars(low, &singular)
        } else {
            false
        };
        proof {
            reveal_strlit("s");
            assert(matched == rule_c_matches(low@, sm[k as int].table_name));
        }
        if matched {
            match first_pk_of_columns(&schemas[k].columns, col.data_type.as_str()) {
                Some(pk_name) => {
                    proof {
                        assert(schemas@[k as int].columns@.map_values(|c: ColumnInfo| c@) =~= sm[
                            k as int
                        ].columns);
                    }
                    let rel = make_inferred(
                        table_name,
                        &col.name,
                        schemas[k].table_name.clone(),
                        pk_name,
                        "low",
                    );
                    out.push(rel);
                },
                None => {
                    proof {
                        assert(schemas@[k as int].columns@.map_values(|c: ColumnInfo| c@) =~= sm[
                            k as int
                        ].columns);
                    }
                },
            }
        }
        proof {
            assert(rule_c(sm, table_name@, col@, 0) =~= out@.map_values(|x: Relationship| x@)
                + rule_c(sm, table_name@, col@, k + 1));
        }
        k = k + 1;
    }
    out
}

/// Everything the three rules propose for one column, rule A first.
fn infer_for_column_exec(schemas: &Vec<TableSchema>, table_name: &String, col: &ColumnInfo) -> (r:
    Vec<Relationship>)
    ensures
        r@.map_values(|x: Relationship| x@) =~= inferred_for_column(
            schema_models(schemas@),
            table_name@,
            col@,
        ),
{
    let ghost sm = schema_models(schemas@);
    let mut out: Vec<Relationship> = Vec::new();
    if col.is_primary_key {
        proof {
            assert(out@.map_values(|x: Relationship| x@) =~= Seq::<RelationshipModel>::empty());
        }
        return out;
    }
    let name_chars = chars_of(col.name.as_str());
    let low = lower_chars(&name_chars);

    if ends_with_lit(&low, "_id") {
        proof {
            reveal_strlit("_id");
        }
        let stem = sub_chars(&low, 0, low.len() - 3);
        let cand2 = extend_chars(&stem, "s");
        let cand3 = extend_chars(&stem, "es");
        let mut cands: Vec<Vec<char>> = Vec::new();
        cands.push(stem);
        cands.push(cand2);
        cands.push(cand3);
        proof {
            let stem_s = lower_seq(col@.name).subrange(0, lower_seq(col@.name).len() - 3);
            assert(cands.deep_view() =~~= seq![stem_s, stem_s + "s"@, stem_s + "es"@]);
        }
        match try_candidates_exec(schemas, table_name, col, &cands, "high") {
            Some(rel) => {
                out.push(rel);
            },
            None => {},
        }
    }
    proof {
        assert(out@.map_values(|x: Relationship| x@) =~= rule_a(sm, table_name@, col@));
    }
    let ghost after_a = out@;

    if ends_with_lit(&low, "id") && !eq_str(&low, "id") {
        proof {
            reveal_strlit("id");
        }
        let stem = sub_chars(&low, 0, low.len() - 2);
        let cand2 = extend_chars(&stem, "s");
        let mut cands: Vec<Vec<char>> = Vec::new();
        cands.push(stem);
        cands.push(cand2);
        proof {
            let stem_s = lower_seq(col@.name).subrange(0, lower_seq(col@.name).len() - 2);
            assert(cands.deep_view() =~~= seq![stem_s, stem_s + "s"@]);
        }
        match try_candidates_exec(schemas, table_name, col, &cands, "medium") {
            Some(rel) => {
                out.push(rel);
            },
            None => {},
        }
    }
    proof {
        assert(out@.map_values(|x: Relationship| x@) =~= rule_a(sm, table_name@, col@) + rule_b(
            sm,
            table_name@,
            col@,
        ));
    }

    let mut c_records = rule_c_exec(schemas, table_name, col, &low);
    let ghost before_c = out@;
    out.append(&mut c_records);
    proof {
        assert(out@.map_values(|x: Relationship| x@) =~= before_c.map_values(
            |x: Relationship| x@,
        ) + rule_c(sm, table_name@, col@, 0));
        assert(out@.map_values(|x: Relationship| x@) =~= inferred_for_column(
            sm,
            table_name@,
            col@,
        ));
    }
    out
}

/// Apply the naming-convention rules to every non-primary-key column of
/// every table: the full advisory relationship list, in schema order, then
/// column order, then rule order.
pub fn infer_relationships(schemas: &Vec<TableSchema>) -> (r: Vec<Relationship>)
    ensures
        r@.map_values(|x: Relationship| x@) == infer_spec(schema_models(schemas@)),
{
    let ghost sm = schema_models(schemas@);
    let mut out: Vec<Relationship> = Vec::new();
    let mut k: usize = 0;
    while k < schemas.len()
        invariant
            k <= schemas@.len(),
            sm == schema_models(schemas@),
            sm.len() == schemas@.len(),
            infer_spec(sm) =~= out@.map_values(|x: Relationship| x@) + infer_spec_from(
                sm,
                k as int,
            ),
        decreases schemas@.len() - k,
    {
        proof {
            assert(sm[k as int] == schemas@[k as int]@);
        }
        let columns_len = schemas[k].columns.len();
        let mut i: usize = 0;
        while i < columns_len
            invariant
                i <= columns_len,
                columns_len == schemas@[k as int].columns@.len(),
                k < schemas@.len(),
                sm == schema_models(schemas@),
                sm.len() == schemas@.len(),
                sm[k as int] == schemas@[k as int]@,
                sm[k as int].columns.len() == columns_len,
                infer_spec(sm) =~= out@.map_values(|x: Relationship| x@) + infer_for_schema(
                    sm,
                    sm[k as int],
                    i as int,
                ) + infer_spec_from(sm, k + 1),
            decreases columns_len - i,
        {
            proof {
                assert(sm[k as int].columns[i as int] == schemas@[k as int].columns@[i as int]@);
            }
            let mut recs = infer_for_column_exec(schemas, &schemas[k].table_name, &schemas[
                k
            ].columns[i]);
            let ghost before = out@;
            out.append(&mut recs);
            proof {
                assert(out@.map_values(|x: Relationship| x@) =~= before.map_values(
                    |x: Relationship| x@,
                ) + inferred_for_column(sm, sm[k as int].table_name, sm[k as int].columns[
                    i as int
                ]));
            }
            i = i + 1;
        }
        k = k + 1;
    }
    proof {
        assert(out@.map_values(|x: Relationship| x@) =~= infer_spec(sm));
    }
    out
}

/// Column names are unique within the table.
pub open spec fn wf_schema(s: TableSchemaModel) -> bool {
    forall|i: int, j: int|
        0 <= i < j < s.columns.len() ==> s.columns[i].name != s.columns[j].name
}

/// Table names are unique across the schema list.
pub open spec fn distinct_table_names_in(sm: Seq<TableSchemaModel>) -> bool {
    forall|i: int, j: int| 0 <= i < j < sm.len() ==> sm[i].table_name != sm[j].table_name
}

/// Whether `name` names a primary-key column of `s`.
pub open spec fn is_pk_column_of(s: TableSchemaModel, name: Seq<char>) -> bool {
    exists|i: int|
        0 <= i < s.columns.len() && s.columns[i].name == name && s.columns[i].is_primary_key
}

/// A record tagged as a naming-convention proposal: `relationship_type` is
/// `inferred`, no constraint name, and a confidence of `high`, `medium` or
/// `low`.
pub open spec fn record_is_tagged_inferred(rec: RelationshipModel) -> bool {
    &&& rec.relationship_type == "inferred"@
    &&& rec.constraint_name is None
    &&& (rec.confidence == Some("high"@) || rec.confidence == Some("medium"@)
        || rec.confidence == Some("low"@))
}

proof fn lemma_try_candidates_record(
    sm: Seq<TableSchemaModel>,
    table: Seq<char>,
    col: ColumnModel,
    cands: Seq<Seq<char>>,
    confidence: Seq<char>,
    i: int,
    r: int,
)
    requires
        0 <= r < try_candidates(sm, table, col, cands, confidence, i).len(),
    ensures
        try_candidates(sm, table, col, cands, confidence, i)[r].table_name == table,
        try_candidates(sm, table, col, cands, confidence, i)[r].column_name == col.name,
        try_candidates(sm, table, col, cands, confidence, i)[r].relationship_type
            == "inferred"@,
        try_candidates(sm, table, col, cands, confidence, i)[r].constraint_name is None,
        try_candidates(sm, table, col, cands, confidence, i)[r].confidence == Some(confidence),
    decreases cands.len() - i,
{
    if 0 <= i < cands.len() {
        if spec_lookup_pk(sm, cands[i], col.data_type, 0) is None {
            lemma_try_candidates_record(sm, table, col, cands, confidence, i + 1, r);
        }
    }
}

proof fn lemma_rule_c_record(
    sm: Seq<TableSchemaModel>,
    table: Seq<char>,
    col: ColumnModel,
    k: int,
    r: int,
)
    requires
        0 <= r < rule_c(sm, table, col, k).len(),
    ensures
        rule_c(sm, table, col, k)[r].table_name == table,
        rule_c(sm, table, col, k)[r].column_name == col.name,
        rule_c(sm, table, col, k)[r].relationship_type == "inferred"@,
        rule_c(sm, table, col, k)[r].constraint_name is None,
        rule_c(sm, table, col, k)[r].confidence == Some("low"@),
    decreases sm.len() - k,
{
    if 0 <= k < sm.len() {
        let head = if rule_c_matches(lower_seq(col.name), sm[k].table_name) {
            match first_pk_compat(sm[k].columns, col.data_type, 0) {
                Some(pk) => seq![
                    inferred_record(table, col.name, sm[k].table_name, pk.name, "low"@),
                ],
                None => Seq::<RelationshipModel>::empty(),
            }
        } else {
            Seq::<RelationshipModel>::empty()
        };
        if r >= head.len() {
            lemma_rule_c_record(sm, table, col, k + 1, r - head.len());
        }
    }
}

proof fn lemma_column_record(
    sm: Seq<TableSchemaModel>,
    table: Seq<char>,
    col: ColumnModel,
    r: int,
)
    requires
        0 <= r < inferred_for_column(sm, table, col).len(),
    ensures
        inferred_for_column(sm, table, col)[r].table_name == table,
        inferred_for_column(sm, table, col)[r].column_name == col.name,
        !col.is_primary_key,
        record_is_tagged_inferred(inferred_for_column(sm, table, col)[r]),
{
    let ra = rule_a(sm, table, col);
    let rb = rule_b(sm, table, col);
    let rc = rule_c(sm, table, col, 0);
    if r < ra.len() {
        let low = lower_seq(col.name);
        if ends_with(low, "_id"@) {
            let stem = low.subrange(0, low.len() - 3);
            lemma_try_candidates_record(
                sm,
                table,
                col,
                seq![stem, stem + "s"@, stem + "es"@],
                "high"@,
                0,
                r,
            );
        }
    } else if r < ra.len() + rb.len() {
        let low = lower_seq(col.name);
        if ends_with(low, "id"@) && low != "id"@ {
            let stem = low.subrange(0, low.len() - 2);
            lemma_try_candidates_record(
                sm,
                table,
                col,
                seq![stem, stem + "s"@],
                "medium"@,
                0,
                r - ra.len(),
            );
        }
    } else {
        lemma_rule_c_record(sm, table, col, 0, r - ra.len() - rb.len());
    }
}

proof fn lemma_schema_origin(sm: Seq<TableSchemaModel>, s: TableSchemaModel, i: int, r: int) -> (
    ci: int)
    requires
        0 <= i,
        0 <= r < infer_for_schema(sm, s, i).len(),
    ensures
        i <= ci < s.columns.len(),
        infer_for_schema(sm, s, i)[r].table_name == s.table_name,
        infer_for_schema(sm, s, i)[r].column_name == s.columns[ci].name,
        !s.columns[ci].is_primary_key,
        record_is_tagged_inferred(infer_for_schema(sm, s, i)[r]),
    decreases s.columns.len() - i,
{
    let head = inferred_for_column(sm, s.table_name, s.columns[i]);
    if r < head.len() {
        lemma_column_record(sm, s.table_name, s.columns[i], r);
        i
    } else {
        lemma_schema_origin(sm, s, i + 1, r - head.len())
    }
}

proof fn lemma_infer_origin(sm: Seq<TableSchemaModel>, k: int, r: int) -> (res: (int, int))
    requires
        0 <= k,
        0 <= r < infer_spec_from(sm, k).len(),
    ensures
        ({
            let (kk, ci) = res;
            &&& k <= kk < sm.len()
            &&& 0 <= ci < sm[kk].columns.len()
            &&& infer_spec_from(sm, k)[r].table_name == sm[kk].table_name
            &&& infer_spec_from(sm, k)[r].column_name == sm[kk].columns[ci].name
            &&& !sm[kk].columns[ci].is_primary_key
            &&& record_is_tagged_inferred(infer_spec_from(sm, k)[r])
        }),
    decreases sm.len() - k,
{
    let head = infer_for_schema(sm, sm[k], 0);
    if r < head.len() {
        let ci = lemma_schema_origin(sm, sm[k], 0, r);
        (k, ci)
    } else {
        lemma_infer_origin(sm, k + 1, r - head.len())
    }
}

/// Every record inference proposes is advisory: tagged `inferred`, with no
/// constraint name, and ranked `high`, `medium` or `low`.
pub proof fn lemma_inference_records_are_tagged(sm: Seq<TableSchemaModel>, r: int)
    requires
        0 <= r < infer_spec(sm).len(),
    ensures
        record_is_tagged_inferred(infer_spec(sm)[r]),
{
    let (kk, ci) = lemma_infer_origin(sm, 0, r);
}

/// Inference never proposes a relationship whose referencing column is a
/// primary key of its own table: every proposed record's referencing column
/// names a non-key column, and (given unique table and column names) no
/// primary-key column of that table shares the name.
pub proof fn lemma_inference_never_from_primary_key(sm: Seq<TableSchemaModel>, r: int, k: int)
    requires
        distinct_table_names_in(sm),
        forall|i: int| 0 <= i < sm.len() ==> wf_schema(#[trigger] sm[i]),
        0 <= r < infer_spec(sm).len(),
        0 <= k < sm.len(),
        infer_spec(sm)[r].table_name == sm[k].table_name,
    ensures
        !is_pk_column_of(sm[k], infer_spec(sm)[r].column_name),
{
    let (kk, ci) = lemma_infer_origin(sm, 0, r);
    assert(kk == k);
    if is_pk_column_of(sm[k], infer_spec(sm)[r].column_name) {
        let j = choose|j: int|
            0 <= j < sm[k].columns.len() && sm[k].columns[j].name == infer_spec(sm)[r].column_name
                && sm[k].columns[j].is_primary_key;
        assert(wf_schema(sm[k]));
        assert(j != ci);
        assert(sm[k].columns[j].name == sm[k].columns[ci].name);
        assert(false);
    }
}

} // verus!
