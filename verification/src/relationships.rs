//! The explicit relationship extractor: declared foreign-key constraints,
//! read per dialect and turned into uniform `Relationship` records.
//!
//! Catalog dialects answer one whole-database constraint query; the
//! embedded dialect answers only per-table introspection calls, whose
//! results are flattened here. Embedded-dialect rows never carry a
//! constraint name.

use vstd::prelude::*;
use crate::types::{Relationship, RelationshipModel};

verus! {

/// One raw row of a catalog dialect's foreign-key constraint query.
#[derive(Debug, Clone)]
pub struct ForeignKeyRow {
    pub table_name: String,
    pub column_name: String,
    pub foreign_table: String,
    pub foreign_column: String,
    pub constraint_name: String,
}

#[verifier::ext_equal]
pub ghost struct ForeignKeyRowModel {
    pub table_name: Seq<char>,
    pub column_name: Seq<char>,
    pub foreign_table: Seq<char>,
    pub foreign_column: Seq<char>,
    pub constraint_name: Seq<char>,
}

impl View for ForeignKeyRow {
    type V = ForeignKeyRowModel;

    open spec fn view(&self) -> ForeignKeyRowModel {
        ForeignKeyRowModel {
            table_name: self.table_name@,
            column_name: self.column_name@,
            foreign_table: self.foreign_table@,
            foreign_column: self.foreign_column@,
            constraint_name: self.constraint_name@,
        }
    }
}

/// The declared-foreign-key record a catalog row maps to.
pub open spec fn catalog_fk_spec(row: ForeignKeyRowModel) -> RelationshipModel {
    RelationshipModel {
        table_name: row.table_name,
        column_name: row.column_name,
        foreign_table: row.foreign_table,
        foreign_column: row.foreign_column,
        constraint_name: Some(row.constraint_name),
        relationship_type: "foreign_key"@,
        confidence: None,
    }
}

/// One `Relationship` per constraint row, in row order, each tagged
/// `foreign_key` with its constraint name and no confidence.
pub fn relationships_from_catalog_rows(rows: &Vec<ForeignKeyRow>) -> (r: Vec<Relationship>)
    ensures
        r@.len() == rows@.len(),
        forall|i: int| 0 <= i < rows@.len() ==> (#[trigger] r@[i])@ == catalog_fk_spec(rows@[i]@),
{
    let mut out: Vec<Relationship> = Vec::new();
    let mut i: usize = 0;
    while i < rows.len()
        invariant
            i <= rows@.len(),
            out@.len() == i,
            forall|j: int| 0 <= j < i ==> (#[trigger] out@[j])@ == catalog_fk_spec(rows@[j]@),
        decreases rows@.len() - i,
    {
        let row = &rows[i];
        let rel = Relationship {
            table_name: row.table_name.clone(),
            column_name: row.column_name.clone(),
            foreign_table: row.foreign_table.clone(),
            foreign_column: row.foreign_column.clone(),
            constraint_name: Some(row.constraint_name.clone()),
            relationship_type: String::from_str("foreign_key"),
            confidence: None,
        };
        proof {
            assert(rel@ =~= catalog_fk_spec(rows@[i as int]@));
        }
        out.push(rel);
        i = i + 1;
    }
    out
}

/// One raw row of the embedded dialect's per-table foreign-key
/// introspection: the referenced table, the referencing column of the
/// introspected table, and the referenced column.
#[derive(Debug, Clone)]
pub struct PragmaForeignKeyRow {
    pub foreign_table: String,
    pub from_column: String,
    pub to_column: String,
}

#[verifier::ext_equal]
pub ghost struct PragmaForeignKeyRowModel {
    pub foreign_table: Seq<char>,
    pub from_column: Seq<char>,
    pub to_column: Seq<char>,
}

impl View for PragmaForeignKeyRow {
    type V = PragmaForeignKeyRowModel;

    open spec fn view(&self) -> PragmaForeignKeyRowModel {
        PragmaForeignKeyRowModel {
            foreign_table: self.foreign_table@,
            from_column: self.from_column@,
            to_column: self.to_column@,
        }
    }
}

/// The per-table foreign-key rows of one embedded-dialect table.
#[derive(Debug, Clone)]
pub struct TableForeignKeys {
    pub table_name: String,
    pub foreign_keys: Vec<PragmaForeignKeyRow>,
}

#[verifier::ext_equal]
pub ghost struct TableForeignKeysModel {
    pub table_name: Seq<char>,
    pub foreign_keys: Seq<PragmaForeignKeyRowModel>,
}

impl View for TableForeignKeys {
    type V = TableForeignKeysModel;

    open spec fn view(&self) -> TableForeignKeysModel {
        TableForeignKeysModel {
            table_name: self.table_name@,
            foreign_keys: Seq::new(
                self.foreign_keys@.len(),
                |i: int| self.foreign_keys@[i]@,
            ),
        }
    }
}

/// The relationship record for one pragma row of table `t`: tagged
/// `foreign_key`, no constraint name (the embedded dialect has none), no
/// confidence.
pub open spec fn pragma_fk_spec(t: Seq<char>, row: PragmaForeignKeyRowModel) -> RelationshipModel {
    RelationshipModel {
        table_name: t,
        column_name: row.from_column,
        foreign_table: row.foreign_table,
        foreign_column: row.to_column,
        constraint_name: None,
        relationship_type: "foreign_key"@,
        confidence: None,
    }
}

/// The records of one table's pragma rows, in row order.
pub open spec fn pragma_table_records(t: TableForeignKeysModel) -> Seq<RelationshipModel> {
    Seq::new(t.foreign_keys.len(), |i: int| pragma_fk_spec(t.table_name, t.foreign_keys[i]))
}

/// All records of the per-table results, table order then row order, from
/// table index `k` on.
pub open spec fn pragma_records_from(tables: Seq<TableForeignKeysModel>, k: int) -> Seq<
    RelationshipModel,
>
    decreases tables.len() - k,
{
    if 0 <= k < tables.len() {
        pragma_table_records(tables[k]) + pragma_records_from(tables, k + 1)
    } else {
        Seq::empty()
    }
}

pub open spec fn pragma_records(tables: Seq<TableForeignKeysModel>) -> Seq<RelationshipModel> {
    pragma_records_from(tables, 0)
}

/// Flatten the embedded dialect's per-table foreign-key results into one
/// relationship list. A table with no foreign keys contributes nothing.
pub fn relationships_from_pragma_rows(tables: &Vec<TableForeignKeys>) -> (r: Vec<Relationship>)
    ensures
        r@.map_values(|x: Relationship| x@) == pragma_records(
            tables@.map_values(|t: TableForeignKeys| t@),
        ),
{
    let ghost tm = tables@.map_values(|t: TableForeignKeys| t@);
    let mut out: Vec<Relationship> = Vec::new();
    let mut k: usize = 0;
    while k < tables.len()
        invariant
            k <= tables@.len(),
            tm == tables@.map_values(|t: TableForeignKeys| t@),
            tm.len() == tables@.len(),
            pragma_records(tm) =~= out@.map_values(|x: Relationship| x@) + pragma_records_from(
                tm,
                k as int,
            ),
        decreases tables@.len() - k,
    {
        proof {
            assert(tm[k as int] == tables@[k as int]@);
        }
        let fks = &tables[k].foreign_keys;
        let mut i: usize = 0;
        while i < fks.len()
            invariant
                i <= fks@.len(),
                k < tables@.len(),
                tm == tables@.map_values(|t: TableForeignKeys| t@),
                tm.len() == tables@.len(),
                tm[k as int] == tables@[k as int]@,
                fks == &tables@[k as int].foreign_keys,
                tm[k as int].foreign_keys.len() == fks@.len(),
                pragma_records(tm) =~= out@.map_values(|x: Relationship| x@)
                    + pragma_table_records(tm[k as int]).skip(i as int) + pragma_records_from(
                    tm,
                    k + 1,
                ),
            decreases fks@.len() - i,
        {
            proof {
                assert(tm[k as int].foreign_keys[i as int] == fks@[i as int]@);
            }
            let row = &fks[i];
            let rel = Relationship {
                table_name: tables[k].table_name.clone(),
                column_name: row.from_column.clone(),
                foreign_table: row.foreign_table.clone(),
                foreign_column: row.to_column.clone(),
                constraint_name: None,
                relationship_type: String::from_str("foreign_key"),
                confidence: None,
            };
            proof {
                assert(rel@ =~= pragma_fk_spec(
                    tm[k as int].table_name,
                    tm[k as int].foreign_keys[i as int],
                ));
                assert(pragma_table_records(tm[k as int]).skip(i as int) =~= seq![
                    pragma_table_records(tm[k as int])[i as int],
                ] + pragma_table_records(tm[k as int]).skip(i + 1));
            }
            out.push(rel);
            i = i + 1;
        }
        proof {
            assert(pragma_table_records(tm[k as int]).skip(i as int) =~= Seq::<
                RelationshipModel,
            >::empty());
        }
        k = k + 1;
    }
    proof {
        assert(out@.map_values(|x: Relationship| x@) =~= pragma_records(tm));
    }
    out
}

/// The caller-facing relationship list: every explicit foreign key first,
/// then every inferred proposal, neither list deduplicated against the
/// other.
pub fn combine_relationships(explicit: Vec<Relationship>, inferred: Vec<Relationship>) -> (r: Vec<
    Relationship,
>)
    ensures
        r@ == explicit@ + inferred@,
{
    let mut out = explicit;
    let mut tail = inferred;
    out.append(&mut tail);
    out
}

} // verus!
