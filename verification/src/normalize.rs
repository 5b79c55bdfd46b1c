//! The schema normalizer: turns dialect-specific metadata rows into the
//! uniform `TableSchema` / `ColumnInfo` model.
//!
//! The three dialects encode nullability and primary-key membership in
//! incompatible ways: the embedded dialect reports an inverted not-null
//! flag and a key rank integer, while the catalog dialects report a yes/no
//! string and a derived flag. Everything is normalized to two booleans.

use vstd::prelude::*;
use crate::text::{chars_of, eq_str, upper_chars, upper_seq};
use crate::types::{ColumnInfo, ColumnModel, DatabaseType, TableInfo, TableSchema};

verus! {

/// One raw row of the embedded dialect's per-table column introspection
/// command: `not_null` is an inverted nullability flag and `pk_rank` is the
/// column's position in the primary key, `0` meaning "not a key column".
#[derive(Debug, Clone)]
pub struct EmbeddedColumnRow {
    pub name: String,
    pub declared_type: String,
    pub not_null: i64,
    pub pk_rank: i64,
    pub default_value: Option<String>,
}

#[verifier::ext_equal]
pub ghost struct EmbeddedColumnRowModel {
    pub name: Seq<char>,
    pub declared_type: Seq<char>,
    pub not_null: i64,
    pub pk_rank: i64,
    pub default_value: Option<Seq<char>>,
}

impl View for EmbeddedColumnRow {
    type V = EmbeddedColumnRowModel;

    open spec fn view(&self) -> EmbeddedColumnRowModel {
        EmbeddedColumnRowModel {
            name: self.name@,
            declared_type: self.declared_type@,
            not_null: self.not_null,
            pk_rank: self.pk_rank,
            default_value: self.default_value.deep_view(),
        }
    }
}

/// One raw row of a catalog-dialect column query. `is_nullable` is the
/// catalog's yes/no string; `pk_flag` is nonzero when the column belongs to
/// the table's primary key.
#[derive(Debug, Clone)]
pub struct CatalogColumnRow {
    pub table_name: String,
    pub column_name: String,
    pub data_type: String,
    pub is_nullable: String,
    pub column_default: Option<String>,
    pub pk_flag: i64,
}

#[verifier::ext_equal]
pub ghost struct CatalogColumnRowModel {
    pub table_name: Seq<char>,
    pub column_name: Seq<char>,
    pub data_type: Seq<char>,
    pub is_nullable: Seq<char>,
    pub column_default: Option<Seq<char>>,
    pub pk_flag: i64,
}

impl View for CatalogColumnRow {
    type V = CatalogColumnRowModel;

    open spec fn view(&self) -> CatalogColumnRowModel {
        CatalogColumnRowModel {
            table_name: self.table_name@,
            column_name: self.column_name@,
            data_type: self.data_type@,
            is_nullable: self.is_nullable@,
            column_default: self.column_default.deep_view(),
            pk_flag: self.pk_flag,
        }
    }
}

/// The uniform column a raw embedded-dialect row normalizes to: nullable
/// unless the not-null flag is set, key column when the rank is positive.
pub open spec fn embedded_column_spec(row: EmbeddedColumnRowModel) -> ColumnModel {
    ColumnModel {
        name: row.name,
        data_type: row.declared_type,
        is_nullable: row.not_null == 0,
        is_primary_key: row.pk_rank > 0,
        default_value: row.default_value,
    }
}

/// A yes/no catalog string counts as "yes" when it upper-cases to `YES`.
pub open spec fn spec_is_yes(s: Seq<char>) -> bool {
    upper_seq(s) == "YES"@
}

/// The uniform column a raw catalog row normalizes to.
pub open spec fn catalog_column_spec(row: CatalogColumnRowModel) -> ColumnModel {
    ColumnModel {
        name: row.column_name,
        data_type: row.data_type,
        is_nullable: spec_is_yes(row.is_nullable),
        is_primary_key: row.pk_flag > 0,
        default_value: row.column_default,
    }
}

pub fn is_yes(s: &str) -> (r: bool)
    ensures
        r == spec_is_yes(s@),
{
    let cs = chars_of(s);
    let up = upper_chars(&cs);
    eq_str(&up, "YES")
}

/// Normalize one embedded-dialect row into a `ColumnInfo`.
pub fn column_from_embedded_row(row: &EmbeddedColumnRow) -> (r: ColumnInfo)
    ensures
        r@ == embedded_column_spec(row@),
{
    ColumnInfo {
        name: row.name.clone(),
        data_type: row.declared_type.clone(),
        is_nullable: row.not_null == 0,
        is_primary_key: row.pk_rank > 0,
        default_value: clone_opt_string(&row.default_value),
    }
}

/// Normalize one catalog row into a `ColumnInfo`.
pub fn column_from_catalog_row(row: &CatalogColumnRow) -> (r: ColumnInfo)
    ensures
        r@ == catalog_column_spec(row@),
{
    ColumnInfo {
        name: row.column_name.clone(),
        data_type: row.data_type.clone(),
        is_nullable: is_yes(row.is_nullable.as_str()),
        is_primary_key: row.pk_flag > 0,
        default_value: clone_opt_string(&row.column_default),
    }
}

pub fn clone_opt_string(s: &Option<String>) -> (r: Option<String>)
    ensures
        r.deep_view() == s.deep_view(),
{
    match s {
        Some(v) => Some(v.clone()),
        None => None,
    }
}

/// The schema of one embedded-dialect table: one `ColumnInfo` per raw row,
/// in row order, with no namespace.
pub fn schema_from_embedded_rows(table_name: &str, rows: &Vec<EmbeddedColumnRow>) -> (r:
    TableSchema)
    ensures
        r@.table_name == table_name@,
        r@.schema is None,
        r@.columns.len() == rows@.len(),
        forall|i: int| 0 <= i < rows@.len() ==> r@.columns[i] == embedded_column_spec(
            #[trigger] rows@[i]@,
        ),
{
    let mut columns: Vec<ColumnInfo> = Vec::new();
    let mut i: usize = 0;
    while i < rows.len()
        invariant
            i <= rows@.len(),
            columns@.len() == i,
            forall|j: int| 0 <= j < i ==> columns@[j]@ == embedded_column_spec(
                #[trigger] rows@[j]@,
            ),
        decreases rows@.len() - i,
    {
        columns.push(column_from_embedded_row(&rows[i]));
        i = i + 1;
    }
    TableSchema { table_name: String::from_str(table_name), schema: None, columns }
}

/// The distinct table names occurring in `rows`, in order of first
/// appearance.
pub open spec fn distinct_table_names(rows: Seq<CatalogColumnRowModel>) -> Seq<Seq<char>>
    decreases rows.len(),
{
    if rows.len() == 0 {
        Seq::empty()
    } else {
        let prev = distinct_table_names(rows.drop_last());
        if prev.contains(rows.last().table_name) {
            prev
        } else {
            prev.push(rows.last().table_name)
        }
    }
}

/// The rows that belong to table `t`.
pub open spec fn same_table(t: Seq<char>) -> spec_fn(CatalogColumnRowModel) -> bool {
    |r: CatalogColumnRowModel| r.table_name == t
}

/// The normalized columns of table `t`, in row order.
pub open spec fn columns_of_table(rows: Seq<CatalogColumnRowModel>, t: Seq<char>) -> Seq<
    ColumnModel,
> {
    rows.filter(same_table(t)).map_values(|r: CatalogColumnRowModel| catalog_column_spec(r))
}

pub open spec fn row_models(rows: Seq<CatalogColumnRow>) -> Seq<CatalogColumnRowModel> {
    rows.map_values(|r: CatalogColumnRow| r@)
}

/// Group multi-table catalog rows back into one `TableSchema` per distinct
/// table name (keyed by the raw name string, case as returned), columns in
/// row order, each schema carrying the requested namespace.
pub fn group_catalog_rows(rows: &Vec<CatalogColumnRow>, namespace: &Option<String>) -> (r: Vec<
    TableSchema,
>)
    ensures
        r@.len() == distinct_table_names(row_models(rows@)).len(),
        forall|k: int| 0 <= k < r@.len() ==> {
            &&& (#[trigger] r@[k])@.table_name == distinct_table_names(row_models(rows@))[k]
            &&& r@[k]@.schema == namespace.deep_view()
            &&& r@[k]@.columns == columns_of_table(
                row_models(rows@),
                distinct_table_names(row_models(rows@))[k],
            )
        },
{
    let names = distinct_names(rows);
    let mut out: Vec<TableSchema> = Vec::new();
    let mut k: usize = 0;
    while k < names.len()
        invariant
            k <= names@.len(),
            out@.len() == k,
            names@.map_values(|n: String| n@) =~= distinct_table_names(row_models(rows@)),
            forall|m: int| 0 <= m < k ==> {
                &&& (#[trigger] out@[m])@.table_name == names@[m]@
                &&& out@[m]@.schema == namespace.deep_view()
                &&& out@[m]@.columns == columns_of_table(row_models(rows@), names@[m]@)
            },
        decreases names@.len() - k,
    {
        let columns = collect_columns(rows, &names[k]);
        out.push(
            TableSchema {
                table_name: names[k].clone(),
                schema: clone_opt_string(namespace),
                columns,
            },
        );
        k = k + 1;
    }
    out
}

/// The distinct table names of `rows`, first appearance first.
fn distinct_names(rows: &Vec<CatalogColumnRow>) -> (names: Vec<String>)
    ensures
        names@.map_values(|n: String| n@) =~= distinct_table_names(row_models(rows@)),
{
    let mut names: Vec<String> = Vec::new();
    let mut i: usize = 0;
    while i < rows.len()
        invariant
            i <= rows@.len(),
            names@.map_values(|n: String| n@) =~= distinct_table_names(
                row_models(rows@.subrange(0, i as int)),
            ),
        decreases rows@.len() - i,
    {
        proof {
            assert(row_models(rows@.subrange(0, i + 1)).drop_last() =~= row_models(
                rows@.subrange(0, i as int),
            ));
            assert(row_models(rows@.subrange(0, i + 1)).last() == rows@[i as int]@);
        }
        let mut seen: bool = false;
        let mut j: usize = 0;
        while j < names.len()
            invariant
                j <= names@.len(),
                seen == exists|m: int| 0 <= m < j && names@[m]@ == rows@[i as int].table_name@,
                i < rows@.len(),
            decreases names@.len() - j,
        {
            if names[j] == rows[i].table_name {
                seen = true;
            }
            j = j + 1;
        }
        proof {
            let prev = names@.map_values(|n: String| n@);
            if seen {
                let m = choose|m: int|
                    0 <= m < names@.len() && names@[m]@ == rows@[i as int].table_name@;
                assert(prev[m] == names@[m]@);
                assert(prev.contains(rows@[i as int]@.table_name));
            } else {
                assert forall|m: int| 0 <= m < prev.len() implies prev[m] != rows@[
                    i as int
                ]@.table_name by {
                    assert(names@[m]@ == prev[m]);
                }
                assert(!prev.contains(rows@[i as int]@.table_name));
            }
        }
        if !seen {
            names.push(rows[i].table_name.clone());
        }
        proof {
            assert(names@.map_values(|n: String| n@) =~= distinct_table_names(
                row_models(rows@.subrange(0, i + 1)),
            ));
        }
        i = i + 1;
    }
    proof {
        assert(rows@.subrange(0, rows@.len() as int) =~= rows@);
    }
    names
}

/// The normalized columns of every row whose table name equals `name`, in
/// row order.
fn collect_columns(rows: &Vec<CatalogColumnRow>, name: &String) -> (columns: Vec<ColumnInfo>)
    ensures
        columns@.map_values(|c: ColumnInfo| c@) =~= columns_of_table(row_models(rows@), name@),
{
    let mut columns: Vec<ColumnInfo> = Vec::new();
    let mut i: usize = 0;
    while i < rows.len()
        invariant
            i <= rows@.len(),
            columns@.map_values(|c: ColumnInfo| c@) =~= columns_of_table(
                row_models(rows@.subrange(0, i as int)),
                name@,
            ),
        decreases rows@.len() - i,
    {
        let ghost prev_m = row_models(rows@.subrange(0, i as int));
        let ghost cur_m = row_models(rows@.subrange(0, i + 1));
        proof {
            reveal(Seq::filter);
            assert(cur_m.drop_last() =~= prev_m);
            assert(cur_m.last() == rows@[i as int]@);
        }
        if rows[i].table_name == *name {
            let ghost cols_before = columns@;
            let col = column_from_catalog_row(&rows[i]);
            let ghost col_m = col@;
            columns.push(col);
            proof {
                assert(same_table(name@)(cur_m.last()));
                assert(cur_m.filter(same_table(name@)) == prev_m.filter(same_table(name@)).push(
                    cur_m.last(),
                ));
                let lhs = columns@.map_values(|c: ColumnInfo| c@);
                let rhs = columns_of_table(cur_m, name@);
                let prev_lhs = cols_before.map_values(|c: ColumnInfo| c@);
                let prev_rhs = columns_of_table(prev_m, name@);
                assert(columns@ == cols_before.push(col));
                assert(lhs.len() == cols_before.len() + 1);
                assert(prev_lhs.len() == cols_before.len());
                assert(prev_lhs.len() == prev_rhs.len());
                assert(prev_rhs.len() == prev_m.filter(same_table(name@)).len());
                assert(rhs.len() == prev_m.filter(same_table(name@)).len() + 1);
                assert(lhs.len() == rhs.len());
                assert forall|m: int| 0 <= m < lhs.len() implies lhs[m] == rhs[m] by {
                    if m < lhs.len() - 1 {
                        assert(prev_lhs[m] == rhs[m]);
                        assert(lhs[m] == prev_lhs[m]);
                    } else {
                        assert(lhs[m] == col_m);
                        assert(rhs[m] == catalog_column_spec(cur_m.last()));
                    }
                }
                assert(lhs =~= rhs);
            }
        } else {
            proof {
                assert(!same_table(name@)(cur_m.last()));
                assert(cur_m.filter(same_table(name@)) == prev_m.filter(same_table(name@)));
                assert(columns@.map_values(|c: ColumnInfo| c@) =~= columns_of_table(cur_m, name@));
            }
        }
        i = i + 1;
    }
    proof {
        assert(rows@.subrange(0, rows@.len() as int) =~= rows@);
    }
    columns
}

/// One raw row of a table-list query: the table's name, and its namespace
/// where the dialect has one.
#[derive(Debug, Clone)]
pub struct TableListRow {
    pub table_name: String,
    pub table_schema: Option<String>,
}

/// The caller-facing table list: one entry per raw row, namespace dropped
/// for the embedded dialect, row counting deferred.
pub fn tables_from_rows(db_type: DatabaseType, rows: &Vec<TableListRow>) -> (r: Vec<TableInfo>)
    ensures
        r@.len() == rows@.len(),
        forall|i: int| 0 <= i < rows@.len() ==> {
            &&& (#[trigger] r@[i])@.name == rows@[i].table_name@
            &&& r@[i]@.schema == if db_type is SQLite {
                None::<Seq<char>>
            } else {
                rows@[i].table_schema.deep_view()
            }
            &&& r@[i]@.row_count is None
        },
{
    let mut out: Vec<TableInfo> = Vec::new();
    let mut i: usize = 0;
    while i < rows.len()
        invariant
            i <= rows@.len(),
            out@.len() == i,
            forall|j: int| 0 <= j < i ==> {
                &&& (#[trigger] out@[j])@.name == rows@[j].table_name@
                &&& out@[j]@.schema == if db_type is SQLite {
                    None::<Seq<char>>
                } else {
                    rows@[j].table_schema.deep_view()
                }
                &&& out@[j]@.row_count is None
            },
        decreases rows@.len() - i,
    {
        let schema: Option<String> = if matches!(db_type, DatabaseType::SQLite) {
            None
        } else {
            clone_opt_string(&rows[i].table_schema)
        };
        out.push(TableInfo { name: rows[i].table_name.clone(), schema, row_count: None });
        i = i + 1;
    }
    out
}

} // verus!
