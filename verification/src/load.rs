use vstd::prelude::*;
use vstd::string::StringExecFns;

use diesel::sqlite::SqliteConnection;

use crate::catalog::{
    query_columns, query_foreign_keys, query_table_names, RawColumn, RawForeignKey,
};
use crate::error::LoadError;
use crate::model::{Column, ForeignKey, Schema, Table};

verus! {

/// The name of the internal sequence-tracking table, which the loader
/// excludes from every schema.
pub open spec fn spec_internal_name() -> Seq<char> {
    "sqlite_sequence"@
}

/// The catalog's table list with the internal sequence-tracking table
/// removed; the enumeration order of everything else is kept.
pub open spec fn spec_visible_names(names: Seq<String>) -> Seq<String>
    decreases names.len(),
{
    if names.len() == 0 {
        Seq::empty()
    } else {
        let rest = spec_visible_names(names.drop_last());
        if names.last()@ == spec_internal_name() {
            rest
        } else {
            rest.push(names.last())
        }
    }
}

/// No name the filter lets through is the internal one.
pub proof fn lemma_visible_names_no_internal(names: Seq<String>)
    ensures
        forall|k: int|
            0 <= k < spec_visible_names(names).len() ==> spec_visible_names(names)[k]@
                != spec_internal_name(),
    decreases names.len(),
{
    if names.len() > 0 {
        lemma_visible_names_no_internal(names.drop_last());
        let rest = spec_visible_names(names.drop_last());
        if names.last()@ != spec_internal_name() {
            assert(forall|k: int|
                0 <= k < rest.len() ==> rest.push(names.last())[k]@ != spec_internal_name());
            assert(rest.push(names.last())[rest.len() as int]@ != spec_internal_name());
        }
    }
}

/// When the catalog's names are pairwise distinct, so are the filtered ones;
/// and each filtered name is one of the catalog's.
pub proof fn lemma_visible_names_distinct(names: Seq<String>)
    requires
        forall|i: int, j: int| 0 <= i < j < names.len() ==> names[i]@ != names[j]@,
    ensures
        forall|k: int|
            0 <= k < spec_visible_names(names).len() ==> names.contains(
                #[trigger] spec_visible_names(names)[k],
            ),
        forall|i: int, j: int|
            0 <= i < j < spec_visible_names(names).len() ==> spec_visible_names(names)[i]@
                != spec_visible_names(names)[j]@,
    decreases names.len(),
{
    if names.len() > 0 {
        let prev = names.drop_last();
        lemma_visible_names_distinct(prev);
        let rest = spec_visible_names(prev);
        let vis = spec_visible_names(names);
        assert forall|k: int| 0 <= k < rest.len() implies names.contains(#[trigger] rest[k]) by {
            assert(prev.contains(rest[k]));
            let m0 = choose|m0: int| 0 <= m0 < prev.len() && prev[m0] == rest[k];
            assert(names[m0] == rest[k]);
        }
        if names.last()@ != spec_internal_name() {
            assert(vis == rest.push(names.last()));
            assert(names[names.len() - 1] == vis[vis.len() - 1]);
            assert(names.contains(vis[vis.len() - 1]));
            assert forall|i: int, j: int| 0 <= i < j < vis.len() implies vis[i]@ != vis[j]@ by {
                if j == vis.len() - 1 {
                    assert(prev.contains(rest[i]));
                    let m0 = choose|m0: int| 0 <= m0 < prev.len() && prev[m0] == rest[i];
                    assert(vis[i] == names[m0]);
                    assert(names[m0]@ != names[names.len() - 1]@);
                }
            }
        }
    }
}

/// A catalog that lists nothing but the internal sequence-tracking table
/// yields no visible tables at all, so (with the renderer's contract) such a
/// database renders as an empty graph: header and closer, no nodes, no
/// edges.
pub proof fn lemma_internal_only_is_empty(names: Seq<String>)
    requires
        forall|k: int| 0 <= k < names.len() ==> names[k]@ == spec_internal_name(),
    ensures
        spec_visible_names(names).len() == 0,
    decreases names.len(),
{
    if names.len() > 0 {
        lemma_internal_only_is_empty(names.drop_last());
    }
}

/// Drops the internal sequence-tracking table from the catalog's table list.
pub fn visible_names(names: Vec<String>) -> (r: Vec<String>)
    ensures
        r@ == spec_visible_names(names@),
{
    let internal: String = String::from_str("sqlite_sequence");
    let mut out: Vec<String> = Vec::new();
    let n = names.len();
    let mut i: usize = 0;
    while i < n
        invariant
            i <= n,
            n == names@.len(),
            internal@ == spec_internal_name(),
            out@ == spec_visible_names(names@.take(i as int)),
        decreases n - i,
    {
        proof {
            let taken = names@.take(i + 1);
            assert(taken.drop_last() =~= names@.take(i as int));
            assert(taken.last() == names@[i as int]);
        }
        if !names[i].eq(&internal) {
            out.push(names[i].clone());
        }
        i = i + 1;
    }
    proof {
        assert(names@.take(n as int) =~= names@);
    }
    out
}

/// The domain column one raw catalog row stands for: `nullable` is the
/// negation of the not-null flag, and `primary` is set exactly when the
/// column has a position within the primary key. Name, type, and default
/// pass through unmodified, even when the type string is empty.
pub open spec fn spec_column_of(raw: RawColumn) -> Column {
    Column {
        name: raw.0,
        typ: raw.1,
        nullable: raw.2 == 0,
        default: raw.3,
        primary: raw.4 != 0,
    }
}

/// The domain foreign key one raw catalog row stands for, with
/// `source_table` set to the table whose catalog entry listed it.
pub open spec fn spec_foreign_key_of(source_table: String, raw: RawForeignKey) -> ForeignKey {
    ForeignKey { target_table: raw.0, target_column: raw.2, source_table, source_column: raw.1 }
}

/// Clones an optional default expression.
fn clone_opt(o: &Option<String>) -> (r: Option<String>)
    ensures
        r == *o,
{
    match o {
        Some(s) => Some(s.clone()),
        None => None,
    }
}

/// Maps one raw `pragma_table_info` row to the domain model.
pub fn column_of(raw: &RawColumn) -> (c: Column)
    ensures
        c == spec_column_of(*raw),
{
    Column {
        name: raw.0.clone(),
        typ: raw.1.clone(),
        nullable: raw.2 == 0,
        default: clone_opt(&raw.3),
        primary: raw.4 != 0,
    }
}

/// Maps one raw `pragma_foreign_key_list` row to the domain model.
pub fn foreign_key_of(source_table: &String, raw: &RawForeignKey) -> (k: ForeignKey)
    ensures
        k == spec_foreign_key_of(*source_table, *raw),
{
    ForeignKey {
        target_table: raw.0.clone(),
        target_column: clone_opt(&raw.2),
        source_table: source_table.clone(),
        source_column: raw.1.clone(),
    }
}

/// Assembles one table from its name and its two catalog row sets: one
/// domain column per raw column row and one domain foreign key per raw key
/// row, each in catalog order, every key's source being this table.
pub fn table_of(name: String, cols: &Vec<RawColumn>, keys: &Vec<RawForeignKey>) -> (t: Table)
    ensures
        t.name == name,
        t.columns@.len() == cols@.len(),
        forall|k: int| 0 <= k < cols@.len() ==> t.columns@[k] == spec_column_of(cols@[k]),
        t.foreign_keys@.len() == keys@.len(),
        forall|k: int|
            0 <= k < keys@.len() ==> t.foreign_keys@[k] == spec_foreign_key_of(name, keys@[k]),
{
    let mut columns: Vec<Column> = Vec::new();
    let n = cols.len();
    let mut i: usize = 0;
    while i < n
        invariant
            i <= n,
            n == cols@.len(),
            columns@.len() == i,
            forall|k: int| 0 <= k < i ==> columns@[k] == spec_column_of(cols@[k]),
        decreases n - i,
    {
        columns.push(column_of(&cols[i]));
        i = i + 1;
    }
    let mut foreign_keys: Vec<ForeignKey> = Vec::new();
    let m = keys.len();
    let mut j: usize = 0;
    while j < m
        invariant
            j <= m,
            m == keys@.len(),
            foreign_keys@.len() == j,
            forall|k: int|
                0 <= k < j ==> foreign_keys@[k] == spec_foreign_key_of(name, keys@[k]),
        decreases m - j,
    {
        foreign_keys.push(foreign_key_of(&name, &keys[j]));
        j = j + 1;
    }
    Table { name, columns, foreign_keys }
}

/// Every foreign key of the table names the table itself as its source.
pub open spec fn spec_table_sources_match(t: Table) -> bool {
    forall|j: int| 0 <= j < t.foreign_keys@.len() ==> t.foreign_keys@[j].source_table@ == t.name@
}

/// What holds of every table the loader hands back: it is not the internal
/// sequence-tracking table, and every one of its foreign keys names it as
/// the source.
pub open spec fn spec_table_wf(t: Table) -> bool {
    &&& t.name@ != spec_internal_name()
    &&& spec_table_sources_match(t)
}

/// What holds of every schema the loader hands back: each table is
/// well-formed, and table names are unique across the schema.
pub open spec fn spec_schema_wf(s: Schema) -> bool {
    &&& forall|i: int| 0 <= i < s.0@.len() ==> spec_table_wf(s.0@[i])
    &&& forall|i: int, j: int| 0 <= i < j < s.0@.len() ==> s.0@[i].name@ != s.0@[j].name@
}

/// Loads one table per given name, positionally: the k-th table of the
/// result is assembled (columns first, then foreign keys) for the k-th name,
/// so the given order — here, the catalog enumeration order — is the order
/// of the result, untouched. The first query failure aborts the load with
/// the failing operation and table named.
pub fn load_tables(db: &mut SqliteConnection, names: &Vec<String>) -> (r: Result<
    Vec<Table>,
    LoadError,
>)
    ensures
        r matches Ok(ts) ==> {
            &&& ts@.len() == names@.len()
            &&& forall|k: int| 0 <= k < names@.len() ==> ts@[k].name == names@[k]
            &&& forall|k: int| 0 <= k < names@.len() ==> spec_table_sources_match(#[trigger] ts@[k])
        },
{
    let mut tables: Vec<Table> = Vec::new();
    let n = names.len();
    let mut i: usize = 0;
    while i < n
        invariant
            i <= n,
            n == names@.len(),
            tables@.len() == i,
            forall|k: int| 0 <= k < i ==> tables@[k].name == names@[k],
            forall|k: int| 0 <= k < i ==> spec_table_sources_match(#[trigger] tables@[k]),
        decreases n - i,
    {
        let name = names[i].clone();
        let cols = match query_columns(db, name.as_str()) {
            Ok(cols) => cols,
            Err(detail) => {
                return Err(LoadError::Columns { table: name, detail });
            },
        };
        let keys = match query_foreign_keys(db, name.as_str()) {
            Ok(keys) => keys,
            Err(detail) => {
                return Err(LoadError::Keys { table: name, detail });
            },
        };
        let t = table_of(name, &cols, &keys);
        tables.push(t);
        i = i + 1;
    }
    Ok(tables)
}

impl Schema {
    /// Reads the whole catalog behind the connection: the table list first,
    /// then, for each visible table in enumeration order, its columns and
    /// then its foreign keys. The first query failure aborts the load, with
    /// the failing operation and table named in the error; no partial schema
    /// ever comes back.
    pub fn load(db: &mut SqliteConnection) -> (r: Result<Schema, LoadError>)
        ensures
            r matches Ok(s) ==> spec_schema_wf(s),
    {
        let all_names = match query_table_names(db) {
            Ok(names) => names,
            Err(detail) => {
                return Err(LoadError::Tables { detail });
            },
        };
        let names = visible_names(all_names);
        proof {
            lemma_visible_names_no_internal(all_names@);
            lemma_visible_names_distinct(all_names@);
        }
        let tables = match load_tables(db, &names) {
            Ok(tables) => tables,
            Err(e) => {
                return Err(e);
            },
        };
        let schema = Schema(tables);
        proof {
            let vis = spec_visible_names(all_names@);
            assert forall|i: int| 0 <= i < schema.0@.len() implies spec_table_wf(
                #[trigger] schema.0@[i],
            ) by {
                assert(schema.0@[i].name == vis[i]);
                assert(vis[i]@ != spec_internal_name());
            }
            assert forall|i: int, j: int| 0 <= i < j < schema.0@.len() implies schema.0@[i].name@
                != schema.0@[j].name@ by {
                assert(schema.0@[i].name == vis[i]);
                assert(schema.0@[j].name == vis[j]);
                assert(vis[i]@ != vis[j]@);
            }
        }
        Ok(schema)
    }
}

} // verus!
