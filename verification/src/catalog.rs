use vstd::prelude::*;

use diesel::sql_types::{Integer, Nullable, Text};
use diesel::sqlite::SqliteConnection;
use diesel::RunQueryDsl;

verus! {

#[verifier::external_type_specification]
#[verifier::external_body]
pub struct ExSqliteConnection(SqliteConnection);

/// One raw row of `pragma_table_info`, in query column order: the column
/// name, its declared type, the not-null flag, the default expression, and
/// the primary-key flag (the column's 1-based position within the primary
/// key, 0 when it is not part of it).
pub type RawColumn = (String, String, i32, Option<String>, i32);

/// One raw row of `pragma_foreign_key_list`, in query column order: the
/// referenced table, the referencing column, and the referenced column
/// (absent when the reference implicitly targets the referenced table's
/// primary key).
pub type RawForeignKey = (String, String, Option<String>);

/// Relies on diesel::dsl::sql and diesel's RunQueryDsl::load to run
/// `SELECT name FROM sqlite_master WHERE type = 'table'` and hand back one
/// string per row, in catalog enumeration order; and on SQLite's catalog
/// holding at most one table per name, so the names come back pairwise
/// distinct. Beyond that, what comes back depends on the database behind the
/// connection, so nothing more is promised of the rows; a driver error is
/// handed back as its text.
#[verifier::external_body]
pub(crate) fn query_table_names(db: &mut SqliteConnection) -> (r: Result<Vec<String>, String>)
    ensures
        r matches Ok(names) ==> forall|i: int, j: int|
            0 <= i < j < names@.len() ==> names@[i]@ != names@[j]@,
{
    diesel::dsl::sql::<Text>("SELECT name FROM sqlite_master WHERE type = 'table'")
        .load(db)
        .map_err(|e| e.to_string())
}

/// Relies on diesel::dsl::sql and diesel's RunQueryDsl::load to run
/// `SELECT "name", "type", "notnull", "dflt_value", "pk" FROM
/// pragma_table_info(..)`
/// for one table and hand back its rows in catalog declaration order. What
/// comes back depends on the database behind the connection, so nothing is
/// promised of the rows; a driver error is handed back as its text.
#[verifier::external_body]
pub(crate) fn query_columns(db: &mut SqliteConnection, table: &str) -> Result<
    Vec<RawColumn>,
    String,
> {
    diesel::dsl::sql::<(Text, Text, Integer, Nullable<Text>, Integer)>(
        &format!(
            "SELECT \"name\", \"type\", \"notnull\", \"dflt_value\", \"pk\" FROM pragma_table_info('{}')",
            table,
        ),
    ).load(db).map_err(|e| e.to_string())
}

/// Relies on diesel::dsl::sql and diesel's RunQueryDsl::load to run
/// `SELECT "table", "from", "to" FROM pragma_foreign_key_list(..)` for one
/// table and hand back its rows. What comes back depends on the database
/// behind the connection, so nothing is promised of the rows; a driver error
/// is handed back as its text.
#[verifier::external_body]
pub(crate) fn query_foreign_keys(db: &mut SqliteConnection, table: &str) -> Result<
    Vec<RawForeignKey>,
    String,
> {
    diesel::dsl::sql::<(Text, Text, Nullable<Text>)>(
        &format!("SELECT \"table\", \"from\", \"to\" FROM pragma_foreign_key_list('{}')", table),
    ).load(db).map_err(|e| e.to_string())
}

} // verus!
