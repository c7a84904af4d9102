use vstd::prelude::*;

verus! {

/// One column of a table, as the catalog reports it.
///
/// `typ` is the catalog-reported type string; it is dialect-specific and may
/// be empty or non-standard, and is carried through unmodified. A table may
/// have zero, one, or several primary-key columns (composite keys), so
/// `primary` is a per-column flag rather than a table-level designation.
#[derive(Debug, Clone)]
pub struct Column {
    pub name: String,
    pub typ: String,
    pub nullable: bool,
    pub default: Option<String>,
    pub primary: bool,
}

/// One foreign-key constraint. `source_table` and `source_column` are the
/// referencing side and are always present; `target_column` is optional
/// because the catalog may omit it when the reference implicitly targets the
/// referenced table's primary key.
#[derive(Debug, Clone)]
pub struct ForeignKey {
    pub target_table: String,
    pub target_column: Option<String>,
    pub source_table: String,
    pub source_column: String,
}

/// One table: its columns and foreign keys, each in catalog declaration order.
#[derive(Debug, Clone)]
pub struct Table {
    pub name: String,
    pub columns: Vec<Column>,
    pub foreign_keys: Vec<ForeignKey>,
}

/// A whole database schema: its tables in catalog enumeration order, which
/// the renderer preserves (never re-sorted).
#[derive(Debug, Clone)]
pub struct Schema(pub Vec<Table>);

} // verus!
