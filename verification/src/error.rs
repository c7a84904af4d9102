use vstd::prelude::*;
use vstd::string::StringExecFns;

verus! {

/// Why a load failed: which catalog query went wrong, for which table where
/// one is involved, and the database driver's own report of the failure.
#[derive(Debug, Clone)]
pub enum LoadError {
    /// The table-listing query itself failed; fatal to the whole load.
    Tables { detail: String },
    /// The column query for `table` failed.
    Columns { table: String, detail: String },
    /// The foreign-key query for `table` failed.
    Keys { table: String, detail: String },
}

/// The one-line text of each failure: a context string naming the failing
/// operation (and table, where one is involved), then the driver's report.
pub open spec fn spec_message(e: LoadError) -> Seq<char> {
    match e {
        LoadError::Tables { detail } => "failed to get tables: "@ + detail@,
        LoadError::Columns { table, detail } => "failed to get columns for "@ + table@ + ": "@
            + detail@,
        LoadError::Keys { table, detail } => "failed to get keys for "@ + table@ + ": "@
            + detail@,
    }
}

impl LoadError {
    /// The error as one line of text, for reporting at the top level.
    pub fn message(&self) -> (r: String)
        ensures
            r@ == spec_message(*self),
    {
        let mut out = String::new();
        match self {
            LoadError::Tables { detail } => {
                out.append("failed to get tables: ");
                out.append(detail.as_str());
            },
            LoadError::Columns { table, detail } => {
                out.append("failed to get columns for ");
                out.append(table.as_str());
                out.append(": ");
                out.append(detail.as_str());
            },
            LoadError::Keys { table, detail } => {
                out.append("failed to get keys for ");
                out.append(table.as_str());
                out.append(": ");
                out.append(detail.as_str());
            },
        }
        proof {
            assert(out@ =~= spec_message(*self));
        }
        out
    }
}

} // verus!
