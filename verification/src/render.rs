use vstd::prelude::*;
use vstd::string::StringExecFns;

use crate::model::{Column, ForeignKey, Schema, Table};

verus! {

// ----------------------------------------------------------------------------
// What the rendered DOT text is, piece by piece.
// ----------------------------------------------------------------------------
/// The marker on a column row: the primary-key color when the column is part
/// of the primary key, the nullable color when it is merely nullable, and no
/// marker otherwise. Primary takes precedence over nullable.
pub open spec fn spec_color_marker(c: Column) -> Seq<char> {
    if c.primary {
        "bgcolor='#2aa198'"@
    } else if c.nullable {
        "bgcolor='#6c71c4'"@
    } else {
        ""@
    }
}

/// One row of a table node: the color marker, the column name, and the
/// declared type; the type cell doubles as a port named after the column, so
/// edges can attach to the exact row.
pub open spec fn spec_column_row(c: Column) -> Seq<char> {
    "<tr><td "@ + spec_color_marker(c) + " width='16'></td><td>"@ + c.name@ + "</td><td port='"@
        + c.name@ + "'>"@ + c.typ@ + "</td></tr>\n"@
}

/// All rows of one table node, in column order.
pub open spec fn spec_column_rows(cs: Seq<Column>) -> Seq<char>
    decreases cs.len(),
{
    if cs.len() == 0 {
        Seq::empty()
    } else {
        spec_column_rows(cs.drop_last()) + spec_column_row(cs.last())
    }
}

/// The opening of one table node: the node named after the table, shaped as
/// an HTML-like table whose first row is the table name.
pub open spec fn spec_node_opening(name: Seq<char>) -> Seq<char> {
    name
        + " [shape=plaintext label=< <table border='0' cellborder='1' cellspacing='0' cellpadding='5'>\n<tr><td border='0'></td><td colspan='2'><b>"@
        + name + "</b></td></tr>\n"@
}

/// The closing of one table node.
pub open spec fn spec_node_closing() -> Seq<char> {
    "</table> >]\n"@
}

/// One edge: from the source table's port at the source column to the target
/// table's node as a whole. The target column, even when the catalog supplies
/// one, deliberately does not appear.
pub open spec fn spec_edge(k: ForeignKey) -> Seq<char> {
    k.source_table@ + ":"@ + k.source_column@ + " -> "@ + k.target_table@ + "\n"@
}

/// All edges declared by one table's foreign keys, in catalog order.
pub open spec fn spec_edges(ks: Seq<ForeignKey>) -> Seq<char>
    decreases ks.len(),
{
    if ks.len() == 0 {
        Seq::empty()
    } else {
        spec_edges(ks.drop_last()) + spec_edge(ks.last())
    }
}

/// One table's whole contribution: its node, then its edges.
pub open spec fn spec_table_node(t: Table) -> Seq<char> {
    spec_node_opening(t.name@) + spec_column_rows(t.columns@) + spec_node_closing() + spec_edges(
        t.foreign_keys@,
    )
}

/// All tables' contributions, in schema order.
pub open spec fn spec_table_nodes(ts: Seq<Table>) -> Seq<char>
    decreases ts.len(),
{
    if ts.len() == 0 {
        Seq::empty()
    } else {
        spec_table_nodes(ts.drop_last()) + spec_table_node(ts.last())
    }
}

/// The graph-level header: a directed graph laid out left to right.
pub open spec fn spec_graph_header() -> Seq<char> {
    "digraph {\n"@ + "rankdir=LR;\n"@
}

/// The trailing closer of the graph block.
pub open spec fn spec_graph_closer() -> Seq<char> {
    "}\n"@
}

/// The whole document: header, one block per table, closer.
pub open spec fn spec_render(s: Schema) -> Seq<char> {
    spec_graph_header() + spec_table_nodes(s.0@) + spec_graph_closer()
}

// ----------------------------------------------------------------------------
// Laws of the rendered text.
// ----------------------------------------------------------------------------
/// A schema with no tables renders as the graph header followed directly by
/// the closer: no node and no edge declarations.
pub proof fn lemma_render_empty_schema(s: Schema)
    requires
        s.0@.len() == 0,
    ensures
        spec_render(s) == spec_graph_header() + spec_graph_closer(),
{
    assert(spec_render(s) =~= spec_graph_header() + spec_graph_closer());
}

/// A primary-key column's row carries the primary-key color whatever its
/// `nullable` flag says: primary takes precedence.
pub proof fn lemma_primary_marker_wins(c: Column)
    requires
        c.primary,
    ensures
        spec_color_marker(c) == "bgcolor='#2aa198'"@,
{
}

/// The row texts of a column sequence, one per column, in column order.
pub open spec fn spec_row_texts(cs: Seq<Column>) -> Seq<Seq<char>> {
    cs.map_values(|c: Column| spec_column_row(c))
}

/// The body of a table node is exactly the concatenation of one rendered row
/// per column, in the order the columns were loaded: as many rows as
/// columns, the i-th row rendering the i-th column.
pub proof fn lemma_one_row_per_column(cs: Seq<Column>)
    ensures
        spec_row_texts(cs).len() == cs.len(),
        forall|i: int| 0 <= i < cs.len() ==> spec_row_texts(cs)[i] == spec_column_row(cs[i]),
        spec_column_rows(cs) == spec_row_texts(cs).flatten(),
    decreases cs.len(),
{
    let texts = spec_row_texts(cs);
    if cs.len() == 0 {
        assert(texts =~= Seq::<Seq<char>>::empty());
    } else {
        lemma_one_row_per_column(cs.drop_last());
        assert(texts.drop_last() =~= spec_row_texts(cs.drop_last()));
        texts.lemma_flatten_and_flatten_alt_are_equivalent();
        texts.drop_last().lemma_flatten_and_flatten_alt_are_equivalent();
        assert(texts.flatten_alt() == texts.drop_last().flatten_alt() + texts.last());
    }
}

/// The edge texts of a foreign-key sequence, one per key, in catalog order.
pub open spec fn spec_edge_texts(ks: Seq<ForeignKey>) -> Seq<Seq<char>> {
    ks.map_values(|k: ForeignKey| spec_edge(k))
}

/// Exactly one edge is rendered per foreign key, in order: the i-th edge
/// text is `spec_edge` of the i-th key, which names the source table, the
/// source column as the origin port, and the target table — and nothing of
/// the target column, present or not.
pub proof fn lemma_one_edge_per_foreign_key(ks: Seq<ForeignKey>)
    ensures
        spec_edge_texts(ks).len() == ks.len(),
        forall|i: int| 0 <= i < ks.len() ==> spec_edge_texts(ks)[i] == spec_edge(ks[i]),
        spec_edges(ks) == spec_edge_texts(ks).flatten(),
    decreases ks.len(),
{
    let texts = spec_edge_texts(ks);
    if ks.len() == 0 {
        assert(texts =~= Seq::<Seq<char>>::empty());
    } else {
        lemma_one_edge_per_foreign_key(ks.drop_last());
        assert(texts.drop_last() =~= spec_edge_texts(ks.drop_last()));
        texts.lemma_flatten_and_flatten_alt_are_equivalent();
        texts.drop_last().lemma_flatten_and_flatten_alt_are_equivalent();
        assert(texts.flatten_alt() == texts.drop_last().flatten_alt() + texts.last());
    }
}

/// The block texts of a table sequence, one per table, in schema order.
pub open spec fn spec_node_texts(ts: Seq<Table>) -> Seq<Seq<char>> {
    ts.map_values(|t: Table| spec_table_node(t))
}

/// The body of the document is exactly the concatenation of one block per
/// table, in the schema's stored order — the catalog enumeration order, with
/// no alphabetical re-sorting: the i-th block renders the i-th table.
pub proof fn lemma_nodes_follow_table_order(ts: Seq<Table>)
    ensures
        spec_node_texts(ts).len() == ts.len(),
        forall|i: int| 0 <= i < ts.len() ==> spec_node_texts(ts)[i] == spec_table_node(ts[i]),
        spec_table_nodes(ts) == spec_node_texts(ts).flatten(),
    decreases ts.len(),
{
    let texts = spec_node_texts(ts);
    if ts.len() == 0 {
        assert(texts =~= Seq::<Seq<char>>::empty());
    } else {
        lemma_nodes_follow_table_order(ts.drop_last());
        assert(texts.drop_last() =~= spec_node_texts(ts.drop_last()));
        texts.lemma_flatten_and_flatten_alt_are_equivalent();
        texts.drop_last().lemma_flatten_and_flatten_alt_are_equivalent();
        assert(texts.flatten_alt() == texts.drop_last().flatten_alt() + texts.last());
    }
}

// ----------------------------------------------------------------------------
// The executable renderer.
// ----------------------------------------------------------------------------
impl Column {
    /// The color marker this column's row carries.
    pub fn color_marker(&self) -> (r: &'static str)
        ensures
            r@ == spec_color_marker(*self),
    {
        if self.primary {
            "bgcolor='#2aa198'"
        } else if self.nullable {
            "bgcolor='#6c71c4'"
        } else {
            ""
        }
    }

    /// Renders this column as one row of its table's node.
    pub fn render_row(&self) -> (r: String)
        ensures
            r@ == spec_column_row(*self),
    {
        let mut out = String::new();
        out.append("<tr><td ");
        out.append(self.color_marker());
        out.append(" width='16'></td><td>");
        out.append(self.name.as_str());
        out.append("</td><td port='");
        out.append(self.name.as_str());
        out.append("'>");
        out.append(self.typ.as_str());
        out.append("</td></tr>\n");
        proof {
            assert(out@ =~= spec_column_row(*self));
        }
        out
    }
}

impl ForeignKey {
    /// Renders this foreign key as one edge declaration.
    pub fn render_edge(&self) -> (r: String)
        ensures
            r@ == spec_edge(*self),
    {
        let mut out = String::new();
        out.append(self.source_table.as_str());
        out.append(":");
        out.append(self.source_column.as_str());
        out.append(" -> ");
        out.append(self.target_table.as_str());
        out.append("\n");
        proof {
            assert(out@ =~= spec_edge(*self));
        }
        out
    }
}

impl Table {
    /// Renders this table's node and its outgoing edges.
    pub fn render(&self) -> (r: String)
        ensures
            r@ == spec_table_node(*self),
    {
        let mut out = String::new();
        out.append(self.name.as_str());
        out.append(
            " [shape=plaintext label=< <table border='0' cellborder='1' cellspacing='0' cellpadding='5'>\n<tr><td border='0'></td><td colspan='2'><b>",
        );
        out.append(self.name.as_str());
        out.append("</b></td></tr>\n");
        proof {
            assert(self.columns@.take(0) =~= Seq::<Column>::empty());
            assert(out@ =~= spec_node_opening(self.name@) + spec_column_rows(
                self.columns@.take(0),
            ));
        }
        let n = self.columns.len();
        let mut i: usize = 0;
        while i < n
            invariant
                i <= n,
                n == self.columns@.len(),
                out@ == spec_node_opening(self.name@) + spec_column_rows(
                    self.columns@.take(i as int),
                ),
            decreases n - i,
        {
            let row = self.columns[i].render_row();
            out.append(row.as_str());
            proof {
                let taken = self.columns@.take(i + 1);
                assert(taken.drop_last() =~= self.columns@.take(i as int));
                assert(taken.last() == self.columns@[i as int]);
                assert(out@ =~= spec_node_opening(self.name@) + spec_column_rows(taken));
            }
            i = i + 1;
        }
        proof {
            assert(self.columns@.take(n as int) =~= self.columns@);
        }
        out.append("</table> >]\n");
        proof {
            assert(self.foreign_keys@.take(0) =~= Seq::<ForeignKey>::empty());
            assert(out@ =~= spec_node_opening(self.name@) + spec_column_rows(self.columns@)
                + spec_node_closing() + spec_edges(self.foreign_keys@.take(0)));
        }
        let m = self.foreign_keys.len();
        let mut j: usize = 0;
        while j < m
            invariant
                j <= m,
                m == self.foreign_keys@.len(),
                out@ == spec_node_opening(self.name@) + spec_column_rows(self.columns@)
                    + spec_node_closing() + spec_edges(self.foreign_keys@.take(j as int)),
            decreases m - j,
        {
            let edge = self.foreign_keys[j].render_edge();
            out.append(edge.as_str());
            proof {
                let taken = self.foreign_keys@.take(j + 1);
                assert(taken.drop_last() =~= self.foreign_keys@.take(j as int));
                assert(taken.last() == self.foreign_keys@[j as int]);
                assert(out@ =~= spec_node_opening(self.name@) + spec_column_rows(self.columns@)
                    + spec_node_closing() + spec_edges(taken));
            }
            j = j + 1;
        }
        proof {
            assert(self.foreign_keys@.take(m as int) =~= self.foreign_keys@);
            assert(out@ =~= spec_table_node(*self));
        }
        out
    }
}

impl Schema {
    /// Renders the whole schema as one DOT document. A pure function of the
    /// schema: tables, columns, and edges come out in the stored order, with
    /// no re-sorting and no I/O.
    pub fn render(&self) -> (r: String)
        ensures
            r@ == spec_render(*self),
    {
        let mut out = String::new();
        out.append("digraph {\n");
        out.append("rankdir=LR;\n");
        proof {
            assert(self.0@.take(0) =~= Seq::<Table>::empty());
            assert(out@ =~= spec_graph_header() + spec_table_nodes(self.0@.take(0)));
        }
        let n = self.0.len();
        let mut i: usize = 0;
        while i < n
            invariant
                i <= n,
                n == self.0@.len(),
                out@ == spec_graph_header() + spec_table_nodes(self.0@.take(i as int)),
            decreases n - i,
        {
            let block = self.0[i].render();
            out.append(block.as_str());
            proof {
                let taken = self.0@.take(i + 1);
                assert(taken.drop_last() =~= self.0@.take(i as int));
                assert(taken.last() == self.0@[i as int]);
                assert(out@ =~= spec_graph_header() + spec_table_nodes(taken));
            }
            i = i + 1;
        }
        proof {
            assert(self.0@.take(n as int) =~= self.0@);
        }
        out.append("}\n");
        proof {
            assert(out@ =~= spec_render(*self));
        }
        out
    }
}

} // verus!
