use visualize_sqlite::{Column, ForeignKey, LoadError, Schema, Table};

fn column(name: &str, typ: &str, nullable: bool, primary: bool) -> Column {
    Column {
        name: name.to_string(),
        typ: typ.to_string(),
        nullable,
        default: None,
        primary,
    }
}

#[test]
fn empty_schema_renders_header_and_closer_only() {
    let schema = Schema(Vec::new());
    assert_eq!(schema.render(), "digraph {\nrankdir=LR;\n}\n");
}

#[test]
fn one_row_is_rendered_per_column_in_order() {
    let table = Table {
        name: "t".to_string(),
        columns: vec![
            column("first", "integer", false, false),
            column("second", "text", false, false),
            column("third", "blob", false, false),
        ],
        foreign_keys: Vec::new(),
    };
    let out = Schema(vec![table]).render();
    let rows: Vec<&str> = out.matches("<tr><td  width='16'>").collect();
    assert_eq!(rows.len(), 3);
    let first = out.find("<td>first</td>").unwrap();
    let second = out.find("<td>second</td>").unwrap();
    let third = out.find("<td>third</td>").unwrap();
    assert!(first < second && second < third);
}

#[test]
fn primary_marker_wins_over_nullable() {
    let table = Table {
        name: "t".to_string(),
        columns: vec![column("id", "integer", true, true)],
        foreign_keys: Vec::new(),
    };
    let out = Schema(vec![table]).render();
    assert!(out.contains("<tr><td bgcolor='#2aa198' width='16'></td><td>id</td>"));
    assert!(!out.contains("bgcolor='#6c71c4'"));
}

#[test]
fn nullable_marker_when_not_primary() {
    let table = Table {
        name: "t".to_string(),
        columns: vec![column("note", "text", true, false)],
        foreign_keys: Vec::new(),
    };
    let out = Schema(vec![table]).render();
    assert!(out.contains("<tr><td bgcolor='#6c71c4' width='16'></td><td>note</td>"));
}

#[test]
fn exactly_one_edge_per_foreign_key() {
    let table = Table {
        name: "posts".to_string(),
        columns: vec![column("author_id", "integer", true, false)],
        foreign_keys: vec![ForeignKey {
            target_table: "users".to_string(),
            target_column: Some("id".to_string()),
            source_table: "posts".to_string(),
            source_column: "author_id".to_string(),
        }],
    };
    let out = Schema(vec![table]).render();
    let edges: Vec<&str> = out.matches("posts:author_id -> users\n").collect();
    assert_eq!(edges.len(), 1);
    // The target column is known here, yet never appears in the edge text.
    assert!(!out.contains("users:id"));
    assert!(!out.contains("-> users:"));
}

#[test]
fn table_order_is_the_stored_order_not_alphabetical() {
    let zeta = Table { name: "zeta".to_string(), columns: Vec::new(), foreign_keys: Vec::new() };
    let alpha = Table { name: "alpha".to_string(), columns: Vec::new(), foreign_keys: Vec::new() };
    let out = Schema(vec![zeta, alpha]).render();
    let z = out.find("zeta [shape=plaintext").unwrap();
    let a = out.find("alpha [shape=plaintext").unwrap();
    assert!(z < a);
}

#[test]
fn two_table_scenario_renders_nodes_and_edge() {
    let users = Table {
        name: "users".to_string(),
        columns: vec![
            column("id", "integer", true, true),
            column("name", "text", false, false),
        ],
        foreign_keys: Vec::new(),
    };
    let posts = Table {
        name: "posts".to_string(),
        columns: vec![
            column("id", "integer", true, true),
            column("author_id", "integer", true, false),
        ],
        foreign_keys: vec![ForeignKey {
            target_table: "users".to_string(),
            target_column: Some("id".to_string()),
            source_table: "posts".to_string(),
            source_column: "author_id".to_string(),
        }],
    };
    let out = Schema(vec![users, posts]).render();
    let expected: String = [
        "digraph {\n",
        "rankdir=LR;\n",
        "users [shape=plaintext label=< <table border='0' cellborder='1' cellspacing='0' cellpadding='5'>\n",
        "<tr><td border='0'></td><td colspan='2'><b>users</b></td></tr>\n",
        "<tr><td bgcolor='#2aa198' width='16'></td><td>id</td><td port='id'>integer</td></tr>\n",
        "<tr><td  width='16'></td><td>name</td><td port='name'>text</td></tr>\n",
        "</table> >]\n",
        "posts [shape=plaintext label=< <table border='0' cellborder='1' cellspacing='0' cellpadding='5'>\n",
        "<tr><td border='0'></td><td colspan='2'><b>posts</b></td></tr>\n",
        "<tr><td bgcolor='#2aa198' width='16'></td><td>id</td><td port='id'>integer</td></tr>\n",
        "<tr><td bgcolor='#6c71c4' width='16'></td><td>author_id</td><td port='author_id'>integer</td></tr>\n",
        "</table> >]\n",
        "posts:author_id -> users\n",
        "}\n",
    ]
    .concat();
    assert_eq!(out, expected);
}

#[test]
fn foreign_key_without_target_column_still_renders_edge() {
    let table = Table {
        name: "b".to_string(),
        columns: vec![column("aid", "integer", true, false)],
        foreign_keys: vec![ForeignKey {
            target_table: "a".to_string(),
            target_column: None,
            source_table: "b".to_string(),
            source_column: "aid".to_string(),
        }],
    };
    let out = Schema(vec![table]).render();
    assert!(out.contains("b:aid -> a\n"));
}

#[test]
fn empty_type_string_passes_through() {
    let table = Table {
        name: "t".to_string(),
        columns: vec![column("x", "", false, false)],
        foreign_keys: Vec::new(),
    };
    let out = Schema(vec![table]).render();
    assert!(out.contains("<td port='x'></td>"));
}

#[test]
fn zero_column_table_renders_with_empty_body() {
    let table = Table { name: "t".to_string(), columns: Vec::new(), foreign_keys: Vec::new() };
    let out = Schema(vec![table]).render();
    let expected: String = [
        "digraph {\n",
        "rankdir=LR;\n",
        "t [shape=plaintext label=< <table border='0' cellborder='1' cellspacing='0' cellpadding='5'>\n",
        "<tr><td border='0'></td><td colspan='2'><b>t</b></td></tr>\n",
        "</table> >]\n",
        "}\n",
    ]
    .concat();
    assert_eq!(out, expected);
}

#[test]
fn error_messages_name_the_failing_operation() {
    let tables = LoadError::Tables { detail: "boom".to_string() };
    assert_eq!(tables.message(), "failed to get tables: boom");
    let columns = LoadError::Columns { table: "users".to_string(), detail: "boom".to_string() };
    assert_eq!(columns.message(), "failed to get columns for users: boom");
    let keys = LoadError::Keys { table: "users".to_string(), detail: "boom".to_string() };
    assert_eq!(keys.message(), "failed to get keys for users: boom");
}
