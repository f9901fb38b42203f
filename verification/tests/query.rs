//! Statement construction and clause validation.

use tdb::build_statement;
use tdb::ClauseSet;
use tdb::Error;
use tdb::Operation;

fn clauses(
    where_clause: Option<&str>,
    group_by: Option<&str>,
    order_by: Option<&str>,
    set_clause: Option<&str>,
    values_clause: Option<&str>,
) -> ClauseSet {
    ClauseSet {
        where_clause: where_clause.map(str::to_string),
        group_by: group_by.map(str::to_string),
        order_by: order_by.map(str::to_string),
        set_clause: set_clause.map(str::to_string),
        values_clause: values_clause.map(str::to_string),
    }
}

#[test]
fn select_with_all_read_clauses_in_fixed_order() {
    let c = clauses(Some("x=1"), Some("y"), Some("z"), None, None);
    let q = build_statement(Operation::Select, "T", &c).unwrap();
    assert_eq!(q, "SELECT TOP 100 * FROM T WITH (NOLOCK) WHERE x=1 GROUP BY y ORDER BY z ");
}

#[test]
fn bare_select() {
    let c = clauses(None, None, None, None, None);
    let q = build_statement(Operation::Select, "mytable", &c).unwrap();
    assert_eq!(q, "SELECT TOP 100 * FROM mytable WITH (NOLOCK) ");
}

#[test]
fn select_with_where_only() {
    let c = clauses(Some("id=5"), None, None, None, None);
    let q = build_statement(Operation::Select, "mytable", &c).unwrap();
    assert_eq!(q, "SELECT TOP 100 * FROM mytable WITH (NOLOCK) WHERE id=5 ");
}

#[test]
fn select_with_order_by_only() {
    let c = clauses(None, None, Some("name DESC"), None, None);
    let q = build_statement(Operation::Select, "t1", &c).unwrap();
    assert_eq!(q, "SELECT TOP 100 * FROM t1 WITH (NOLOCK) ORDER BY name DESC ");
}

#[test]
fn select_rejects_set_clause() {
    let c = clauses(None, None, None, Some("a=1"), None);
    let r = build_statement(Operation::Select, "T", &c);
    assert!(matches!(r, Err(Error::InvalidArgument)));
}

#[test]
fn select_rejects_set_clause_regardless_of_other_clauses() {
    let c = clauses(Some("x=1"), Some("y"), Some("z"), Some("a=1"), None);
    let r = build_statement(Operation::Select, "T", &c);
    assert!(matches!(r, Err(Error::InvalidArgument)));
}

#[test]
fn select_rejects_values_clause() {
    let c = clauses(Some("x=1"), None, None, None, Some("(1,2)"));
    let r = build_statement(Operation::Select, "T", &c);
    assert!(matches!(r, Err(Error::InvalidArgument)));
}

#[test]
fn insert_is_unimplemented() {
    let c = clauses(None, None, None, None, Some("(1,2)"));
    let r = build_statement(Operation::Insert, "T", &c);
    assert!(matches!(r, Err(Error::Unimplemented)));
}

#[test]
fn update_is_unimplemented() {
    let c = clauses(None, None, None, Some("a=1"), None);
    let r = build_statement(Operation::Update, "T", &c);
    assert!(matches!(r, Err(Error::Unimplemented)));
}
