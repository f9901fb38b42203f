//! The resolve → build → render sequence of one invocation, end to end, with
//! a simulated response in place of the execution capability.

use tdb::render_rows;
use tdb::prepare;
use tdb::parse_operation;
use tdb::ClauseSet;
use tdb::ColumnValue;
use tdb::Config;
use tdb::Error;
use tdb::Operation;
use tdb::ServerInfo;
use tdb::Staff;
use tdb::StaffBadges;

fn config() -> Config {
    Config {
        servers: vec![
            ("PROD".to_string(), ServerInfo::Struct { url: "db1".to_string(), port: 1433 }),
            ("DEV".to_string(), ServerInfo::Tuple("dev.example.com".to_string())),
        ],
        staff: Staff {
            login_user_id: "1".to_string(),
            pin: "0000".to_string(),
            first_name: "Ada".to_string(),
            last_name: "Lovelace".to_string(),
            nt_username: "ada".to_string(),
            email_address: "ada@example.com".to_string(),
            sso_user_id: "ada".to_string(),
        },
        staff_badges: StaffBadges { login_user_id: None, badge_data: "data".to_string() },
    }
}

fn only_where(w: &str) -> ClauseSet {
    ClauseSet {
        where_clause: Some(w.to_string()),
        group_by: None,
        order_by: None,
        set_clause: None,
        values_clause: None,
    }
}

#[test]
fn a_select_invocation_prepares_and_renders_end_to_end() {
    let cfg = config();
    let operation = parse_operation("s").unwrap();
    assert_eq!(operation, Operation::Select);

    let req = prepare(&cfg, "PROD", "DBX01", operation, "mytable", &only_where("id=5")).unwrap();
    assert_eq!(req.host, "db1");
    assert_eq!(req.port, 1433);
    assert_eq!(req.database, "acgapplication_DBX01");
    assert_eq!(req.statement, "SELECT TOP 100 * FROM mytable WITH (NOLOCK) WHERE id=5 ");

    // A simulated 2-row response from the execution capability.
    let rows = vec![
        vec![
            ("id".to_string(), ColumnValue::I32(Some(5))),
            ("name".to_string(), ColumnValue::Text(Some("alpha".to_string()))),
        ],
        vec![
            ("id".to_string(), ColumnValue::I32(Some(6))),
            ("name".to_string(), ColumnValue::Text(Some("beta".to_string()))),
        ],
    ];
    let rendered = render_rows(&rows).unwrap();
    assert_eq!(rendered.len(), 2);
    assert_eq!(rendered[0][0].0, "id");
    assert_eq!(rendered[0][1].0, "name");
    assert_eq!(rendered[0][0].1, "5");
    assert_eq!(rendered[0][1].1, "alpha");
    assert_eq!(rendered[1][0].1, "6");
    assert_eq!(rendered[1][1].1, "beta");
}

#[test]
fn an_unknown_server_fails_before_anything_else() {
    let cfg = config();
    let r = prepare(&cfg, "STAGING", "DB01", Operation::Select, "mytable", &only_where("id=5"));
    assert!(matches!(r, Err(Error::NotFound)));
}

#[test]
fn a_write_clause_on_a_read_fails_before_any_network_activity() {
    let cfg = config();
    let mut c = only_where("id=5");
    c.set_clause = Some("a=1".to_string());
    let r = prepare(&cfg, "PROD", "DB01", Operation::Select, "mytable", &c);
    assert!(matches!(r, Err(Error::InvalidArgument)));
}

#[test]
fn a_write_operation_is_reported_unimplemented() {
    let cfg = config();
    let r = prepare(&cfg, "PROD", "DB01", Operation::Insert, "mytable", &only_where("id=5"));
    assert!(matches!(r, Err(Error::Unimplemented)));
}

#[test]
fn a_literal_database_name_is_used_unchanged() {
    let cfg = config();
    let c = ClauseSet {
        where_clause: None,
        group_by: None,
        order_by: None,
        set_clause: None,
        values_clause: None,
    };
    let req = prepare(&cfg, "DEV", "inventory", Operation::Select, "items", &c).unwrap();
    assert_eq!(req.host, "dev.example.com");
    assert_eq!(req.port, 1433);
    assert_eq!(req.database, "inventory");
    assert_eq!(req.statement, "SELECT TOP 100 * FROM items WITH (NOLOCK) ");
}
