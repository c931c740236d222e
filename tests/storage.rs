use rusqlite::types::Value;
use rusqlite::Connection;
use typed_db::annotation::{Attribute, Token};
use typed_db::builder::{fetch_back_row, fetch_back_sql, RecordBuilder};
use typed_db::cte::{CteFieldInfo, CteInfo};
use typed_db::schema::TableDescriptor;
use typed_db::table::{FieldInfo, TableInfo};
use typed_db::types::{FieldType, ScalarType};

fn ident(s: &str) -> Token {
    Token::Ident(s.to_string())
}

fn s(v: &str) -> Token {
    Token::Str(v.to_string())
}

fn field(name: &str, ty: ScalarType, attributes: Vec<Attribute>) -> FieldInfo {
    FieldInfo { name: name.to_string(), ty: FieldType::Required(ty), attributes }
}

fn created() -> Attribute {
    Attribute::Default(vec![ident("CURRENT_TIMESTAMP")])
}

fn user_fk(on_delete: Option<&str>) -> Attribute {
    let mut toks = vec![ident("User"), Token::PathSep, ident("id")];
    if let Some(a) = on_delete {
        toks.extend(vec![Token::Comma, ident("on_delete"), Token::Eq, ident(a)]);
    }
    Attribute::ForeignKey(toks)
}

fn user() -> TableDescriptor {
    TableInfo {
        name: "User".to_string(),
        fields: vec![
            field("id", ScalarType::I32, vec![Attribute::PrimaryKey]),
            field("name", ScalarType::Text, vec![]),
            field("email", ScalarType::Text, vec![Attribute::Unique]),
            field("created_date", ScalarType::DateTime, vec![created()]),
        ],
    }
    .descriptor()
    .unwrap()
}

fn user_role() -> TableDescriptor {
    TableInfo {
        name: "UserRole".to_string(),
        fields: vec![
            field("id", ScalarType::I32, vec![Attribute::PrimaryKey]),
            field("user_id", ScalarType::I32, vec![user_fk(None)]),
            field("role", ScalarType::Text, vec![]),
            field("active_date", ScalarType::DateTime, vec![created()]),
        ],
    }
    .descriptor()
    .unwrap()
}

fn user_team() -> TableDescriptor {
    TableInfo {
        name: "UserTeam".to_string(),
        fields: vec![
            field("id", ScalarType::I32, vec![Attribute::PrimaryKey]),
            field("team_member", ScalarType::I32, vec![user_fk(Some("CASCADE"))]),
            field("team_leader", ScalarType::I32, vec![user_fk(Some("CASCADE"))]),
            field("active_date", ScalarType::DateTime, vec![created()]),
        ],
    }
    .descriptor()
    .unwrap()
}

fn param(table: &str, column: &str, alias: &str, pred: &str) -> Attribute {
    Attribute::Param(vec![ident(table), Token::PathSep, ident(column), ident("as"), s(alias), Token::Comma, s(pred)])
}

fn active_user() -> CteInfo {
    let p = |name: &str, ty: FieldType, a: Attribute| CteFieldInfo { name: name.to_string(), ty, attributes: vec![a] };
    CteInfo {
        name: "ActiveUser".to_string(),
        fields: vec![
            p("id", FieldType::Required(ScalarType::I32), param("User", "id", "u", "u.id = params.user_id")),
            p("name", FieldType::Required(ScalarType::Text), param("User", "name", "u", "u.id = params.user_id")),
            p("email", FieldType::Required(ScalarType::Text), param("User", "email", "u", "u.id = params.user_id")),
            p(
                "role",
                FieldType::Optional(ScalarType::Text),
                param(
                    "UserRole",
                    "role",
                    "ur",
                    "ur.user_id = params.user_id\n         AND ur.active_date <= params.effective_time\n         ORDER BY ur.active_date DESC\n         LIMIT 1",
                ),
            ),
            p(
                "team_leader",
                FieldType::Optional(ScalarType::I32),
                param(
                    "UserTeam",
                    "team_leader",
                    "ut",
                    "ut.team_member = params.user_id\n         AND ut.active_date <= params.effective_time\n         ORDER BY ut.active_date DESC\n         LIMIT 1",
                ),
            ),
        ],
        attributes: vec![Attribute::CteParams(vec![s("effective_time"), Token::Comma, s("user_id")])],
    }
}

fn create(conn: &Connection, t: &TableDescriptor) -> rusqlite::Result<usize> {
    conn.execute(&t.creation_sql().unwrap(), ())
}

fn insert_raw(conn: &Connection, b: RecordBuilder<Value>) -> rusqlite::Result<usize> {
    let st = b.insert_statement();
    conn.execute(&st.sql, rusqlite::params_from_iter(st.params.iter()))
}

fn insert(conn: &Connection, b: RecordBuilder<Value>) -> rusqlite::Result<i64> {
    insert_raw(conn, b)?;
    Ok(conn.last_insert_rowid())
}

fn insert_and_fetch(conn: &Connection, table: &str, b: RecordBuilder<Value>) -> Vec<Value> {
    let id = insert(conn, b).unwrap();
    let mut stmt = conn.prepare(&fetch_back_sql(table, id)).unwrap();
    let n = stmt.column_count();
    let rows: Vec<Vec<Value>> = stmt
        .query_map([], |row| (0..n).map(|i| row.get::<_, Value>(i)).collect())
        .unwrap()
        .collect::<rusqlite::Result<_>>()
        .unwrap();
    fetch_back_row(rows).unwrap()
}

fn text(v: &str) -> Value {
    Value::Text(v.to_string())
}

fn far_future() -> Value {
    text("9999-12-31 23:59:59")
}

fn select(conn: &Connection, sql: &str, params: Vec<Value>) -> Vec<Vec<Value>> {
    let mut stmt = conn.prepare(sql).unwrap();
    let n = stmt.column_count();
    stmt.query_map(rusqlite::params_from_iter(params.iter()), |row| {
        (0..n).map(|i| row.get::<_, Value>(i)).collect()
    })
    .unwrap()
    .collect::<rusqlite::Result<_>>()
    .unwrap()
}

#[test]
fn t() {
    let conn = Connection::open(":memory:").unwrap();
    conn.execute("PRAGMA foreign_keys = ON;", []).unwrap();
    create(&conn, &user()).unwrap();
    create(&conn, &user_role()).unwrap();
    create(&conn, &user_team()).unwrap();

    let u1 = insert_and_fetch(
        &conn,
        "User",
        user().builder().with("name", text("Bob")).with("email", text("bob@example.com")),
    );
    let u2 = insert_and_fetch(
        &conn,
        "User",
        user().builder().with("name", text("Alice")).with("email", text("alice@example.com")),
    );
    insert_raw(&conn, user_role().builder().with("user_id", u1[0].clone()).with("role", text("Admin"))).unwrap();
    // The two references to User share one clause, `REFERENCES User(id, id)`,
    // which SQLite enforces only against a unique index over those columns.
    conn.execute("PRAGMA foreign_keys = OFF;", []).unwrap();
    insert(&conn, user_team().builder().with("team_member", u1[0].clone()).with("team_leader", u2[0].clone()))
        .unwrap();

    let tables = vec![user(), user_role(), user_team()];
    let q = active_user().cte_str(&tables).unwrap();
    let now = chrono::Utc::now().format("%Y-%m-%d %H:%M:%S").to_string();
    let a = select(&conn, &q, vec![text(&now), u1[0].clone()]);
    assert_eq!(a.len(), 1);
    assert_eq!(a[0][0], u1[0]);
    assert_eq!(a[0][1], text("Bob"));
    assert_eq!(a[0][2], text("bob@example.com"));
    assert_eq!(a[0][3], text("Admin"));
    assert_eq!(a[0][4], u2[0]);

    let plan = active_user().query_plan_str(&tables).unwrap();
    let rows = select(&conn, &plan, vec![text(&now), u1[0].clone()]);
    assert!(!rows.is_empty());
}

#[test]
fn ddl_reissue_is_noop() {
    let conn = Connection::open_in_memory().unwrap();
    let ddl = user().creation_sql().unwrap();
    conn.execute(&ddl, ()).unwrap();
    insert_raw(&conn, user().builder().with("name", text("Bob")).with("email", text("b@x"))).unwrap();
    conn.execute(&ddl, ()).unwrap();
    let n: i64 = conn.query_row("SELECT COUNT(*) FROM User", [], |r| r.get(0)).unwrap();
    assert_eq!(n, 1);
}

#[test]
fn insert_and_fetch_fills_default_timestamp() {
    let conn = Connection::open_in_memory().unwrap();
    create(&conn, &user()).unwrap();
    let row = insert_and_fetch(&conn, "User", user().builder().with("name", text("Bob")).with("email", text("b@x")));
    assert_eq!(row.len(), 4);
    assert_eq!(row[0], Value::Integer(1));
    match &row[3] {
        Value::Text(ts) => assert_eq!(ts.len(), 19),
        other => panic!("created_date not populated: {other:?}"),
    }
}

#[test]
fn unique_violation_surfaces() {
    let conn = Connection::open_in_memory().unwrap();
    create(&conn, &user()).unwrap();
    insert_raw(&conn, user().builder().with("name", text("A")).with("email", text("same"))).unwrap();
    let second = insert_raw(&conn, user().builder().with("name", text("B")).with("email", text("same")));
    assert!(second.is_err());
}

#[test]
fn projection_rebinding_is_independent() {
    let conn = Connection::open_in_memory().unwrap();
    for t in [user(), user_role(), user_team()] {
        create(&conn, &t).unwrap();
    }
    let u1 = insert(&conn, user().builder().with("name", text("Bob")).with("email", text("b@x"))).unwrap();
    let u2 = insert(&conn, user().builder().with("name", text("Alice")).with("email", text("a@x"))).unwrap();
    insert_raw(&conn, user_role().builder().with("user_id", Value::Integer(u1)).with("role", text("Admin"))).unwrap();
    insert_raw(&conn, user_role().builder().with("user_id", Value::Integer(u2)).with("role", text("Guest"))).unwrap();
    let q = active_user().cte_str(&vec![user(), user_role(), user_team()]).unwrap();
    let a = select(&conn, &q, vec![far_future(), Value::Integer(u1)]);
    let b = select(&conn, &q, vec![far_future(), Value::Integer(u2)]);
    assert_eq!(a[0][1], text("Bob"));
    assert_eq!(a[0][3], text("Admin"));
    assert_eq!(a[0][4], Value::Null);
    assert_eq!(b[0][1], text("Alice"));
    assert_eq!(b[0][3], text("Guest"));
    let before = select(&conn, &q, vec![text("2000-01-01 00:00:00"), Value::Integer(u1)]);
    assert_eq!(before[0][3], Value::Null);
}
