use typed_db::annotation::{Attribute, Token};
use typed_db::builder::{fetch_back_row, fetch_back_sql, FetchBackError};
use typed_db::table::{FieldInfo, TableInfo};
use typed_db::types::{FieldType, ScalarType};

fn user_table() -> TableInfo {
    let f = |name: &str, s: ScalarType, attributes: Vec<Attribute>| FieldInfo {
        name: name.to_string(),
        ty: FieldType::Required(s),
        attributes,
    };
    TableInfo {
        name: "User".to_string(),
        fields: vec![
            f("id", ScalarType::I32, vec![Attribute::PrimaryKey]),
            f("name", ScalarType::Text, vec![]),
            f("email", ScalarType::Text, vec![Attribute::Unique]),
            f(
                "created",
                ScalarType::DateTime,
                vec![Attribute::Default(vec![Token::Ident("CURRENT_TIMESTAMP".to_string())])],
            ),
        ],
    }
}

#[test]
fn insert_omits_unset_columns() {
    let t = user_table().descriptor().unwrap();
    let st = t
        .builder::<String>()
        .with("name", "Bob".to_string())
        .with("email", "bob@example.com".to_string())
        .insert_statement();
    assert_eq!(st.sql, "INSERT INTO User (name,email) VALUES (?1,?2)");
    assert_eq!(st.params, vec!["Bob".to_string(), "bob@example.com".to_string()]);
}

#[test]
fn insert_follows_declaration_order_not_call_order() {
    let t = user_table().descriptor().unwrap();
    let st = t.builder::<i64>().with("created", 3).with("id", 1).insert_statement();
    assert_eq!(st.sql, "INSERT INTO User (id,created) VALUES (?1,?2)");
    assert_eq!(st.params, vec![1, 3]);
}

#[test]
fn builder_values_are_reusable() {
    let t = user_table().descriptor().unwrap();
    let base = t.builder::<i64>().with("id", 5);
    let a = base.clone().with("name", 1).insert_statement();
    let b = base.insert_statement();
    assert_eq!(a.sql, "INSERT INTO User (id,name) VALUES (?1,?2)");
    assert_eq!(b.sql, "INSERT INTO User (id) VALUES (?1)");
}

#[test]
fn unknown_column_leaves_builder_unchanged() {
    let t = user_table().descriptor().unwrap();
    let b = t.builder::<i64>().with("nickname", 9);
    assert!(b.values.iter().all(|v| v.is_none()));
    assert_eq!(b.columns, vec!["id", "name", "email", "created"]);
    let st = b.insert_statement();
    assert_eq!(st.sql, "INSERT INTO User () VALUES ()");
    assert!(st.params.is_empty());
}

#[test]
fn setting_twice_keeps_last_value() {
    let t = user_table().descriptor().unwrap();
    let st = t.builder::<i64>().with("id", 1).with("id", 2).insert_statement();
    assert_eq!(st.params, vec![2]);
}

#[test]
fn placeholders_count_past_nine() {
    let fields: Vec<FieldInfo> = (0..11)
        .map(|i| FieldInfo { name: format!("c{i}"), ty: FieldType::Required(ScalarType::I64), attributes: vec![] })
        .collect();
    let t = TableInfo { name: "Wide".to_string(), fields }.descriptor().unwrap();
    let mut b = t.builder::<i64>();
    for i in 0..11 {
        b = b.with(&format!("c{i}"), i);
    }
    let st = b.insert_statement();
    assert!(st.sql.ends_with("VALUES (?1,?2,?3,?4,?5,?6,?7,?8,?9,?10,?11)"));
}

#[test]
fn fetch_back_query() {
    assert_eq!(fetch_back_sql("User", 42), "SELECT * FROM User WHERE ROWID = 42");
    assert_eq!(fetch_back_sql("User", -1), "SELECT * FROM User WHERE ROWID = -1");
}

#[test]
fn fetch_back_needs_exactly_one_row() {
    assert_eq!(fetch_back_row(vec![7]), Ok(7));
    assert_eq!(fetch_back_row::<i32>(vec![]), Err(FetchBackError { rows: 0 }));
    assert_eq!(fetch_back_row(vec![1, 2]), Err(FetchBackError { rows: 2 }));
}
