use typed_db::annotation::{Attribute, Token};
use typed_db::error::SchemaError;
use typed_db::literals::FKAction;
use typed_db::table::{FieldInfo, TableInfo};
use typed_db::types::{DbType, FieldType, ScalarType};

fn ident(s: &str) -> Token {
    Token::Ident(s.to_string())
}

fn field(name: &str, ty: FieldType, attributes: Vec<Attribute>) -> FieldInfo {
    FieldInfo { name: name.to_string(), ty, attributes }
}

fn req(s: ScalarType) -> FieldType {
    FieldType::Required(s)
}

fn fk(table: &str, column: &str, rest: Vec<Token>) -> Attribute {
    let mut toks = vec![ident(table), Token::PathSep, ident(column)];
    toks.extend(rest);
    Attribute::ForeignKey(toks)
}

fn user_table() -> TableInfo {
    TableInfo {
        name: "User".to_string(),
        fields: vec![
            field("id", req(ScalarType::I32), vec![Attribute::PrimaryKey]),
            field("name", req(ScalarType::Text), vec![]),
            field("email", req(ScalarType::Text), vec![Attribute::Unique]),
            field(
                "created",
                req(ScalarType::DateTime),
                vec![Attribute::Default(vec![ident("CURRENT_TIMESTAMP")])],
            ),
        ],
    }
}

#[test]
fn user_table_ddl_exact() {
    let ddl = user_table().creation_str().unwrap();
    assert_eq!(
        ddl,
        "CREATE TABLE IF NOT EXISTS User (\n  id INTEGER NOT NULL PRIMARY KEY,\n  name TEXT NOT NULL,\n  email TEXT NOT NULL UNIQUE,\n  created DATETIME NOT NULL DEFAULT CURRENT_TIMESTAMP\n)"
    );
}

#[test]
fn plain_columns_keep_declared_order() {
    let t = TableInfo {
        name: "Log".to_string(),
        fields: vec![
            field("zeta", req(ScalarType::I64), vec![]),
            field("alpha", FieldType::Optional(ScalarType::Text), vec![]),
            field("mid", req(ScalarType::Bytes), vec![]),
        ],
    };
    let ddl = t.creation_str().unwrap();
    assert_eq!(
        ddl,
        "CREATE TABLE IF NOT EXISTS Log (\n  zeta BIGINT NOT NULL,\n  alpha TEXT,\n  mid BLOB NOT NULL\n)"
    );
    assert_eq!(t.fields_str(), vec!["zeta".to_string(), "alpha".to_string(), "mid".to_string()]);
    assert_eq!(t.separated_fields(","), "zeta,alpha,mid");
}

#[test]
fn primary_and_composite_rejected() {
    let t = TableInfo {
        name: "T".to_string(),
        fields: vec![
            field("a", req(ScalarType::I32), vec![Attribute::PrimaryKey]),
            field("b", req(ScalarType::I32), vec![Attribute::CompositeKey]),
        ],
    };
    assert_eq!(t.creation_str(), Err(SchemaError::PrimaryAndCompositeKeyConflict));
}

#[test]
fn two_primary_keys_rejected() {
    let t = TableInfo {
        name: "T".to_string(),
        fields: vec![
            field("a", req(ScalarType::I32), vec![Attribute::PrimaryKey]),
            field("b", req(ScalarType::I32), vec![Attribute::PrimaryKey, Attribute::CompositeKey]),
        ],
    };
    assert_eq!(t.creation_str(), Err(SchemaError::MultiplePrimaryKeys));
}

#[test]
fn composite_key_line() {
    let t = TableInfo {
        name: "Membership".to_string(),
        fields: vec![
            field("team", req(ScalarType::I32), vec![Attribute::CompositeKey]),
            field("member", req(ScalarType::I32), vec![Attribute::CompositeKey]),
            field("since", FieldType::Optional(ScalarType::Date), vec![]),
        ],
    };
    assert_eq!(
        t.creation_str().unwrap(),
        "CREATE TABLE IF NOT EXISTS Membership (\n  team INTEGER NOT NULL,\n  member INTEGER NOT NULL,\n  since DATE,\n  PRIMARY KEY (team, member)\n)"
    );
}

#[test]
fn shared_target_single_clause() {
    let cascade = vec![Token::Comma, ident("on_delete"), Token::Eq, ident("CASCADE")];
    let t = TableInfo {
        name: "UserTeam".to_string(),
        fields: vec![
            field("id", req(ScalarType::I32), vec![Attribute::PrimaryKey]),
            field("team_member", req(ScalarType::I32), vec![fk("User", "id", cascade.clone())]),
            field("team_leader", req(ScalarType::I32), vec![fk("User", "id", cascade)]),
        ],
    };
    let clauses = t.foreign_keys().unwrap();
    assert_eq!(
        clauses,
        vec![
            "FOREIGN KEY (team_member, team_leader) REFERENCES User(id, id) ON UPDATE NO ACTION ON DELETE CASCADE"
                .to_string()
        ]
    );
    let ddl = t.creation_str().unwrap();
    assert_eq!(ddl.matches("FOREIGN KEY").count(), 1);
    assert!(ddl.ends_with(
        ",\n  FOREIGN KEY (team_member, team_leader) REFERENCES User(id, id) ON UPDATE NO ACTION ON DELETE CASCADE\n)"
    ));
}

#[test]
fn foreign_keys_grouped_by_first_reference() {
    let t = TableInfo {
        name: "Edge".to_string(),
        fields: vec![
            field("b_ref", req(ScalarType::I32), vec![fk("B", "id", vec![])]),
            field("a_ref", req(ScalarType::I32), vec![fk("A", "key", vec![])]),
            field("b_other", req(ScalarType::I32), vec![fk("B", "code", vec![])]),
        ],
    };
    assert_eq!(
        t.foreign_keys().unwrap(),
        vec![
            "FOREIGN KEY (b_ref, b_other) REFERENCES B(id, code) ON UPDATE NO ACTION ON DELETE NO ACTION"
                .to_string(),
            "FOREIGN KEY (a_ref) REFERENCES A(key) ON UPDATE NO ACTION ON DELETE NO ACTION".to_string(),
        ]
    );
}

#[test]
fn conflicting_grouped_actions_rejected() {
    let t = TableInfo {
        name: "Edge".to_string(),
        fields: vec![
            field(
                "x",
                req(ScalarType::I32),
                vec![fk("B", "id", vec![Token::Comma, ident("on_delete"), Token::Eq, ident("CASCADE")])],
            ),
            field("y", req(ScalarType::I32), vec![fk("B", "id", vec![])]),
        ],
    };
    assert_eq!(t.creation_str(), Err(SchemaError::ConflictingForeignKeyActions));
}

#[test]
fn duplicate_default_rejected() {
    let f = field(
        "x",
        req(ScalarType::Bool),
        vec![Attribute::Default(vec![ident("TRUE")]), Attribute::Default(vec![ident("FALSE")])],
    );
    assert_eq!(f.as_txt(), Err(SchemaError::DuplicateDefault));
    let t = TableInfo { name: "T".to_string(), fields: vec![f] };
    assert_eq!(t.creation_str(), Err(SchemaError::DuplicateDefault));
}

#[test]
fn duplicate_foreign_key_rejected() {
    let f = field("x", req(ScalarType::I32), vec![fk("A", "id", vec![]), fk("B", "id", vec![])]);
    assert_eq!(f.foreign_key(), Err(SchemaError::DuplicateForeignKey));
    assert_eq!(f.as_txt(), Err(SchemaError::DuplicateForeignKey));
}

#[test]
fn field_errors_in_declaration_order() {
    let t = TableInfo {
        name: "T".to_string(),
        fields: vec![
            field("a", req(ScalarType::I32), vec![Attribute::Default(vec![ident("NOW")])]),
            field("b", req(ScalarType::I32), vec![fk("A", "id", vec![]), fk("B", "id", vec![])]),
        ],
    };
    assert_eq!(t.creation_str(), Err(SchemaError::UnrecognizedDefault));
}

#[test]
fn column_text_forms() {
    let f = field(
        "score",
        FieldType::Optional(ScalarType::I64),
        vec![Attribute::Unique, Attribute::Default(vec![Token::Int(-42)])],
    );
    assert_eq!(f.as_txt().unwrap(), "score BIGINT UNIQUE DEFAULT -42");
    let g = field(
        "label",
        req(ScalarType::Text),
        vec![Attribute::Default(vec![Token::Str("it's".to_string())])],
    );
    assert_eq!(g.as_txt().unwrap(), "label TEXT NOT NULL DEFAULT 'it''s'");
    let h = field("ratio", FieldType::Optional(ScalarType::Float64), vec![]);
    assert_eq!(h.as_txt().unwrap(), "ratio DOUBLE");
    assert!(h.is_optional());
    assert!(!h.is_primary_key());
}

#[test]
fn builder_name_appends_suffix() {
    assert_eq!(user_table().builder_name(), "UserBuilder");
}

#[test]
fn descriptor_carries_flags() {
    let t = user_table().descriptor().unwrap();
    assert_eq!(t.name, "User");
    assert!(t.fields[0].primary_key);
    assert!(t.fields[2].unique);
    assert!(t.fields[3].default.is_some());
    assert_eq!(t.primary_key_count(), 1);
    assert!(t.composite_key_names().is_empty());
    assert!(t.fk_targets().is_empty());
    let _ = FKAction::NoAction;
}

#[test]
fn storage_types_of_rust_types() {
    assert_eq!(<i32 as DbType>::db_type(), "INTEGER");
    assert_eq!(<u64 as DbType>::db_type(), "UNSIGNED BIG INT");
    assert_eq!(<i8 as DbType>::db_type(), "TINYINT");
    assert_eq!(<String as DbType>::db_type(), "TEXT");
    assert_eq!(<Vec<u8> as DbType>::db_type(), "BLOB");
    assert_eq!(<Option<i64> as DbType>::db_type(), "BIGINT");
    assert_eq!(<Option<bool> as DbType>::field_type(), FieldType::Optional(ScalarType::Bool));
    assert_eq!(FieldType::Optional(ScalarType::Date).storage_type(), "DATE");
}

#[test]
fn row_statements() {
    let t = user_table().descriptor().unwrap();
    assert_eq!(t.column_getters(), "id,name,email,created");
    assert_eq!(t.select_sql("WHERE id = ?1"), "SELECT id,name,email,created FROM User WHERE id = ?1");
    assert_eq!(t.select_one_sql(""), "SELECT id,name,email,created FROM User  LIMIT 1");
    assert_eq!(t.delete_sql("WHERE id = 3"), "DELETE FROM User WHERE id = 3");
    assert_eq!(t.drop_table_sql(), "DROP TABLE IF EXISTS User");
}
