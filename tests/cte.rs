use typed_db::annotation::{Attribute, Token};
use typed_db::cte::{CteFieldInfo, CteFieldParam, CteInfo, CteTableParams};
use typed_db::error::SchemaError;
use typed_db::schema::TableDescriptor;
use typed_db::table::{FieldInfo, TableInfo};
use typed_db::types::{FieldType, ScalarType};

fn ident(s: &str) -> Token {
    Token::Ident(s.to_string())
}

fn s(v: &str) -> Token {
    Token::Str(v.to_string())
}

fn field(name: &str, ty: FieldType) -> FieldInfo {
    FieldInfo { name: name.to_string(), ty, attributes: vec![] }
}

fn tables() -> Vec<TableDescriptor> {
    let i = FieldType::Required(ScalarType::I32);
    let txt = FieldType::Required(ScalarType::Text);
    let dt = FieldType::Required(ScalarType::DateTime);
    vec![
        TableInfo {
            name: "User".to_string(),
            fields: vec![field("id", i), field("name", txt), field("email", txt), field("created", dt)],
        },
        TableInfo {
            name: "UserRole".to_string(),
            fields: vec![field("id", i), field("user_id", i), field("role", txt), field("active_date", dt)],
        },
    ]
    .into_iter()
    .map(|t| t.descriptor().unwrap())
    .collect()
}

fn param(table: &str, column: &str, alias: &str, pred: &str) -> Attribute {
    Attribute::Param(vec![ident(table), Token::PathSep, ident(column), ident("as"), s(alias), Token::Comma, s(pred)])
}

fn projected(name: &str, ty: FieldType, attributes: Vec<Attribute>) -> CteFieldInfo {
    CteFieldInfo { name: name.to_string(), ty, attributes }
}

fn active_user() -> CteInfo {
    CteInfo {
        name: "ActiveUser".to_string(),
        fields: vec![
            projected("id", FieldType::Required(ScalarType::I32), vec![param("User", "id", "u", "u.id = params.user_id")]),
            projected(
                "role",
                FieldType::Optional(ScalarType::Text),
                vec![param("UserRole", "role", "ur", "ur.user_id = params.user_id ORDER BY ur.active_date DESC LIMIT 1")],
            ),
        ],
        attributes: vec![Attribute::CteParams(vec![s("effective_time"), Token::Comma, s("user_id")])],
    }
}

#[test]
fn projection_text() {
    let q = active_user().cte_str(&tables()).unwrap();
    assert_eq!(
        q,
        "WITH params AS (SELECT ?1 AS effective_time, ?2 AS user_id)\nSELECT (SELECT u.id FROM User AS u, params WHERE u.id = params.user_id) AS id,\n(SELECT ur.role FROM UserRole AS ur, params WHERE ur.user_id = params.user_id ORDER BY ur.active_date DESC LIMIT 1) AS role;"
    );
    let plan = active_user().query_plan_str(&tables()).unwrap();
    assert_eq!(plan, format!("EXPLAIN QUERY PLAN {q}"));
}

#[test]
fn params_relation() {
    let c = active_user();
    assert_eq!(
        c.cte_str_params().unwrap(),
        "WITH params AS (SELECT ?1 AS effective_time, ?2 AS user_id)\n"
    );
    let none = CteInfo { name: "X".to_string(), fields: vec![], attributes: vec![] };
    assert_eq!(none.cte_str_params().unwrap(), "");
    let twice = CteInfo {
        name: "X".to_string(),
        fields: vec![],
        attributes: vec![Attribute::CteParams(vec![s("a")]), Attribute::CteParams(vec![s("b")])],
    };
    assert_eq!(twice.cte_str_params(), Err(SchemaError::DuplicateCteParams));
}

#[test]
fn cte_params_grammar() {
    let p = CteTableParams::parse(&vec![s("a"), Token::Comma, s("b"), Token::Comma]).unwrap();
    assert_eq!(p.param_list, vec!["a".to_string(), "b".to_string()]);
    assert_eq!(CteTableParams::parse(&vec![]).unwrap().param_list.len(), 0);
    assert_eq!(CteTableParams::parse(&vec![s("a"), s("b")]), Err(SchemaError::MalformedAnnotation));
    assert_eq!(CteTableParams::parse(&vec![ident("a")]), Err(SchemaError::MalformedAnnotation));
}

#[test]
fn field_param_grammar() {
    let toks = vec![ident("User"), Token::PathSep, ident("email"), ident("as"), s("u"), Token::Comma, s("u.id = 1")];
    let p = CteFieldParam::parse(&toks).unwrap();
    assert_eq!(p.table, "User");
    assert_eq!(p.field_name, "email");
    assert_eq!(p.table_shorthand, "u");
    assert_eq!(p.val, "u.id = 1");
    let short = vec![ident("User"), Token::PathSep, ident("email"), ident("as"), s("u")];
    assert_eq!(CteFieldParam::parse(&short), Err(SchemaError::MalformedAnnotation));
}

#[test]
fn projection_type_mismatch() {
    let c = CteInfo {
        name: "Bad".to_string(),
        fields: vec![projected("name", FieldType::Required(ScalarType::I64), vec![param("User", "name", "u", "1")])],
        attributes: vec![],
    };
    assert_eq!(c.cte_str(&tables()), Err(SchemaError::ProjectionTypeMismatch));
    let source = CteFieldParam {
        table: "User".to_string(),
        table_shorthand: "u".to_string(),
        field_name: "name".to_string(),
        val: "1".to_string(),
    };
    assert!(source.validity_check(FieldType::Required(ScalarType::Text), &tables()).is_ok());
    assert!(source.validity_check(FieldType::Optional(ScalarType::Text), &tables()).is_ok());
}

#[test]
fn projection_source_errors() {
    let missing = projected("x", FieldType::Required(ScalarType::I32), vec![]);
    assert_eq!(missing.select_stmt(&tables()), Err(SchemaError::MissingParam));
    let twice = projected(
        "x",
        FieldType::Required(ScalarType::I32),
        vec![param("User", "id", "u", "1"), param("User", "id", "u", "1")],
    );
    assert_eq!(twice.select_stmt(&tables()), Err(SchemaError::DuplicateParam));
    let unknown = projected("x", FieldType::Required(ScalarType::I32), vec![param("Team", "id", "t", "1")]);
    assert_eq!(unknown.select_stmt(&tables()), Err(SchemaError::UnknownProjectionSource));
    let no_col = projected("x", FieldType::Required(ScalarType::I32), vec![param("User", "age", "u", "1")]);
    assert_eq!(no_col.select_stmt(&tables()), Err(SchemaError::UnknownProjectionSource));
}
