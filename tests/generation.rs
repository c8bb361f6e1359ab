use postgres_mapper_derive::attr::{parse_table_attr, AttrArgs, AttrDecl, MetaItem};
use postgres_mapper_derive::emit::{
    impl_from_borrowed_row, impl_from_row, impl_postgres_mapper, sql_fields, sql_table, RowSource,
};
use postgres_mapper_derive::generate::{
    impl_derive, postgres_mapper, render, Capabilities, EmitConfig, ImplKind, RecordDecl,
};
use postgres_mapper_derive::schema::{extract_schema, DeclBody, FieldDecl, GenError};

fn field(ident: &str, ty: &str) -> FieldDecl {
    FieldDecl { ident: ident.to_string(), ty: ty.to_string() }
}

fn user_fields() -> Vec<FieldDecl> {
    vec![field("id", "i64"), field("email", "Option<String>")]
}

fn mapper_attr(items: Vec<MetaItem>) -> AttrDecl {
    AttrDecl { path: vec!["pg_mapper".to_string()], args: AttrArgs::List(items) }
}

fn table(literal: &str) -> MetaItem {
    MetaItem::NameValue { key: "table".to_string(), literal: literal.to_string() }
}

fn decl(name: &str, body: DeclBody, attrs: Vec<AttrDecl>) -> RecordDecl {
    RecordDecl { name: name.to_string(), body, attrs }
}

fn all_of(direct: bool, fallible: bool) -> Capabilities {
    Capabilities {
        direct_consuming: direct,
        direct_borrowing: direct,
        fallible_consuming: fallible,
        fallible_borrowing: fallible,
    }
}

fn postgres_only(direct: bool, fallible: bool, sql_metadata: bool) -> EmitConfig {
    EmitConfig { postgres: all_of(direct, fallible), tokio_postgres: all_of(false, false), sql_metadata }
}

#[test]
fn sql_table_pads_the_table_name() {
    assert_eq!(sql_table("user"), " user ");
}

#[test]
fn sql_fields_qualifies_fields_in_declaration_order() {
    assert_eq!(sql_fields("user", &user_fields()), " user.id, user.email ");
}

#[test]
fn sql_fields_of_one_field() {
    assert_eq!(sql_fields("posts", &vec![field("title", "String")]), " posts.title ");
}

#[test]
fn direct_converter_reads_each_field_in_order() {
    let code = impl_from_row(RowSource::Postgres, &"User".to_string(), &user_fields());
    assert_eq!(
        code,
        "\nimpl From<::postgres::Row> for User {\n    fn from(row: ::postgres::Row) -> Self {\n        Self {\n            id: row.get(\"id\"),\n            email: row.get(\"email\"),\n        }\n    }\n}"
    );
}

#[test]
fn borrowed_direct_converter_for_tokio_postgres() {
    let code = impl_from_borrowed_row(
        RowSource::TokioPostgres,
        &"User".to_string(),
        &vec![field("id", "i64")],
    );
    assert_eq!(
        code,
        "\nimpl<'a> From<&'a ::tokio_postgres::Row> for User {\n    fn from(row: &'a ::tokio_postgres::Row) -> Self {\n        Self {\n            id: row.get(\"id\"),\n        }\n    }\n}"
    );
}

#[test]
fn mapper_impl_with_metadata() {
    let code = impl_postgres_mapper(
        RowSource::Postgres,
        &"User".to_string(),
        &vec![field("id", "i64")],
        true,
        false,
        Some(&"user".to_string()),
    );
    assert_eq!(
        code,
        "\nimpl ::postgres_mapper::FromPostgresRow for User {\n    fn from_postgres_row(row: ::postgres::Row)\n        -> Result<Self, ::postgres_mapper::Error> {\n        Ok(Self {\n            id: row.try_get(row.columns().iter().position(|c| c.name() == \"id\").ok_or(::postgres_mapper::Error::ColumnNotFound)?).map_err(::postgres_mapper::Error::Postgres)?,\n        })\n    }\n    fn sql_table() -> String {\n        \" user \".to_string()\n    }\n    fn sql_fields() -> String {\n        \" user.id \".to_string()\n    }\n}"
    );
}

#[test]
fn tokio_mapper_wraps_conversion_errors() {
    let code = impl_postgres_mapper(
        RowSource::TokioPostgres,
        &"User".to_string(),
        &vec![field("id", "i64")],
        false,
        true,
        None,
    );
    assert_eq!(
        code,
        "\nimpl ::postgres_mapper::FromTokioPostgresRow for User {\n    fn from_tokio_postgres_row_ref(row: &::tokio_postgres::Row)\n        -> Result<Self, ::postgres_mapper::Error> {\n        Ok(Self {\n            id: row.try_get(row.columns().iter().position(|c| c.name() == \"id\").ok_or(::postgres_mapper::Error::ColumnNotFound)?).map_err(|e| ::postgres_mapper::Error::Conversion(::std::boxed::Box::new(e)))?,\n        })\n    }\n}"
    );
}

#[test]
fn metadata_without_table_fails() {
    let d = decl("User", DeclBody::NamedStruct(user_fields()), vec![]);
    assert_eq!(
        impl_derive(d, postgres_only(true, true, true)).err(),
        Some(GenError::MissingRequiredTableName)
    );
}

#[test]
fn converters_without_table_succeed() {
    let d = decl("User", DeclBody::NamedStruct(user_fields()), vec![]);
    let unit = impl_derive(d, postgres_only(true, true, false)).unwrap();
    assert_eq!(unit.record_name, "User");
    let kinds: Vec<ImplKind> = unit.fragments.iter().map(|f| f.kind).collect();
    assert_eq!(kinds, vec![ImplKind::FromRow, ImplKind::FromBorrowedRow, ImplKind::Mapper]);
    assert!(!unit.fragments[2].code.contains("sql_table"));
}

#[test]
fn distinct_records_generate_distinct_impls() {
    let config = EmitConfig {
        postgres: all_of(true, true),
        tokio_postgres: all_of(true, true),
        sql_metadata: true,
    };
    let a = decl("User", DeclBody::NamedStruct(user_fields()), vec![mapper_attr(vec![table("\"user\"")])]);
    let b = decl(
        "Ticket",
        DeclBody::NamedStruct(vec![field("id", "i64")]),
        vec![mapper_attr(vec![table("\"ticket\"")])],
    );
    let ua = impl_derive(a, config).unwrap();
    let ub = impl_derive(b, config).unwrap();
    assert_eq!(ua.record_name, "User");
    assert_eq!(ub.record_name, "Ticket");
    assert_eq!(ua.fragments.len(), 6);
    for f in &ua.fragments {
        assert!(f.code.contains(" for User {"));
        assert!(!f.code.contains("Ticket"));
    }
    for f in &ub.fragments {
        assert!(f.code.contains(" for Ticket {"));
        assert!(!f.code.contains("User"));
    }
}

#[test]
fn rendered_unit_is_fragments_in_order() {
    let d = decl("User", DeclBody::NamedStruct(user_fields()), vec![]);
    let config = EmitConfig {
        postgres: all_of(true, false),
        tokio_postgres: all_of(true, false),
        sql_metadata: false,
    };
    let unit = impl_derive(d, config).unwrap();
    let name = "User".to_string();
    let expected = impl_from_row(RowSource::Postgres, &name, &user_fields())
        + &impl_from_borrowed_row(RowSource::Postgres, &name, &user_fields())
        + &impl_from_row(RowSource::TokioPostgres, &name, &user_fields())
        + &impl_from_borrowed_row(RowSource::TokioPostgres, &name, &user_fields());
    assert_eq!(render(&unit), expected);
    let again = decl("User", DeclBody::NamedStruct(user_fields()), vec![]);
    assert_eq!(postgres_mapper(again, config).unwrap(), expected);
}

#[test]
fn enum_is_unsupported() {
    assert_eq!(extract_schema("E".to_string(), DeclBody::Enum).err(), Some(GenError::UnsupportedShape));
}

#[test]
fn union_is_unsupported() {
    assert_eq!(extract_schema("U".to_string(), DeclBody::Union).err(), Some(GenError::UnsupportedShape));
}

#[test]
fn tuple_struct_is_unsupported() {
    assert_eq!(
        extract_schema("T".to_string(), DeclBody::TupleStruct(2)).err(),
        Some(GenError::UnsupportedShape)
    );
}

#[test]
fn unit_struct_is_unsupported() {
    assert_eq!(
        extract_schema("S".to_string(), DeclBody::UnitStruct).err(),
        Some(GenError::UnsupportedShape)
    );
}

#[test]
fn empty_struct_is_unsupported() {
    assert_eq!(
        extract_schema("S".to_string(), DeclBody::NamedStruct(vec![])).err(),
        Some(GenError::UnsupportedShape)
    );
}

#[test]
fn named_struct_keeps_field_order() {
    let s = extract_schema("User".to_string(), DeclBody::NamedStruct(user_fields())).unwrap();
    assert_eq!(s.name, "User");
    let names: Vec<&str> = s.fields.iter().map(|f| f.ident.as_str()).collect();
    assert_eq!(names, vec!["id", "email"]);
}

#[test]
fn shape_error_comes_before_attribute_error() {
    let d = decl("E", DeclBody::Enum, vec![mapper_attr(vec![MetaItem::Path("skip".to_string())])]);
    assert_eq!(impl_derive(d, postgres_only(true, false, false)).err(), Some(GenError::UnsupportedShape));
}

#[test]
fn table_attribute_is_read() {
    let t = parse_table_attr(&vec![mapper_attr(vec![table("\"user\"")])]).unwrap();
    assert_eq!(t.table_name, Some("user".to_string()));
}

#[test]
fn absent_annotation_gives_no_table() {
    let other = AttrDecl { path: vec!["derive".to_string()], args: AttrArgs::List(vec![MetaItem::Path("Debug".to_string())]) };
    let t = parse_table_attr(&vec![other]).unwrap();
    assert_eq!(t.table_name, None);
}

#[test]
fn table_literal_escapes_are_decoded() {
    let t = parse_table_attr(&vec![mapper_attr(vec![table("\"us\\x65r\"")])]).unwrap();
    assert_eq!(t.table_name, Some("user".to_string()));
}

#[test]
fn later_table_overrides_earlier() {
    let attrs = vec![mapper_attr(vec![table("\"a\"")]), mapper_attr(vec![table("\"b\"")])];
    assert_eq!(parse_table_attr(&attrs).unwrap().table_name, Some("b".to_string()));
}

#[test]
fn unknown_key_is_rejected() {
    let item = MetaItem::NameValue { key: "schema".to_string(), literal: "\"x\"".to_string() };
    assert_eq!(
        parse_table_attr(&vec![mapper_attr(vec![table("\"user\""), item])]).err(),
        Some(GenError::UnknownAttributeKey("schema".to_string()))
    );
}

#[test]
fn bare_path_key_is_rejected() {
    assert_eq!(
        parse_table_attr(&vec![mapper_attr(vec![MetaItem::List("rename".to_string())])]).err(),
        Some(GenError::UnknownAttributeKey("rename".to_string()))
    );
}

#[test]
fn non_string_table_is_rejected() {
    assert_eq!(
        parse_table_attr(&vec![mapper_attr(vec![table("5")])]).err(),
        Some(GenError::InvalidAttributeValue)
    );
}

#[test]
fn word_annotation_is_malformed() {
    let attr = AttrDecl { path: vec!["pg_mapper".to_string()], args: AttrArgs::Empty };
    assert_eq!(parse_table_attr(&vec![attr]).err(), Some(GenError::MalformedAttribute));
}

#[test]
fn bare_literal_item_is_malformed() {
    assert_eq!(
        parse_table_attr(&vec![mapper_attr(vec![MetaItem::Literal("\"user\"".to_string())])]).err(),
        Some(GenError::MalformedAttribute)
    );
}

#[test]
fn first_bad_item_decides_the_error() {
    let items = vec![table("7"), MetaItem::Path("skip".to_string())];
    assert_eq!(parse_table_attr(&vec![mapper_attr(items)]).err(), Some(GenError::InvalidAttributeValue));
}

#[test]
fn metadata_literals_are_escaped() {
    let code = impl_postgres_mapper(
        RowSource::Postgres,
        &"Odd".to_string(),
        &vec![field("id", "i64")],
        false,
        false,
        Some(&"we\"ird".to_string()),
    );
    assert!(code.contains("        \" we\\\"ird \".to_string()"));
    assert!(code.contains("        \" we\\\"ird.id \".to_string()"));
}
