//! The Rust source of the row converters and of the SQL metadata accessors.
use vstd::prelude::*;
use crate::schema::{FieldDecl, idents};
use crate::text::{escaped, joined, push_escaped, separated};

verus! {

/// The row type that a generated converter reads from.
///
/// `postgres::Row` is a re-export of `tokio_postgres::Row`, so the `From` impls of the
/// two sources cannot both be emitted for one type; the mapper traits are distinct.
#[derive(Clone, Copy, Debug, PartialEq, Eq, Structural)]
pub enum RowSource {
    /// `postgres::Row`, through `postgres_mapper::FromPostgresRow`.
    Postgres,
    /// `tokio_postgres::Row`, through `postgres_mapper::FromTokioPostgresRow`.
    TokioPostgres,
}

/// The path of the row type.
pub open spec fn row_type(src: RowSource) -> Seq<char> {
    match src {
        RowSource::Postgres => "::postgres::Row"@,
        RowSource::TokioPostgres => "::tokio_postgres::Row"@,
    }
}

/// The path of the fallible conversion trait.
pub open spec fn mapper_trait(src: RowSource) -> Seq<char> {
    match src {
        RowSource::Postgres => "::postgres_mapper::FromPostgresRow"@,
        RowSource::TokioPostgres => "::postgres_mapper::FromTokioPostgresRow"@,
    }
}

/// The name of a fallible conversion method.
pub open spec fn mapper_method(src: RowSource, borrowed: bool) -> Seq<char> {
    match (src, borrowed) {
        (RowSource::Postgres, false) => "from_postgres_row"@,
        (RowSource::Postgres, true) => "from_postgres_row_ref"@,
        (RowSource::TokioPostgres, false) => "from_tokio_postgres_row"@,
        (RowSource::TokioPostgres, true) => "from_tokio_postgres_row_ref"@,
    }
}

/// How a driver's conversion error becomes a `postgres_mapper::Error`.
pub open spec fn error_mapping(src: RowSource) -> Seq<char> {
    match src {
        RowSource::Postgres => ".map_err(::postgres_mapper::Error::Postgres)?"@,
        RowSource::TokioPostgres => ".map_err(|e| ::postgres_mapper::Error::Conversion(::std::boxed::Box::new(e)))?"@,
    }
}

fn row_type_str(src: RowSource) -> (r: &'static str)
    ensures
        r@ == row_type(src),
{
    match src {
        RowSource::Postgres => "::postgres::Row",
        RowSource::TokioPostgres => "::tokio_postgres::Row",
    }
}

fn mapper_trait_str(src: RowSource) -> (r: &'static str)
    ensures
        r@ == mapper_trait(src),
{
    match src {
        RowSource::Postgres => "::postgres_mapper::FromPostgresRow",
        RowSource::TokioPostgres => "::postgres_mapper::FromTokioPostgresRow",
    }
}

fn mapper_method_str(src: RowSource, borrowed: bool) -> (r: &'static str)
    ensures
        r@ == mapper_method(src, borrowed),
{
    match (src, borrowed) {
        (RowSource::Postgres, false) => "from_postgres_row",
        (RowSource::Postgres, true) => "from_postgres_row_ref",
        (RowSource::TokioPostgres, false) => "from_tokio_postgres_row",
        (RowSource::TokioPostgres, true) => "from_tokio_postgres_row_ref",
    }
}

fn error_mapping_str(src: RowSource) -> (r: &'static str)
    ensures
        r@ == error_mapping(src),
{
    match src {
        RowSource::Postgres => ".map_err(::postgres_mapper::Error::Postgres)?",
        RowSource::TokioPostgres => ".map_err(|e| ::postgres_mapper::Error::Conversion(::std::boxed::Box::new(e)))?",
    }
}

/// The direct lookup of one field: the column named like the field, through `Row::get`,
/// which panics where the column is missing or does not convert.
pub open spec fn direct_lookup(ident: Seq<char>) -> Seq<char> {
    "\n            "@ + ident + ": row.get(\""@ + ident + "\"),"@
}

/// The fallible lookup of one field: a missing column is `Error::ColumnNotFound`, a value
/// that does not convert is the driver's error, and `?` stops at the first failure.
pub open spec fn fallible_lookup(src: RowSource, ident: Seq<char>) -> Seq<char> {
    "\n            "@ + ident
        + ": row.try_get(row.columns().iter().position(|c| c.name() == \""@ + ident
        + "\").ok_or(::postgres_mapper::Error::ColumnNotFound)?)"@ + error_mapping(src) + ","@
}

/// One direct lookup per field, in declaration order.
pub open spec fn direct_lookups(fields: Seq<FieldDecl>) -> Seq<Seq<char>> {
    idents(fields).map_values(|i: Seq<char>| direct_lookup(i))
}

/// One fallible lookup per field, in declaration order.
pub open spec fn fallible_lookups(src: RowSource, fields: Seq<FieldDecl>) -> Seq<Seq<char>> {
    idents(fields).map_values(|i: Seq<char>| fallible_lookup(src, i))
}

/// The start of an impl block, up to the name of the type it is for.
pub open spec fn from_opening(src: RowSource, borrowed: bool) -> Seq<char> {
    if borrowed {
        "\nimpl<'a> From<&'a "@ + row_type(src) + "> for "@
    } else {
        "\nimpl From<"@ + row_type(src) + "> for "@
    }
}

/// A `From` impl that converts a row, owned or borrowed, into the record, panicking
/// on a missing column or a value that does not convert.
pub open spec fn from_row_code(
    src: RowSource,
    borrowed: bool,
    name: Seq<char>,
    fields: Seq<FieldDecl>,
) -> Seq<char> {
    from_opening(src, borrowed) + name + " {"@ + "\n    fn from(row: "@ + (if borrowed {
        "&'a "@
    } else {
        Seq::empty()
    }) + row_type(src) + ") -> Self {\n        Self {"@ + joined(direct_lookups(fields))
        + "\n        }\n    }\n}"@
}

/// A fallible conversion method of the mapper trait.
pub open spec fn mapper_method_code(
    src: RowSource,
    borrowed: bool,
    fields: Seq<FieldDecl>,
) -> Seq<char> {
    "\n    fn "@ + mapper_method(src, borrowed) + "(row: "@ + (if borrowed {
        "&"@
    } else {
        Seq::empty()
    }) + row_type(src) + ")\n        -> Result<Self, ::postgres_mapper::Error> {\n        Ok(Self {"@
        + joined(fallible_lookups(src, fields)) + "\n        })\n    }"@
}

/// The value of the table-name accessor: the name with one space on each side.
pub open spec fn sql_table_value(table: Seq<char>) -> Seq<char> {
    " "@ + table + " "@
}

/// A field identifier qualified by the table name.
pub open spec fn qualified(table: Seq<char>, ident: Seq<char>) -> Seq<char> {
    table + "."@ + ident
}

/// The value of the field-list accessor: each field as `table.field`, in declaration
/// order, joined by `, `, with one space on each side.
pub open spec fn sql_fields_value(table: Seq<char>, fields: Seq<FieldDecl>) -> Seq<char> {
    " "@ + separated(idents(fields).map_values(|i: Seq<char>| qualified(table, i)), ", "@)
        + " "@
}

/// The two SQL metadata accessors of the mapper trait; their values are written as
/// string literals.
pub open spec fn metadata_code(table: Seq<char>, fields: Seq<FieldDecl>) -> Seq<char> {
    "\n    fn sql_table() -> String {\n        \""@ + escaped(sql_table_value(table))
        + "\".to_string()\n    }\n    fn sql_fields() -> String {\n        \""@ + escaped(
        sql_fields_value(table, fields),
    ) + "\".to_string()\n    }"@
}

/// The start of the mapper impl, up to the name of the type it is for.
pub open spec fn mapper_opening(src: RowSource) -> Seq<char> {
    "\nimpl "@ + mapper_trait(src) + " for "@
}

/// The impl of the mapper trait: the fallible methods that are asked for, and the SQL
/// metadata accessors where a table name is given.
pub open spec fn mapper_code(
    src: RowSource,
    name: Seq<char>,
    fields: Seq<FieldDecl>,
    consuming: bool,
    borrowing: bool,
    table: Option<Seq<char>>,
) -> Seq<char> {
    mapper_opening(src) + name + " {"@ + (if consuming {
        mapper_method_code(src, false, fields)
    } else {
        Seq::empty()
    }) + (if borrowing {
        mapper_method_code(src, true, fields)
    } else {
        Seq::empty()
    }) + (match table {
        Some(t) => metadata_code(t, fields),
        None => Seq::empty(),
    }) + "\n}"@
}

fn push_direct_lookups(out: &mut String, fields: &Vec<FieldDecl>)
    ensures
        final(out)@ == old(out)@ + joined(direct_lookups(fields@)),
{
    let ghost start = out@;
    let mut i: usize = 0;
    while i < fields.len()
        invariant
            i <= fields.len(),
            out@ == start + joined(direct_lookups(fields@.subrange(0, i as int))),
        decreases fields.len() - i,
    {
        let ident = fields[i].ident.as_str();
        out.append("\n            ");
        out.append(ident);
        out.append(": row.get(\"");
        out.append(ident);
        out.append("\"),");
        proof {
            let done = direct_lookups(fields@.subrange(0, i + 1));
            assert(done.drop_last() =~= direct_lookups(fields@.subrange(0, i as int)));
            assert(done.last() == direct_lookup(fields@[i as int].ident@));
            assert(out@ =~= start + joined(done));
        }
        i = i + 1;
    }
    proof {
        assert(fields@.subrange(0, i as int) =~= fields@);
    }
}

fn push_fallible_lookups(out: &mut String, src: RowSource, fields: &Vec<FieldDecl>)
    ensures
        final(out)@ == old(out)@ + joined(fallible_lookups(src, fields@)),
{
    let ghost start = out@;
    let mapping = error_mapping_str(src);
    let mut i: usize = 0;
    while i < fields.len()
        invariant
            i <= fields.len(),
            mapping@ == error_mapping(src),
            out@ == start + joined(fallible_lookups(src, fields@.subrange(0, i as int))),
        decreases fields.len() - i,
    {
        let ident = fields[i].ident.as_str();
        out.append("\n            ");
        out.append(ident);
        out.append(": row.try_get(row.columns().iter().position(|c| c.name() == \"");
        out.append(ident);
        out.append("\").ok_or(::postgres_mapper::Error::ColumnNotFound)?)");
        out.append(mapping);
        out.append(",");
        proof {
            let done = fallible_lookups(src, fields@.subrange(0, i + 1));
            assert(done.drop_last() =~= fallible_lookups(src, fields@.subrange(0, i as int)));
            assert(done.last() == fallible_lookup(src, fields@[i as int].ident@));
            assert(out@ =~= start + joined(done));
        }
        i = i + 1;
    }
    proof {
        assert(fields@.subrange(0, i as int) =~= fields@);
    }
}

fn from_row_impl(src: RowSource, borrowed: bool, name: &String, fields: &Vec<FieldDecl>) -> (r:
    String)
    ensures
        r@ == from_row_code(src, borrowed, name@, fields@),
{
    let row = row_type_str(src);
    let mut out = String::new();
    if borrowed {
        out.append("\nimpl<'a> From<&'a ");
    } else {
        out.append("\nimpl From<");
    }
    out.append(row);
    out.append("> for ");
    out.append(name.as_str());
    out.append(" {");
    out.append("\n    fn from(row: ");
    if borrowed {
        out.append("&'a ");
    }
    out.append(row);
    out.append(") -> Self {\n        Self {");
    let ghost head = out@;
    push_direct_lookups(&mut out, fields);
    let ghost body = out@;
    out.append("\n        }\n    }\n}");
    proof {
        assert(head =~= from_opening(src, borrowed) + name@ + " {"@ + "\n    fn from(row: "@ + (if borrowed {
            "&'a "@
        } else {
            Seq::empty()
        }) + row_type(src) + ") -> Self {\n        Self {"@);
    }
    out
}

/// The `From<Row>` impl of a record type: each field read with `Row::get` from the
/// column of the same name, in declaration order.
pub fn impl_from_row(src: RowSource, name: &String, fields: &Vec<FieldDecl>) -> (r: String)
    ensures
        r@ == from_row_code(src, false, name@, fields@),
{
    from_row_impl(src, false, name, fields)
}

/// The `From<&Row>` impl of a record type, reading the fields as [`impl_from_row`] does.
pub fn impl_from_borrowed_row(src: RowSource, name: &String, fields: &Vec<FieldDecl>) -> (r:
    String)
    ensures
        r@ == from_row_code(src, true, name@, fields@),
{
    from_row_impl(src, true, name, fields)
}

/// The value of the table-name accessor for `table`: `" user "` for `user`.
pub fn sql_table(table: &str) -> (r: String)
    ensures
        r@ == sql_table_value(table@),
{
    let mut out = String::from_str(" ");
    out.append(table);
    out.append(" ");
    out
}

/// The value of the field-list accessor: `" user.id, user.email "` for table `user`
/// and fields `id`, `email`.
pub fn sql_fields(table: &str, fields: &Vec<FieldDecl>) -> (r: String)
    ensures
        r@ == sql_fields_value(table@, fields@),
{
    let ghost sep = ", "@;
    let mut out = String::from_str(" ");
    let mut i: usize = 0;
    while i < fields.len()
        invariant
            i <= fields.len(),
            sep == ", "@,
            out@ == " "@ + separated(
                idents(fields@.subrange(0, i as int)).map_values(
                    |f: Seq<char>| qualified(table@, f),
                ),
                sep,
            ),
        decreases fields.len() - i,
    {
        let ghost before = out@;
        if i > 0 {
            out.append(", ");
        }
        out.append(table);
        out.append(".");
        out.append(fields[i].ident.as_str());
        proof {
            let parts = idents(fields@.subrange(0, i + 1)).map_values(
                |f: Seq<char>| qualified(table@, f),
            );
            let prev = idents(fields@.subrange(0, i as int)).map_values(
                |f: Seq<char>| qualified(table@, f),
            );
            assert(parts.drop_last() =~= prev);
            assert(parts.last() == qualified(table@, fields@[i as int].ident@));
            if i == 0 {
                assert(prev.len() == 0);
                assert(out@ =~= " "@ + separated(parts, sep));
            } else {
                assert(out@ =~= " "@ + separated(parts, sep));
            }
        }
        i = i + 1;
    }
    proof {
        assert(fields@.subrange(0, i as int) =~= fields@);
    }
    out.append(" ");
    out
}

fn push_mapper_method(out: &mut String, src: RowSource, borrowed: bool, fields: &Vec<FieldDecl>)
    ensures
        final(out)@ == old(out)@ + mapper_method_code(src, borrowed, fields@),
{
    let ghost start = out@;
    let row = row_type_str(src);
    out.append("\n    fn ");
    out.append(mapper_method_str(src, borrowed));
    out.append("(row: ");
    if borrowed {
        out.append("&");
    }
    out.append(row);
    out.append(")\n        -> Result<Self, ::postgres_mapper::Error> {\n        Ok(Self {");
    let ghost head = out@;
    push_fallible_lookups(out, src, fields);
    out.append("\n        })\n    }");
    proof {
        assert(head =~= start + ("\n    fn "@ + mapper_method(src, borrowed) + "(row: "@ + (if borrowed {
            "&"@
        } else {
            Seq::empty()
        }) + row_type(src)
            + ")\n        -> Result<Self, ::postgres_mapper::Error> {\n        Ok(Self {"@));
        assert(final(out)@ =~= start + mapper_method_code(src, borrowed, fields@));
    }
}

fn push_metadata(out: &mut String, table: &str, fields: &Vec<FieldDecl>)
    ensures
        final(out)@ == old(out)@ + metadata_code(table@, fields@),
{
    let ghost start = out@;
    out.append("\n    fn sql_table() -> String {\n        \"");
    let t = sql_table(table);
    push_escaped(out, t.as_str());
    out.append("\".to_string()\n    }\n    fn sql_fields() -> String {\n        \"");
    let f = sql_fields(table, fields);
    push_escaped(out, f.as_str());
    out.append("\".to_string()\n    }");
    proof {
        assert(final(out)@ =~= start + metadata_code(table@, fields@));
    }
}

/// The impl of `postgres_mapper::FromPostgresRow` (or `FromTokioPostgresRow`) for a
/// record type: the consuming and borrowing fallible methods where asked for, then
/// `sql_table` and `sql_fields` where a table name is given.
pub fn impl_postgres_mapper(
    src: RowSource,
    name: &String,
    fields: &Vec<FieldDecl>,
    consuming: bool,
    borrowing: bool,
    table: Option<&String>,
) -> (r: String)
    ensures
        r@ == mapper_code(
            src,
            name@,
            fields@,
            consuming,
            borrowing,
            match table {
                Some(t) => Some(t@),
                None => None,
            },
        ),
{
    let mut out = String::new();
    out.append("\nimpl ");
    out.append(mapper_trait_str(src));
    out.append(" for ");
    out.append(name.as_str());
    out.append(" {");
    let ghost a = out@;
    if consuming {
        push_mapper_method(&mut out, src, false, fields);
    }
    if borrowing {
        push_mapper_method(&mut out, src, true, fields);
    }
    match table {
        Some(t) => push_metadata(&mut out, t.as_str(), fields),
        None => {},
    }
    out.append("\n}");
    proof {
        assert(a =~= mapper_opening(src) + name@ + " {"@);
    }
    out
}

} // verus!
