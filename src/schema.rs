//! Record declarations, their validated schema, and generation-time errors.
use vstd::prelude::*;

verus! {

/// A named field of a record type: its identifier and its declared type, as source text.
pub struct FieldDecl {
    pub ident: String,
    pub ty: String,
}

/// The body of a declaration handed to the generator.
pub enum DeclBody {
    /// `struct S { a: A, b: B }`, fields in declaration order.
    NamedStruct(Vec<FieldDecl>),
    /// `struct S(A, B);` with the number of positional members.
    TupleStruct(usize),
    /// `struct S;`
    UnitStruct,
    Enum,
    Union,
}

/// Why code could not be generated for a declaration.
#[derive(Debug, PartialEq, Eq)]
pub enum GenError {
    /// Not a struct with at least one named field.
    UnsupportedShape,
    /// A key other than `table` inside `#[pg_mapper(...)]`; carries the key.
    UnknownAttributeKey(String),
    /// `table = ...` whose value is not a string literal.
    InvalidAttributeValue,
    /// `#[pg_mapper]` that is not a parenthesised list of `key = value` items.
    MalformedAttribute,
    /// SQL metadata was requested but the declaration names no table.
    MissingRequiredTableName,
}

/// A validated record type: its name and its fields in declaration order.
pub struct RecordSchema {
    pub name: String,
    pub fields: Vec<FieldDecl>,
}

/// The fields that a body maps to, or why it cannot be mapped field by field.
pub open spec fn schema_fields(body: DeclBody) -> Result<Seq<FieldDecl>, GenError> {
    match body {
        DeclBody::NamedStruct(fields) => if fields@.len() > 0 {
            Ok(fields@)
        } else {
            Err(GenError::UnsupportedShape)
        },
        _ => Err(GenError::UnsupportedShape),
    }
}

/// The identifiers of the fields, in declaration order.
pub open spec fn idents(fields: Seq<FieldDecl>) -> Seq<Seq<char>> {
    fields.map_values(|f: FieldDecl| f.ident@)
}

/// Builds the schema of a record type from its name and body.
pub fn extract_schema(name: String, body: DeclBody) -> (r: Result<RecordSchema, GenError>)
    ensures
        match (r, schema_fields(body)) {
            (Ok(s), Ok(fields)) => s.name == name && s.fields@ == fields,
            (Err(e), Err(e2)) => e == e2,
            _ => false,
        },
{
    match body {
        DeclBody::NamedStruct(fields) => {
            if fields.len() > 0 {
                Ok(RecordSchema { name, fields })
            } else {
                Err(GenError::UnsupportedShape)
            }
        },
        _ => Err(GenError::UnsupportedShape),
    }
}

} // verus!
