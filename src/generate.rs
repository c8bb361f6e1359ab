//! One generation pass: validate a declaration and emit its converters.
use vstd::prelude::*;
use crate::attr::{AttrDecl, parse_table_attr, table_of};
use crate::emit::{
    RowSource,
    from_row_code,
    impl_from_borrowed_row,
    impl_from_row,
    impl_postgres_mapper,
    mapper_code,
};
use crate::schema::{DeclBody, FieldDecl, GenError, RecordSchema, extract_schema, schema_fields};
use crate::text::joined;

verus! {

/// A record type as the host hands it over: name, body and attributes.
pub struct RecordDecl {
    pub name: String,
    pub body: DeclBody,
    pub attrs: Vec<AttrDecl>,
}

/// The conversions to emit for one row source.
#[derive(Clone, Copy, Debug, PartialEq, Eq, Structural)]
pub struct Capabilities {
    /// `From<Row>`, panicking on failure.
    pub direct_consuming: bool,
    /// `From<&Row>`, panicking on failure.
    pub direct_borrowing: bool,
    /// The mapper trait's method that takes a `Row` and returns a `Result`.
    pub fallible_consuming: bool,
    /// The mapper trait's method that takes a `&Row` and returns a `Result`.
    pub fallible_borrowing: bool,
}

/// What a generation pass emits.
#[derive(Clone, Copy, Debug, PartialEq, Eq, Structural)]
pub struct EmitConfig {
    pub postgres: Capabilities,
    pub tokio_postgres: Capabilities,
    /// `sql_table` and `sql_fields` in each mapper impl; needs a table name.
    pub sql_metadata: bool,
}

/// Which impl a fragment is.
#[derive(Clone, Copy, Debug, PartialEq, Eq, Structural)]
pub enum ImplKind {
    FromRow,
    FromBorrowedRow,
    Mapper,
}

/// One emitted impl block.
pub struct Fragment {
    pub source: RowSource,
    pub kind: ImplKind,
    pub code: String,
}

impl View for Fragment {
    type V = (RowSource, ImplKind, Seq<char>);

    open spec fn view(&self) -> (RowSource, ImplKind, Seq<char>) {
        (self.source, self.kind, self.code@)
    }
}

/// The code generated for one record type: every fragment is an impl for `record_name`.
pub struct GeneratedUnit {
    pub record_name: String,
    pub fragments: Vec<Fragment>,
}

impl View for GeneratedUnit {
    type V = (Seq<char>, Seq<(RowSource, ImplKind, Seq<char>)>);

    open spec fn view(&self) -> (Seq<char>, Seq<(RowSource, ImplKind, Seq<char>)>) {
        (self.record_name@, self.fragments@.map_values(|f: Fragment| f@))
    }
}

/// The fragments for one row source, in the order `From<Row>`, `From<&Row>`, mapper.
pub open spec fn source_fragments(
    src: RowSource,
    caps: Capabilities,
    name: Seq<char>,
    fields: Seq<FieldDecl>,
    table: Option<Seq<char>>,
) -> Seq<(RowSource, ImplKind, Seq<char>)> {
    (if caps.direct_consuming {
        seq![(src, ImplKind::FromRow, from_row_code(src, false, name, fields))]
    } else {
        Seq::empty()
    }) + (if caps.direct_borrowing {
        seq![(src, ImplKind::FromBorrowedRow, from_row_code(src, true, name, fields))]
    } else {
        Seq::empty()
    }) + (if caps.fallible_consuming || caps.fallible_borrowing {
        seq![
            (
                src,
                ImplKind::Mapper,
                mapper_code(
                    src,
                    name,
                    fields,
                    caps.fallible_consuming,
                    caps.fallible_borrowing,
                    table,
                ),
            ),
        ]
    } else {
        Seq::empty()
    })
}

/// The fragments of a unit: those for `postgres`, then those for `tokio-postgres`.
/// `table` is the name the metadata accessors use, or `None` where they are not emitted.
pub open spec fn unit_fragments(
    name: Seq<char>,
    fields: Seq<FieldDecl>,
    table: Option<Seq<char>>,
    config: EmitConfig,
) -> Seq<(RowSource, ImplKind, Seq<char>)> {
    source_fragments(RowSource::Postgres, config.postgres, name, fields, table) + source_fragments(
        RowSource::TokioPostgres,
        config.tokio_postgres,
        name,
        fields,
        table,
    )
}

/// The outcome of a generation pass: the shape is checked first, then the attributes,
/// then that metadata has a table name.
pub open spec fn generated(decl: RecordDecl, config: EmitConfig) -> Result<
    (Seq<char>, Seq<(RowSource, ImplKind, Seq<char>)>),
    GenError,
> {
    match schema_fields(decl.body) {
        Err(e) => Err(e),
        Ok(fields) => match table_of(decl.attrs@) {
            Err(e) => Err(e),
            Ok(table) => if config.sql_metadata {
                match table {
                    Some(t) => Ok((decl.name@, unit_fragments(decl.name@, fields, Some(t), config))),
                    None => Err(GenError::MissingRequiredTableName),
                }
            } else {
                Ok((decl.name@, unit_fragments(decl.name@, fields, None, config)))
            },
        },
    }
}

fn push_source_fragments(
    out: &mut Vec<Fragment>,
    src: RowSource,
    caps: Capabilities,
    schema: &RecordSchema,
    table: Option<&String>,
)
    ensures
        final(out)@.map_values(|f: Fragment| f@) == old(out)@.map_values(|f: Fragment| f@)
            + source_fragments(
            src,
            caps,
            schema.name@,
            schema.fields@,
            match table {
                Some(t) => Some(t@),
                None => None,
            },
        ),
{
    let ghost start = out@.map_values(|f: Fragment| f@);
    let ghost t = match table {
        Some(t) => Some(t@),
        None => None,
    };
    if caps.direct_consuming {
        let code = impl_from_row(src, &schema.name, &schema.fields);
        out.push(Fragment { source: src, kind: ImplKind::FromRow, code });
    }
    let ghost a = out@.map_values(|f: Fragment| f@);
    if caps.direct_borrowing {
        let code = impl_from_borrowed_row(src, &schema.name, &schema.fields);
        out.push(Fragment { source: src, kind: ImplKind::FromBorrowedRow, code });
    }
    let ghost b = out@.map_values(|f: Fragment| f@);
    if caps.fallible_consuming || caps.fallible_borrowing {
        let code = impl_postgres_mapper(
            src,
            &schema.name,
            &schema.fields,
            caps.fallible_consuming,
            caps.fallible_borrowing,
            table,
        );
        out.push(Fragment { source: src, kind: ImplKind::Mapper, code });
    }
    proof {
        assert(a =~= start + (if caps.direct_consuming {
            seq![(src, ImplKind::FromRow, from_row_code(src, false, schema.name@, schema.fields@))]
        } else {
            Seq::empty()
        }));
        assert(b =~= a + (if caps.direct_borrowing {
            seq![
                (
                    src,
                    ImplKind::FromBorrowedRow,
                    from_row_code(src, true, schema.name@, schema.fields@),
                ),
            ]
        } else {
            Seq::empty()
        }));
        assert(final(out)@.map_values(|f: Fragment| f@) =~= start + source_fragments(
            src,
            caps,
            schema.name@,
            schema.fields@,
            t,
        ));
    }
}

/// Validates a declaration and emits the impls that `config` asks for.
///
/// Fails with `UnsupportedShape` for anything but a struct with named fields, with the
/// first error in a `#[pg_mapper(...)]` annotation, and with `MissingRequiredTableName`
/// where SQL metadata is asked for and no table is named.
pub fn impl_derive(decl: RecordDecl, config: EmitConfig) -> (r: Result<GeneratedUnit, GenError>)
    ensures
        match (r, generated(decl, config)) {
            (Ok(u), Ok(v)) => u@ == v,
            (Err(e), Err(e2)) => e == e2,
            _ => false,
        },
{
    let RecordDecl { name, body, attrs } = decl;
    let shape = extract_schema(name, body);
    let table = parse_table_attr(&attrs);
    let schema = match shape {
        Ok(s) => s,
        Err(e) => {
            return Err(e);
        },
    };
    let table_name = match table {
        Ok(t) => t.table_name,
        Err(e) => {
            return Err(e);
        },
    };
    let metadata_table: Option<&String> = if config.sql_metadata {
        match &table_name {
            Some(t) => Some(t),
            None => {
                return Err(GenError::MissingRequiredTableName);
            },
        }
    } else {
        None
    };
    let mut fragments: Vec<Fragment> = Vec::new();
    push_source_fragments(
        &mut fragments,
        RowSource::Postgres,
        config.postgres,
        &schema,
        metadata_table,
    );
    push_source_fragments(
        &mut fragments,
        RowSource::TokioPostgres,
        config.tokio_postgres,
        &schema,
        metadata_table,
    );
    proof {
        assert(fragments@.map_values(|f: Fragment| f@) =~= unit_fragments(
            schema.name@,
            schema.fields@,
            match metadata_table {
                Some(t) => Some(t@),
                None => None,
            },
            config,
        ));
    }
    Ok(GeneratedUnit { record_name: schema.name, fragments })
}

/// The source of a unit: its fragments one after another.
pub fn render(unit: &GeneratedUnit) -> (r: String)
    ensures
        r@ == joined(unit@.1.map_values(|f: (RowSource, ImplKind, Seq<char>)| f.2)),
{
    let mut out = String::new();
    let mut i: usize = 0;
    while i < unit.fragments.len()
        invariant
            i <= unit.fragments.len(),
            out@ == joined(
                unit@.1.subrange(0, i as int).map_values(
                    |f: (RowSource, ImplKind, Seq<char>)| f.2,
                ),
            ),
        decreases unit.fragments.len() - i,
    {
        out.append(unit.fragments[i].code.as_str());
        proof {
            let done = unit@.1.subrange(0, i + 1).map_values(
                |f: (RowSource, ImplKind, Seq<char>)| f.2,
            );
            assert(done.drop_last() =~= unit@.1.subrange(0, i as int).map_values(
                |f: (RowSource, ImplKind, Seq<char>)| f.2,
            ));
        }
        i = i + 1;
    }
    proof {
        assert(unit@.1.subrange(0, i as int) =~= unit@.1);
    }
    out
}

/// Validates a declaration and returns the source of its impls, in the order
/// `postgres` then `tokio-postgres`, and for each `From<Row>`, `From<&Row>`, mapper.
pub fn postgres_mapper(decl: RecordDecl, config: EmitConfig) -> (r: Result<String, GenError>)
    ensures
        match (r, generated(decl, config)) {
            (Ok(s), Ok(v)) => s@ == joined(
                v.1.map_values(|f: (RowSource, ImplKind, Seq<char>)| f.2),
            ),
            (Err(e), Err(e2)) => e == e2,
            _ => false,
        },
{
    match impl_derive(decl, config) {
        Ok(unit) => Ok(render(&unit)),
        Err(e) => Err(e),
    }
}

} // verus!
