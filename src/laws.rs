//! Properties that relate several functions of the library.
use vstd::prelude::*;
use crate::attr::{AttrDecl, apply_attrs, is_mapper_attr, table_of};
use crate::emit::{
    RowSource,
    direct_lookup,
    direct_lookups,
    from_opening,
    from_row_code,
    mapper_code,
    mapper_opening,
};
use crate::generate::{
    Capabilities,
    EmitConfig,
    ImplKind,
    RecordDecl,
    generated,
    source_fragments,
    unit_fragments,
};
use crate::rows::{
    Column,
    RowError,
    column_index,
    convert,
    fixture_columns,
    lemma_column_index,
    lemma_failure_persists,
    read_column,
    read_fields,
    texts,
};
use crate::schema::{FieldDecl, GenError, idents, schema_fields};

verus! {

/// The text that every impl of a given kind for `name` starts with.
pub open spec fn impl_header(src: RowSource, kind: ImplKind, name: Seq<char>) -> Seq<char> {
    let opening = match kind {
        ImplKind::FromRow => from_opening(src, false),
        ImplKind::FromBorrowedRow => from_opening(src, true),
        ImplKind::Mapper => mapper_opening(src),
    };
    opening + name + " {"@
}

/// Every fragment is an impl for the type `name`.
pub open spec fn all_impls_for(frags: Seq<(RowSource, ImplKind, Seq<char>)>, name: Seq<char>) -> bool {
    forall|i: int|
        0 <= i < frags.len() ==> {
            let h = impl_header(#[trigger] frags[i].0, frags[i].1, name);
            h.len() <= frags[i].2.len() && frags[i].2.subrange(0, h.len() as int) == h
        }
}

/// No two fragments are the same impl for the same row source.
pub open spec fn distinct_impls(frags: Seq<(RowSource, ImplKind, Seq<char>)>) -> bool {
    forall|i: int, j: int|
        0 <= i < j < frags.len() ==> (#[trigger] frags[i].0, frags[i].1) != (
            #[trigger] frags[j].0,
            frags[j].1,
        )
}

proof fn lemma_header_prefix(h: Seq<char>, rest: Seq<char>)
    ensures
        (h + rest).subrange(0, h.len() as int) == h,
{
    assert((h + rest).subrange(0, h.len() as int) =~= h);
}

proof fn lemma_source_fragments_shape(
    src: RowSource,
    caps: Capabilities,
    name: Seq<char>,
    fields: Seq<FieldDecl>,
    table: Option<Seq<char>>,
)
    ensures
        all_impls_for(source_fragments(src, caps, name, fields, table), name),
        distinct_impls(source_fragments(src, caps, name, fields, table)),
        forall|i: int|
            0 <= i < source_fragments(src, caps, name, fields, table).len() ==> (
            #[trigger] source_fragments(src, caps, name, fields, table)[i]).0 == src,
{
    let frags = source_fragments(src, caps, name, fields, table);
    let direct = from_row_code(src, false, name, fields);
    let borrowed = from_row_code(src, true, name, fields);
    let mapper = mapper_code(
        src,
        name,
        fields,
        caps.fallible_consuming,
        caps.fallible_borrowing,
        table,
    );
    let hd = impl_header(src, ImplKind::FromRow, name);
    let hb = impl_header(src, ImplKind::FromBorrowedRow, name);
    let hm = impl_header(src, ImplKind::Mapper, name);
    lemma_header_prefix(hd, direct.subrange(hd.len() as int, direct.len() as int));
    assert(direct =~= hd + direct.subrange(hd.len() as int, direct.len() as int));
    lemma_header_prefix(hb, borrowed.subrange(hb.len() as int, borrowed.len() as int));
    assert(borrowed =~= hb + borrowed.subrange(hb.len() as int, borrowed.len() as int));
    lemma_header_prefix(hm, mapper.subrange(hm.len() as int, mapper.len() as int));
    assert(mapper =~= hm + mapper.subrange(hm.len() as int, mapper.len() as int));
}

proof fn lemma_unit_shape(
    name: Seq<char>,
    fields: Seq<FieldDecl>,
    table: Option<Seq<char>>,
    config: EmitConfig,
)
    ensures
        all_impls_for(unit_fragments(name, fields, table, config), name),
        distinct_impls(unit_fragments(name, fields, table, config)),
{
    let p = source_fragments(RowSource::Postgres, config.postgres, name, fields, table);
    let t = source_fragments(RowSource::TokioPostgres, config.tokio_postgres, name, fields, table);
    lemma_source_fragments_shape(RowSource::Postgres, config.postgres, name, fields, table);
    lemma_source_fragments_shape(
        RowSource::TokioPostgres,
        config.tokio_postgres,
        name,
        fields,
        table,
    );
    let u = unit_fragments(name, fields, table, config);
    assert(u == p + t);
    assert forall|i: int, j: int| 0 <= i < j < u.len() implies (#[trigger] u[i].0, u[i].1) != (
        #[trigger] u[j].0,
        u[j].1,
    ) by {
        if j < p.len() {
            assert(u[i] == p[i] && u[j] == p[j]);
        } else if i >= p.len() {
            assert(u[i] == t[i - p.len()] && u[j] == t[j - p.len()]);
        } else {
            assert(u[i] == p[i] && u[j] == t[j - p.len()]);
        }
    }
    assert forall|i: int| 0 <= i < u.len() implies {
        let h = impl_header(#[trigger] u[i].0, u[i].1, name);
        h.len() <= u[i].2.len() && u[i].2.subrange(0, h.len() as int) == h
    } by {
        if i < p.len() {
            assert(u[i] == p[i]);
        } else {
            assert(u[i] == t[i - p.len()]);
        }
    }
}

/// Units generated for two differently named record types do not collide: each is keyed
/// by its own record's name, every fragment of a unit is an impl for that name, and no
/// unit holds the same impl twice.
pub proof fn lemma_units_do_not_collide(a: RecordDecl, b: RecordDecl, config: EmitConfig)
    requires
        a.name@ != b.name@,
    ensures
        match (generated(a, config), generated(b, config)) {
            (Ok(ua), Ok(ub)) => {
                &&& ua.0 == a.name@
                &&& ub.0 == b.name@
                &&& all_impls_for(ua.1, a.name@)
                &&& all_impls_for(ub.1, b.name@)
                &&& distinct_impls(ua.1)
                &&& distinct_impls(ub.1)
            },
            _ => true,
        },
{
    if let (Ok(fa), Ok(ta), Ok(fb), Ok(tb)) = (
        schema_fields(a.body),
        table_of(a.attrs@),
        schema_fields(b.body),
        table_of(b.attrs@),
    ) {
        lemma_unit_shape(a.name@, fa, if config.sql_metadata { ta } else { None }, config);
        lemma_unit_shape(b.name@, fb, if config.sql_metadata { tb } else { None }, config);
    }
}

proof fn lemma_no_mapper_attrs(attrs: Seq<AttrDecl>)
    requires
        forall|i: int| 0 <= i < attrs.len() ==> !is_mapper_attr(#[trigger] attrs[i]),
    ensures
        apply_attrs(None, attrs) == Ok::<Option<Seq<char>>, GenError>(None),
    decreases attrs.len(),
{
    if attrs.len() > 0 {
        assert(forall|i: int|
            0 <= i < attrs.len() - 1 ==> #[trigger] attrs.drop_last()[i] == attrs[i]);
        lemma_no_mapper_attrs(attrs.drop_last());
    }
}

/// For a struct with named fields and no `#[pg_mapper(...)]` annotation, asking for SQL
/// metadata fails with `MissingRequiredTableName`, and asking for converters alone succeeds.
pub proof fn lemma_metadata_needs_table(decl: RecordDecl, config: EmitConfig)
    requires
        schema_fields(decl.body) is Ok,
        forall|i: int| 0 <= i < decl.attrs@.len() ==> !is_mapper_attr(#[trigger] decl.attrs@[i]),
    ensures
        config.sql_metadata ==> generated(decl, config) == Err::<
            (Seq<char>, Seq<(RowSource, ImplKind, Seq<char>)>),
            GenError,
        >(GenError::MissingRequiredTableName),
        !config.sql_metadata ==> generated(decl, config) is Ok,
{
    lemma_no_mapper_attrs(decl.attrs@);
}

/// Every `From` fragment is the direct converter of the record `name` with `fields`.
pub open spec fn direct_impls_are(
    frags: Seq<(RowSource, ImplKind, Seq<char>)>,
    name: Seq<char>,
    fields: Seq<FieldDecl>,
) -> bool {
    forall|i: int|
        0 <= i < frags.len() && frags[i].1 != ImplKind::Mapper ==> #[trigger] frags[i].2
            == from_row_code(frags[i].0, frags[i].1 == ImplKind::FromBorrowedRow, name, fields)
}

/// For a struct with named fields and no annotation, every direct converter emitted for
/// it reads exactly one column per field, the column named as the field, in declaration
/// order.
pub proof fn lemma_direct_reads_each_field(decl: RecordDecl, config: EmitConfig)
    requires
        schema_fields(decl.body) is Ok,
        forall|i: int| 0 <= i < decl.attrs@.len() ==> !is_mapper_attr(#[trigger] decl.attrs@[i]),
        !config.sql_metadata,
    ensures
        match (generated(decl, config), schema_fields(decl.body)) {
            (Ok(unit), Ok(fields)) => {
                &&& direct_impls_are(unit.1, decl.name@, fields)
                &&& direct_lookups(fields).len() == fields.len()
                &&& forall|i: int|
                    0 <= i < fields.len() ==> #[trigger] direct_lookups(fields)[i]
                        == direct_lookup(fields[i].ident@)
            },
            _ => false,
        },
{
    lemma_no_mapper_attrs(decl.attrs@);
    let fields = schema_fields(decl.body)->Ok_0;
    lemma_unit_direct(decl.name@, fields, None, config);
}

proof fn lemma_source_direct(
    src: RowSource,
    caps: Capabilities,
    name: Seq<char>,
    fields: Seq<FieldDecl>,
    table: Option<Seq<char>>,
)
    ensures
        direct_impls_are(source_fragments(src, caps, name, fields, table), name, fields),
{
}

proof fn lemma_unit_direct(
    name: Seq<char>,
    fields: Seq<FieldDecl>,
    table: Option<Seq<char>>,
    config: EmitConfig,
)
    ensures
        direct_impls_are(unit_fragments(name, fields, table, config), name, fields),
{
    let p = source_fragments(RowSource::Postgres, config.postgres, name, fields, table);
    let t = source_fragments(RowSource::TokioPostgres, config.tokio_postgres, name, fields, table);
    lemma_source_direct(RowSource::Postgres, config.postgres, name, fields, table);
    lemma_source_direct(RowSource::TokioPostgres, config.tokio_postgres, name, fields, table);
    let u = unit_fragments(name, fields, table, config);
    assert(u == p + t);
    assert forall|i: int| 0 <= i < u.len() && u[i].1 != ImplKind::Mapper implies #[trigger] u[i].2
        == from_row_code(u[i].0, u[i].1 == ImplKind::FromBorrowedRow, name, fields) by {
        if i < p.len() {
            assert(u[i] == p[i]);
        } else {
            assert(u[i] == t[i - p.len()]);
        }
    }
}

proof fn lemma_reads_before_missing(fields: Seq<FieldDecl>, cols: Seq<Column>, k: int, n: int)
    requires
        0 <= n <= k < fields.len(),
        forall|j: int| 0 <= j < k ==> #[trigger] read_column(cols, fields[j].ident@) is Ok,
    ensures
        read_fields(fields, cols, n).0 is Ok,
        read_fields(fields, cols, n).1 == idents(fields).take(n),
    decreases n,
{
    if n > 0 {
        lemma_reads_before_missing(fields, cols, k, n - 1);
        assert(idents(fields).take(n) =~= idents(fields).take(n - 1).push(fields[n - 1].ident@));
    } else {
        assert(idents(fields).take(0) =~= Seq::<Seq<char>>::empty());
    }
}

/// A fallible conversion of a row that lacks the column of field `k`, while every field
/// before it reads and converts, fails with `ColumnNotFound` and has looked up the
/// columns of fields `0..=k` only.
pub proof fn lemma_missing_column_stops(fields: Seq<FieldDecl>, cols: Seq<Column>, k: int)
    requires
        0 <= k < fields.len(),
        column_index(cols, fields[k].ident@) is None,
        forall|j: int| 0 <= j < k ==> #[trigger] read_column(cols, fields[j].ident@) is Ok,
    ensures
        convert(fields, cols).0 == Err::<Seq<Seq<char>>, RowError>(RowError::ColumnNotFound),
        convert(fields, cols).1 == idents(fields).take(k + 1),
{
    lemma_reads_before_missing(fields, cols, k, k);
    assert(idents(fields).take(k + 1) =~= idents(fields).take(k).push(fields[k].ident@));
    lemma_failure_persists(fields, cols, k + 1, fields.len() as int);
}

/// Round trip: a row built with a value for every field of a record converts back into
/// exactly those values, in declaration order, looking up each field's column once.
pub proof fn lemma_fixture_round_trip(fields: Seq<FieldDecl>, values: Seq<String>)
    requires
        fields.len() == values.len(),
        forall|i: int, j: int|
            0 <= i < j < fields.len() ==> #[trigger] fields[i].ident@ != #[trigger] fields[j].ident@,
    ensures
        convert(fields, fixture_columns(fields, values)) == (
            Ok::<Seq<Seq<char>>, RowError>(texts(values)),
            idents(fields),
        ),
{
    lemma_fixture_prefix(fields, values, fields.len() as int);
    assert(texts(values).take(fields.len() as int) =~= texts(values));
    assert(idents(fields).take(fields.len() as int) =~= idents(fields));
}

proof fn lemma_fixture_prefix(fields: Seq<FieldDecl>, values: Seq<String>, n: int)
    requires
        fields.len() == values.len(),
        0 <= n <= fields.len(),
        forall|i: int, j: int|
            0 <= i < j < fields.len() ==> #[trigger] fields[i].ident@ != #[trigger] fields[j].ident@,
    ensures
        read_fields(fields, fixture_columns(fields, values), n) == (
            Ok::<Seq<Seq<char>>, RowError>(texts(values).take(n)),
            idents(fields).take(n),
        ),
    decreases n,
{
    let cols = fixture_columns(fields, values);
    if n > 0 {
        lemma_fixture_prefix(fields, values, n - 1);
        let ident = fields[n - 1].ident@;
        lemma_column_index(cols, ident);
        assert(cols[n - 1].name@ == ident);
        assert(column_index(cols, ident) == Some(n - 1));
        assert(texts(values).take(n) =~= texts(values).take(n - 1).push(values[n - 1]@));
        assert(idents(fields).take(n) =~= idents(fields).take(n - 1).push(ident));
    } else {
        assert(texts(values).take(0) =~= Seq::<Seq<char>>::empty());
        assert(idents(fields).take(0) =~= Seq::<Seq<char>>::empty());
    }
}

} // verus!
