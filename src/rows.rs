//! Rows held in memory, and the field-by-field lookup that the fallible converters
//! perform on them.
use vstd::prelude::*;
use crate::schema::{FieldDecl, idents};

verus! {

/// What a column gives when read into the field of the same name.
pub enum Cell {
    /// The value, converted to the field's declared type, as text.
    Value(String),
    /// A stored value that does not convert to the field's declared type.
    Unconvertible,
}

/// A named column of a row.
pub struct Column {
    pub name: String,
    pub cell: Cell,
}

/// A row addressed by column name; where two columns share a name the first counts.
pub struct MemoryRow {
    pub columns: Vec<Column>,
}

/// Why a fallible conversion failed.
#[derive(Clone, Copy, Debug, PartialEq, Eq, Structural)]
pub enum RowError {
    /// No column is named like the field.
    ColumnNotFound,
    /// The column's value does not convert to the field's type.
    Conversion,
}

/// The outcome of a fallible conversion and the columns it looked up, in order.
pub struct RowMapping {
    pub outcome: Result<Vec<String>, RowError>,
    pub looked_up: Vec<String>,
}

/// The texts of a sequence of strings.
pub open spec fn texts(v: Seq<String>) -> Seq<Seq<char>> {
    v.map_values(|s: String| s@)
}

/// The position of the first column named `name`.
pub open spec fn column_index(cols: Seq<Column>, name: Seq<char>) -> Option<int>
    decreases cols.len(),
{
    if cols.len() == 0 {
        None
    } else {
        match column_index(cols.drop_last(), name) {
            Some(i) => Some(i),
            None => if cols.last().name@ == name {
                Some(cols.len() - 1)
            } else {
                None
            },
        }
    }
}

/// Reading the column named `name`.
pub open spec fn read_column(cols: Seq<Column>, name: Seq<char>) -> Result<Seq<char>, RowError> {
    match column_index(cols, name) {
        None => Err(RowError::ColumnNotFound),
        Some(i) => match cols[i].cell {
            Cell::Value(v) => Ok(v@),
            Cell::Unconvertible => Err(RowError::Conversion),
        },
    }
}

/// The first `n` fields read in declaration order, stopping at the first failure:
/// the values read (or the failure) and the columns looked up.
pub open spec fn read_fields(fields: Seq<FieldDecl>, cols: Seq<Column>, n: int) -> (
    Result<Seq<Seq<char>>, RowError>,
    Seq<Seq<char>>,
)
    decreases n,
{
    if n <= 0 {
        (Ok(Seq::empty()), Seq::empty())
    } else {
        let (r, trace) = read_fields(fields, cols, n - 1);
        match r {
            Err(e) => (Err(e), trace),
            Ok(values) => {
                let ident = fields[n - 1].ident@;
                match read_column(cols, ident) {
                    Ok(v) => (Ok(values.push(v)), trace.push(ident)),
                    Err(e) => (Err(e), trace.push(ident)),
                }
            },
        }
    }
}

/// A fallible conversion of a row into a record with these fields.
pub open spec fn convert(fields: Seq<FieldDecl>, cols: Seq<Column>) -> (
    Result<Seq<Seq<char>>, RowError>,
    Seq<Seq<char>>,
) {
    read_fields(fields, cols, fields.len() as int)
}

/// The columns of a row that holds `values[i]` under the name of `fields[i]`.
pub open spec fn fixture_columns(fields: Seq<FieldDecl>, values: Seq<String>) -> Seq<Column> {
    Seq::new(
        fields.len(),
        |i: int| Column { name: fields[i].ident, cell: Cell::Value(values[i]) },
    )
}

/// Characterises `column_index` as the first column with the name.
pub proof fn lemma_column_index(cols: Seq<Column>, name: Seq<char>)
    ensures
        match column_index(cols, name) {
            Some(i) => 0 <= i < cols.len() && cols[i].name@ == name && forall|j: int|
                0 <= j < i ==> cols[j].name@ != name,
            None => forall|j: int| 0 <= j < cols.len() ==> cols[j].name@ != name,
        },
    decreases cols.len(),
{
    if cols.len() > 0 {
        lemma_column_index(cols.drop_last(), name);
        assert(forall|j: int| 0 <= j < cols.len() - 1 ==> cols.drop_last()[j] == cols[j]);
    }
}

proof fn lemma_column_index_prefix(cols: Seq<Column>, name: Seq<char>, k: int)
    requires
        0 <= k <= cols.len(),
        column_index(cols.subrange(0, k), name) is Some,
    ensures
        column_index(cols, name) == column_index(cols.subrange(0, k), name),
    decreases cols.len() - k,
{
    if k == cols.len() {
        assert(cols.subrange(0, k) =~= cols);
    } else {
        assert(cols.drop_last().subrange(0, k) =~= cols.subrange(0, k));
        lemma_column_index_prefix(cols.drop_last(), name, k);
    }
}

/// Once a field fails, reading further fields changes nothing.
pub proof fn lemma_failure_persists(fields: Seq<FieldDecl>, cols: Seq<Column>, k: int, n: int)
    requires
        k <= n,
        read_fields(fields, cols, k).0 is Err,
    ensures
        read_fields(fields, cols, n) == read_fields(fields, cols, k),
    decreases n - k,
{
    if k < n {
        lemma_failure_persists(fields, cols, k, n - 1);
    }
}

/// The position of the first column named `name`.
pub fn find_column(row: &MemoryRow, name: &String) -> (r: Option<usize>)
    ensures
        match r {
            Some(i) => column_index(row.columns@, name@) == Some(i as int),
            None => column_index(row.columns@, name@) is None,
        },
{
    let mut i: usize = 0;
    while i < row.columns.len()
        invariant
            i <= row.columns.len(),
            column_index(row.columns@.subrange(0, i as int), name@) is None,
        decreases row.columns.len() - i,
    {
        let prefix = Ghost(row.columns@.subrange(0, i + 1));
        proof {
            assert(prefix@.drop_last() =~= row.columns@.subrange(0, i as int));
        }
        if row.columns[i].name == *name {
            proof {
                lemma_column_index_prefix(row.columns@, name@, i + 1);
            }
            return Some(i);
        }
        i = i + 1;
    }
    proof {
        assert(row.columns@.subrange(0, i as int) =~= row.columns@);
    }
    None
}

/// Converts a row into the values of the fields, looking each field up by its name in
/// declaration order and stopping at the first that is missing or does not convert.
pub fn map_row(fields: &Vec<FieldDecl>, row: &MemoryRow) -> (r: RowMapping)
    ensures
        texts(r.looked_up@) == convert(fields@, row.columns@).1,
        match (r.outcome, convert(fields@, row.columns@).0) {
            (Ok(values), Ok(expected)) => texts(values@) == expected,
            (Err(e), Err(e2)) => e == e2,
            _ => false,
        },
{
    let mut values: Vec<String> = Vec::new();
    let mut looked_up: Vec<String> = Vec::new();
    let mut i: usize = 0;
    proof {
        assert(texts(values@) =~= Seq::<Seq<char>>::empty());
        assert(texts(looked_up@) =~= Seq::<Seq<char>>::empty());
    }
    while i < fields.len()
        invariant
            i <= fields.len(),
            read_fields(fields@, row.columns@, i as int) == (
                Ok::<Seq<Seq<char>>, RowError>(texts(values@)),
                texts(looked_up@),
            ),
        decreases fields.len() - i,
    {
        let ghost done_values = texts(values@);
        let ghost done_trace = texts(looked_up@);
        let ident = &fields[i].ident;
        let found = find_column(row, ident);
        looked_up.push(ident.clone());
        proof {
            assert(texts(looked_up@) =~= done_trace.push(ident@));
            lemma_column_index(row.columns@, ident@);
        }
        match found {
            None => {
                proof {
                    lemma_failure_persists(fields@, row.columns@, i + 1, fields.len() as int);
                }
                return RowMapping { outcome: Err(RowError::ColumnNotFound), looked_up };
            },
            Some(j) => match &row.columns[j].cell {
                Cell::Value(v) => {
                    values.push(v.clone());
                    proof {
                        assert(texts(values@) =~= done_values.push(v@));
                    }
                },
                Cell::Unconvertible => {
                    proof {
                        lemma_failure_persists(fields@, row.columns@, i + 1, fields.len() as int);
                    }
                    return RowMapping { outcome: Err(RowError::Conversion), looked_up };
                },
            },
        }
        i = i + 1;
    }
    RowMapping { outcome: Ok(values), looked_up }
}

/// A row with one column per field, named as the field and holding the given value.
pub fn fixture_row(fields: &Vec<FieldDecl>, values: &Vec<String>) -> (r: MemoryRow)
    requires
        fields.len() == values.len(),
    ensures
        r.columns@ == fixture_columns(fields@, values@),
{
    let mut columns: Vec<Column> = Vec::new();
    let mut i: usize = 0;
    while i < fields.len()
        invariant
            i <= fields.len(),
            fields.len() == values.len(),
            columns@ =~= fixture_columns(fields@, values@).subrange(0, i as int),
        decreases fields.len() - i,
    {
        columns.push(Column { name: fields[i].ident.clone(), cell: Cell::Value(values[i].clone()) });
        i = i + 1;
    }
    MemoryRow { columns }
}

} // verus!
