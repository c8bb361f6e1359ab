use postgres_mapper_derive::rows::{find_column, fixture_row, map_row, Cell, Column, MemoryRow, RowError};
use postgres_mapper_derive::schema::FieldDecl;

fn field(ident: &str) -> FieldDecl {
    FieldDecl { ident: ident.to_string(), ty: "String".to_string() }
}

fn column(name: &str, cell: Cell) -> Column {
    Column { name: name.to_string(), cell }
}

fn value(v: &str) -> Cell {
    Cell::Value(v.to_string())
}

#[test]
fn fixture_round_trips() {
    let fields = vec![field("id"), field("name"), field("email")];
    let values = vec!["7".to_string(), "ann".to_string(), "a@b.c".to_string()];
    let row = fixture_row(&fields, &values);
    let r = map_row(&fields, &row);
    assert_eq!(r.outcome, Ok(values));
    assert_eq!(r.looked_up, vec!["id".to_string(), "name".to_string(), "email".to_string()]);
}

#[test]
fn missing_column_stops_the_lookups() {
    let fields = vec![field("id"), field("name"), field("email")];
    let row = MemoryRow { columns: vec![column("email", value("x")), column("id", value("1"))] };
    let r = map_row(&fields, &row);
    assert_eq!(r.outcome, Err(RowError::ColumnNotFound));
    assert_eq!(r.looked_up, vec!["id".to_string(), "name".to_string()]);
}

#[test]
fn unconvertible_value_is_a_conversion_error() {
    let fields = vec![field("id"), field("name")];
    let row = MemoryRow { columns: vec![column("id", Cell::Unconvertible)] };
    let r = map_row(&fields, &row);
    assert_eq!(r.outcome, Err(RowError::Conversion));
    assert_eq!(r.looked_up, vec!["id".to_string()]);
}

#[test]
fn first_failure_in_declaration_order_wins() {
    let fields = vec![field("a"), field("b")];
    let row = MemoryRow { columns: vec![column("a", Cell::Unconvertible)] };
    assert_eq!(map_row(&fields, &row).outcome, Err(RowError::Conversion));
}

#[test]
fn first_of_duplicate_columns_is_read() {
    let row = MemoryRow { columns: vec![column("x", value("1")), column("id", value("2")), column("id", value("3"))] };
    assert_eq!(find_column(&row, &"id".to_string()), Some(1));
    assert_eq!(find_column(&row, &"nope".to_string()), None);
    assert_eq!(map_row(&vec![field("id")], &row).outcome, Ok(vec!["2".to_string()]));
}

#[test]
fn missing_first_column_looks_up_nothing_else() {
    let fields = vec![field("id"), field("name")];
    let row = MemoryRow { columns: vec![column("name", value("ann"))] };
    let r = map_row(&fields, &row);
    assert_eq!(r.outcome, Err(RowError::ColumnNotFound));
    assert_eq!(r.looked_up, vec!["id".to_string()]);
}
