use docpress::error::Error;
use docpress::table::{plain_text_cell, Cell, CellItem, Table};

#[test]
fn tables_need_positive_weights() {
    assert_eq!(Table::new(vec![]).unwrap_err(), Error::InvalidColumnSpec);
    assert_eq!(Table::new(vec![1, 0, 2]).unwrap_err(), Error::InvalidColumnSpec);
    assert!(Table::new(vec![8, 2]).is_ok());
}

#[test]
fn cells_need_an_open_row() {
    let mut t = Table::new(vec![1, 1]).unwrap();
    assert_eq!(t.add_cell(Cell::new()).unwrap_err(), Error::RowOverflow);
}

#[test]
fn a_full_row_overflows() {
    let mut t = Table::new(vec![1, 1]).unwrap();
    t.start_new_row().unwrap();
    t.add_cell(Cell::new()).unwrap();
    t.add_cell(Cell::new()).unwrap();
    assert_eq!(t.add_cell(Cell::new()).unwrap_err(), Error::RowOverflow);
}

#[test]
fn finalize_pads_every_row_to_the_column_count() {
    let mut t = Table::new(vec![1, 1, 1]).unwrap();
    t.start_new_row().unwrap();
    t.add_cell(plain_text_cell(&"a".to_string())).unwrap();
    t.start_new_row().unwrap();
    t.finalize().unwrap();
    assert_eq!(t.rows.len(), 2);
    for row in &t.rows {
        assert_eq!(row.cells.len(), 3);
    }
    // The first cell kept its text; the padding cells are empty.
    assert_eq!(t.rows[0].cells[0].items.len(), 1);
    assert!(t.rows[0].cells[1].items.is_empty());
    assert!(t.rows[1].cells[0].items.is_empty());
}

#[test]
fn sealed_tables_refuse_every_mutation() {
    let mut t = Table::new(vec![1, 1]).unwrap();
    t.start_new_row().unwrap();
    t.finalize().unwrap();
    assert_eq!(t.finalize().unwrap_err(), Error::ImmutableBoxError);
    assert_eq!(t.start_new_row().unwrap_err(), Error::ImmutableBoxError);
    assert_eq!(t.add_cell(Cell::new()).unwrap_err(), Error::ImmutableBoxError);
    assert_eq!(t.set_font_size(9).unwrap_err(), Error::ImmutableBoxError);
}

#[test]
fn eight_fields_over_four_columns_make_two_full_rows() {
    let mut t = Table::new(vec![1, 1, 1, 1]).unwrap();
    let fields: Vec<String> = ["A", "B", "C", "D", "E", "F", "G", "H"]
        .iter()
        .map(|s| s.to_string())
        .collect();
    t.add_chunked_text_rows(&fields).unwrap();
    assert_eq!(t.rows.len(), 2);
    for row in &t.rows {
        assert_eq!(row.cells.len(), 4);
        for cell in &row.cells {
            // Every cell is a real field: zero padding cells.
            assert_eq!(cell.items.len(), 1);
        }
    }
    match &t.rows[1].cells[3].items[0] {
        CellItem::Text(p) => assert_eq!(p.text, "H"),
        _ => panic!("expected text"),
    }
}

#[test]
fn five_fields_over_four_columns_pad_the_last_row() {
    let mut t = Table::new(vec![1, 1, 1, 1]).unwrap();
    let fields: Vec<String> = ["A", "B", "C", "D", "E"].iter().map(|s| s.to_string()).collect();
    t.add_chunked_text_rows(&fields).unwrap();
    assert_eq!(t.rows.len(), 2);
    assert_eq!(t.rows[0].cells.len(), 4);
    assert_eq!(t.rows[1].cells.len(), 4);
    // Row 1: four real cells.  Row 2: one real cell, three empty ones.
    for cell in &t.rows[0].cells {
        assert_eq!(cell.items.len(), 1);
    }
    assert_eq!(t.rows[1].cells[0].items.len(), 1);
    for j in 1..4 {
        assert!(t.rows[1].cells[j].items.is_empty());
    }
}

#[test]
fn chunk_rows_follow_the_ceiling_formula() {
    for (f, m, want_rows) in [(1usize, 4u32, 1usize), (4, 4, 1), (9, 4, 3), (12, 4, 3), (0, 4, 0)] {
        let mut t = Table::new(vec![1; m as usize]).unwrap();
        let fields: Vec<String> = (0..f).map(|i| i.to_string()).collect();
        t.add_chunked_text_rows(&fields).unwrap();
        assert_eq!(t.rows.len(), want_rows, "fields {} per {}", f, m);
    }
}
