use termscreen::geometry::{Cell, Size};
use termscreen::region::CellIterator;

fn drain(mut it: CellIterator) -> Vec<Cell> {
    let mut out = Vec::new();
    while let Some(c) = it.next() {
        out.push(c);
        assert!(out.len() <= 70000);
    }
    out
}

#[test]
fn scans_two_by_three_in_row_major_order() {
    let mut it = CellIterator::new(Cell(0, 0), Size(2, 3));
    let expected = [Cell(0, 0), Cell(0, 1), Cell(0, 2), Cell(1, 0), Cell(1, 1), Cell(1, 2)];
    for cell in expected.iter() {
        assert_eq!(it.next(), Some(*cell));
    }
    assert_eq!(it.next(), None);
    assert_eq!(it.next(), None);
    assert_eq!(it.next(), None);
}

#[test]
fn scans_offset_region() {
    let cells = drain(CellIterator::new(Cell(2, 5), Size(2, 2)));
    assert_eq!(cells, vec![Cell(2, 5), Cell(2, 6), Cell(3, 5), Cell(3, 6)]);
}

#[test]
fn single_column_region_goes_down() {
    let cells = drain(CellIterator::new(Cell(1, 4), Size(3, 1)));
    assert_eq!(cells, vec![Cell(1, 4), Cell(2, 4), Cell(3, 4)]);
}

#[test]
fn start_outside_bound_is_empty() {
    let mut it = CellIterator::new(Cell(3, 3), Size(0, 5));
    assert_eq!(it.next(), None);
    assert_eq!(it.next(), None);
}

#[test]
fn zero_width_region_is_empty() {
    let mut it = CellIterator::new(Cell(4, 4), Size(10, 0));
    assert_eq!(it.next(), None);
    assert_eq!(it.next(), None);
    let mut at_origin = CellIterator::new(Cell(0, 0), Size(3, 0));
    assert_eq!(at_origin.next(), None);
}

#[test]
fn region_at_the_coordinate_limit() {
    let cells = drain(CellIterator::new(Cell(65533, 65533), Size(2, 2)));
    assert_eq!(cells, vec![Cell(65533, 65533), Cell(65533, 65534), Cell(65534, 65533), Cell(65534, 65534)]);
}

#[test]
fn scan_length_is_rows_times_columns() {
    assert_eq!(drain(CellIterator::new(Cell(0, 0), Size(24, 80))).len(), 24 * 80);
}
