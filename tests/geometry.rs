use termscreen::geometry::{Cell, Size};

#[test]
fn within_accepts_inside_cell() {
    assert_eq!(Cell(2, 3).within(Size(3, 4)), Some(Cell(2, 3)));
    assert_eq!(Cell(0, 0).within(Size(1, 1)), Some(Cell(0, 0)));
}

#[test]
fn within_rejects_boundary_row_and_column() {
    assert_eq!(Cell(3, 0).within(Size(3, 4)), None);
    assert_eq!(Cell(0, 4).within(Size(3, 4)), None);
    assert_eq!(Cell(3, 4).within(Size(3, 4)), None);
}

#[test]
fn within_empty_size_rejects_everything() {
    assert_eq!(Cell(0, 0).within(Size(0, 0)), None);
    assert_eq!(Cell(0, 0).within(Size(5, 0)), None);
    assert_eq!(Cell(0, 0).within(Size(0, 5)), None);
}

#[test]
fn add_is_component_wise() {
    assert_eq!(Cell(2, 3).add(Cell(10, 20)), Cell(12, 23));
    assert_eq!(Cell(0, 0).add(Cell(65535, 65535)), Cell(65535, 65535));
}

#[test]
fn sub_clamps_at_zero() {
    assert_eq!(Cell(5, 7).sub(Cell(2, 3)), Cell(3, 4));
    assert_eq!(Cell(2, 3).sub(Cell(5, 1)), Cell(0, 2));
    assert_eq!(Cell(2, 3).sub(Cell(1, 9)), Cell(1, 0));
    assert_eq!(Cell(0, 0).sub(Cell(65535, 65535)), Cell(0, 0));
    assert_eq!(Cell(40000, 40000).sub(Cell(1, 39999)), Cell(39999, 1));
}

#[test]
fn sub_then_add_restores_when_nothing_clamps() {
    let a = Cell(7, 9);
    let b = Cell(3, 9);
    assert_eq!(a.sub(b).add(b), a);
}

#[test]
fn sub_then_add_differs_where_clamped() {
    let a = Cell(7, 2);
    let b = Cell(3, 5);
    let back = a.sub(b).add(b);
    assert_ne!(back, a);
    assert_eq!(back, Cell(7, 5));
    let c = Cell(1, 1);
    let d = Cell(4, 6);
    assert_eq!(c.sub(d).add(d), Cell(4, 6));
}

#[test]
fn size_cell_conversions_keep_components() {
    assert_eq!(Cell::from_size(Size(24, 80)), Cell(24, 80));
    assert_eq!(Size::from_cell(Cell(24, 80)), Size(24, 80));
}
