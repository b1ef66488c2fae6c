use qmk_xap::constants::keycode::{XapKeyCode, XapKeyCodeConfig};
use qmk_xap::layout::{
    coords_from_rowcol, generate_coords_from_rowcol, generate_key_info, rowcol_from_coords,
    KeyCoords, KeyPosition, LayoutKey, LayoutNumber,
};

fn key(row: u64, col: u64, x: u64, y: u64) -> LayoutKey {
    LayoutKey {
        matrix: Some(vec![Some(row), Some(col)]),
        x: LayoutNumber::Unsigned(x),
        y: LayoutNumber::Unsigned(y),
        w: LayoutNumber::Absent,
        h: LayoutNumber::Absent,
    }
}

fn coords(x: u8, y: u8) -> KeyCoords {
    KeyCoords { x, y, w: 1, h: 1 }
}

#[test]
fn layout_entry_gives_the_place_of_a_key() {
    let mut wide = key(0, 1, 1, 0);
    wide.w = LayoutNumber::Unsigned(2);
    let layout = vec![key(0, 0, 0, 0), wide, key(1, 0, 0, 1)];
    assert_eq!(coords_from_rowcol(&layout, 0, 0), Some(coords(0, 0)));
    assert_eq!(coords_from_rowcol(&layout, 0, 1), Some(KeyCoords { x: 1, y: 0, w: 2, h: 1 }));
    assert_eq!(coords_from_rowcol(&layout, 1, 0), Some(coords(0, 1)));
    assert_eq!(coords_from_rowcol(&layout, 1, 1), None);
}

#[test]
fn unreadable_numbers_give_no_place() {
    let mut no_x = key(0, 0, 0, 0);
    no_x.x = LayoutNumber::Absent;
    assert_eq!(coords_from_rowcol(&vec![no_x], 0, 0), None);
    let mut fractional = key(0, 0, 0, 0);
    fractional.w = LayoutNumber::NotUnsigned;
    assert_eq!(coords_from_rowcol(&vec![fractional], 0, 0), None);
    let mut big = key(0, 0, 300, 0);
    big.h = LayoutNumber::Unsigned(2);
    assert_eq!(coords_from_rowcol(&vec![big], 0, 0), Some(KeyCoords { x: 44, y: 0, w: 1, h: 2 }));
}

#[test]
fn first_matching_entry_wins_and_later_entries_are_not_read() {
    let mut odd = key(0, 0, 0, 0);
    odd.matrix = Some(vec![Some(0), Some(0), Some(1)]);
    let unreadable = LayoutKey { matrix: None, ..key(9, 9, 9, 9) };
    let layout = vec![odd, key(0, 0, 5, 6), key(0, 0, 7, 8), unreadable];
    assert_eq!(coords_from_rowcol(&layout, 0, 0), Some(coords(5, 6)));
}

#[test]
fn grid_of_places() {
    let layout = Some(vec![key(0, 0, 0, 0), key(0, 1, 1, 0), key(1, 1, 1, 1)]);
    let grid = generate_coords_from_rowcol(&layout, 2, 2);
    assert_eq!(grid, vec![vec![Some(coords(0, 0)), Some(coords(1, 0))], vec![None, Some(coords(1, 1))]]);
    let empty = generate_coords_from_rowcol(&None, 2, 3);
    assert_eq!(empty, vec![vec![None; 3]; 2]);
}

#[test]
fn position_of_a_place() {
    let grid = vec![vec![Some(coords(0, 0)), Some(coords(1, 0))], vec![None, Some(coords(1, 1))]];
    assert_eq!(rowcol_from_coords(&grid, 1, 1), Some(KeyPosition { layer: 0, row: 1, col: 1 }));
    assert_eq!(rowcol_from_coords(&grid, 1, 0), Some(KeyPosition { layer: 0, row: 0, col: 1 }));
    assert_eq!(rowcol_from_coords(&grid, 0, 1), None);
}

fn config(code: u16, layer: u8, row: u8, col: u8) -> XapKeyCodeConfig {
    XapKeyCodeConfig {
        code: XapKeyCode::new_custom(code),
        position: KeyPosition { layer, row, col },
    }
}

#[test]
fn key_grid_follows_the_layout() {
    let grid = vec![vec![Some(coords(0, 0)), Some(coords(2, 0))], vec![None, Some(coords(1, 1))]];
    let keymap = vec![
        vec![vec![config(1, 0, 0, 0), config(2, 0, 0, 1)], vec![config(3, 0, 1, 0), config(4, 0, 1, 1)]],
        vec![vec![config(5, 1, 0, 0), config(6, 1, 0, 1)], vec![config(7, 1, 1, 0), config(8, 1, 1, 1)]],
    ];
    let info = generate_key_info(&grid, &keymap);
    assert_eq!(info.len(), 2);
    assert_eq!(info[0].len(), 2);
    assert_eq!(info[0][0].len(), 3);
    let at = |l: usize, y: usize, x: usize| info[l][y][x].as_ref().map(|k| (k.keycode.code, k.position, k.coords));
    assert_eq!(at(0, 0, 0), Some((1, KeyPosition { layer: 0, row: 0, col: 0 }, coords(0, 0))));
    assert_eq!(at(0, 0, 1), None);
    assert_eq!(at(0, 0, 2), Some((2, KeyPosition { layer: 0, row: 0, col: 1 }, coords(2, 0))));
    assert_eq!(at(1, 1, 1), Some((8, KeyPosition { layer: 1, row: 1, col: 1 }, coords(1, 1))));
    assert_eq!(at(1, 1, 0), None);
}
