//! Where the keys of the switch matrix sit on the board: the layout entry of
//! a matrix position, the matrix position at a place of the board, and the
//! grid of keys that a keymap shows layer by layer.
use vstd::prelude::*;

use crate::constants::keycode::{XapKeyCode, XapKeyCodeConfig, XapKeyCodeView};

verus! {

/// A key of the switch matrix on one layer.
#[derive(Debug, Default, Clone, Copy, PartialEq, Eq, Structural)]
pub struct KeyPosition {
    pub layer: u8,
    pub row: u8,
    pub col: u8,
}

impl KeyPosition {
    /// Layer, row and column, one byte each.
    pub open spec fn spec_encode(&self) -> Seq<u8> {
        seq![self.layer, self.row, self.col]
    }

    pub fn encode(&self) -> (r: Vec<u8>)
        ensures
            r@ == self.spec_encode(),
    {
        let mut out: Vec<u8> = Vec::new();
        out.push(self.layer);
        out.push(self.row);
        out.push(self.col);
        assert(out@ =~= self.spec_encode());
        out
    }
}

/// Where a key sits on the board: its corner and its size, in key units.
#[derive(Debug, Default, Clone, Copy, PartialEq, Eq, Structural)]
pub struct KeyCoords {
    pub x: u8,
    pub y: u8,
    pub w: u8,
    pub h: u8,
}

/// A number of a layout entry, as the key placement reads it.
#[derive(Debug, Clone, Copy, PartialEq, Eq, Structural)]
pub enum LayoutNumber {
    /// The entry does not have it.
    Absent,
    /// The entry has it, but not as an unsigned integer.
    NotUnsigned,
    Unsigned(u64),
}

/// One key of a keyboard layout, as its configuration describes it.
#[derive(Debug, Clone)]
pub struct LayoutKey {
    /// The matrix position of the key, each element read as an unsigned
    /// integer (`None` for one that is not); `None` when the entry has no
    /// matrix array.
    pub matrix: Option<Vec<Option<u64>>>,
    pub x: LayoutNumber,
    pub y: LayoutNumber,
    pub w: LayoutNumber,
    pub h: LayoutNumber,
}

/// A key of a keymap grid: where it sits, its keycode and its matrix position.
#[derive(Debug, Clone)]
pub struct XapKeyInfo {
    pub coords: KeyCoords,
    pub keycode: XapKeyCode,
    pub position: KeyPosition,
}

/// The plain value of a key of a keymap grid.
pub struct XapKeyInfoView {
    pub coords: KeyCoords,
    pub keycode: XapKeyCodeView,
    pub position: KeyPosition,
}

impl View for XapKeyInfo {
    type V = XapKeyInfoView;

    open spec fn view(&self) -> XapKeyInfoView {
        XapKeyInfoView { coords: self.coords, keycode: self.keycode@, position: self.position }
    }
}

/// The plain value of a key of a keymap grid that may be missing.
pub open spec fn opt_key_info_view(o: Option<XapKeyInfo>) -> Option<XapKeyInfoView> {
    match o {
        Some(k) => Some(k@),
        None => None,
    }
}

/// Whether a layout entry stands for the key at this matrix position: its
/// matrix array holds exactly the row and the column.
pub open spec fn spec_matrix_is(k: LayoutKey, row: u8, col: u8) -> bool {
    match k.matrix {
        Some(m) => m@.len() == 2 && m@[0] == Some(row as u64) && m@[1] == Some(col as u64),
        None => false,
    }
}

/// Whether no entry before the `i`-th stands for the matrix position.
pub open spec fn spec_before_match(layout: Seq<LayoutKey>, i: int, row: u8, col: u8) -> bool {
    forall|j: int| 0 <= j < i ==> !spec_matrix_is(#[trigger] layout[j], row, col)
}

/// Whether the `i`-th entry is the first that stands for the matrix position.
pub open spec fn spec_is_first_match(layout: Seq<LayoutKey>, i: int, row: u8, col: u8) -> bool {
    &&& 0 <= i < layout.len()
    &&& spec_matrix_is(layout[i], row, col)
    &&& spec_before_match(layout, i, row, col)
}

/// Whether every entry that the search for the matrix position reads, up to
/// the first that stands for it, has a matrix array.
pub open spec fn spec_matrices_readable(layout: Seq<LayoutKey>, row: u8, col: u8) -> bool {
    forall|i: int|
        0 <= i < layout.len() && spec_before_match(layout, i, row, col) ==> (#[trigger] layout[i]).matrix
            is Some
}

/// A corner coordinate: it must be there as an unsigned integer, and is
/// truncated to a byte.
pub open spec fn spec_corner(n: LayoutNumber) -> Option<u8> {
    match n {
        LayoutNumber::Unsigned(v) => Some(v as u8),
        _ => None,
    }
}

/// A size: one key unit when the entry has none, else as for a corner.
pub open spec fn spec_size(n: LayoutNumber) -> Option<u8> {
    match n {
        LayoutNumber::Absent => Some(1u8),
        LayoutNumber::NotUnsigned => None,
        LayoutNumber::Unsigned(v) => Some(v as u8),
    }
}

/// Where a layout entry puts its key, if all its numbers can be read.
pub open spec fn spec_key_coords(k: LayoutKey) -> Option<KeyCoords> {
    match (spec_corner(k.x), spec_corner(k.y), spec_size(k.w), spec_size(k.h)) {
        (Some(x), Some(y), Some(w), Some(h)) => Some(KeyCoords { x, y, w, h }),
        _ => None,
    }
}

/// Where the key at a matrix position sits: read from the first layout entry
/// for the position; `None` when there is none or its numbers cannot be read.
pub open spec fn spec_layout_coords(layout: Seq<LayoutKey>, row: u8, col: u8) -> Option<KeyCoords> {
    if exists|i: int| spec_is_first_match(layout, i, row, col) {
        spec_key_coords(layout[choose|i: int| spec_is_first_match(layout, i, row, col)])
    } else {
        None
    }
}

fn corner(n: LayoutNumber) -> (r: Option<u8>)
    ensures
        r == spec_corner(n),
{
    match n {
        LayoutNumber::Unsigned(v) => Some(v as u8),
        _ => None,
    }
}

fn size(n: LayoutNumber) -> (r: Option<u8>)
    ensures
        r == spec_size(n),
{
    match n {
        LayoutNumber::Absent => Some(1u8),
        LayoutNumber::NotUnsigned => None,
        LayoutNumber::Unsigned(v) => Some(v as u8),
    }
}

fn matrix_is(k: &LayoutKey, row: u8, col: u8) -> (r: bool)
    requires
        k.matrix is Some,
    ensures
        r == spec_matrix_is(*k, row, col),
{
    match &k.matrix {
        Some(m) => m.len() == 2 && m[0] == Some(row as u64) && m[1] == Some(col as u64),
        None => false,
    }
}

/// Where the key at a matrix position sits, read from the first layout entry
/// whose matrix array holds exactly the row and the column.
pub fn coords_from_rowcol(layout: &Vec<LayoutKey>, row: u8, col: u8) -> (r: Option<KeyCoords>)
    requires
        spec_matrices_readable(layout@, row, col),
    ensures
        r == spec_layout_coords(layout@, row, col),
{
    let mut i: usize = 0;
    while i < layout.len()
        invariant
            i <= layout@.len(),
            spec_before_match(layout@, i as int, row, col),
            spec_matrices_readable(layout@, row, col),
        decreases layout@.len() - i,
    {
        let k = &layout[i];
        assert(k.matrix is Some);
        if matrix_is(k, row, col) {
            assert(spec_is_first_match(layout@, i as int, row, col));
            let ghost j = choose|j: int| spec_is_first_match(layout@, j, row, col);
            assert(j == i) by {
                if j < i {
                    assert(!spec_matrix_is(layout@[j], row, col));
                } else if j > i {
                    assert(!spec_matrix_is(layout@[i as int], row, col));
                }
            }
            let x = corner(k.x);
            let y = corner(k.y);
            let w = size(k.w);
            let h = size(k.h);
            return match (x, y, w, h) {
                (Some(x), Some(y), Some(w), Some(h)) => Some(KeyCoords { x, y, w, h }),
                _ => None,
            };
        }
        i = i + 1;
    }
    assert(!exists|j: int| spec_is_first_match(layout@, j, row, col)) by {
        assert forall|j: int| !spec_is_first_match(layout@, j, row, col) by {
            if 0 <= j < layout@.len() {
                assert(!spec_matrix_is(layout@[j], row, col));
            }
        }
    }
    None
}

/// The rows of a grid of places.
pub open spec fn grid_view(g: Vec<Vec<Option<KeyCoords>>>) -> Seq<Seq<Option<KeyCoords>>> {
    g@.map_values(|row: Vec<Option<KeyCoords>>| row@)
}

/// Whether the grid has, at row `r` and column `c`, a key whose corner is (`x`, `y`).
pub open spec fn spec_cell_at(g: Seq<Seq<Option<KeyCoords>>>, r: int, c: int, x: u8, y: u8) -> bool {
    &&& 0 <= r < g.len()
    &&& 0 <= c < g[r].len()
    &&& g[r][c] matches Some(k) && k.x == x && k.y == y
}

/// Whether (`r`, `c`) is the first cell, row by row, with a key whose corner
/// is (`x`, `y`).
pub open spec fn spec_first_cell(g: Seq<Seq<Option<KeyCoords>>>, r: int, c: int, x: u8, y: u8) -> bool {
    &&& spec_cell_at(g, r, c, x, y)
    &&& forall|r2: int, c2: int|
        #![trigger g[r2][c2]]
        spec_cell_at(g, r2, c2, x, y) ==> r < r2 || (r == r2 && c <= c2)
}

/// The matrix position, on layer 0, of the first key of the grid whose
/// corner is (`x`, `y`); its row and column truncated to a byte.
pub open spec fn spec_rowcol(g: Seq<Seq<Option<KeyCoords>>>, x: u8, y: u8) -> Option<KeyPosition> {
    if exists|r: int, c: int| spec_first_cell(g, r, c, x, y) {
        let (r, c) = choose|r: int, c: int| spec_first_cell(g, r, c, x, y);
        Some(KeyPosition { layer: 0, row: r as u8, col: c as u8 })
    } else {
        None
    }
}

/// On a grid of at most 256 rows and columns, the matrix position found for
/// a corner is that of a key with this corner.
pub proof fn law_rowcol_points_at_key(g: Seq<Seq<Option<KeyCoords>>>, x: u8, y: u8)
    requires
        g.len() <= 256,
        forall|r: int| 0 <= r < g.len() ==> (#[trigger] g[r]).len() <= 256,
    ensures
        spec_rowcol(g, x, y) matches Some(p) ==> p.layer == 0 && spec_cell_at(
            g,
            p.row as int,
            p.col as int,
            x,
            y,
        ),
{
    if exists|r: int, c: int| spec_first_cell(g, r, c, x, y) {
        let (r, c) = choose|r: int, c: int| spec_first_cell(g, r, c, x, y);
        assert(spec_cell_at(g, r, c, x, y));
        assert(g[r].len() <= 256);
        assert((r as u8) as int == r);
        assert((c as u8) as int == c);
    }
}

/// The matrix position, on layer 0, of the first key, row by row, whose
/// corner is at (`x`, `y`).
pub fn rowcol_from_coords(grid: &Vec<Vec<Option<KeyCoords>>>, x: u8, y: u8) -> (r: Option<KeyPosition>)
    ensures
        r == spec_rowcol(grid_view(*grid), x, y),
{
    let ghost g = grid_view(*grid);
    let mut row: usize = 0;
    while row < grid.len()
        invariant
            g == grid_view(*grid),
            row <= grid@.len(),
            forall|r2: int, c2: int| 0 <= r2 < row ==> !#[trigger] spec_cell_at(g, r2, c2, x, y),
        decreases grid@.len() - row,
    {
        let values = &grid[row];
        assert(values@ == g[row as int]);
        let mut col: usize = 0;
        while col < values.len()
            invariant
                g == grid_view(*grid),
                row < grid@.len(),
                values@ == g[row as int],
                col <= values@.len(),
                forall|r2: int, c2: int| 0 <= r2 < row ==> !#[trigger] spec_cell_at(g, r2, c2, x, y),
                forall|c2: int| 0 <= c2 < col ==> !#[trigger] spec_cell_at(g, row as int, c2, x, y),
            decreases values@.len() - col,
        {
            if let Some(key) = values[col] {
                if key.x == x && key.y == y {
                    let ghost rr = row as int;
                    let ghost cc = col as int;
                    assert(spec_cell_at(g, rr, cc, x, y));
                    assert(spec_first_cell(g, rr, cc, x, y));
                    let ghost (r0, c0) = choose|r: int, c: int| spec_first_cell(g, r, c, x, y);
                    assert(r0 == rr && c0 == cc) by {
                        assert(spec_first_cell(g, r0, c0, x, y));
                        assert(spec_cell_at(g, r0, c0, x, y));
                        assert(g[r0][c0] == g[r0][c0]);
                        assert(g[rr][cc] == g[rr][cc]);
                    }
                    return Some(KeyPosition { layer: 0, row: row as u8, col: col as u8 });
                }
            }
            col = col + 1;
        }
        row = row + 1;
    }
    assert(!exists|r: int, c: int| spec_first_cell(g, r, c, x, y)) by {
        assert forall|r: int, c: int| !spec_first_cell(g, r, c, x, y) by {
            if spec_first_cell(g, r, c, x, y) {
                assert(!spec_cell_at(g, r, c, x, y));
            }
        }
    }
    None
}

/// A grid of places, row `r` and column `c` holding where the key at that
/// matrix position sits, as the layout gives it; every place empty when there
/// is no layout.
pub fn generate_coords_from_rowcol(layout: &Option<Vec<LayoutKey>>, rows: u8, cols: u8) -> (r: Vec<
    Vec<Option<KeyCoords>>,
>)
    requires
        layout matches Some(l) ==> forall|row: u8, col: u8|
            row < rows && col < cols ==> #[trigger] spec_matrices_readable(l@, row, col),
    ensures
        grid_view(r).len() == rows,
        forall|i: int| 0 <= i < rows ==> (#[trigger] grid_view(r)[i]).len() == cols,
        forall|i: int, j: int|
            0 <= i < rows && 0 <= j < cols ==> #[trigger] grid_view(r)[i][j] == match *layout {
                Some(l) => spec_layout_coords(l@, i as u8, j as u8),
                None => None,
            },
{
    let mut grid: Vec<Vec<Option<KeyCoords>>> = Vec::new();
    let mut row: u8 = 0;
    while row < rows
        invariant
            row <= rows,
            grid@.len() == row,
            layout matches Some(l) ==> forall|row: u8, col: u8|
                row < rows && col < cols ==> #[trigger] spec_matrices_readable(l@, row, col),
            forall|i: int| 0 <= i < row ==> (#[trigger] grid@[i])@.len() == cols,
            forall|i: int, j: int|
                0 <= i < row && 0 <= j < cols ==> #[trigger] grid@[i]@[j] == match *layout {
                    Some(l) => spec_layout_coords(l@, i as u8, j as u8),
                    None => None,
                },
        decreases rows - row,
    {
        let mut values: Vec<Option<KeyCoords>> = Vec::new();
        let mut col: u8 = 0;
        while col < cols
            invariant
                row < rows,
                col <= cols,
                values@.len() == col,
                layout matches Some(l) ==> forall|row: u8, col: u8|
                    row < rows && col < cols ==> #[trigger] spec_matrices_readable(l@, row, col),
                forall|j: int|
                    0 <= j < col ==> #[trigger] values@[j] == match *layout {
                        Some(l) => spec_layout_coords(l@, row, j as u8),
                        None => None,
                    },
            decreases cols - col,
        {
            let c = match layout {
                Some(l) => coords_from_rowcol(l, row, col),
                None => None,
            };
            values.push(c);
            col = col + 1;
        }
        grid.push(values);
        row = row + 1;
    }
    assert forall|i: int| 0 <= i < rows implies (#[trigger] grid_view(grid)[i]).len() == cols by {
        assert(grid_view(grid)[i] == grid@[i]@);
    }
    assert forall|i: int, j: int| 0 <= i < rows && 0 <= j < cols implies #[trigger] grid_view(
        grid,
    )[i][j] == match *layout {
        Some(l) => spec_layout_coords(l@, i as u8, j as u8),
        None => None,
    } by {
        assert(grid_view(grid)[i] == grid@[i]@);
    }
    grid
}

/// Whether some place of the grid holds a key.
pub open spec fn spec_has_key(g: Seq<Seq<Option<KeyCoords>>>) -> bool {
    exists|r: int, c: int| 0 <= r < g.len() && 0 <= c < g[r].len() && #[trigger] g[r][c] is Some
}

/// Whether a place holds a key whose corner is in column `v`.
pub open spec fn spec_x_is(o: Option<KeyCoords>, v: u8) -> bool {
    o matches Some(k) && k.x == v
}

/// Whether a place holds a key whose corner is in row `v`.
pub open spec fn spec_y_is(o: Option<KeyCoords>, v: u8) -> bool {
    o matches Some(k) && k.y == v
}

/// Whether (`mx`, `my`) are the largest corner coordinates of the keys of the grid.
pub open spec fn spec_is_extent(g: Seq<Seq<Option<KeyCoords>>>, mx: u8, my: u8) -> bool {
    &&& exists|r: int, c: int|
        0 <= r < g.len() && 0 <= c < g[r].len() && spec_x_is(#[trigger] g[r][c], mx)
    &&& exists|r: int, c: int|
        0 <= r < g.len() && 0 <= c < g[r].len() && spec_y_is(#[trigger] g[r][c], my)
    &&& forall|r: int, c: int|
        0 <= r < g.len() && 0 <= c < g[r].len() && #[trigger] g[r][c] is Some ==> g[r][c]->0.x <= mx
            && g[r][c]->0.y <= my
}

/// The largest corner coordinates of the keys of the grid.
pub open spec fn spec_extent(g: Seq<Seq<Option<KeyCoords>>>) -> (u8, u8) {
    choose|mx: u8, my: u8| spec_is_extent(g, mx, my)
}

/// The key of the grid at (`x`, `y`) on layer `l`: the first key of the
/// grid with that corner, its keycode on that layer, and its matrix position
/// on that layer.
pub open spec fn spec_key_info(
    g: Seq<Seq<Option<KeyCoords>>>,
    keymap: Seq<Vec<Vec<XapKeyCodeConfig>>>,
    l: int,
    x: u8,
    y: u8,
) -> Option<XapKeyInfoView> {
    match spec_rowcol(g, x, y) {
        Some(p) => match g[p.row as int][p.col as int] {
            Some(k) => Some(
                XapKeyInfoView {
                    coords: k,
                    keycode: keymap[l]@[p.row as int]@[p.col as int].code@,
                    position: KeyPosition { layer: l as u8, row: p.row, col: p.col },
                },
            ),
            None => None,
        },
        None => None,
    }
}

/// Whether the grid and the keymap have every key that building the key grid
/// up to (`mx`, `my`) reads.
pub open spec fn spec_key_info_readable(
    g: Seq<Seq<Option<KeyCoords>>>,
    keymap: Seq<Vec<Vec<XapKeyCodeConfig>>>,
    mx: u8,
    my: u8,
) -> bool {
    forall|l: int, x: u8, y: u8|
        #![trigger keymap[l], spec_rowcol(g, x, y)]
        0 <= l < keymap.len() && x <= mx && y <= my ==> (spec_rowcol(g, x, y) matches Some(p) ==> (
        p.row < g.len() && p.col < g[p.row as int].len() && p.row < keymap[l]@.len() && p.col
            < keymap[l]@[p.row as int]@.len()))
}

fn extent(grid: &Vec<Vec<Option<KeyCoords>>>) -> (r: (u8, u8))
    requires
        spec_has_key(grid_view(*grid)),
    ensures
        spec_is_extent(grid_view(*grid), r.0, r.1),
        r == spec_extent(grid_view(*grid)),
{
    let ghost g = grid_view(*grid);
    let mut found = false;
    let mut mx: u8 = 0;
    let mut my: u8 = 0;
    let mut row: usize = 0;
    while row < grid.len()
        invariant
            g == grid_view(*grid),
            row <= g.len(),
            found ==> exists|r: int, c: int|
                0 <= r < row && 0 <= c < g[r].len() && spec_x_is(#[trigger] g[r][c], mx),
            found ==> exists|r: int, c: int|
                0 <= r < row && 0 <= c < g[r].len() && spec_y_is(#[trigger] g[r][c], my),
            forall|r: int, c: int|
                0 <= r < row && 0 <= c < g[r].len() && #[trigger] g[r][c] is Some ==> found
                    && g[r][c]->0.x <= mx && g[r][c]->0.y <= my,
        decreases g.len() - row,
    {
        let values = &grid[row];
        assert(values@ == g[row as int]);
        let mut col: usize = 0;
        while col < values.len()
            invariant
                g == grid_view(*grid),
                row < g.len(),
                values@ == g[row as int],
                col <= values@.len(),
                found ==> exists|r: int, c: int|
                    ((0 <= r < row && 0 <= c < g[r].len()) || (r == row && 0 <= c < col))
                        && spec_x_is(#[trigger] g[r][c], mx),
                found ==> exists|r: int, c: int|
                    ((0 <= r < row && 0 <= c < g[r].len()) || (r == row && 0 <= c < col))
                        && spec_y_is(#[trigger] g[r][c], my),
                forall|r: int, c: int|
                    ((0 <= r < row && 0 <= c < g[r].len()) || (r == row && 0 <= c < col))
                        && #[trigger] g[r][c] is Some ==> found && g[r][c]->0.x <= mx && g[r][c]->0.y
                        <= my,
            decreases values@.len() - col,
        {
            if let Some(key) = values[col] {
                let ghost rr = row as int;
                let ghost cc = col as int;
                assert(g[rr][cc] == Some(key));
                if !found || key.x > mx {
                    mx = key.x;
                    assert(spec_x_is(g[rr][cc], mx));
                }
                if !found || key.y > my {
                    my = key.y;
                    assert(spec_y_is(g[rr][cc], my));
                }
                found = true;
            }
            col = col + 1;
        }
        row = row + 1;
    }
    assert(found) by {
        let (r, c) = choose|r: int, c: int| 0 <= r < g.len() && 0 <= c < g[r].len() && #[trigger] g[r][c] is Some;
        assert(g[r][c] is Some);
    }
    assert(spec_is_extent(g, mx, my));
    let ghost (ax, ay) = spec_extent(g);
    assert(spec_is_extent(g, ax, ay));
    assert(ax == mx && ay == my) by {
        let (r1, c1) = choose|r: int, c: int|
            0 <= r < g.len() && 0 <= c < g[r].len() && spec_x_is(#[trigger] g[r][c], ax);
        let (r2, c2) = choose|r: int, c: int|
            0 <= r < g.len() && 0 <= c < g[r].len() && spec_y_is(#[trigger] g[r][c], ay);
        let (r3, c3) = choose|r: int, c: int|
            0 <= r < g.len() && 0 <= c < g[r].len() && spec_x_is(#[trigger] g[r][c], mx);
        let (r4, c4) = choose|r: int, c: int|
            0 <= r < g.len() && 0 <= c < g[r].len() && spec_y_is(#[trigger] g[r][c], my);
        assert(g[r1][c1] is Some);
        assert(g[r2][c2] is Some);
        assert(g[r3][c3] is Some);
        assert(g[r4][c4] is Some);
    }
    (mx, my)
}

/// The keys of the keymap laid out on the board, layer by layer: on each
/// layer a grid up to the largest corner coordinates of the keys, whose place
/// (`x`, `y`) holds the first key, row by row, with that corner, together
/// with its keycode on that layer.
pub fn generate_key_info(
    coords: &Vec<Vec<Option<KeyCoords>>>,
    keymap: &Vec<Vec<Vec<XapKeyCodeConfig>>>,
) -> (r: Vec<Vec<Vec<Option<XapKeyInfo>>>>)
    requires
        spec_has_key(grid_view(*coords)),
        spec_key_info_readable(
            grid_view(*coords),
            keymap@,
            spec_extent(grid_view(*coords)).0,
            spec_extent(grid_view(*coords)).1,
        ),
    ensures
        r@.len() == keymap@.len(),
        forall|l: int|
            0 <= l < r@.len() ==> (#[trigger] r@[l])@.len() == spec_extent(grid_view(*coords)).1
                + 1,
        forall|l: int, y: int|
            0 <= l < r@.len() && 0 <= y < r@[l]@.len() ==> (#[trigger] r@[l]@[y])@.len()
                == spec_extent(grid_view(*coords)).0 + 1,
        forall|l: int, y: int, x: int|
            0 <= l < r@.len() && 0 <= y < r@[l]@.len() && 0 <= x < r@[l]@[y]@.len()
                ==> opt_key_info_view(#[trigger] r@[l]@[y]@[x]) == spec_key_info(
                grid_view(*coords),
                keymap@,
                l,
                x as u8,
                y as u8,
            ),
{
    let ghost g = grid_view(*coords);
    let (mx, my) = extent(coords);
    let layers = keymap.len();
    let mut out: Vec<Vec<Vec<Option<XapKeyInfo>>>> = Vec::new();
    let mut layer: usize = 0;
    while layer < layers
        invariant
            g == grid_view(*coords),
            (mx, my) == spec_extent(g),
            layers == keymap@.len(),
            layer <= layers,
            spec_key_info_readable(g, keymap@, mx, my),
            out@.len() == layer,
            forall|l: int| 0 <= l < layer ==> (#[trigger] out@[l])@.len() == my + 1,
            forall|l: int, y: int|
                0 <= l < layer && 0 <= y < out@[l]@.len() ==> (#[trigger] out@[l]@[y])@.len() == mx
                    + 1,
            forall|l: int, y: int, x: int|
                0 <= l < layer && 0 <= y < out@[l]@.len() && 0 <= x < out@[l]@[y]@.len()
                    ==> opt_key_info_view(#[trigger] out@[l]@[y]@[x]) == spec_key_info(
                    g,
                    keymap@,
                    l,
                    x as u8,
                    y as u8,
                ),
        decreases layers - layer,
    {
        let mut rows: Vec<Vec<Option<XapKeyInfo>>> = Vec::new();
        let mut y: u16 = 0;
        while y <= my as u16
            invariant
                g == grid_view(*coords),
                layers == keymap@.len(),
                layer < layers,
                spec_key_info_readable(g, keymap@, mx, my),
                y <= my + 1,
                rows@.len() == y,
                forall|j: int| 0 <= j < y ==> (#[trigger] rows@[j])@.len() == mx + 1,
                forall|j: int, x: int|
                    0 <= j < y && 0 <= x < rows@[j]@.len() ==> opt_key_info_view(
                        #[trigger] rows@[j]@[x],
                    ) == spec_key_info(g, keymap@, layer as int, x as u8, j as u8),
            decreases my + 1 - y,
        {
            let yy = y as u8;
            let mut cells: Vec<Option<XapKeyInfo>> = Vec::new();
            let mut x: u16 = 0;
            while x <= mx as u16
                invariant
                    g == grid_view(*coords),
                    layers == keymap@.len(),
                    layer < layers,
                    spec_key_info_readable(g, keymap@, mx, my),
                    yy == y,
                    y <= my,
                    x <= mx + 1,
                    cells@.len() == x,
                    forall|i: int|
                        0 <= i < x ==> opt_key_info_view(#[trigger] cells@[i]) == spec_key_info(
                            g,
                            keymap@,
                            layer as int,
                            i as u8,
                            yy,
                        ),
                decreases mx + 1 - x,
            {
                let xx = x as u8;
                let cell = match rowcol_from_coords(coords, xx, yy) {
                    None => None,
                    Some(p) => {
                        let ghost l = layer as int;
                        assert(keymap@[l] == keymap@[l]);
                        assert(spec_rowcol(g, xx, yy) == Some(p));
                        let row = p.row as usize;
                        let col = p.col as usize;
                        assert(coords@[row as int]@ == g[row as int]);
                        let keycode = keymap[layer][row][col].code.duplicate();
                        match coords[row][col] {
                            Some(k) => Some(
                                XapKeyInfo {
                                    coords: k,
                                    keycode,
                                    position: KeyPosition { layer: layer as u8, row: p.row, col: p.col },
                                },
                            ),
                            None => None,
                        }
                    },
                };
                cells.push(cell);
                x = x + 1;
            }
            rows.push(cells);
            y = y + 1;
        }
        out.push(rows);
        layer = layer + 1;
    }
    out
}

} // verus!
