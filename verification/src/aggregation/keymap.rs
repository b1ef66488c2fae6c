//! A keymap laid out on the grid of a keyboard layout.
use vstd::prelude::*;

use crate::aggregation::{Point2D, Point3D};
use crate::device::KeymapKey;

verus! {

/// A key of the keymap together with its entry of the keyboard layout.
#[derive(Clone, Debug, Default)]
pub struct MappedKeymapKey<L> {
    pub key: KeymapKey,
    pub layout: L,
}

/// Keys by layer, row and column, the size of that grid, and the largest
/// row and column that hold a key.
#[derive(Clone, Debug)]
pub struct MappedKeymap<L> {
    pub keys: Vec<Vec<Vec<Option<MappedKeymapKey<L>>>>>,
    pub dimensions: Point3D,
    pub size: Point2D,
}

/// What `MappedKeymap::new` gives: `layers` layers of `rows` rows of
/// `columns` empty slots, with these dimensions and size zero.
pub open spec fn spec_is_new<L>(m: MappedKeymap<L>, layers: u64, rows: u64, columns: u64) -> bool {
    &&& m.keys@.len() == layers
    &&& forall|z: int| 0 <= z < layers ==> (#[trigger] m.keys@[z])@.len() == rows
    &&& forall|z: int, y: int|
        0 <= z < layers && 0 <= y < rows ==> (#[trigger] m.keys@[z]@[y])@.len() == columns
    &&& forall|z: int, y: int, x: int| m.spec_in_bounds(z, y, x) ==> #[trigger] m.spec_slot(z, y, x) is None
    &&& m.dimensions == (Point3D { z: layers, y: rows, x: columns })
    &&& m.size == (Point2D { y: 0, x: 0 })
}

/// The larger of two numbers.
pub open spec fn spec_max(a: u64, b: u64) -> u64 {
    if a >= b {
        a
    } else {
        b
    }
}

/// What `MappedKeymap::insert` makes of `before`: the key's position lies in
/// the grid; that slot holds the key and its layout entry, every other slot
/// and the dimensions stay, and the size grows to cover the key's row and
/// column.
pub open spec fn spec_inserted<L>(
    before: MappedKeymap<L>,
    key: KeymapKey,
    layout: L,
    after: MappedKeymap<L>,
) -> bool {
    &&& before.spec_in_bounds(
        key.position.layer as int,
        key.position.row as int,
        key.position.column as int,
    )
    &&& after.spec_same_shape(&before)
    &&& forall|z: int, y: int, x: int|
        before.spec_in_bounds(z, y, x) ==> #[trigger] after.spec_slot(z, y, x) == if z
            == key.position.layer && y == key.position.row && x == key.position.column {
            Some(MappedKeymapKey { key, layout })
        } else {
            before.spec_slot(z, y, x)
        }
    &&& after.dimensions == before.dimensions
    &&& after.size.x == spec_max(before.size.x, key.position.column as u64)
    &&& after.size.y == spec_max(before.size.y, key.position.row as u64)
}

/// The last of the keys placed at layer `z`, row `y` and column `x`, with
/// its layout entry; `None` when no key was placed there.
pub open spec fn spec_last_at<L>(keys: Seq<(KeymapKey, L)>, z: int, y: int, x: int) -> Option<
    MappedKeymapKey<L>,
>
    decreases keys.len(),
{
    if keys.len() == 0 {
        None
    } else {
        let (k, l) = keys.last();
        if z == k.position.layer && y == k.position.row && x == k.position.column {
            Some(MappedKeymapKey { key: k, layout: l })
        } else {
            spec_last_at(keys.drop_last(), z, y, x)
        }
    }
}

/// The largest column among the keys, zero when there are none.
pub open spec fn spec_max_column<L>(keys: Seq<(KeymapKey, L)>) -> u64
    decreases keys.len(),
{
    if keys.len() == 0 {
        0
    } else {
        spec_max(spec_max_column(keys.drop_last()), keys.last().0.position.column as u64)
    }
}

/// The largest row among the keys, zero when there are none.
pub open spec fn spec_max_row<L>(keys: Seq<(KeymapKey, L)>) -> u64
    decreases keys.len(),
{
    if keys.len() == 0 {
        0
    } else {
        spec_max(spec_max_row(keys.drop_last()), keys.last().0.position.row as u64)
    }
}

/// After a fresh grid takes a run of keys, one insert after another, every
/// slot of the grid holds the last key placed there (or nothing when none
/// was), the grid keeps its shape and dimensions, and the size is the
/// largest row and the largest column of the keys.
pub proof fn law_inserts_keep_last_key<L>(
    steps: Seq<MappedKeymap<L>>,
    keys: Seq<(KeymapKey, L)>,
    layers: u64,
    rows: u64,
    columns: u64,
)
    requires
        steps.len() == keys.len() + 1,
        spec_is_new(steps[0], layers, rows, columns),
        forall|i: int|
            0 <= i < keys.len() ==> #[trigger] spec_inserted(steps[i], keys[i].0, keys[i].1, steps[i + 1]),
    ensures
        steps.last().keys@.len() == layers,
        forall|z: int| 0 <= z < layers ==> (#[trigger] steps.last().keys@[z])@.len() == rows,
        forall|z: int, y: int|
            0 <= z < layers && 0 <= y < rows ==> (#[trigger] steps.last().keys@[z]@[y])@.len()
                == columns,
        forall|z: int, y: int, x: int|
            0 <= z < layers && 0 <= y < rows && 0 <= x < columns ==> #[trigger] steps.last().spec_slot(
                z,
                y,
                x,
            ) == spec_last_at(keys, z, y, x),
        steps.last().dimensions == (Point3D { z: layers, y: rows, x: columns }),
        steps.last().size == (Point2D { y: spec_max_row(keys), x: spec_max_column(keys) }),
    decreases keys.len(),
{
    let n = keys.len();
    if n == 0 {
        assert forall|z: int, y: int, x: int|
            0 <= z < layers && 0 <= y < rows && 0 <= x < columns implies #[trigger] steps.last().spec_slot(
            z,
            y,
            x,
        ) == spec_last_at(keys, z, y, x) by {
            assert(steps[0].spec_in_bounds(z, y, x));
        }
    } else {
        let prev = steps.drop_last();
        let pk = keys.drop_last();
        assert forall|i: int| 0 <= i < pk.len() implies #[trigger] spec_inserted(
            prev[i],
            pk[i].0,
            pk[i].1,
            prev[i + 1],
        ) by {
            assert(spec_inserted(steps[i], keys[i].0, keys[i].1, steps[i + 1]));
        }
        law_inserts_keep_last_key(prev, pk, layers, rows, columns);
        let before = steps[n - 1];
        let after = steps[n as int];
        assert(prev.last() == before);
        assert(steps.last() == after);
        assert(spec_inserted(steps[n - 1], keys[n - 1].0, keys[n - 1].1, steps[n - 1 + 1]));
        let (k, l) = keys.last();
        assert forall|z: int| 0 <= z < layers implies (#[trigger] after.keys@[z])@.len() == rows by {
            assert(before.keys@[z]@.len() == rows);
        }
        assert forall|z: int, y: int|
            0 <= z < layers && 0 <= y < rows implies (#[trigger] after.keys@[z]@[y])@.len()
                == columns by {
            assert(before.keys@[z]@.len() == rows);
            assert(before.keys@[z]@[y]@.len() == columns);
        }
        assert forall|z: int, y: int, x: int|
            0 <= z < layers && 0 <= y < rows && 0 <= x < columns implies #[trigger] after.spec_slot(
            z,
            y,
            x,
        ) == spec_last_at(keys, z, y, x) by {
            assert(before.keys@[z]@.len() == rows);
            assert(before.keys@[z]@[y]@.len() == columns);
            assert(before.spec_in_bounds(z, y, x));
            assert(before.spec_slot(z, y, x) == spec_last_at(pk, z, y, x));
        }
    }
}

impl<L> MappedKeymap<L> {
    /// Whether layer `z`, row `y` and column `x` lie inside the grid.
    pub open spec fn spec_in_bounds(&self, z: int, y: int, x: int) -> bool {
        &&& 0 <= z < self.keys@.len()
        &&& 0 <= y < self.keys@[z]@.len()
        &&& 0 <= x < self.keys@[z]@[y]@.len()
    }

    /// The slot at layer `z`, row `y` and column `x`.
    pub open spec fn spec_slot(&self, z: int, y: int, x: int) -> Option<MappedKeymapKey<L>> {
        self.keys@[z]@[y]@[x]
    }

    /// Both grids have the same layers, rows and columns.
    pub open spec fn spec_same_shape(&self, other: &MappedKeymap<L>) -> bool {
        &&& self.keys@.len() == other.keys@.len()
        &&& forall|z: int|
            0 <= z < self.keys@.len() ==> (#[trigger] self.keys@[z])@.len() == other.keys@[z]@.len()
        &&& forall|z: int, y: int|
            0 <= z < self.keys@.len() && 0 <= y < self.keys@[z]@.len() ==> (
            #[trigger] self.keys@[z]@[y])@.len() == other.keys@[z]@[y]@.len()
    }

    /// An empty grid of `layers` layers of `rows` rows of `columns` columns.
    pub fn new(layers: u64, rows: u64, columns: u64) -> (r: MappedKeymap<L>)
        requires
            layers <= usize::MAX,
            rows <= usize::MAX,
            columns <= usize::MAX,
        ensures
            spec_is_new(r, layers, rows, columns),
    {
        let mut keys: Vec<Vec<Vec<Option<MappedKeymapKey<L>>>>> = Vec::new();
        let mut z: u64 = 0;
        while z < layers
            invariant
                z <= layers <= usize::MAX,
                rows <= usize::MAX,
                columns <= usize::MAX,
                keys@.len() == z,
                forall|a: int| 0 <= a < z ==> (#[trigger] keys@[a])@.len() == rows,
                forall|a: int, b: int|
                    0 <= a < z && 0 <= b < rows ==> (#[trigger] keys@[a]@[b])@.len() == columns,
                forall|a: int, b: int, c: int|
                    0 <= a < z && 0 <= b < rows && 0 <= c < columns ==> #[trigger] keys@[a]@[b]@[c]
                        is None,
            decreases layers - z,
        {
            let mut layer: Vec<Vec<Option<MappedKeymapKey<L>>>> = Vec::new();
            let mut y: u64 = 0;
            while y < rows
                invariant
                    y <= rows <= usize::MAX,
                    columns <= usize::MAX,
                    layer@.len() == y,
                    forall|b: int| 0 <= b < y ==> (#[trigger] layer@[b])@.len() == columns,
                    forall|b: int, c: int|
                        0 <= b < y && 0 <= c < columns ==> #[trigger] layer@[b]@[c] is None,
                decreases rows - y,
            {
                let mut row: Vec<Option<MappedKeymapKey<L>>> = Vec::new();
                let mut x: u64 = 0;
                while x < columns
                    invariant
                        x <= columns <= usize::MAX,
                        row@.len() == x,
                        forall|c: int| 0 <= c < x ==> #[trigger] row@[c] is None,
                    decreases columns - x,
                {
                    row.push(None);
                    x = x + 1;
                }
                layer.push(row);
                y = y + 1;
            }
            keys.push(layer);
            z = z + 1;
        }
        MappedKeymap {
            keys,
            dimensions: Point3D { z: layers, y: rows, x: columns },
            size: Point2D { y: 0, x: 0 },
        }
    }

    /// Places a key with its layout entry at the key's position; the size
    /// grows to cover the key's row and column.
    pub fn insert(&mut self, key: KeymapKey, layout: L)
        requires
            old(self).spec_in_bounds(
                key.position.layer as int,
                key.position.row as int,
                key.position.column as int,
            ),
        ensures
            spec_inserted(*old(self), key, layout, *final(self)),
    {
        let z = key.position.layer as usize;
        let y = key.position.row as usize;
        let x = key.position.column as usize;
        let column = key.position.column as u64;
        let row_index = key.position.row as u64;
        let ghost before = *self;
        let mut layer = self.keys.remove(z);
        let mut row = layer.remove(y);
        row.set(x, Some(MappedKeymapKey { key, layout }));
        layer.insert(y, row);
        self.keys.insert(z, layer);
        proof {
            assert(self.keys@[z as int]@ =~= before.keys@[z as int]@.update(
                y as int,
                self.keys@[z as int]@[y as int],
            ));
            assert(self.keys@ =~= before.keys@.update(z as int, self.keys@[z as int]));
        }
        if self.size.x < column {
            self.size.x = column;
        }
        if self.size.y < row_index {
            self.size.y = row_index;
        }
    }
}

} // verus!
