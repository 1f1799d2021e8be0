//! Axis-aligned boxes of integer cells.

use crate::container::row_major::{lemma_index_bound, lemma_join, lemma_row_bound, lemma_split};
use vstd::prelude::*;

verus! {

/// A box of integer cells: `width` cells along x starting at `x`, `height`
/// along y starting at `y` and `depth` along z starting at `z`, each
/// interval half-open.
#[derive(Copy, Clone, Debug, PartialEq, Eq, Structural)]
pub struct Volume {
    pub x: i64,
    pub y: i64,
    pub z: i64,
    pub width: i64,
    pub height: i64,
    pub depth: i64,
}

impl Volume {
    /// Whether the cell `(x, y, z)` lies in the box.
    pub open spec fn spec_contains(self, x: int, y: int, z: int) -> bool {
        &&& self.x <= x < self.x + self.width
        &&& self.y <= y < self.y + self.height
        &&& self.z <= z < self.z + self.depth
    }

    /// The cells of the box, as a set.
    pub open spec fn points(self) -> Set<(int, int, int)> {
        Set::new(|p: (int, int, int)| self.spec_contains(p.0, p.1, p.2))
    }

    /// A box with a non-positive extent holds no cell.
    pub open spec fn is_empty(self) -> bool {
        self.width <= 0 || self.height <= 0 || self.depth <= 0
    }

    /// How many cells the box holds.
    pub open spec fn count(self) -> nat {
        if self.is_empty() {
            0
        } else {
            (self.width * self.depth * self.height) as nat
        }
    }

    /// The cell at position `i` of the enumeration order: x runs fastest,
    /// then z, then y.
    pub open spec fn cell(self, i: int) -> (int, int, int) {
        let layer = i / (self.width as int);
        (
            self.x + i % (self.width as int),
            self.y + layer / (self.depth as int),
            self.z + layer % (self.depth as int),
        )
    }

    /// All cells in enumeration order.
    pub open spec fn cells(self) -> Seq<(int, int, int)> {
        Seq::new(self.count(), |i: int| self.cell(i))
    }

    /// Whether every cell has coordinates that fit in 64 bits.
    pub open spec fn enumerable(self) -> bool {
        !self.is_empty() ==> {
            &&& self.x + self.width - 1 <= i64::MAX
            &&& self.y + self.height - 1 <= i64::MAX
            &&& self.z + self.depth - 1 <= i64::MAX
        }
    }

    /// The box with its origin at `(x, y, z)` and the given extents.
    pub fn new(x: i64, y: i64, z: i64, width: i64, height: i64, depth: i64) -> (volume: Self)
        ensures
            volume == (Volume { x, y, z, width, height, depth }),
    {
        Self { x, y, z, width, height, depth }
    }

    /// Tests `x`, `y` and `z` against the half-open intervals of the box.
    pub fn contains(&self, x: i64, y: i64, z: i64) -> (inside: bool)
        ensures
            inside == self.spec_contains(x as int, y as int, z as int),
    {
        let right: i128 = self.x as i128 + self.width as i128;
        let top: i128 = self.y as i128 + self.height as i128;
        let back: i128 = self.z as i128 + self.depth as i128;
        self.x <= x && (x as i128) < right && self.y <= y && (y as i128) < top && self.z <= z && (
        z as i128) < back
    }

    /// Whether the cells can be enumerated: see [`Volume::enumerable`].
    pub fn is_enumerable(&self) -> (fits: bool)
        ensures
            fits == self.enumerable(),
    {
        let last_x: i128 = self.x as i128 + self.width as i128 - 1;
        let last_y: i128 = self.y as i128 + self.height as i128 - 1;
        let last_z: i128 = self.z as i128 + self.depth as i128 - 1;
        let max: i128 = i64::MAX as i128;
        self.width <= 0 || self.height <= 0 || self.depth <= 0 || (last_x <= max && last_y <= max
            && last_z <= max)
    }

    /// Starts an enumeration of the cells: x runs fastest, then z, then y.
    pub fn into_iter(self) -> (iter: VolumeIterator)
        requires
            self.enumerable(),
        ensures
            iter@ == self.cells(),
    {
        let iter = VolumeIterator { volume: self, iter_x: 0, iter_y: 0, iter_z: 0 };
        assert(iter.position() == 0) by (nonlinear_arith)
            requires
                iter.position() == (0 * (self.depth as int) + 0) * (self.width as int) + 0,
        ;
        assert(iter@ =~= self.cells());
        iter
    }

    /// Position `i` of a box that holds cells splits into three offsets, one
    /// per axis, each within its extent.
    proof fn lemma_offsets(self, i: int)
        requires
            !self.is_empty(),
            0 <= i < self.count(),
        ensures
            0 <= i % (self.width as int) < self.width,
            0 <= (i / (self.width as int)) % (self.depth as int) < self.depth,
            0 <= (i / (self.width as int)) / (self.depth as int) < self.height,
            i == ((i / (self.width as int)) / (self.depth as int) * self.depth + (i / (
            self.width as int)) % (self.depth as int)) * self.width + i % (self.width as int),
    {
        let w = self.width as int;
        let d = self.depth as int;
        let h = self.height as int;
        assert(w * d * h == w * (d * h)) by (nonlinear_arith);
        lemma_split(i, w);
        lemma_row_bound(i, w, d * h);
        lemma_split(i / w, d);
        lemma_row_bound(i / w, d, h);
    }

    /// Three offsets within the extents form a position whose cell lies at
    /// those offsets from the origin.
    proof fn lemma_position(self, dx: int, dy: int, dz: int)
        requires
            0 <= dx < self.width,
            0 <= dy < self.height,
            0 <= dz < self.depth,
        ensures
            0 <= (dy * self.depth + dz) * self.width + dx < self.count(),
            self.cell((dy * self.depth + dz) * self.width + dx) == (
                self.x + dx,
                self.y + dy,
                self.z + dz,
            ),
    {
        let w = self.width as int;
        let d = self.depth as int;
        let h = self.height as int;
        let layer = dy * d + dz;
        assert(w * d * h == w * (d * h)) by (nonlinear_arith);
        lemma_index_bound(dy, dz, d, h);
        lemma_index_bound(layer, dx, w, d * h);
        lemma_join(layer, dx, w);
        lemma_join(dy, dz, d);
    }

    /// The enumeration lists exactly the cells of the box.
    pub proof fn lemma_cells_are_points(self)
        ensures
            self.cells().to_set() == self.points(),
            forall|i: int|
                0 <= i < self.cells().len() ==> {
                    let p = #[trigger] self.cells()[i];
                    self.spec_contains(p.0, p.1, p.2)
                },
            forall|x: int, y: int, z: int|
                self.spec_contains(x, y, z) ==> #[trigger] self.cells().contains((x, y, z)),
    {
        assert forall|i: int| 0 <= i < self.cells().len() implies {
            let p = #[trigger] self.cells()[i];
            self.spec_contains(p.0, p.1, p.2)
        } by {
            self.lemma_offsets(i);
        }
        assert forall|x: int, y: int, z: int| self.spec_contains(x, y, z) implies #[trigger] self.cells().contains(
            (x, y, z),
        ) by {
            let i = ((y - self.y) * self.depth + (z - self.z)) * self.width + (x - self.x);
            self.lemma_position(x - self.x, y - self.y, z - self.z);
            assert(self.cells()[i] == (x, y, z));
        }
        assert(self.cells().to_set() =~= self.points());
    }

    /// No cell is listed twice.
    pub proof fn lemma_cells_are_distinct(self)
        ensures
            self.cells().no_duplicates(),
    {
        assert forall|i: int, j: int|
            0 <= i < self.cells().len() && 0 <= j < self.cells().len() && i != j implies self.cells()[i]
            != self.cells()[j] by {
            self.lemma_offsets(i);
            self.lemma_offsets(j);
        }
    }

    /// With non-negative extents the enumeration has
    /// `width * height * depth` items.
    pub proof fn lemma_cells_len(self)
        requires
            self.width >= 0,
            self.height >= 0,
            self.depth >= 0,
        ensures
            self.cells().len() == self.width * self.height * self.depth,
            self.points().finite(),
            self.points().len() == self.width * self.height * self.depth,
    {
        let w = self.width as int;
        let d = self.depth as int;
        let h = self.height as int;
        assert(w * d * h == w * h * d) by (nonlinear_arith);
        assert((w == 0 || h == 0 || d == 0) ==> w * h * d == 0) by (nonlinear_arith);
        assert((w > 0 && h > 0 && d > 0) ==> w * h * d > 0) by (nonlinear_arith);
        self.lemma_cells_are_points();
        self.lemma_cells_are_distinct();
        self.cells().unique_seq_to_set();
    }

    /// The intervals are half-open: the origin belongs to every box that
    /// holds a cell at all, and no cell lies at or beyond `origin + size` on
    /// any axis.
    pub proof fn lemma_half_open(self)
        ensures
            !self.is_empty() ==> self.spec_contains(self.x as int, self.y as int, self.z as int),
            !self.spec_contains(self.x + self.width, self.y + self.height, self.z + self.depth),
            forall|x: int, y: int, z: int|
                x >= self.x + self.width ==> !self.spec_contains(x, y, z),
            forall|x: int, y: int, z: int|
                y >= self.y + self.height ==> !self.spec_contains(x, y, z),
            forall|x: int, y: int, z: int|
                z >= self.z + self.depth ==> !self.spec_contains(x, y, z),
    {
    }
}

impl Default for Volume {
    fn default() -> (volume: Self)
        ensures
            volume == (Volume { x: 0, y: 0, z: 0, width: 0, height: 0, depth: 0 }),
    {
        Volume { x: 0, y: 0, z: 0, width: 0, height: 0, depth: 0 }
    }
}

/// A walk over the cells of a [`Volume`]: x runs fastest, then z, then y.
///
/// Its view is the sequence of cells still to come.
pub struct VolumeIterator {
    volume: Volume,
    iter_x: i64,
    iter_y: i64,
    iter_z: i64,
}

impl View for VolumeIterator {
    type V = Seq<(int, int, int)>;

    closed spec fn view(&self) -> Seq<(int, int, int)> {
        self.volume.cells().skip(self.position())
    }
}

impl VolumeIterator {
    #[verifier::type_invariant]
    spec fn well_formed(self) -> bool {
        &&& self.volume.enumerable()
        &&& if self.volume.is_empty() {
            self.iter_x == 0 && self.iter_y == 0 && self.iter_z == 0
        } else {
            &&& 0 <= self.iter_x < self.volume.width
            &&& 0 <= self.iter_z < self.volume.depth
            &&& 0 <= self.iter_y <= self.volume.height
            &&& self.iter_y == self.volume.height ==> self.iter_x == 0 && self.iter_z == 0
        }
    }

    /// How many cells have been handed out.
    spec fn position(self) -> int {
        (self.iter_y * self.volume.depth + self.iter_z) * self.volume.width + self.iter_x
    }

    /// Hands out the next cell, or `None` once all have been.
    pub fn next(&mut self) -> (item: Option<(i64, i64, i64)>)
        ensures
            match item {
                Some(p) => {
                    &&& old(self)@.len() > 0
                    &&& (p.0 as int, p.1 as int, p.2 as int) == old(self)@[0]
                    &&& final(self)@ == old(self)@.drop_first()
                },
                None => old(self)@.len() == 0 && final(self)@ == old(self)@,
            },
    {
        proof {
            use_type_invariant(&*self);
        }
        let ghost w = self.volume.width as int;
        let ghost d = self.volume.depth as int;
        let ghost h = self.volume.height as int;
        let ghost here = self.position();
        let ghost dx = self.iter_x as int;
        let ghost dy = self.iter_y as int;
        let ghost dz = self.iter_z as int;
        if self.volume.width <= 0 || self.volume.height <= 0 || self.volume.depth <= 0 {
            assert(here == 0) by (nonlinear_arith)
                requires
                    here == (dy * d + dz) * w + dx,
                    dx == 0,
                    dy == 0,
                    dz == 0,
            ;
            assert(self@.len() == 0);
            return None;
        }
        if self.iter_y >= self.volume.height {
            assert(here == w * d * h) by (nonlinear_arith)
                requires
                    here == (h * d + 0) * w + 0,
            ;
            return None;
        }
        proof {
            self.volume.lemma_position(dx, dy, dz);
            assert(self@[0] == self.volume.cells()[here]);
        }
        let value = (
            self.volume.x + self.iter_x,
            self.volume.y + self.iter_y,
            self.volume.z + self.iter_z,
        );
        if self.iter_x + 1 < self.volume.width {
            self.iter_x = self.iter_x + 1;
        } else {
            self.iter_x = 0;
            if self.iter_z + 1 < self.volume.depth {
                self.iter_z = self.iter_z + 1;
                assert((dy * d + (dz + 1)) * w + 0 == (dy * d + dz) * w + dx + 1)
                    by (nonlinear_arith)
                    requires
                        dx + 1 == w,
                ;
            } else {
                self.iter_z = 0;
                self.iter_y = self.iter_y + 1;
                assert(((dy + 1) * d + 0) * w + 0 == (dy * d + dz) * w + dx + 1)
                    by (nonlinear_arith)
                    requires
                        dx + 1 == w,
                        dz + 1 == d,
                ;
            }
        }
        assert(self@ =~= old(self)@.drop_first());
        Some(value)
    }

    /// Gathers the cells still to come, in order.
    pub fn collect(self) -> (cells: Vec<(i64, i64, i64)>)
        ensures
            cells@.len() == self@.len(),
            forall|i: int|
                0 <= i < cells@.len() ==> (
                    #[trigger] cells@[i].0 as int,
                    cells@[i].1 as int,
                    cells@[i].2 as int,
                ) == self@[i],
    {
        let mut iter = self;
        let mut cells: Vec<(i64, i64, i64)> = Vec::new();
        loop
            invariant
                cells@.len() <= self@.len(),
                iter@ == self@.skip(cells@.len() as int),
                forall|i: int|
                    0 <= i < cells@.len() ==> (
                        #[trigger] cells@[i].0 as int,
                        cells@[i].1 as int,
                        cells@[i].2 as int,
                    ) == self@[i],
            ensures
                cells@.len() == self@.len(),
            decreases iter@.len(),
        {
            match iter.next() {
                Some(p) => {
                    cells.push(p);
                    assert(iter@ =~= self@.skip(cells@.len() as int));
                },
                None => {
                    break ;
                },
            }
        }
        cells
    }
}

} // verus!
