//! Axis-aligned rectangles of integer cells.

use crate::container::row_major::{lemma_index_bound, lemma_join, lemma_row_bound, lemma_split};
use vstd::prelude::*;

verus! {

/// A rectangle of integer cells: `width` columns starting at `x` and
/// `height` rows starting at `y`, each interval half-open.
#[derive(Copy, Clone, Debug, PartialEq, Eq, Structural)]
pub struct Area {
    pub x: i64,
    pub y: i64,
    pub width: i64,
    pub height: i64,
}

impl Area {
    /// Whether the cell `(x, y)` lies in the rectangle.
    pub open spec fn spec_contains(self, x: int, y: int) -> bool {
        &&& self.x <= x < self.x + self.width
        &&& self.y <= y < self.y + self.height
    }

    /// The cells of the rectangle, as a set.
    pub open spec fn points(self) -> Set<(int, int)> {
        Set::new(|p: (int, int)| self.spec_contains(p.0, p.1))
    }

    /// A rectangle with a non-positive extent holds no cell.
    pub open spec fn is_empty(self) -> bool {
        self.width <= 0 || self.height <= 0
    }

    /// How many cells the rectangle holds.
    pub open spec fn count(self) -> nat {
        if self.is_empty() {
            0
        } else {
            (self.width * self.height) as nat
        }
    }

    /// The cell at position `i` of the row-major order: columns run fastest.
    pub open spec fn cell(self, i: int) -> (int, int) {
        (self.x + i % (self.width as int), self.y + i / (self.width as int))
    }

    /// All cells in row-major order.
    pub open spec fn cells(self) -> Seq<(int, int)> {
        Seq::new(self.count(), |i: int| self.cell(i))
    }

    /// Whether every cell has coordinates that fit in 64 bits.
    pub open spec fn enumerable(self) -> bool {
        !self.is_empty() ==> {
            &&& self.x + self.width - 1 <= i64::MAX
            &&& self.y + self.height - 1 <= i64::MAX
        }
    }

    /// The rectangle with its origin at `(x, y)` and the given extents.
    pub fn new(x: i64, y: i64, width: i64, height: i64) -> (area: Self)
        ensures
            area == (Area { x, y, width, height }),
    {
        Self { x, y, width, height }
    }

    /// Tests `x` and `y` against the half-open intervals of the rectangle.
    pub fn contains(&self, x: i64, y: i64) -> (inside: bool)
        ensures
            inside == self.spec_contains(x as int, y as int),
    {
        let right: i128 = self.x as i128 + self.width as i128;
        let bottom: i128 = self.y as i128 + self.height as i128;
        self.x <= x && (x as i128) < right && self.y <= y && (y as i128) < bottom
    }

    /// Whether the cells can be enumerated: see [`Area::enumerable`].
    pub fn is_enumerable(&self) -> (fits: bool)
        ensures
            fits == self.enumerable(),
    {
        let last_x: i128 = self.x as i128 + self.width as i128 - 1;
        let last_y: i128 = self.y as i128 + self.height as i128 - 1;
        self.width <= 0 || self.height <= 0 || (last_x <= i64::MAX as i128 && last_y
            <= i64::MAX as i128)
    }

    /// Starts an enumeration of the cells in row-major order.
    pub fn into_iter(self) -> (iter: AreaIterator)
        requires
            self.enumerable(),
        ensures
            iter@ == self.cells(),
    {
        let iter = AreaIterator { area: self, iter_x: 0, iter_y: 0 };
        assert(iter@ =~= self.cells());
        iter
    }

    /// The enumeration lists exactly the cells of the rectangle.
    pub proof fn lemma_cells_are_points(self)
        ensures
            self.cells().to_set() == self.points(),
            forall|i: int|
                0 <= i < self.cells().len() ==> {
                    let p = #[trigger] self.cells()[i];
                    self.spec_contains(p.0, p.1)
                },
            forall|x: int, y: int|
                self.spec_contains(x, y) ==> #[trigger] self.cells().contains((x, y)),
    {
        let w = self.width as int;
        let h = self.height as int;
        assert forall|i: int| 0 <= i < self.cells().len() implies {
            let p = #[trigger] self.cells()[i];
            self.spec_contains(p.0, p.1)
        } by {
            lemma_split(i, w);
            lemma_row_bound(i, w, h);
        }
        assert forall|x: int, y: int| self.spec_contains(x, y) implies #[trigger] self.cells().contains(
            (x, y),
        ) by {
            let i = (y - self.y) * w + (x - self.x);
            lemma_index_bound(y - self.y, x - self.x, w, h);
            lemma_join(y - self.y, x - self.x, w);
            assert(self.cells()[i] == (x, y));
        }
        assert(self.cells().to_set() =~= self.points());
    }

    /// No cell is listed twice.
    pub proof fn lemma_cells_are_distinct(self)
        ensures
            self.cells().no_duplicates(),
    {
        let w = self.width as int;
        assert forall|i: int, j: int|
            0 <= i < self.cells().len() && 0 <= j < self.cells().len() && i != j implies self.cells()[i]
            != self.cells()[j] by {
            lemma_split(i, w);
            lemma_split(j, w);
        }
    }

    /// With non-negative extents the enumeration has `width * height` items.
    pub proof fn lemma_cells_len(self)
        requires
            self.width >= 0,
            self.height >= 0,
        ensures
            self.cells().len() == self.width * self.height,
            self.points().finite(),
            self.points().len() == self.width * self.height,
    {
        assert(self.is_empty() ==> self.width * self.height == 0) by (nonlinear_arith)
            requires
                self.width >= 0,
                self.height >= 0,
        ;
        assert(!self.is_empty() ==> self.width * self.height > 0) by (nonlinear_arith);
        self.lemma_cells_are_points();
        self.lemma_cells_are_distinct();
        self.cells().unique_seq_to_set();
    }

    /// The intervals are half-open: the origin belongs to every rectangle
    /// that holds a cell at all, and no cell lies at or beyond
    /// `origin + size` on either axis.
    pub proof fn lemma_half_open(self)
        ensures
            !self.is_empty() ==> self.spec_contains(self.x as int, self.y as int),
            !self.spec_contains(self.x + self.width, self.y + self.height),
            forall|x: int, y: int| x >= self.x + self.width ==> !self.spec_contains(x, y),
            forall|x: int, y: int| y >= self.y + self.height ==> !self.spec_contains(x, y),
    {
    }
}

impl Default for Area {
    fn default() -> (area: Self)
        ensures
            area == (Area { x: 0, y: 0, width: 0, height: 0 }),
    {
        Area { x: 0, y: 0, width: 0, height: 0 }
    }
}

/// A walk over the cells of an [`Area`] in row-major order.
///
/// Its view is the sequence of cells still to come.
pub struct AreaIterator {
    area: Area,
    iter_x: i64,
    iter_y: i64,
}

impl View for AreaIterator {
    type V = Seq<(int, int)>;

    closed spec fn view(&self) -> Seq<(int, int)> {
        self.area.cells().skip(self.position())
    }
}

impl AreaIterator {
    #[verifier::type_invariant]
    spec fn well_formed(self) -> bool {
        &&& self.area.enumerable()
        &&& if self.area.is_empty() {
            self.iter_x == 0 && self.iter_y == 0
        } else {
            &&& 0 <= self.iter_x < self.area.width
            &&& 0 <= self.iter_y <= self.area.height
            &&& self.iter_y == self.area.height ==> self.iter_x == 0
        }
    }

    /// How many cells have been handed out.
    spec fn position(self) -> int {
        self.iter_y * self.area.width + self.iter_x
    }

    /// Hands out the next cell, or `None` once all have been.
    pub fn next(&mut self) -> (item: Option<(i64, i64)>)
        ensures
            match item {
                Some(p) => {
                    &&& old(self)@.len() > 0
                    &&& (p.0 as int, p.1 as int) == old(self)@[0]
                    &&& final(self)@ == old(self)@.drop_first()
                },
                None => old(self)@.len() == 0 && final(self)@ == old(self)@,
            },
    {
        proof {
            use_type_invariant(&*self);
        }
        let ghost w = self.area.width as int;
        let ghost h = self.area.height as int;
        let ghost here = self.position();
        let ghost col = self.iter_x as int;
        let ghost row = self.iter_y as int;
        if self.area.width <= 0 || self.area.height <= 0 {
            assert(here == 0) by (nonlinear_arith)
                requires
                    here == row * w + col,
                    row == 0,
                    col == 0,
            ;
            assert(self@.len() == 0);
            return None;
        }
        if self.iter_y >= self.area.height {
            assert(here == w * h) by (nonlinear_arith)
                requires
                    here == h * w + 0,
            ;
            return None;
        }
        proof {
            lemma_index_bound(self.iter_y as int, self.iter_x as int, w, h);
            lemma_join(self.iter_y as int, self.iter_x as int, w);
            assert(self@[0] == self.area.cells()[here]);
        }
        let value = (self.area.x + self.iter_x, self.area.y + self.iter_y);
        if self.iter_x + 1 < self.area.width {
            self.iter_x = self.iter_x + 1;
        } else {
            self.iter_x = 0;
            self.iter_y = self.iter_y + 1;
            assert((row + 1) * w + 0 == row * w + col + 1) by (nonlinear_arith)
                requires
                    col + 1 == w,
            ;
        }
        assert(self@ =~= old(self)@.drop_first());
        Some(value)
    }

    /// Gathers the cells still to come, in order.
    pub fn collect(self) -> (cells: Vec<(i64, i64)>)
        ensures
            cells@.len() == self@.len(),
            forall|i: int|
                0 <= i < cells@.len() ==> (#[trigger] cells@[i].0 as int, cells@[i].1 as int)
                    == self@[i],
    {
        let mut iter = self;
        let mut cells: Vec<(i64, i64)> = Vec::new();
        loop
            invariant
                cells@.len() <= self@.len(),
                iter@ == self@.skip(cells@.len() as int),
                forall|i: int|
                    0 <= i < cells@.len() ==> (#[trigger] cells@[i].0 as int, cells@[i].1 as int)
                        == self@[i],
            ensures
                cells@.len() == self@.len(),
            decreases iter@.len(),
        {
            match iter.next() {
                Some(p) => {
                    cells.push(p);
                    assert(iter@ =~= self@.skip(cells@.len() as int));
                },
                None => {
                    break ;
                },
            }
        }
        cells
    }
}

} // verus!
