//! The coordinate space: points, headings and the fixed-size grid.

use vstd::prelude::*;

verus! {

/// The largest number of cells a grid may have. The score is a `u32` and
/// counts the segments a snake has grown, so a snake must fit this bound.
pub const MAX_CELLS: usize = 0xFFFF_FFFF;

/// One of the four headings of a snake.
#[derive(Clone, Copy, PartialEq, Eq, Structural, Debug)]
pub enum Direction {
    Up,
    Down,
    Left,
    Right,
}

impl Direction {
    /// The heading that points the other way.
    pub open spec fn spec_opposite(self) -> Direction {
        match self {
            Direction::Up => Direction::Down,
            Direction::Down => Direction::Up,
            Direction::Left => Direction::Right,
            Direction::Right => Direction::Left,
        }
    }

    /// The heading that points the other way.
    #[verifier::when_used_as_spec(spec_opposite)]
    pub fn opposite(self) -> (r: Direction)
        ensures
            r == self.spec_opposite(),
    {
        match self {
            Direction::Up => Direction::Down,
            Direction::Down => Direction::Up,
            Direction::Left => Direction::Right,
            Direction::Right => Direction::Left,
        }
    }
}

/// A cell position: `x` counts columns from the left, `y` rows from the top.
#[derive(Clone, Copy, PartialEq, Eq, Structural, Debug)]
pub struct Point {
    pub x: usize,
    pub y: usize,
}

impl Point {
    /// The position one cell away in direction `dir`. Towards the left and
    /// the top the move stops at coordinate 0: a point on that edge is its
    /// own neighbour in that direction.
    pub open spec fn spec_step(self, dir: Direction) -> Point {
        match dir {
            Direction::Up => Point { x: self.x, y: if self.y == 0 { 0 } else { (self.y - 1) as usize } },
            Direction::Down => Point { x: self.x, y: (self.y + 1) as usize },
            Direction::Left => Point { x: if self.x == 0 { 0 } else { (self.x - 1) as usize }, y: self.y },
            Direction::Right => Point { x: (self.x + 1) as usize, y: self.y },
        }
    }

    /// Moves one cell in direction `dir`, stopping at coordinate 0.
    #[verifier::when_used_as_spec(spec_step)]
    pub fn step(self, dir: Direction) -> (p: Point)
        requires
            self.x < usize::MAX,
            self.y < usize::MAX,
        ensures
            p == self.spec_step(dir),
    {
        match dir {
            Direction::Up => Point { x: self.x, y: self.y.saturating_sub(1) },
            Direction::Down => Point { x: self.x, y: self.y + 1 },
            Direction::Left => Point { x: self.x.saturating_sub(1), y: self.y },
            Direction::Right => Point { x: self.x + 1, y: self.y },
        }
    }
}

/// A grid of `width` columns and `height` rows.
#[derive(Clone, Copy, PartialEq, Eq, Structural, Debug)]
pub struct Grid {
    pub width: usize,
    pub height: usize,
}

impl Grid {
    /// A grid has at least one cell and at most [`MAX_CELLS`].
    pub open spec fn wf(self) -> bool {
        &&& 0 < self.width
        &&& 0 < self.height
        &&& self.width * self.height <= MAX_CELLS
    }

    /// The number of cells.
    pub open spec fn area(self) -> nat {
        (self.width * self.height) as nat
    }

    /// Whether `p` lies on the grid.
    pub open spec fn spec_contains(&self, p: Point) -> bool {
        p.x < self.width && p.y < self.height
    }

    /// The `i`-th cell, counting row by row from the top left.
    pub open spec fn cell(self, i: int) -> Point {
        Point { x: (i % self.width as int) as usize, y: (i / self.width as int) as usize }
    }

    /// Every cell of the grid, row by row from the top left.
    pub open spec fn cells(self) -> Seq<Point> {
        Seq::new(self.area(), |i: int| self.cell(i))
    }

    /// The grid of the given size, if it is well formed.
    pub fn new(width: usize, height: usize) -> (g: Option<Grid>)
        ensures
            g == if (Grid { width, height }).wf() {
                Some(Grid { width, height })
            } else {
                None::<Grid>
            },
    {
        if width == 0 || height == 0 {
            return None;
        }
        match width.checked_mul(height) {
            Some(area) => {
                if area <= MAX_CELLS {
                    Some(Grid { width, height })
                } else {
                    None
                }
            },
            None => None,
        }
    }

    /// Whether `p` lies on the grid.
    #[verifier::when_used_as_spec(spec_contains)]
    pub fn contains(&self, p: Point) -> (b: bool)
        ensures
            b == self.spec_contains(p),
    {
        p.x < self.width && p.y < self.height
    }

    /// The number of cells.
    pub fn cell_count(&self) -> (n: usize)
        requires
            self.wf(),
        ensures
            n == self.area(),
    {
        self.width * self.height
    }

    /// The `i`-th cell, counting row by row from the top left.
    pub fn cell_at(&self, i: usize) -> (p: Point)
        requires
            self.wf(),
            i < self.area(),
        ensures
            p == self.cell(i as int),
            self.spec_contains(p),
    {
        proof {
            self.lemma_cell_on_grid(i as int);
        }
        Point { x: i % self.width, y: i / self.width }
    }

    /// The position of `p` in [`Grid::cells`].
    pub open spec fn index_of(self, p: Point) -> int {
        p.y * self.width + p.x
    }

    /// Each cell index below the area names a point on the grid, and
    /// [`Grid::index_of`] leads back from the point to the index.
    pub proof fn lemma_cell_on_grid(self, i: int)
        requires
            self.wf(),
            0 <= i < self.area(),
        ensures
            self.spec_contains(self.cell(i)),
            self.index_of(self.cell(i)) == i,
    {
        let w = self.width as int;
        let h = self.height as int;
        vstd::arithmetic::div_mod::lemma_fundamental_div_mod(i, w);
        vstd::arithmetic::div_mod::lemma_mod_bound(i, w);
        vstd::arithmetic::div_mod::lemma_div_pos_is_pos(i, w);
        assert(i / w < h) by {
            if i / w >= h {
                vstd::arithmetic::mul::lemma_mul_inequality(h, i / w, w);
                vstd::arithmetic::mul::lemma_mul_is_commutative(h, w);
                vstd::arithmetic::mul::lemma_mul_is_commutative(i / w, w);
            }
        }
        vstd::arithmetic::mul::lemma_mul_is_commutative(i / w, w);
    }

    /// Each point on the grid has an index below the area, and
    /// [`Grid::cell`] leads back from the index to the point.
    pub proof fn lemma_index_of_cell(self, p: Point)
        requires
            self.wf(),
            self.spec_contains(p),
        ensures
            0 <= self.index_of(p) < self.area(),
            self.cell(self.index_of(p)) == p,
    {
        let w = self.width as int;
        let h = self.height as int;
        let x = p.x as int;
        let y = p.y as int;
        assert(y * w + x < w * h) by {
            vstd::arithmetic::mul::lemma_mul_inequality(y + 1, h, w);
            vstd::arithmetic::mul::lemma_mul_is_distributive_add_other_way(w, y, 1);
            vstd::arithmetic::mul::lemma_mul_is_commutative(h, w);
        }
        assert(0 <= y * w) by {
            vstd::arithmetic::mul::lemma_mul_nonnegative(y, w);
        }
        vstd::arithmetic::div_mod::lemma_fundamental_div_mod_converse(y * w + x, w, y, x);
    }

    /// The cells of a grid are exactly the points on it.
    pub proof fn lemma_cells_are_the_grid(self, p: Point)
        requires
            self.wf(),
        ensures
            self.cells().contains(p) <==> self.spec_contains(p),
    {
        if self.cells().contains(p) {
            let i = choose|i: int| 0 <= i < self.cells().len() && self.cells()[i] == p;
            self.lemma_cell_on_grid(i);
        }
        if self.spec_contains(p) {
            self.lemma_index_of_cell(p);
            assert(self.cells()[self.index_of(p)] == p);
        }
    }
}

} // verus!
