//! Free cells: which cells of a grid a snake leaves open, how many there
//! are, and how a uniformly random one is drawn.

use crate::grid::{Grid, Point};
use rand::Rng;
use std::collections::VecDeque;
use vstd::prelude::*;

verus! {

/// The test that a point is not among `occupied`.
pub open spec fn is_free(occupied: Seq<Point>) -> spec_fn(Point) -> bool {
    |p: Point| !occupied.contains(p)
}

/// The cells of `grid` that `occupied` leaves free, row by row from the top
/// left.
pub open spec fn free_cells(grid: Grid, occupied: Seq<Point>) -> Seq<Point> {
    grid.cells().filter(is_free(occupied))
}

/// A point is a free cell exactly when it lies on the grid and is not
/// occupied.
pub proof fn lemma_free_cells(grid: Grid, occupied: Seq<Point>, p: Point)
    requires
        grid.wf(),
    ensures
        free_cells(grid, occupied).contains(p) <==> grid.spec_contains(p) && !occupied.contains(p),
{
    let cells = grid.cells();
    let free = free_cells(grid, occupied);
    grid.lemma_cells_are_the_grid(p);
    if free.contains(p) {
        cells.lemma_filter_contains_rev(is_free(occupied), p);
        let i = choose|i: int| 0 <= i < free.len() && free[i] == p;
        cells.lemma_filter_pred(is_free(occupied), i);
    }
    if grid.spec_contains(p) && !occupied.contains(p) {
        grid.lemma_index_of_cell(p);
        cells.lemma_filter_contains(is_free(occupied), grid.index_of(p));
    }
}

/// The free cells among the first `n + 1` cells are those among the first
/// `n`, followed by cell `n` if it is free.
proof fn lemma_free_prefix_grows(grid: Grid, occupied: Seq<Point>, n: int)
    requires
        0 <= n < grid.area(),
    ensures
        grid.cells().take(n + 1).filter(is_free(occupied)) == if occupied.contains(grid.cell(n)) {
            grid.cells().take(n).filter(is_free(occupied))
        } else {
            grid.cells().take(n).filter(is_free(occupied)).push(grid.cell(n))
        },
{
    let cells = grid.cells();
    assert(cells.take(n + 1) =~= cells.take(n).push(cells[n]));
    cells.take(n).lemma_filter_push(cells[n], is_free(occupied));
}

/// The free cells among a prefix of the cells are a prefix of the free cells.
proof fn lemma_free_prefix(grid: Grid, occupied: Seq<Point>, n: int)
    requires
        0 <= n <= grid.area(),
    ensures
        grid.cells().take(n).filter(is_free(occupied)).is_prefix_of(free_cells(grid, occupied)),
{
    let cells = grid.cells();
    assert(cells =~= cells.take(n) + cells.skip(n));
    Seq::filter_distributes_over_add(cells.take(n), cells.skip(n), is_free(occupied));
}

/// Whether `p` is one of the segments of `snake`.
pub fn occupies(snake: &VecDeque<Point>, p: Point) -> (b: bool)
    ensures
        b == snake@.contains(p),
{
    let mut i: usize = 0;
    while i < snake.len()
        invariant
            i <= snake@.len(),
            forall|j: int| 0 <= j < i ==> snake@[j] != p,
        decreases snake@.len() - i,
    {
        if snake[i] == p {
            return true;
        }
        i += 1;
    }
    false
}

/// The number of cells of `grid` that `snake` leaves free.
pub fn free_cell_count(grid: &Grid, snake: &VecDeque<Point>) -> (n: usize)
    requires
        grid.wf(),
    ensures
        n == free_cells(*grid, snake@).len(),
{
    let total = grid.cell_count();
    let mut n: usize = 0;
    let mut i: usize = 0;
    while i < total
        invariant
            grid.wf(),
            total == grid.area(),
            i <= total,
            n <= i,
            n == grid.cells().take(i as int).filter(is_free(snake@)).len(),
        decreases total - i,
    {
        let p = grid.cell_at(i);
        proof {
            lemma_free_prefix_grows(*grid, snake@, i as int);
        }
        if !occupies(snake, p) {
            n += 1;
        }
        i += 1;
    }
    assert(grid.cells().take(total as int) =~= grid.cells());
    n
}

/// The `k`-th cell of `grid` that `snake` leaves free, counting row by row
/// from the top left, if there are more than `k` free cells.
pub fn free_cell_at(grid: &Grid, snake: &VecDeque<Point>, k: usize) -> (r: Option<Point>)
    requires
        grid.wf(),
    ensures
        r == if k < free_cells(*grid, snake@).len() {
            Some(free_cells(*grid, snake@)[k as int])
        } else {
            None::<Point>
        },
{
    let total = grid.cell_count();
    let mut n: usize = 0;
    let mut i: usize = 0;
    while i < total
        invariant
            grid.wf(),
            total == grid.area(),
            i <= total,
            n <= i,
            n <= k,
            n == grid.cells().take(i as int).filter(is_free(snake@)).len(),
        decreases total - i,
    {
        let p = grid.cell_at(i);
        proof {
            lemma_free_prefix_grows(*grid, snake@, i as int);
            lemma_free_prefix(*grid, snake@, i as int + 1);
        }
        if !occupies(snake, p) {
            if n == k {
                proof {
                    let seen = grid.cells().take(i as int + 1).filter(is_free(snake@));
                    assert(seen.len() == k + 1);
                    assert(seen[k as int] == p);
                    assert(free_cells(*grid, snake@)[k as int] == seen[k as int]);
                }
                return Some(p);
            }
            n += 1;
        }
        i += 1;
    }
    assert(grid.cells().take(total as int) =~= grid.cells());
    None
}

/// Draws a number below `bound` with `Rng::gen_range` on the generator that
/// `rand::thread_rng` hands out. The contract is taken on trust and claims
/// only what holds of every draw: the number lies in `0..bound`. The range
/// must not be empty, or `gen_range` panics. `thread_rng` itself panics if
/// the operating system cannot seed the generator on its first use.
#[verifier::external_body]
pub(crate) fn random_below(bound: usize) -> (r: usize)
    requires
        bound > 0,
    ensures
        r < bound,
{
    rand::thread_rng().gen_range(0..bound)
}

} // verus!
