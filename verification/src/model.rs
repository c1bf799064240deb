//! The game as a mathematical value: what a valid game is, and what a
//! tick and a turn make of it.

use crate::food::free_cells;
use crate::grid::{Direction, Grid, Point};
use vstd::prelude::*;

verus! {

/// The width of the grid a new game is played on.
pub const WIDTH: usize = 40;

/// The height of the grid a new game is played on.
pub const HEIGHT: usize = 40;

/// The column a new snake starts in.
pub const ORIGIN_X: usize = 10;

/// The row a new snake starts in.
pub const ORIGIN_Y: usize = 10;

/// The time between two moves of the snake, in milliseconds.
pub const TICK_MILLIS: u64 = 100;

/// How often [`crate::game::GameState::random_food`] draws a cell from the whole grid
/// before it draws from the free cells alone.
pub const FOOD_DRAWS: usize = 16;

/// The grid a new game is played on.
pub open spec fn default_grid() -> Grid {
    Grid { width: WIDTH, height: HEIGHT }
}

/// The cell a new snake starts on.
pub open spec fn origin() -> Point {
    Point { x: ORIGIN_X, y: ORIGIN_Y }
}

/// What a game is, as a mathematical value. Contracts speak of this model;
/// [`crate::game::GameState`] is its executable form.
pub struct GameModel {
    /// The grid the game is played on.
    pub grid: Grid,
    /// The snake, head first.
    pub body: Seq<Point>,
    /// The heading the next move takes.
    pub dir: Direction,
    /// Where the food lies.
    pub food: Point,
    /// When the snake last moved, in milliseconds.
    pub last_update: u64,
    /// Whether the game has ended.
    pub game_over: bool,
    /// How often the snake has eaten.
    pub score: u32,
}

impl GameModel {
    /// What holds of every game: the snake has a head, lies on the grid and
    /// never overlaps itself; the food lies on the grid and off the snake;
    /// the score counts the segments the snake has grown.
    pub open spec fn valid(self) -> bool {
        &&& self.grid.wf()
        &&& self.body.len() > 0
        &&& forall|i: int| 0 <= i < self.body.len() ==> self.grid.spec_contains(#[trigger] self.body[i])
        &&& self.body.no_duplicates()
        &&& self.grid.spec_contains(self.food)
        &&& !self.body.contains(self.food)
        &&& self.score as int == self.body.len() - 1
    }

    /// A game that has just begun on the default grid, with the food at
    /// `food`.
    pub open spec fn initial(now: u64, food: Point) -> GameModel {
        GameModel {
            grid: default_grid(),
            body: seq![origin()],
            dir: Direction::Right,
            food,
            last_update: now,
            game_over: false,
            score: 0,
        }
    }

    /// A running game put together from its parts. The score is the number
    /// of segments behind the head.
    pub open spec fn assembled(
        grid: Grid,
        body: Seq<Point>,
        dir: Direction,
        food: Point,
        now: u64,
    ) -> GameModel {
        GameModel {
            grid,
            body,
            dir,
            food,
            last_update: now,
            game_over: false,
            score: (body.len() - 1) as u32,
        }
    }

    /// The head of the snake.
    pub open spec fn head(self) -> Point {
        self.body[0]
    }

    /// Where the head moves next.
    pub open spec fn next_head(self) -> Point {
        self.head().spec_step(self.dir)
    }

    /// Whether the game is running and a move is due at time `now`.
    pub open spec fn due(self, now: u64) -> bool {
        !self.game_over && now - self.last_update >= TICK_MILLIS
    }

    /// Whether the next move runs into a wall or into the snake. A move
    /// that the left or the top edge stops leaves the head where it is, and
    /// so runs into the snake.
    pub open spec fn collides(self) -> bool {
        !self.grid.spec_contains(self.next_head()) || self.body.contains(self.next_head())
    }

    /// Whether the next move takes the head onto the food.
    pub open spec fn reaches_food(self) -> bool {
        !self.collides() && self.next_head() == self.food
    }

    /// The snake after a move that eats.
    pub open spec fn grown_body(self) -> Seq<Point> {
        seq![self.next_head()] + self.body
    }

    /// The snake after a move that does not eat.
    pub open spec fn shifted_body(self) -> Seq<Point> {
        seq![self.next_head()] + self.body.drop_last()
    }

    /// Whether a cell is left for new food once the snake has grown.
    pub open spec fn room_to_grow(self) -> bool {
        free_cells(self.grid, self.grown_body()).len() > 0
    }

    /// The same game, ended.
    pub open spec fn ended(self) -> GameModel {
        GameModel { game_over: true, ..self }
    }

    /// The game after a move at time `now` that does not eat.
    pub open spec fn moved(self, now: u64) -> GameModel {
        GameModel { body: self.shifted_body(), last_update: now, ..self }
    }

    /// The game after a move at time `now` that eats, with new food at
    /// `food`.
    pub open spec fn fed(self, now: u64, food: Point) -> GameModel {
        GameModel {
            body: self.grown_body(),
            food,
            score: (self.score + 1) as u32,
            last_update: now,
            ..self
        }
    }

    /// The game after a request for heading `requested`: a request to
    /// reverse is ignored.
    pub open spec fn turned(self, requested: Direction) -> GameModel {
        if requested == self.dir.spec_opposite() {
            self
        } else {
            GameModel { dir: requested, ..self }
        }
    }

    /// Whether a tick at time `now` moves the head onto the food and the
    /// snake grows.
    pub open spec fn eats_at(self, now: u64) -> bool {
        self.due(now) && self.reaches_food() && self.room_to_grow()
    }

    /// Whether the head lies on the edge of the grid that the heading
    /// points to.
    pub open spec fn faces_wall(self) -> bool {
        match self.dir {
            Direction::Up => self.head().y == 0,
            Direction::Down => self.head().y + 1 == self.grid.height,
            Direction::Left => self.head().x == 0,
            Direction::Right => self.head().x + 1 == self.grid.width,
        }
    }

    /// Whether a tick at time `now` ends the game, or finds it ended.
    pub open spec fn ends_at(self, now: u64) -> bool {
        self.game_over || (self.due(now) && (self.collides() || (self.reaches_food()
            && !self.room_to_grow())))
    }

    /// Whether `next` is a state the game may be in after a tick at time
    /// `now`. All of `next` is fixed by the game and `now`, but for the
    /// place of new food, which is some free cell.
    pub open spec fn ticks_to(self, now: u64, next: GameModel) -> bool {
        if !self.due(now) {
            next == self
        } else if self.collides() {
            next == self.ended()
        } else if !self.reaches_food() {
            next == self.moved(now)
        } else if !self.room_to_grow() {
            next == self.ended()
        } else {
            &&& next == self.fed(now, next.food)
            &&& free_cells(self.grid, self.grown_body()).contains(next.food)
        }
    }
}

/// A snake that lies on the grid without overlapping itself, beside food
/// that lies on the grid and off the snake, leaves the snake shorter than
/// the grid has cells.
pub proof fn lemma_snake_fits(grid: Grid, body: Seq<Point>, food: Point)
    requires
        grid.wf(),
        body.no_duplicates(),
        forall|i: int| 0 <= i < body.len() ==> grid.spec_contains(#[trigger] body[i]),
        grid.spec_contains(food),
        !body.contains(food),
    ensures
        body.len() + 1 <= grid.area(),
{
    let taken = body.push(food);
    let cells = grid.cells();
    assert(taken.no_duplicates());
    assert forall|p: Point| taken.to_set().contains(p) implies cells.to_set().contains(p) by {
        assert(taken.contains(p));
        let i = choose|i: int| 0 <= i < taken.len() && taken[i] == p;
        assert(grid.spec_contains(taken[i]));
        grid.lemma_cells_are_the_grid(p);
    }
    taken.unique_seq_to_set();
    cells.lemma_cardinality_of_set();
    vstd::set_lib::lemma_len_subset(taken.to_set(), cells.to_set());
}

/// The snake after a move that eats lies on the grid without overlapping
/// itself.
pub proof fn lemma_grown_body(pre: GameModel)
    requires
        pre.valid(),
        !pre.collides(),
    ensures
        pre.grown_body().len() == pre.body.len() + 1,
        pre.grown_body().no_duplicates(),
        forall|i: int|
            0 <= i < pre.grown_body().len() ==> pre.grid.spec_contains(#[trigger] pre.grown_body()[i]),
        forall|p: Point| pre.grown_body().contains(p) <==> p == pre.next_head() || pre.body.contains(p),
{
    let grown = pre.grown_body();
    assert forall|i: int, j: int| 0 <= i < grown.len() && 0 <= j < grown.len() && i != j implies grown[i]
        != grown[j] by {
        if i > 0 {
            assert(pre.body[i - 1] == grown[i]);
        }
        if j > 0 {
            assert(pre.body[j - 1] == grown[j]);
        }
    }
    assert forall|i: int| 0 <= i < grown.len() implies pre.grid.spec_contains(#[trigger] grown[i]) by {
        if i > 0 {
            assert(pre.body[i - 1] == grown[i]);
        }
    }
    assert forall|p: Point| grown.contains(p) <==> p == pre.next_head() || pre.body.contains(p) by {
        if grown.contains(p) {
            let i = choose|i: int| 0 <= i < grown.len() && grown[i] == p;
            if i > 0 {
                assert(pre.body[i - 1] == p);
            }
        }
        if p == pre.next_head() {
            assert(grown[0] == p);
        }
        if pre.body.contains(p) {
            let i = choose|i: int| 0 <= i < pre.body.len() && pre.body[i] == p;
            assert(grown[i + 1] == p);
        }
    }
}

/// The snake after a move that does not eat is as long as before, lies on
/// the grid without overlapping itself, and holds no cell but the new head
/// and cells it held before.
pub proof fn lemma_shifted_body(pre: GameModel)
    requires
        pre.valid(),
        !pre.collides(),
    ensures
        pre.shifted_body().len() == pre.body.len(),
        pre.shifted_body().no_duplicates(),
        forall|i: int|
            0 <= i < pre.shifted_body().len() ==> pre.grid.spec_contains(
                #[trigger] pre.shifted_body()[i],
            ),
        forall|p: Point|
            pre.shifted_body().contains(p) ==> p == pre.next_head() || pre.body.contains(p),
{
    let shifted = pre.shifted_body();
    assert forall|i: int, j: int|
        0 <= i < shifted.len() && 0 <= j < shifted.len() && i != j implies shifted[i]
        != shifted[j] by {
        if i > 0 {
            assert(pre.body[i - 1] == shifted[i]);
        }
        if j > 0 {
            assert(pre.body[j - 1] == shifted[j]);
        }
    }
    assert forall|i: int| 0 <= i < shifted.len() implies pre.grid.spec_contains(
        #[trigger] shifted[i],
    ) by {
        if i > 0 {
            assert(pre.body[i - 1] == shifted[i]);
        }
    }
    assert forall|p: Point| shifted.contains(p) implies p == pre.next_head() || pre.body.contains(
        p,
    ) by {
        let i = choose|i: int| 0 <= i < shifted.len() && shifted[i] == p;
        if i > 0 {
            assert(pre.body[i - 1] == p);
        }
    }
}

} // verus!
