//! The simulation engine: the snake, its heading, the food, the score and
//! the fixed-interval tick that moves the snake.

use crate::food::{free_cell_at, free_cell_count, free_cells, lemma_free_cells, occupies, random_below};
use crate::grid::{Direction, Grid, Point, MAX_CELLS};
use crate::model::{
    lemma_grown_body, lemma_shifted_body, lemma_snake_fits, origin, GameModel, FOOD_DRAWS, HEIGHT,
    ORIGIN_X, ORIGIN_Y, TICK_MILLIS, WIDTH,
};
use std::collections::VecDeque;
use vstd::prelude::*;

verus! {

/// A key of the keyboard, as far as the game tells keys apart.
#[derive(Clone, Copy, PartialEq, Eq, Structural, Debug)]
pub enum Key {
    Up,
    Down,
    Left,
    Right,
    /// The key that starts a new game.
    R,
    /// Any other key.
    Other,
}

impl Key {
    /// The heading an arrow key asks for.
    pub open spec fn spec_direction(self) -> Option<Direction> {
        match self {
            Key::Up => Some(Direction::Up),
            Key::Down => Some(Direction::Down),
            Key::Left => Some(Direction::Left),
            Key::Right => Some(Direction::Right),
            _ => None,
        }
    }

    /// The heading an arrow key asks for; `None` for every other key.
    #[verifier::when_used_as_spec(spec_direction)]
    pub fn direction(self) -> (d: Option<Direction>)
        ensures
            d == self.spec_direction(),
    {
        match self {
            Key::Up => Some(Direction::Up),
            Key::Down => Some(Direction::Down),
            Key::Left => Some(Direction::Left),
            Key::Right => Some(Direction::Right),
            _ => None,
        }
    }
}

/// What there is to draw.
#[derive(Debug)]
pub enum RenderModel {
    /// A game: the snake head first, the food, the score, and whether the
    /// game has ended.
    Playing { body: Vec<Point>, food: Point, score: u32, game_over: bool },
    /// A session that has ended, with its final score.
    Ended { score: u32 },
}

/// A game of snake.
pub struct GameState {
    grid: Grid,
    snake: VecDeque<Point>,
    dir: Direction,
    food: Point,
    last_update: u64,
    game_over: bool,
    score: u32,
}

impl View for GameState {
    type V = GameModel;

    closed spec fn view(&self) -> GameModel {
        GameModel {
            grid: self.grid,
            body: self.snake@,
            dir: self.dir,
            food: self.food,
            last_update: self.last_update,
            game_over: self.game_over,
            score: self.score,
        }
    }
}

impl GameState {
    /// Whether the game is valid. Every game this library hands out is.
    pub open spec fn wf(&self) -> bool {
        self@.valid()
    }

    /// Starts a game at time `now`: a snake of one segment at the origin of
    /// the default grid, heading right, with no score, and food on some
    /// other cell.
    pub fn new(now: u64) -> (game: GameState)
        ensures
            game.wf(),
            game@ == GameModel::initial(now, game@.food),
            game@.food != origin(),
    {
        let grid = Grid { width: WIDTH, height: HEIGHT };
        let start = Point { x: ORIGIN_X, y: ORIGIN_Y };
        let mut snake = VecDeque::new();
        snake.push_back(start);
        assert(snake@ =~= seq![origin()]);
        proof {
            let corner = Point { x: 0, y: 0 };
            lemma_free_cells(grid, snake@, corner);
        }
        let drawn = GameState::random_food(&grid, &snake);
        let food = drawn.unwrap();
        proof {
            lemma_free_cells(grid, snake@, food);
            assert(snake@[0] == origin());
        }
        GameState { grid, snake, dir: Direction::Right, food, last_update: now, game_over: false, score: 0 }
    }

    /// Picks a cell for new food, each free cell of `grid` with the same
    /// chance: some cell of the grid that is no segment of `snake`, or
    /// `None` when the snake fills the grid.
    ///
    /// It draws a cell of the whole grid up to [`FOOD_DRAWS`] times and
    /// takes the first that is free; if none is, it draws among the free
    /// cells.
    pub fn random_food(grid: &Grid, snake: &VecDeque<Point>) -> (food: Option<Point>)
        requires
            grid.wf(),
        ensures
            match food {
                Some(p) => free_cells(*grid, snake@).contains(p),
                None => free_cells(*grid, snake@).len() == 0,
            },
    {
        let mut draws: usize = 0;
        while draws < FOOD_DRAWS
            invariant
                grid.wf(),
            decreases FOOD_DRAWS - draws,
        {
            let p = Point { x: random_below(grid.width), y: random_below(grid.height) };
            if !occupies(snake, p) {
                proof {
                    lemma_free_cells(*grid, snake@, p);
                }
                return Some(p);
            }
            draws += 1;
        }
        let free = free_cell_count(grid, snake);
        if free == 0 {
            return None;
        }
        let k = random_below(free);
        free_cell_at(grid, snake, k)
    }

    /// Asks for heading `requested`. A request to reverse is ignored.
    pub fn set_heading(&mut self, requested: Direction)
        requires
            old(self).wf(),
        ensures
            final(self).wf(),
            final(self)@ == old(self)@.turned(requested),
            final(self)@.dir == if requested == old(self)@.dir.spec_opposite() {
                old(self)@.dir
            } else {
                requested
            },
    {
        if requested != self.dir.opposite() {
            self.dir = requested;
        }
    }

    /// Advances the game to time `now`. Nothing happens while the game is
    /// over or less than [`TICK_MILLIS`] have passed since the last move.
    /// Otherwise the head moves one cell along the heading:
    /// - into a wall or into the snake, and the game ends where it stands;
    /// - onto the food, and the snake grows by the new head, the score goes
    ///   up by one and new food lies on a free cell; but if the grown snake
    ///   would fill the grid, the game ends where it stands;
    /// - onto any other cell, and the snake follows, leaving its last cell.
    pub fn update(&mut self, now: u64)
        requires
            old(self).wf(),
        ensures
            final(self).wf(),
            old(self)@.ticks_to(now, final(self)@),
    {
        if self.game_over {
            return;
        }
        if now < self.last_update || now - self.last_update < TICK_MILLIS {
            return;
        }
        let ghost pre = self@;
        assert(pre.grid.spec_contains(pre.body[0]));
        let head = self.snake[0];
        let new_head = head.step(self.dir);
        if !self.grid.contains(new_head) || occupies(&self.snake, new_head) {
            self.game_over = true;
            return;
        }
        if new_head == self.food {
            proof {
                lemma_snake_fits(pre.grid, pre.body, pre.food);
                lemma_grown_body(pre);
            }
            self.snake.push_front(new_head);
            match GameState::random_food(&self.grid, &self.snake) {
                Some(food) => {
                    proof {
                        lemma_free_cells(pre.grid, pre.grown_body(), food);
                    }
                    self.food = food;
                    self.score += 1;
                    self.last_update = now;
                },
                None => {
                    self.snake.pop_front();
                    assert(self.snake@ =~= pre.body);
                    self.game_over = true;
                },
            }
        } else {
            proof {
                lemma_shifted_body(pre);
            }
            self.snake.push_front(new_head);
            self.snake.pop_back();
            assert(self.snake@ =~= pre.shifted_body());
            self.last_update = now;
        }
    }

    /// Handles a key press at time `now`. While the game runs, an arrow key
    /// asks for its heading. Once the game is over, `R` starts a new game.
    /// Every other key press changes nothing.
    pub fn key_down_event(&mut self, key: Key, now: u64)
        requires
            old(self).wf(),
        ensures
            final(self).wf(),
            old(self)@.game_over && key == Key::R ==> {
                &&& final(self)@ == GameModel::initial(now, final(self)@.food)
                &&& final(self)@.food != origin()
            },
            old(self)@.game_over && key != Key::R ==> final(self)@ == old(self)@,
            !old(self)@.game_over ==> final(self)@ == match key.spec_direction() {
                Some(requested) => old(self)@.turned(requested),
                None => old(self)@,
            },
    {
        if self.game_over {
            if key == Key::R {
                *self = GameState::new(now);
            }
        } else {
            match key.direction() {
                Some(requested) => self.set_heading(requested),
                None => {},
            }
        }
    }

    /// Puts a running game together from its parts: the snake head first,
    /// its heading, the food, and the time of its last move. The score is
    /// the number of segments behind the head. Returns `None` unless the
    /// parts make a valid game.
    pub fn from_parts(grid: Grid, body: Vec<Point>, dir: Direction, food: Point, now: u64) -> (game:
        Option<GameState>)
        ensures
            match game {
                Some(g) => g.wf() && g@ == GameModel::assembled(grid, body@, dir, food, now),
                None => !GameModel::assembled(grid, body@, dir, food, now).valid(),
            },
    {
        let ghost model = GameModel::assembled(grid, body@, dir, food, now);
        if Grid::new(grid.width, grid.height).is_none() {
            return None;
        }
        if body.len() == 0 || !grid.contains(food) {
            return None;
        }
        if body.len() > MAX_CELLS {
            proof {
                if model.valid() {
                    lemma_snake_fits(grid, body@, food);
                }
            }
            return None;
        }
        let mut snake: VecDeque<Point> = VecDeque::new();
        let mut i: usize = 0;
        while i < body.len()
            invariant
                i <= body@.len(),
                snake@ == body@.take(i as int),
                snake@.no_duplicates(),
                !snake@.contains(food),
                forall|j: int| 0 <= j < i ==> grid.spec_contains(#[trigger] body@[j]),
                model == GameModel::assembled(grid, body@, dir, food, now),
            decreases body@.len() - i,
        {
            let p = body[i];
            if !grid.contains(p) || p == food {
                return None;
            }
            if occupies(&snake, p) {
                proof {
                    let j = choose|j: int| 0 <= j < snake@.len() && snake@[j] == p;
                    assert(body@[j] == body@[i as int]);
                }
                return None;
            }
            snake.push_back(p);
            proof {
                let before = body@.take(i as int);
                let after = body@.take(i as int + 1);
                assert(after =~= before.push(p));
                assert(snake@ == after);
                assert forall|a: int, b: int|
                    0 <= a < after.len() && 0 <= b < after.len() && a != b implies after[a]
                    != after[b] by {
                    if a < i {
                        assert(before[a] == after[a]);
                    }
                    if b < i {
                        assert(before[b] == after[b]);
                    }
                }
                assert(!after.contains(food)) by {
                    if after.contains(food) {
                        let a = choose|a: int| 0 <= a < after.len() && after[a] == food;
                        if a < i {
                            assert(before[a] == food);
                        }
                    }
                }
            }
            i += 1;
        }
        assert(body@.take(body@.len() as int) =~= body@);
        let score = (body.len() - 1) as u32;
        Some(GameState { grid, snake, dir, food, last_update: now, game_over: false, score })
    }

    /// What there is to draw of the game.
    pub fn render_model(&self) -> (shown: RenderModel)
        ensures
            ({
                &&& shown matches RenderModel::Playing { body, food, score, game_over }
                &&& body@ == self@.body
                &&& food == self@.food
                &&& score == self@.score
                &&& game_over == self@.game_over
            }),
    {
        RenderModel::Playing {
            body: self.snake(),
            food: self.food,
            score: self.score,
            game_over: self.game_over,
        }
    }

    /// The grid the game is played on.
    pub fn grid(&self) -> (grid: Grid)
        ensures
            grid == self@.grid,
    {
        self.grid
    }

    /// The snake, head first.
    pub fn snake(&self) -> (body: Vec<Point>)
        ensures
            body@ == self@.body,
    {
        let mut body: Vec<Point> = Vec::new();
        let mut i: usize = 0;
        while i < self.snake.len()
            invariant
                i <= self.snake@.len(),
                body@ == self.snake@.take(i as int),
            decreases self.snake@.len() - i,
        {
            body.push(self.snake[i]);
            assert(self.snake@.take(i as int + 1) =~= self.snake@.take(i as int).push(
                self.snake@[i as int],
            ));
            i += 1;
        }
        assert(self.snake@.take(self.snake@.len() as int) =~= self.snake@);
        body
    }

    /// The head of the snake.
    pub fn head(&self) -> (head: Point)
        requires
            self.wf(),
        ensures
            head == self@.head(),
    {
        self.snake[0]
    }

    /// The heading the next move takes.
    pub fn dir(&self) -> (dir: Direction)
        ensures
            dir == self@.dir,
    {
        self.dir
    }

    /// Where the food lies.
    pub fn food(&self) -> (food: Point)
        ensures
            food == self@.food,
    {
        self.food
    }

    /// How often the snake has eaten.
    pub fn score(&self) -> (score: u32)
        ensures
            score == self@.score,
    {
        self.score
    }

    /// Whether the game has ended.
    pub fn is_game_over(&self) -> (over: bool)
        ensures
            over == self@.game_over,
    {
        self.game_over
    }

    /// When the snake last moved, in milliseconds.
    pub fn last_update(&self) -> (at: u64)
        ensures
            at == self@.last_update,
    {
        self.last_update
    }
}

} // verus!
