//! What holds of every game, proved over the model of the game.

use crate::food::lemma_free_cells;
use crate::grid::Direction;
use crate::model::{lemma_grown_body, lemma_shifted_body, lemma_snake_fits, GameModel};
use vstd::prelude::*;

verus! {

/// A tick keeps a game valid: in every state a game can reach, the snake
/// lies on the grid without overlapping itself, and the food lies on the
/// grid and is no segment of the snake.
pub proof fn lemma_tick_preserves_valid(pre: GameModel, now: u64, post: GameModel)
    requires
        pre.valid(),
        pre.ticks_to(now, post),
    ensures
        post.valid(),
{
    if pre.due(now) && !pre.collides() {
        if pre.reaches_food() {
            if pre.room_to_grow() {
                lemma_snake_fits(pre.grid, pre.body, pre.food);
                lemma_free_cells(pre.grid, pre.grown_body(), post.food);
                lemma_grown_body(pre);
            }
        } else {
            lemma_shifted_body(pre);
        }
    }
}

/// A tick leaves the snake as long as it was, unless the snake eats on
/// that tick: then it is longer by exactly one segment.
pub proof fn lemma_tick_length(pre: GameModel, now: u64, post: GameModel)
    requires
        pre.valid(),
        pre.ticks_to(now, post),
    ensures
        post.body.len() == pre.body.len() + if pre.eats_at(now) {
            1int
        } else {
            0int
        },
{
    if pre.due(now) && !pre.collides() {
        lemma_grown_body(pre);
        lemma_shifted_body(pre);
    }
}

/// A tick never lowers the score, and raises it by exactly one if the
/// snake eats on that tick, and not at all otherwise.
pub proof fn lemma_tick_score(pre: GameModel, now: u64, post: GameModel)
    requires
        pre.valid(),
        pre.ticks_to(now, post),
    ensures
        post.score >= pre.score,
        post.score == pre.score + if pre.eats_at(now) {
            1int
        } else {
            0int
        },
{
    if pre.eats_at(now) {
        lemma_snake_fits(pre.grid, pre.body, pre.food);
    }
}

/// A tick ends the game, or finds it ended, exactly when
/// [`GameModel::ends_at`] says so, and the score is then what it was.
pub proof fn lemma_tick_ends(pre: GameModel, now: u64, post: GameModel)
    requires
        pre.ticks_to(now, post),
    ensures
        post.game_over <==> pre.ends_at(now),
        post.game_over ==> post.score == pre.score,
{
}

/// A move towards a wall that the head already touches ends the game, at
/// all four edges alike. At the right and the bottom edge the next cell
/// lies off the grid. At the left and the top edge the move stops at
/// coordinate 0, so the head would stay on its own cell, which the snake
/// holds.
pub proof fn lemma_wall_ends_game(pre: GameModel, now: u64, post: GameModel)
    requires
        pre.valid(),
        pre.due(now),
        pre.faces_wall(),
        pre.ticks_to(now, post),
    ensures
        pre.collides(),
        post == pre.ended(),
{
    assert(pre.grid.spec_contains(pre.body[0]));
    match pre.dir {
        Direction::Up | Direction::Left => {
            assert(pre.next_head() == pre.body[0]);
        },
        _ => {},
    }
}

/// A request to reverse leaves the heading as it is; a request for the
/// heading itself, or for a heading across it, is taken.
pub proof fn lemma_turn(pre: GameModel, requested: Direction)
    ensures
        requested == pre.dir.spec_opposite() ==> pre.turned(requested) == pre,
        requested != pre.dir.spec_opposite() ==> pre.turned(requested).dir == requested,
        pre.turned(requested) == (GameModel { dir: pre.turned(requested).dir, ..pre }),
        pre.valid() ==> pre.turned(requested).valid(),
{
}

/// Whether one event other than a restart takes `pre` to `post`: a tick
/// at some time, or a request for a heading while the game runs.
pub open spec fn is_step(pre: GameModel, post: GameModel) -> bool {
    ||| exists|now: u64| pre.ticks_to(now, post)
    ||| exists|requested: Direction| !pre.game_over && post == pre.turned(requested)
}

/// Whether each state of `run` follows from the one before by one event
/// other than a restart.
pub open spec fn is_run(run: Seq<GameModel>) -> bool {
    forall|i: int| 0 <= i < run.len() - 1 ==> is_step(#[trigger] run[i], run[i + 1])
}

/// One event other than a restart keeps a game valid, never lowers the
/// score, and changes nothing once the game is over.
pub proof fn lemma_step(pre: GameModel, post: GameModel)
    requires
        pre.valid(),
        is_step(pre, post),
    ensures
        post.valid(),
        post.score >= pre.score,
        pre.game_over ==> post == pre,
{
    if exists|now: u64| pre.ticks_to(now, post) {
        let now = choose|now: u64| pre.ticks_to(now, post);
        lemma_tick_preserves_valid(pre, now, post);
        lemma_tick_score(pre, now, post);
    }
}

/// In a run that starts from a valid game and holds no restart, every
/// state is valid, so the food is never a segment of the snake; the score
/// never goes down; and from the state in which the game is over, nothing
/// changes any more.
pub proof fn lemma_run(run: Seq<GameModel>, i: int, j: int)
    requires
        is_run(run),
        0 <= i <= j < run.len(),
        run[0].valid(),
    ensures
        run[j].valid(),
        !run[j].body.contains(run[j].food),
        run[i].score <= run[j].score,
        run[i].game_over ==> run[j] == run[i],
    decreases j,
{
    if j > 0 {
        if i < j {
            lemma_run(run, i, j - 1);
        } else {
            lemma_run(run, i - 1, j - 1);
        }
        assert(is_step(run[j - 1], run[j - 1 + 1]));
        lemma_step(run[j - 1], run[j]);
    }
}

} // verus!
