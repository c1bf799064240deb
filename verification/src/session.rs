//! The session: a game in play, or the score of a game that has ended.

use crate::game::{GameState, Key, RenderModel};
use crate::grid::Direction;
use crate::model::{origin, GameModel};
use vstd::prelude::*;

verus! {

/// What is left of a game that has ended: its final score.
#[derive(Clone, Copy, PartialEq, Eq, Structural, Debug)]
pub struct GameOverState {
    pub score: u32,
}

impl GameOverState {
    /// Advances the ended game: nothing happens.
    pub fn update(&mut self)
        ensures
            *final(self) == *old(self),
    {
    }

    /// Handles a key press at time `now`: `R` asks for a new game, which is
    /// returned; every other key is ignored.
    pub fn key_down_event(&self, key: Key, now: u64) -> (fresh: Option<GameState>)
        ensures
            fresh is Some <==> key == Key::R,
            fresh matches Some(game) ==> {
                &&& game.wf()
                &&& game@ == GameModel::initial(now, game@.food)
                &&& game@.food != origin()
            },
    {
        if key == Key::R {
            Some(GameState::new(now))
        } else {
            None
        }
    }

    /// What there is to draw once the game has ended.
    pub fn render_model(&self) -> (shown: RenderModel)
        ensures
            shown == (RenderModel::Ended { score: self.score }),
    {
        RenderModel::Ended { score: self.score }
    }
}

/// A session is either a game in play or the score of a game that has ended.
pub enum AppState {
    Game(GameState),
    GameOver(GameOverState),
}

impl AppState {
    /// Whether the session is valid: a game in play is a valid game.
    pub open spec fn wf(&self) -> bool {
        self matches AppState::Game(game) ==> game.wf()
    }

    /// Whether the session holds a game that has just begun at time `now`.
    pub open spec fn is_fresh(&self, now: u64) -> bool {
        &&& self matches AppState::Game(game)
        &&& game@ == GameModel::initial(now, game@.food)
        &&& game@.food != origin()
    }

    /// Advances the session to time `now`. A game in play takes its tick,
    /// and if that ends the game, or finds it ended, the session keeps the
    /// final score alone. An ended session stays as it is.
    pub fn update(&mut self, now: u64)
        requires
            old(self).wf(),
        ensures
            final(self).wf(),
            match *old(self) {
                AppState::Game(game) => if game@.ends_at(now) {
                    *final(self) == AppState::GameOver(GameOverState { score: game@.score })
                } else {
                    &&& *final(self) matches AppState::Game(next)
                    &&& game@.ticks_to(now, next@)
                },
                AppState::GameOver(_) => *final(self) == *old(self),
            },
    {
        match self {
            AppState::Game(game) => {
                game.update(now);
                if game.is_game_over() {
                    let score = game.score();
                    *self = AppState::GameOver(GameOverState { score });
                }
            },
            AppState::GameOver(over) => {
                over.update();
            },
        }
    }

    /// Asks for heading `requested`. A game in play that has not ended
    /// turns, unless asked to reverse; an ended session ignores the request.
    pub fn handle_direction_input(&mut self, requested: Direction)
        requires
            old(self).wf(),
        ensures
            final(self).wf(),
            match *old(self) {
                AppState::Game(game) => {
                    &&& *final(self) matches AppState::Game(next)
                    &&& next@ == if game@.game_over {
                        game@
                    } else {
                        game@.turned(requested)
                    }
                },
                AppState::GameOver(_) => *final(self) == *old(self),
            },
    {
        match self {
            AppState::Game(game) => {
                if !game.is_game_over() {
                    game.set_heading(requested);
                }
            },
            AppState::GameOver(_) => {},
        }
    }

    /// Starts a new game at time `now`, whatever the session held.
    pub fn handle_restart_input(&mut self, now: u64)
        ensures
            final(self).wf(),
            final(self).is_fresh(now),
    {
        *self = AppState::Game(GameState::new(now));
    }

    /// Handles a key press at time `now`. A game in play handles the key
    /// itself. An ended session starts a new game on `R` and ignores every
    /// other key.
    pub fn key_down_event(&mut self, key: Key, now: u64)
        requires
            old(self).wf(),
        ensures
            final(self).wf(),
            match *old(self) {
                AppState::Game(game) => if game@.game_over {
                    if key == Key::R {
                        final(self).is_fresh(now)
                    } else {
                        *final(self) matches AppState::Game(next) && next@ == game@
                    }
                } else {
                    &&& *final(self) matches AppState::Game(next)
                    &&& next@ == match key.spec_direction() {
                        Some(requested) => game@.turned(requested),
                        None => game@,
                    }
                },
                AppState::GameOver(_) => if key == Key::R {
                    final(self).is_fresh(now)
                } else {
                    *final(self) == *old(self)
                },
            },
    {
        match self {
            AppState::Game(game) => {
                game.key_down_event(key, now);
            },
            AppState::GameOver(_) => {
                if key == Key::R {
                    self.handle_restart_input(now);
                }
            },
        }
    }

    /// What there is to draw of the session.
    pub fn render_model(&self) -> (shown: RenderModel)
        ensures
            match *self {
                AppState::Game(game) => {
                    &&& shown matches RenderModel::Playing { body, food, score, game_over }
                    &&& body@ == game@.body
                    &&& food == game@.food
                    &&& score == game@.score
                    &&& game_over == game@.game_over
                },
                AppState::GameOver(over) => shown == (RenderModel::Ended { score: over.score }),
            },
    {
        match self {
            AppState::Game(game) => game.render_model(),
            AppState::GameOver(over) => over.render_model(),
        }
    }
}

} // verus!
