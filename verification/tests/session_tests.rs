use snake_game::game::{GameState, Key, RenderModel};
use snake_game::grid::{Direction, Grid, Point};
use snake_game::session::{AppState, GameOverState};

fn c(x: usize, y: usize) -> Point {
    Point { x, y }
}

fn playing(cells: &[(usize, usize)], dir: Direction, food: (usize, usize)) -> AppState {
    let grid = Grid::new(5, 5).unwrap();
    let body = cells.iter().map(|&(x, y)| c(x, y)).collect();
    AppState::Game(GameState::from_parts(grid, body, dir, c(food.0, food.1), 0).unwrap())
}

fn game_of(session: &AppState) -> &GameState {
    match session {
        AppState::Game(game) => game,
        AppState::GameOver(_) => panic!("the session has ended"),
    }
}

fn assert_fresh(session: &AppState, now: u64) {
    let game = game_of(session);
    assert_eq!(game.grid(), Grid { width: 40, height: 40 });
    assert_eq!(game.snake(), vec![c(10, 10)]);
    assert_eq!(game.score(), 0);
    assert_eq!(game.dir(), Direction::Right);
    assert_ne!(game.food(), c(10, 10));
    assert!(game.grid().contains(game.food()));
    assert!(!game.is_game_over());
    assert_eq!(game.last_update(), now);
}

#[test]
fn session_tick_moves_the_snake() {
    let mut session = playing(&[(2, 2)], Direction::Right, (4, 4));
    session.update(99);
    assert_eq!(game_of(&session).snake(), vec![c(2, 2)]);
    session.update(100);
    assert_eq!(game_of(&session).snake(), vec![c(3, 2)]);
    assert_eq!(game_of(&session).score(), 0);
}

#[test]
fn session_ends_with_the_score_on_a_collision() {
    let mut session = playing(&[(4, 2), (3, 2), (2, 2)], Direction::Right, (1, 1));
    session.update(100);
    assert!(matches!(session, AppState::GameOver(GameOverState { score: 2 })));
}

#[test]
fn session_ends_when_the_game_is_found_over() {
    let grid = Grid::new(5, 5).unwrap();
    let mut game =
        GameState::from_parts(grid, vec![c(0, 0), c(1, 0)], Direction::Up, c(3, 3), 0).unwrap();
    game.update(100);
    assert!(game.is_game_over());
    let mut session = AppState::Game(game);
    session.update(100);
    assert!(matches!(session, AppState::GameOver(GameOverState { score: 1 })));
}

#[test]
fn ended_session_ignores_ticks_and_other_keys() {
    let mut session = AppState::GameOver(GameOverState { score: 9 });
    for (i, key) in [Key::Up, Key::Down, Key::Left, Key::Right, Key::Other].into_iter().enumerate()
    {
        session.update(1000 * i as u64);
        session.key_down_event(key, 1000 * i as u64);
        session.handle_direction_input(Direction::Left);
        assert!(matches!(session, AppState::GameOver(GameOverState { score: 9 })));
    }
}

#[test]
fn restart_after_the_end_gives_a_fresh_game() {
    let mut session = playing(&[(4, 2), (3, 2), (2, 2)], Direction::Right, (1, 1));
    session.update(100);
    assert!(matches!(session, AppState::GameOver(GameOverState { score: 2 })));
    session.key_down_event(Key::R, 4321);
    assert_fresh(&session, 4321);
    // the new game moves by itself, and the old score is gone
    session.handle_direction_input(Direction::Down);
    session.update(4421);
    let game = game_of(&session);
    if !game.is_game_over() {
        assert_eq!(game.head(), c(10, 11));
        assert!(game.score() <= 1);
    }
}

#[test]
fn restart_is_always_at_hand() {
    let mut session = playing(&[(2, 2), (1, 2)], Direction::Right, (4, 4));
    session.handle_restart_input(50);
    assert_fresh(&session, 50);
    let mut session = AppState::GameOver(GameOverState { score: 3 });
    session.handle_restart_input(60);
    assert_fresh(&session, 60);
}

#[test]
fn the_restart_key_does_nothing_to_a_running_game() {
    let mut session = playing(&[(2, 2), (1, 2)], Direction::Right, (4, 4));
    session.key_down_event(Key::R, 50);
    let game = game_of(&session);
    assert_eq!(game.grid(), Grid { width: 5, height: 5 });
    assert_eq!(game.snake(), vec![c(2, 2), c(1, 2)]);
    assert_eq!(game.food(), c(4, 4));
    assert_eq!(game.score(), 1);
    assert_eq!(game.last_update(), 0);
}

#[test]
fn the_restart_key_restarts_a_game_that_is_over() {
    let grid = Grid::new(5, 5).unwrap();
    let mut game =
        GameState::from_parts(grid, vec![c(0, 0), c(1, 0)], Direction::Up, c(3, 3), 0).unwrap();
    game.update(100);
    let mut session = AppState::Game(game);
    session.key_down_event(Key::Down, 150);
    assert!(game_of(&session).is_game_over());
    assert_eq!(game_of(&session).dir(), Direction::Up);
    session.key_down_event(Key::R, 200);
    assert_fresh(&session, 200);
}

#[test]
fn direction_input_turns_the_game_in_play() {
    let mut session = playing(&[(2, 2)], Direction::Right, (4, 4));
    session.handle_direction_input(Direction::Left);
    assert_eq!(game_of(&session).dir(), Direction::Right);
    session.handle_direction_input(Direction::Up);
    assert_eq!(game_of(&session).dir(), Direction::Up);
    session.key_down_event(Key::Left, 10);
    assert_eq!(game_of(&session).dir(), Direction::Left);
    session.key_down_event(Key::Right, 10);
    assert_eq!(game_of(&session).dir(), Direction::Left);
    session.key_down_event(Key::Other, 10);
    assert_eq!(game_of(&session).dir(), Direction::Left);
    session.update(100);
    assert_eq!(game_of(&session).snake(), vec![c(1, 2)]);
}

#[test]
fn direction_input_leaves_a_game_that_is_over() {
    let grid = Grid::new(5, 5).unwrap();
    let mut game =
        GameState::from_parts(grid, vec![c(0, 0), c(1, 0)], Direction::Up, c(3, 3), 0).unwrap();
    game.update(100);
    let mut session = AppState::Game(game);
    session.handle_direction_input(Direction::Down);
    session.handle_direction_input(Direction::Right);
    assert_eq!(game_of(&session).dir(), Direction::Up);
    assert!(game_of(&session).is_game_over());
}

#[test]
fn game_over_state_update_changes_nothing() {
    let mut over = GameOverState { score: 12 };
    over.update();
    assert_eq!(over, GameOverState { score: 12 });
}

#[test]
fn game_over_state_offers_a_new_game_on_r() {
    let over = GameOverState { score: 12 };
    for key in [Key::Up, Key::Down, Key::Left, Key::Right, Key::Other] {
        assert!(over.key_down_event(key, 5).is_none());
    }
    let game = over.key_down_event(Key::R, 5).unwrap();
    assert_eq!(game.snake(), vec![c(10, 10)]);
    assert_eq!(game.score(), 0);
    assert_eq!(game.dir(), Direction::Right);
    assert_eq!(game.last_update(), 5);
    assert_ne!(game.food(), c(10, 10));
    assert!(!game.is_game_over());
}

#[test]
fn session_render_model_follows_the_state() {
    let mut session = playing(&[(4, 2), (3, 2)], Direction::Right, (1, 1));
    match session.render_model() {
        RenderModel::Playing { body, food, score, game_over } => {
            assert_eq!(body, vec![c(4, 2), c(3, 2)]);
            assert_eq!(food, c(1, 1));
            assert_eq!(score, 1);
            assert!(!game_over);
        }
        RenderModel::Ended { .. } => panic!("a game in play was shown as ended"),
    }
    session.update(100);
    assert!(matches!(session.render_model(), RenderModel::Ended { score: 1 }));
    assert!(matches!(
        GameOverState { score: 8 }.render_model(),
        RenderModel::Ended { score: 8 }
    ));
}
