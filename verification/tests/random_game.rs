use flappy_quad::game::{Game, GameState};
use flappy_quad::geometry::{Point, Size};
use flappy_quad::session::Frame;
use flappy_quad::spawner::{gap_size_bounds, gap_top_bounds, GapDraw};
use macroquad::rand::{gen_range, rand, srand};

#[test]
fn a_game_draws_when_a_pair_is_due_in_a_run_and_only_then() {
    let spawn = Point { x: 100_000_000, y: 100_000_000 };
    let size = Size { w: 52, h: 320 };
    let idle = Frame { dt: 0, jump_requested: false, viewport: Size { w: 640, h: 480 } };
    let confirm = Frame { dt: 0, jump_requested: true, viewport: Size { w: 640, h: 480 } };
    let (size_low, size_high) = gap_size_bounds(100);
    let (top_low, top_high) = gap_top_bounds(480, 320);

    srand(31);
    let first = rand();
    srand(31);
    let mut game = Game::new(spawn, Size { w: 32, h: 32 }, size, 480, 4_000);
    game.session.spawn_timer = 199;
    game.step(idle);
    assert_eq!(game.state, GameState::MainMenu);
    assert_eq!(game.session.spawn_timer, 199);
    game.step(confirm);
    assert_eq!(game.state, GameState::Playing);
    assert!(game.session.obstacles.is_empty());
    assert_eq!(rand(), first);

    srand(32);
    let gap_size: i64 = gen_range(size_low, size_high);
    let gap_top_y: i64 = gen_range(top_low, top_high);
    let after = rand();
    let mut expected = game.clone();
    expected.step_with(idle, GapDraw { gap_size, gap_top_y });

    srand(32);
    assert!(game.is_draw_due());
    game.step(idle);
    assert_eq!(game, expected);
    assert_eq!(rand(), after);
    assert_eq!(game.session.obstacles.len(), 2);
    assert_eq!(game.session.obstacles[0].pos, Point { x: 640_000_000, y: gap_top_y });
    assert_eq!(
        game.session.obstacles[1].pos,
        Point { x: 640_000_000, y: gap_top_y + 320_000_000 + gap_size }
    );

    srand(33);
    let first = rand();
    srand(33);
    for _ in 0..199 {
        game.step(idle);
    }
    assert_eq!(game.session.spawn_timer, 199);
    assert_eq!(rand(), first);

    let mut dying = game.clone();
    let fatal = Frame { dt: 100_000, jump_requested: false, viewport: Size { w: 640, h: 480 } };
    dying.step(fatal);
    assert_eq!(dying.state, GameState::Dead);
    assert!(dying.session.obstacles.is_empty());
    srand(34);
    let first = rand();
    srand(34);
    dying.session.spawn_timer = 199;
    dying.step(idle);
    dying.step(confirm);
    assert_eq!(dying.state, GameState::Playing);
    assert_eq!(dying.session.score_halves, 0);
    assert_eq!(rand(), first);
}
