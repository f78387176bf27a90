use flappy_quad::geometry::{Point, Rect, Size};
use flappy_quad::pipe::Pipe;
use flappy_quad::player::{Player, GRAVITY_ACCELERATION, MAX_GRAVITY, PLAYER_JUMP_STRENGTH};

fn bird() -> Player {
    Player::new(Point { x: 100_000_000, y: 100_000_000 }, Size { w: 32, h: 32 })
}

fn pipe_at(x: i64, y: i64) -> Pipe {
    Pipe::new(Point { x, y }, Size { w: 52, h: 320 }, 500_000)
}

#[test]
fn the_constants_of_motion() {
    assert_eq!(PLAYER_JUMP_STRENGTH, 400_000);
    assert_eq!(MAX_GRAVITY, 2_500_000);
    assert_eq!(GRAVITY_ACCELERATION, 700);
}

#[test]
fn a_new_player_is_alive_and_at_rest() {
    assert_eq!(
        bird(),
        Player {
            pos: Point { x: 100_000_000, y: 100_000_000 },
            size: Size { w: 32, h: 32 },
            vertical_velocity: 0,
            is_alive: true,
        }
    );
    assert_eq!(bird().rect(), Rect { x: 100_000_000, y: 100_000_000, w: 32_000_000, h: 32_000_000 });
}

#[test]
fn gravity_raises_the_velocity_and_the_velocity_moves_the_player() {
    let mut player = bird();
    player.update(16, false, 480, &Vec::new());
    assert_eq!(player.vertical_velocity, 11_200);
    assert_eq!(player.pos.y, 100_179_200);
    player.update(17, false, 480, &Vec::new());
    assert_eq!(player.vertical_velocity, 23_100);
    assert_eq!(player.pos.y, 100_571_900);
    assert_eq!(player.pos.x, 100_000_000);
    assert!(player.is_alive);
}

#[test]
fn a_jump_sets_the_velocity_whatever_it_was() {
    for before in [i64::MIN, -1_000_000_000, -400_000, 0, 11_200, 2_500_000, i64::MAX] {
        let mut player = Player { vertical_velocity: before, ..bird() };
        player.update(0, true, 480, &Vec::new());
        assert_eq!(player.vertical_velocity, -400_000);
        assert_eq!(player.pos.y, 100_000_000);
        assert!(player.is_alive);
    }
}

#[test]
fn a_jump_is_followed_by_the_gravity_of_its_frame() {
    for before in [-1_000_000_000i64, 0, 2_500_000] {
        let mut player = Player { vertical_velocity: before, ..bird() };
        player.update(16, true, 480, &Vec::new());
        assert_eq!(player.vertical_velocity, -388_800);
        assert_eq!(player.pos.y, 93_779_200);
    }
}

#[test]
fn jumps_do_not_add_up() {
    let mut player = bird();
    for _ in 0..5 {
        player.update(0, true, 480, &Vec::new());
    }
    assert_eq!(player.vertical_velocity, -400_000);
}

#[test]
fn the_velocity_stops_at_the_cap() {
    let mut player = Player { vertical_velocity: 2_499_000, pos: Point { x: 0, y: -1_000_000_000_000 }, ..bird() };
    player.update(16, false, 480, &Vec::new());
    assert_eq!(player.vertical_velocity, 2_500_000);
    assert_eq!(player.pos.y, -1_000_000_000_000 + 2_500_000 * 16);
    player.update(16, false, 480, &Vec::new());
    assert_eq!(player.vertical_velocity, 2_500_000);
    let mut exact = Player { vertical_velocity: 2_499_300, pos: Point { x: 0, y: -1_000_000_000_000 }, ..bird() };
    exact.update(1, false, 480, &Vec::new());
    assert_eq!(exact.vertical_velocity, 2_500_000);
    let mut above = Player { vertical_velocity: i64::MAX, pos: Point { x: 0, y: -1_000_000_000_000 }, ..bird() };
    above.update(1, false, 480, &Vec::new());
    assert_eq!(above.vertical_velocity, 2_500_000);
}

#[test]
fn the_velocity_never_exceeds_the_cap_in_a_long_fall() {
    let mut player = bird();
    let mut reached = false;
    for frame in 0..10_000 {
        let dt = 15 + frame % 3;
        player.update(dt, false, u32::MAX, &Vec::new());
        assert!(player.vertical_velocity <= MAX_GRAVITY);
        reached = reached || player.vertical_velocity == MAX_GRAVITY;
        assert!(player.is_alive);
    }
    assert!(reached);
    assert_eq!(player.vertical_velocity, MAX_GRAVITY);
}

#[test]
fn the_velocity_is_not_capped_upwards() {
    let mut player = Player { vertical_velocity: -3_000_000, ..bird() };
    player.update(10, false, 480, &Vec::new());
    assert_eq!(player.vertical_velocity, -2_993_000);
    assert_eq!(player.pos.y, 100_000_000 - 29_930_000);
}

#[test]
fn negative_time_runs_gravity_backwards() {
    let mut player = bird();
    player.update(-10, false, 480, &Vec::new());
    assert_eq!(player.vertical_velocity, -7_000);
    assert_eq!(player.pos.y, 100_070_000);
    assert!(player.is_alive);
}

#[test]
fn the_floor_stops_and_kills() {
    let mut player = Player { pos: Point { x: 100_000_000, y: 440_000_000 }, ..bird() };
    player.update(1000, false, 480, &Vec::new());
    assert_eq!(player.pos.y, 448_000_000);
    assert_eq!(player.vertical_velocity, 0);
    assert!(!player.is_alive);
    assert_eq!(player.pos.x, 100_000_000);
}

#[test]
fn any_step_beyond_the_floor_ends_on_it() {
    for start in [-5_000_000_000i64, 0, 100_000_000, 447_999_999, 448_000_000, 500_000_000, i64::MAX] {
        let mut player = Player { pos: Point { x: 0, y: start }, ..bird() };
        player.update(100_000, false, 480, &Vec::new());
        assert_eq!(player.pos.y, 448_000_000);
        assert_eq!(player.vertical_velocity, 0);
        assert!(!player.is_alive);
    }
}

#[test]
fn a_jump_does_not_save_from_the_floor() {
    let mut player = Player { pos: Point { x: 0, y: 448_000_001 }, ..bird() };
    player.update(0, true, 480, &Vec::new());
    assert_eq!(player.pos.y, 448_000_000);
    assert_eq!(player.vertical_velocity, 0);
    assert!(!player.is_alive);
}

#[test]
fn standing_exactly_on_the_floor_is_not_fatal() {
    let mut player = Player { pos: Point { x: 0, y: 447_999_300 }, ..bird() };
    player.update(1, false, 480, &Vec::new());
    assert_eq!(player.pos.y, 448_000_000);
    assert_eq!(player.vertical_velocity, 700);
    assert!(player.is_alive);
    let mut lower = Player { pos: Point { x: 0, y: 447_999_301 }, ..bird() };
    lower.update(1, false, 480, &Vec::new());
    assert_eq!(lower.pos.y, 448_000_000);
    assert_eq!(lower.vertical_velocity, 0);
    assert!(!lower.is_alive);
}

#[test]
fn a_viewport_lower_than_the_player_has_its_floor_above_zero() {
    let mut player = Player { pos: Point { x: 0, y: 0 }, ..bird() };
    player.update(0, false, 10, &Vec::new());
    assert_eq!(player.pos.y, -22_000_000);
    assert!(!player.is_alive);
    let mut tall = Player { pos: Point { x: 0, y: 0 }, size: Size { w: 1, h: u32::MAX }, ..bird() };
    tall.update(0, false, 0, &Vec::new());
    assert_eq!(tall.pos.y, -4_294_967_295_000_000);
    assert!(!tall.is_alive);
}

#[test]
fn the_position_stops_at_the_top_of_the_number_range() {
    let mut player = Player { pos: Point { x: 0, y: i64::MIN + 5 }, vertical_velocity: -1_000_000, ..bird() };
    player.update(1, false, 480, &Vec::new());
    assert_eq!(player.pos.y, i64::MIN);
    assert_eq!(player.vertical_velocity, -999_300);
    assert!(player.is_alive);
    let mut fast = Player {
        pos: Point { x: 0, y: i64::MIN },
        vertical_velocity: i64::MIN + 100,
        ..bird()
    };
    fast.update(-1, false, 480, &Vec::new());
    assert_eq!(fast.vertical_velocity, i64::MIN);
    assert_eq!(fast.pos.y, 0);
    assert!(fast.is_alive);
    let mut deep = Player { vertical_velocity: i64::MIN, ..bird() };
    deep.update(-1, false, 480, &Vec::new());
    assert_eq!(deep.vertical_velocity, 0);
    assert_eq!(deep.pos.y, 448_000_000);
    assert!(!deep.is_alive);
}

#[test]
fn overlapping_a_pipe_kills_but_does_not_stop() {
    let mut player = bird();
    let pipes = vec![pipe_at(110_000_000, 0)];
    player.update(16, false, 480, &pipes);
    assert!(!player.is_alive);
    assert_eq!(player.vertical_velocity, 11_200);
    assert_eq!(player.pos.y, 100_179_200);
}

#[test]
fn touching_a_pipe_is_not_fatal() {
    let mut player = bird();
    let touching = vec![pipe_at(132_000_000, 0), pipe_at(48_000_000, 0)];
    player.update(0, false, 480, &touching);
    assert!(player.is_alive);
    let mut other = bird();
    let into_right = vec![pipe_at(131_999_999, 0)];
    other.update(0, false, 480, &into_right);
    assert!(!other.is_alive);
    let mut third = bird();
    let into_left = vec![pipe_at(48_000_001, 0)];
    third.update(0, false, 480, &into_left);
    assert!(!third.is_alive);
}

#[test]
fn the_pipes_are_tested_where_the_player_ends_up() {
    let below = vec![pipe_at(100_000_000, 132_100_000)];
    let mut player = bird();
    player.update(0, false, 480, &below);
    assert!(player.is_alive);
    player.update(16, false, 480, &below);
    assert_eq!(player.pos.y, 100_179_200);
    assert!(!player.is_alive);
}

#[test]
fn every_pipe_is_tested() {
    let mut pipes = Vec::new();
    for i in 0..20 {
        pipes.push(pipe_at(1_000_000_000 + i * 60_000_000, 0));
    }
    let mut safe = bird();
    safe.update(16, false, 480, &pipes);
    assert!(safe.is_alive);
    pipes.push(pipe_at(90_000_000, 90_000_000));
    let mut last = bird();
    last.update(16, false, 480, &pipes);
    assert!(!last.is_alive);
    pipes.insert(0, pipe_at(90_000_000, 90_000_000));
    pipes.pop();
    let mut first = bird();
    first.update(16, false, 480, &pipes);
    assert!(!first.is_alive);
    assert_eq!(first.collides_with_any(&pipes), true);
    assert_eq!(first.collides_with_any(&Vec::new()), false);
}

#[test]
fn a_dead_player_stays_dead_and_keeps_falling() {
    let mut player = Player { is_alive: false, ..bird() };
    player.update(16, false, 480, &Vec::new());
    assert!(!player.is_alive);
    assert_eq!(player.pos.y, 100_179_200);
    player.update(16, true, 480, &Vec::new());
    assert!(!player.is_alive);
    assert_eq!(player.vertical_velocity, -388_800);
}
