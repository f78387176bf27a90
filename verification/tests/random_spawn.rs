use flappy_quad::geometry::{Point, Size};
use flappy_quad::pipe::Pipe;
use flappy_quad::spawner::{add_pipes, gap_size_bounds, gap_top_bounds, place_pair, spawn_pair, GapDraw};
use macroquad::rand::{gen_range, srand};

#[test]
fn spawned_pairs_are_placed_for_the_numbers_drawn() {
    let viewport = Size { w: 640, h: 480 };
    let size = Size { w: 52, h: 320 };
    let (size_low, size_high) = gap_size_bounds(100);
    let (top_low, top_high) = gap_top_bounds(480, 320);

    srand(11);
    let gap_size: i64 = gen_range(size_low, size_high);
    let gap_top_y: i64 = gen_range(top_low, top_high);
    let expected = place_pair(640, size, 500_000, GapDraw { gap_size, gap_top_y });
    srand(11);
    let pair = spawn_pair(viewport, size, 500_000, 100);
    assert_eq!(pair, expected);

    for _ in 0..300 {
        let (top, bottom) = spawn_pair(viewport, size, 504_000, 100);
        assert_eq!(top.pos.x, 640_000_000);
        assert_eq!(bottom.pos.x, 640_000_000);
        assert!(-224_000_000 <= top.pos.y && top.pos.y <= 16_000_000);
        let gap = bottom.pos.y - (top.pos.y + 320_000_000);
        assert!(120_000_000 <= gap && gap <= 160_000_000);
        assert_eq!(top.size, size);
        assert_eq!(bottom.size, size);
        assert_eq!(top.speed, 504_000);
        assert_eq!(bottom.speed, 504_000);
        assert!(!top.passed_player);
        assert!(!bottom.passed_player);
    }

    let old = Pipe {
        pos: Point { x: 5, y: 6 },
        size,
        speed: 7,
        passed_player: true,
    };
    srand(12);
    let expected = spawn_pair(viewport, size, 500_000, 120);
    srand(12);
    let pipes = add_pipes(vec![old], viewport, size, 500_000, 120);
    assert_eq!(pipes, vec![old, expected.0, expected.1]);
    let gap = pipes[2].pos.y - (pipes[1].pos.y + 320_000_000);
    assert!(144_000_000 <= gap && gap <= 192_000_000);
    let more = add_pipes(pipes.clone(), viewport, size, 500_000, 120);
    assert_eq!(more.len(), 5);
    assert_eq!(more[..3], pipes[..]);
}
