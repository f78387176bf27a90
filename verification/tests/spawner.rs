use flappy_quad::geometry::{Point, Size};
use flappy_quad::pipe::Pipe;
use flappy_quad::spawner::{
    gap_size_bounds, gap_top_bounds, place_pair, GapDraw, DRAW_LIMIT, MAX_GAP, MIN_GAP,
};

#[test]
fn a_pair_for_a_given_draw() {
    let size = Size { w: 52, h: 50 };
    let draw = GapDraw { gap_size: 140_000_000, gap_top_y: 100_000_000 };
    let (top, bottom) = place_pair(640, size, 500_000, draw);
    assert_eq!(top.pos, Point { x: 640_000_000, y: 100_000_000 });
    assert_eq!(bottom.pos, Point { x: 640_000_000, y: 290_000_000 });
    assert_eq!(
        top,
        Pipe {
            pos: Point { x: 640_000_000, y: 100_000_000 },
            size,
            speed: 500_000,
            passed_player: false,
        }
    );
    assert_eq!(
        bottom,
        Pipe {
            pos: Point { x: 640_000_000, y: 290_000_000 },
            size,
            speed: 500_000,
            passed_player: false,
        }
    );
}

#[test]
fn the_gap_is_between_the_bottom_of_one_pipe_and_the_top_of_the_other() {
    let size = Size { w: 52, h: 320 };
    let draw = GapDraw { gap_size: 123_456_789, gap_top_y: -224_000_000 };
    let (top, bottom) = place_pair(800, size, 512_000, draw);
    let top_rect = top.rect();
    let bottom_rect = bottom.rect();
    assert_eq!(top_rect.y + top_rect.h as i64, 96_000_000);
    assert_eq!(bottom_rect.y - (top_rect.y + top_rect.h as i64), 123_456_789);
    assert_eq!(top.pos.x, 800_000_000);
    assert_eq!(bottom.pos.x, 800_000_000);
    assert_eq!(top.speed, 512_000);
    assert_eq!(bottom.speed, 512_000);
}

#[test]
fn a_pair_at_the_ends_of_the_number_range() {
    let size = Size { w: u32::MAX, h: u32::MAX };
    let (top, bottom) = place_pair(
        u32::MAX,
        size,
        i64::MIN,
        GapDraw { gap_size: i64::MAX, gap_top_y: i64::MAX },
    );
    assert_eq!(top.pos, Point { x: 4_294_967_295_000_000, y: i64::MAX });
    assert_eq!(bottom.pos, Point { x: 4_294_967_295_000_000, y: i64::MAX });
    let (high, low) = place_pair(
        0,
        size,
        0,
        GapDraw { gap_size: i64::MIN, gap_top_y: i64::MIN },
    );
    assert_eq!(high.pos, Point { x: 0, y: i64::MIN });
    assert_eq!(low.pos, Point { x: 0, y: i64::MIN });
    let (_, mixed) = place_pair(
        0,
        Size { w: 1, h: 0 },
        0,
        GapDraw { gap_size: i64::MIN, gap_top_y: i64::MAX },
    );
    assert_eq!(mixed.pos.y, -1);
}

#[test]
fn the_bounds_of_the_gap_follow_the_scale() {
    assert_eq!(MIN_GAP, 120);
    assert_eq!(MAX_GAP, 160);
    assert_eq!(gap_size_bounds(100), (120_000_000, 160_000_000));
    assert_eq!(gap_size_bounds(110), (132_000_000, 176_000_000));
    assert_eq!(gap_size_bounds(120), (144_000_000, 192_000_000));
    assert_eq!(gap_size_bounds(1), (1_200_000, 1_600_000));
    assert_eq!(gap_size_bounds(0), (0, 0));
    assert_eq!(gap_size_bounds(u16::MAX), (78_642_000_000, 104_856_000_000));
}

#[test]
fn the_band_of_the_gap_follows_the_viewport() {
    assert_eq!(gap_top_bounds(480, 50), (46_000_000, 286_000_000));
    assert_eq!(gap_top_bounds(480, 320), (-224_000_000, 16_000_000));
    assert_eq!(gap_top_bounds(1000, 0), (200_000_000, 700_000_000));
    assert_eq!(gap_top_bounds(1, 0), (200_000, 700_000));
    assert_eq!(gap_top_bounds(0, 0), (0, 0));
    assert_eq!(gap_top_bounds(0, 7), (-7_000_000, -7_000_000));
}

#[test]
fn the_bounds_stay_within_the_limit_of_the_generator() {
    assert_eq!(DRAW_LIMIT, 1i64 << 52);
    let (low, high) = gap_top_bounds(u32::MAX, 0);
    assert_eq!(low, 858_993_459_000_000);
    assert_eq!(high, 3_006_477_106_500_000);
    assert!(high <= DRAW_LIMIT);
    let (low, high) = gap_top_bounds(0, u32::MAX);
    assert_eq!(low, -4_294_967_295_000_000);
    assert_eq!(high, -4_294_967_295_000_000);
    assert!(low >= -DRAW_LIMIT);
    let (low, high) = gap_size_bounds(u16::MAX);
    assert!(0 <= low && low <= high && high <= DRAW_LIMIT);
}
