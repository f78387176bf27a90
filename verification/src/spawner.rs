//! Making pairs of pipes: a top pipe at a random height and a bottom pipe
//! below it, a random gap apart.
//!
//! The two random numbers of a pair are the only chance in the game. They are
//! drawn by [`draw_gap`]; everything that is done with them is in
//! [`place_pair`], which takes them as an argument.

use vstd::prelude::*;
use crate::geometry::{Point, Size};
use crate::pipe::Pipe;
use crate::units::{clamp_i64, pixels, px, saturate};

verus! {

/// Smallest gap between the pipes of a pair at a gap scale of one, in pixels.
pub const MIN_GAP: i64 = 120;

/// Largest gap between the pipes of a pair at a gap scale of one, in pixels.
pub const MAX_GAP: i64 = 160;

/// Position units in a hundredth of a pixel.
pub const MICROS_PER_CENTIPIXEL: i64 = 10_000;

/// Position units in a tenth of a pixel.
pub const MICROS_PER_DECIPIXEL: i64 = 100_000;

/// The top of the gap lies no higher than this many tenths of the viewport's
/// height, less the height of a pipe.
pub const GAP_TOP_MIN_TENTHS: i64 = 2;

/// The top of the gap lies no lower than this many tenths of the viewport's
/// height, less the height of a pipe.
pub const GAP_TOP_MAX_TENTHS: i64 = 7;

/// Largest magnitude of a bound handed to the random generator: 2^52. Up to
/// here the generator's arithmetic is exact.
pub const DRAW_LIMIT: i64 = 0x10_0000_0000_0000;

/// The random numbers that one pair of pipes takes, in position units.
#[derive(Clone, Copy, Debug, PartialEq, Eq, Structural)]
pub struct GapDraw {
    /// Distance between the bottom of the top pipe and the top of the bottom pipe.
    pub gap_size: i64,
    /// Position of the top edge of the top pipe.
    pub gap_top_y: i64,
}

/// Smallest gap at a scale of `gap_scale` hundredths (100 is a scale of
/// one), in position units.
pub open spec fn gap_size_low(gap_scale: u16) -> int {
    MIN_GAP * gap_scale * MICROS_PER_CENTIPIXEL
}

/// Largest gap at `gap_scale` hundredths, in position units.
pub open spec fn gap_size_high(gap_scale: u16) -> int {
    MAX_GAP * gap_scale * MICROS_PER_CENTIPIXEL
}

/// Highest position of the top pipe: two tenths of the viewport's height,
/// less the height of a pipe.
pub open spec fn gap_top_low(viewport_height: u32, pipe_height: u32) -> int {
    GAP_TOP_MIN_TENTHS * viewport_height * MICROS_PER_DECIPIXEL - px(pipe_height)
}

/// Lowest position of the top pipe: seven tenths of the viewport's height,
/// less the height of a pipe.
pub open spec fn gap_top_high(viewport_height: u32, pipe_height: u32) -> int {
    GAP_TOP_MAX_TENTHS * viewport_height * MICROS_PER_DECIPIXEL - px(pipe_height)
}

/// Whether `draw` is one that [`draw_gap`] can return for these arguments.
pub open spec fn draw_in_range(
    draw: GapDraw,
    viewport_height: u32,
    pipe_height: u32,
    gap_scale: u16,
) -> bool {
    &&& gap_size_low(gap_scale) <= draw.gap_size <= gap_size_high(gap_scale)
    &&& gap_top_low(viewport_height, pipe_height) <= draw.gap_top_y <= gap_top_high(
        viewport_height,
        pipe_height,
    )
}

/// The pair of pipes for `draw`: both at the right edge of the viewport, the
/// top one at `gap_top_y`, the bottom one below it by the height of a pipe
/// and the gap.
pub open spec fn placed_pair(
    viewport_width: u32,
    pipe_size: Size,
    speed: i64,
    draw: GapDraw,
) -> (Pipe, Pipe) {
    let x = px(viewport_width) as i64;
    (
        Pipe { pos: Point { x, y: draw.gap_top_y }, size: pipe_size, speed, passed_player: false },
        Pipe {
            pos: Point { x, y: clamp_i64(draw.gap_top_y + px(pipe_size.h) + draw.gap_size) },
            size: pipe_size,
            speed,
            passed_player: false,
        },
    )
}

/// Whether `pair` is a pair that [`spawn_pair`] can return for these
/// arguments: the pair placed for some draw within the ranges.
pub open spec fn spawnable(
    pair: (Pipe, Pipe),
    viewport: Size,
    pipe_size: Size,
    speed: i64,
    gap_scale: u16,
) -> bool {
    exists|draw: GapDraw|
        draw_in_range(draw, viewport.h, pipe_size.h, gap_scale) && pair == #[trigger] placed_pair(
            viewport.w,
            pipe_size,
            speed,
            draw,
        )
}

/// Draws a number between `low` and `high` from macroquad's global
/// generator, by `macroquad::rand::gen_range`, which is the `gen_range` of
/// the `quad-rand` crate.
///
/// Not verified: the contract is taken from the generator's source. It
/// scales a 32-bit random number into the range in double precision and
/// cuts the fraction off. Within [`DRAW_LIMIT`] both bounds and their
/// difference are exact in double precision, so the result lies between the
/// bounds, either of them included. Which number comes is up to the state of
/// the generator, and nothing is said of it.
#[verifier::external_body]
fn random_between(low: i64, high: i64) -> (drawn: i64)
    requires
        -DRAW_LIMIT <= low <= high <= DRAW_LIMIT,
    ensures
        low <= drawn <= high,
{
    macroquad::rand::gen_range(low, high)
}

/// The bounds of the gap's size at `gap_scale` hundredths.
pub fn gap_size_bounds(gap_scale: u16) -> (bounds: (i64, i64))
    ensures
        bounds.0 == gap_size_low(gap_scale),
        bounds.1 == gap_size_high(gap_scale),
        0 <= bounds.0 <= bounds.1 <= DRAW_LIMIT,
{
    let scale: i64 = gap_scale as i64 * MICROS_PER_CENTIPIXEL;
    assert(MIN_GAP * gap_scale * MICROS_PER_CENTIPIXEL == MIN_GAP * scale) by (nonlinear_arith)
        requires
            scale == gap_scale * MICROS_PER_CENTIPIXEL,
    ;
    assert(MAX_GAP * gap_scale * MICROS_PER_CENTIPIXEL == MAX_GAP * scale) by (nonlinear_arith)
        requires
            scale == gap_scale * MICROS_PER_CENTIPIXEL,
    ;
    (MIN_GAP * scale, MAX_GAP * scale)
}

/// The bounds of the top pipe's position for a viewport and a pipe of the
/// given heights.
pub fn gap_top_bounds(viewport_height: u32, pipe_height: u32) -> (bounds: (i64, i64))
    ensures
        bounds.0 == gap_top_low(viewport_height, pipe_height),
        bounds.1 == gap_top_high(viewport_height, pipe_height),
        -DRAW_LIMIT <= bounds.0 <= bounds.1 <= DRAW_LIMIT,
{
    let tenth: i64 = viewport_height as i64 * MICROS_PER_DECIPIXEL;
    let pipe: i64 = pixels(pipe_height);
    assert(GAP_TOP_MIN_TENTHS * viewport_height * MICROS_PER_DECIPIXEL == GAP_TOP_MIN_TENTHS
        * tenth) by (nonlinear_arith)
        requires
            tenth == viewport_height * MICROS_PER_DECIPIXEL,
    ;
    assert(GAP_TOP_MAX_TENTHS * viewport_height * MICROS_PER_DECIPIXEL == GAP_TOP_MAX_TENTHS
        * tenth) by (nonlinear_arith)
        requires
            tenth == viewport_height * MICROS_PER_DECIPIXEL,
    ;
    (GAP_TOP_MIN_TENTHS * tenth - pipe, GAP_TOP_MAX_TENTHS * tenth - pipe)
}

/// Draws the random numbers of one pair: first the size of the gap, then the
/// position of the top pipe.
pub fn draw_gap(viewport_height: u32, pipe_height: u32, gap_scale: u16) -> (draw: GapDraw)
    ensures
        draw_in_range(draw, viewport_height, pipe_height, gap_scale),
{
    let size: (i64, i64) = gap_size_bounds(gap_scale);
    let top: (i64, i64) = gap_top_bounds(viewport_height, pipe_height);
    let gap_size: i64 = random_between(size.0, size.1);
    let gap_top_y: i64 = random_between(top.0, top.1);
    GapDraw { gap_size, gap_top_y }
}

/// Places the pair of pipes for `draw` at the right edge of a viewport
/// `viewport_width` pixels wide. Both pipes get `speed`.
pub fn place_pair(
    viewport_width: u32,
    pipe_size: Size,
    speed: i64,
    draw: GapDraw,
) -> (pair: (Pipe, Pipe))
    ensures
        pair == placed_pair(viewport_width, pipe_size, speed, draw),
{
    let x: i64 = pixels(viewport_width);
    let top = Pipe::new(Point { x, y: draw.gap_top_y }, pipe_size, speed);
    let below: i128 = draw.gap_top_y as i128 + pixels(pipe_size.h) as i128 + draw.gap_size as i128;
    let bottom = Pipe::new(Point { x, y: saturate(below) }, pipe_size, speed);
    (top, bottom)
}

/// Makes a new pair of pipes with a random gap at a random height.
pub fn spawn_pair(
    viewport: Size,
    pipe_size: Size,
    speed: i64,
    gap_scale: u16,
) -> (pair: (Pipe, Pipe))
    ensures
        spawnable(pair, viewport, pipe_size, speed, gap_scale),
{
    let draw = draw_gap(viewport.h, pipe_size.h, gap_scale);
    place_pair(viewport.w, pipe_size, speed, draw)
}

/// Appends a new pair of pipes to `pipes`, the top pipe first.
pub fn add_pipes(
    pipes: Vec<Pipe>,
    viewport: Size,
    pipe_size: Size,
    speed: i64,
    gap_scale: u16,
) -> (longer: Vec<Pipe>)
    ensures
        longer@.len() == pipes@.len() + 2,
        longer@.take(pipes@.len() as int) == pipes@,
        spawnable(
            (longer@[pipes@.len() as int], longer@[pipes@.len() as int + 1]),
            viewport,
            pipe_size,
            speed,
            gap_scale,
        ),
{
    let mut longer = pipes;
    let pair = spawn_pair(viewport, pipe_size, speed, gap_scale);
    longer.push(pair.0);
    longer.push(pair.1);
    longer
}

/// A pair within the ranges stands at the right edge of the viewport; its
/// top pipe is within the band, and its gap is within the bounds and not
/// affected by clamping.
pub proof fn lemma_spawnable_geometry(
    pair: (Pipe, Pipe),
    viewport: Size,
    pipe_size: Size,
    speed: i64,
    gap_scale: u16,
)
    requires
        spawnable(pair, viewport, pipe_size, speed, gap_scale),
    ensures
        pair.0.pos.x == px(viewport.w),
        pair.1.pos.x == px(viewport.w),
        gap_top_low(viewport.h, pipe_size.h) <= pair.0.pos.y <= gap_top_high(
            viewport.h,
            pipe_size.h,
        ),
        gap_size_low(gap_scale) <= pair.1.pos.y - (pair.0.pos.y + px(pipe_size.h))
            <= gap_size_high(gap_scale),
        pair.0.size == pipe_size && pair.1.size == pipe_size,
        pair.0.speed == speed && pair.1.speed == speed,
        !pair.0.passed_player && !pair.1.passed_player,
{
    let draw = choose|draw: GapDraw|
        draw_in_range(draw, viewport.h, pipe_size.h, gap_scale) && pair == #[trigger] placed_pair(
            viewport.w,
            pipe_size,
            speed,
            draw,
        );
    lemma_ranges_fit(viewport.h, pipe_size.h, gap_scale);
}

/// The ranges are not empty and lie within [`DRAW_LIMIT`].
pub proof fn lemma_ranges_fit(viewport_height: u32, pipe_height: u32, gap_scale: u16)
    ensures
        0 <= gap_size_low(gap_scale) <= gap_size_high(gap_scale) <= DRAW_LIMIT,
        -DRAW_LIMIT <= gap_top_low(viewport_height, pipe_height) <= gap_top_high(
            viewport_height,
            pipe_height,
        ) <= DRAW_LIMIT,
{
    assert(MIN_GAP * gap_scale * MICROS_PER_CENTIPIXEL == 1_200_000 * gap_scale)
        by (nonlinear_arith);
    assert(MAX_GAP * gap_scale * MICROS_PER_CENTIPIXEL == 1_600_000 * gap_scale)
        by (nonlinear_arith);
    assert(GAP_TOP_MIN_TENTHS * viewport_height * MICROS_PER_DECIPIXEL == 200_000
        * viewport_height) by (nonlinear_arith);
    assert(GAP_TOP_MAX_TENTHS * viewport_height * MICROS_PER_DECIPIXEL == 700_000
        * viewport_height) by (nonlinear_arith);
}

} // verus!
