//! The player: a body that moves along the vertical axis only.

use vstd::prelude::*;
use crate::geometry::{Point, Rect, Size};
use crate::pipe::Pipe;
use crate::units::{clamp_i64, pixels, px, saturate, wide_product};

verus! {

/// Upward velocity that a jump gives, in velocity units.
pub const PLAYER_JUMP_STRENGTH: i64 = 400_000;

/// Largest downward velocity, in velocity units.
pub const MAX_GRAVITY: i64 = 2_500_000;

/// Downward acceleration, in velocity units per millisecond.
pub const GRAVITY_ACCELERATION: i64 = 700;

/// The player. `pos.x` never changes: the pipes move towards the player.
/// A positive `vertical_velocity` points down.
#[derive(Clone, Copy, Debug, PartialEq, Eq, Structural)]
pub struct Player {
    pub pos: Point,
    pub size: Size,
    pub vertical_velocity: i64,
    pub is_alive: bool,
}

/// The velocity once the jump signal has been looked at: a jump replaces the
/// velocity, it does not add to it.
pub open spec fn velocity_after_jump(velocity: i64, jump_requested: bool) -> i64 {
    if jump_requested {
        (-PLAYER_JUMP_STRENGTH) as i64
    } else {
        velocity
    }
}

/// The velocity after `dt` milliseconds of gravity: capped at
/// [`MAX_GRAVITY`] downwards, and upwards only by the range of `i64`.
pub open spec fn velocity_after_gravity(velocity: i64, dt: int) -> i64 {
    let raised = velocity + GRAVITY_ACCELERATION * dt;
    if raised > MAX_GRAVITY {
        MAX_GRAVITY
    } else {
        clamp_i64(raised)
    }
}

/// The lowest position that the top edge of a sprite `height` pixels high can
/// have in a viewport `viewport_height` pixels high.
pub open spec fn floor_y(viewport_height: u32, height: u32) -> int {
    (viewport_height - height) * crate::units::MICROS_PER_PIXEL
}

impl Player {
    /// The area that the player covers.
    pub open spec fn rect_spec(self) -> Rect {
        Rect::covering(self.pos, self.size)
    }

    /// The velocity with which the player moves during a frame.
    pub open spec fn frame_velocity(self, dt: int, jump_requested: bool) -> i64 {
        velocity_after_gravity(velocity_after_jump(self.vertical_velocity, jump_requested), dt)
    }

    /// Where the top edge of the player would be after the frame if there
    /// were no floor.
    pub open spec fn unbounded_y(self, dt: int, jump_requested: bool) -> int {
        self.pos.y + self.frame_velocity(dt, jump_requested) * dt
    }

    /// Whether the frame takes the player below the floor.
    pub open spec fn hits_floor(self, dt: int, jump_requested: bool, viewport_height: u32) -> bool {
        self.unbounded_y(dt, jump_requested) > floor_y(viewport_height, self.size.h)
    }

    /// The player after the motion of one frame, pipes not yet looked at:
    /// jump, gravity, movement, and the floor, which stops and kills.
    pub open spec fn moved(self, dt: int, jump_requested: bool, viewport_height: u32) -> Player {
        if self.hits_floor(dt, jump_requested, viewport_height) {
            Player {
                pos: Point { x: self.pos.x, y: floor_y(viewport_height, self.size.h) as i64 },
                vertical_velocity: 0,
                is_alive: false,
                ..self
            }
        } else {
            Player {
                pos: Point { x: self.pos.x, y: clamp_i64(self.unbounded_y(dt, jump_requested)) },
                vertical_velocity: self.frame_velocity(dt, jump_requested),
                ..self
            }
        }
    }

    /// Whether the player overlaps `pipe`.
    pub open spec fn hits(self, pipe: Pipe) -> bool {
        self.rect_spec().overlaps_spec(pipe.rect_spec())
    }

    /// Whether the player overlaps at least one of `pipes`.
    pub open spec fn hits_any(self, pipes: Seq<Pipe>) -> bool {
        exists|i: int| 0 <= i < pipes.len() && self.hits(#[trigger] pipes[i])
    }

    /// The player after one whole frame: moved, then dead if it overlaps a
    /// pipe. Nothing here brings a dead player back to life.
    pub open spec fn updated(
        self,
        dt: int,
        jump_requested: bool,
        viewport_height: u32,
        pipes: Seq<Pipe>,
    ) -> Player {
        let after = self.moved(dt, jump_requested, viewport_height);
        Player { is_alive: after.is_alive && !after.hits_any(pipes), ..after }
    }

    /// A living player at rest at `pos`.
    pub fn new(pos: Point, size: Size) -> (player: Player)
        ensures
            player == (Player { pos, size, vertical_velocity: 0, is_alive: true }),
    {
        Player { pos, size, vertical_velocity: 0, is_alive: true }
    }

    /// The area that the player covers, from where it is now.
    pub fn rect(&self) -> (r: Rect)
        ensures
            r == self.rect_spec(),
    {
        Rect::of_sprite(self.pos, self.size)
    }

    /// Tests the player against every pipe of `pipes`.
    pub fn collides_with_any(&self, pipes: &Vec<Pipe>) -> (hit: bool)
        ensures
            hit == self.hits_any(pipes@),
    {
        let own: Rect = self.rect();
        let mut hit = false;
        let mut i: usize = 0;
        while i < pipes.len()
            invariant
                i <= pipes.len(),
                own == self.rect_spec(),
                hit == self.hits_any(pipes@.take(i as int)),
            decreases pipes.len() - i,
        {
            let other: Rect = pipes[i].rect();
            proof {
                let before = pipes@.take(i as int);
                let now = pipes@.take(i + 1);
                assert(now[i as int] == pipes@[i as int]);
                if self.hits_any(before) {
                    let j = choose|j: int| 0 <= j < before.len() && self.hits(#[trigger] before[j]);
                    assert(self.hits(now[j]));
                }
                if self.hits_any(now) && !self.hits(pipes@[i as int]) {
                    let j = choose|j: int| 0 <= j < now.len() && self.hits(#[trigger] now[j]);
                    assert(self.hits(before[j]));
                }
            }
            if own.overlaps(&other) {
                hit = true;
            }
            i += 1;
        }
        proof {
            assert(pipes@.take(pipes.len() as int) =~= pipes@);
        }
        hit
    }

    /// Advances the player by one frame of `dt` milliseconds in a viewport
    /// `viewport_height` pixels high, among `pipes`.
    ///
    /// In this order: a requested jump sets the velocity to
    /// `-PLAYER_JUMP_STRENGTH`; gravity raises it by
    /// `GRAVITY_ACCELERATION * dt`, up to `MAX_GRAVITY`; the player moves by
    /// the new velocity times `dt`; a player that would end below the floor
    /// is put on it, stopped and killed; a player that overlaps a pipe is
    /// killed.
    pub fn update(
        &mut self,
        dt: i64,
        jump_requested: bool,
        viewport_height: u32,
        pipes: &Vec<Pipe>,
    )
        ensures
            *final(self) == old(self).updated(dt as int, jump_requested, viewport_height, pipes@),
            final(self).vertical_velocity <= MAX_GRAVITY,
            final(self).pos.y <= floor_y(viewport_height, old(self).size.h),
            final(self).pos.x == old(self).pos.x,
            final(self).size == old(self).size,
            final(self).is_alive ==> old(self).is_alive,
    {
        let jumped: i64 = if jump_requested {
            -PLAYER_JUMP_STRENGTH
        } else {
            self.vertical_velocity
        };
        let raised: i128 = jumped as i128 + wide_product(GRAVITY_ACCELERATION, dt);
        let velocity: i64 = if raised > MAX_GRAVITY as i128 {
            MAX_GRAVITY
        } else {
            saturate(raised)
        };
        let target: i128 = self.pos.y as i128 + wide_product(velocity, dt);
        let floor: i64 = pixels(viewport_height) - pixels(self.size.h);
        assert(floor == floor_y(viewport_height, self.size.h)) by (nonlinear_arith)
            requires
                floor == px(viewport_height) - px(self.size.h),
        ;
        if target > floor as i128 {
            self.pos.y = floor;
            self.vertical_velocity = 0;
            self.is_alive = false;
        } else {
            self.pos.y = saturate(target);
            self.vertical_velocity = velocity;
        }
        if self.collides_with_any(pipes) {
            self.is_alive = false;
        }
    }
}

/// What one frame gives to the player's update.
pub struct Tick {
    pub dt: int,
    pub jump_requested: bool,
    pub viewport_height: u32,
    pub pipes: Seq<Pipe>,
}

impl Player {
    /// The player after the updates of `ticks`, in their order.
    pub open spec fn after_ticks(self, ticks: Seq<Tick>) -> Player
        decreases ticks.len(),
    {
        if ticks.len() == 0 {
            self
        } else {
            let tick = ticks.last();
            self.after_ticks(ticks.drop_last()).updated(
                tick.dt,
                tick.jump_requested,
                tick.viewport_height,
                tick.pipes,
            )
        }
    }
}

/// After an update the velocity is at most [`MAX_GRAVITY`], whatever it was
/// before and whatever the frame was.
pub proof fn lemma_update_caps_velocity(
    player: Player,
    dt: int,
    jump_requested: bool,
    viewport_height: u32,
    pipes: Seq<Pipe>,
)
    ensures
        player.updated(dt, jump_requested, viewport_height, pipes).vertical_velocity
            <= MAX_GRAVITY,
{
}

/// After any number of updates, at least one, the velocity is at most
/// [`MAX_GRAVITY`]; with or without jumps among them.
pub proof fn lemma_velocity_never_exceeds_cap(player: Player, ticks: Seq<Tick>)
    requires
        ticks.len() > 0,
    ensures
        player.after_ticks(ticks).vertical_velocity <= MAX_GRAVITY,
{
    let tick = ticks.last();
    lemma_update_caps_velocity(
        player.after_ticks(ticks.drop_last()),
        tick.dt,
        tick.jump_requested,
        tick.viewport_height,
        tick.pipes,
    );
}

/// A jump replaces the velocity by `-PLAYER_JUMP_STRENGTH`: the frame of a
/// jump ends the same whatever the velocity was before it. With the jump as
/// the frame's velocity before gravity, a frame of no duration that does not
/// end on the floor leaves exactly `-PLAYER_JUMP_STRENGTH`.
pub proof fn lemma_jump_overrides_velocity(
    player: Player,
    other_velocity: i64,
    dt: int,
    viewport_height: u32,
    pipes: Seq<Pipe>,
)
    ensures
        velocity_after_jump(player.vertical_velocity, true) == -PLAYER_JUMP_STRENGTH,
        player.frame_velocity(dt, true) == velocity_after_gravity(
            (-PLAYER_JUMP_STRENGTH) as i64,
            dt,
        ),
        player.updated(dt, true, viewport_height, pipes) == (Player {
            vertical_velocity: other_velocity,
            ..player
        }).updated(dt, true, viewport_height, pipes),
        !player.hits_floor(0, true, viewport_height) ==> player.updated(
            0,
            true,
            viewport_height,
            pipes,
        ).vertical_velocity == -PLAYER_JUMP_STRENGTH,
{
}

/// The floor decides by the position alone. A frame that would take the top
/// edge of the player below `floor_y` leaves it exactly there, with the
/// player at rest and dead. Any other frame leaves the player where its
/// velocity took it, and no lower than the floor.
pub proof fn lemma_floor_contact(
    player: Player,
    dt: int,
    jump_requested: bool,
    viewport_height: u32,
    pipes: Seq<Pipe>,
)
    ensures
        player.hits_floor(dt, jump_requested, viewport_height) ==> {
            let after = player.updated(dt, jump_requested, viewport_height, pipes);
            &&& after.pos.y == floor_y(viewport_height, player.size.h)
            &&& after.vertical_velocity == 0
            &&& !after.is_alive
        },
        !player.hits_floor(dt, jump_requested, viewport_height) ==> {
            let after = player.updated(dt, jump_requested, viewport_height, pipes);
            &&& after.pos.y == clamp_i64(player.unbounded_y(dt, jump_requested))
            &&& after.pos.y <= floor_y(viewport_height, player.size.h)
            &&& after.vertical_velocity == player.frame_velocity(dt, jump_requested)
            &&& after.is_alive == (player.is_alive && !after.hits_any(pipes))
        },
        player.updated(dt, jump_requested, viewport_height, pipes).pos.x == player.pos.x,
        player.updated(dt, jump_requested, viewport_height, pipes).size == player.size,
{
    assert(i64::MIN <= floor_y(viewport_height, player.size.h) <= i64::MAX) by (nonlinear_arith);
}

} // verus!
