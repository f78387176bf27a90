//! A pipe: one rectangular obstacle that scrolls to the left.

use vstd::prelude::*;
use crate::geometry::{Point, Rect, Size};
use crate::units::{clamp_i64, px, pixels, saturate, wide_product};

verus! {

/// One obstacle. Its size is fixed when it is made; its position moves.
/// `passed_player` is a latch: once set, nothing in this crate clears it.
#[derive(Clone, Copy, Debug, PartialEq, Eq, Structural)]
pub struct Pipe {
    pub pos: Point,
    pub size: Size,
    /// Distance travelled to the left per unit of time, in velocity units.
    pub speed: i64,
    pub passed_player: bool,
}

impl Pipe {
    /// The pipe after `dt` milliseconds: moved left by `speed * dt`.
    pub open spec fn moved(self, dt: int) -> Pipe {
        Pipe { pos: Point { x: clamp_i64(self.pos.x - self.speed * dt), y: self.pos.y }, ..self }
    }

    /// The area that the pipe covers.
    pub open spec fn rect_spec(self) -> Rect {
        Rect::covering(self.pos, self.size)
    }

    /// Whether the pipe has left the viewport on the left: its right edge is
    /// left of `x = 0`.
    pub open spec fn off_screen(self) -> bool {
        self.pos.x < -px(self.size.w)
    }

    /// Whether the pipe is behind the player, whose left edge is at `player_x`.
    pub open spec fn behind(self, player_x: int) -> bool {
        self.pos.x < player_x
    }

    /// Whether a look at the pipe with the player at `player_x` sets the
    /// latch: the pipe is behind the player and was not counted yet.
    pub open spec fn newly_passed(self, player_x: int) -> bool {
        self.behind(player_x) && !self.passed_player
    }

    /// The pipe after a look at it with the player at `player_x`.
    pub open spec fn marked(self, player_x: int) -> Pipe {
        Pipe { passed_player: self.passed_player || self.behind(player_x), ..self }
    }

    /// A pipe at `pos` that the player has not passed yet.
    pub fn new(pos: Point, size: Size, speed: i64) -> (pipe: Pipe)
        ensures
            pipe == (Pipe { pos, size, speed, passed_player: false }),
    {
        Pipe { pos, size, speed, passed_player: false }
    }

    /// Moves the pipe left by `speed * dt`. A pipe never removes itself:
    /// that is up to whoever owns it.
    pub fn update(&mut self, dt: i64)
        ensures
            *final(self) == old(self).moved(dt as int),
            i64::MIN <= old(self).pos.x - old(self).speed * dt <= i64::MAX ==> final(self).pos.x
                == old(self).pos.x - old(self).speed * dt,
    {
        let step: i128 = wide_product(self.speed, dt);
        self.pos.x = saturate(self.pos.x as i128 - step);
    }

    /// The area that the pipe covers, from where it is now.
    pub fn rect(&self) -> (r: Rect)
        ensures
            r == self.rect_spec(),
    {
        Rect::of_sprite(self.pos, self.size)
    }

    /// Tests whether the pipe has left the viewport on the left.
    pub fn is_off_screen(&self) -> (gone: bool)
        ensures
            gone == self.off_screen(),
    {
        self.pos.x < -pixels(self.size.w)
    }

    /// Sets the latch if the pipe is behind the player, and tells whether
    /// this call was the one that set it.
    pub fn mark_passed(&mut self, player_x: i64) -> (newly: bool)
        ensures
            newly == old(self).newly_passed(player_x as int),
            *final(self) == old(self).marked(player_x as int),
    {
        if self.pos.x < player_x && !self.passed_player {
            self.passed_player = true;
            true
        } else {
            false
        }
    }
}

/// One look at a pipe: the time for which it moves, in milliseconds, and
/// where the player is when it is then looked at.
pub struct Look {
    pub dt: int,
    pub player_x: int,
}

impl Pipe {
    /// The pipe after one frame: moved, then looked at.
    pub open spec fn after_look(self, look: Look) -> Pipe {
        self.moved(look.dt).marked(look.player_x)
    }

    /// The pipe after the frames of `looks`, in their order.
    pub open spec fn after_looks(self, looks: Seq<Look>) -> Pipe
        decreases looks.len(),
    {
        if looks.len() == 0 {
            self
        } else {
            self.after_looks(looks.drop_last()).after_look(looks.last())
        }
    }

    /// On how many of the frames of `looks` the pipe counts for the score.
    pub open spec fn times_counted(self, looks: Seq<Look>) -> nat
        decreases looks.len(),
    {
        if looks.len() == 0 {
            0
        } else {
            self.times_counted(looks.drop_last()) + if self.after_looks(looks.drop_last()).moved(
                looks.last().dt,
            ).newly_passed(looks.last().player_x) {
                1nat
            } else {
                0nat
            }
        }
    }
}

/// Unless the result leaves the range of `i64`, an update takes exactly
/// `speed * dt` off `pos.x`. Nothing else about the pipe changes.
pub proof fn lemma_update_moves_by_speed_times_dt(pipe: Pipe, dt: int)
    requires
        i64::MIN <= pipe.pos.x - pipe.speed * dt <= i64::MAX,
    ensures
        pipe.moved(dt).pos.x == pipe.pos.x - pipe.speed * dt,
        pipe.moved(dt).pos.y == pipe.pos.y,
        pipe.moved(dt).size == pipe.size,
        pipe.moved(dt).speed == pipe.speed,
        pipe.moved(dt).passed_player == pipe.passed_player,
{
}

/// A look sets the latch exactly when it counts the pipe, and a pipe whose
/// latch is set is not counted.
pub proof fn lemma_counted_when_latch_is_set(pipe: Pipe, player_x: int)
    ensures
        pipe.newly_passed(player_x) <==> !pipe.passed_player && pipe.marked(player_x).passed_player,
        pipe.passed_player ==> pipe.marked(player_x) == pipe,
{
}

/// The latch only goes one way: over any frames, a latch that is set stays
/// set.
pub proof fn lemma_latch_stays_set(pipe: Pipe, looks: Seq<Look>)
    requires
        pipe.passed_player,
    ensures
        pipe.after_looks(looks).passed_player,
        pipe.times_counted(looks) == 0,
    decreases looks.len(),
{
    if looks.len() > 0 {
        lemma_latch_stays_set(pipe, looks.drop_last());
    }
}

/// Over its whole life a pipe counts for the score at most once: exactly
/// once if its latch went from unset to set, and not at all otherwise.
pub proof fn lemma_counted_at_most_once(pipe: Pipe, looks: Seq<Look>)
    ensures
        pipe.times_counted(looks) <= 1,
        pipe.times_counted(looks) == 1 <==> !pipe.passed_player && pipe.after_looks(
            looks,
        ).passed_player,
    decreases looks.len(),
{
    if looks.len() > 0 {
        lemma_counted_at_most_once(pipe, looks.drop_last());
        if pipe.passed_player {
            lemma_latch_stays_set(pipe, looks.drop_last());
        }
    }
}

} // verus!
