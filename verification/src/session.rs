//! One run of the game: the pipes on screen, the score, the speed of new
//! pipes and the timer that says when the next pair is due.

use vstd::prelude::*;
use crate::geometry::Size;
use crate::pipe::Pipe;
use crate::player::Player;
use crate::spawner::{draw_gap, draw_in_range, place_pair, placed_pair, GapDraw};
use crate::units::{clamp_i64, clamp_u64, saturate};

verus! {

/// Speed of the pipes at the start of a run, in velocity units.
pub const PIPE_SPEED: i64 = 500_000;

/// Value of the spawn timer when a session is made: the first pair comes
/// sooner than the later ones.
pub const FIRST_SPAWN_TIMER: u32 = 50;

/// What the driver hands over for one frame.
#[derive(Clone, Copy, Debug, PartialEq, Eq, Structural)]
pub struct Frame {
    /// Time since the last frame, in milliseconds. It is taken as it comes:
    /// neither a long pause nor a negative value is corrected.
    pub dt: i64,
    /// Whether a jump (in a menu: a confirmation) was newly asked for.
    pub jump_requested: bool,
    /// Extent of the viewport.
    pub viewport: Size,
}

/// How often pairs come and how wide their gaps are.
#[derive(Clone, Copy, Debug, PartialEq, Eq, Structural)]
pub struct Tuning {
    /// Frames from one pair to the next.
    pub spawn_interval: u32,
    /// Scale of the gap, in hundredths.
    pub gap_scale: u16,
}

/// The tuning for a viewport `viewport_height` pixels high. There are three
/// tiers: the higher the viewport, the longer the interval and the wider the
/// gap.
pub open spec fn tuning_for(viewport_height: u32) -> Tuning {
    if viewport_height <= 700 {
        Tuning { spawn_interval: 200, gap_scale: 100 }
    } else if viewport_height <= 900 {
        Tuning { spawn_interval: 250, gap_scale: 110 }
    } else {
        Tuning { spawn_interval: 300, gap_scale: 120 }
    }
}

/// Computes [`tuning_for`].
pub fn choose_tuning(viewport_height: u32) -> (tuning: Tuning)
    ensures
        tuning == tuning_for(viewport_height),
{
    if viewport_height <= 700 {
        Tuning { spawn_interval: 200, gap_scale: 100 }
    } else if viewport_height <= 900 {
        Tuning { spawn_interval: 250, gap_scale: 110 }
    } else {
        Tuning { spawn_interval: 300, gap_scale: 120 }
    }
}

/// The pipes after one frame: each moved by `dt`, then looked at with the
/// player at `player_x`.
pub open spec fn advanced(pipes: Seq<Pipe>, dt: int, player_x: int) -> Seq<Pipe> {
    Seq::new(pipes.len(), |i: int| pipes[i].moved(dt).marked(player_x))
}

/// How many of the pipes get behind the player, for the first time, by
/// moving for `dt`.
pub open spec fn newly_passed_count(pipes: Seq<Pipe>, dt: int, player_x: int) -> nat
    decreases pipes.len(),
{
    if pipes.len() == 0 {
        0
    } else {
        newly_passed_count(pipes.drop_last(), dt, player_x) + if pipes.last().moved(
            dt,
        ).newly_passed(player_x) {
            1nat
        } else {
            0nat
        }
    }
}

/// The pipes that have not left the viewport, in their order.
pub open spec fn on_screen(pipes: Seq<Pipe>) -> Seq<Pipe> {
    pipes.filter(|pipe: Pipe| !pipe.off_screen())
}

/// The draw that stands in on a frame that takes no random numbers.
pub open spec fn no_draw() -> GapDraw {
    GapDraw { gap_size: 0, gap_top_y: 0 }
}

/// A session.
///
/// `obstacles` keeps the pipes in the order in which they were made, so the
/// two pipes of a pair stay next to each other. `spawn_interval`,
/// `gap_scale`, `speed_step` and `pipe_size` are set when the session is
/// made and never change.
#[derive(Clone, Debug, PartialEq, Eq)]
pub struct Session {
    /// The score, counted in halves of a point: each pipe passed is worth
    /// half a point, a pair a whole one.
    pub score_halves: u64,
    /// Speed that the next pair gets, in velocity units.
    pub obstacle_speed: i64,
    /// Frames since the last pair.
    pub spawn_timer: u32,
    pub spawn_interval: u32,
    pub gap_scale: u16,
    /// By how much `obstacle_speed` grows for each pipe passed.
    pub speed_step: i64,
    /// Extent of every pipe.
    pub pipe_size: Size,
    pub obstacles: Vec<Pipe>,
}

/// A session as a mathematical value.
pub struct SessionView {
    pub score_halves: u64,
    pub obstacle_speed: i64,
    pub spawn_timer: u32,
    pub spawn_interval: u32,
    pub gap_scale: u16,
    pub speed_step: i64,
    pub pipe_size: Size,
    pub obstacles: Seq<Pipe>,
}

impl View for Session {
    type V = SessionView;

    open spec fn view(&self) -> SessionView {
        SessionView {
            score_halves: self.score_halves,
            obstacle_speed: self.obstacle_speed,
            spawn_timer: self.spawn_timer,
            spawn_interval: self.spawn_interval,
            gap_scale: self.gap_scale,
            speed_step: self.speed_step,
            pipe_size: self.pipe_size,
            obstacles: self.obstacles@,
        }
    }
}

impl SessionView {
    /// Whether the frame that comes next brings a new pair.
    pub open spec fn spawn_due(self) -> bool {
        self.spawn_timer + 1 >= self.spawn_interval
    }

    /// The pipes that the frame works on: those of the session, or none once
    /// the player is dead.
    pub open spec fn live_obstacles(self, player: Player) -> Seq<Pipe> {
        if player.is_alive {
            self.obstacles
        } else {
            Seq::empty()
        }
    }

    /// How many pipes the frame counts for the score.
    pub open spec fn passed_in_frame(self, player: Player, dt: int) -> nat {
        newly_passed_count(self.live_obstacles(player), dt, player.pos.x as int)
    }

    /// The session after a frame of `dt` milliseconds, where `player` is the
    /// player as its own update has just left it and `draw` holds the random
    /// numbers for the pair, should one be due.
    ///
    /// If the player is dead, the pipes are cleared. Each pipe left moves; one
    /// that gets behind the player for the first time is marked, adds half a
    /// point and raises the speed by `speed_step`. Pipes that have left the
    /// viewport go. Then the timer ticks, and when it reaches the interval a
    /// new pair with the current speed is appended and the timer starts again.
    pub open spec fn stepped(
        self,
        player: Player,
        dt: int,
        viewport: Size,
        draw: GapDraw,
    ) -> SessionView {
        let live = self.live_obstacles(player);
        let passed = self.passed_in_frame(player, dt);
        let speed = clamp_i64(self.obstacle_speed + self.speed_step * passed);
        let kept = on_screen(advanced(live, dt, player.pos.x as int));
        let pair = placed_pair(viewport.w, self.pipe_size, speed, draw);
        SessionView {
            score_halves: clamp_u64(self.score_halves + passed),
            obstacle_speed: speed,
            spawn_timer: if self.spawn_due() {
                0
            } else {
                (self.spawn_timer + 1) as u32
            },
            obstacles: if self.spawn_due() {
                kept.push(pair.0).push(pair.1)
            } else {
                kept
            },
            ..self
        }
    }
}

/// Moves every pipe by `dt` and marks those that are then behind the player.
/// Returns how many were marked by this call.
pub fn advance_pipes(pipes: &mut Vec<Pipe>, dt: i64, player_x: i64) -> (passed: usize)
    ensures
        final(pipes)@ == advanced(old(pipes)@, dt as int, player_x as int),
        passed == newly_passed_count(old(pipes)@, dt as int, player_x as int),
{
    let mut passed: usize = 0;
    let mut i: usize = 0;
    while i < pipes.len()
        invariant
            i <= pipes.len(),
            pipes.len() == old(pipes).len(),
            passed <= i,
            passed == newly_passed_count(old(pipes)@.take(i as int), dt as int, player_x as int),
            forall|j: int|
                0 <= j < i ==> pipes@[j] == (#[trigger] old(pipes)@[j]).moved(dt as int).marked(
                    player_x as int,
                ),
            forall|j: int| i <= j < pipes.len() ==> pipes@[j] == old(pipes)@[j],
        decreases pipes.len() - i,
    {
        let mut pipe: Pipe = pipes[i];
        pipe.update(dt);
        let newly: bool = pipe.mark_passed(player_x);
        pipes.set(i, pipe);
        proof {
            let upto = old(pipes)@.take(i + 1);
            assert(upto.drop_last() == old(pipes)@.take(i as int));
            assert(upto.last() == old(pipes)@[i as int]);
        }
        if newly {
            passed += 1;
        }
        i += 1;
    }
    proof {
        assert(old(pipes)@.take(pipes.len() as int) == old(pipes)@);
    }
    passed
}

/// Removes the pipes that have left the viewport. The others keep their order.
pub fn remove_off_screen(pipes: &mut Vec<Pipe>)
    ensures
        final(pipes)@ == on_screen(old(pipes)@),
{
    let ghost keep = |pipe: Pipe| !pipe.off_screen();
    let mut kept: Vec<Pipe> = Vec::new();
    let mut i: usize = 0;
    proof {
        reveal(Seq::filter);
        assert(pipes@.take(0).filter(keep) == Seq::<Pipe>::empty());
    }
    while i < pipes.len()
        invariant
            i <= pipes.len(),
            keep == |pipe: Pipe| !pipe.off_screen(),
            kept@ == pipes@.take(i as int).filter(keep),
        decreases pipes.len() - i,
    {
        let pipe: Pipe = pipes[i];
        proof {
            reveal(Seq::filter);
            let upto = pipes@.take(i + 1);
            assert(upto.drop_last() == pipes@.take(i as int));
            assert(upto.last() == pipe);
        }
        if !pipe.is_off_screen() {
            kept.push(pipe);
        }
        i += 1;
    }
    proof {
        assert(pipes@.take(pipes.len() as int) == pipes@);
    }
    *pipes = kept;
}

impl Session {
    /// A session for a viewport `viewport_height` pixels high, with no pipes
    /// and no score.
    pub fn new(viewport_height: u32, pipe_size: Size, speed_step: i64) -> (session: Session)
        ensures
            session@ == (SessionView {
                score_halves: 0,
                obstacle_speed: PIPE_SPEED,
                spawn_timer: FIRST_SPAWN_TIMER,
                spawn_interval: tuning_for(viewport_height).spawn_interval,
                gap_scale: tuning_for(viewport_height).gap_scale,
                speed_step,
                pipe_size,
                obstacles: Seq::empty(),
            }),
    {
        let tuning = choose_tuning(viewport_height);
        Session {
            score_halves: 0,
            obstacle_speed: PIPE_SPEED,
            spawn_timer: FIRST_SPAWN_TIMER,
            spawn_interval: tuning.spawn_interval,
            gap_scale: tuning.gap_scale,
            speed_step,
            pipe_size,
            obstacles: Vec::new(),
        }
    }

    /// Whether the next frame brings a new pair.
    pub fn is_spawn_due(&self) -> (due: bool)
        ensures
            due == self@.spawn_due(),
    {
        self.spawn_timer as u64 + 1 >= self.spawn_interval as u64
    }

    /// Plays one frame with the random numbers given: first the player's
    /// update among the pipes as they stand, then the session's own step.
    /// `draw` is used only if a pair is due.
    pub fn step_with(&mut self, player: &mut Player, frame: Frame, draw: GapDraw)
        ensures
            *final(player) == old(player).updated(
                frame.dt as int,
                frame.jump_requested,
                frame.viewport.h,
                old(self)@.obstacles,
            ),
            final(self)@ == old(self)@.stepped(
                *final(player),
                frame.dt as int,
                frame.viewport,
                draw,
            ),
    {
        player.update(frame.dt, frame.jump_requested, frame.viewport.h, &self.obstacles);
        if !player.is_alive {
            self.obstacles.clear();
        }
        let passed: usize = advance_pipes(&mut self.obstacles, frame.dt, player.pos.x);
        self.score_halves = self.score_halves.saturating_add(passed as u64);
        proof {
            lemma_speed_gain_bound(self.speed_step as int, passed as int);
        }
        let gain: i128 = self.speed_step as i128 * passed as i128;
        self.obstacle_speed = saturate(self.obstacle_speed as i128 + gain);
        remove_off_screen(&mut self.obstacles);
        if self.is_spawn_due() {
            let pair = place_pair(frame.viewport.w, self.pipe_size, self.obstacle_speed, draw);
            self.obstacles.push(pair.0);
            self.obstacles.push(pair.1);
            self.spawn_timer = 0;
        } else {
            self.spawn_timer = self.spawn_timer + 1;
        }
    }

    /// Plays one frame. If a pair is due, its random numbers are drawn first.
    ///
    /// Where a pair is due, the outcome is that of [`Session::step_with`] for
    /// some draw within the ranges of the frame's viewport; where none is
    /// due, nothing is drawn and the outcome is that for [`no_draw`], as for
    /// any other draw.
    pub fn step(&mut self, player: &mut Player, frame: Frame)
        ensures
            *final(player) == old(player).updated(
                frame.dt as int,
                frame.jump_requested,
                frame.viewport.h,
                old(self)@.obstacles,
            ),
            old(self)@.spawn_due() ==> exists|draw: GapDraw|
                draw_in_range(draw, frame.viewport.h, old(self).pipe_size.h, old(self).gap_scale)
                    && final(self)@ == #[trigger] old(self)@.stepped(
                    *final(player),
                    frame.dt as int,
                    frame.viewport,
                    draw,
                ),
            !old(self)@.spawn_due() ==> final(self)@ == old(self)@.stepped(
                *final(player),
                frame.dt as int,
                frame.viewport,
                no_draw(),
            ),
    {
        let draw = if self.is_spawn_due() {
            draw_gap(frame.viewport.h, self.pipe_size.h, self.gap_scale)
        } else {
            GapDraw { gap_size: 0, gap_top_y: 0 }
        };
        self.step_with(player, frame, draw);
    }
}

/// A step of 64 bits times a count of at most 64 bits, added to a speed of
/// 64 bits, fits in 128 bits.
pub proof fn lemma_speed_gain_bound(step: int, count: int)
    requires
        i64::MIN <= step <= i64::MAX,
        0 <= count <= u64::MAX,
    ensures
        -0x7fff_ffff_ffff_ffff_8000_0000_0000_0000 <= step * count
            <= 0x7fff_ffff_ffff_ffff_8000_0000_0000_0000,
{
    assert(-0x7fff_ffff_ffff_ffff_8000_0000_0000_0000 <= step * count
        <= 0x7fff_ffff_ffff_ffff_8000_0000_0000_0000) by (nonlinear_arith)
        requires
            -0x8000_0000_0000_0000 <= step <= 0x7fff_ffff_ffff_ffff,
            0 <= count <= 0xffff_ffff_ffff_ffff,
    ;
}

/// A pipe is removed once its right edge is behind the left edge of the
/// viewport, and never before: what is left are the pipes that were there
/// before and are not off screen.
pub proof fn lemma_on_screen_keeps_exactly(pipes: Seq<Pipe>, pipe: Pipe)
    ensures
        on_screen(pipes).contains(pipe) <==> pipes.contains(pipe) && !pipe.off_screen(),
{
    let keep = |pipe: Pipe| !pipe.off_screen();
    if on_screen(pipes).contains(pipe) {
        let i = choose|i: int| 0 <= i < on_screen(pipes).len() && on_screen(pipes)[i] == pipe;
        pipes.lemma_filter_pred(keep, i);
        pipes.lemma_filter_contains_rev(keep, pipe);
    }
    if pipes.contains(pipe) && !pipe.off_screen() {
        let i = choose|i: int| 0 <= i < pipes.len() && pipes[i] == pipe;
        pipes.lemma_filter_contains(keep, i);
    }
}

/// While no pipe is off screen, none is removed.
pub proof fn lemma_on_screen_keeps_all(pipes: Seq<Pipe>)
    requires
        forall|i: int| 0 <= i < pipes.len() ==> !(#[trigger] pipes[i]).off_screen(),
    ensures
        on_screen(pipes) == pipes,
    decreases pipes.len(),
{
    reveal(Seq::filter);
    if pipes.len() > 0 {
        lemma_on_screen_keeps_all(pipes.drop_last());
        assert(pipes.drop_last().push(pipes.last()) == pipes);
    }
}

/// No more pipes are counted in a frame than there are, and none whose latch
/// is set already.
pub proof fn lemma_newly_passed_count_bounds(pipes: Seq<Pipe>, dt: int, player_x: int)
    ensures
        newly_passed_count(pipes, dt, player_x) <= pipes.len(),
        (forall|i: int| 0 <= i < pipes.len() ==> (#[trigger] pipes[i]).passed_player)
            ==> newly_passed_count(pipes, dt, player_x) == 0,
    decreases pipes.len(),
{
    if pipes.len() > 0 {
        lemma_newly_passed_count_bounds(pipes.drop_last(), dt, player_x);
    }
}

/// Every pipe that a frame counts has its latch set by that frame, and a
/// latch that was set before the frame is set after it. So a frame that
/// follows at once, with no time passed and the player where it was, counts
/// nothing.
pub proof fn lemma_counted_pipes_are_latched(pipes: Seq<Pipe>, dt: int, player_x: int)
    ensures
        forall|i: int|
            0 <= i < pipes.len() && (#[trigger] pipes[i]).moved(dt).newly_passed(player_x)
                ==> advanced(pipes, dt, player_x)[i].passed_player,
        forall|i: int|
            0 <= i < pipes.len() && (#[trigger] pipes[i]).passed_player ==> advanced(
                pipes,
                dt,
                player_x,
            )[i].passed_player,
        newly_passed_count(advanced(pipes, dt, player_x), 0, player_x) == 0,
{
    lemma_nothing_behind_is_left_to_count(advanced(pipes, dt, player_x), player_x);
}

/// Where every pipe behind the player has its latch set, a frame of no
/// duration counts nothing.
pub proof fn lemma_nothing_behind_is_left_to_count(pipes: Seq<Pipe>, player_x: int)
    requires
        forall|i: int|
            0 <= i < pipes.len() && (#[trigger] pipes[i]).behind(player_x)
                ==> pipes[i].passed_player,
    ensures
        newly_passed_count(pipes, 0, player_x) == 0,
    decreases pipes.len(),
{
    if pipes.len() > 0 {
        lemma_nothing_behind_is_left_to_count(pipes.drop_last(), player_x);
        assert(pipes.last() == pipes[pipes.len() - 1]);
    }
}

/// The score grows by half a point for each pipe counted, and by nothing
/// else; the speed grows by `speed_step` for each. Both stop at the end of
/// their range. A frame with a dead player counts nothing.
pub proof fn lemma_score_and_speed_gain(
    session: SessionView,
    player: Player,
    dt: int,
    viewport: Size,
    draw: GapDraw,
)
    ensures
        ({
            let after = session.stepped(player, dt, viewport, draw);
            let passed = session.passed_in_frame(player, dt);
            &&& passed <= session.obstacles.len()
            &&& session.score_halves + passed <= u64::MAX ==> after.score_halves
                == session.score_halves + passed
            &&& i64::MIN <= session.obstacle_speed + session.speed_step * passed <= i64::MAX
                ==> after.obstacle_speed == session.obstacle_speed + session.speed_step * passed
            &&& !player.is_alive ==> passed == 0 && after.score_halves == session.score_halves
                && after.obstacle_speed == session.obstacle_speed
        }),
{
    lemma_newly_passed_count_bounds(session.live_obstacles(player), dt, player.pos.x as int);
}

/// What a frame leaves unchanged, and how the timer runs: it goes up by one
/// each frame and starts again at zero on the frame on which it reaches the
/// interval, which is the frame that appends a pair.
pub proof fn lemma_timer_and_settings(
    session: SessionView,
    player: Player,
    dt: int,
    viewport: Size,
    draw: GapDraw,
)
    ensures
        ({
            let after = session.stepped(player, dt, viewport, draw);
            let kept = on_screen(
                advanced(session.live_obstacles(player), dt, player.pos.x as int),
            );
            &&& after.spawn_interval == session.spawn_interval
            &&& after.gap_scale == session.gap_scale
            &&& after.speed_step == session.speed_step
            &&& after.pipe_size == session.pipe_size
            &&& session.spawn_due() ==> after.spawn_timer == 0 && after.obstacles.len()
                == kept.len() + 2
            &&& !session.spawn_due() ==> after.spawn_timer == session.spawn_timer + 1
                && after.spawn_timer < session.spawn_interval && after.obstacles == kept
            &&& kept.len() <= session.obstacles.len()
        }),
{
    let live = session.live_obstacles(player);
    advanced(live, dt, player.pos.x as int).lemma_filter_len(|pipe: Pipe| !pipe.off_screen());
}

/// The random numbers decide the new pair and nothing else: frames that
/// differ only in the draw end the same but for the pair appended, and a
/// frame on which no pair is due ends the same whatever the draw.
pub proof fn lemma_draw_decides_only_the_pair(
    session: SessionView,
    player: Player,
    dt: int,
    viewport: Size,
    one: GapDraw,
    other: GapDraw,
)
    ensures
        ({
            let a = session.stepped(player, dt, viewport, one);
            let b = session.stepped(player, dt, viewport, other);
            &&& a == (SessionView { obstacles: a.obstacles, ..b })
            &&& a.obstacles.len() == b.obstacles.len()
            &&& session.spawn_due() ==> a.obstacles.drop_last().drop_last()
                == b.obstacles.drop_last().drop_last()
            &&& !session.spawn_due() ==> a == b
        }),
{
    let a = session.stepped(player, dt, viewport, one);
    let b = session.stepped(player, dt, viewport, other);
    let kept = on_screen(advanced(session.live_obstacles(player), dt, player.pos.x as int));
    if session.spawn_due() {
        assert(a.obstacles.drop_last().drop_last() == kept);
        assert(b.obstacles.drop_last().drop_last() == kept);
    }
}

} // verus!
