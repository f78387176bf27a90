//! The game as a whole: a menu, a run, and the screen after a death.

use vstd::prelude::*;
use crate::geometry::{Point, Size};
use crate::pairs::{in_pairs, lemma_step_keeps_pairs};
use crate::player::Player;
use crate::session::{no_draw, Frame, Session, SessionView, PIPE_SPEED};
use crate::spawner::{draw_gap, draw_in_range, GapDraw};

verus! {

/// Where the game is. There are three moves and no others: from the menu
/// into a run on a confirmation, from a run to `Dead` when the player dies,
/// and from `Dead` into a new run on a confirmation.
#[derive(Clone, Copy, Debug, PartialEq, Eq, Structural)]
pub enum GameState {
    MainMenu,
    Playing,
    Dead,
}

/// The whole game. `spawn` is where the player starts every run.
#[derive(Clone, Debug, PartialEq, Eq)]
pub struct Game {
    pub state: GameState,
    pub player: Player,
    pub spawn: Point,
    pub session: Session,
}

/// A game as a mathematical value.
pub struct GameView {
    pub state: GameState,
    pub player: Player,
    pub spawn: Point,
    pub session: SessionView,
}

impl View for Game {
    type V = GameView;

    open spec fn view(&self) -> GameView {
        GameView {
            state: self.state,
            player: self.player,
            spawn: self.spawn,
            session: self.session@,
        }
    }
}

impl GameView {
    /// Whether the frame that comes next takes random numbers: it is a frame
    /// of a run, and a pair is due.
    pub open spec fn draw_due(self) -> bool {
        self.state == GameState::Playing && self.session.spawn_due()
    }

    /// The player of a run after `frame`.
    pub open spec fn player_after(self, frame: Frame) -> Player {
        self.player.updated(
            frame.dt as int,
            frame.jump_requested,
            frame.viewport.h,
            self.session.obstacles,
        )
    }

    /// The game after a frame in the menu: a confirmation starts the run.
    pub open spec fn stepped_in_menu(self, frame: Frame) -> GameView {
        if frame.jump_requested {
            GameView { state: GameState::Playing, ..self }
        } else {
            self
        }
    }

    /// The game after a frame of a run. The session plays the frame. If the
    /// player is dead after it, the game is `Dead`: the player is back at the
    /// spawn point and at rest, the speed is back at [`PIPE_SPEED`], and there
    /// are no pipes. The score stays.
    pub open spec fn stepped_in_run(self, frame: Frame, draw: GapDraw) -> GameView {
        let player = self.player_after(frame);
        let session = self.session.stepped(player, frame.dt as int, frame.viewport, draw);
        if player.is_alive {
            GameView { player, session, ..self }
        } else {
            GameView {
                state: GameState::Dead,
                player: Player { pos: self.spawn, vertical_velocity: 0, ..player },
                session: SessionView {
                    obstacle_speed: PIPE_SPEED,
                    obstacles: Seq::empty(),
                    ..session
                },
                ..self
            }
        }
    }

    /// The game after a frame on the screen that follows a death: a
    /// confirmation starts a new run, with a score of zero and a living
    /// player at rest.
    pub open spec fn stepped_when_dead(self, frame: Frame) -> GameView {
        if frame.jump_requested {
            GameView {
                state: GameState::Playing,
                player: Player { is_alive: true, vertical_velocity: 0, ..self.player },
                session: SessionView { score_halves: 0, ..self.session },
                ..self
            }
        } else {
            self
        }
    }

    /// The game after `frame`, with `draw` for the pair that may be due.
    pub open spec fn stepped(self, frame: Frame, draw: GapDraw) -> GameView {
        match self.state {
            GameState::MainMenu => self.stepped_in_menu(frame),
            GameState::Playing => self.stepped_in_run(frame, draw),
            GameState::Dead => self.stepped_when_dead(frame),
        }
    }

    /// What holds of a game between frames, from its making on: the pipes
    /// stand pair by pair, the player has not moved sideways, it is alive
    /// unless the game is `Dead`, and a dead game has no pipes, its player at
    /// rest at the spawn point and the speed at its start value.
    pub open spec fn consistent(self) -> bool {
        &&& in_pairs(self.session.obstacles)
        &&& self.player.pos.x == self.spawn.x
        &&& match self.state {
            GameState::MainMenu => self.player.is_alive,
            GameState::Playing => self.player.is_alive,
            GameState::Dead => {
                &&& !self.player.is_alive
                &&& self.player.pos == self.spawn
                &&& self.player.vertical_velocity == 0
                &&& self.session.obstacle_speed == PIPE_SPEED
                &&& self.session.obstacles.len() == 0
            },
        }
    }

    /// The game after the frames of `turns`, in their order.
    pub open spec fn after_turns(self, turns: Seq<Turn>) -> GameView
        decreases turns.len(),
    {
        if turns.len() == 0 {
            self
        } else {
            self.after_turns(turns.drop_last()).stepped(turns.last().frame, turns.last().draw)
        }
    }
}

/// One frame of a game and the random numbers that go with it.
pub struct Turn {
    pub frame: Frame,
    pub draw: GapDraw,
}

impl Game {
    /// A game in the menu: a living player at rest at `spawn`, and a fresh
    /// session for a viewport `viewport_height` pixels high.
    pub fn new(
        spawn: Point,
        player_size: Size,
        pipe_size: Size,
        viewport_height: u32,
        speed_step: i64,
    ) -> (game: Game)
        ensures
            game.state == GameState::MainMenu,
            game.player == (Player {
                pos: spawn,
                size: player_size,
                vertical_velocity: 0,
                is_alive: true,
            }),
            game.spawn == spawn,
            game.session@ == (SessionView {
                score_halves: 0,
                obstacle_speed: PIPE_SPEED,
                spawn_timer: crate::session::FIRST_SPAWN_TIMER,
                spawn_interval: crate::session::tuning_for(viewport_height).spawn_interval,
                gap_scale: crate::session::tuning_for(viewport_height).gap_scale,
                speed_step,
                pipe_size,
                obstacles: Seq::empty(),
            }),
            game@.consistent(),
    {
        Game {
            state: GameState::MainMenu,
            player: Player::new(spawn, player_size),
            spawn,
            session: Session::new(viewport_height, pipe_size, speed_step),
        }
    }

    /// Whether the next frame takes random numbers.
    pub fn is_draw_due(&self) -> (due: bool)
        ensures
            due == self@.draw_due(),
    {
        match self.state {
            GameState::Playing => self.session.is_spawn_due(),
            _ => false,
        }
    }

    /// Plays one frame with the random numbers given. `draw` is used only if
    /// the game is in a run and a pair is due.
    pub fn step_with(&mut self, frame: Frame, draw: GapDraw)
        ensures
            final(self)@ == old(self)@.stepped(frame, draw),
    {
        match self.state {
            GameState::MainMenu => {
                if frame.jump_requested {
                    self.state = GameState::Playing;
                }
            },
            GameState::Playing => {
                self.session.step_with(&mut self.player, frame, draw);
                if !self.player.is_alive {
                    self.state = GameState::Dead;
                    self.player.pos = self.spawn;
                    self.player.vertical_velocity = 0;
                    self.session.obstacle_speed = PIPE_SPEED;
                    self.session.obstacles.clear();
                }
            },
            GameState::Dead => {
                if frame.jump_requested {
                    self.state = GameState::Playing;
                    self.session.score_halves = 0;
                    self.player.is_alive = true;
                    self.player.vertical_velocity = 0;
                }
            },
        }
    }

    /// Plays one frame. If the frame brings a new pair of pipes, its random
    /// numbers are drawn first.
    ///
    /// Where numbers are drawn, the outcome is that of [`Game::step_with`]
    /// for some draw within the ranges of the frame's viewport; where none
    /// are, it is that for [`no_draw`], as for any other draw.
    pub fn step(&mut self, frame: Frame)
        ensures
            old(self)@.draw_due() ==> exists|draw: GapDraw|
                draw_in_range(
                    draw,
                    frame.viewport.h,
                    old(self).session.pipe_size.h,
                    old(self).session.gap_scale,
                ) && final(self)@ == #[trigger] old(self)@.stepped(frame, draw),
            !old(self)@.draw_due() ==> final(self)@ == old(self)@.stepped(frame, no_draw()),
    {
        let draw = if self.is_draw_due() {
            draw_gap(frame.viewport.h, self.session.pipe_size.h, self.session.gap_scale)
        } else {
            GapDraw { gap_size: 0, gap_top_y: 0 }
        };
        self.step_with(frame, draw);
    }
}

/// A frame keeps a consistent game consistent.
pub proof fn lemma_step_keeps_consistent(game: GameView, frame: Frame, draw: GapDraw)
    requires
        game.consistent(),
    ensures
        game.stepped(frame, draw).consistent(),
{
    if game.state == GameState::Playing {
        lemma_step_keeps_pairs(
            game.session,
            game.player_after(frame),
            frame.dt as int,
            frame.viewport,
            draw,
        );
    }
}

/// A game that starts consistent, as a new one does, is consistent after
/// any frames with any draws.
pub proof fn lemma_always_consistent(game: GameView, turns: Seq<Turn>)
    requires
        game.consistent(),
    ensures
        game.after_turns(turns).consistent(),
    decreases turns.len(),
{
    if turns.len() > 0 {
        lemma_always_consistent(game, turns.drop_last());
        lemma_step_keeps_consistent(
            game.after_turns(turns.drop_last()),
            turns.last().frame,
            turns.last().draw,
        );
    }
}

/// The state changes in three ways only: from the menu into a run on a
/// confirmation, from a run to `Dead` on the frame on which the player dies,
/// and from `Dead` into a run on a confirmation. Without a confirmation a
/// frame in the menu or after a death changes nothing at all.
pub proof fn lemma_only_three_moves(game: GameView, frame: Frame, draw: GapDraw)
    ensures
        ({
            let after = game.stepped(frame, draw);
            match game.state {
                GameState::MainMenu => {
                    &&& after.state == (if frame.jump_requested {
                        GameState::Playing
                    } else {
                        GameState::MainMenu
                    })
                    &&& after.player == game.player
                    &&& after.session == game.session
                },
                GameState::Playing => {
                    after.state == (if game.player_after(frame).is_alive {
                        GameState::Playing
                    } else {
                        GameState::Dead
                    })
                },
                GameState::Dead => {
                    &&& after.state == (if frame.jump_requested {
                        GameState::Playing
                    } else {
                        GameState::Dead
                    })
                    &&& !frame.jump_requested ==> after == game
                },
            }
        }),
{
}

/// The frame on which the player dies ends in `Dead` with no pipes, the
/// player at rest at the spawn point and the speed back at its start value.
/// The score is the one from before the frame.
pub proof fn lemma_death_resets_the_run(game: GameView, frame: Frame, draw: GapDraw)
    requires
        game.state == GameState::Playing,
        !game.player_after(frame).is_alive,
    ensures
        ({
            let after = game.stepped(frame, draw);
            &&& after.state == GameState::Dead
            &&& after.session.obstacles.len() == 0
            &&& after.session.obstacle_speed == PIPE_SPEED
            &&& after.session.score_halves == game.session.score_halves
            &&& after.player.pos == game.spawn
            &&& after.player.vertical_velocity == 0
            &&& !after.player.is_alive
        }),
{
    crate::session::lemma_score_and_speed_gain(
        game.session,
        game.player_after(frame),
        frame.dt as int,
        frame.viewport,
        draw,
    );
}

/// A frame that takes the player below the floor ends the run, whatever else
/// is on screen.
pub proof fn lemma_floor_ends_the_run(game: GameView, frame: Frame, draw: GapDraw)
    requires
        game.state == GameState::Playing,
        game.player.hits_floor(frame.dt as int, frame.jump_requested, frame.viewport.h),
    ensures
        game.stepped(frame, draw).state == GameState::Dead,
        game.stepped(frame, draw).session.obstacles.len() == 0,
{
}

/// A confirmation after a death starts a run with a score of zero and a
/// living player at rest. The pipes, the speed and the timer are as the
/// death left them.
pub proof fn lemma_restart(game: GameView, frame: Frame, draw: GapDraw)
    requires
        game.state == GameState::Dead,
        frame.jump_requested,
    ensures
        ({
            let after = game.stepped(frame, draw);
            &&& after.state == GameState::Playing
            &&& after.session.score_halves == 0
            &&& after.player.is_alive
            &&& after.player.vertical_velocity == 0
            &&& after.player.pos == game.player.pos
            &&& after.session.obstacles == game.session.obstacles
            &&& after.session.obstacle_speed == game.session.obstacle_speed
            &&& after.session.spawn_timer == game.session.spawn_timer
        }),
{
}

/// The random numbers decide the new pair and nothing else: the state, the
/// player, the score, the speed and the timer after a frame are the same
/// whatever the draw, and a frame that takes no random numbers ends the same
/// whatever the draw.
pub proof fn lemma_draw_decides_only_the_pair(
    game: GameView,
    frame: Frame,
    one: GapDraw,
    other: GapDraw,
)
    ensures
        ({
            let a = game.stepped(frame, one);
            let b = game.stepped(frame, other);
            &&& a.state == b.state
            &&& a.player == b.player
            &&& a.spawn == b.spawn
            &&& a.session == (SessionView { obstacles: a.session.obstacles, ..b.session })
            &&& !game.draw_due() ==> a == b
        }),
{
    if game.state == GameState::Playing {
        crate::session::lemma_draw_decides_only_the_pair(
            game.session,
            game.player_after(frame),
            frame.dt as int,
            frame.viewport,
            one,
            other,
        );
    }
}

/// What is set when a game is made stays as it is, whatever is played: the
/// spawn point, the size of the player and of the pipes, the interval
/// between pairs, the scale of the gaps and the step of the speed.
pub proof fn lemma_settings_never_change(game: GameView, turns: Seq<Turn>)
    ensures
        ({
            let after = game.after_turns(turns);
            &&& after.spawn == game.spawn
            &&& after.player.size == game.player.size
            &&& after.session.pipe_size == game.session.pipe_size
            &&& after.session.spawn_interval == game.session.spawn_interval
            &&& after.session.gap_scale == game.session.gap_scale
            &&& after.session.speed_step == game.session.speed_step
        }),
    decreases turns.len(),
{
    if turns.len() > 0 {
        lemma_settings_never_change(game, turns.drop_last());
    }
}

} // verus!
