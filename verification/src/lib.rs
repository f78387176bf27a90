//! Simulation core of a side-scrolling game: a bird falls under gravity,
//! jumps on input and has to fly through the gaps between pairs of pipes that
//! scroll towards it.
//!
//! The crate holds the rules of the game and nothing else. A driver feeds it
//! one [`Frame`] per tick (elapsed time, the jump signal, the viewport) and
//! reads positions, sizes, the score and the state back for drawing.
//!
//! All quantities are integers, see [`units`]: every stored value is the
//! exact result of its formula, clamped into the range of its machine type.

pub mod units;
pub mod geometry;
pub mod pipe;
pub mod player;
pub mod spawner;
pub mod session;
pub mod pairs;
pub mod game;

pub use geometry::{Point, Rect, Size};
pub use pipe::Pipe;
pub use player::Player;
pub use session::{Frame, Session};
pub use spawner::GapDraw;
pub use game::{Game, GameState};
