//! Pipes come in pairs, and the pipes of a session stay pair by pair.

use vstd::prelude::*;
use crate::geometry::Size;
use crate::pipe::Pipe;
use crate::player::Player;
use crate::session::{advanced, newly_passed_count, on_screen, SessionView};
use crate::spawner::{placed_pair, GapDraw};

verus! {

/// Whether two pipes can be the two of a pair at some time of their life:
/// they are at the same `x`, of the same size and speed, and either both
/// have been passed or neither.
pub open spec fn twins(top: Pipe, bottom: Pipe) -> bool {
    &&& top.pos.x == bottom.pos.x
    &&& top.size == bottom.size
    &&& top.speed == bottom.speed
    &&& top.passed_player == bottom.passed_player
}

/// Whether the pipes stand pair by pair: an even number of them, each pipe
/// at an even place followed by its twin.
pub open spec fn in_pairs(pipes: Seq<Pipe>) -> bool {
    &&& pipes.len() % 2 == 0
    &&& forall|i: int|
        0 <= i < pipes.len() && i % 2 == 0 ==> twins(#[trigger] pipes[i], pipes[i + 1])
}

/// Pipes that stand pair by pair still do with one more pair at the end.
pub proof fn lemma_in_pairs_push(pipes: Seq<Pipe>, top: Pipe, bottom: Pipe)
    requires
        in_pairs(pipes),
        twins(top, bottom),
    ensures
        in_pairs(pipes.push(top).push(bottom)),
{
    let longer = pipes.push(top).push(bottom);
    assert forall|i: int| 0 <= i < longer.len() && i % 2 == 0 implies twins(
        #[trigger] longer[i],
        longer[i + 1],
    ) by {
        if i < pipes.len() {
            assert(twins(pipes[i], pipes[i + 1]));
        }
    }
}

/// Removing the pipes that are off screen takes whole pairs only.
pub proof fn lemma_on_screen_keeps_pairs(pipes: Seq<Pipe>)
    requires
        in_pairs(pipes),
    ensures
        in_pairs(on_screen(pipes)),
    decreases pipes.len(),
{
    reveal(Seq::filter);
    if pipes.len() > 0 {
        let most = pipes.drop_last();
        let rest = most.drop_last();
        let top = most.last();
        let bottom = pipes.last();
        assert(twins(pipes[pipes.len() - 2], pipes[pipes.len() - 2 + 1]));
        assert forall|i: int| 0 <= i < rest.len() && i % 2 == 0 implies twins(
            #[trigger] rest[i],
            rest[i + 1],
        ) by {
            assert(twins(pipes[i], pipes[i + 1]));
        }
        lemma_on_screen_keeps_pairs(rest);
        let keep = |pipe: Pipe| !pipe.off_screen();
        assert(keep(top) == keep(bottom));
        assert(most.filter(keep) == if keep(top) {
            rest.filter(keep).push(top)
        } else {
            rest.filter(keep)
        });
        assert(pipes.filter(keep) == if keep(bottom) {
            most.filter(keep).push(bottom)
        } else {
            most.filter(keep)
        });
        if keep(top) {
            lemma_in_pairs_push(on_screen(rest), top, bottom);
        }
    }
}

/// A frame moves and marks the two pipes of a pair alike, so it counts both
/// or neither: with the pipes pair by pair, the score grows by whole points.
pub proof fn lemma_pairs_are_counted_together(pipes: Seq<Pipe>, dt: int, player_x: int)
    requires
        in_pairs(pipes),
    ensures
        in_pairs(advanced(pipes, dt, player_x)),
        newly_passed_count(pipes, dt, player_x) % 2 == 0,
    decreases pipes.len(),
{
    let after = advanced(pipes, dt, player_x);
    assert forall|i: int| 0 <= i < after.len() && i % 2 == 0 implies twins(
        #[trigger] after[i],
        after[i + 1],
    ) by {
        assert(twins(pipes[i], pipes[i + 1]));
    }
    if pipes.len() > 0 {
        let most = pipes.drop_last();
        let rest = most.drop_last();
        assert(twins(pipes[pipes.len() - 2], pipes[pipes.len() - 2 + 1]));
        assert forall|i: int| 0 <= i < rest.len() && i % 2 == 0 implies twins(
            #[trigger] rest[i],
            rest[i + 1],
        ) by {
            assert(twins(pipes[i], pipes[i + 1]));
        }
        lemma_pairs_are_counted_together(rest, dt, player_x);
        assert(newly_passed_count(most, dt, player_x) == newly_passed_count(rest, dt, player_x)
            + if most.last().moved(dt).newly_passed(player_x) {
            1nat
        } else {
            0nat
        });
    }
}

/// The pipes of a session keep the order in which they were made, and the
/// two of a pair stay next to each other: a session whose pipes stand pair
/// by pair is left so by every frame.
pub proof fn lemma_step_keeps_pairs(
    session: SessionView,
    player: Player,
    dt: int,
    viewport: Size,
    draw: GapDraw,
)
    requires
        in_pairs(session.obstacles),
    ensures
        in_pairs(session.stepped(player, dt, viewport, draw).obstacles),
        session.passed_in_frame(player, dt) % 2 == 0,
{
    let live = session.live_obstacles(player);
    let x = player.pos.x as int;
    lemma_pairs_are_counted_together(live, dt, x);
    lemma_on_screen_keeps_pairs(advanced(live, dt, x));
    let after = session.stepped(player, dt, viewport, draw);
    let pair = placed_pair(viewport.w, session.pipe_size, after.obstacle_speed, draw);
    lemma_in_pairs_push(on_screen(advanced(live, dt, x)), pair.0, pair.1);
}

} // verus!
