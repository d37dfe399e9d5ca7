use vstd::prelude::*;

use crate::directions::Direction;
use crate::game::{resolves_to, ticked, Game};

verus! {

/// One firing of the scheduler, with both shared cells already held: the
/// queued headings feed one tick of the game and the queue is left empty.
pub fn tick(game: &mut Game, directions: &mut Vec<Direction>)
    requires
        old(game).wf(),
    ensures
        final(game).wf(),
        final(directions)@.len() == 0,
        exists|h: Direction|
            resolves_to(old(game).snake.direction, old(directions)@, h)
                && #[trigger] ticked(*old(game), *final(game), h),
{
    let mut queued: Vec<Direction> = Vec::new();
    std::mem::swap(directions, &mut queued);
    game.run(queued);
}

} // verus!
