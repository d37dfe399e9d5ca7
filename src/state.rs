use vstd::prelude::*;

use std::sync::{Arc, Mutex};

use crate::directions::Direction;
use crate::game::Game;

verus! {

#[verifier::external_type_specification]
#[verifier::external_body]
#[verifier::reject_recursive_types(T)]
pub struct ExMutex<T: ?Sized>(Mutex<T>);

/// Relies on `std::sync::Mutex::new`: an unlocked mutex that owns `t`.
pub assume_specification<T>[ Mutex::<T>::new ](t: T) -> Mutex<T>;

/// The two cells shared between the request handlers and the scheduler,
/// each behind its own lock: the queued headings and the game.
#[derive(Clone, Debug)]
pub struct State {
    pub directions: Arc<Mutex<Vec<Direction>>>,
    pub game: Arc<Mutex<Game>>,
}

impl State {
    /// An empty queue and a new game.
    pub fn new() -> (r: State) {
        State {
            directions: Arc::new(Mutex::new(Vec::new())),
            game: Arc::new(Mutex::new(Game::new())),
        }
    }
}

} // verus!
