use vstd::prelude::*;
use crate::game_state::GameState;
use crate::tank::Tank;

verus! {

/// The root of a session: its state, to which tanks are registered.
pub struct Game {
    pub state: GameState,
}

impl Game {
    pub fn new(state: GameState) -> (r: Game)
        ensures
            r.state == state,
    {
        Game { state }
    }

    /// Registers a tank; its index in `state.tanks` identifies its player.
    pub fn add_tank(&mut self, tank: Tank)
        requires
            old(self).state.wf(),
            Tank::placeable(tank.position),
        ensures
            final(self).state.wf(),
            final(self).state.viewport == old(self).state.viewport,
            final(self).state.tanks@ == old(self).state.tanks@.push(tank),
    {
        self.state.tanks.push(tank);
    }
}

} // verus!
