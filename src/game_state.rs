use vstd::prelude::*;

verus! {

/// Starting health of a new game.
pub const INITIAL_HEALTH: u32 = 5;

/// What the game remembers from one frame to the next.
pub struct GameState {
    pub score: u32,
    pub health: u32,
    pub lost: bool,
}

impl Default for GameState {
    /// A fresh game: no score, full health, not lost.
    fn default() -> (r: Self)
        ensures
            r.score == 0,
            r.health == INITIAL_HEALTH,
            !r.lost,
    {
        GameState { score: 0, health: INITIAL_HEALTH, lost: false }
    }
}

} // verus!
