use vstd::prelude::*;
use crate::frame::{caption, frame_played, strike_count, strikes, FrameEffects, FrameInput, Scene};
use crate::game_state::GameState;
use crate::motion::{roadline_x, steered_y};

verus! {

/// A roadline inside the window stays inside it after a frame that moves
/// the road by less than one window width: it is never lost off screen.
pub proof fn lemma_roadline_stays_on_road(x: int, dx: int, width: int)
    requires
        width >= 2,
        0 <= dx < width,
        -width < 2 * x <= width,
    ensures
        -width < 2 * roadline_x(x, dx, width) <= width,
{
}

/// One crash in a frame of a game not yet lost costs exactly one point of
/// health, and the health label then shows the new health.
pub proof fn lemma_single_crash(
    scene: Scene,
    scene2: Scene,
    state: GameState,
    state2: GameState,
    input: FrameInput,
    fx: FrameEffects,
)
    requires
        !state.lost,
        state.health > 0,
        input.collisions@.len() == 1,
        strikes(input.collisions@[0]),
        frame_played(scene, scene2, state, state2, input, fx),
    ensures
        state2.health == state.health - 1,
        scene2.health_label@ == caption(state2.health as nat),
        fx.impacts == 1,
        state2.lost == (state.health == 1),
{
    let evs = input.collisions@;
    assert(evs.drop_last().len() == 0);
    assert(strike_count(evs.drop_last()) == 0);
    assert(evs.last() == evs[0]);
    assert(strike_count(evs) == 1);
}

/// A frame that brings health from above zero down to zero ends the game.
pub proof fn lemma_zero_health_loses(
    scene: Scene,
    scene2: Scene,
    state: GameState,
    state2: GameState,
    input: FrameInput,
    fx: FrameEffects,
)
    requires
        !state.lost,
        state.health > 0,
        frame_played(scene, scene2, state, state2, input, fx),
        state2.health == 0,
    ensures
        state2.lost,
        fx.game_over,
{
}

/// The keys move the player only from inside the window's height, so a car
/// within one step of the window's top and bottom edges stays within one
/// step of them.
pub proof fn lemma_player_band(y: int, up: bool, down: bool, step: int, height: int)
    requires
        height >= 2,
        step >= 0,
        -(height / 2) - step <= y <= height / 2 + step,
    ensures
        -(height / 2) - step <= steered_y(y, up, down, step, height) <= height / 2 + step,
{
}

} // verus!
