use vstd::prelude::*;
use crate::game_state::GameState;
use crate::labels::{
    entity_kind, has_prefix, is_player_label, kind_of, lemma_player_label_kind, names_player,
    starts_with, EntityKind,
};
use crate::motion::{
    coord_ok, extent_ok, obstacle_expired, roadline_x, scroll_roadline, steer, steered_tilt,
    steered_y, travel, travel_spec, Tilt, MAX_TRAVEL,
    MOVEMENT_SPEED, ROAD_SPEED,
};
use crate::spawn::{in_spawn_zone, spawn_point};

verus! {

/// A sprite of the scene, at (x, y) milli-pixels from the window's centre.
pub struct Sprite {
    pub label: String,
    pub x: i64,
    pub y: i64,
    pub tilt: Tilt,
}

/// The sprites of the game, the window's size in milli-pixels, and the text
/// of the health label.
pub struct Scene {
    pub sprites: Vec<Sprite>,
    pub width: i64,
    pub height: i64,
    pub health_label: String,
}

/// Two sprites began or stopped touching.
pub struct CollisionEvent {
    pub first: String,
    pub second: String,
    pub begin: bool,
}

/// What happened since the last frame: the time elapsed, the keys held, and
/// the collisions reported.
pub struct FrameInput {
    pub elapsed_micros: u64,
    pub up: bool,
    pub down: bool,
    pub collisions: Vec<CollisionEvent>,
}

/// What the host is to do after a frame: play the impact sound once per
/// crash, and show the end of the game (stop the music, play the closing
/// jingle, add the "Game Over" label) when `game_over` is set.
#[derive(Clone, Copy, Debug, PartialEq, Eq, Structural)]
pub struct FrameEffects {
    pub impacts: usize,
    pub game_over: bool,
}

impl Scene {
    /// The window's sides and every sprite's position lie within the bounds
    /// that keep a frame's arithmetic exact.
    pub open spec fn wf(&self) -> bool {
        &&& extent_ok(self.width as int)
        &&& extent_ok(self.height as int)
        &&& forall|i: int|
            0 <= i < self.sprites@.len() ==> coord_ok((#[trigger] self.sprites@[i]).x as int)
                && coord_ok(self.sprites@[i].y as int)
    }
}

/// The decimal digit `d`.
pub open spec fn digit_char(d: nat) -> char {
    seq!['0', '1', '2', '3', '4', '5', '6', '7', '8', '9'][d as int]
}

/// `n` written in decimal, without sign or leading zeros.
pub open spec fn decimal(n: nat) -> Seq<char>
    decreases n,
{
    if n < 10 {
        seq![digit_char(n)]
    } else {
        decimal(n / 10).push(digit_char(n % 10))
    }
}

/// The text of the health label.
pub open spec fn caption(health: nat) -> Seq<char> {
    "Health: "@ + decimal(health)
}

/// Relies on std's `ToString` for `u32` (its `Display`): the decimal digits,
/// with no sign, padding or leading zeros.
#[verifier::external_body]
fn decimal_string(n: u32) -> (r: String)
    ensures
        r@ == decimal(n as nat),
{
    n.to_string()
}

/// The text of the health label for the given health.
pub fn health_caption(health: u32) -> (r: String)
    ensures
        r@ == caption(health as nat),
{
    let digits = decimal_string(health);
    let mut text = String::from_str("Health: ");
    text.append(digits.as_str());
    text
}

/// A collision that hurts: it begins, and one side is the player.
pub open spec fn strikes(e: CollisionEvent) -> bool {
    e.begin && (has_prefix(e.first@, "player"@) || has_prefix(e.second@, "player"@))
}

/// How many of the events hurt.
pub open spec fn strike_count(evs: Seq<CollisionEvent>) -> nat
    decreases evs.len(),
{
    if evs.len() == 0 {
        0
    } else {
        strike_count(evs.drop_last()) + if strikes(evs.last()) {
            1nat
        } else {
            0nat
        }
    }
}

/// The event hurts, and the obstacle with this label takes part in it.
pub open spec fn event_hits(label: Seq<char>, e: CollisionEvent) -> bool {
    strikes(e) && kind_of(label) == EntityKind::Obstacle && (e.first@ == label || e.second@
        == label)
}

/// The obstacle with this label was in some crash among the events.
pub open spec fn struck(label: Seq<char>, evs: Seq<CollisionEvent>) -> bool
    decreases evs.len(),
{
    evs.len() > 0 && (struck(label, evs.drop_last()) || event_hits(label, evs.last()))
}

/// Only obstacles are struck.
proof fn lemma_struck_obstacle(label: Seq<char>, evs: Seq<CollisionEvent>)
    requires
        struck(label, evs),
    ensures
        kind_of(label) == EntityKind::Obstacle,
    decreases evs.len(),
{
    if struck(label, evs.drop_last()) {
        lemma_struck_obstacle(label, evs.drop_last());
    }
}

/// Health after the given number of crashes, one point each, never below zero.
pub open spec fn health_after(health: int, crashes: int) -> int {
    if health > crashes {
        health - crashes
    } else {
        0
    }
}

/// `t` is `s` after the scrolling step of a frame.
pub open spec fn scrolled(s: Sprite, t: Sprite, dx: int, width: int, height: int) -> bool {
    &&& t.label == s.label
    &&& t.tilt == s.tilt
    &&& match kind_of(s.label@) {
        EntityKind::Roadline => t.x == roadline_x(s.x as int, dx, width) && t.y == s.y,
        EntityKind::Obstacle => if obstacle_expired(s.x as int, dx, width) {
            in_spawn_zone(t.x as int, t.y as int, width, height)
        } else {
            t.x == s.x - dx && t.y == s.y
        },
        _ => t.x == s.x && t.y == s.y,
    }
}

/// An obstacle's position after a frame in which the road moved `dx` to the
/// left: moved left, or sent back to the spawn zone once it reaches the
/// left edge.
pub fn scroll_obstacle(x: i64, y: i64, dx: i64, width: i64, height: i64) -> (r: (i64, i64))
    requires
        coord_ok(x as int),
        0 <= dx <= MAX_TRAVEL,
        extent_ok(width as int),
        extent_ok(height as int),
    ensures
        obstacle_expired(x as int, dx as int, width as int) ==> in_spawn_zone(
            r.0 as int,
            r.1 as int,
            width as int,
            height as int,
        ),
        !obstacle_expired(x as int, dx as int, width as int) ==> r.0 == x - dx && r.1 == y,
{
    let moved = x - dx;
    // the left-edge test `2 * moved <= -width`, kept within `i64`
    if moved <= -width - moved {
        spawn_point(width, height)
    } else {
        (moved, y)
    }
}

/// The scrolling step: roadlines and obstacles move left by `dx`.
fn scroll_all(sprites: &mut Vec<Sprite>, dx: i64, width: i64, height: i64)
    requires
        extent_ok(width as int),
        extent_ok(height as int),
        0 <= dx <= MAX_TRAVEL,
        forall|i: int|
            0 <= i < old(sprites)@.len() ==> coord_ok((#[trigger] old(sprites)@[i]).x as int)
                && coord_ok(old(sprites)@[i].y as int),
    ensures
        final(sprites)@.len() == old(sprites)@.len(),
        forall|i: int|
            0 <= i < old(sprites)@.len() ==> scrolled(
                #[trigger] old(sprites)@[i],
                final(sprites)@[i],
                dx as int,
                width as int,
                height as int,
            ),
{
    let ghost s0 = sprites@;
    let n = sprites.len();
    let mut i: usize = 0;
    while i < n
        invariant
            n == s0.len() == sprites@.len(),
            i <= n,
            extent_ok(width as int),
            extent_ok(height as int),
            0 <= dx <= MAX_TRAVEL,
            forall|k: int| 0 <= k < n ==> coord_ok((#[trigger] s0[k]).x as int) && coord_ok(s0[k].y as int),
            forall|k: int|
                0 <= k < i ==> scrolled(
                    #[trigger] s0[k],
                    sprites@[k],
                    dx as int,
                    width as int,
                    height as int,
                ),
            forall|k: int| i <= k < n ==> #[trigger] sprites@[k] == s0[k],
        decreases n - i,
    {
        let kind = entity_kind(sprites[i].label.as_str());
        if kind == EntityKind::Roadline {
            let x = scroll_roadline(sprites[i].x, dx, width);
            sprites[i].x = x;
        } else if kind == EntityKind::Obstacle {
            let (x, y) = scroll_obstacle(sprites[i].x, sprites[i].y, dx, width, height);
            sprites[i].x = x;
            sprites[i].y = y;
        }
        i = i + 1;
    }
}

/// `t` is `s` after the crash step of a frame with these events.
pub open spec fn collided(
    s: Sprite,
    t: Sprite,
    evs: Seq<CollisionEvent>,
    width: int,
    height: int,
) -> bool {
    &&& t.label == s.label
    &&& t.tilt == s.tilt
    &&& if struck(s.label@, evs) {
        in_spawn_zone(t.x as int, t.y as int, width, height)
    } else {
        t.x == s.x && t.y == s.y
    }
}

/// Sends every sprite with the given label back to the spawn zone.
fn respawn_named(sprites: &mut Vec<Sprite>, label: &String, width: i64, height: i64)
    requires
        extent_ok(width as int),
        extent_ok(height as int),
    ensures
        final(sprites)@.len() == old(sprites)@.len(),
        forall|i: int|
            0 <= i < old(sprites)@.len() ==> {
                let s = #[trigger] old(sprites)@[i];
                let t = final(sprites)@[i];
                &&& t.label == s.label
                &&& t.tilt == s.tilt
                &&& if s.label@ == label@ {
                    in_spawn_zone(t.x as int, t.y as int, width as int, height as int)
                } else {
                    t.x == s.x && t.y == s.y
                }
            },
{
    let ghost s0 = sprites@;
    let n = sprites.len();
    let mut i: usize = 0;
    while i < n
        invariant
            n == s0.len() == sprites@.len(),
            i <= n,
            extent_ok(width as int),
            extent_ok(height as int),
            forall|k: int|
                0 <= k < i ==> {
                    let s = #[trigger] s0[k];
                    let t = sprites@[k];
                    &&& t.label == s.label
                    &&& t.tilt == s.tilt
                    &&& if s.label@ == label@ {
                        in_spawn_zone(t.x as int, t.y as int, width as int, height as int)
                    } else {
                        t.x == s.x && t.y == s.y
                    }
                },
            forall|k: int| i <= k < n ==> #[trigger] sprites@[k] == s0[k],
        decreases n - i,
    {
        if sprites[i].label == *label {
            let (x, y) = spawn_point(width, height);
            sprites[i].x = x;
            sprites[i].y = y;
        }
        i = i + 1;
    }
}

/// The crash step: each collision that begins and involves the player costs
/// one point of health (never going below zero), rewrites the health label,
/// sends each obstacle in it back to the spawn zone, and ends the game once
/// health is zero. Returns the number of such crashes.
fn apply_collisions(
    sprites: &mut Vec<Sprite>,
    state: &mut GameState,
    health_label: &mut String,
    events: &Vec<CollisionEvent>,
    width: i64,
    height: i64,
) -> (hits: usize)
    requires
        extent_ok(width as int),
        extent_ok(height as int),
        !old(state).lost,
    ensures
        final(sprites)@.len() == old(sprites)@.len(),
        forall|i: int|
            0 <= i < old(sprites)@.len() ==> collided(
                #[trigger] old(sprites)@[i],
                final(sprites)@[i],
                events@,
                width as int,
                height as int,
            ),
        hits == strike_count(events@),
        final(state).score == old(state).score,
        final(state).health == health_after(old(state).health as int, strike_count(events@) as int),
        final(state).lost == (strike_count(events@) > 0 && old(state).health <= strike_count(events@)),
        final(health_label)@ == if strike_count(events@) > 0 {
            caption(final(state).health as nat)
        } else {
            old(health_label)@
        },
{
    let ghost s0 = sprites@;
    let ghost st0 = *state;
    let ghost label0 = health_label@;
    let n = events.len();
    let mut hits: usize = 0;
    let mut j: usize = 0;
    proof {
        assert(events@.subrange(0, 0) =~= Seq::<CollisionEvent>::empty());
    }
    while j < n
        invariant
            n == events@.len(),
            j <= n,
            hits <= j,
            extent_ok(width as int),
            extent_ok(height as int),
            !st0.lost,
            sprites@.len() == s0.len(),
            forall|k: int|
                0 <= k < s0.len() ==> collided(
                    #[trigger] s0[k],
                    sprites@[k],
                    events@.subrange(0, j as int),
                    width as int,
                    height as int,
                ),
            hits == strike_count(events@.subrange(0, j as int)),
            state.score == st0.score,
            state.health == health_after(st0.health as int, hits as int),
            state.lost == (hits > 0 && st0.health <= hits),
            health_label@ == if hits > 0 {
                caption(state.health as nat)
            } else {
                label0
            },
        decreases n - j,
    {
        let ghost before = sprites@;
        let ghost done = events@.subrange(0, j as int);
        let ghost upto = events@.subrange(0, j as int + 1);
        let e = &events[j];
        proof {
            assert(upto.drop_last() =~= done);
            assert(upto.last() == *e);
        }
        let hurts = e.begin && (starts_with(e.first.as_str(), "player") || starts_with(
            e.second.as_str(),
            "player",
        ));
        if hurts {
            if entity_kind(e.first.as_str()) == EntityKind::Obstacle {
                respawn_named(sprites, &e.first, width, height);
            }
            let ghost mid = sprites@;
            if entity_kind(e.second.as_str()) == EntityKind::Obstacle {
                respawn_named(sprites, &e.second, width, height);
            }
            proof {
                assert forall|k: int| 0 <= k < s0.len() implies collided(
                    #[trigger] s0[k],
                    sprites@[k],
                    upto,
                    width as int,
                    height as int,
                ) by {
                    assert(collided(s0[k], before[k], done, width as int, height as int));
                }
            }
            if state.health > 0 {
                state.health = state.health - 1;
            }
            *health_label = health_caption(state.health);
            if state.health == 0 {
                state.lost = true;
            }
            hits = hits + 1;
        } else {
            proof {
                assert forall|k: int| 0 <= k < s0.len() implies collided(
                    #[trigger] s0[k],
                    sprites@[k],
                    upto,
                    width as int,
                    height as int,
                ) by {
                    assert(collided(s0[k], before[k], done, width as int, height as int));
                }
            }
        }
        j = j + 1;
    }
    proof {
        assert(events@.subrange(0, n as int) =~= events@);
    }
    hits
}

/// `t` is `s` after the steering step of a frame.
pub open spec fn steered(s: Sprite, t: Sprite, up: bool, down: bool, step: int, height: int) -> bool {
    &&& t.label == s.label
    &&& t.x == s.x
    &&& if is_player_label(s.label@) {
        t.y == steered_y(s.y as int, up, down, step, height) && t.tilt == steered_tilt(
            s.y as int,
            up,
            down,
            step,
            height,
        )
    } else {
        t.y == s.y && t.tilt == s.tilt
    }
}

/// The steering step: the player's car is levelled, then moved by the keys held.
fn steer_player(sprites: &mut Vec<Sprite>, up: bool, down: bool, step: i64, height: i64)
    requires
        extent_ok(height as int),
        0 <= step <= MAX_TRAVEL,
        forall|i: int|
            0 <= i < old(sprites)@.len() && is_player_label((#[trigger] old(sprites)@[i]).label@)
                ==> coord_ok(old(sprites)@[i].y as int),
    ensures
        final(sprites)@.len() == old(sprites)@.len(),
        forall|i: int|
            0 <= i < old(sprites)@.len() ==> steered(
                #[trigger] old(sprites)@[i],
                final(sprites)@[i],
                up,
                down,
                step as int,
                height as int,
            ),
{
    let ghost s0 = sprites@;
    let n = sprites.len();
    let mut i: usize = 0;
    while i < n
        invariant
            n == s0.len() == sprites@.len(),
            i <= n,
            extent_ok(height as int),
            0 <= step <= MAX_TRAVEL,
            forall|k: int|
                0 <= k < n && is_player_label((#[trigger] s0[k]).label@) ==> coord_ok(
                    s0[k].y as int,
                ),
            forall|k: int|
                0 <= k < i ==> steered(
                    #[trigger] s0[k],
                    sprites@[k],
                    up,
                    down,
                    step as int,
                    height as int,
                ),
            forall|k: int| i <= k < n ==> #[trigger] sprites@[k] == s0[k],
        decreases n - i,
    {
        if names_player(sprites[i].label.as_str()) {
            let (y, tilt) = steer(sprites[i].y, up, down, step, height);
            sprites[i].y = y;
            sprites[i].tilt = tilt;
        }
        i = i + 1;
    }
}

/// `t` is `s` after a whole frame in which the road moved `dx`, the player
/// could move `step`, and these events were reported.
pub open spec fn frame_sprite(
    s: Sprite,
    t: Sprite,
    dx: int,
    step: int,
    width: int,
    height: int,
    input: FrameInput,
) -> bool {
    &&& t.label == s.label
    &&& if is_player_label(s.label@) {
        &&& t.x == s.x
        &&& t.y == steered_y(s.y as int, input.up, input.down, step, height)
        &&& t.tilt == steered_tilt(s.y as int, input.up, input.down, step, height)
    } else {
        &&& t.tilt == s.tilt
        &&& match kind_of(s.label@) {
            EntityKind::Roadline => t.x == roadline_x(s.x as int, dx, width) && t.y == s.y,
            EntityKind::Obstacle => if obstacle_expired(s.x as int, dx, width) || struck(
                s.label@,
                input.collisions@,
            ) {
                in_spawn_zone(t.x as int, t.y as int, width, height)
            } else {
                t.x == s.x - dx && t.y == s.y
            },
            _ => t.x == s.x && t.y == s.y,
        }
    }
}

/// The whole effect of a frame on a game that was not yet lost.
pub open spec fn frame_played(
    scene: Scene,
    scene2: Scene,
    state: GameState,
    state2: GameState,
    input: FrameInput,
    fx: FrameEffects,
) -> bool {
    let dx = travel_spec(ROAD_SPEED as int, input.elapsed_micros as int);
    let step = travel_spec(MOVEMENT_SPEED as int, input.elapsed_micros as int);
    let crashes = strike_count(input.collisions@);
    &&& scene2.width == scene.width
    &&& scene2.height == scene.height
    &&& scene2.sprites@.len() == scene.sprites@.len()
    &&& forall|i: int|
        0 <= i < scene.sprites@.len() ==> frame_sprite(
            #[trigger] scene.sprites@[i],
            scene2.sprites@[i],
            dx,
            step,
            scene.width as int,
            scene.height as int,
            input,
        )
    &&& state2.score == state.score
    &&& state2.health == health_after(state.health as int, crashes as int)
    &&& state2.lost == (crashes > 0 && state.health <= crashes)
    &&& scene2.health_label@ == if crashes > 0 {
        caption(state2.health as nat)
    } else {
        scene.health_label@
    }
    &&& fx.impacts == crashes
    &&& fx.game_over == state2.lost
}

/// Runs one frame of the game: scrolls the road and the obstacles, handles
/// the crashes reported, and steers the player. A game already lost is left
/// as it is.
pub fn game_logic(scene: &mut Scene, state: &mut GameState, input: &FrameInput) -> (fx:
    FrameEffects)
    requires
        old(scene).wf(),
    ensures
        old(state).lost ==> *final(scene) == *old(scene) && *final(state) == *old(state) && fx
            == (FrameEffects { impacts: 0, game_over: false }),
        !old(state).lost ==> frame_played(
            *old(scene),
            *final(scene),
            *old(state),
            *final(state),
            *input,
            fx,
        ),
{
    if state.lost {
        return FrameEffects { impacts: 0, game_over: false };
    }
    let ghost s0 = scene.sprites@;
    let dx = travel(ROAD_SPEED, input.elapsed_micros);
    let step = travel(MOVEMENT_SPEED, input.elapsed_micros);
    let width = scene.width;
    let height = scene.height;
    scroll_all(&mut scene.sprites, dx, width, height);
    let ghost s1 = scene.sprites@;
    let hits = apply_collisions(
        &mut scene.sprites,
        state,
        &mut scene.health_label,
        &input.collisions,
        width,
        height,
    );
    let ghost s2 = scene.sprites@;
    proof {
        assert forall|i: int|
            0 <= i < s2.len() && is_player_label((#[trigger] s2[i]).label@) implies coord_ok(
            s2[i].y as int,
        ) by {
            assert(scrolled(s0[i], s1[i], dx as int, width as int, height as int));
            assert(collided(s1[i], s2[i], input.collisions@, width as int, height as int));
            lemma_player_label_kind(s0[i].label@);
            if struck(s0[i].label@, input.collisions@) {
                lemma_struck_obstacle(s0[i].label@, input.collisions@);
            }
            assert(coord_ok(s0[i].y as int));
        }
    }
    steer_player(&mut scene.sprites, input.up, input.down, step, height);
    proof {
        assert forall|i: int| 0 <= i < s0.len() implies frame_sprite(
            #[trigger] s0[i],
            scene.sprites@[i],
            dx as int,
            step as int,
            width as int,
            height as int,
            *input,
        ) by {
            assert(scrolled(s0[i], s1[i], dx as int, width as int, height as int));
            assert(collided(s1[i], s2[i], input.collisions@, width as int, height as int));
            assert(steered(s2[i], scene.sprites@[i], input.up, input.down, step as int, height as int));
            if is_player_label(s0[i].label@) {
                lemma_player_label_kind(s0[i].label@);
            }
            if struck(s0[i].label@, input.collisions@) {
                lemma_struck_obstacle(s0[i].label@, input.collisions@);
            }
        }
    }
    FrameEffects { impacts: hits, game_over: state.lost }
}

} // verus!
