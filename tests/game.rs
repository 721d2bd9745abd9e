use car_race::frame::{game_logic, health_caption, scroll_obstacle, CollisionEvent, FrameEffects, FrameInput, Scene, Sprite};
use car_race::labels::{entity_kind, names_player, starts_with, EntityKind};
use car_race::motion::{scroll_roadline, steer, travel, Tilt, MOVEMENT_SPEED, ROAD_SPEED};
use car_race::spawn::spawn_point;
use car_race::GameState;

const WIDTH: i64 = 500_000;
const HEIGHT: i64 = 300_000;
const FRAME: u64 = 16_667;

fn sprite(label: &str, x: i64, y: i64) -> Sprite {
    Sprite { label: label.to_string(), x, y, tilt: Tilt::Level }
}

fn scene() -> Scene {
    Scene {
        sprites: vec![
            sprite("player", -180_000, 0),
            sprite("roadline_1", -200_000, 0),
            sprite("obstacle0", 100_000, 50_000),
            sprite("obstacle1", 400_000, -20_000),
            sprite("health_icon", 10, 20),
        ],
        width: WIDTH,
        height: HEIGHT,
        health_label: "Health: 5".to_string(),
    }
}

fn crash(a: &str, b: &str, begin: bool) -> CollisionEvent {
    CollisionEvent { first: a.to_string(), second: b.to_string(), begin }
}

fn input(collisions: Vec<CollisionEvent>) -> FrameInput {
    FrameInput { elapsed_micros: FRAME, up: false, down: false, collisions }
}

fn find<'a>(s: &'a Scene, label: &str) -> &'a Sprite {
    s.sprites.iter().find(|p| p.label == label).unwrap()
}

fn in_zone(x: i64, y: i64) -> bool {
    WIDTH <= x && 2 * x < 3 * WIDTH && -HEIGHT <= 2 * y && 2 * y < HEIGHT
}

#[test]
fn default_state_is_a_fresh_game() {
    let s = GameState::default();
    assert_eq!(s.score, 0);
    assert_eq!(s.health, 5);
    assert!(!s.lost);
}

#[test]
fn travel_rounds_down_to_milli_pixels() {
    assert_eq!(travel(ROAD_SPEED, FRAME), 5_000);
    assert_eq!(travel(MOVEMENT_SPEED, FRAME), 2_500);
    assert_eq!(travel(ROAD_SPEED, 0), 0);
    assert_eq!(travel(ROAD_SPEED, 1_000_000), 300_000);
}

#[test]
fn roadline_wraps_at_left_edge() {
    assert_eq!(scroll_roadline(-248_000, 5_000, WIDTH), 247_000);
    assert_eq!(scroll_roadline(-245_000, 5_000, WIDTH), 250_000);
    assert_eq!(scroll_roadline(-244_000, 5_000, WIDTH), -249_000);
    assert_eq!(scroll_roadline(100_000, 5_000, WIDTH), 95_000);
}

#[test]
fn obstacle_scrolls_or_respawns() {
    assert_eq!(scroll_obstacle(100_000, 7, 5_000, WIDTH, HEIGHT), (95_000, 7));
    for _ in 0..50 {
        let (x, y) = scroll_obstacle(-249_000, 7, 5_000, WIDTH, HEIGHT);
        assert!(in_zone(x, y));
    }
}

#[test]
fn spawn_points_lie_in_spawn_zone() {
    for _ in 0..200 {
        let (x, y) = spawn_point(WIDTH, HEIGHT);
        assert!(in_zone(x, y));
    }
    for _ in 0..20 {
        let (x, y) = spawn_point(2, 2);
        assert_eq!(x, 2);
        assert!(y == -1 || y == 0);
    }
}

#[test]
fn steering_moves_only_from_inside_the_window() {
    assert_eq!(steer(0, true, false, 2_500, HEIGHT), (2_500, Tilt::Up));
    assert_eq!(steer(150_000, true, false, 2_500, HEIGHT), (152_500, Tilt::Up));
    assert_eq!(steer(152_500, true, false, 2_500, HEIGHT), (152_500, Tilt::Level));
    assert_eq!(steer(-150_000, false, true, 2_500, HEIGHT), (-152_500, Tilt::Down));
    assert_eq!(steer(-152_500, false, true, 2_500, HEIGHT), (-152_500, Tilt::Level));
    assert_eq!(steer(0, true, true, 2_500, HEIGHT), (0, Tilt::Down));
    assert_eq!(steer(152_500, true, true, 2_500, HEIGHT), (150_000, Tilt::Down));
    assert_eq!(steer(9, false, false, 2_500, HEIGHT), (9, Tilt::Level));
}

#[test]
fn labels_name_kinds() {
    assert!(starts_with("roadline_3", "roadline"));
    assert!(!starts_with("road", "roadline"));
    assert!(starts_with("abc", ""));
    assert_eq!(entity_kind("roadline_3"), EntityKind::Roadline);
    assert_eq!(entity_kind("obstacle2"), EntityKind::Obstacle);
    assert_eq!(entity_kind("player"), EntityKind::Player);
    assert_eq!(entity_kind("player2"), EntityKind::Player);
    assert_eq!(entity_kind("health_label"), EntityKind::Scenery);
    assert!(names_player("player"));
    assert!(!names_player("player2"));
    assert!(!names_player("playe"));
}

#[test]
fn one_crash_costs_one_health() {
    let mut sc = scene();
    let mut st = GameState::default();
    let fx = game_logic(&mut sc, &mut st, &input(vec![crash("player", "obstacle0", true)]));
    assert_eq!(st.health, 4);
    assert_eq!(sc.health_label, "Health: 4");
    assert!(!st.lost);
    assert_eq!(st.score, 0);
    assert_eq!(fx, FrameEffects { impacts: 1, game_over: false });
    let o = find(&sc, "obstacle0");
    assert!(in_zone(o.x, o.y));
    let other = find(&sc, "obstacle1");
    assert_eq!((other.x, other.y), (395_000, -20_000));
}

#[test]
fn five_crashes_end_the_game_once() {
    let mut sc = scene();
    let mut st = GameState::default();
    let mut endings = 0;
    for round in 1..=5u32 {
        let fx = game_logic(&mut sc, &mut st, &input(vec![crash("obstacle1", "player", true)]));
        assert_eq!(st.health, 5 - round);
        assert_eq!(sc.health_label, format!("Health: {}", 5 - round));
        assert_eq!(fx.impacts, 1);
        if fx.game_over {
            endings += 1;
        }
    }
    assert_eq!(st.health, 0);
    assert!(st.lost);
    for _ in 0..3 {
        let fx = game_logic(&mut sc, &mut st, &input(vec![crash("player", "obstacle0", true)]));
        if fx.game_over {
            endings += 1;
        }
    }
    assert_eq!(endings, 1);
    assert_eq!(st.health, 0);
    assert_eq!(sc.health_label, "Health: 0");
}

#[test]
fn lost_game_is_frozen() {
    let mut sc = scene();
    let mut st = GameState { score: 7, health: 2, lost: true };
    let mut inp = input(vec![crash("player", "obstacle0", true)]);
    inp.up = true;
    let fx = game_logic(&mut sc, &mut st, &inp);
    assert_eq!(fx, FrameEffects { impacts: 0, game_over: false });
    assert_eq!((st.score, st.health, st.lost), (7, 2, true));
    let fresh = scene();
    for (a, b) in sc.sprites.iter().zip(fresh.sprites.iter()) {
        assert_eq!((&a.label, a.x, a.y, a.tilt), (&b.label, b.x, b.y, b.tilt));
    }
    assert_eq!(sc.health_label, "Health: 5");
}

#[test]
fn ending_and_harmless_collisions_do_nothing() {
    let mut sc = scene();
    let mut st = GameState::default();
    let fx = game_logic(
        &mut sc,
        &mut st,
        &input(vec![crash("player", "obstacle0", false), crash("obstacle0", "obstacle1", true)]),
    );
    assert_eq!(fx, FrameEffects { impacts: 0, game_over: false });
    assert_eq!(st.health, 5);
    assert_eq!(sc.health_label, "Health: 5");
    assert_eq!(find(&sc, "obstacle0").x, 95_000);
}

#[test]
fn two_crashes_in_one_frame() {
    let mut sc = scene();
    let mut st = GameState::default();
    let fx = game_logic(
        &mut sc,
        &mut st,
        &input(vec![crash("player", "obstacle0", true), crash("obstacle1", "player", true)]),
    );
    assert_eq!(fx, FrameEffects { impacts: 2, game_over: false });
    assert_eq!(st.health, 3);
    assert_eq!(sc.health_label, "Health: 3");
    for l in ["obstacle0", "obstacle1"] {
        let o = find(&sc, l);
        assert!(in_zone(o.x, o.y));
    }
}

#[test]
fn health_stays_at_zero() {
    let mut sc = scene();
    let mut st = GameState { score: 0, health: 1, lost: false };
    let fx = game_logic(
        &mut sc,
        &mut st,
        &input(vec![crash("player", "obstacle0", true), crash("player", "obstacle1", true)]),
    );
    assert_eq!(fx, FrameEffects { impacts: 2, game_over: true });
    assert_eq!(st.health, 0);
    assert!(st.lost);
    assert_eq!(sc.health_label, "Health: 0");
}

#[test]
fn frame_scrolls_road_and_steers_player() {
    let mut sc = scene();
    sc.sprites[1].x = -248_000;
    let mut st = GameState::default();
    let mut inp = input(vec![]);
    inp.up = true;
    let fx = game_logic(&mut sc, &mut st, &inp);
    assert_eq!(fx, FrameEffects { impacts: 0, game_over: false });
    assert_eq!(find(&sc, "roadline_1").x, 247_000);
    let p = find(&sc, "player");
    assert_eq!((p.x, p.y, p.tilt), (-180_000, 2_500, Tilt::Up));
    let icon = find(&sc, "health_icon");
    assert_eq!((icon.x, icon.y), (10, 20));
    assert_eq!(sc.health_label, "Health: 5");
}

#[test]
fn left_edge_is_half_the_true_width() {
    assert_eq!(scroll_roadline(-249_999, 1, 500_001), -250_000);
    assert_eq!(scroll_roadline(-250_000, 1, 500_001), 250_000);
    assert_eq!(scroll_obstacle(-249_999, 3, 1, 500_001, HEIGHT), (-250_000, 3));
    assert_eq!(travel(ROAD_SPEED, 4), 1);
    assert_eq!(travel(ROAD_SPEED, u64::MAX), 5_534_023_222_112_865_484);
}

#[test]
fn odd_window_spawn_zone_reaches_its_last_values() {
    let mut seen_x = false;
    let mut seen_y = false;
    for _ in 0..400 {
        let (x, y) = spawn_point(3, 3);
        assert!((3..=4).contains(&x));
        assert!((-1..=1).contains(&y));
        seen_x |= x == 4;
        seen_y |= y == 1;
    }
    assert!(seen_x && seen_y);
}

#[test]
fn health_caption_writes_decimal() {
    assert_eq!(health_caption(0), "Health: 0");
    assert_eq!(health_caption(4), "Health: 4");
    assert_eq!(health_caption(4_294_967_295), "Health: 4294967295");
}
