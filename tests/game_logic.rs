use shm::frame::Session;
use shm::geometry::{check_collision_point_rect, check_collision_point_tri, shape_contains_point, HoverShape, Point};
use shm::hover::{
    first_hovered, hover_transition, set_hover_disabled, update_mouse_hover_disable, update_mouse_hover_state, Hoverable,
    MouseHoverTracker,
};
use shm::layout::{add_scene_change_button, scene_shapes, FULL_SCREEN};
use shm::pattern::{
    game_pads, generate_pattern, pattern_from_bytes, pattern_playback_system, user_game_system, GameState,
    PlaybackEvent, PressOutcome, PATTERN_LEN,
};
use shm::scene::{scene_change_button, scene_setup, Scene, SceneChange, SceneMachine, SceneSetup};
use shm::score::{parse_score, score_text, HighScore};
use shm::timer::{PatternAnimationTimer, NANOS_PER_SEC};

fn p(x: i32, y: i32) -> Point {
    Point::new(x, y)
}

fn shape(tracker: MouseHoverTracker, disabled: bool, target: Option<Scene>) -> Hoverable {
    Hoverable { tracker, origin: p(0, 0), disabled, target }
}

/// A playthrough in the input phase on a pattern of repeating 0, 1, 2, 3.
fn game_in_input(max_idx: u8, idx: u8) -> GameState {
    let raw: Vec<u8> = (0..PATTERN_LEN).map(|i| i as u8).collect();
    let mut g = GameState::new();
    g.start_with(&raw);
    g.interactive = true;
    g.max_idx = max_idx;
    g.idx = idx;
    g
}

#[test]
fn generated_pattern_has_fixed_length_and_symbols() {
    for _ in 0..20 {
        let pattern = generate_pattern();
        assert_eq!(pattern.len(), 255);
        assert!(pattern.iter().all(|&s| s < 4));
    }
}

#[test]
fn started_game_is_fresh() {
    let mut g = GameState::new();
    g.max_idx = 9;
    g.idx = 3;
    g.interactive = true;
    g.timer.elapsed_ns = 5;
    g.start();
    assert_eq!(g.pattern.len(), 255);
    assert!(g.pattern.iter().all(|&s| s < 4));
    assert_eq!((g.max_idx, g.idx, g.interactive, g.timer.elapsed_ns), (0, 0, false, 0));
    assert_eq!(g.timer.period_ns, NANOS_PER_SEC);
}

#[test]
fn pattern_bytes_map_to_symbols() {
    assert_eq!(pattern_from_bytes(&vec![0, 1, 2, 3, 4, 7, 254, 255]), vec![0, 1, 2, 3, 0, 3, 2, 3]);
    assert_eq!(pattern_from_bytes(&vec![]), Vec::<u8>::new());
}

#[test]
fn edge_flags_follow_hover_changes() {
    assert_eq!(hover_transition(false, true), (true, true, false));
    assert_eq!(hover_transition(true, false), (false, false, true));
    assert_eq!(hover_transition(true, true), (true, false, false));
    assert_eq!(hover_transition(false, false), (false, false, false));
    let mut t = MouseHoverTracker::from_rect(10, 10);
    t.set_hovered(true);
    assert!(t.is_hovered && t.is_just_hovered && !t.is_just_unhovered);
    t.set_hovered(true);
    assert!(t.is_hovered && !t.is_just_hovered && !t.is_just_unhovered);
    t.set_hovered(false);
    assert!(!t.is_hovered && !t.is_just_hovered && t.is_just_unhovered);
    t.set_hovered(false);
    assert!(!t.is_hovered && !t.is_just_hovered && !t.is_just_unhovered);
}

#[test]
fn rectangle_edges_are_inclusive() {
    let rect = HoverShape::Rectangle { width: 20, height: 10 };
    assert!(shape_contains_point(&rect, p(0, 0), p(10, 5)));
    assert!(shape_contains_point(&rect, p(0, 0), p(-10, -5)));
    assert!(shape_contains_point(&rect, p(0, 0), p(10, 0)));
    assert!(shape_contains_point(&rect, p(0, 0), p(0, -5)));
    assert!(!shape_contains_point(&rect, p(0, 0), p(11, 0)));
    assert!(!shape_contains_point(&rect, p(0, 0), p(0, 6)));
    // the origin shifts the rectangle
    assert!(shape_contains_point(&rect, p(100, -80), p(110, -75)));
    assert!(!shape_contains_point(&rect, p(100, -80), p(10, 5)));
    assert!(check_collision_point_rect(10, 5, 20, 10));
    assert!(!check_collision_point_rect(10, 6, 20, 10));
}

#[test]
fn triangle_edges_are_exclusive() {
    let (a, b, c) = (p(0, 0), p(-10, 10), p(10, 10));
    let tri = HoverShape::Triangle { a, b, c };
    assert!(shape_contains_point(&tri, p(0, 0), p(0, 5)));
    // midpoints of the three edges
    assert!(!shape_contains_point(&tri, p(0, 0), p(0, 10)));
    assert!(!shape_contains_point(&tri, p(0, 0), p(-5, 5)));
    assert!(!shape_contains_point(&tri, p(0, 0), p(5, 5)));
    // vertices
    assert!(!shape_contains_point(&tri, p(0, 0), p(0, 0)));
    assert!(!shape_contains_point(&tri, p(0, 0), p(10, 10)));
    assert!(!shape_contains_point(&tri, p(0, 0), p(0, -1)));
    // the vertex order does not matter
    assert!(check_collision_point_tri(0, 5, a, c, b));
    assert!(!check_collision_point_tri(0, 10, a, c, b));
}

#[test]
fn degenerate_triangle_is_never_hovered() {
    assert!(!check_collision_point_tri(1, 1, p(0, 0), p(1, 1), p(2, 2)));
    assert!(!check_collision_point_tri(0, 0, p(0, 0), p(0, 0), p(0, 0)));
}

#[test]
fn disabled_shapes_are_never_hovered() {
    let mut items = vec![shape(MouseHoverTracker::from_rect(100, 100), true, None)];
    update_mouse_hover_state(&mut items, Some(p(0, 0)));
    update_mouse_hover_disable(&mut items);
    assert!(!items[0].tracker.is_hovered);
    let mut items = vec![shape(MouseHoverTracker::from_rect(100, 100), false, None)];
    update_mouse_hover_state(&mut items, Some(p(0, 0)));
    update_mouse_hover_disable(&mut items);
    assert!(items[0].tracker.is_hovered && items[0].tracker.is_just_hovered);
    set_hover_disabled(&mut items, true);
    update_mouse_hover_state(&mut items, Some(p(0, 0)));
    update_mouse_hover_disable(&mut items);
    assert!(!items[0].tracker.is_hovered && items[0].tracker.is_just_unhovered);
}

#[test]
fn hover_stages_leave_the_other_shapes_alone() {
    let mut enabled = MouseHoverTracker::from_rect(100, 100);
    enabled.set_hovered(true);
    let mut disabled = MouseHoverTracker::from_rect(100, 100);
    disabled.set_hovered(true);
    let before = vec![shape(enabled, false, None), shape(disabled, true, None)];
    // the geometry stage recomputes the enabled shape only
    let mut items = before.clone();
    update_mouse_hover_state(&mut items, Some(p(500, 500)));
    assert!(!items[0].tracker.is_hovered && items[0].tracker.is_just_unhovered);
    assert_eq!(items[1], before[1]);
    // the force-unhover stage touches the disabled shape only
    let mut items = before.clone();
    update_mouse_hover_disable(&mut items);
    assert_eq!(items[0], before[0]);
    assert!(!items[1].tracker.is_hovered && items[1].tracker.is_just_unhovered);
}

#[test]
fn no_pointer_unhovers_everything() {
    let mut items = vec![shape(MouseHoverTracker::from_rect(100, 100), false, None)];
    update_mouse_hover_state(&mut items, Some(p(0, 0)));
    update_mouse_hover_state(&mut items, None);
    assert!(!items[0].tracker.is_hovered && items[0].tracker.is_just_unhovered);
}

#[test]
fn first_hovered_takes_the_earliest() {
    let mut items = vec![
        shape(MouseHoverTracker::from_rect(2, 2), false, None),
        shape(MouseHoverTracker::from_rect(100, 100), false, None),
        shape(MouseHoverTracker::from_rect(100, 100), false, None),
    ];
    assert_eq!(first_hovered(&items), None);
    update_mouse_hover_state(&mut items, Some(p(20, 20)));
    assert_eq!(first_hovered(&items), Some(1));
}

#[test]
fn timer_accumulates_frame_time() {
    let mut t = PatternAnimationTimer::new(1000);
    assert!(!t.tick(400));
    assert!(!t.tick(599));
    assert_eq!(t.elapsed_ns, 999);
    assert!(t.tick(1));
    assert_eq!(t.elapsed_ns, 0);
    assert!(t.tick(2500));
    assert_eq!(t.elapsed_ns, 500);
    assert!(t.tick(u64::MAX));
    assert_eq!(t.elapsed_ns, ((500u128 + u64::MAX as u128) % 1000) as u64);
    t.reset();
    assert_eq!(t.elapsed_ns, 0);
    assert_eq!(t.period_ns, 1000);
}

#[test]
fn playback_cues_prefix_then_hands_over() {
    let raw: Vec<u8> = (0..PATTERN_LEN).map(|i| (i * 7) as u8).collect();
    let mut g = GameState::new();
    g.start_with(&raw);
    g.max_idx = 1;
    let mut pads = game_pads(400, 300);
    assert_eq!(g.playback_tick(NANOS_PER_SEC / 2), PlaybackEvent::Idle);
    assert_eq!(pattern_playback_system(&mut g, &mut pads, NANOS_PER_SEC / 2), PlaybackEvent::Cue(0));
    assert_eq!(pattern_playback_system(&mut g, &mut pads, NANOS_PER_SEC), PlaybackEvent::Cue(3));
    assert!(pads.iter().all(|h| h.disabled));
    assert_eq!(pattern_playback_system(&mut g, &mut pads, NANOS_PER_SEC), PlaybackEvent::BeginInput);
    assert!(g.interactive);
    assert_eq!(g.idx, 0);
    assert!(pads.iter().all(|h| !h.disabled));
    assert_eq!(pattern_playback_system(&mut g, &mut pads, NANOS_PER_SEC), PlaybackEvent::Idle);
}

#[test]
fn correct_presses_grow_the_pattern() {
    let mut g = game_in_input(0, 0);
    for round in 0..5u8 {
        assert_eq!(g.max_idx, round);
        g.interactive = true;
        g.timer.elapsed_ns = 123;
        for k in 0..=round {
            let sym = g.pattern[k as usize];
            let out = g.press(sym);
            if k < round {
                assert_eq!(out, PressOutcome::Correct(sym));
                assert_eq!(g.idx, k + 1);
                assert!(g.interactive);
            } else {
                assert_eq!(out, PressOutcome::Completed(sym));
            }
        }
        assert_eq!(g.max_idx, round + 1);
        assert_eq!(g.idx, 0);
        assert!(!g.interactive);
        assert_eq!(g.timer.elapsed_ns, 0);
    }
}

#[test]
fn completed_prefix_disables_pads() {
    let mut g = game_in_input(0, 0);
    let mut scenes = SceneMachine { current: Scene::Game, next: Scene::Game };
    let mut pads = game_pads(400, 300);
    set_hover_disabled(&mut pads, false);
    // the top pad holds symbol 0, which is the first symbol
    update_mouse_hover_state(&mut pads, Some(p(0, 200)));
    assert_eq!(user_game_system(&mut g, &mut scenes, &mut pads, true), PressOutcome::Completed(0));
    assert!(pads.iter().all(|h| h.disabled));
    assert_eq!(scenes.next, Scene::Game);
    assert_eq!(g.max_idx, 1);
}

#[test]
fn wrong_press_requests_score_scene() {
    let mut g = game_in_input(2, 1);
    assert_eq!(g.pattern[1], 1);
    let mut scenes = SceneMachine { current: Scene::Game, next: Scene::Game };
    let mut pads = game_pads(400, 300);
    set_hover_disabled(&mut pads, false);
    // the bottom pad holds symbol 2
    update_mouse_hover_state(&mut pads, Some(p(0, -200)));
    assert_eq!(user_game_system(&mut g, &mut scenes, &mut pads, true), PressOutcome::Wrong);
    assert_eq!(scenes.next, Scene::Score);
    assert_eq!(scenes.current, Scene::Game);
    assert_eq!(g.max_idx, 2);
    assert_eq!(g.idx, 1);
}

#[test]
fn presses_count_only_on_release_over_a_pad() {
    let mut g = game_in_input(2, 1);
    let mut scenes = SceneMachine { current: Scene::Game, next: Scene::Game };
    let mut pads = game_pads(400, 300);
    set_hover_disabled(&mut pads, false);
    update_mouse_hover_state(&mut pads, Some(p(0, -200)));
    assert_eq!(user_game_system(&mut g, &mut scenes, &mut pads, false), PressOutcome::Ignored);
    update_mouse_hover_state(&mut pads, Some(p(0, 0)));
    assert_eq!(user_game_system(&mut g, &mut scenes, &mut pads, true), PressOutcome::Ignored);
    assert_eq!(scenes.next, Scene::Game);
    assert_eq!((g.max_idx, g.idx), (2, 1));
}

#[test]
fn prefix_stops_growing_at_pattern_end() {
    let mut g = game_in_input(254, 254);
    let sym = g.pattern[254];
    assert_eq!(g.press(sym), PressOutcome::Completed(sym));
    assert_eq!(g.max_idx, 254);
    assert_eq!(g.idx, 0);
    assert!(!g.interactive);
}

#[test]
fn same_scene_request_is_a_noop() {
    let mut m = SceneMachine { current: Scene::MainMenu, next: Scene::MainMenu };
    m.request(Scene::MainMenu);
    assert_eq!(m.handle_scene_change(), None);
    assert_eq!(m, SceneMachine { current: Scene::MainMenu, next: Scene::MainMenu });
}

#[test]
fn scene_change_applies_once() {
    let mut m = SceneMachine::new();
    assert_eq!(m.current, Scene::Startup);
    assert_eq!(
        m.handle_scene_change(),
        Some(SceneChange { entered: Scene::ClickToStart, setup: Some(SceneSetup::ClickToStart) })
    );
    assert_eq!(m.handle_scene_change(), None);
    m.request(Scene::Game);
    m.request(Scene::Credits);
    assert_eq!(m.handle_scene_change(), Some(SceneChange { entered: Scene::Credits, setup: Some(SceneSetup::Credits) }));
    assert_eq!(m.current, Scene::Credits);
}

#[test]
fn every_scene_but_startup_has_setup() {
    assert_eq!(scene_setup(Scene::Startup), None);
    assert_eq!(scene_setup(Scene::Game), Some(SceneSetup::Game));
    assert_eq!(scene_setup(Scene::Score), Some(SceneSetup::Score));
    assert_eq!(scene_setup(Scene::MainMenu), Some(SceneSetup::MainMenu));
}

#[test]
fn scene_change_button_requests_first_hovered_control() {
    let mut shapes = Vec::new();
    add_scene_change_button(&mut shapes, 275, 60, p(0, 0), Scene::Game);
    add_scene_change_button(&mut shapes, 180, 60, p(0, -80), Scene::Credits);
    assert_eq!(shapes.len(), 4);
    let mut m = SceneMachine { current: Scene::MainMenu, next: Scene::MainMenu };
    update_mouse_hover_state(&mut shapes, Some(p(50, -90)));
    assert_eq!(scene_change_button(&shapes, false, Some(p(50, -90)), &mut m), None);
    assert_eq!(scene_change_button(&shapes, true, None, &mut m), None);
    assert_eq!(m.next, Scene::MainMenu);
    assert_eq!(scene_change_button(&shapes, true, Some(p(50, -90)), &mut m), Some(Scene::Credits));
    assert_eq!(m.next, Scene::Credits);
    assert_eq!(m.current, Scene::MainMenu);
}

#[test]
fn scene_layouts() {
    assert!(scene_shapes(Scene::Startup, 400, 300).is_empty());
    let start = scene_shapes(Scene::ClickToStart, 400, 300);
    assert_eq!(start.len(), 1);
    assert_eq!(start[0].tracker.shape, HoverShape::Rectangle { width: FULL_SCREEN, height: FULL_SCREEN });
    assert_eq!(start[0].target, Some(Scene::MainMenu));
    let menu = scene_shapes(Scene::MainMenu, 400, 300);
    assert_eq!(menu.len(), 4);
    assert_eq!(menu[1].target, Some(Scene::Game));
    assert_eq!(menu[3].target, Some(Scene::Credits));
    assert_eq!(menu[3].origin, p(0, -80));
    let pads = scene_shapes(Scene::Game, 400, 300);
    assert_eq!(pads, game_pads(400, 300));
    assert_eq!(pads[1].tracker.shape, HoverShape::Triangle { a: p(0, 0), b: p(400, 300), c: p(400, -300) });
    let score = scene_shapes(Scene::Score, 400, 300);
    assert_eq!(score[1].target, Some(Scene::MainMenu));
    assert_eq!(score[1].origin, p(0, -240));
}

#[test]
fn score_text_round_trip() {
    assert_eq!(score_text(7), b"7".to_vec());
    assert_eq!(parse_score(&score_text(7)), 7);
    assert_eq!(score_text(0), b"0".to_vec());
    assert_eq!(score_text(42), b"42".to_vec());
    assert_eq!(score_text(255), b"255".to_vec());
    for s in 0..=255u8 {
        assert_eq!(parse_score(&score_text(s)), s);
    }
}

#[test]
fn unreadable_score_reads_as_zero() {
    assert_eq!(parse_score(b""), 0);
    assert_eq!(parse_score(b"+"), 0);
    assert_eq!(parse_score(b"256"), 0);
    assert_eq!(parse_score(b"99999999999"), 0);
    assert_eq!(parse_score(b"-1"), 0);
    assert_eq!(parse_score(b"7\n"), 0);
    assert_eq!(parse_score(b"x7"), 0);
    assert_eq!(parse_score(b"+7"), 7);
    assert_eq!(parse_score(b"007"), 7);
    assert_eq!(parse_score(b"255"), 255);
}

#[test]
fn high_score_only_replaced_by_better() {
    let mut h = HighScore::new(5);
    assert!(!h.record(5));
    assert_eq!(h, HighScore { best: 5, old_best: 0 });
    assert!(h.record(8));
    assert_eq!(h, HighScore { best: 8, old_best: 5 });
    assert!(!h.record(3));
    assert_eq!(h.best, 8);
}

#[test]
fn session_runs_through_the_scenes() {
    let mut s = Session::new(3, 400, 300);
    let r = s.frame(None, false, 0);
    assert_eq!(r.change.map(|c| c.entered), Some(Scene::ClickToStart));
    assert_eq!(s.shapes.len(), 1);
    // hovering alone does nothing; the release does
    let r = s.frame(Some(p(5, 5)), false, 1000);
    assert_eq!(r.change, None);
    let r = s.frame(Some(p(5, 5)), true, 1000);
    assert_eq!(r.change.map(|c| c.entered), Some(Scene::MainMenu));
    // the start button sits at the origin; its hover flags come from this frame
    let r = s.frame(Some(p(0, 0)), true, 1000);
    assert_eq!(r.change.map(|c| c.entered), Some(Scene::Game));
    assert_eq!(s.game.pattern.len(), 255);
    assert_eq!((s.game.max_idx, s.game.idx, s.game.interactive), (0, 0, false));
    assert_eq!(s.shapes.len(), 4);
    // one period later the first symbol is cued, another later input begins
    let r = s.frame(None, false, NANOS_PER_SEC);
    let first = s.game.pattern[0];
    assert_eq!(r.playback, PlaybackEvent::Cue(first));
    let r = s.frame(None, false, NANOS_PER_SEC);
    assert_eq!(r.playback, PlaybackEvent::BeginInput);
    assert!(s.game.interactive);
    // press a wrong pad: top 0, right 1, bottom 2, left 3
    let wrong = (first + 1) % 4;
    let at = [p(0, 200), p(300, 0), p(0, -200), p(-300, 0)][wrong as usize];
    let r = s.frame(Some(at), true, 1000);
    assert_eq!(r.press, PressOutcome::Wrong);
    assert_eq!(r.change.map(|c| c.entered), Some(Scene::Score));
    assert_eq!(r.new_best, None);
    assert_eq!(s.high_score.best, 3);
}

#[test]
fn session_records_a_new_best() {
    let mut s = Session::new(0, 400, 300);
    s.scenes = SceneMachine { current: Scene::Game, next: Scene::Game };
    s.game = game_in_input(4, 0);
    s.shapes = game_pads(400, 300);
    set_hover_disabled(&mut s.shapes, false);
    // the pattern starts 0, 1: press 1 (right pad) at index 0
    let r = s.frame(Some(p(300, 0)), true, 1000);
    assert_eq!(r.press, PressOutcome::Wrong);
    assert_eq!(r.new_best, Some(4));
    assert_eq!(s.high_score, HighScore { best: 4, old_best: 0 });
    assert_eq!(s.scenes.current, Scene::Score);
}

#[test]
fn session_starts_idle_with_one_second_playback() {
    let s = Session::new(9, 400, 300);
    assert_eq!(s.scenes, SceneMachine { current: Scene::Startup, next: Scene::ClickToStart });
    assert_eq!(s.high_score, HighScore { best: 9, old_best: 0 });
    assert!(s.shapes.is_empty());
    assert!(s.game.pattern.is_empty());
    assert_eq!((s.game.interactive, s.game.max_idx, s.game.idx), (false, 0, 0));
    assert_eq!(s.game.timer, PatternAnimationTimer { elapsed_ns: 0, period_ns: NANOS_PER_SEC });
}

#[test]
fn playback_frames_keep_pads_disabled() {
    let mut s = Session::new(0, 400, 300);
    s.frame(None, false, 0);
    s.frame(Some(p(0, 0)), true, 0);
    s.frame(Some(p(0, 0)), true, 0);
    assert_eq!(s.scenes.current, Scene::Game);
    // pressing over a pad during playback does nothing
    let r = s.frame(Some(p(0, 200)), true, 1000);
    assert_eq!(r.press, PressOutcome::Ignored);
    assert!(s.shapes.iter().all(|h| h.disabled && !h.tracker.is_hovered));
    assert_eq!(r.change, None);
}
