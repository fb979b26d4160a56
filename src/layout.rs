//! The tracked shapes that each scene is set up with.
use vstd::prelude::*;
use crate::geometry::{HoverShape, Point};
use crate::hover::{Hoverable, MouseHoverTracker};
use crate::pattern::{game_pads, pads_layout};
use crate::scene::Scene;

verus! {

/// Size of a control that covers the whole screen.
pub const FULL_SCREEN: u32 = 99999;

/// A `width` by `height` rectangle at `origin`, not hovered and enabled,
/// requesting `target` when released over, if any.
pub open spec fn placed_rect(width: u32, height: u32, origin: Point, target: Option<Scene>) -> Hoverable {
    Hoverable {
        tracker: MouseHoverTracker {
            is_hovered: false,
            is_just_hovered: false,
            is_just_unhovered: false,
            shape: HoverShape::Rectangle { width, height },
        },
        origin,
        disabled: false,
        target,
    }
}

/// A button: its face, which only reacts to hovering, and its label, which
/// requests `scene`. Both cover the same rectangle.
pub open spec fn button(width: u32, height: u32, origin: Point, scene: Scene) -> Seq<Hoverable> {
    seq![placed_rect(width, height, origin, None), placed_rect(width, height, origin, Some(scene))]
}

/// The shapes of `scene`, for a window of half extents `hw` by `hh`.
pub open spec fn scene_layout(scene: Scene, hw: i32, hh: i32) -> Seq<Hoverable> {
    match scene {
        Scene::Startup => Seq::empty(),
        Scene::ClickToStart => seq![placed_rect(FULL_SCREEN, FULL_SCREEN, Point { x: 0, y: 0 }, Some(Scene::MainMenu))],
        Scene::MainMenu => button(275, 60, Point { x: 0, y: 0 }, Scene::Game)
            + button(180, 60, Point { x: 0, y: -80i32 }, Scene::Credits),
        Scene::Credits => seq![placed_rect(FULL_SCREEN, FULL_SCREEN, Point { x: 0, y: 0 }, Some(Scene::MainMenu))],
        Scene::Game => pads_layout(hw, hh),
        Scene::Score => button(500, 60, Point { x: 0, y: -240i32 }, Scene::MainMenu),
    }
}

fn rect(width: u32, height: u32, origin: Point, target: Option<Scene>) -> (r: Hoverable)
    ensures
        r == placed_rect(width, height, origin, target),
{
    Hoverable { tracker: MouseHoverTracker::from_rect(width, height), origin, disabled: false, target }
}

/// Adds a button that requests `scene` to `shapes`.
pub fn add_scene_change_button(shapes: &mut Vec<Hoverable>, width: u32, height: u32, origin: Point, scene: Scene)
    ensures
        final(shapes)@ == old(shapes)@ + button(width, height, origin, scene),
{
    shapes.push(rect(width, height, origin, None));
    shapes.push(rect(width, height, origin, Some(scene)));
    assert(shapes@ =~= old(shapes)@ + button(width, height, origin, scene));
}

/// The shapes to set `scene` up with, for a window of half extents
/// `half_width` by `half_height`.
pub fn scene_shapes(scene: Scene, half_width: i32, half_height: i32) -> (r: Vec<Hoverable>)
    requires
        half_width >= 0,
        half_height >= 0,
    ensures
        r@ == scene_layout(scene, half_width, half_height),
{
    let mut r: Vec<Hoverable> = Vec::new();
    match scene {
        Scene::Startup => {},
        Scene::ClickToStart => r.push(rect(FULL_SCREEN, FULL_SCREEN, Point::new(0, 0), Some(Scene::MainMenu))),
        Scene::MainMenu => {
            add_scene_change_button(&mut r, 275, 60, Point::new(0, 0), Scene::Game);
            add_scene_change_button(&mut r, 180, 60, Point::new(0, -80), Scene::Credits);
        },
        Scene::Credits => r.push(rect(FULL_SCREEN, FULL_SCREEN, Point::new(0, 0), Some(Scene::MainMenu))),
        Scene::Game => r = game_pads(half_width, half_height),
        Scene::Score => add_scene_change_button(&mut r, 500, 60, Point::new(0, -240), Scene::MainMenu),
    }
    assert(r@ =~= scene_layout(scene, half_width, half_height));
    r
}

} // verus!
