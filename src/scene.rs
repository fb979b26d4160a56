//! The scene state machine: which screen is current, which one is
//! requested next, and how a change is applied.
use vstd::prelude::*;
use crate::geometry::Point;
use crate::hover::Hoverable;

verus! {

/// A top-level screen of the game.
#[derive(Clone, Copy, Debug, PartialEq, Eq, Hash, Structural)]
pub enum Scene {
    Startup,
    ClickToStart,
    MainMenu,
    Game,
    Score,
    Credits,
}

/// The setup routine that fills a scene when it is entered.
#[derive(Clone, Copy, Debug, PartialEq, Eq, Structural)]
pub enum SceneSetup {
    ClickToStart,
    MainMenu,
    Credits,
    Game,
    Score,
}

/// The setup routine registered for `scene`; the start-up scene has none.
pub open spec fn setup_of(scene: Scene) -> Option<SceneSetup> {
    match scene {
        Scene::Startup => None,
        Scene::ClickToStart => Some(SceneSetup::ClickToStart),
        Scene::MainMenu => Some(SceneSetup::MainMenu),
        Scene::Credits => Some(SceneSetup::Credits),
        Scene::Game => Some(SceneSetup::Game),
        Scene::Score => Some(SceneSetup::Score),
    }
}

/// The setup routine to run on entering `scene`, if it has one.
pub fn scene_setup(scene: Scene) -> (r: Option<SceneSetup>)
    ensures
        r == setup_of(scene),
{
    match scene {
        Scene::Startup => None,
        Scene::ClickToStart => Some(SceneSetup::ClickToStart),
        Scene::MainMenu => Some(SceneSetup::MainMenu),
        Scene::Credits => Some(SceneSetup::Credits),
        Scene::Game => Some(SceneSetup::Game),
        Scene::Score => Some(SceneSetup::Score),
    }
}

/// The current scene and the one requested for the next change.
#[derive(Clone, Copy, Debug, PartialEq, Eq, Structural)]
pub struct SceneMachine {
    pub current: Scene,
    pub next: Scene,
}

/// What applying a pending change does: the scene entered, with the setup
/// routine to run for it. The caller tears down the outgoing scene's content
/// before running the setup.
#[derive(Clone, Copy, Debug, PartialEq, Eq, Structural)]
pub struct SceneChange {
    pub entered: Scene,
    pub setup: Option<SceneSetup>,
}

/// `m` after the once-per-frame step that applies a pending change.
pub open spec fn change_step(m: SceneMachine) -> (SceneMachine, Option<SceneChange>) {
    if m.next != m.current {
        (SceneMachine { current: m.next, next: m.next },
         Some(SceneChange { entered: m.next, setup: setup_of(m.next) }))
    } else {
        (m, None)
    }
}

impl SceneMachine {
    /// The machine at start-up: in the start-up scene, with the
    /// click-to-start scene requested.
    pub fn new() -> (r: SceneMachine)
        ensures
            r.current == Scene::Startup,
            r.next == Scene::ClickToStart,
    {
        SceneMachine { current: Scene::Startup, next: Scene::ClickToStart }
    }

    /// Requests `scene` for the next change; a later request in the same
    /// frame replaces an earlier one.
    pub fn request(&mut self, scene: Scene)
        ensures
            final(self).current == old(self).current,
            final(self).next == scene,
    {
        self.next = scene;
    }

    /// Applies the pending change, if the requested scene differs from the
    /// current one, and says which scene was entered and what to set it up
    /// with. With nothing pending, nothing changes.
    pub fn handle_scene_change(&mut self) -> (r: Option<SceneChange>)
        ensures
            (*final(self), r) == change_step(*old(self)),
    {
        if self.next != self.current {
            self.current = self.next;
            Some(SceneChange { entered: self.next, setup: scene_setup(self.next) })
        } else {
            None
        }
    }
}

/// Requesting the scene that is already current changes nothing: the next
/// step runs no teardown and no setup.
pub proof fn lemma_same_scene_is_noop(m: SceneMachine)
    requires
        m.next == m.current,
    ensures
        change_step(m) == (m, None::<SceneChange>),
{
}

/// One step applies at most one change: right after it nothing is pending.
pub proof fn lemma_one_change_per_step(m: SceneMachine)
    ensures
        change_step(change_step(m).0).1 == None::<SceneChange>,
{
}

/// `k` is the first scene-change control of `s` that is hovered.
pub open spec fn is_first_hovered_control(s: Seq<Hoverable>, k: int) -> bool {
    &&& 0 <= k < s.len()
    &&& s[k].target.is_some() && s[k].tracker.is_hovered
    &&& forall|j: int| 0 <= j < k ==> !((#[trigger] s[j]).target.is_some() && s[j].tracker.is_hovered)
}

/// No scene-change control of `s` is hovered.
pub open spec fn no_control_hovered(s: Seq<Hoverable>) -> bool {
    forall|j: int| 0 <= j < s.len() ==> !((#[trigger] s[j]).target.is_some() && s[j].tracker.is_hovered)
}

/// On a pointer release with the pointer on the playing surface, requests
/// the scene of the first hovered scene-change control of `shapes`; controls
/// declared earlier win over later ones that overlap them. Returns the scene
/// requested, if any.
pub fn scene_change_button(
    shapes: &Vec<Hoverable>,
    released: bool,
    pointer: Option<Point>,
    scenes: &mut SceneMachine,
) -> (r: Option<Scene>)
    ensures
        final(scenes).current == old(scenes).current,
        !released || pointer is None || no_control_hovered(shapes@) ==> {
            &&& r.is_none()
            &&& *final(scenes) == *old(scenes)
        },
        forall|k: int| released && pointer is Some && is_first_hovered_control(shapes@, k) ==> {
            &&& r == shapes@[k].target
            &&& *final(scenes) == (SceneMachine { next: shapes@[k].target.unwrap(), ..*old(scenes) })
        },
{
    if !released {
        return None;
    }
    if let None = pointer {
        return None;
    }
    let mut i: usize = 0;
    while i < shapes.len()
        invariant
            0 <= i <= shapes@.len(),
            released,
            pointer is Some,
            *scenes == *old(scenes),
            forall|j: int| 0 <= j < i ==> !((#[trigger] shapes@[j]).target.is_some() && shapes@[j].tracker.is_hovered),
        decreases shapes@.len() - i,
    {
        let item = shapes[i];
        if item.tracker.is_hovered {
            if let Some(scene) = item.target {
                proof {
                    assert(shapes@[i as int].target.is_some() && shapes@[i as int].tracker.is_hovered);
                    assert(!no_control_hovered(shapes@));
                    assert forall|k: int| is_first_hovered_control(shapes@, k) implies k == i as int by {
                        if k < i {
                        } else if k > i {
                            assert(!(shapes@[i as int].target.is_some() && shapes@[i as int].tracker.is_hovered));
                        }
                    }
                }
                scenes.request(scene);
                return Some(scene);
            }
        }
        i += 1;
    }
    None
}

} // verus!
