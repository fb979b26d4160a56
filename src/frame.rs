//! One pass of the frame pipeline over the whole game: hover tracking,
//! pattern playback, press judging, scene-change controls, then the scene
//! change itself, in that fixed order.
use vstd::prelude::*;
use crate::geometry::Point;
use crate::hover::{
    Hoverable, hoverable_step, is_first_hovered, lemma_hover_stages_compose, none_hovered,
    update_mouse_hover_disable, update_mouse_hover_state,
};
use crate::layout::{scene_layout, scene_shapes};
use crate::pattern::{
    GameState, PlaybackEvent, PressOutcome, SYMBOL_COUNT, fresh_model, playback_step,
    pattern_playback_system, press_step, user_game_system,
};
use crate::scene::{
    Scene, SceneChange, SceneMachine, SceneSetup, change_step, is_first_hovered_control, no_control_hovered,
    scene_change_button, setup_of,
};
use crate::score::HighScore;
use crate::timer::NANOS_PER_SEC;

verus! {

/// Everything the game logic owns while it runs.
pub struct Session {
    pub scenes: SceneMachine,
    pub game: GameState,
    pub high_score: HighScore,
    /// The tracked shapes of the current scene; in the game scene, the input
    /// shapes in symbol order.
    pub shapes: Vec<Hoverable>,
    pub half_width: i32,
    pub half_height: i32,
}

/// What one frame asks the presentation to do.
#[derive(Clone, Copy, Debug, PartialEq, Eq, Structural)]
pub struct FrameReport {
    pub playback: PlaybackEvent,
    pub press: PressOutcome,
    /// The scene entered: the outgoing scene's content is to be torn down
    /// and the new one's built.
    pub change: Option<SceneChange>,
    /// A new best score, to be stored.
    pub new_best: Option<u8>,
}

/// The shapes `s` after a frame with the pointer at `pointer`.
pub open spec fn hovered_shapes(s: Seq<Hoverable>, pointer: Option<Point>) -> Seq<Hoverable> {
    Seq::new(s.len(), |i: int| hoverable_step(s[i], pointer))
}

/// The shapes `s` are the game's input shapes: one per symbol, none of them
/// a scene-change control.
pub open spec fn are_pads(s: Seq<Hoverable>) -> bool {
    &&& s.len() == SYMBOL_COUNT
    &&& forall|i: int| 0 <= i < s.len() ==> (#[trigger] s[i]).target.is_none()
}

/// Every shape of `s` is disabled.
pub open spec fn all_disabled(s: Seq<Hoverable>) -> bool {
    forall|i: int| 0 <= i < s.len() ==> (#[trigger] s[i]).disabled
}

impl Session {
    /// Well formed: a window with non-negative half extents, a running
    /// playback timer, and in the game scene, with no other scene pending, a
    /// playthrough under way on the four input shapes, which are disabled
    /// while the pattern is played back.
    pub open spec fn wf(&self) -> bool {
        &&& self.half_width >= 0
        &&& self.half_height >= 0
        &&& self.game.timer.wf()
        &&& self.scenes.current == Scene::Game ==> {
            &&& self.scenes.next == Scene::Game
            &&& self.game.wf()
            &&& are_pads(self.shapes@)
            &&& !self.game.interactive ==> all_disabled(self.shapes@)
        }
    }

    /// The session at start-up, with the best score loaded as `best`, for a
    /// window of half extents `half_width` by `half_height`.
    pub fn new(best: u8, half_width: i32, half_height: i32) -> (r: Session)
        requires
            half_width >= 0,
            half_height >= 0,
        ensures
            r.wf(),
            r.scenes == (SceneMachine { current: Scene::Startup, next: Scene::ClickToStart }),
            r.high_score == (HighScore { best, old_best: 0 }),
            r.shapes@.len() == 0,
            r.game@.pattern.len() == 0,
            !r.game.interactive,
            r.game.max_idx == 0,
            r.game.idx == 0,
            r.game.timer.elapsed_ns == 0,
            r.game.timer.period_ns == NANOS_PER_SEC,
            r.half_width == half_width,
            r.half_height == half_height,
    {
        Session {
            scenes: SceneMachine::new(),
            game: GameState::new(),
            high_score: HighScore::new(best),
            shapes: Vec::new(),
            half_width,
            half_height,
        }
    }

    /// Runs one frame: `pointer` is the pointer's world position, if it is on
    /// the playing surface, `released` whether the pointer button was
    /// released in this frame, and `delta_ns` the frame's duration.
    pub fn frame(&mut self, pointer: Option<Point>, released: bool, delta_ns: u64) -> (r: FrameReport)
        requires
            old(self).wf(),
        ensures
            final(self).wf(),
            final(self).half_width == old(self).half_width,
            final(self).half_height == old(self).half_height,
            // at most one scene change per frame, and none pending after it
            final(self).scenes.next == final(self).scenes.current,
            old(self).scenes.current == Scene::Game ==> r.playback == playback_step(old(self).game@, delta_ns).1,
            old(self).scenes.current != Scene::Game ==> r.playback == PlaybackEvent::Idle && r.press == PressOutcome::Ignored,
            old(self).scenes.current == Scene::Game && r.press == PressOutcome::Wrong ==>
                r.change == Some(SceneChange { entered: Scene::Score, setup: Some(SceneSetup::Score) }),
            old(self).scenes.current == Scene::Game && r.press != PressOutcome::Wrong ==> r.change is None,
            !released ==> r.press == PressOutcome::Ignored,
            // in the game scene: playback, then the press on the first hovered pad
            old(self).scenes.current == Scene::Game ==> {
                let m1 = playback_step(old(self).game@, delta_ns).0;
                let hs = hovered_shapes(old(self).shapes@, pointer);
                &&& !released || none_hovered(hs) ==> r.press == PressOutcome::Ignored && final(self).game@ == m1
                &&& forall|k: int| released && is_first_hovered(hs, k)
                    ==> (final(self).game@, r.press) == #[trigger] press_step(m1, k as u8)
            },
            // outside the game scene: the pending request, or the one made by
            // releasing the pointer over a scene-change control, is applied
            old(self).scenes.current != Scene::Game
                && (!released || pointer is None || no_control_hovered(hovered_shapes(old(self).shapes@, pointer)))
                ==> r.change == change_step(old(self).scenes).1,
            forall|k: int| old(self).scenes.current != Scene::Game && released && pointer is Some
                && #[trigger] is_first_hovered_control(hovered_shapes(old(self).shapes@, pointer), k)
                ==> r.change == change_step(SceneMachine {
                    next: hovered_shapes(old(self).shapes@, pointer)[k].target.unwrap(),
                    ..old(self).scenes
                }).1,
            match r.change {
                Some(c) => {
                    &&& c.setup == setup_of(c.entered)
                    &&& final(self).scenes.current == c.entered
                    &&& c.entered != old(self).scenes.current
                    &&& final(self).shapes@ == scene_layout(c.entered, old(self).half_width, old(self).half_height)
                    &&& c.entered == Scene::Game ==> final(self).game@ == fresh_model(final(self).game@.pattern, old(self).game.timer)
                    &&& c.entered == Scene::Score ==> final(self).game@ == old(self).game@
                },
                None => {
                    &&& final(self).scenes.current == old(self).scenes.current
                    &&& old(self).scenes.current != Scene::Game ==>
                        final(self).shapes@ == hovered_shapes(old(self).shapes@, pointer)
                        && final(self).game@ == old(self).game@
                },
            },
            r.new_best is Some <==> (r.change is Some && r.change.unwrap().entered == Scene::Score
                && final(self).game.max_idx > old(self).high_score.best),
            r.new_best is Some ==> r.new_best.unwrap() == final(self).game.max_idx
                && final(self).high_score == (HighScore { best: final(self).game.max_idx, old_best: old(self).high_score.best }),
            r.new_best is None ==> final(self).high_score == old(self).high_score,
    {
        update_mouse_hover_state(&mut self.shapes, pointer);
        update_mouse_hover_disable(&mut self.shapes);
        proof {
            assert forall|i: int| 0 <= i < self.shapes@.len()
                implies #[trigger] self.shapes@[i] == hovered_shapes(old(self).shapes@, pointer)[i] by {
                lemma_hover_stages_compose(old(self).shapes@[i], pointer);
            }
            assert(self.shapes@ =~= hovered_shapes(old(self).shapes@, pointer));
            if old(self).scenes.current == Scene::Game {
                assert forall|i: int| 0 <= i < self.shapes@.len() implies (#[trigger] self.shapes@[i]).target.is_none() by {
                    assert(old(self).shapes@[i].target.is_none());
                }
            }
        }
        let mut playback = PlaybackEvent::Idle;
        let mut press = PressOutcome::Ignored;
        if self.scenes.current == Scene::Game {
            let ghost s0 = self.shapes@;
            playback = pattern_playback_system(&mut self.game, &mut self.shapes, delta_ns);
            proof {
                assert forall|i: int| 0 <= i < self.shapes@.len() implies (#[trigger] self.shapes@[i]).target.is_none() by {
                    assert(s0[i].target.is_none());
                }
            }
            let ghost s1 = self.shapes@;
            let ghost m1 = self.game@;
            proof {
                let hs = hovered_shapes(old(self).shapes@, pointer);
                assert(s0 == hs);
                assert forall|i: int| 0 <= i < s1.len() implies (#[trigger] s1[i]).tracker == hs[i].tracker by {
                    assert(s1[i] == (Hoverable { disabled: s1[i].disabled, ..s0[i] }));
                }
                assert forall|k: int| is_first_hovered(s1, k) == is_first_hovered(hs, k) by {
                    if 0 <= k < s1.len() {
                        assert forall|j: int| 0 <= j < k implies (#[trigger] s1[j]).tracker == hs[j].tracker by {}
                    }
                }
                assert(none_hovered(s1) == none_hovered(hs)) by {
                    assert forall|j: int| 0 <= j < s1.len() implies (#[trigger] s1[j]).tracker == hs[j].tracker by {}
                }
                if !old(self).game.interactive {
                    assert forall|j: int| 0 <= j < hs.len() implies !(#[trigger] hs[j]).tracker.is_hovered by {
                        assert(old(self).shapes@[j].disabled);
                    }
                }
            }
            press = user_game_system(&mut self.game, &mut self.scenes, &mut self.shapes, released);
            proof {
                if press == PressOutcome::Wrong {
                    assert(old(self).game.interactive);
                    assert(self.game@ == old(self).game@);
                }
                assert forall|i: int| 0 <= i < self.shapes@.len() implies (#[trigger] self.shapes@[i]).target.is_none() by {
                    assert(s1[i].target.is_none());
                }
                assert(are_pads(self.shapes@));
                if !self.game.interactive {
                    assert forall|i: int| 0 <= i < self.shapes@.len() implies (#[trigger] self.shapes@[i]).disabled by {
                        if !(press is Completed) {
                            assert(!m1.interactive);
                            assert(playback != PlaybackEvent::BeginInput);
                            assert(!old(self).game.interactive);
                            assert(s1[i] == s0[i]);
                            assert(s0[i] == hovered_shapes(old(self).shapes@, pointer)[i]);
                            assert(old(self).shapes@[i].disabled);
                        }
                    }
                }
            }
        }
        let ghost game_before_change = self.game@;
        let ghost requested = self.scenes;
        let _ = scene_change_button(&self.shapes, released, pointer, &mut self.scenes);
        proof {
            if old(self).scenes.current == Scene::Game {
                assert(crate::scene::no_control_hovered(self.shapes@));
                assert(self.scenes == requested);
            }
        }
        let change = self.scenes.handle_scene_change();
        let mut new_best: Option<u8> = None;
        if let Some(c) = change {
            self.shapes = scene_shapes(c.entered, self.half_width, self.half_height);
            proof {
                if c.entered == Scene::Game {
                    assert(self.game@ == old(self).game@);
                    let p = crate::pattern::pads_layout(self.half_width, self.half_height);
                    assert forall|i: int| 0 <= i < p.len() implies (#[trigger] p[i]).target.is_none() && p[i].disabled by {
                        assert(p[i] == crate::pattern::pad(self.half_width, self.half_height, i));
                    }
                }
            }
            match c.setup {
                Some(SceneSetup::Game) => self.game.start(),
                Some(SceneSetup::Score) => {
                    let score = self.game.max_idx;
                    if self.high_score.record(score) {
                        new_best = Some(score);
                    }
                },
                _ => {},
            }
        }
        FrameReport { playback, press, change, new_best }
    }
}

} // verus!
