//! Per-shape hover tracking with one-frame enter and exit flags.
use vstd::prelude::*;
use crate::geometry::{HoverShape, Point, placed_contains, shape_contains_point};
use crate::scene::Scene;

verus! {

/// Hover state of one shape.
#[derive(Clone, Copy, Debug, PartialEq, Eq, Structural)]
pub struct MouseHoverTracker {
    /// The pointer is over the shape in this frame.
    pub is_hovered: bool,
    /// The pointer entered the shape in this frame.
    pub is_just_hovered: bool,
    /// The pointer left the shape in this frame.
    pub is_just_unhovered: bool,
    pub shape: HoverShape,
}

/// The flags `(is_hovered, is_just_hovered, is_just_unhovered)` after a frame
/// in which the hover state went from `prev` to `cur`.
pub open spec fn hover_flags(prev: bool, cur: bool) -> (bool, bool, bool) {
    (cur, !prev && cur, prev && !cur)
}

/// The tracker `t` after a frame whose hover state is `cur`.
pub open spec fn hover_step(t: MouseHoverTracker, cur: bool) -> MouseHoverTracker {
    let (h, jh, ju) = hover_flags(t.is_hovered, cur);
    MouseHoverTracker { is_hovered: h, is_just_hovered: jh, is_just_unhovered: ju, shape: t.shape }
}

/// Whether a shape placed at `origin` counts as hovered for the pointer
/// position `pointer` (none when the pointer is off the playing surface).
/// A disabled shape is never hovered.
pub open spec fn hover_target(shape: HoverShape, origin: Point, disabled: bool, pointer: Option<Point>) -> bool {
    match pointer {
        Some(pos) => !disabled && placed_contains(shape, origin, pos),
        None => false,
    }
}

/// Edge-triggered hover flags for a frame whose hover state goes from `prev`
/// to `cur`, as `(is_hovered, is_just_hovered, is_just_unhovered)`.
pub fn hover_transition(prev: bool, cur: bool) -> (r: (bool, bool, bool))
    ensures
        r == hover_flags(prev, cur),
{
    (cur, !prev && cur, prev && !cur)
}

impl MouseHoverTracker {
    /// A tracker for a `w` by `h` rectangle centred on its origin, not hovered.
    pub fn from_rect(w: u32, h: u32) -> (r: MouseHoverTracker)
        ensures
            r.shape == (HoverShape::Rectangle { width: w, height: h }),
            !r.is_hovered,
            !r.is_just_hovered,
            !r.is_just_unhovered,
    {
        MouseHoverTracker {
            shape: HoverShape::Rectangle { width: w, height: h },
            is_hovered: false,
            is_just_hovered: false,
            is_just_unhovered: false,
        }
    }

    /// A tracker for the triangle `a b c`, not hovered.
    pub fn from_triangle(a: Point, b: Point, c: Point) -> (r: MouseHoverTracker)
        ensures
            r.shape == (HoverShape::Triangle { a, b, c }),
            !r.is_hovered,
            !r.is_just_hovered,
            !r.is_just_unhovered,
    {
        MouseHoverTracker {
            shape: HoverShape::Triangle { a, b, c },
            is_hovered: false,
            is_just_hovered: false,
            is_just_unhovered: false,
        }
    }

    /// Records this frame's hover state and derives the edge flags from the
    /// previous frame's.
    pub fn set_hovered(&mut self, is_hovered: bool)
        ensures
            *final(self) == hover_step(*old(self), is_hovered),
    {
        let (h, jh, ju) = hover_transition(self.is_hovered, is_hovered);
        self.is_hovered = h;
        self.is_just_hovered = jh;
        self.is_just_unhovered = ju;
    }

    /// Recomputes the hover state for the pointer position `pointer`, with the
    /// shape placed at `origin`; a disabled shape is forced unhovered.
    pub fn update(&mut self, origin: Point, disabled: bool, pointer: Option<Point>)
        ensures
            *final(self) == hover_step(*old(self), hover_target(old(self).shape, origin, disabled, pointer)),
    {
        let hovered = match pointer {
            Some(pos) => !disabled && shape_contains_point(&self.shape, origin, pos),
            None => false,
        };
        self.set_hovered(hovered);
    }
}

/// A tracked shape as it stands in a scene: its tracker, its world origin,
/// whether hovering is switched off for it, and the scene that releasing the
/// pointer over it requests, if it is a scene-change control.
#[derive(Clone, Copy, Debug, PartialEq, Eq, Structural)]
pub struct Hoverable {
    pub tracker: MouseHoverTracker,
    pub origin: Point,
    pub disabled: bool,
    pub target: Option<Scene>,
}

/// `h` after one frame with the pointer at `pointer`.
pub open spec fn hoverable_step(h: Hoverable, pointer: Option<Point>) -> Hoverable {
    Hoverable {
        tracker: hover_step(h.tracker, hover_target(h.tracker.shape, h.origin, h.disabled, pointer)),
        ..h
    }
}

/// `h` after the geometry stage: an enabled shape takes its hover state from
/// the pointer position; a disabled one is left as it is.
pub open spec fn geometry_step(h: Hoverable, pointer: Option<Point>) -> Hoverable {
    if h.disabled {
        h
    } else {
        Hoverable { tracker: hover_step(h.tracker, hover_target(h.tracker.shape, h.origin, false, pointer)), ..h }
    }
}

/// `h` after the force-unhover stage: a disabled shape is unhovered; an
/// enabled one is left as it is.
pub open spec fn disable_step(h: Hoverable) -> Hoverable {
    if h.disabled {
        Hoverable { tracker: hover_step(h.tracker, false), ..h }
    } else {
        h
    }
}

/// Geometry stage: recomputes the hover state of every enabled shape for
/// this frame's pointer position (unhovered when there is none). Disabled
/// shapes are left exactly as they were.
pub fn update_mouse_hover_state(items: &mut Vec<Hoverable>, pointer: Option<Point>)
    ensures
        final(items)@.len() == old(items)@.len(),
        forall|i: int| 0 <= i < old(items)@.len()
            ==> #[trigger] final(items)@[i] == geometry_step(old(items)@[i], pointer),
{
    let n = items.len();
    let mut i: usize = 0;
    while i < n
        invariant
            n == old(items)@.len(),
            items@.len() == n,
            0 <= i <= n,
            forall|j: int| 0 <= j < i ==> #[trigger] items@[j] == geometry_step(old(items)@[j], pointer),
            forall|j: int| i <= j < n ==> #[trigger] items@[j] == old(items)@[j],
        decreases n - i,
    {
        let mut item = items[i];
        if !item.disabled {
            item.tracker.update(item.origin, false, pointer);
            items[i] = item;
        }
        i += 1;
    }
}

/// Force-unhover stage: every disabled shape is unhovered, whatever the
/// pointer position. Enabled shapes are left exactly as they were.
pub fn update_mouse_hover_disable(items: &mut Vec<Hoverable>)
    ensures
        final(items)@.len() == old(items)@.len(),
        forall|i: int| 0 <= i < old(items)@.len()
            ==> #[trigger] final(items)@[i] == disable_step(old(items)@[i]),
{
    let n = items.len();
    let mut i: usize = 0;
    while i < n
        invariant
            n == old(items)@.len(),
            items@.len() == n,
            0 <= i <= n,
            forall|j: int| 0 <= j < i ==> #[trigger] items@[j] == disable_step(old(items)@[j]),
            forall|j: int| i <= j < n ==> #[trigger] items@[j] == old(items)@[j],
        decreases n - i,
    {
        let mut item = items[i];
        if item.disabled {
            item.tracker.set_hovered(false);
            items[i] = item;
        }
        i += 1;
    }
}

/// The geometry stage followed by the force-unhover stage is one frame of
/// hover tracking: a disabled shape ends unhovered, an enabled one follows
/// the pointer.
pub proof fn lemma_hover_stages_compose(h: Hoverable, pointer: Option<Point>)
    ensures
        disable_step(geometry_step(h, pointer)) == hoverable_step(h, pointer),
{
}

/// Sets the disabled flag of every shape to `disabled`, leaving the hover
/// state as it is.
pub fn set_hover_disabled(items: &mut Vec<Hoverable>, disabled: bool)
    ensures
        final(items)@.len() == old(items)@.len(),
        forall|i: int| 0 <= i < old(items)@.len()
            ==> #[trigger] final(items)@[i] == (Hoverable { disabled, ..old(items)@[i] }),
{
    let n = items.len();
    let mut i: usize = 0;
    while i < n
        invariant
            n == old(items)@.len(),
            items@.len() == n,
            0 <= i <= n,
            forall|j: int| 0 <= j < i ==> #[trigger] items@[j] == (Hoverable { disabled, ..old(items)@[j] }),
            forall|j: int| i <= j < n ==> #[trigger] items@[j] == old(items)@[j],
        decreases n - i,
    {
        let mut item = items[i];
        item.disabled = disabled;
        items[i] = item;
        i += 1;
    }
}

/// `k` is the first hovered shape of `s`.
pub open spec fn is_first_hovered(s: Seq<Hoverable>, k: int) -> bool {
    &&& 0 <= k < s.len()
    &&& s[k].tracker.is_hovered
    &&& forall|j: int| 0 <= j < k ==> !(#[trigger] s[j]).tracker.is_hovered
}

/// No shape of `s` is hovered.
pub open spec fn none_hovered(s: Seq<Hoverable>) -> bool {
    forall|j: int| 0 <= j < s.len() ==> !(#[trigger] s[j]).tracker.is_hovered
}

/// The first shape, in order, that is hovered: shapes declared earlier take
/// priority over later ones that overlap them.
pub fn first_hovered(items: &Vec<Hoverable>) -> (r: Option<usize>)
    ensures
        match r {
            Some(k) => is_first_hovered(items@, k as int),
            None => none_hovered(items@),
        },
{
    let mut i: usize = 0;
    while i < items.len()
        invariant
            0 <= i <= items@.len(),
            forall|j: int| 0 <= j < i ==> !(#[trigger] items@[j]).tracker.is_hovered,
        decreases items@.len() - i,
    {
        if items[i].tracker.is_hovered {
            return Some(i);
        }
        i += 1;
    }
    None
}

/// At most one shape is the first hovered one.
pub proof fn lemma_first_hovered_unique(s: Seq<Hoverable>, k: int, l: int)
    requires
        is_first_hovered(s, k),
        is_first_hovered(s, l),
    ensures
        k == l,
{
    if k < l {
        assert(!s[k].tracker.is_hovered);
    } else if l < k {
        assert(!s[l].tracker.is_hovered);
    }
}

/// The edge flags are never both set, and both are clear whenever the hover
/// state did not change between the two frames.
pub proof fn lemma_edge_flags_exclusive(t: MouseHoverTracker, cur: bool)
    ensures
        !(hover_step(t, cur).is_just_hovered && hover_step(t, cur).is_just_unhovered),
        cur == t.is_hovered ==> !hover_step(t, cur).is_just_hovered && !hover_step(t, cur).is_just_unhovered,
        hover_step(t, cur).is_just_hovered <==> (!t.is_hovered && cur),
        hover_step(t, cur).is_just_unhovered <==> (t.is_hovered && !cur),
{
}

/// A disabled shape is not hovered after a frame, nor after the
/// force-unhover stage alone, wherever the pointer is, including inside the
/// shape.
pub proof fn lemma_disabled_never_hovered(h: Hoverable, pointer: Option<Point>)
    requires
        h.disabled,
    ensures
        !hoverable_step(h, pointer).tracker.is_hovered,
        !disable_step(h).tracker.is_hovered,
{
}

} // verus!
