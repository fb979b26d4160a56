//! The pattern engine: a random sequence of symbols, played back one
//! symbol per timer period, then reproduced by the player one press at a
//! time, growing by one symbol after each complete reproduction.
use vstd::prelude::*;
use crate::geometry::{HoverShape, Point};
use crate::hover::{Hoverable, MouseHoverTracker, first_hovered, is_first_hovered, none_hovered, set_hover_disabled};
use crate::scene::{Scene, SceneMachine};
use crate::timer::{NANOS_PER_SEC, PatternAnimationTimer, tick_step};

verus! {

/// Length of every generated pattern.
pub const PATTERN_LEN: usize = 255;

/// Number of distinct symbols (and of input shapes).
pub const SYMBOL_COUNT: u8 = 4;

/// Relies on rand::random::<u8>: a byte drawn from the thread-local
/// generator. Nothing is known of its value.
#[verifier::external_body]
fn random_byte() -> (r: u8) {
    rand::random::<u8>()
}

/// The symbol that the byte `b` stands for.
pub open spec fn symbol_of(b: u8) -> u8 {
    b % 4
}

/// Every element of `s` is a symbol.
pub open spec fn all_symbols(s: Seq<u8>) -> bool {
    forall|i: int| 0 <= i < s.len() ==> #[trigger] s[i] < 4
}

/// Maps each byte of `raw` to the symbol it stands for.
pub fn pattern_from_bytes(raw: &Vec<u8>) -> (r: Vec<u8>)
    ensures
        r@.len() == raw@.len(),
        forall|i: int| 0 <= i < raw@.len() ==> #[trigger] r@[i] == symbol_of(raw@[i]),
        all_symbols(r@),
{
    let mut r: Vec<u8> = Vec::new();
    let mut i: usize = 0;
    while i < raw.len()
        invariant
            0 <= i <= raw@.len(),
            r@.len() == i,
            forall|j: int| 0 <= j < i ==> #[trigger] r@[j] == symbol_of(raw@[j]),
        decreases raw@.len() - i,
    {
        r.push(raw[i] % SYMBOL_COUNT);
        i += 1;
    }
    r
}

/// Draws `PATTERN_LEN` random bytes.
fn random_bytes() -> (r: Vec<u8>)
    ensures
        r@.len() == PATTERN_LEN,
{
    let mut r: Vec<u8> = Vec::new();
    let mut i: usize = 0;
    while i < PATTERN_LEN
        invariant
            0 <= i <= PATTERN_LEN,
            r@.len() == i,
        decreases PATTERN_LEN - i,
    {
        r.push(random_byte());
        i += 1;
    }
    r
}

/// A fresh random pattern: `PATTERN_LEN` symbols, each below `SYMBOL_COUNT`.
pub fn generate_pattern() -> (r: Vec<u8>)
    ensures
        r@.len() == PATTERN_LEN,
        all_symbols(r@),
{
    let raw = random_bytes();
    pattern_from_bytes(&raw)
}

/// What a playback step asks the presentation to do.
#[derive(Clone, Copy, Debug, PartialEq, Eq, Structural)]
pub enum PlaybackEvent {
    /// Nothing this frame.
    Idle,
    /// Highlight and sound the given symbol.
    Cue(u8),
    /// Playback is over: reveal the input shapes and hide the prompt.
    BeginInput,
}

/// How a press was judged.
#[derive(Clone, Copy, Debug, PartialEq, Eq, Structural)]
pub enum PressOutcome {
    /// No press counted: not in the input phase, or no shape pressed.
    Ignored,
    /// The right symbol, with more of the prefix still to reproduce.
    Correct(u8),
    /// The right symbol, completing the prefix: the pattern grows and
    /// playback starts again.
    Completed(u8),
    /// The wrong symbol: the playthrough ends.
    Wrong,
}

/// The state of one playthrough.
pub struct GameState {
    /// The symbols to memorize.
    pub pattern: Vec<u8>,
    /// Player presses are being judged (rather than the pattern shown).
    pub interactive: bool,
    /// Index of the last symbol of the prefix being played: the score.
    pub max_idx: u8,
    /// Cursor into the pattern, for playback or for judging.
    pub idx: u8,
    /// Paces playback, one symbol per period.
    pub timer: PatternAnimationTimer,
}

/// A playthrough as a mathematical value.
pub struct GameModel {
    pub pattern: Seq<u8>,
    pub interactive: bool,
    pub max_idx: u8,
    pub idx: u8,
    pub timer: PatternAnimationTimer,
}

impl View for GameState {
    type V = GameModel;

    open spec fn view(&self) -> GameModel {
        GameModel {
            pattern: self.pattern@,
            interactive: self.interactive,
            max_idx: self.max_idx,
            idx: self.idx,
            timer: self.timer,
        }
    }
}

/// A playthrough under way: a full pattern of symbols, a prefix that fits
/// in it, and a cursor that stays within the prefix while judging and at
/// most one past it while playing back.
pub open spec fn model_wf(m: GameModel) -> bool {
    &&& m.pattern.len() == PATTERN_LEN
    &&& all_symbols(m.pattern)
    &&& m.max_idx < PATTERN_LEN
    &&& m.idx <= m.max_idx + 1
    &&& m.interactive ==> m.idx <= m.max_idx
    &&& m.timer.wf()
}

/// A new playthrough on `pattern`, with playback about to start from the
/// first symbol at a one-symbol prefix.
pub open spec fn fresh_model(pattern: Seq<u8>, timer: PatternAnimationTimer) -> GameModel {
    GameModel {
        pattern,
        interactive: false,
        max_idx: 0,
        idx: 0,
        timer: PatternAnimationTimer { elapsed_ns: 0, ..timer },
    }
}

/// `m` after a frame of `delta` nanoseconds, and what playback shows.
pub open spec fn playback_step(m: GameModel, delta: u64) -> (GameModel, PlaybackEvent) {
    if m.interactive {
        (m, PlaybackEvent::Idle)
    } else {
        let (t, fired) = tick_step(m.timer, delta);
        if !fired {
            (GameModel { timer: t, ..m }, PlaybackEvent::Idle)
        } else if m.idx > m.max_idx {
            (GameModel { interactive: true, idx: 0, timer: t, ..m }, PlaybackEvent::BeginInput)
        } else {
            (GameModel { idx: (m.idx + 1) as u8, timer: t, ..m }, PlaybackEvent::Cue(m.pattern[m.idx as int]))
        }
    }
}

/// The longer prefix after a complete reproduction; at the end of the
/// pattern the game cannot get harder and the prefix stays.
pub open spec fn grown(max_idx: u8) -> u8 {
    if max_idx + 1 < PATTERN_LEN { (max_idx + 1) as u8 } else { max_idx }
}

/// `m` after the player presses `symbol`, and how the press was judged.
pub open spec fn press_step(m: GameModel, symbol: u8) -> (GameModel, PressOutcome) {
    if !m.interactive {
        (m, PressOutcome::Ignored)
    } else if symbol == m.pattern[m.idx as int] {
        if m.idx == m.max_idx {
            (GameModel {
                interactive: false,
                max_idx: grown(m.max_idx),
                idx: 0,
                timer: PatternAnimationTimer { elapsed_ns: 0, ..m.timer },
                ..m
            }, PressOutcome::Completed(symbol))
        } else {
            (GameModel { idx: (m.idx + 1) as u8, ..m }, PressOutcome::Correct(symbol))
        }
    } else {
        (m, PressOutcome::Wrong)
    }
}

/// `m` after the presses `symbols`, in order.
pub open spec fn press_all(m: GameModel, symbols: Seq<u8>) -> GameModel
    decreases symbols.len(),
{
    if symbols.len() == 0 {
        m
    } else {
        press_step(press_all(m, symbols.drop_last()), symbols.last()).0
    }
}

impl GameState {
    /// An empty state, before any pattern: not playing, nothing reproduced,
    /// with a one-second playback period.
    pub fn new() -> (r: GameState)
        ensures
            r@.pattern.len() == 0,
            !r.interactive,
            r.max_idx == 0,
            r.idx == 0,
            r.timer.wf(),
            r.timer.elapsed_ns == 0,
            r.timer.period_ns == NANOS_PER_SEC,
    {
        GameState {
            pattern: Vec::new(),
            interactive: false,
            max_idx: 0,
            idx: 0,
            timer: PatternAnimationTimer::new(NANOS_PER_SEC),
        }
    }

    /// Back to the empty state of `new`, keeping the playback period.
    pub fn reset(&mut self)
        ensures
            final(self)@.pattern.len() == 0,
            !final(self).interactive,
            final(self).max_idx == 0,
            final(self).idx == 0,
            final(self).timer == (PatternAnimationTimer { elapsed_ns: 0, ..old(self).timer }),
    {
        self.pattern = Vec::new();
        self.interactive = false;
        self.max_idx = 0;
        self.idx = 0;
        self.timer.reset();
    }

    /// Well formed: a playthrough under way.
    pub open spec fn wf(&self) -> bool {
        model_wf(self@)
    }

    /// Starts a playthrough on the pattern that the bytes `raw` stand for.
    pub fn start_with(&mut self, raw: &Vec<u8>)
        requires
            raw@.len() == PATTERN_LEN,
            0 < old(self).timer.period_ns,
        ensures
            final(self).wf(),
            final(self)@.pattern.len() == PATTERN_LEN,
            forall|i: int| 0 <= i < PATTERN_LEN ==> #[trigger] final(self)@.pattern[i] == symbol_of(raw@[i]),
            final(self)@ == fresh_model(final(self)@.pattern, old(self).timer),
    {
        self.reset();
        self.pattern = pattern_from_bytes(raw);
    }

    /// Starts a playthrough on a fresh random pattern.
    pub fn start(&mut self)
        requires
            0 < old(self).timer.period_ns,
        ensures
            final(self).wf(),
            final(self)@ == fresh_model(final(self)@.pattern, old(self).timer),
    {
        let raw = random_bytes();
        self.start_with(&raw);
    }

    /// Advances playback by a frame of `delta_ns` nanoseconds.
    pub fn playback_tick(&mut self, delta_ns: u64) -> (r: PlaybackEvent)
        requires
            old(self).wf(),
        ensures
            final(self).wf(),
            (final(self)@, r) == playback_step(old(self)@, delta_ns),
    {
        if self.interactive {
            return PlaybackEvent::Idle;
        }
        let fired = self.timer.tick(delta_ns);
        if !fired {
            PlaybackEvent::Idle
        } else if self.idx > self.max_idx {
            self.interactive = true;
            self.idx = 0;
            PlaybackEvent::BeginInput
        } else {
            let symbol = self.pattern[self.idx as usize];
            self.idx = self.idx + 1;
            PlaybackEvent::Cue(symbol)
        }
    }

    /// Judges a press of `symbol` against the pattern.
    pub fn press(&mut self, symbol: u8) -> (r: PressOutcome)
        requires
            old(self).wf(),
        ensures
            final(self).wf(),
            (final(self)@, r) == press_step(old(self)@, symbol),
    {
        if !self.interactive {
            return PressOutcome::Ignored;
        }
        if symbol == self.pattern[self.idx as usize] {
            if self.idx == self.max_idx {
                self.interactive = false;
                if (self.max_idx as usize) + 1 < PATTERN_LEN {
                    self.max_idx = self.max_idx + 1;
                }
                self.idx = 0;
                self.timer.reset();
                PressOutcome::Completed(symbol)
            } else {
                self.idx = self.idx + 1;
                PressOutcome::Correct(symbol)
            }
        } else {
            PressOutcome::Wrong
        }
    }
}

/// Every shape of `after` is the one of `before` with its disabled flag set
/// to `disabled`.
pub open spec fn all_set_disabled(before: Seq<Hoverable>, after: Seq<Hoverable>, disabled: bool) -> bool {
    &&& after.len() == before.len()
    &&& forall|i: int| 0 <= i < before.len() ==> #[trigger] after[i] == (Hoverable { disabled, ..before[i] })
}

/// One frame of playback: advances the pattern engine and, when the input
/// phase begins, enables the input shapes `pads` (one per symbol, in symbol
/// order).
pub fn pattern_playback_system(state: &mut GameState, pads: &mut Vec<Hoverable>, delta_ns: u64) -> (r: PlaybackEvent)
    requires
        old(state).wf(),
    ensures
        final(state).wf(),
        (final(state)@, r) == playback_step(old(state)@, delta_ns),
        r == PlaybackEvent::BeginInput ==> all_set_disabled(old(pads)@, final(pads)@, false),
        r != PlaybackEvent::BeginInput ==> final(pads)@ == old(pads)@,
        final(pads)@.len() == old(pads)@.len(),
        forall|i: int| 0 <= i < old(pads)@.len()
            ==> #[trigger] final(pads)@[i] == (Hoverable { disabled: final(pads)@[i].disabled, ..old(pads)@[i] }),
{
    let r = state.playback_tick(delta_ns);
    if r == PlaybackEvent::BeginInput {
        set_hover_disabled(pads, false);
    }
    r
}

/// One frame of input judging. On a pointer release in the input phase, the
/// first hovered input shape of `pads` (one per symbol, in symbol order) is
/// the symbol pressed. A press that completes the prefix disables the input
/// shapes again; a wrong press requests the score scene.
pub fn user_game_system(
    state: &mut GameState,
    scenes: &mut SceneMachine,
    pads: &mut Vec<Hoverable>,
    released: bool,
) -> (r: PressOutcome)
    requires
        old(state).wf(),
        old(pads)@.len() == SYMBOL_COUNT,
    ensures
        final(state).wf(),
        r == PressOutcome::Wrong ==> *final(scenes) == (SceneMachine { next: Scene::Score, ..*old(scenes) }),
        r != PressOutcome::Wrong ==> *final(scenes) == *old(scenes),
        r is Completed ==> all_set_disabled(old(pads)@, final(pads)@, true) && !final(state).interactive,
        r != PressOutcome::Ignored ==> old(state).interactive && released,
        r == PressOutcome::Wrong ==> final(state)@ == old(state)@,
        !(r is Completed) ==> final(pads)@ == old(pads)@ && final(state).interactive == old(state).interactive,
        !(old(state).interactive && released) || none_hovered(old(pads)@) ==> {
            &&& r == PressOutcome::Ignored
            &&& final(state)@ == old(state)@
            &&& final(pads)@ == old(pads)@
        },
        forall|k: int| old(state).interactive && released && is_first_hovered(old(pads)@, k) ==> {
            &&& (final(state)@, r) == press_step(old(state)@, k as u8)
            &&& r is Completed ==> all_set_disabled(old(pads)@, final(pads)@, true)
            &&& !(r is Completed) ==> final(pads)@ == old(pads)@
        },
        final(pads)@.len() == old(pads)@.len(),
        forall|i: int| 0 <= i < old(pads)@.len()
            ==> #[trigger] final(pads)@[i] == (Hoverable { disabled: final(pads)@[i].disabled, ..old(pads)@[i] }),
{
    if !(state.interactive && released) {
        return PressOutcome::Ignored;
    }
    match first_hovered(pads) {
        None => PressOutcome::Ignored,
        Some(k) => {
            proof {
                assert forall|l: int| is_first_hovered(old(pads)@, l) implies l == k as int by {
                    crate::hover::lemma_first_hovered_unique(old(pads)@, l, k as int);
                }
            }
            let r = state.press(k as u8);
            match r {
                PressOutcome::Completed(_) => set_hover_disabled(pads, true),
                PressOutcome::Wrong => scenes.request(Scene::Score),
                _ => {},
            }
            r
        },
    }
}

/// The input shape for `symbol` in a window of half extents `hw` by `hh`:
/// the triangle between the centre and one side of the window (top, right,
/// bottom, left for symbols 0 to 3), not hovered, disabled, and no
/// scene-change control.
pub open spec fn pad(hw: i32, hh: i32, symbol: int) -> Hoverable {
    let center = Point { x: 0, y: 0 };
    let tl = Point { x: -hw as i32, y: hh };
    let tr = Point { x: hw, y: hh };
    let bl = Point { x: -hw as i32, y: -hh as i32 };
    let br = Point { x: hw, y: -hh as i32 };
    let shape = if symbol == 0 {
        HoverShape::Triangle { a: center, b: tl, c: tr }
    } else if symbol == 1 {
        HoverShape::Triangle { a: center, b: tr, c: br }
    } else if symbol == 2 {
        HoverShape::Triangle { a: center, b: bl, c: br }
    } else {
        HoverShape::Triangle { a: center, b: tl, c: bl }
    };
    Hoverable {
        tracker: MouseHoverTracker { is_hovered: false, is_just_hovered: false, is_just_unhovered: false, shape },
        origin: center,
        disabled: true,
        target: None,
    }
}

/// The four input shapes, in symbol order.
pub open spec fn pads_layout(hw: i32, hh: i32) -> Seq<Hoverable> {
    seq![pad(hw, hh, 0), pad(hw, hh, 1), pad(hw, hh, 2), pad(hw, hh, 3)]
}

/// The four input shapes of the game for a window of half extents
/// `half_width` by `half_height`, in symbol order.
pub fn game_pads(half_width: i32, half_height: i32) -> (r: Vec<Hoverable>)
    requires
        half_width >= 0,
        half_height >= 0,
    ensures
        r@ == pads_layout(half_width, half_height),
{
    let center = Point::new(0, 0);
    let tl = Point::new(-half_width, half_height);
    let tr = Point::new(half_width, half_height);
    let bl = Point::new(-half_width, -half_height);
    let br = Point::new(half_width, -half_height);
    let mut r: Vec<Hoverable> = Vec::new();
    r.push(Hoverable { tracker: MouseHoverTracker::from_triangle(center, tl, tr), origin: center, disabled: true, target: None });
    r.push(Hoverable { tracker: MouseHoverTracker::from_triangle(center, tr, br), origin: center, disabled: true, target: None });
    r.push(Hoverable { tracker: MouseHoverTracker::from_triangle(center, bl, br), origin: center, disabled: true, target: None });
    r.push(Hoverable { tracker: MouseHoverTracker::from_triangle(center, tl, bl), origin: center, disabled: true, target: None });
    assert(r@ =~= pads_layout(half_width, half_height));
    r
}

proof fn lemma_correct_prefix(m: GameModel, k: nat)
    requires
        model_wf(m),
        m.interactive,
        m.idx == 0,
        k <= m.max_idx,
    ensures
        press_all(m, m.pattern.take(k as int)) == (GameModel { idx: k as u8, ..m }),
    decreases k,
{
    if k > 0 {
        let s = m.pattern.take(k as int);
        assert(s.drop_last() =~= m.pattern.take(k - 1));
        lemma_correct_prefix(m, (k - 1) as nat);
    } else {
        assert(m.pattern.take(0).len() == 0);
        assert(m == GameModel { idx: 0, ..m });
    }
}

/// Starting the input phase at a prefix of `max_idx + 1` symbols and pressing
/// exactly those symbols in order, each press but the last is judged correct
/// (never wrong), keeps the input phase and moves the cursor on by one; the
/// last one is judged complete, grows the prefix by exactly one, puts the cursor back to the start, ends the input phase and
/// restarts the playback timer from zero. The pattern stays the same.
pub proof fn lemma_correct_round(m: GameModel)
    requires
        model_wf(m),
        m.interactive,
        m.idx == 0,
        m.max_idx + 1 < PATTERN_LEN,
    ensures
        forall|k: nat| k <= m.max_idx ==> press_all(m, #[trigger] m.pattern.take(k as int))
            == (GameModel { idx: k as u8, ..m }),
        forall|k: nat| k < m.max_idx ==> #[trigger] press_step(GameModel { idx: k as u8, ..m }, m.pattern[k as int]).1
            == PressOutcome::Correct(m.pattern[k as int]),
        press_step(GameModel { idx: m.max_idx, ..m }, m.pattern[m.max_idx as int]).1
            == PressOutcome::Completed(m.pattern[m.max_idx as int]),
        press_all(m, m.pattern.take(m.max_idx + 1)) == (GameModel {
            interactive: false,
            max_idx: (m.max_idx + 1) as u8,
            idx: 0,
            timer: PatternAnimationTimer { elapsed_ns: 0, ..m.timer },
            ..m
        }),
{
    assert forall|k: nat| k <= m.max_idx implies press_all(m, #[trigger] m.pattern.take(k as int))
        == (GameModel { idx: k as u8, ..m }) by {
        lemma_correct_prefix(m, k);
    }
    let n = m.max_idx + 1;
    let s = m.pattern.take(n);
    assert(s.drop_last() =~= m.pattern.take(m.max_idx as int));
    lemma_correct_prefix(m, m.max_idx as nat);
}

/// A wrong press changes nothing of the playthrough: the prefix, the cursor
/// and the pattern stay as they were.
pub proof fn lemma_wrong_press_keeps_state(m: GameModel, symbol: u8)
    requires
        model_wf(m),
        m.interactive,
        symbol != m.pattern[m.idx as int],
    ensures
        press_step(m, symbol) == (m, PressOutcome::Wrong),
{
}

} // verus!
