use vstd::prelude::*;
use crate::region::{any_holds_scaled, HitRect, RegionSnapshot, ScaleFactor};

verus! {

/// Extended window style bit that makes the window transparent to input from
/// every process.
pub const EX_STYLE_TRANSPARENT: isize = 0x20;

/// Extended window style bit that puts the window on the compositor's layered path.
pub const EX_STYLE_LAYERED: isize = 0x8_0000;

/// Opacity that the layered window is pinned to.
pub const FULL_OPACITY: u8 = 255;

/// Time between two cursor samples.
pub const POLL_INTERVAL_MS: u64 = 50;

/// Number of ticks between two visibility re-assertions (30 s at 50 ms a tick).
pub const WATCHDOG_INTERVAL: u32 = 600;

/// The extended style after setting (`enable`) or clearing the transparent
/// bit, or `None` when the style already has the wanted bit and nothing is to
/// be written. Every other bit, the layered one included, is kept.
pub open spec fn transparent_style(ex_style: isize, enable: bool) -> Option<isize> {
    let next = if enable {
        ex_style | EX_STYLE_TRANSPARENT
    } else {
        ex_style & !EX_STYLE_TRANSPARENT
    };
    if next != ex_style {
        Some(next)
    } else {
        None
    }
}

/// The extended style with the layered bit set, or `None` when it is set already.
pub open spec fn layered_style(ex_style: isize) -> Option<isize> {
    if ex_style & EX_STYLE_LAYERED == 0 {
        Some(ex_style | EX_STYLE_LAYERED)
    } else {
        None
    }
}

/// The style to write so that the transparent bit is `enable`, if any.
pub fn toggle_ex_transparent(ex_style: isize, enable: bool) -> (r: Option<isize>)
    ensures
        r == transparent_style(ex_style, enable),
{
    let next = if enable {
        ex_style | EX_STYLE_TRANSPARENT
    } else {
        ex_style & !EX_STYLE_TRANSPARENT
    };
    if next != ex_style {
        Some(next)
    } else {
        None
    }
}

/// The style to write so that the window is layered, if any. The opacity is
/// re-asserted at `FULL_OPACITY` whatever this returns.
pub fn ensure_layered_visible(ex_style: isize) -> (r: Option<isize>)
    ensures
        r == layered_style(ex_style),
{
    if ex_style & EX_STYLE_LAYERED == 0 {
        Some(ex_style | EX_STYLE_LAYERED)
    } else {
        None
    }
}

/// A toggle asks for a write exactly when the transparent bit differs from
/// the wanted state; once that write is made, toggling to the same state
/// again asks for none.
pub proof fn toggle_is_idempotent(ex_style: isize, enable: bool)
    ensures
        (transparent_style(ex_style, enable) is Some) == ((ex_style & EX_STYLE_TRANSPARENT != 0) != enable),
        ({
            let after = match transparent_style(ex_style, enable) {
                Some(s) => s,
                None => ex_style,
            };
            transparent_style(after, enable) is None
        }),
{
    let t = EX_STYLE_TRANSPARENT;
    assert(t == 0x20isize);
    assert((ex_style | t) | t == ex_style | t) by (bit_vector);
    assert((ex_style & !t) & !t == ex_style & !t) by (bit_vector);
    assert(((ex_style | 0x20isize) != ex_style) == (ex_style & 0x20isize == 0)) by (bit_vector);
    assert(((ex_style & !0x20isize) != ex_style) == (ex_style & 0x20isize != 0)) by (bit_vector);
}

/// Re-asserting the layered bit is idempotent: once written, it is not written again.
pub proof fn layering_is_idempotent(ex_style: isize)
    ensures
        ({
            let after = match layered_style(ex_style) {
                Some(s) => s,
                None => ex_style,
            };
            layered_style(after) is None
        }),
{
    let l = EX_STYLE_LAYERED;
    assert(l == 0x8_0000isize);
    assert((ex_style | 0x8_0000isize) & 0x8_0000isize != 0) by (bit_vector);
}

/// What the cursor tracker saw of the window and the cursor on one tick.
#[derive(Clone, Copy, Debug, PartialEq, Eq, Structural)]
pub enum TickObservation {
    /// The window handle is no longer valid.
    WindowGone,
    /// The window is valid but not visible.
    Hidden,
    /// The window rectangle or the cursor position could not be read.
    QueryFailed,
    /// Screen position of the window's top-left corner and of the cursor.
    Cursor { window_left: i32, window_top: i32, cursor_x: i32, cursor_y: i32 },
}

/// What the cursor tracker asks of the window after one tick.
#[derive(Clone, Copy, Debug, PartialEq, Eq, Structural)]
pub struct TickActions {
    /// The tracker is done: the window is gone.
    pub stop: bool,
    /// Re-assert layering and opacity now.
    pub restore_visibility: bool,
    /// Set (`true`) or clear (`false`) the transparent style bit.
    pub set_pass_through: Option<bool>,
}

/// State of the style-based realizer: whether the window currently ignores
/// input, and the tick counter of the watchdog.
#[derive(Clone, Copy, Debug, PartialEq, Eq, Structural)]
pub struct CursorTracker {
    pub pass_through: bool,
    pub tick: u32,
}

/// The counter after one more tick, wrapping at the top of `u32`.
pub open spec fn next_tick(t: u32) -> u32 {
    if t == u32::MAX {
        0
    } else {
        (t + 1) as u32
    }
}

pub open spec fn watchdog_due(tick: u32) -> bool {
    tick % WATCHDOG_INTERVAL == 0
}

/// One tick of the tracker: the next state and the actions it asks for.
pub open spec fn step(
    t: CursorTracker,
    rects: Seq<HitRect>,
    s: ScaleFactor,
    obs: TickObservation,
) -> (CursorTracker, TickActions) {
    match obs {
        TickObservation::WindowGone => (
            t,
            TickActions { stop: true, restore_visibility: false, set_pass_through: None },
        ),
        TickObservation::Cursor { window_left, window_top, cursor_x, cursor_y } => {
            let tick = next_tick(t.tick);
            let inside = any_holds_scaled(
                rects,
                s,
                cursor_x - window_left,
                cursor_y - window_top,
            );
            let want = !inside;
            (
                CursorTracker { pass_through: want, tick },
                TickActions {
                    stop: false,
                    restore_visibility: watchdog_due(tick),
                    set_pass_through: if want != t.pass_through {
                        Some(want)
                    } else {
                        None
                    },
                },
            )
        },
        _ => {
            let tick = next_tick(t.tick);
            (
                CursorTracker { pass_through: t.pass_through, tick },
                TickActions {
                    stop: false,
                    restore_visibility: watchdog_due(tick),
                    set_pass_through: None,
                },
            )
        },
    }
}

impl CursorTracker {
    /// The tracker right after setup, which leaves the window passing input through.
    pub fn new() -> (r: CursorTracker)
        ensures
            r == (CursorTracker { pass_through: true, tick: 0 }),
    {
        CursorTracker { pass_through: true, tick: 0 }
    }

    /// Advances the tracker by one tick.
    pub fn on_tick(&mut self, snapshot: &RegionSnapshot, obs: TickObservation) -> (a: TickActions)
        ensures
            (*final(self), a) == step(*old(self), snapshot.rects@, snapshot.scale, obs),
    {
        match obs {
            TickObservation::WindowGone => {
                TickActions { stop: true, restore_visibility: false, set_pass_through: None }
            },
            TickObservation::Cursor { window_left, window_top, cursor_x, cursor_y } => {
                self.tick = self.tick.wrapping_add(1);
                let x_local = cursor_x as i64 - window_left as i64;
                let y_local = cursor_y as i64 - window_top as i64;
                let inside = snapshot.contains_physical(x_local, y_local);
                let want = !inside;
                let set_pass_through = if want != self.pass_through {
                    Some(want)
                } else {
                    None
                };
                self.pass_through = want;
                TickActions {
                    stop: false,
                    restore_visibility: self.tick % WATCHDOG_INTERVAL == 0,
                    set_pass_through,
                }
            },
            _ => {
                self.tick = self.tick.wrapping_add(1);
                TickActions {
                    stop: false,
                    restore_visibility: self.tick % WATCHDOG_INTERVAL == 0,
                    set_pass_through: None,
                }
            },
        }
    }
}

/// The tracker after a run of ticks.
pub open spec fn run(
    t: CursorTracker,
    rects: Seq<HitRect>,
    s: ScaleFactor,
    obs: Seq<TickObservation>,
) -> CursorTracker
    decreases obs.len(),
{
    if obs.len() == 0 {
        t
    } else {
        step(run(t, rects, s, obs.drop_last()), rects, s, obs.last()).0
    }
}

proof fn lemma_run_counts_ticks(rects: Seq<HitRect>, s: ScaleFactor, obs: Seq<TickObservation>)
    requires
        obs.len() <= u32::MAX,
        forall|i: int| 0 <= i < obs.len() ==> !(#[trigger] obs[i] is WindowGone),
    ensures
        run(CursorTracker { pass_through: true, tick: 0 }, rects, s, obs).tick == obs.len(),
    decreases obs.len(),
{
    if obs.len() > 0 {
        let prefix = obs.drop_last();
        assert forall|i: int| 0 <= i < prefix.len() implies !(#[trigger] prefix[i] is WindowGone) by {
            assert(prefix[i] == obs[i]);
        }
        lemma_run_counts_ticks(rects, s, prefix);
        assert(!(obs[obs.len() - 1] is WindowGone));
    }
}

/// Starting from setup, while the window stays valid, the watchdog re-asserts
/// visibility on a tick exactly when the number of ticks so far is a multiple
/// of `WATCHDOG_INTERVAL`: never before the interval has elapsed, and on the
/// tick that completes it.
pub proof fn watchdog_fires_on_interval(
    rects: Seq<HitRect>,
    s: ScaleFactor,
    obs: Seq<TickObservation>,
)
    requires
        1 <= obs.len() <= u32::MAX,
        forall|i: int| 0 <= i < obs.len() ==> !(#[trigger] obs[i] is WindowGone),
    ensures
        step(
            run(CursorTracker { pass_through: true, tick: 0 }, rects, s, obs.drop_last()),
            rects,
            s,
            obs.last(),
        ).1.restore_visibility <==> obs.len() % (WATCHDOG_INTERVAL as nat) == 0,
{
    let prefix = obs.drop_last();
    assert forall|i: int| 0 <= i < prefix.len() implies !(#[trigger] prefix[i] is WindowGone) by {
        assert(prefix[i] == obs[i]);
    }
    lemma_run_counts_ticks(rects, s, prefix);
    assert(!(obs[obs.len() - 1] is WindowGone));
}

/// The pass-through state that a cursor sample asks for: pass input through
/// unless the cursor lies in an interactive rectangle.
pub open spec fn wanted_pass_through(rects: Seq<HitRect>, s: ScaleFactor, obs: TickObservation) -> bool {
    match obs {
        TickObservation::Cursor { window_left, window_top, cursor_x, cursor_y } => !any_holds_scaled(
            rects,
            s,
            cursor_x - window_left,
            cursor_y - window_top,
        ),
        _ => false,
    }
}

/// Two cursor samples in a row that want the same pass-through state change
/// the style bit at most once: the first asks for the change exactly when
/// the state differs, the second never does.
pub proof fn same_target_toggles_once(
    t: CursorTracker,
    rects: Seq<HitRect>,
    s: ScaleFactor,
    first: TickObservation,
    second: TickObservation,
)
    requires
        first is Cursor,
        second is Cursor,
        wanted_pass_through(rects, s, first) == wanted_pass_through(rects, s, second),
    ensures
        step(t, rects, s, first).1.set_pass_through == (if wanted_pass_through(rects, s, first)
            != t.pass_through {
            Some(wanted_pass_through(rects, s, first))
        } else {
            None
        }),
        step(step(t, rects, s, first).0, rects, s, second).1.set_pass_through is None,
{
}

/// Whether the extended style has the transparent bit.
pub open spec fn has_transparent_bit(ex_style: isize) -> bool {
    ex_style & EX_STYLE_TRANSPARENT != 0
}

/// The style after the write, if any, that a tick asks for.
pub open spec fn style_after(ex_style: isize, a: TickActions) -> isize {
    match a.set_pass_through {
        Some(enable) => match transparent_style(ex_style, enable) {
            Some(next) => next,
            None => ex_style,
        },
        None => ex_style,
    }
}

/// The tracker's state mirrors the window's transparent bit: if they agree
/// before a tick and the window carries out what the tick asks for, they
/// agree after it.
pub proof fn state_mirrors_style_bit(
    t: CursorTracker,
    rects: Seq<HitRect>,
    s: ScaleFactor,
    obs: TickObservation,
    ex_style: isize,
)
    requires
        has_transparent_bit(ex_style) == t.pass_through,
    ensures
        has_transparent_bit(style_after(ex_style, step(t, rects, s, obs).1)) == step(t, rects, s, obs).0.pass_through,
{
    assert(EX_STYLE_TRANSPARENT == 0x20isize);
    assert((ex_style | 0x20isize) & 0x20isize != 0) by (bit_vector);
    assert((ex_style & !0x20isize) & 0x20isize == 0) by (bit_vector);
}

} // verus!
