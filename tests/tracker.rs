use dikt::region::{HitRect, RegionStore, ScaleFactor};
use dikt::tracker::{
    ensure_layered_visible, toggle_ex_transparent, CursorTracker, TickActions, TickObservation,
    EX_STYLE_LAYERED, EX_STYLE_TRANSPARENT, WATCHDOG_INTERVAL,
};

fn cursor(x: i32, y: i32) -> TickObservation {
    TickObservation::Cursor { window_left: 100, window_top: 200, cursor_x: x, cursor_y: y }
}

fn store_with(rects: Vec<HitRect>) -> RegionStore {
    let mut store = RegionStore::new();
    store.update(rects, ScaleFactor::new(1, 1).unwrap());
    store
}

#[test]
fn toggle_twice_writes_once() {
    let style: isize = 0x0100;
    let first = toggle_ex_transparent(style, true);
    assert_eq!(first, Some(style | EX_STYLE_TRANSPARENT));
    assert_eq!(toggle_ex_transparent(first.unwrap(), true), None);
    let cleared = toggle_ex_transparent(first.unwrap(), false);
    assert_eq!(cleared, Some(style));
    assert_eq!(toggle_ex_transparent(style, false), None);
}

#[test]
fn toggle_keeps_the_layered_bit() {
    let style = EX_STYLE_LAYERED | 0x8;
    assert_eq!(toggle_ex_transparent(style, true), Some(style | EX_STYLE_TRANSPARENT));
    assert_eq!(toggle_ex_transparent(style | EX_STYLE_TRANSPARENT, false), Some(style));
}

#[test]
fn layering_is_set_once() {
    assert_eq!(ensure_layered_visible(0x20), Some(0x20 | EX_STYLE_LAYERED));
    assert_eq!(ensure_layered_visible(0x20 | EX_STYLE_LAYERED), None);
}

#[test]
fn tracker_toggles_once_per_change() {
    let store = store_with(vec![HitRect { x: 0, y: 0, w: 50, h: 50 }]);
    let mut t = CursorTracker::new();
    assert_eq!(t, CursorTracker { pass_through: true, tick: 0 });
    let a = t.on_tick(store.snapshot(), cursor(110, 210));
    assert_eq!(a.set_pass_through, Some(false));
    let a = t.on_tick(store.snapshot(), cursor(120, 220));
    assert_eq!(a.set_pass_through, None);
    let a = t.on_tick(store.snapshot(), cursor(150, 210));
    assert_eq!(a.set_pass_through, Some(true));
    let a = t.on_tick(store.snapshot(), cursor(500, 500));
    assert_eq!(a.set_pass_through, None);
    assert!(t.pass_through);
}

#[test]
fn failed_queries_change_nothing() {
    let store = store_with(vec![HitRect { x: 0, y: 0, w: 50, h: 50 }]);
    let mut t = CursorTracker::new();
    t.on_tick(store.snapshot(), cursor(110, 210));
    for obs in [TickObservation::QueryFailed, TickObservation::Hidden] {
        let a = t.on_tick(store.snapshot(), obs);
        assert_eq!(a, TickActions { stop: false, restore_visibility: false, set_pass_through: None });
        assert!(!t.pass_through);
    }
    assert_eq!(t.tick, 3);
}

#[test]
fn tracker_stops_when_window_is_gone() {
    let store = store_with(Vec::new());
    let mut t = CursorTracker::new();
    let a = t.on_tick(store.snapshot(), TickObservation::WindowGone);
    assert_eq!(a, TickActions { stop: true, restore_visibility: false, set_pass_through: None });
    assert_eq!(t, CursorTracker::new());
}

#[test]
fn watchdog_fires_every_interval() {
    let store = store_with(Vec::new());
    let mut t = CursorTracker::new();
    for n in 1..=(2 * WATCHDOG_INTERVAL) {
        let obs = if n % 3 == 0 { TickObservation::Hidden } else { cursor(0, 0) };
        let a = t.on_tick(store.snapshot(), obs);
        assert_eq!(a.restore_visibility, n % WATCHDOG_INTERVAL == 0, "tick {}", n);
    }
    assert_eq!(WATCHDOG_INTERVAL, 600);
}

#[test]
fn tick_counter_wraps() {
    let store = store_with(Vec::new());
    let mut t = CursorTracker { pass_through: true, tick: u32::MAX };
    let a = t.on_tick(store.snapshot(), TickObservation::QueryFailed);
    assert_eq!(t.tick, 0);
    assert!(a.restore_visibility);
}
