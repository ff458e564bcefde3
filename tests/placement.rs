use dikt::placement::{bottom_centre_position, monitor_bounds, rect_inside_rect, work_area_bounds, Bounds};

#[test]
fn inside_check() {
    assert!(rect_inside_rect(0, 0, 10, 10, 0, 0, 10, 10));
    assert!(!rect_inside_rect(-1, 0, 10, 10, 0, 0, 10, 10));
    assert!(!rect_inside_rect(0, 0, 11, 10, 0, 0, 10, 10));
}

#[test]
fn work_area_used_only_inside_monitor() {
    let monitor = monitor_bounds(0, 0, 1920, 1080);
    assert_eq!(monitor, Bounds { left: 0, top: 0, right: 1920, bottom: 1080 });
    let taskbar = Bounds { left: 0, top: 0, right: 1920, bottom: 1040 };
    assert_eq!(work_area_bounds(monitor, Some(taskbar)), taskbar);
    let other = Bounds { left: 1920, top: 0, right: 3840, bottom: 1040 };
    assert_eq!(work_area_bounds(monitor, Some(other)), monitor);
    assert_eq!(work_area_bounds(monitor, None), monitor);
}

#[test]
fn bottom_centre() {
    let area = Bounds { left: 0, top: 0, right: 1920, bottom: 1040 };
    assert_eq!(bottom_centre_position(area, 400, 100), (760, 930));
    // odd leftover: 1921 - 400 = 1521, half is 760.5, rounded away from zero
    let area = Bounds { left: 0, top: 0, right: 1921, bottom: 1040 };
    assert_eq!(bottom_centre_position(area, 400, 100), (761, 930));
    let area = Bounds { left: -1921, top: 0, right: 0, bottom: 1040 };
    assert_eq!(bottom_centre_position(area, 400, 100), (-1161, 930));
}
