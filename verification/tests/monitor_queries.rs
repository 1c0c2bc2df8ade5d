use langtip::monitors::MonitorInfo;
use langtip::monitors::get_monitor_count;
use langtip::monitors::get_primary_monitor;
use langtip::monitors::sort_monitors;

fn monitor(x: i32, y: i32, primary: bool) -> MonitorInfo {
    MonitorInfo {
        x,
        y,
        width: 1920,
        height: 1080,
        work_x: x,
        work_y: y,
        work_width: 1920,
        work_height: 1040,
        is_primary: primary,
    }
}

#[test]
fn edges() {
    let m = monitor(100, 50, true);
    assert_eq!(m.right(), 100 + 1920);
    assert_eq!(m.bottom(), 50 + 1080);
}

#[test]
fn sorting_puts_primary_first() {
    let monitors = vec![
        monitor(1920, 0, false),
        monitor(-1920, 0, false),
        monitor(0, 0, true),
    ];
    let sorted = sort_monitors(&monitors);
    assert_eq!(sorted.len(), 3);
    assert!(sorted[0].is_primary);
    assert_eq!(sorted[0].x, 0);
    assert_eq!(sorted[1].x, -1920);
    assert_eq!(sorted[2].x, 1920);
}

#[test]
fn sorting_orders_by_x_then_y() {
    let monitors = vec![
        monitor(0, 1080, false),
        monitor(1920, 0, false),
        monitor(0, 0, false),
    ];
    let sorted = sort_monitors(&monitors);
    assert_eq!((sorted[0].x, sorted[0].y), (0, 0));
    assert_eq!((sorted[1].x, sorted[1].y), (0, 1080));
    assert_eq!((sorted[2].x, sorted[2].y), (1920, 0));
}

#[test]
fn primary_lookup() {
    let monitors = vec![monitor(1920, 0, false), monitor(0, 0, true)];
    let primary = get_primary_monitor(&monitors).unwrap();
    assert!(primary.is_primary);
    assert_eq!(primary.x, 0);
    let none = get_primary_monitor(&vec![monitor(0, 0, false)]);
    assert!(none.is_none());
}

#[test]
fn counting() {
    assert_eq!(get_monitor_count(&vec![]), 0);
    assert_eq!(get_monitor_count(&vec![monitor(0, 0, true), monitor(1920, 0, false)]), 2);
}
