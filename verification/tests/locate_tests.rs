use kbd_overlay::{diagnose, locate, overlay_position, MonitorInfo, MonitorRect, WindowBounds};

fn two_monitors() -> Vec<MonitorRect> {
    vec![
        MonitorRect { x: 0, y: 0, width: 1920, height: 1080 },
        MonitorRect { x: 1920, y: 0, width: 1280, height: 1024 },
    ]
}

#[test]
fn active_window_centre_wins_over_pointer() {
    let active = WindowBounds { x: 100, y: 100, width: 300, height: 200 };
    let anchor = locate(Some(active), Some((2000, 500)), &two_monitors()).unwrap();
    assert_eq!(anchor.x, 250);
    assert_eq!(anchor.y, 200);
    assert_eq!(anchor.monitor, two_monitors()[0]);
}

#[test]
fn pointer_on_second_monitor_resolves_to_second_monitor() {
    let anchor = locate(None, Some((2000, 500)), &two_monitors()).unwrap();
    assert_eq!(anchor.x, 2000);
    assert_eq!(anchor.y, 500);
    assert_eq!(anchor.monitor, two_monitors()[1]);
}

#[test]
fn active_window_on_second_monitor_resolves_to_second_monitor() {
    let active = WindowBounds { x: 2100, y: 10, width: 400, height: 300 };
    let anchor = locate(Some(active), None, &two_monitors()).unwrap();
    assert_eq!(anchor.x, 2300);
    assert_eq!(anchor.monitor, two_monitors()[1]);
}

#[test]
fn no_signal_gives_no_anchor() {
    assert!(locate(None, None, &two_monitors()).is_none());
}

#[test]
fn point_outside_every_monitor_gives_no_anchor() {
    assert!(locate(None, Some((-5, -5)), &two_monitors()).is_none());
    assert!(locate(None, Some((5000, 500)), &two_monitors()).is_none());
}

#[test]
fn monitor_edges_are_half_open() {
    let anchor = locate(None, Some((1919, 0)), &two_monitors()).unwrap();
    assert_eq!(anchor.monitor, two_monitors()[0]);
    let anchor = locate(None, Some((1920, 0)), &two_monitors()).unwrap();
    assert_eq!(anchor.monitor, two_monitors()[1]);
}

#[test]
fn placement_is_bottom_centred() {
    let m = MonitorRect { x: 0, y: 0, width: 1920, height: 1080 };
    assert_eq!(overlay_position(&m, 742, 235), (589, 845));
}

#[test]
fn placement_respects_the_monitor_origin() {
    let m = MonitorRect { x: 1920, y: -200, width: 1280, height: 1024 };
    assert_eq!(overlay_position(&m, 742, 235), (1920 + (1280 - 742) / 2, -200 + 1024 - 235));
}

#[test]
fn placement_of_an_oversized_window_goes_left_of_the_monitor() {
    let m = MonitorRect { x: 0, y: 0, width: 600, height: 400 };
    assert_eq!(overlay_position(&m, 742, 235), (-((742 - 600) / 2) as i64, 165));
}

#[test]
fn diagnose_lists_each_monitor_with_its_index() {
    let monitors = vec![
        MonitorInfo { name: "eDP-1".to_string(), scale: "1".to_string() },
        MonitorInfo { name: "HDMI-1".to_string(), scale: "1.25".to_string() },
    ];
    let lines = diagnose(&monitors);
    assert_eq!(lines.len(), 2);
    assert_eq!(lines[0], "Monitor 0: eDP-1, scale 1");
    assert_eq!(lines[1], "Monitor 1: HDMI-1, scale 1.25");
}

#[test]
fn diagnose_numbers_run_past_ten() {
    let mut monitors = Vec::new();
    for _ in 0..12 {
        monitors.push(MonitorInfo { name: "m".to_string(), scale: "2".to_string() });
    }
    let lines = diagnose(&monitors);
    assert_eq!(lines[11], "Monitor 11: m, scale 2");
}
