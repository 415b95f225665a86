use display_warp::geometry::SerializableRect;
use display_warp::models::{AppProfile, MonitorInfo};
use display_warp::monitor::{
    find_monitor_rect, resolve_target_rect, restore_monitor_layout, snapshot_monitor_layout,
    switch_primary_to, DisplayChange,
};

fn rect(left: i32, top: i32, right: i32, bottom: i32) -> SerializableRect {
    SerializableRect::new(left, top, right, bottom)
}

fn two_monitors() -> Vec<MonitorInfo> {
    vec![
        MonitorInfo::new("\\\\.\\DISPLAY1".to_string(), rect(0, 0, 1920, 1080)),
        MonitorInfo::new("\\\\.\\DISPLAY2".to_string(), rect(1920, 0, 3840, 1080)),
    ]
}

fn profile(monitor: &str, cached: Option<SerializableRect>) -> AppProfile {
    AppProfile {
        name: "Game".to_string(),
        exe_path: "C:\\Games\\game.exe".to_string(),
        target_monitor_name: monitor.to_string(),
        target_monitor_rect: cached,
        window_process_name: None,
        force_primary: false,
        persistent_monitor: false,
        target_audio_device_id: None,
    }
}

/// Applies a committed batch of position-only changes to a layout, the way
/// the display settings do: a named monitor moves, keeping its size.
fn apply(monitors: &[MonitorInfo], changes: &[DisplayChange]) -> Vec<MonitorInfo> {
    monitors
        .iter()
        .map(|m| match changes.iter().find(|c| c.device_name == m.device_name) {
            Some(c) => {
                let w = m.rect.right - m.rect.left;
                let h = m.rect.bottom - m.rect.top;
                MonitorInfo::new(m.device_name.clone(), rect(c.x, c.y, c.x + w, c.y + h))
            }
            None => m.clone(),
        })
        .collect()
}

#[test]
fn find_monitor_rect_matches_exact_name() {
    let ms = two_monitors();
    assert_eq!(find_monitor_rect(&ms, &"\\\\.\\DISPLAY2".to_string()), Some(rect(1920, 0, 3840, 1080)));
    assert_eq!(find_monitor_rect(&ms, &"\\\\.\\display2".to_string()), None);
    assert_eq!(find_monitor_rect(&ms, &"\\\\.\\DISPLAY3".to_string()), None);
    assert_eq!(find_monitor_rect(&Vec::new(), &"\\\\.\\DISPLAY1".to_string()), None);
}

#[test]
fn find_monitor_rect_takes_first_of_equal_names() {
    let ms = vec![
        MonitorInfo::new("A".to_string(), rect(0, 0, 10, 10)),
        MonitorInfo::new("A".to_string(), rect(10, 0, 20, 10)),
    ];
    assert_eq!(find_monitor_rect(&ms, &"A".to_string()), Some(rect(0, 0, 10, 10)));
}

#[test]
fn resolve_prefers_live_monitor_over_cached() {
    let ms = two_monitors();
    let p = profile("\\\\.\\DISPLAY2", Some(rect(5, 5, 6, 6)));
    assert_eq!(resolve_target_rect(&p, &ms), Some(rect(1920, 0, 3840, 1080)));
}

#[test]
fn resolve_falls_back_to_cached_rect() {
    let ms = two_monitors();
    let p = profile("\\\\.\\DISPLAY9", Some(rect(-1280, 0, 0, 1024)));
    assert_eq!(resolve_target_rect(&p, &ms), Some(rect(-1280, 0, 0, 1024)));
}

#[test]
fn resolve_reports_absent_when_both_fail() {
    let ms = two_monitors();
    let p = profile("\\\\.\\DISPLAY9", None);
    assert_eq!(resolve_target_rect(&p, &ms), None);
}

#[test]
fn switch_primary_to_second_display() {
    let ms = two_monitors();
    let cs = switch_primary_to(&"\\\\.\\DISPLAY2".to_string(), &ms).unwrap();
    assert_eq!(cs.len(), 2);
    assert_eq!(cs[0].device_name, "\\\\.\\DISPLAY1");
    assert_eq!((cs[0].x, cs[0].y, cs[0].set_primary), (-1920, 0, false));
    assert_eq!(cs[1].device_name, "\\\\.\\DISPLAY2");
    assert_eq!((cs[1].x, cs[1].y, cs[1].set_primary), (0, 0, true));
}

#[test]
fn switch_primary_to_unknown_display_fails() {
    let ms = two_monitors();
    assert!(switch_primary_to(&"\\\\.\\DISPLAY3".to_string(), &ms).is_none());
}

#[test]
fn switch_primary_refuses_unrepresentable_positions() {
    let ms = vec![
        MonitorInfo::new("A".to_string(), rect(i32::MIN, 0, i32::MIN + 100, 100)),
        MonitorInfo::new("B".to_string(), rect(1000, 0, 2000, 100)),
    ];
    assert!(switch_primary_to(&"B".to_string(), &ms).is_none());
    assert!(switch_primary_to(&"A".to_string(), &ms).is_none());
}

#[test]
fn restore_marks_origin_monitor_primary() {
    let ms = two_monitors();
    let snapshot = snapshot_monitor_layout(&ms);
    assert_eq!(snapshot.len(), 2);
    assert_eq!(snapshot[1].device_name, "\\\\.\\DISPLAY2");
    assert_eq!(snapshot[1].rect, rect(1920, 0, 3840, 1080));
    let cs = restore_monitor_layout(&snapshot);
    assert_eq!((cs[0].x, cs[0].y, cs[0].set_primary), (0, 0, true));
    assert_eq!((cs[1].x, cs[1].y, cs[1].set_primary), (1920, 0, false));
}

#[test]
fn force_primary_scenario_switch_then_restore() {
    let before = two_monitors();
    let snapshot = snapshot_monitor_layout(&before);
    let switch = switch_primary_to(&"\\\\.\\DISPLAY2".to_string(), &before).unwrap();
    let switched = apply(&before, &switch);
    assert_eq!(switched[1].rect, rect(0, 0, 1920, 1080));
    assert!(switch[1].set_primary);
    assert_eq!(switched[0].rect, rect(-1920, 0, 0, 1080));
    assert!(!switch[0].set_primary);
    let restored = apply(&switched, &restore_monitor_layout(&snapshot));
    assert_eq!(restored[0].rect, rect(0, 0, 1920, 1080));
    assert!(restored[0].rect.at_origin());
    assert_eq!(restored[1].rect, rect(1920, 0, 3840, 1080));
}

#[test]
fn switch_and_restore_round_trip_three_monitors() {
    let before = vec![
        MonitorInfo::new("L".to_string(), rect(-2560, -200, 0, 1240)),
        MonitorInfo::new("P".to_string(), rect(0, 0, 1920, 1080)),
        MonitorInfo::new("R".to_string(), rect(1920, 100, 3200, 1124)),
    ];
    for target in ["L", "P", "R"] {
        let snapshot = snapshot_monitor_layout(&before);
        let switch = switch_primary_to(&target.to_string(), &before).unwrap();
        let switched = apply(&before, &switch);
        let t = switched.iter().find(|m| m.device_name == target).unwrap();
        assert!(t.rect.at_origin());
        let restored = apply(&switched, &restore_monitor_layout(&snapshot));
        for (a, b) in restored.iter().zip(before.iter()) {
            assert_eq!(a.device_name, b.device_name);
            assert_eq!(a.rect, b.rect);
        }
    }
}

#[test]
fn rect_measures() {
    let r = rect(-1920, -10, 0, 1070);
    assert_eq!((r.width(), r.height()), (1920, 1080));
    assert!(r.is_well_formed());
    assert!(!r.at_origin());
    assert!(rect(0, 0, 1, 1).at_origin());
    assert!(!rect(10, 0, 5, 1).is_well_formed());
    let wide = rect(i32::MIN, 0, i32::MAX, 1);
    assert_eq!(wide.width(), u32::MAX as i64);
}

#[test]
fn restoring_twice_equals_restoring_once() {
    let before = two_monitors();
    let snapshot = snapshot_monitor_layout(&before);
    let switched = apply(&before, &switch_primary_to(&"\\\\.\\DISPLAY2".to_string(), &before).unwrap());
    let restore = restore_monitor_layout(&snapshot);
    let once = apply(&switched, &restore);
    let twice = apply(&once, &restore);
    for (a, b) in once.iter().zip(twice.iter()) {
        assert_eq!(a.rect, b.rect);
    }
}
