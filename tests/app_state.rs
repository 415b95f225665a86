use display_warp::app::{WindowManagerApp, STATUS_LOG_CAP};
use display_warp::geometry::SerializableRect;
use display_warp::icon::{straight_alpha, tray_icon, TRAY_ICON_SIZE};
use display_warp::models::{AppProfile, AudioDeviceInfo, MonitorInfo};
use display_warp::placement::WindowOp;
use display_warp::text::{decimal_string, truncate_text};
use display_warp::window::ProcessEntry;

fn app() -> WindowManagerApp {
    WindowManagerApp {
        monitors: Vec::new(),
        selected_mon_idx: 0,
        edit_profile_mon_idx: 0,
        live_move_mon_idx: 0,
        live_processes: Vec::new(),
        selected_live_process_idx: 0,
        audio_devices: Vec::new(),
    }
}

fn monitor(name: &str, left: i32) -> MonitorInfo {
    MonitorInfo::new(name.to_string(), SerializableRect::new(left, 0, left + 1920, 1080))
}

#[test]
fn push_status_sets_message_and_appends() {
    let mut status = "Ready.".to_string();
    let mut log = vec!["Ready.".to_string()];
    WindowManagerApp::push_status(&mut status, &mut log, "Moved.".to_string());
    assert_eq!(status, "Moved.");
    assert_eq!(log, vec!["Ready.".to_string(), "Moved.".to_string()]);
}

#[test]
fn push_status_drops_oldest_beyond_cap() {
    let mut status = String::new();
    let mut log: Vec<String> = Vec::new();
    for i in 0..(STATUS_LOG_CAP + 5) {
        WindowManagerApp::push_status(&mut status, &mut log, format!("m{i}"));
    }
    assert_eq!(log.len(), STATUS_LOG_CAP);
    assert_eq!(log[0], "m5");
    assert_eq!(log.last().unwrap(), &format!("m{}", STATUS_LOG_CAP + 4));
    assert_eq!(status, format!("m{}", STATUS_LOG_CAP + 4));
}

#[test]
fn refresh_monitors_clamps_selections() {
    let mut a = app();
    a.selected_mon_idx = 5;
    a.edit_profile_mon_idx = 1;
    a.live_move_mon_idx = 2;
    a.refresh_monitors(vec![monitor("A", 0), monitor("B", 1920)]);
    assert_eq!(a.monitors.len(), 2);
    assert_eq!((a.selected_mon_idx, a.edit_profile_mon_idx, a.live_move_mon_idx), (1, 1, 1));
    a.refresh_monitors(Vec::new());
    assert_eq!((a.selected_mon_idx, a.edit_profile_mon_idx, a.live_move_mon_idx), (0, 0, 0));
}

#[test]
fn refresh_live_processes_resets_selection() {
    let mut a = app();
    a.selected_live_process_idx = 3;
    let entry = ProcessEntry { hwnd: 1, pid: 2, exe_path: None, label: "x".to_string() };
    a.refresh_live_processes(vec![entry]);
    assert_eq!(a.live_processes.len(), 1);
    assert_eq!(a.selected_live_process_idx, 0);
}

#[test]
fn refresh_audio_devices_keeps_list_on_failure() {
    let mut a = app();
    a.refresh_audio_devices(Some(vec![AudioDeviceInfo { id: "1".to_string(), name: "Speakers".to_string() }]));
    assert_eq!(a.audio_devices.len(), 1);
    a.refresh_audio_devices(None);
    assert_eq!(a.audio_devices[0].name, "Speakers");
}

#[test]
fn move_live_window_checks_existence() {
    let target = SerializableRect::new(0, 0, 1920, 1080);
    let (ops, msg) = WindowManagerApp::move_live_window(false, true, target);
    assert!(ops.is_none());
    assert_eq!(msg, "\u{274C} Window no longer exists (it may have been closed).");
    let (ops, msg) = WindowManagerApp::move_live_window(true, true, target);
    let ops = ops.unwrap();
    assert_eq!(ops[1], WindowOp::MoveResize(target));
    assert_eq!(ops[2], WindowOp::Maximize);
    assert_eq!(msg, "\u{2705} Window moved to target monitor.");
}

#[test]
fn persistent_targets_filters_and_resolves() {
    let mk = |name: &str, persistent: bool, proc_name: Option<&str>, monitor: &str| AppProfile {
        name: name.to_string(),
        exe_path: "C:\\x.exe".to_string(),
        target_monitor_name: monitor.to_string(),
        target_monitor_rect: None,
        window_process_name: proc_name.map(|s| s.to_string()),
        force_primary: false,
        persistent_monitor: persistent,
        target_audio_device_id: None,
    };
    let profiles = vec![
        mk("a", true, Some("Game.EXE"), "B"),
        mk("b", false, Some("other.exe"), "B"),
        mk("c", true, None, "B"),
        mk("d", true, Some(""), "B"),
        mk("e", true, Some("lost.exe"), "Z"),
        mk("f", true, Some("Tool.exe"), "A"),
    ];
    let ms = vec![monitor("A", 0), monitor("B", 1920)];
    let ts = WindowManagerApp::persistent_targets(&profiles, &ms);
    assert_eq!(ts.len(), 2);
    assert_eq!(ts[0].process_name_lowercase, "game.exe");
    assert_eq!(ts[0].target_rect, SerializableRect::new(1920, 0, 3840, 1080));
    assert_eq!(ts[1].process_name_lowercase, "tool.exe");
}

#[test]
fn truncate_text_cuts_with_ellipsis() {
    assert_eq!(truncate_text("short", 10), "short");
    assert_eq!(truncate_text("exactly10!", 10), "exactly10!");
    assert_eq!(truncate_text("a longer label text", 8), "a longe\u{2026}");
    assert_eq!(truncate_text("ééééé", 3), "éé\u{2026}");
    assert_eq!(truncate_text("ab", 1), "\u{2026}");
    assert_eq!(truncate_text("", 0), "");
}

#[test]
fn decimal_string_writes_digits() {
    assert_eq!(decimal_string(0), "0");
    assert_eq!(decimal_string(7), "7");
    assert_eq!(decimal_string(4242), "4242");
    assert_eq!(decimal_string(u32::MAX), "4294967295");
}

#[test]
fn straight_alpha_divides_by_alpha() {
    let px = vec![64, 32, 0, 128, 10, 20, 30, 0, 255, 255, 255, 255, 200, 0, 0, 100, 9];
    assert_eq!(straight_alpha(&px), vec![127, 63, 0, 128, 10, 20, 30, 0, 255, 255, 255, 255, 255, 0, 0, 100, 9]);
}

#[test]
fn tray_icon_needs_full_size_buffer() {
    let n = (TRAY_ICON_SIZE * TRAY_ICON_SIZE * 4) as usize;
    let mut px = vec![0u8; n];
    px[0] = 50;
    px[3] = 100;
    let icon = tray_icon(&px).unwrap();
    assert_eq!((icon.width, icon.height), (32, 32));
    assert_eq!(icon.rgba.len(), n);
    assert_eq!(icon.rgba[0], 127);
    assert!(tray_icon(&vec![0u8; n - 4]).is_none());
    assert!(tray_icon(&Vec::new()).is_none());
}
