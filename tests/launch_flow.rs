use display_warp::app::WindowManagerApp;
use display_warp::geometry::SerializableRect;
use display_warp::launch::{LaunchCommand, LaunchEvent, LaunchStage};
use display_warp::models::{AppProfile, MonitorInfo};

fn rect(left: i32, top: i32, right: i32, bottom: i32) -> SerializableRect {
    SerializableRect::new(left, top, right, bottom)
}

fn monitors() -> Vec<MonitorInfo> {
    vec![
        MonitorInfo::new("\\\\.\\DISPLAY1".to_string(), rect(0, 0, 1920, 1080)),
        MonitorInfo::new("\\\\.\\DISPLAY2".to_string(), rect(1920, 0, 3840, 1080)),
    ]
}

fn profile(monitor: &str) -> AppProfile {
    AppProfile {
        name: "Game".to_string(),
        exe_path: "C:\\Games\\game.exe".to_string(),
        target_monitor_name: monitor.to_string(),
        target_monitor_rect: None,
        window_process_name: None,
        force_primary: false,
        persistent_monitor: false,
        target_audio_device_id: None,
    }
}

#[test]
fn unresolvable_monitor_aborts_launch() {
    let (session, step) = WindowManagerApp::launch_profile(&profile("\\\\.\\DISPLAY7"), &monitors());
    assert!(session.is_none());
    assert_eq!(step.statuses, vec!["\u{274C} Monitor '\\\\.\\DISPLAY7' not found.".to_string()]);
    assert!(matches!(step.command, LaunchCommand::Finish));
}

#[test]
fn launch_by_pid_waits_then_places() {
    let (session, step) = WindowManagerApp::launch_profile(&profile("\\\\.\\DISPLAY2"), &monitors());
    let mut s = session.unwrap();
    assert!(step.statuses.is_empty());
    assert!(matches!(step.command, LaunchCommand::Spawn));
    let step = s.step(LaunchEvent::Spawned { pid: 4242 });
    assert_eq!(step.statuses, vec!["\u{23F3} Launched PID 4242, waiting for window\u{2026}".to_string()]);
    assert!(matches!(
        step.command,
        LaunchCommand::FindWindowByPid { pid: 4242, timeout_ms: 15_000, interval_ms: 300 }
    ));
    let step = s.step(LaunchEvent::WindowFound { hwnd: 77 });
    match step.command {
        LaunchCommand::PlaceWindow { hwnd, target } => {
            assert_eq!(hwnd, 77);
            assert_eq!(target, rect(1920, 0, 3840, 1080));
        }
        other => panic!("unexpected command {:?}", other),
    }
    let step = s.step(LaunchEvent::Completed);
    assert_eq!(step.statuses, vec!["\u{2705} Window locked on target monitor.".to_string()]);
    assert!(matches!(step.command, LaunchCommand::Finish));
    assert_eq!(s.stage, LaunchStage::Done);
}

#[test]
fn launch_by_name_lowercases_and_times_out() {
    let mut p = profile("\\\\.\\DISPLAY1");
    p.window_process_name = Some("Diablo IV.exe".to_string());
    let (session, _) = WindowManagerApp::launch_profile(&p, &monitors());
    let mut s = session.unwrap();
    let step = s.step(LaunchEvent::Spawned { pid: 1 });
    assert_eq!(step.statuses, vec!["\u{23F3} Waiting for 'Diablo IV.exe' window\u{2026}".to_string()]);
    match step.command {
        LaunchCommand::FindWindowByName { name_lowercase, timeout_ms, interval_ms } => {
            assert_eq!(name_lowercase, "diablo iv.exe");
            assert_eq!((timeout_ms, interval_ms), (30_000, 500));
        }
        other => panic!("unexpected command {:?}", other),
    }
    let step = s.step(LaunchEvent::WindowNotFound);
    assert_eq!(
        step.statuses,
        vec!["\u{26A0}\u{FE0F} Window not found within timeout (app may still work normally).".to_string()]
    );
    assert!(matches!(step.command, LaunchCommand::Finish));
}

#[test]
fn empty_window_process_name_tracks_launched_process() {
    let mut p = profile("\\\\.\\DISPLAY1");
    p.window_process_name = Some(String::new());
    let (session, _) = WindowManagerApp::launch_profile(&p, &monitors());
    let mut s = session.unwrap();
    let step = s.step(LaunchEvent::Spawned { pid: 9 });
    assert!(matches!(step.command, LaunchCommand::FindWindowByPid { pid: 9, .. }));
}

#[test]
fn launch_with_audio_switch() {
    let mut p = profile("\\\\.\\DISPLAY1");
    let long_id = "{0.0.0.00000000}.{12345678-aaaa-bbbb-cccc-1234567890ab}-extra-text-beyond".to_string();
    p.target_audio_device_id = Some(long_id.clone());
    let (session, _) = WindowManagerApp::launch_profile(&p, &monitors());
    let mut s = session.unwrap();
    let step = s.step(LaunchEvent::Spawned { pid: 31 });
    let shown: String = long_id.chars().take(60).collect();
    assert_eq!(step.statuses, vec![format!("\u{1F50D} Trying audio ID: {shown}")]);
    match &step.command {
        LaunchCommand::SwitchAudio(id) => assert_eq!(id, &long_id),
        other => panic!("unexpected command {:?}", other),
    }
    let step = s.step(LaunchEvent::AudioFailed { reason: "no device".to_string() });
    assert_eq!(
        step.statuses,
        vec!["\u{26A0}\u{FE0F} Audio switch failed: no device".to_string(), "\u{23F3} Launched PID 31, waiting for window\u{2026}".to_string()]
    );
    s.step(LaunchEvent::WindowFound { hwnd: 3 });
    let step = s.step(LaunchEvent::Completed);
    assert_eq!(step.statuses, vec!["\u{2705} Window moved + audio switched.".to_string()]);
}

#[test]
fn audio_switch_success_message() {
    let mut p = profile("\\\\.\\DISPLAY1");
    p.target_audio_device_id = Some("dev".to_string());
    let (session, _) = WindowManagerApp::launch_profile(&p, &monitors());
    let mut s = session.unwrap();
    s.step(LaunchEvent::Spawned { pid: 2 });
    let step = s.step(LaunchEvent::AudioSwitched);
    assert_eq!(step.statuses[0], "\u{1F3B5} Audio switched, waiting for window\u{2026}");
}

#[test]
fn spawn_failure_reports_error() {
    let (session, _) = WindowManagerApp::launch_profile(&profile("\\\\.\\DISPLAY1"), &monitors());
    let mut s = session.unwrap();
    let step = s.step(LaunchEvent::SpawnFailed { reason: "file not found".to_string() });
    assert_eq!(step.statuses, vec!["\u{274C} Failed to launch: file not found".to_string()]);
    assert!(matches!(step.command, LaunchCommand::Finish));
}

#[test]
fn force_primary_switches_waits_and_restores() {
    let mut p = profile("\\\\.\\DISPLAY2");
    p.force_primary = true;
    let (session, step) = WindowManagerApp::launch_profile(&p, &monitors());
    let mut s = session.unwrap();
    assert_eq!(step.statuses, vec!["\u{23F3} Switching primary to \\\\.\\DISPLAY2...".to_string()]);
    match &step.command {
        LaunchCommand::ApplyDisplayChanges(cs) => {
            assert_eq!((cs[0].x, cs[0].y, cs[0].set_primary), (-1920, 0, false));
            assert_eq!((cs[1].x, cs[1].y, cs[1].set_primary), (0, 0, true));
        }
        other => panic!("unexpected command {:?}", other),
    }
    assert!(matches!(s.step(LaunchEvent::Completed).command, LaunchCommand::Sleep(1500)));
    assert!(matches!(s.step(LaunchEvent::Completed).command, LaunchCommand::Spawn));
    let step = s.step(LaunchEvent::Spawned { pid: 555 });
    assert_eq!(step.statuses, vec!["\u{23F3} Game launched (PID 555) \u{2014} will restore monitors on exit.".to_string()]);
    assert!(matches!(step.command, LaunchCommand::WaitForExit(555)));
    let step = s.step(LaunchEvent::Completed);
    match &step.command {
        LaunchCommand::ApplyDisplayChanges(cs) => {
            assert_eq!(cs[0].device_name, "\\\\.\\DISPLAY1");
            assert_eq!((cs[0].x, cs[0].y, cs[0].set_primary), (0, 0, true));
            assert_eq!((cs[1].x, cs[1].y, cs[1].set_primary), (1920, 0, false));
        }
        other => panic!("unexpected command {:?}", other),
    }
    let step = s.step(LaunchEvent::Completed);
    assert_eq!(step.statuses, vec!["\u{2705} Game exited. Monitor layout restored.".to_string()]);
    assert!(matches!(step.command, LaunchCommand::Finish));
}

#[test]
fn force_primary_spawn_failure_still_restores() {
    let mut p = profile("\\\\.\\DISPLAY2");
    p.force_primary = true;
    let (session, _) = WindowManagerApp::launch_profile(&p, &monitors());
    let mut s = session.unwrap();
    s.step(LaunchEvent::Completed);
    s.step(LaunchEvent::Completed);
    let step = s.step(LaunchEvent::SpawnFailed { reason: "denied".to_string() });
    assert_eq!(step.statuses, vec!["\u{274C} Failed to launch: denied".to_string()]);
    assert!(matches!(step.command, LaunchCommand::ApplyDisplayChanges(_)));
    let step = s.step(LaunchEvent::Completed);
    assert!(step.statuses.is_empty());
    assert!(matches!(step.command, LaunchCommand::Finish));
}

#[test]
fn force_primary_with_stale_device_cannot_switch() {
    let mut p = profile("\\\\.\\DISPLAY5");
    p.force_primary = true;
    p.target_monitor_rect = Some(rect(3840, 0, 5760, 1080));
    let (session, step) = WindowManagerApp::launch_profile(&p, &monitors());
    assert!(session.is_none());
    assert_eq!(
        step.statuses,
        vec!["\u{23F3} Switching primary to \\\\.\\DISPLAY5...".to_string(), "\u{274C} Failed to switch primary monitor.".to_string()]
    );
    assert!(matches!(step.command, LaunchCommand::Finish));
}

#[test]
fn event_expectations_follow_stage() {
    let (session, _) = WindowManagerApp::launch_profile(&profile("\\\\.\\DISPLAY1"), &monitors());
    let s = session.unwrap();
    assert!(s.expects_event(&LaunchEvent::Spawned { pid: 1 }));
    assert!(!s.expects_event(&LaunchEvent::Completed));
}
