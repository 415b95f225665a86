use vstd::prelude::*;
use vstd::string::*;

use crate::geometry::SerializableRect;
use crate::launch::{LaunchCommand, LaunchSession, LaunchStage, LaunchStep, monitor_not_found_text, switching_text, statuses_of};
use crate::models::{AppProfile, AudioDeviceInfo, MonitorInfo};
use crate::monitor::{
    changes_of, layout_of, resolve_target_rect, snapshot_layout_of, snapshot_monitor_layout,
    spec_resolve_target, spec_switch_primary, switch_primary_to,
};
use crate::placement::{move_window_once, spec_one_shot_ops, WindowOp};
use crate::text::concat3;
use crate::window::{lower_of, lowercase, ProcessEntry};

verus! {

/// Entries kept in the status log; older ones are dropped.
pub const STATUS_LOG_CAP: usize = 200;

/// The interactive state of the application: the live monitors, the live
/// windows offered for a move, the audio devices, and the selections made
/// among them.
#[derive(Clone, Debug)]
pub struct WindowManagerApp {
    pub monitors: Vec<MonitorInfo>,
    pub selected_mon_idx: usize,
    pub edit_profile_mon_idx: usize,
    pub live_move_mon_idx: usize,
    pub live_processes: Vec<ProcessEntry>,
    pub selected_live_process_idx: usize,
    pub audio_devices: Vec<AudioDeviceInfo>,
}

/// The log after `msg` is appended to `log`, keeping the newest entries only.
pub open spec fn spec_logged(log: Seq<Seq<char>>, msg: Seq<char>) -> Seq<Seq<char>> {
    if log.len() + 1 > STATUS_LOG_CAP {
        log.push(msg).drop_first()
    } else {
        log.push(msg)
    }
}

/// An index clamped to the last position of a list of `len` (0 when empty).
pub open spec fn clamp_index(idx: usize, len: nat) -> usize {
    let max = if len == 0 { 0 } else { (len - 1) as usize };
    if idx < max { idx } else { max }
}

/// A profile whose window is kept on its monitor in the background, with the
/// lower-case name of the process that owns the window and the rectangle it
/// is kept on.
#[derive(Clone, Debug)]
pub struct WatchTarget {
    pub process_name_lowercase: String,
    pub target_rect: SerializableRect,
}

/// The background enforcement wanted for `p`: persistent, with a non-empty
/// window process name, and a target that resolves.
pub open spec fn spec_watch_target(p: AppProfile, layout: crate::monitor::Layout) -> Option<(Seq<char>, SerializableRect)> {
    if p.persistent_monitor && p.window_process_name is Some && p.window_process_name.unwrap()@.len() > 0 {
        match spec_resolve_target(layout, p.target_monitor_name@, p.target_monitor_rect) {
            Some(r) => Some((lower_of(p.window_process_name.unwrap()@), r)),
            None => None,
        }
    } else {
        None
    }
}

pub open spec fn spec_watch_targets(ps: Seq<AppProfile>, layout: crate::monitor::Layout) -> Seq<(Seq<char>, SerializableRect)>
    decreases ps.len(),
{
    if ps.len() == 0 {
        Seq::empty()
    } else {
        let prev = spec_watch_targets(ps.drop_last(), layout);
        match spec_watch_target(ps.last(), layout) {
            Some(t) => prev.push(t),
            None => prev,
        }
    }
}

pub open spec fn watch_targets_view(ts: Seq<WatchTarget>) -> Seq<(Seq<char>, SerializableRect)> {
    ts.map_values(|t: WatchTarget| (t.process_name_lowercase@, t.target_rect))
}

impl WindowManagerApp {
    /// Sets the status message to `msg` and appends it to the log, dropping
    /// the oldest entry when the log would exceed `STATUS_LOG_CAP`.
    pub fn push_status(status: &mut String, log: &mut Vec<String>, msg: String)
        ensures
            final(status)@ == msg@,
            statuses_of(final(log)@) == spec_logged(statuses_of(old(log)@), msg@),
            old(log)@.len() <= STATUS_LOG_CAP ==> final(log)@.len() <= STATUS_LOG_CAP,
            final(log)@.len() > 0 && final(log)@.last()@ == msg@,
    {
        *status = msg.clone();
        let ghost before = statuses_of(log@);
        log.push(msg);
        proof {
            assert(statuses_of(log@) =~= before.push(msg@));
        }
        if log.len() > STATUS_LOG_CAP {
            let ghost full = statuses_of(log@);
            log.remove(0);
            proof {
                assert(statuses_of(log@) =~= full.drop_first());
            }
        }
    }

    /// Takes a fresh list of monitors and keeps every monitor selection
    /// within it.
    pub fn refresh_monitors(&mut self, monitors: Vec<MonitorInfo>)
        ensures
            final(self).monitors@ == monitors@,
            final(self).selected_mon_idx == clamp_index(old(self).selected_mon_idx, monitors@.len()),
            final(self).edit_profile_mon_idx == clamp_index(old(self).edit_profile_mon_idx, monitors@.len()),
            final(self).live_move_mon_idx == clamp_index(old(self).live_move_mon_idx, monitors@.len()),
            final(self).live_processes@ == old(self).live_processes@,
            final(self).selected_live_process_idx == old(self).selected_live_process_idx,
            final(self).audio_devices@ == old(self).audio_devices@,
    {
        let max = if monitors.len() == 0 { 0 } else { monitors.len() - 1 };
        self.monitors = monitors;
        self.selected_mon_idx = if self.selected_mon_idx < max { self.selected_mon_idx } else { max };
        self.edit_profile_mon_idx = if self.edit_profile_mon_idx < max { self.edit_profile_mon_idx } else { max };
        self.live_move_mon_idx = if self.live_move_mon_idx < max { self.live_move_mon_idx } else { max };
    }

    /// Takes a fresh list of live windows and selects the first.
    pub fn refresh_live_processes(&mut self, entries: Vec<ProcessEntry>)
        ensures
            final(self).live_processes@ == entries@,
            final(self).selected_live_process_idx == 0,
            final(self).monitors@ == old(self).monitors@,
            final(self).selected_mon_idx == old(self).selected_mon_idx,
            final(self).edit_profile_mon_idx == old(self).edit_profile_mon_idx,
            final(self).live_move_mon_idx == old(self).live_move_mon_idx,
            final(self).audio_devices@ == old(self).audio_devices@,
    {
        self.live_processes = entries;
        self.selected_live_process_idx = 0;
    }

    /// Takes the audio devices if they could be listed; keeps the previous
    /// list otherwise.
    pub fn refresh_audio_devices(&mut self, devices: Option<Vec<AudioDeviceInfo>>)
        ensures
            final(self).audio_devices@ == match devices {
                Some(d) => d@,
                None => old(self).audio_devices@,
            },
            final(self).monitors@ == old(self).monitors@,
            final(self).live_processes@ == old(self).live_processes@,
            final(self).selected_mon_idx == old(self).selected_mon_idx,
            final(self).edit_profile_mon_idx == old(self).edit_profile_mon_idx,
            final(self).live_move_mon_idx == old(self).live_move_mon_idx,
            final(self).selected_live_process_idx == old(self).selected_live_process_idx,
    {
        if let Some(d) = devices {
            self.audio_devices = d;
        }
    }
}

/// A copy of an optional string.
fn copy_opt(s: &Option<String>) -> (r: Option<String>)
    ensures
        r == *s,
{
    match s {
        Some(v) => Some(v.clone()),
        None => None,
    }
}

/// The launch ends at once: no session, a finish command, and these
/// status messages.
pub open spec fn ends_with(r: (Option<LaunchSession>, LaunchStep), statuses: Seq<Seq<char>>) -> bool {
    &&& r.0 is None
    &&& r.1.command == LaunchCommand::Finish
    &&& statuses_of(r.1.statuses@) == statuses
}

impl WindowManagerApp {
    /// Starts the launch of `profile` against the live `monitors`. The
    /// target rectangle is resolved first; when it cannot be, the launch ends
    /// with a monitor-not-found message and nothing is started. With
    /// force-primary the first command applies the display changes that make
    /// the target monitor primary (the layout before them is kept for the
    /// restore); otherwise it starts the process.
    pub fn launch_profile(profile: &AppProfile, monitors: &Vec<MonitorInfo>) -> (r: (Option<LaunchSession>, LaunchStep))
        ensures
            ({
                let name = profile.target_monitor_name@;
                let target = spec_resolve_target(layout_of(monitors@), name, profile.target_monitor_rect);
                let switch = spec_switch_primary(layout_of(monitors@), name);
                &&& target is None ==> ends_with(r, seq![monitor_not_found_text(name)])
                &&& target is Some && profile.force_primary && switch is None ==> ends_with(
                    r,
                    seq![switching_text(name), "\u{274C} Failed to switch primary monitor."@],
                )
                &&& r.0 is Some ==> {
                    let s = r.0.unwrap();
                    &&& target == Some(s.target_rect)
                    &&& s.device_name@ == name
                    &&& s.force_primary == profile.force_primary
                    &&& s.window_process_name == crate::launch::wanted_process(profile.window_process_name)
                    &&& s.audio_device_id == profile.target_audio_device_id
                    &&& !s.spawn_failed
                    &&& snapshot_layout_of(s.snapshot@) == layout_of(monitors@)
                }
                &&& target is Some && profile.force_primary && switch is Some ==> {
                    &&& r.0 is Some && r.0.unwrap().stage == LaunchStage::Switching
                    &&& statuses_of(r.1.statuses@) == seq![switching_text(name)]
                    &&& match r.1.command {
                        LaunchCommand::ApplyDisplayChanges(cs) => switch == Some(changes_of(cs@)),
                        _ => false,
                    }
                }
                &&& target is Some && !profile.force_primary ==> {
                    &&& r.0 is Some && r.0.unwrap().stage == LaunchStage::Spawning
                    &&& r.1.command == LaunchCommand::Spawn
                    &&& r.1.statuses@.len() == 0
                }
            }),
    {
        let name = &profile.target_monitor_name;
        let target_rect = match resolve_target_rect(profile, monitors) {
            Some(rect) => rect,
            None => {
                let msg = concat3("\u{274C} Monitor '", name.as_str(), "' not found.");
                let mut statuses: Vec<String> = Vec::new();
                statuses.push(msg);
                proof {
                    assert(statuses_of(statuses@) =~= seq![monitor_not_found_text(name@)]);
                }
                return (None, LaunchStep { statuses, command: LaunchCommand::Finish });
            },
        };
        let window_process_name = match &profile.window_process_name {
            Some(n) => if n.as_str().unicode_len() > 0 { Some(n.clone()) } else { None },
            None => None,
        };
        let snapshot = snapshot_monitor_layout(monitors);
        let mut session = LaunchSession {
            target_rect,
            device_name: name.clone(),
            force_primary: profile.force_primary,
            window_process_name,
            audio_device_id: copy_opt(&profile.target_audio_device_id),
            snapshot,
            stage: LaunchStage::Spawning,
            pid: 0,
            spawn_failed: false,
        };
        let mut statuses: Vec<String> = Vec::new();
        if profile.force_primary {
            statuses.push(concat3("\u{23F3} Switching primary to ", name.as_str(), "..."));
            match switch_primary_to(name, monitors) {
                Some(cs) => {
                    session.stage = LaunchStage::Switching;
                    proof {
                        assert(statuses_of(statuses@) =~= seq![switching_text(name@)]);
                    }
                    (Some(session), LaunchStep { statuses, command: LaunchCommand::ApplyDisplayChanges(cs) })
                },
                None => {
                    statuses.push(String::from_str("\u{274C} Failed to switch primary monitor."));
                    proof {
                        assert(statuses_of(statuses@) =~= seq![switching_text(name@), "\u{274C} Failed to switch primary monitor."@]);
                    }
                    (None, LaunchStep { statuses, command: LaunchCommand::Finish })
                },
            }
        } else {
            (Some(session), LaunchStep { statuses, command: LaunchCommand::Spawn })
        }
    }

    /// The one-shot move of a live window onto `target_rect`: the
    /// operations to perform, or none when the window no longer exists, and
    /// the status message.
    pub fn move_live_window(window_exists: bool, was_maximized: bool, target_rect: SerializableRect) -> (r: (Option<Vec<WindowOp>>, String))
        ensures
            window_exists ==> r.0 is Some && r.0.unwrap()@ == spec_one_shot_ops(was_maximized, target_rect)
                && r.1@ == "\u{2705} Window moved to target monitor."@,
            !window_exists ==> r.0 is None && r.1@ == "\u{274C} Window no longer exists (it may have been closed)."@,
    {
        if !window_exists {
            return (None, String::from_str("\u{274C} Window no longer exists (it may have been closed)."));
        }
        (Some(move_window_once(true, was_maximized, target_rect)), String::from_str("\u{2705} Window moved to target monitor."))
    }

    /// The windows the background watcher keeps on their monitors: for each
    /// profile, in order, that is persistent and names a window process, that
    /// process's lower-case name and the profile's resolved target (profiles
    /// whose target does not resolve are left out).
    pub fn persistent_targets(profiles: &Vec<AppProfile>, monitors: &Vec<MonitorInfo>) -> (r: Vec<WatchTarget>)
        ensures
            watch_targets_view(r@) == spec_watch_targets(profiles@, layout_of(monitors@)),
    {
        let ghost layout = layout_of(monitors@);
        let mut out: Vec<WatchTarget> = Vec::new();
        let mut i: usize = 0;
        while i < profiles.len()
            invariant
                i <= profiles.len(),
                layout == layout_of(monitors@),
                watch_targets_view(out@) == spec_watch_targets(profiles@.subrange(0, i as int), layout),
            decreases profiles.len() - i,
        {
            proof {
                assert(profiles@.subrange(0, i + 1).drop_last() =~= profiles@.subrange(0, i as int));
                assert(profiles@.subrange(0, i + 1).last() == profiles@[i as int]);
            }
            let p = &profiles[i];
            if p.persistent_monitor {
                match &p.window_process_name {
                    Some(n) => {
                        if n.as_str().unicode_len() > 0 {
                            match resolve_target_rect(p, monitors) {
                                Some(rect) => {
                                    let ghost before = watch_targets_view(out@);
                                    out.push(WatchTarget { process_name_lowercase: lowercase(n.as_str()), target_rect: rect });
                                    proof {
                                        assert(watch_targets_view(out@) =~= before.push((lower_of(n@), rect)));
                                    }
                                },
                                None => {},
                            }
                        }
                    },
                    None => {},
                }
            }
            i += 1;
        }
        proof {
            assert(profiles@.subrange(0, profiles@.len() as int) =~= profiles@);
        }
        out
    }
}

} // verus!
