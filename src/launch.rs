use vstd::prelude::*;
use vstd::string::*;

use crate::geometry::SerializableRect;
use crate::models::SavedMonitorPos;
use crate::monitor::{changes_of, restore_monitor_layout, snapshot_layout_of, spec_restore, DisplayChange};
use crate::text::{concat2, concat3, decimal_of, decimal_string};
use crate::window::{lower_of, lowercase};

verus! {

/// Pause after the display layout is switched, before the process starts.
pub const DISPLAY_SETTLE_MS: u64 = 1500;

/// How long to look for the window of the launched process itself.
pub const PID_SEARCH_TIMEOUT_MS: u64 = 15_000;

/// Interval between two looks for the window of the launched process.
pub const PID_SEARCH_INTERVAL_MS: u64 = 300;

/// How long to look for the window of a named process.
pub const NAME_SEARCH_TIMEOUT_MS: u64 = 30_000;

/// Interval between two looks for the window of a named process.
pub const NAME_SEARCH_INTERVAL_MS: u64 = 500;

/// Characters of an audio device id shown in a status message.
pub const AUDIO_ID_SHOWN_CHARS: usize = 60;

/// Where a launch stands.
#[derive(Clone, Copy, Debug, PartialEq, Eq, Structural)]
pub enum LaunchStage {
    /// The display changes that make the target primary are being applied.
    Switching,
    /// Waiting for the display layout to settle.
    SettlingDisplays,
    /// The process is being started.
    Spawning,
    /// Waiting for the process to exit, the layout switched.
    AwaitingExit,
    /// The saved layout is being put back.
    Restoring,
    /// The default audio device is being switched.
    SwitchingAudio,
    /// Looking for the window.
    Locating,
    /// Placing and watching the window.
    Placing,
    Done,
}

/// What came of the last command.
#[derive(Clone, Debug)]
pub enum LaunchEvent {
    /// The command ran to its end (display changes, pause, exit wait, placement).
    Completed,
    Spawned { pid: u32 },
    SpawnFailed { reason: String },
    AudioSwitched,
    AudioFailed { reason: String },
    WindowFound { hwnd: isize },
    WindowNotFound,
}

/// What the caller is to do next.
#[derive(Clone, Debug)]
pub enum LaunchCommand {
    /// Apply these position-only display changes, then commit them together.
    ApplyDisplayChanges(Vec<DisplayChange>),
    Sleep(u64),
    /// Start the executable in its own directory.
    Spawn,
    /// Block until the process exits.
    WaitForExit(u32),
    /// Make this audio device the default.
    SwitchAudio(String),
    /// Look for the first visible window of the process, every
    /// `interval_ms`, for `timeout_ms`.
    FindWindowByPid { pid: u32, timeout_ms: u64, interval_ms: u64 },
    /// Look for the best window of the executable with this lower-case name,
    /// every `interval_ms`, for `timeout_ms`.
    FindWindowByName { name_lowercase: String, timeout_ms: u64, interval_ms: u64 },
    /// Run the launch-and-lock placement of the window onto `target`.
    PlaceWindow { hwnd: isize, target: SerializableRect },
    Finish,
}

/// The status messages to show, in order, and the next command.
#[derive(Clone, Debug)]
pub struct LaunchStep {
    pub statuses: Vec<String>,
    pub command: LaunchCommand,
}

/// One launch of a profile, from the resolved target to the end.
#[derive(Clone, Debug)]
pub struct LaunchSession {
    pub target_rect: SerializableRect,
    pub device_name: String,
    pub force_primary: bool,
    /// The process whose window is wanted; `None` for the launched process.
    pub window_process_name: Option<String>,
    pub audio_device_id: Option<String>,
    /// The layout before the switch, for the restore.
    pub snapshot: Vec<SavedMonitorPos>,
    pub stage: LaunchStage,
    pub pid: u32,
    /// The restore follows a failed start rather than the process's exit.
    pub spawn_failed: bool,
}

pub open spec fn monitor_not_found_text(name: Seq<char>) -> Seq<char> {
    "\u{274C} Monitor '"@ + name + "' not found."@
}

pub open spec fn switching_text(name: Seq<char>) -> Seq<char> {
    "\u{23F3} Switching primary to "@ + name + "..."@
}

pub open spec fn launch_failed_text(reason: Seq<char>) -> Seq<char> {
    "\u{274C} Failed to launch: "@ + reason
}

pub open spec fn game_launched_text(pid: u32) -> Seq<char> {
    "\u{23F3} Game launched (PID "@ + decimal_of(pid as nat) + ") \u{2014} will restore monitors on exit."@
}

pub open spec fn trying_audio_text(id: Seq<char>) -> Seq<char> {
    "\u{1F50D} Trying audio ID: "@ + id.subrange(0, vstd::math::min(id.len() as int, AUDIO_ID_SHOWN_CHARS as int))
}

pub open spec fn audio_failed_text(reason: Seq<char>) -> Seq<char> {
    "\u{26A0}\u{FE0F} Audio switch failed: "@ + reason
}

pub open spec fn waiting_for_name_text(name: Seq<char>) -> Seq<char> {
    "\u{23F3} Waiting for '"@ + name + "' window\u{2026}"@
}

pub open spec fn waiting_for_pid_text(pid: u32) -> Seq<char> {
    "\u{23F3} Launched PID "@ + decimal_of(pid as nat) + ", waiting for window\u{2026}"@
}

pub open spec fn statuses_of(s: Seq<String>) -> Seq<Seq<char>> {
    s.map_values(|x: String| x@)
}

/// The window process name a profile asks for: `None` when absent or empty.
pub open spec fn wanted_process(p: Option<String>) -> Option<String> {
    match p {
        Some(n) => if n@.len() > 0 { Some(n) } else { None },
        None => None,
    }
}

/// The command that starts the search for the window, and its status text.
pub open spec fn locate_command_fits(session: LaunchSession, pid: u32, cmd: LaunchCommand, status: Seq<char>) -> bool {
    match session.window_process_name {
        Some(n) => {
            &&& match cmd {
                LaunchCommand::FindWindowByName { name_lowercase, timeout_ms, interval_ms } => name_lowercase@
                    == lower_of(n@) && timeout_ms == NAME_SEARCH_TIMEOUT_MS && interval_ms
                    == NAME_SEARCH_INTERVAL_MS,
                _ => false,
            }
            &&& status == waiting_for_name_text(n@)
        },
        None => {
            &&& cmd == (LaunchCommand::FindWindowByPid {
                pid,
                timeout_ms: PID_SEARCH_TIMEOUT_MS,
                interval_ms: PID_SEARCH_INTERVAL_MS,
            })
            &&& status == waiting_for_pid_text(pid)
        },
    }
}

/// The command applies the changes that restore `snapshot`.
pub open spec fn restores(cmd: LaunchCommand, snapshot: Seq<SavedMonitorPos>) -> bool {
    match cmd {
        LaunchCommand::ApplyDisplayChanges(cs) => changes_of(cs@) == spec_restore(snapshot_layout_of(snapshot)),
        _ => false,
    }
}

/// The command switches the default audio device to `id`.
pub open spec fn switches_audio_to(cmd: LaunchCommand, id: Seq<char>) -> bool {
    match cmd {
        LaunchCommand::SwitchAudio(a) => a@ == id,
        _ => false,
    }
}

/// The event is one that the stage waits for.
pub open spec fn expects(stage: LaunchStage, event: LaunchEvent) -> bool {
    match stage {
        LaunchStage::Switching | LaunchStage::SettlingDisplays | LaunchStage::AwaitingExit
        | LaunchStage::Restoring | LaunchStage::Placing => event is Completed,
        LaunchStage::Spawning => event is Spawned || event is SpawnFailed,
        LaunchStage::SwitchingAudio => event is AudioSwitched || event is AudioFailed,
        LaunchStage::Locating => event is WindowFound || event is WindowNotFound,
        LaunchStage::Done => true,
    }
}

/// The stage a launch moves to from `stage` on `event`.
pub open spec fn spec_next_stage(stage: LaunchStage, force_primary: bool, with_audio: bool, event: LaunchEvent) -> LaunchStage {
    match stage {
        LaunchStage::Switching => LaunchStage::SettlingDisplays,
        LaunchStage::SettlingDisplays => LaunchStage::Spawning,
        LaunchStage::Spawning => match event {
            LaunchEvent::Spawned { .. } => if force_primary {
                LaunchStage::AwaitingExit
            } else if with_audio {
                LaunchStage::SwitchingAudio
            } else {
                LaunchStage::Locating
            },
            _ => if force_primary { LaunchStage::Restoring } else { LaunchStage::Done },
        },
        LaunchStage::AwaitingExit => LaunchStage::Restoring,
        LaunchStage::Restoring => LaunchStage::Done,
        LaunchStage::SwitchingAudio => LaunchStage::Locating,
        LaunchStage::Locating => match event {
            LaunchEvent::WindowFound { .. } => LaunchStage::Placing,
            _ => LaunchStage::Done,
        },
        LaunchStage::Placing => LaunchStage::Done,
        LaunchStage::Done => LaunchStage::Done,
    }
}

/// The position of a stage in the order in which a launch goes through them.
pub open spec fn stage_rank(stage: LaunchStage) -> int {
    match stage {
        LaunchStage::Switching => 0,
        LaunchStage::SettlingDisplays => 1,
        LaunchStage::Spawning => 2,
        LaunchStage::AwaitingExit => 3,
        LaunchStage::Restoring => 4,
        LaunchStage::SwitchingAudio => 5,
        LaunchStage::Locating => 6,
        LaunchStage::Placing => 7,
        LaunchStage::Done => 8,
    }
}

/// A launch only moves forward: switch, settle, spawn, then either wait for
/// the exit and restore, or switch audio, locate and place; no stage is
/// entered twice, so a launch takes at most nine steps. A switched layout is
/// always restored: from `AwaitingExit` and from a failed spawn after a
/// switch, the next stage is `Restoring`.
pub proof fn lemma_launch_moves_forward(stage: LaunchStage, force_primary: bool, with_audio: bool, event: LaunchEvent)
    ensures
        ({
            let next = spec_next_stage(stage, force_primary, with_audio, event);
            &&& stage != LaunchStage::Done ==> stage_rank(next) > stage_rank(stage)
            &&& stage == LaunchStage::Done ==> next == LaunchStage::Done
            &&& 0 <= stage_rank(stage) <= 8
            &&& stage == LaunchStage::AwaitingExit ==> next == LaunchStage::Restoring
            &&& (stage == LaunchStage::Spawning && force_primary && event is SpawnFailed)
                ==> next == LaunchStage::Restoring
        }),
{
}

fn one_status(s: String) -> (r: Vec<String>)
    ensures
        statuses_of(r@) == seq![s@],
        r@.len() == 1,
        r@[0]@ == s@,
{
    let mut v: Vec<String> = Vec::new();
    v.push(s);
    proof {
        assert(statuses_of(v@) =~= seq![s@]);
    }
    v
}

fn two_statuses(a: String, b: String) -> (r: Vec<String>)
    ensures
        statuses_of(r@) == seq![a@, b@],
        r@.len() == 2,
        r@[0]@ == a@,
        r@[1]@ == b@,
{
    let mut v: Vec<String> = Vec::new();
    v.push(a);
    v.push(b);
    proof {
        assert(statuses_of(v@) =~= seq![a@, b@]);
    }
    v
}

fn no_status() -> (r: Vec<String>)
    ensures
        statuses_of(r@) == Seq::<Seq<char>>::empty(),
        r@.len() == 0,
{
    let v: Vec<String> = Vec::new();
    proof {
        assert(statuses_of(v@) =~= Seq::<Seq<char>>::empty());
    }
    v
}

impl LaunchSession {
    /// The command that starts the search for the window of process `pid`,
    /// and its status message.
    fn locate(&self, pid: u32) -> (r: (LaunchCommand, String))
        ensures
            locate_command_fits(*self, pid, r.0, r.1@),
    {
        match &self.window_process_name {
            Some(name) => {
                let status = concat3("\u{23F3} Waiting for '", name.as_str(), "' window\u{2026}");
                let cmd = LaunchCommand::FindWindowByName {
                    name_lowercase: lowercase(name.as_str()),
                    timeout_ms: NAME_SEARCH_TIMEOUT_MS,
                    interval_ms: NAME_SEARCH_INTERVAL_MS,
                };
                (cmd, status)
            },
            None => {
                let digits = decimal_string(pid);
                let status = concat3("\u{23F3} Launched PID ", digits.as_str(), ", waiting for window\u{2026}");
                let cmd = LaunchCommand::FindWindowByPid {
                    pid,
                    timeout_ms: PID_SEARCH_TIMEOUT_MS,
                    interval_ms: PID_SEARCH_INTERVAL_MS,
                };
                (cmd, status)
            },
        }
    }

    /// Whether `step` takes `event` in the current stage.
    pub fn expects_event(&self, event: &LaunchEvent) -> (r: bool)
        ensures
            r == expects(self.stage, *event),
    {
        match self.stage {
            LaunchStage::Switching | LaunchStage::SettlingDisplays | LaunchStage::AwaitingExit
            | LaunchStage::Restoring | LaunchStage::Placing => matches!(event, LaunchEvent::Completed),
            LaunchStage::Spawning => matches!(event, LaunchEvent::Spawned { .. } | LaunchEvent::SpawnFailed { .. }),
            LaunchStage::SwitchingAudio => matches!(event, LaunchEvent::AudioSwitched | LaunchEvent::AudioFailed { .. }),
            LaunchStage::Locating => matches!(event, LaunchEvent::WindowFound { .. } | LaunchEvent::WindowNotFound),
            LaunchStage::Done => true,
        }
    }

    /// Advances the launch on what came of the last command: the display
    /// switch is followed by a settle pause, the start of the process, the
    /// wait for its exit and the restore (a failed start is restored too);
    /// otherwise the start is followed by the audio switch if one is asked
    /// for, the search for the window and its placement. On the switch path
    /// the audio device is left as it is: the whole layout moves instead of
    /// the window, and the profile's audio device is not switched.
    pub fn step(&mut self, event: LaunchEvent) -> (r: LaunchStep)
        requires
            expects(old(self).stage, event),
        ensures
            final(self).target_rect == old(self).target_rect,
            final(self).device_name == old(self).device_name,
            final(self).force_primary == old(self).force_primary,
            final(self).window_process_name == old(self).window_process_name,
            final(self).audio_device_id == old(self).audio_device_id,
            final(self).snapshot@ == old(self).snapshot@,
            final(self).stage == spec_next_stage(old(self).stage, old(self).force_primary,
                old(self).audio_device_id is Some, event),
            old(self).stage != LaunchStage::Spawning ==> final(self).pid == old(self).pid,
            final(self).spawn_failed == (old(self).spawn_failed || (old(self).stage == LaunchStage::Spawning
                && event is SpawnFailed && old(self).force_primary)),
            match old(self).stage {
                LaunchStage::Switching => final(self).stage == LaunchStage::SettlingDisplays
                    && r.command == LaunchCommand::Sleep(DISPLAY_SETTLE_MS) && r.statuses@.len() == 0,
                LaunchStage::SettlingDisplays => final(self).stage == LaunchStage::Spawning
                    && r.command == LaunchCommand::Spawn && r.statuses@.len() == 0,
                LaunchStage::Spawning => match event {
                    LaunchEvent::Spawned { pid } => {
                        &&& final(self).pid == pid
                        &&& old(self).force_primary ==> final(self).stage == LaunchStage::AwaitingExit
                            && r.command == LaunchCommand::WaitForExit(pid)
                            && statuses_of(r.statuses@) == seq![game_launched_text(pid)]
                        &&& !old(self).force_primary && old(self).audio_device_id is Some ==> {
                            &&& final(self).stage == LaunchStage::SwitchingAudio
                            &&& switches_audio_to(r.command, old(self).audio_device_id.unwrap()@)
                            &&& statuses_of(r.statuses@) == seq![trying_audio_text(old(self).audio_device_id.unwrap()@)]
                        }
                        &&& !old(self).force_primary && old(self).audio_device_id is None ==> {
                            &&& final(self).stage == LaunchStage::Locating
                            &&& r.statuses@.len() == 1
                            &&& locate_command_fits(*old(self), pid, r.command, r.statuses@[0]@)
                        }
                    },
                    LaunchEvent::SpawnFailed { reason } => {
                        &&& statuses_of(r.statuses@) == seq![launch_failed_text(reason@)]
                        &&& old(self).force_primary ==> final(self).stage == LaunchStage::Restoring
                            && final(self).spawn_failed && restores(r.command, old(self).snapshot@)
                        &&& !old(self).force_primary ==> final(self).stage == LaunchStage::Done
                            && r.command == LaunchCommand::Finish
                    },
                    _ => false,
                },
                LaunchStage::AwaitingExit => {
                    &&& final(self).stage == LaunchStage::Restoring
                    &&& final(self).spawn_failed == old(self).spawn_failed
                    &&& restores(r.command, old(self).snapshot@)
                    &&& r.statuses@.len() == 0
                },
                LaunchStage::Restoring => {
                    &&& final(self).stage == LaunchStage::Done
                    &&& r.command == LaunchCommand::Finish
                    &&& statuses_of(r.statuses@) == if old(self).spawn_failed {
                        Seq::<Seq<char>>::empty()
                    } else {
                        seq!["\u{2705} Game exited. Monitor layout restored."@]
                    }
                },
                LaunchStage::SwitchingAudio => {
                    &&& final(self).stage == LaunchStage::Locating
                    &&& r.statuses@.len() == 2
                    &&& locate_command_fits(*old(self), old(self).pid, r.command, r.statuses@[1]@)
                    &&& r.statuses@[0]@ == match event {
                        LaunchEvent::AudioFailed { reason } => audio_failed_text(reason@),
                        _ => "\u{1F3B5} Audio switched, waiting for window\u{2026}"@,
                    }
                },
                LaunchStage::Locating => match event {
                    LaunchEvent::WindowFound { hwnd } => final(self).stage == LaunchStage::Placing
                        && r.command == (LaunchCommand::PlaceWindow { hwnd, target: old(self).target_rect })
                        && r.statuses@.len() == 0,
                    _ => final(self).stage == LaunchStage::Done && r.command == LaunchCommand::Finish
                        && statuses_of(r.statuses@) == seq!["\u{26A0}\u{FE0F} Window not found within timeout (app may still work normally)."@],
                },
                LaunchStage::Placing => {
                    &&& final(self).stage == LaunchStage::Done
                    &&& r.command == LaunchCommand::Finish
                    &&& statuses_of(r.statuses@) == if old(self).audio_device_id is Some {
                        seq!["\u{2705} Window moved + audio switched."@]
                    } else {
                        seq!["\u{2705} Window locked on target monitor."@]
                    }
                },
                LaunchStage::Done => final(self).stage == LaunchStage::Done && r.command == LaunchCommand::Finish
                    && r.statuses@.len() == 0,
            },
    {
        match self.stage {
            LaunchStage::Switching => {
                self.stage = LaunchStage::SettlingDisplays;
                LaunchStep { statuses: no_status(), command: LaunchCommand::Sleep(DISPLAY_SETTLE_MS) }
            },
            LaunchStage::SettlingDisplays => {
                self.stage = LaunchStage::Spawning;
                LaunchStep { statuses: no_status(), command: LaunchCommand::Spawn }
            },
            LaunchStage::Spawning => match event {
                LaunchEvent::Spawned { pid } => {
                    self.pid = pid;
                    if self.force_primary {
                        self.stage = LaunchStage::AwaitingExit;
                        let digits = decimal_string(pid);
                        let status = concat3("\u{23F3} Game launched (PID ", digits.as_str(), ") \u{2014} will restore monitors on exit.");
                        LaunchStep { statuses: one_status(status), command: LaunchCommand::WaitForExit(pid) }
                    } else {
                        match &self.audio_device_id {
                            Some(id) => {
                                let n = id.as_str().unicode_len();
                                let shown = if n < AUDIO_ID_SHOWN_CHARS { n } else { AUDIO_ID_SHOWN_CHARS };
                                let status = concat2("\u{1F50D} Trying audio ID: ", id.as_str().substring_char(0, shown));
                                let cmd = LaunchCommand::SwitchAudio(id.clone());
                                self.stage = LaunchStage::SwitchingAudio;
                                LaunchStep { statuses: one_status(status), command: cmd }
                            },
                            None => {
                                let (cmd, status) = self.locate(pid);
                                self.stage = LaunchStage::Locating;
                                LaunchStep { statuses: one_status(status), command: cmd }
                            },
                        }
                    }
                },
                LaunchEvent::SpawnFailed { reason } => {
                    let status = concat2("\u{274C} Failed to launch: ", reason.as_str());
                    if self.force_primary {
                        self.stage = LaunchStage::Restoring;
                        self.spawn_failed = true;
                        let cs = restore_monitor_layout(&self.snapshot);
                        LaunchStep { statuses: one_status(status), command: LaunchCommand::ApplyDisplayChanges(cs) }
                    } else {
                        self.stage = LaunchStage::Done;
                        LaunchStep { statuses: one_status(status), command: LaunchCommand::Finish }
                    }
                },
                _ => LaunchStep { statuses: no_status(), command: LaunchCommand::Finish },
            },
            LaunchStage::AwaitingExit => {
                self.stage = LaunchStage::Restoring;
                let cs = restore_monitor_layout(&self.snapshot);
                LaunchStep { statuses: no_status(), command: LaunchCommand::ApplyDisplayChanges(cs) }
            },
            LaunchStage::Restoring => {
                self.stage = LaunchStage::Done;
                let statuses = if self.spawn_failed {
                    no_status()
                } else {
                    one_status(String::from_str("\u{2705} Game exited. Monitor layout restored."))
                };
                LaunchStep { statuses, command: LaunchCommand::Finish }
            },
            LaunchStage::SwitchingAudio => {
                let first = match event {
                    LaunchEvent::AudioFailed { reason } => concat2("\u{26A0}\u{FE0F} Audio switch failed: ", reason.as_str()),
                    _ => String::from_str("\u{1F3B5} Audio switched, waiting for window\u{2026}"),
                };
                let (cmd, status) = self.locate(self.pid);
                self.stage = LaunchStage::Locating;
                LaunchStep { statuses: two_statuses(first, status), command: cmd }
            },
            LaunchStage::Locating => match event {
                LaunchEvent::WindowFound { hwnd } => {
                    self.stage = LaunchStage::Placing;
                    LaunchStep { statuses: no_status(), command: LaunchCommand::PlaceWindow { hwnd, target: self.target_rect } }
                },
                _ => {
                    self.stage = LaunchStage::Done;
                    let status = String::from_str("\u{26A0}\u{FE0F} Window not found within timeout (app may still work normally).");
                    LaunchStep { statuses: one_status(status), command: LaunchCommand::Finish }
                },
            },
            LaunchStage::Placing => {
                self.stage = LaunchStage::Done;
                let status = if self.audio_device_id.is_some() {
                    String::from_str("\u{2705} Window moved + audio switched.")
                } else {
                    String::from_str("\u{2705} Window locked on target monitor.")
                };
                LaunchStep { statuses: one_status(status), command: LaunchCommand::Finish }
            },
            LaunchStage::Done => LaunchStep { statuses: no_status(), command: LaunchCommand::Finish },
        }
    }
}

} // verus!
