use vstd::prelude::*;

use crate::geometry::SerializableRect;

verus! {

/// A saved recipe for launching one application onto one monitor.
#[derive(Clone, Debug)]
pub struct AppProfile {
    pub name: String,
    /// Path of the executable to start.
    pub exe_path: String,
    /// Device name of the target monitor, e.g. `\\.\DISPLAY2`.
    pub target_monitor_name: String,
    /// Rectangle of the target monitor when the profile was saved; used when
    /// the device name no longer matches a live monitor.
    pub target_monitor_rect: Option<SerializableRect>,
    /// Executable name of the process that owns the real window, for
    /// launchers that start a different process (e.g. `Diablo IV.exe`).
    /// `None` tracks the launched process itself.
    pub window_process_name: Option<String>,
    /// Make the target monitor primary while the application runs.
    pub force_primary: bool,
    /// Keep the window on its monitor in the background, continuously.
    pub persistent_monitor: bool,
    /// Audio output device to make the default at launch.
    pub target_audio_device_id: Option<String>,
}

/// Everything that is persisted: the profiles, in order.
#[derive(Clone, Debug, Default)]
pub struct SavedData {
    pub profiles: Vec<AppProfile>,
}

/// A live monitor: its rectangle and its device name.
#[derive(Clone, Debug)]
pub struct MonitorInfo {
    pub rect: SerializableRect,
    pub device_name: String,
}

/// One monitor's position as captured before the layout is changed.
#[derive(Clone, Debug)]
pub struct SavedMonitorPos {
    pub device_name: String,
    pub rect: SerializableRect,
}

/// An audio output device as the system names it.
#[derive(Clone, Debug, Default)]
pub struct AudioDeviceInfo {
    pub id: String,
    pub name: String,
}

impl View for MonitorInfo {
    type V = (Seq<char>, SerializableRect);

    open spec fn view(&self) -> (Seq<char>, SerializableRect) {
        (self.device_name@, self.rect)
    }
}

impl View for SavedMonitorPos {
    type V = (Seq<char>, SerializableRect);

    open spec fn view(&self) -> (Seq<char>, SerializableRect) {
        (self.device_name@, self.rect)
    }
}

impl MonitorInfo {
    pub fn new(device_name: String, rect: SerializableRect) -> (r: MonitorInfo)
        ensures
            r@ == (device_name@, rect),
    {
        MonitorInfo { rect, device_name }
    }
}

} // verus!
