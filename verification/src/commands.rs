use vstd::prelude::*;

verus! {

/// The capture settings the preview and the recorder are built with.
#[derive(Clone, Copy, Debug, PartialEq, Eq, Structural)]
pub struct Settings {
    pub width: i32,
    pub height: i32,
    pub fps: i32,
}

/// A request from the user interface to the camera.
///
/// `SetIso` and `SetExposure` carry the IEEE-754 bit pattern of their value
/// (`f32::to_bits`); the camera accepts them and changes nothing.
#[derive(Clone, Copy, Debug, PartialEq, Eq, Structural)]
pub enum CameraCommand {
    StartRecording,
    StopRecording,
    TakePhoto,
    ChangeResolution(i32, i32),
    ChangeFps(i32),
    SetIso(u32),
    SetExposure(u32),
    Quit,
}

/// What the camera thread has to do next in answer to a command.
#[derive(Clone, Copy, Debug, PartialEq, Eq, Structural)]
pub enum Action {
    /// Nothing to do.
    Nothing,
    /// Mark that the next frame that arrives is saved as a photo.
    RequestPhoto,
    /// Build a recorder for these settings and start it; when it runs, call
    /// `recorder_started` and send `recording_started_event`, otherwise send
    /// `recording_failed_event`.
    StartRecorder(Settings),
    /// Send end-of-stream to the recorder, let it finish and stop it; then
    /// send `recording_stopped_event`.
    StopRecorder,
    /// Stop the running preview if `stop_current`, then build a preview for
    /// `settings`; report whether it runs with `preview_started`.
    RestartPreview { stop_current: bool, settings: Settings },
    /// Stop the running preview if `stop_current`, and read no more commands.
    Shutdown { stop_current: bool },
}

/// The state of the camera thread as far as its decisions depend on it.
pub struct ControllerState {
    pub settings: Settings,
    pub preview_running: bool,
    pub recording: bool,
    pub stopped: bool,
}

/// The decisions of the camera thread: which settings are current, whether a
/// preview pipeline and a recorder exist, and whether `Quit` has been seen.
pub struct CameraController {
    settings: Settings,
    preview_running: bool,
    recording: bool,
    stopped: bool,
}

impl View for CameraController {
    type V = ControllerState;

    closed spec fn view(&self) -> ControllerState {
        ControllerState {
            settings: self.settings,
            preview_running: self.preview_running,
            recording: self.recording,
            stopped: self.stopped,
        }
    }
}

/// The settings the camera starts with: 1280x720 at 30 frames per second.
pub open spec fn initial_settings() -> Settings {
    Settings { width: 1280, height: 720, fps: 30 }
}

/// The state after `cmd` and the action it asks for, given the state before.
pub open spec fn command_outcome(s: ControllerState, cmd: CameraCommand) -> (ControllerState, Action) {
    if s.stopped {
        (s, Action::Nothing)
    } else {
        match cmd {
            CameraCommand::TakePhoto => (s, Action::RequestPhoto),
            CameraCommand::StartRecording => (s, Action::StartRecorder(s.settings)),
            CameraCommand::StopRecording => if s.recording {
                (ControllerState { recording: false, ..s }, Action::StopRecorder)
            } else {
                (s, Action::Nothing)
            },
            CameraCommand::ChangeResolution(w, h) => {
                let settings = Settings { width: w, height: h, fps: s.settings.fps };
                (
                    ControllerState { settings, preview_running: false, ..s },
                    Action::RestartPreview { stop_current: s.preview_running, settings },
                )
            },
            CameraCommand::ChangeFps(f) => {
                let settings = Settings { fps: f, ..s.settings };
                (
                    ControllerState { settings, preview_running: false, ..s },
                    Action::RestartPreview { stop_current: s.preview_running, settings },
                )
            },
            CameraCommand::Quit => (
                ControllerState { preview_running: false, stopped: true, ..s },
                Action::Shutdown { stop_current: s.preview_running },
            ),
            CameraCommand::SetIso(_) => (s, Action::Nothing),
            CameraCommand::SetExposure(_) => (s, Action::Nothing),
        }
    }
}

impl CameraController {
    /// A controller with the initial settings, no preview, no recorder.
    pub fn new() -> (c: Self)
        ensures
            c@ == (ControllerState {
                settings: initial_settings(),
                preview_running: false,
                recording: false,
                stopped: false,
            }),
    {
        CameraController {
            settings: Settings { width: 1280, height: 720, fps: 30 },
            preview_running: false,
            recording: false,
            stopped: false,
        }
    }

    /// The current capture settings.
    pub fn settings(&self) -> (s: Settings)
        ensures
            s == self@.settings,
    {
        self.settings
    }

    /// Whether a recorder is running.
    pub fn is_recording(&self) -> (r: bool)
        ensures
            r == self@.recording,
    {
        self.recording
    }

    /// Whether `Quit` has been handled.
    pub fn is_stopped(&self) -> (r: bool)
        ensures
            r == self@.stopped,
    {
        self.stopped
    }

    /// The action that builds the first preview, with the current settings.
    pub fn start_preview(&self) -> (a: Action)
        ensures
            a == (Action::RestartPreview {
                stop_current: self@.preview_running,
                settings: self@.settings,
            }),
    {
        Action::RestartPreview { stop_current: self.preview_running, settings: self.settings }
    }

    /// Records whether the preview that an action asked for is running.
    pub fn preview_started(&mut self, running: bool)
        ensures
            final(self)@ == (ControllerState { preview_running: running, ..old(self)@ }),
    {
        self.preview_running = running;
    }

    /// Records that the recorder asked for by `StartRecorder` runs.
    pub fn recorder_started(&mut self)
        ensures
            final(self)@ == (ControllerState { recording: true, ..old(self)@ }),
    {
        self.recording = true;
    }

    /// Handles one command: updates the state and says what to do.
    pub fn handle(&mut self, cmd: CameraCommand) -> (a: Action)
        ensures
            (final(self)@, a) == command_outcome(old(self)@, cmd),
            !old(self)@.stopped ==> match cmd {
                CameraCommand::TakePhoto => a == Action::RequestPhoto && final(self)@ == old(self)@,
                CameraCommand::StartRecording => a == Action::StartRecorder(old(self)@.settings)
                    && final(self)@ == old(self)@,
                CameraCommand::StopRecording => final(self)@.settings == old(self)@.settings
                    && final(self)@.preview_running == old(self)@.preview_running
                    && !final(self)@.recording && !final(self)@.stopped && (a == if old(
                    self,
                )@.recording {
                    Action::StopRecorder
                } else {
                    Action::Nothing
                }),
                CameraCommand::ChangeResolution(w, h) => final(self)@.settings == (Settings {
                    width: w,
                    height: h,
                    fps: old(self)@.settings.fps,
                }) && a == (Action::RestartPreview {
                    stop_current: old(self)@.preview_running,
                    settings: final(self)@.settings,
                }) && final(self)@.recording == old(self)@.recording && !final(self)@.stopped,
                CameraCommand::ChangeFps(f) => final(self)@.settings == (Settings {
                    width: old(self)@.settings.width,
                    height: old(self)@.settings.height,
                    fps: f,
                }) && a == (Action::RestartPreview {
                    stop_current: old(self)@.preview_running,
                    settings: final(self)@.settings,
                }) && final(self)@.recording == old(self)@.recording && !final(self)@.stopped,
                CameraCommand::Quit => a == (Action::Shutdown {
                    stop_current: old(self)@.preview_running,
                }) && final(self)@.stopped && !final(self)@.preview_running
                    && final(self)@.settings == old(self)@.settings && final(self)@.recording
                    == old(self)@.recording,
                CameraCommand::SetIso(_) => a == Action::Nothing && final(self)@ == old(self)@,
                CameraCommand::SetExposure(_) => a == Action::Nothing && final(self)@ == old(self)@,
            },
            old(self)@.stopped ==> a == Action::Nothing && final(self)@ == old(self)@,
    {
        if self.stopped {
            return Action::Nothing;
        }
        match cmd {
            CameraCommand::TakePhoto => Action::RequestPhoto,
            CameraCommand::StartRecording => Action::StartRecorder(self.settings),
            CameraCommand::StopRecording => {
                if self.recording {
                    self.recording = false;
                    Action::StopRecorder
                } else {
                    Action::Nothing
                }
            },
            CameraCommand::ChangeResolution(w, h) => {
                let stop_current = self.preview_running;
                self.settings = Settings { width: w, height: h, fps: self.settings.fps };
                self.preview_running = false;
                Action::RestartPreview { stop_current, settings: self.settings }
            },
            CameraCommand::ChangeFps(f) => {
                let stop_current = self.preview_running;
                self.settings = Settings { width: self.settings.width, height: self.settings.height, fps: f };
                self.preview_running = false;
                Action::RestartPreview { stop_current, settings: self.settings }
            },
            CameraCommand::Quit => {
                let stop_current = self.preview_running;
                self.preview_running = false;
                self.stopped = true;
                Action::Shutdown { stop_current }
            },
            CameraCommand::SetIso(_) => Action::Nothing,
            CameraCommand::SetExposure(_) => Action::Nothing,
        }
    }
}

/// The command that the record button sends and the button's new state:
/// a running recording is stopped, otherwise one is started.
pub open spec fn toggled(is_recording: bool) -> (CameraCommand, bool) {
    if is_recording {
        (CameraCommand::StopRecording, false)
    } else {
        (CameraCommand::StartRecording, true)
    }
}

/// The command that the record button sends, and the button's new state.
pub fn recording_toggle(is_recording: bool) -> (r: (CameraCommand, bool))
    ensures
        r == toggled(is_recording),
{
    if is_recording {
        (CameraCommand::StopRecording, false)
    } else {
        (CameraCommand::StartRecording, true)
    }
}

/// `Quit` stops the preview, and once it has been handled every later
/// command is ignored.
pub proof fn lemma_nothing_after_quit(s: ControllerState, cmd: CameraCommand)
    requires
        !s.stopped,
    ensures
        command_outcome(command_outcome(s, CameraCommand::Quit).0, cmd) == (
            command_outcome(s, CameraCommand::Quit).0,
            Action::Nothing,
        ),
        command_outcome(s, CameraCommand::Quit).0.stopped,
        !command_outcome(s, CameraCommand::Quit).0.preview_running,
{
}

/// A stopped camera ignores every command.
pub proof fn lemma_stopped_ignores_commands(s: ControllerState, cmd: CameraCommand)
    requires
        s.stopped,
    ensures
        command_outcome(s, cmd) == (s, Action::Nothing),
{
}

/// A recorder is always started with the settings chosen last, and starting
/// one changes nothing until it reports back.
pub proof fn lemma_recorder_uses_current_settings(s: ControllerState)
    requires
        !s.stopped,
    ensures
        command_outcome(s, CameraCommand::StartRecording) == (s, Action::StartRecorder(s.settings)),
{
}

/// Changing the resolution keeps the frame rate, changing the frame rate
/// keeps the resolution, so the two changes give the same settings in
/// either order; neither stops a running recording.
pub proof fn lemma_setting_changes_commute(s: ControllerState, w: i32, h: i32, f: i32)
    requires
        !s.stopped,
    ensures
        ({
            let a = command_outcome(
                command_outcome(s, CameraCommand::ChangeResolution(w, h)).0,
                CameraCommand::ChangeFps(f),
            );
            let b = command_outcome(
                command_outcome(s, CameraCommand::ChangeFps(f)).0,
                CameraCommand::ChangeResolution(w, h),
            );
            &&& a.0 == b.0
            &&& a.0.settings == (Settings { width: w, height: h, fps: f })
            &&& a.0.recording == s.recording
            &&& a.1 == (Action::RestartPreview { stop_current: false, settings: a.0.settings })
            &&& b.1 == a.1
        }),
{
}

/// Every settings change destroys the running preview before a new one is
/// built with the new settings, so at most one preview pipeline exists; the
/// new one counts as running only once it reports so.
pub proof fn lemma_settings_change_rebuilds_preview(s: ControllerState, cmd: CameraCommand)
    requires
        !s.stopped,
        cmd is ChangeResolution || cmd is ChangeFps,
    ensures
        command_outcome(s, cmd).1 == (Action::RestartPreview {
            stop_current: s.preview_running,
            settings: command_outcome(s, cmd).0.settings,
        }),
        !command_outcome(s, cmd).0.preview_running,
        command_outcome(s, cmd).0.recording == s.recording,
{
}

/// Stopping a recording when none runs does nothing; stopping a running one
/// asks to stop its recorder exactly once.
pub proof fn lemma_stop_recording_once(s: ControllerState)
    requires
        !s.stopped,
        s.recording,
    ensures
        command_outcome(s, CameraCommand::StopRecording).1 == Action::StopRecorder,
        command_outcome(command_outcome(s, CameraCommand::StopRecording).0, CameraCommand::StopRecording)
            == (command_outcome(s, CameraCommand::StopRecording).0, Action::Nothing),
{
}

/// Pressing the record button twice starts a recording and then stops it
/// (or the other way round), and leaves the button as it was.
pub proof fn lemma_recording_toggle_twice(is_recording: bool)
    ensures
        toggled(toggled(is_recording).1).1 == is_recording,
        toggled(toggled(is_recording).1).0 != toggled(is_recording).0,
{
}

/// Changing the resolution sets exactly the new width and height and keeps
/// the frame rate chosen before, whether or not a preview runs or a
/// recording goes on; the running preview, if any, is rebuilt at the new size
/// and the recording is left alone.
pub proof fn lemma_change_resolution_keeps_frame_rate(s: ControllerState, w: i32, h: i32)
    requires
        !s.stopped,
    ensures
        command_outcome(s, CameraCommand::ChangeResolution(w, h)).0.settings.width == w,
        command_outcome(s, CameraCommand::ChangeResolution(w, h)).0.settings.height == h,
        command_outcome(s, CameraCommand::ChangeResolution(w, h)).0.settings.fps == s.settings.fps,
        command_outcome(s, CameraCommand::ChangeResolution(w, h)).0.recording == s.recording,
        !command_outcome(s, CameraCommand::ChangeResolution(w, h)).0.stopped,
        command_outcome(s, CameraCommand::ChangeResolution(w, h)).1 == (Action::RestartPreview {
            stop_current: s.preview_running,
            settings: Settings { width: w, height: h, fps: s.settings.fps },
        }),
{
}

/// Changing the frame rate sets exactly the new rate and keeps the width and
/// height chosen before, whether or not a preview runs or a recording goes
/// on; the running preview, if any, is rebuilt at the new rate.
pub proof fn lemma_change_fps_keeps_resolution(s: ControllerState, f: i32)
    requires
        !s.stopped,
    ensures
        command_outcome(s, CameraCommand::ChangeFps(f)).0.settings.width == s.settings.width,
        command_outcome(s, CameraCommand::ChangeFps(f)).0.settings.height == s.settings.height,
        command_outcome(s, CameraCommand::ChangeFps(f)).0.settings.fps == f,
        command_outcome(s, CameraCommand::ChangeFps(f)).0.recording == s.recording,
        !command_outcome(s, CameraCommand::ChangeFps(f)).0.stopped,
        command_outcome(s, CameraCommand::ChangeFps(f)).1 == (Action::RestartPreview {
            stop_current: s.preview_running,
            settings: Settings { width: s.settings.width, height: s.settings.height, fps: f },
        }),
{
}

/// Taking a photo always asks for one, whether or not a preview runs and
/// whether or not a recording goes on, and changes nothing else: the
/// settings, the preview and a running recording stay as they were.
pub proof fn lemma_take_photo_only_requests_a_photo(s: ControllerState)
    requires
        !s.stopped,
    ensures
        command_outcome(s, CameraCommand::TakePhoto).1 == Action::RequestPhoto,
        command_outcome(s, CameraCommand::TakePhoto).0.settings == s.settings,
        command_outcome(s, CameraCommand::TakePhoto).0.preview_running == s.preview_running,
        command_outcome(s, CameraCommand::TakePhoto).0.recording == s.recording,
        command_outcome(s, CameraCommand::TakePhoto).0.stopped == s.stopped,
{
}

/// Stopping a running recording ends only the recording: the settings, the
/// preview and the stop flag stay as they were, so a recording started
/// afterwards uses the same settings as before.
pub proof fn lemma_stop_recording_keeps_settings(s: ControllerState)
    requires
        !s.stopped,
        s.recording,
    ensures
        command_outcome(s, CameraCommand::StopRecording).1 == Action::StopRecorder,
        command_outcome(s, CameraCommand::StopRecording).0.settings == s.settings,
        command_outcome(s, CameraCommand::StopRecording).0.preview_running == s.preview_running,
        !command_outcome(s, CameraCommand::StopRecording).0.recording,
        !command_outcome(s, CameraCommand::StopRecording).0.stopped,
        command_outcome(
            command_outcome(s, CameraCommand::StopRecording).0,
            CameraCommand::StartRecording,
        ).1 == Action::StartRecorder(s.settings),
{
}

/// ISO and exposure requests are accepted and change nothing: no action,
/// the same settings, preview and recording.
pub proof fn lemma_iso_and_exposure_change_nothing(s: ControllerState, bits: u32)
    ensures
        command_outcome(s, CameraCommand::SetIso(bits)).1 == Action::Nothing,
        command_outcome(s, CameraCommand::SetIso(bits)).0 == s,
        command_outcome(s, CameraCommand::SetExposure(bits)).1 == Action::Nothing,
        command_outcome(s, CameraCommand::SetExposure(bits)).0 == s,
{
}

} // verus!
