//! The paired camera import as a state machine: the platform's video events
//! come in, the import state moves on, and the step says what the shell has
//! to do next (arm the retry timer, start the import, finish it).
use vstd::prelude::*;
use crate::panel_binding::PanelBindingState;
use crate::stereo_frames::StereoEye;

verus! {

/// What the paired import has seen so far.
#[derive(Clone, Copy, Debug, PartialEq, Eq, Structural)]
pub struct PairedImportState {
    /// A camera pair was chosen.
    pub choice_present: bool,
    /// The camera selection marker was emitted.
    pub selection_logged: bool,
    /// The retry timer is armed.
    pub timer_armed: bool,
    /// The import was started.
    pub started: bool,
    /// The import is over, complete or abandoned.
    pub finished: bool,
    /// Start attempts that found no camera pair.
    pub wait_count: u64,
    pub left_prepared: bool,
    pub right_prepared: bool,
    pub left_updated: bool,
    pub right_updated: bool,
    pub left_yuv_ready: bool,
    pub right_yuv_ready: bool,
    /// The single-stream wait marker was emitted.
    pub single_stream_logged: bool,
    pub binding: PanelBindingState,
}

/// Settings the import runs under.
#[derive(Clone, Copy, Debug, PartialEq, Eq, Structural)]
pub struct ImportSettings {
    pub broker_h264_enabled: bool,
    /// The broker path was asked to decode into CPU YUV planes.
    pub broker_cpu_yuv_requested: bool,
    /// The direct camera path samples YUV planes.
    pub direct_path_yuv_sampling: bool,
    /// Start attempts without a pair tolerated before giving up.
    pub max_waits: u64,
}

/// A platform event, reduced to what the import reads of it.
#[derive(Clone, Copy, Debug, PartialEq, Eq, Structural)]
pub enum PairedImportEvent {
    Startup,
    /// The camera inputs were listed; `pair_found` tells whether a stereo
    /// pair could be picked from them.
    VideoInputs { pair_found: bool },
    YuvTexturesReady { side: StereoEye },
    Prepared { side: StereoEye },
    /// A texture of `side` was updated; `paired_streams_ready` tells whether
    /// a stereo frame is adopted once the update was recorded.
    TextureUpdated { side: StereoEye, paired_streams_ready: bool },
    DecodingError { side: StereoEye },
    /// The retry timer, or its signal fallback, fired.
    ImportTimerFired,
}

/// What a start attempt came to.
#[derive(Clone, Copy, Debug, PartialEq, Eq, Structural)]
pub enum StartOutcome {
    NotAttempted,
    /// The import runs or is over already.
    AlreadyRunning,
    /// No pair yet; the timer is armed again.
    Waiting,
    /// No pair after too many attempts; the import is abandoned.
    GaveUp,
    /// The import starts with the chosen pair.
    Started,
}

/// What a completion check came to.
#[derive(Clone, Copy, Debug, PartialEq, Eq, Structural)]
pub enum CompletionOutcome {
    NotChecked,
    /// Neither a stereo frame nor a usable single stream yet.
    Progress,
    /// Streams are ready but no pair was chosen.
    NoPair,
    /// A single direct stream shows; the wait marker is due when `log`.
    SingleStreamWait { log: bool },
    /// The import is complete.
    Complete,
}

/// What the shell does after a step.
#[derive(Clone, Copy, Debug, PartialEq, Eq, Structural)]
pub struct PairedImportActions {
    /// Take the pair from the broker source.
    pub use_broker_pair: bool,
    pub request_camera_permissions: bool,
    pub emit_selection_marker: bool,
    pub arm_timer: bool,
    /// Emit the import marker of the event.
    pub emit_event_marker: bool,
    pub start: StartOutcome,
    pub completion: CompletionOutcome,
}

/// No action.
pub open spec fn no_actions() -> PairedImportActions {
    PairedImportActions {
        use_broker_pair: false,
        request_camera_permissions: false,
        emit_selection_marker: false,
        arm_timer: false,
        emit_event_marker: false,
        start: StartOutcome::NotAttempted,
        completion: CompletionOutcome::NotChecked,
    }
}

/// The state before any event.
pub open spec fn initial_import_state() -> PairedImportState {
    PairedImportState {
        choice_present: false,
        selection_logged: false,
        timer_armed: false,
        started: false,
        finished: false,
        wait_count: 0,
        left_prepared: false,
        right_prepared: false,
        left_updated: false,
        right_updated: false,
        left_yuv_ready: false,
        right_yuv_ready: false,
        single_stream_logged: false,
        binding: PanelBindingState {
            textures_bound: false,
            paired_textures_bound: false,
            bound_adopted_frame_id: 0,
        },
    }
}

/// Arming the timer: refused once the import is over.
pub open spec fn arm_spec(s: PairedImportState) -> (PairedImportState, bool) {
    if s.finished {
        (s, false)
    } else {
        (PairedImportState { timer_armed: true, ..s }, true)
    }
}

/// One more attempt without a pair, saturating.
pub open spec fn next_wait(count: u64) -> u64 {
    if count == u64::MAX {
        count
    } else {
        (count + 1) as u64
    }
}

/// A start attempt: (state, outcome, pair taken from the broker, timer armed).
pub open spec fn start_spec(s: PairedImportState, settings: ImportSettings) -> (
    PairedImportState,
    StartOutcome,
    bool,
    bool,
) {
    if s.started || s.finished {
        (s, StartOutcome::AlreadyRunning, false, false)
    } else {
        let use_broker = settings.broker_h264_enabled && !s.choice_present;
        let s1 = PairedImportState { choice_present: s.choice_present || use_broker, ..s };
        if !s1.choice_present {
            let waits = next_wait(s1.wait_count);
            let s2 = PairedImportState { wait_count: waits, ..s1 };
            if waits > settings.max_waits {
                (PairedImportState { finished: true, ..s2 }, StartOutcome::GaveUp, use_broker, false)
            } else {
                let (s3, armed) = arm_spec(s2);
                (s3, StartOutcome::Waiting, use_broker, armed)
            }
        } else {
            (PairedImportState { started: true, ..s1 }, StartOutcome::Started, use_broker, false)
        }
    }
}

/// A completion check after a texture update.
pub open spec fn completion_spec(s: PairedImportState, settings: ImportSettings, paired_streams_ready: bool) -> (
    PairedImportState,
    CompletionOutcome,
) {
    let single_stream_ready = !settings.broker_h264_enabled && (s.left_updated || s.right_updated) && (
    !settings.direct_path_yuv_sampling || s.left_yuv_ready || s.right_yuv_ready);
    if !paired_streams_ready && !single_stream_ready {
        (s, CompletionOutcome::Progress)
    } else if !s.choice_present {
        (s, CompletionOutcome::NoPair)
    } else if !paired_streams_ready && !settings.broker_h264_enabled {
        (
            PairedImportState { single_stream_logged: true, ..s },
            CompletionOutcome::SingleStreamWait { log: !s.single_stream_logged },
        )
    } else {
        (PairedImportState { finished: true, ..s }, CompletionOutcome::Complete)
    }
}

/// Startup: a broker import takes its pair from the broker source, a
/// direct one asks for camera permissions; the retry timer is armed.
pub open spec fn startup_step(s: PairedImportState, settings: ImportSettings) -> (
    PairedImportState,
    PairedImportActions,
) {
    let broker = settings.broker_h264_enabled;
    let s1 = PairedImportState { choice_present: s.choice_present || broker, ..s };
    let (s2, armed) = arm_spec(s1);
    (
        s2,
        PairedImportActions {
            use_broker_pair: broker,
            request_camera_permissions: !broker,
            emit_event_marker: broker,
            arm_timer: armed,
            ..no_actions()
        },
    )
}

/// Camera inputs listed: a direct import takes the pair picked from them,
/// logs the selection once, and arms the timer unless it runs or is over.
pub open spec fn inputs_step(s: PairedImportState, pair_found: bool, settings: ImportSettings) -> (
    PairedImportState,
    PairedImportActions,
) {
    if settings.broker_h264_enabled {
        (s, no_actions())
    } else {
        let s1 = PairedImportState { choice_present: pair_found, selection_logged: true, ..s };
        let (s2, armed) = if !s.timer_armed && !s.started && !s.finished {
            arm_spec(s1)
        } else {
            (s1, false)
        };
        (s2, PairedImportActions { emit_selection_marker: !s.selection_logged, arm_timer: armed, ..no_actions() })
    }
}

/// YUV plane textures of `side` arrived; a broker import that asked for
/// CPU planes also drops the current panel binding.
pub open spec fn yuv_ready_step(s: PairedImportState, side: StereoEye, settings: ImportSettings) -> (
    PairedImportState,
    PairedImportActions,
) {
    if settings.broker_h264_enabled && !settings.broker_cpu_yuv_requested {
        (s, no_actions())
    } else {
        let s1 = match side {
            StereoEye::Left => PairedImportState { left_yuv_ready: true, ..s },
            StereoEye::Right => PairedImportState { right_yuv_ready: true, ..s },
        };
        let s2 = if settings.broker_h264_enabled {
            PairedImportState {
                binding: PanelBindingState {
                    textures_bound: false,
                    paired_textures_bound: false,
                    ..s1.binding
                },
                ..s1
            }
        } else {
            s1
        };
        (s2, PairedImportActions { emit_event_marker: true, ..no_actions() })
    }
}

/// Playback of `side` was prepared.
pub open spec fn prepared_step(s: PairedImportState, side: StereoEye) -> (PairedImportState, PairedImportActions) {
    let s1 = match side {
        StereoEye::Left => PairedImportState { left_prepared: true, ..s },
        StereoEye::Right => PairedImportState { right_prepared: true, ..s },
    };
    (s1, PairedImportActions { emit_event_marker: true, ..no_actions() })
}

/// A texture of `side` was updated: unless the import is over, the side
/// counts as updated and completion is checked.
pub open spec fn updated_step(
    s: PairedImportState,
    side: StereoEye,
    paired_streams_ready: bool,
    settings: ImportSettings,
) -> (PairedImportState, PairedImportActions) {
    if s.finished {
        (s, no_actions())
    } else {
        let s1 = match side {
            StereoEye::Left => PairedImportState { left_updated: true, ..s },
            StereoEye::Right => PairedImportState { right_updated: true, ..s },
        };
        let (s2, completion) = completion_spec(s1, settings, paired_streams_ready);
        (s2, PairedImportActions { completion, ..no_actions() })
    }
}

/// A decoding error ends the import.
pub open spec fn error_step(s: PairedImportState) -> (PairedImportState, PairedImportActions) {
    (PairedImportState { finished: true, ..s }, PairedImportActions { emit_event_marker: true, ..no_actions() })
}

/// The armed timer fired: it is disarmed and a start is attempted.
pub open spec fn timer_step(s: PairedImportState, settings: ImportSettings) -> (
    PairedImportState,
    PairedImportActions,
) {
    if !s.timer_armed {
        (s, no_actions())
    } else {
        let s1 = PairedImportState { timer_armed: false, ..s };
        let (s2, start, use_broker, armed) = start_spec(s1, settings);
        (
            s2,
            PairedImportActions {
                use_broker_pair: use_broker,
                arm_timer: armed,
                emit_event_marker: true,
                start,
                ..no_actions()
            },
        )
    }
}

/// The import state and actions after `event`.
pub open spec fn step_spec(s: PairedImportState, event: PairedImportEvent, settings: ImportSettings) -> (
    PairedImportState,
    PairedImportActions,
) {
    match event {
        PairedImportEvent::Startup => startup_step(s, settings),
        PairedImportEvent::VideoInputs { pair_found } => inputs_step(s, pair_found, settings),
        PairedImportEvent::YuvTexturesReady { side } => yuv_ready_step(s, side, settings),
        PairedImportEvent::Prepared { side } => prepared_step(s, side),
        PairedImportEvent::TextureUpdated { side, paired_streams_ready } => updated_step(
            s,
            side,
            paired_streams_ready,
            settings,
        ),
        PairedImportEvent::DecodingError { side: _ } => error_step(s),
        PairedImportEvent::ImportTimerFired => timer_step(s, settings),
    }
}

fn no_actions_value() -> (a: PairedImportActions)
    ensures
        a == no_actions(),
{
    PairedImportActions {
        use_broker_pair: false,
        request_camera_permissions: false,
        emit_selection_marker: false,
        arm_timer: false,
        emit_event_marker: false,
        start: StartOutcome::NotAttempted,
        completion: CompletionOutcome::NotChecked,
    }
}

impl PairedImportState {
    /// The state before any event.
    pub fn new() -> (s: Self)
        ensures
            s == initial_import_state(),
    {
        PairedImportState {
            choice_present: false,
            selection_logged: false,
            timer_armed: false,
            started: false,
            finished: false,
            wait_count: 0,
            left_prepared: false,
            right_prepared: false,
            left_updated: false,
            right_updated: false,
            left_yuv_ready: false,
            right_yuv_ready: false,
            single_stream_logged: false,
            binding: PanelBindingState::new(),
        }
    }

    fn arm(&mut self) -> (armed: bool)
        ensures
            (*final(self), armed) == arm_spec(*old(self)),
    {
        if self.finished {
            false
        } else {
            self.timer_armed = true;
            true
        }
    }

    fn try_start(&mut self, settings: ImportSettings) -> (r: (StartOutcome, bool, bool))
        ensures
            (*final(self), r.0, r.1, r.2) == start_spec(*old(self), settings),
    {
        if self.started || self.finished {
            return (StartOutcome::AlreadyRunning, false, false);
        }
        let use_broker = settings.broker_h264_enabled && !self.choice_present;
        self.choice_present = self.choice_present || use_broker;
        if !self.choice_present {
            self.wait_count = if self.wait_count == u64::MAX {
                self.wait_count
            } else {
                self.wait_count + 1
            };
            if self.wait_count > settings.max_waits {
                self.finished = true;
                (StartOutcome::GaveUp, use_broker, false)
            } else {
                let armed = self.arm();
                (StartOutcome::Waiting, use_broker, armed)
            }
        } else {
            self.started = true;
            (StartOutcome::Started, use_broker, false)
        }
    }

    fn check_completion(&mut self, settings: ImportSettings, paired_streams_ready: bool) -> (outcome:
        CompletionOutcome)
        ensures
            (*final(self), outcome) == completion_spec(*old(self), settings, paired_streams_ready),
    {
        let single_stream_ready = !settings.broker_h264_enabled && (self.left_updated
            || self.right_updated) && (!settings.direct_path_yuv_sampling || self.left_yuv_ready
            || self.right_yuv_ready);
        if !paired_streams_ready && !single_stream_ready {
            CompletionOutcome::Progress
        } else if !self.choice_present {
            CompletionOutcome::NoPair
        } else if !paired_streams_ready && !settings.broker_h264_enabled {
            let log = !self.single_stream_logged;
            self.single_stream_logged = true;
            CompletionOutcome::SingleStreamWait { log }
        } else {
            self.finished = true;
            CompletionOutcome::Complete
        }
    }

    fn on_startup(&mut self, settings: ImportSettings) -> (actions: PairedImportActions)
        ensures
            (*final(self), actions) == startup_step(*old(self), settings),
    {
        let broker = settings.broker_h264_enabled;
        self.choice_present = self.choice_present || broker;
        let armed = self.arm();
        PairedImportActions {
            use_broker_pair: broker,
            request_camera_permissions: !broker,
            emit_event_marker: broker,
            arm_timer: armed,
            ..no_actions_value()
        }
    }

    fn on_video_inputs(&mut self, pair_found: bool, settings: ImportSettings) -> (actions: PairedImportActions)
        ensures
            (*final(self), actions) == inputs_step(*old(self), pair_found, settings),
    {
        if settings.broker_h264_enabled {
            return no_actions_value();
        }
        let was_logged = self.selection_logged;
        let may_arm = !self.timer_armed && !self.started && !self.finished;
        self.choice_present = pair_found;
        self.selection_logged = true;
        let armed = if may_arm {
            self.arm()
        } else {
            false
        };
        PairedImportActions { emit_selection_marker: !was_logged, arm_timer: armed, ..no_actions_value() }
    }

    fn on_yuv_ready(&mut self, side: StereoEye, settings: ImportSettings) -> (actions: PairedImportActions)
        ensures
            (*final(self), actions) == yuv_ready_step(*old(self), side, settings),
    {
        if settings.broker_h264_enabled && !settings.broker_cpu_yuv_requested {
            return no_actions_value();
        }
        match side {
            StereoEye::Left => self.left_yuv_ready = true,
            StereoEye::Right => self.right_yuv_ready = true,
        }
        if settings.broker_h264_enabled {
            self.binding.textures_bound = false;
            self.binding.paired_textures_bound = false;
        }
        PairedImportActions { emit_event_marker: true, ..no_actions_value() }
    }

    fn on_prepared(&mut self, side: StereoEye) -> (actions: PairedImportActions)
        ensures
            (*final(self), actions) == prepared_step(*old(self), side),
    {
        match side {
            StereoEye::Left => self.left_prepared = true,
            StereoEye::Right => self.right_prepared = true,
        }
        PairedImportActions { emit_event_marker: true, ..no_actions_value() }
    }

    fn on_texture_updated(&mut self, side: StereoEye, paired_streams_ready: bool, settings: ImportSettings) -> (actions:
        PairedImportActions)
        ensures
            (*final(self), actions) == updated_step(*old(self), side, paired_streams_ready, settings),
    {
        if self.finished {
            return no_actions_value();
        }
        match side {
            StereoEye::Left => self.left_updated = true,
            StereoEye::Right => self.right_updated = true,
        }
        let completion = self.check_completion(settings, paired_streams_ready);
        PairedImportActions { completion, ..no_actions_value() }
    }

    fn on_timer(&mut self, settings: ImportSettings) -> (actions: PairedImportActions)
        ensures
            (*final(self), actions) == timer_step(*old(self), settings),
    {
        if !self.timer_armed {
            return no_actions_value();
        }
        self.timer_armed = false;
        let (start, use_broker, armed) = self.try_start(settings);
        PairedImportActions {
            use_broker_pair: use_broker,
            arm_timer: armed,
            emit_event_marker: true,
            start,
            ..no_actions_value()
        }
    }

    /// Moves the import on by `event` and returns what the shell does next.
    pub fn step(&mut self, event: PairedImportEvent, settings: ImportSettings) -> (actions:
        PairedImportActions)
        ensures
            (*final(self), actions) == step_spec(*old(self), event, settings),
    {
        match event {
            PairedImportEvent::Startup => self.on_startup(settings),
            PairedImportEvent::VideoInputs { pair_found } => self.on_video_inputs(pair_found, settings),
            PairedImportEvent::YuvTexturesReady { side } => self.on_yuv_ready(side, settings),
            PairedImportEvent::Prepared { side } => self.on_prepared(side),
            PairedImportEvent::TextureUpdated { side, paired_streams_ready } => self.on_texture_updated(
                side,
                paired_streams_ready,
                settings,
            ),
            PairedImportEvent::DecodingError { side: _ } => {
                self.finished = true;
                PairedImportActions { emit_event_marker: true, ..no_actions_value() }
            },
            PairedImportEvent::ImportTimerFired => self.on_timer(settings),
        }
    }

    /// Checks whether the import can complete, outside a texture update (an
    /// XR update that adopted a stereo frame); an import that is over is
    /// left alone.
    pub fn complete_if_ready(&mut self, settings: ImportSettings, paired_streams_ready: bool) -> (outcome:
        CompletionOutcome)
        ensures
            old(self).finished ==> *final(self) == *old(self) && outcome == CompletionOutcome::NotChecked,
            !old(self).finished ==> (*final(self), outcome) == completion_spec(
                *old(self),
                settings,
                paired_streams_ready,
            ),
    {
        if self.finished {
            return CompletionOutcome::NotChecked;
        }
        self.check_completion(settings, paired_streams_ready)
    }

    /// Ends the import from outside the event flow (a diagnostic surface that
    /// took the stream over).
    pub fn finish(&mut self)
        ensures
            *final(self) == (PairedImportState { finished: true, ..*old(self) }),
    {
        self.finished = true;
    }
}

/// What an XR update leads to once the pending frames were offered for
/// adoption.
#[derive(Clone, Copy, Debug, PartialEq, Eq, Structural)]
pub enum XrUpdateFollowUp {
    /// Check whether the import can complete.
    CheckCompletion,
    /// Bind the panel to the newly adopted frame.
    BindPanel,
    Nothing,
}

/// The completion check runs while an adopted frame exists and the import is
/// not over; a frame adopted after the import ended only rebinds the panel.
pub fn xr_update_follow_up(adopted_now: bool, adopted_present: bool, import_finished: bool) -> (f:
    XrUpdateFollowUp)
    ensures
        f == (if (adopted_now || adopted_present) && !import_finished {
            XrUpdateFollowUp::CheckCompletion
        } else if adopted_now {
            XrUpdateFollowUp::BindPanel
        } else {
            XrUpdateFollowUp::Nothing
        }),
{
    if (adopted_now || adopted_present) && !import_finished {
        XrUpdateFollowUp::CheckCompletion
    } else if adopted_now {
        XrUpdateFollowUp::BindPanel
    } else {
        XrUpdateFollowUp::Nothing
    }
}

/// What a step may do to an import that is over: it stays over, is not
/// started, arms no timer and records no texture update.
pub open spec fn keeps_import_over(s: PairedImportState, r: (PairedImportState, PairedImportActions)) -> bool {
    &&& r.0.finished
    &&& r.1.start != StartOutcome::Started
    &&& !r.1.arm_timer
    &&& r.0.left_updated == s.left_updated
    &&& r.0.right_updated == s.right_updated
    &&& r.0.started == s.started
}

proof fn lemma_over_after_startup(s: PairedImportState, settings: ImportSettings)
    requires
        s.finished,
    ensures
        keeps_import_over(s, startup_step(s, settings)),
{
}

proof fn lemma_over_after_inputs(s: PairedImportState, pair_found: bool, settings: ImportSettings)
    requires
        s.finished,
    ensures
        keeps_import_over(s, inputs_step(s, pair_found, settings)),
{
}

proof fn lemma_over_after_yuv_ready(s: PairedImportState, side: StereoEye, settings: ImportSettings)
    requires
        s.finished,
    ensures
        keeps_import_over(s, yuv_ready_step(s, side, settings)),
{
}

proof fn lemma_over_after_timer(s: PairedImportState, settings: ImportSettings)
    requires
        s.finished,
    ensures
        keeps_import_over(s, timer_step(s, settings)),
{
}

/// Once the import is over it stays over: no event reopens it, starts it,
/// arms its timer or records another texture update.
pub proof fn lemma_finished_import_stays_finished(
    s: PairedImportState,
    event: PairedImportEvent,
    settings: ImportSettings,
)
    requires
        s.finished,
    ensures
        keeps_import_over(s, step_spec(s, event, settings)),
{
    match event {
        PairedImportEvent::Startup => lemma_over_after_startup(s, settings),
        PairedImportEvent::VideoInputs { pair_found } => lemma_over_after_inputs(s, pair_found, settings),
        PairedImportEvent::YuvTexturesReady { side } => lemma_over_after_yuv_ready(s, side, settings),
        PairedImportEvent::Prepared { side } => {},
        PairedImportEvent::TextureUpdated { side, paired_streams_ready } => {},
        PairedImportEvent::DecodingError { side } => {},
        PairedImportEvent::ImportTimerFired => lemma_over_after_timer(s, settings),
    }
}

/// The import starts at most once: a started import is never started again,
/// and it stays started.
pub proof fn lemma_import_starts_once(s: PairedImportState, event: PairedImportEvent, settings: ImportSettings)
    requires
        s.started,
    ensures
        step_spec(s, event, settings).0.started,
        step_spec(s, event, settings).1.start != StartOutcome::Started,
{
}

/// The import is abandoned for want of a pair only after more start
/// attempts than the settings tolerate.
pub proof fn lemma_gives_up_only_after_max_waits(
    s: PairedImportState,
    event: PairedImportEvent,
    settings: ImportSettings,
)
    requires
        step_spec(s, event, settings).1.start == StartOutcome::GaveUp,
    ensures
        step_spec(s, event, settings).0.wait_count > settings.max_waits,
        step_spec(s, event, settings).0.finished,
        !step_spec(s, event, settings).0.choice_present,
{
}

/// A start happens only with a chosen pair, and the import is then marked
/// started.
pub proof fn lemma_start_requires_pair(s: PairedImportState, event: PairedImportEvent, settings: ImportSettings)
    requires
        step_spec(s, event, settings).1.start == StartOutcome::Started,
    ensures
        step_spec(s, event, settings).0.choice_present,
        step_spec(s, event, settings).0.started,
        !s.started,
        !s.finished,
{
}

} // verus!
