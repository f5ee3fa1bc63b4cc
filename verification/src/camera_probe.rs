//! Decisions of the bounded Camera2 probe: its marker lines, the reading of
//! camera characteristics, the capture session set-up and tear-down order,
//! and the frame bookkeeping of the image callback.
use vstd::prelude::*;
use crate::acamera::AIMAGE_FORMAT_PRIVATE;
use crate::text::{dec_int, dec_nat, i64_text, push_i64, u64_text};
use vstd::utf8::{decode_utf8, valid_utf8};

verus! {

/// The metadata marker line that the probe emits for `body`.
pub open spec fn metadata_marker_spec(body: Seq<char>) -> Seq<char> {
    "RUSTY_QUEST_MAKEPAD_CAMERA2_METADATA schema=rusty.quest.makepad-camera2.metadata.v1 "@ + body
}

/// The metadata marker line that the probe emits for `body`.
pub fn emit_metadata_marker(body: &str) -> (line: String)
    ensures
        line@ == metadata_marker_spec(body@),
{
    let mut line = String::from_str(
        "RUSTY_QUEST_MAKEPAD_CAMERA2_METADATA schema=rusty.quest.makepad-camera2.metadata.v1 ",
    );
    line.append(body);
    line
}

/// The acquisition marker line that the probe emits for `body`.
pub open spec fn acquisition_marker_spec(body: Seq<char>) -> Seq<char> {
    "RUSTY_QUEST_MAKEPAD_CAMERA2_ACQUISITION schema=rusty.quest.makepad-camera2.acquisition.v1 "@
        + body
}

/// The acquisition marker line that the probe emits for `body`.
pub fn emit_acquisition_marker(body: &str) -> (line: String)
    ensures
        line@ == acquisition_marker_spec(body@),
{
    let mut line = String::from_str(
        "RUSTY_QUEST_MAKEPAD_CAMERA2_ACQUISITION schema=rusty.quest.makepad-camera2.acquisition.v1 ",
    );
    line.append(body);
    line
}

/// The stereo projection marker line that the probe emits for `body`.
pub open spec fn stereo_projection_marker_spec(body: Seq<char>) -> Seq<char> {
    "RUSTY_QUEST_MAKEPAD_STEREO_PROJECTION schema=rusty.quest.makepad-stereo-projection.v1 "@
        + body
}

/// The stereo projection marker line that the probe emits for `body`.
pub fn emit_stereo_projection_marker(body: &str) -> (line: String)
    ensures
        line@ == stereo_projection_marker_spec(body@),
{
    let mut line = String::from_str(
        "RUSTY_QUEST_MAKEPAD_STEREO_PROJECTION schema=rusty.quest.makepad-stereo-projection.v1 ",
    );
    line.append(body);
    line
}

/// The decimal token of an index.
pub fn index_token(value: u64) -> (token: String)
    ensures
        token@ == dec_nat(value as nat),
{
    u64_text(value)
}

/// The decimal token of an optional value, `not-logged` when absent.
pub open spec fn optional_i64_token_spec(value: Option<i64>) -> Seq<char> {
    match value {
        Some(v) => dec_int(v as int),
        None => "not-logged"@,
    }
}

/// The decimal token of an optional value, `not-logged` when absent.
pub fn optional_i64_token(value: Option<i64>) -> (token: String)
    ensures
        token@ == optional_i64_token_spec(value),
{
    match value {
        Some(v) => i64_text(v),
        None => String::from_str("not-logged"),
    }
}

/// Lexicographic order on sizes: width first, then height.
pub open spec fn size_lt(a: (u32, u32), b: (u32, u32)) -> bool {
    a.0 < b.0 || (a.0 == b.0 && a.1 < b.1)
}

/// Whether a sequence of sizes is strictly increasing.
pub open spec fn strictly_sorted(s: Seq<(u32, u32)>) -> bool {
    forall|i: int, j: int| 0 <= i < j < s.len() ==> size_lt(#[trigger] s[i], #[trigger] s[j])
}

/// Whether stream configuration entry `k` (format, width, height, input flag)
/// is a private-format output of positive size.
pub open spec fn private_output_entry(values: Seq<i32>, k: int) -> bool {
    &&& 0 <= k
    &&& 4 * k + 4 <= values.len()
    &&& values[4 * k] as u32 == AIMAGE_FORMAT_PRIVATE
    &&& values[4 * k + 3] == 0
    &&& values[4 * k + 1] > 0
    &&& values[4 * k + 2] > 0
}

/// The size of stream configuration entry `k`.
pub open spec fn entry_size(values: Seq<i32>, k: int) -> (u32, u32) {
    (values[4 * k + 1] as u32, values[4 * k + 2] as u32)
}

/// `sizes` lists, in increasing order and once each, the sizes of the
/// private-format outputs among the stream configurations `values`.
pub open spec fn lists_private_output_sizes(values: Seq<i32>, sizes: Seq<(u32, u32)>) -> bool {
    &&& strictly_sorted(sizes)
    &&& forall|s: (u32, u32)|
        #![trigger sizes.contains(s)]
        sizes.contains(s) <==> exists|k: int| private_output_entry(values, k) && entry_size(values, k) == s
}

fn size_less(a: (u32, u32), b: (u32, u32)) -> (r: bool)
    ensures
        r == size_lt(a, b),
{
    a.0 < b.0 || (a.0 == b.0 && a.1 < b.1)
}

#[verifier::spinoff_prover]
fn insert_sorted(sizes: &mut Vec<(u32, u32)>, size: (u32, u32))
    requires
        strictly_sorted(old(sizes)@),
    ensures
        strictly_sorted(final(sizes)@),
        forall|s: (u32, u32)|
            #![trigger final(sizes)@.contains(s)]
            final(sizes)@.contains(s) <==> (old(sizes)@.contains(s) || s == size),
{
    let n = sizes.len();
    let mut p: usize = 0;
    while p < n && size_less(sizes[p], size)
        invariant
            p <= n == sizes@.len(),
            forall|j: int| 0 <= j < p ==> size_lt(#[trigger] sizes@[j], size),
        decreases n - p,
    {
        p = p + 1;
    }
    let ghost before = sizes@;
    if p < n && sizes[p].0 == size.0 && sizes[p].1 == size.1 {
        assert(before[p as int] == size);
        assert forall|s: (u32, u32)| before.contains(s) <==> (before.contains(s) || s == size) by {
            if s == size {
                assert(before[p as int] == s);
            }
        }
        return;
    }
    sizes.insert(p, size);
    assert forall|i: int, j: int| 0 <= i < j < sizes@.len() implies size_lt(
        #[trigger] sizes@[i],
        #[trigger] sizes@[j],
    ) by {
        if j < p {
        } else if j == p {
        } else if i < p {
            assert(size_lt(before[i], size));
            assert(!size_lt(before[p as int], size));
        } else if i == p {
            assert(!size_lt(before[p as int], size));
            assert(before[p as int] != size);
            if j - 1 > p {
                assert(size_lt(before[p as int], before[j - 1]));
            }
        } else {
        }
    }
    assert forall|s: (u32, u32)| #[trigger] sizes@.contains(s) <==> (before.contains(s) || s == size) by {
        if sizes@.contains(s) {
            let k = choose|k: int| 0 <= k < sizes@.len() && sizes@[k] == s;
            if k < p {
                assert(before[k] == s);
            } else if k > p {
                assert(before[k - 1] == s);
            }
        }
        if before.contains(s) {
            let k = choose|k: int| 0 <= k < before.len() && before[k] == s;
            if k < p {
                assert(sizes@[k] == s);
            } else {
                assert(sizes@[k + 1] == s);
            }
        }
        if s == size {
            assert(sizes@[p as int] == s);
        }
    }
}

/// The private-format output sizes among Camera2 stream configurations
/// (format, width, height, input-flag quadruples), sorted and without
/// repeats.
pub fn private_output_sizes(values: &[i32]) -> (sizes: Vec<(u32, u32)>)
    ensures
        lists_private_output_sizes(values@, sizes@),
{
    let mut sizes: Vec<(u32, u32)> = Vec::new();
    let len = values.len();
    let chunks = len / 4;
    let mut k: usize = 0;
    while k < chunks
        invariant
            k <= chunks,
            len == values@.len(),
            chunks == len / 4,
            chunks == values@.len() / 4,
            strictly_sorted(sizes@),
            forall|s: (u32, u32)|
                #![trigger sizes@.contains(s)]
                sizes@.contains(s) <==> exists|m: int|
                    0 <= m < k && private_output_entry(values@, m) && entry_size(values@, m) == s,
        decreases chunks - k,
    {
        proof {
            assert(4 * k + 4 <= values@.len()) by (nonlinear_arith)
                requires
                    k < chunks,
                    chunks == values@.len() / 4,
            ;
        }
        let format = values[4 * k];
        let width = values[4 * k + 1];
        let height = values[4 * k + 2];
        let input = values[4 * k + 3];
        let ghost old_sizes = sizes@;
        if #[verifier::truncate] (format as u32) == AIMAGE_FORMAT_PRIVATE && input == 0 && width > 0 && height > 0 {
            insert_sorted(&mut sizes, (width as u32, height as u32));
            assert(private_output_entry(values@, k as int));
        }
        assert forall|s: (u32, u32)| #[trigger] sizes@.contains(s) <==> exists|m: int|
            0 <= m < k + 1 && private_output_entry(values@, m) && entry_size(values@, m) == s by {
            if sizes@.contains(s) && !old_sizes.contains(s) {
                assert(private_output_entry(values@, k as int) && entry_size(values@, k as int) == s);
            }
            if exists|m: int| 0 <= m < k + 1 && private_output_entry(values@, m) && entry_size(values@, m) == s {
                let m = choose|m: int| 0 <= m < k + 1 && private_output_entry(values@, m) && entry_size(values@, m) == s;
                if m < k {
                    assert(old_sizes.contains(s));
                }
            }
        }
        k = k + 1;
    }
    assert forall|s: (u32, u32)| #[trigger] sizes@.contains(s) <==> exists|m: int| private_output_entry(values@, m) && entry_size(values@, m) == s by {
        if exists|m: int| private_output_entry(values@, m) && entry_size(values@, m) == s {
            let m = choose|m: int| private_output_entry(values@, m) && entry_size(values@, m) == s;
            assert(m < chunks);
        }
    }
    sizes
}

/// The active array size from a sensor rectangle (left, top, right, bottom):
/// its width and height when both are positive and computable.
pub open spec fn active_array_size_spec(values: Seq<i32>) -> Option<(u32, u32)> {
    if values.len() < 4 {
        None
    } else {
        let w = values[2] - values[0];
        let h = values[3] - values[1];
        if w < i32::MIN || w > i32::MAX || h < i32::MIN || h > i32::MAX {
            None
        } else if w > 0 && h > 0 {
            Some((w as u32, h as u32))
        } else {
            None
        }
    }
}

/// The active array size of a camera from its sensor rectangle.
pub fn active_array_size(values: &[i32]) -> (size: Option<(u32, u32)>)
    ensures
        size == active_array_size_spec(values@),
{
    if values.len() < 4 {
        return None;
    }
    let width = values[2].checked_sub(values[0]);
    let height = values[3].checked_sub(values[1]);
    match (width, height) {
        (Some(w), Some(h)) => {
            if w > 0 && h > 0 {
                Some((w as u32, h as u32))
            } else {
                None
            }
        },
        _ => None,
    }
}

/// Resources that the capture session set-up acquires, each with its own
/// release call.
#[derive(Clone, Copy, Debug, PartialEq, Eq, Structural)]
pub enum ProbeResource {
    /// The open camera device, closed with `ACameraDevice_close`.
    CameraDevice,
    /// The capture request, freed with `ACaptureRequest_free`.
    CaptureRequest,
    /// The image reader, deleted with `AImageReader_delete`.
    ImageReader,
    /// The reader's window reference, released with `ANativeWindow_release`.
    ReaderWindow,
    /// The output target, freed with `ACameraOutputTarget_free`.
    OutputTarget,
    /// The target's registration on the request, undone with
    /// `ACaptureRequest_removeTarget`.
    RequestTarget,
    /// The session output, freed with `ACaptureSessionOutput_free`.
    SessionOutput,
    /// The output container, freed with `ACaptureSessionOutputContainer_free`.
    OutputContainer,
    /// The capture session, closed with `ACameraCaptureSession_close`.
    CaptureSession,
}

/// The steps of capture session set-up, in the order they run.
#[derive(Clone, Copy, Debug, PartialEq, Eq, Structural)]
pub enum ProbeSetupStep {
    OpenCamera,
    CreateCaptureRequest,
    CreateImageReader,
    SetImageListener,
    GetReaderWindow,
    CreateOutputTarget,
    AddRequestTarget,
    CreateSessionOutput,
    CreateOutputContainer,
    AddContainerOutput,
    CreateCaptureSession,
}

/// The number of set-up steps.
pub const PROBE_SETUP_STEP_COUNT: usize = 11;

/// Set-up step number `i`.
pub open spec fn setup_step(i: int) -> ProbeSetupStep {
    if i == 0 {
        ProbeSetupStep::OpenCamera
    } else if i == 1 {
        ProbeSetupStep::CreateCaptureRequest
    } else if i == 2 {
        ProbeSetupStep::CreateImageReader
    } else if i == 3 {
        ProbeSetupStep::SetImageListener
    } else if i == 4 {
        ProbeSetupStep::GetReaderWindow
    } else if i == 5 {
        ProbeSetupStep::CreateOutputTarget
    } else if i == 6 {
        ProbeSetupStep::AddRequestTarget
    } else if i == 7 {
        ProbeSetupStep::CreateSessionOutput
    } else if i == 8 {
        ProbeSetupStep::CreateOutputContainer
    } else if i == 9 {
        ProbeSetupStep::AddContainerOutput
    } else {
        ProbeSetupStep::CreateCaptureSession
    }
}

/// The resource that a successful step holds, if any: setting the listener
/// and adding the output to its container acquire nothing of their own.
pub open spec fn step_resource(step: ProbeSetupStep) -> Option<ProbeResource> {
    match step {
        ProbeSetupStep::OpenCamera => Some(ProbeResource::CameraDevice),
        ProbeSetupStep::CreateCaptureRequest => Some(ProbeResource::CaptureRequest),
        ProbeSetupStep::CreateImageReader => Some(ProbeResource::ImageReader),
        ProbeSetupStep::SetImageListener => None,
        ProbeSetupStep::GetReaderWindow => Some(ProbeResource::ReaderWindow),
        ProbeSetupStep::CreateOutputTarget => Some(ProbeResource::OutputTarget),
        ProbeSetupStep::AddRequestTarget => Some(ProbeResource::RequestTarget),
        ProbeSetupStep::CreateSessionOutput => Some(ProbeResource::SessionOutput),
        ProbeSetupStep::CreateOutputContainer => Some(ProbeResource::OutputContainer),
        ProbeSetupStep::AddContainerOutput => None,
        ProbeSetupStep::CreateCaptureSession => Some(ProbeResource::CaptureSession),
    }
}

/// The resources held after the first `n` steps succeeded, in acquisition
/// order.
pub open spec fn held_resources(n: int) -> Seq<ProbeResource>
    decreases n,
{
    if n <= 0 {
        Seq::empty()
    } else {
        match step_resource(setup_step(n - 1)) {
            Some(r) => held_resources(n - 1).push(r),
            None => held_resources(n - 1),
        }
    }
}

/// Progress of the capture session set-up: how many steps have succeeded.
pub struct ProbeSessionSetup {
    completed: usize,
}

impl ProbeSessionSetup {
    /// The number of steps that have succeeded.
    pub closed spec fn completed_steps(&self) -> int {
        self.completed as int
    }

    /// Well-formedness: no more steps completed than there are.
    pub closed spec fn wf(&self) -> bool {
        self.completed <= PROBE_SETUP_STEP_COUNT
    }

    /// A set-up that has not run any step.
    pub fn new() -> (setup: Self)
        ensures
            setup.wf(),
            setup.completed_steps() == 0,
    {
        ProbeSessionSetup { completed: 0 }
    }

    /// The step to run next, `None` once every step has succeeded.
    pub fn next_step(&self) -> (step: Option<ProbeSetupStep>)
        requires
            self.wf(),
        ensures
            self.completed_steps() < PROBE_SETUP_STEP_COUNT ==> step == Some(setup_step(self.completed_steps())),
            self.completed_steps() == PROBE_SETUP_STEP_COUNT ==> step is None,
    {
        match self.completed {
            0 => Some(ProbeSetupStep::OpenCamera),
            1 => Some(ProbeSetupStep::CreateCaptureRequest),
            2 => Some(ProbeSetupStep::CreateImageReader),
            3 => Some(ProbeSetupStep::SetImageListener),
            4 => Some(ProbeSetupStep::GetReaderWindow),
            5 => Some(ProbeSetupStep::CreateOutputTarget),
            6 => Some(ProbeSetupStep::AddRequestTarget),
            7 => Some(ProbeSetupStep::CreateSessionOutput),
            8 => Some(ProbeSetupStep::CreateOutputContainer),
            9 => Some(ProbeSetupStep::AddContainerOutput),
            10 => Some(ProbeSetupStep::CreateCaptureSession),
            _ => None,
        }
    }

    /// Records that the next step succeeded.
    pub fn step_succeeded(&mut self)
        requires
            old(self).wf(),
            old(self).completed_steps() < PROBE_SETUP_STEP_COUNT,
        ensures
            final(self).wf(),
            final(self).completed_steps() == old(self).completed_steps() + 1,
    {
        self.completed = self.completed + 1;
    }

    /// Whether every step has succeeded.
    pub fn is_complete(&self) -> (r: bool)
        ensures
            r == (self.completed_steps() == PROBE_SETUP_STEP_COUNT),
    {
        self.completed == PROBE_SETUP_STEP_COUNT
    }

    /// The resources to release, in order, after the next step failed: every
    /// resource acquired so far, the latest first.
    pub fn failure_cleanup(&self) -> (release: Vec<ProbeResource>)
        requires
            self.wf(),
        ensures
            release@ == held_resources(self.completed_steps()).reverse(),
    {
        let mut release: Vec<ProbeResource> = Vec::new();
        let mut i: usize = self.completed;
        while i > 0
            invariant
                i <= self.completed <= PROBE_SETUP_STEP_COUNT,
                held_resources(self.completed as int).reverse() == release@ + held_resources(i as int).reverse(),
            decreases i,
        {
            let ghost before = release@;
            proof {
                lemma_reverse_push(held_resources(i - 1), step_resource(setup_step(i - 1)));
            }
            let step = step_number(i - 1);
            match step_resource_of(step) {
                Some(r) => {
                    release.push(r);
                    assert(before + held_resources(i as int).reverse() == release@ + held_resources(i - 1).reverse());
                },
                None => {},
            }
            i = i - 1;
        }
        assert(held_resources(0).reverse() =~= Seq::<ProbeResource>::empty());
        assert(release@ + Seq::<ProbeResource>::empty() == release@);
        release
    }
}

proof fn lemma_reverse_push(s: Seq<ProbeResource>, r: Option<ProbeResource>)
    ensures
        match r {
            Some(x) => s.push(x).reverse() == seq![x] + s.reverse(),
            None => true,
        },
{
    if let Some(x) = r {
        assert(s.push(x).reverse() =~= seq![x] + s.reverse());
    }
}

fn step_number(i: usize) -> (step: ProbeSetupStep)
    requires
        i < PROBE_SETUP_STEP_COUNT,
    ensures
        step == setup_step(i as int),
{
    match i {
        0 => ProbeSetupStep::OpenCamera,
        1 => ProbeSetupStep::CreateCaptureRequest,
        2 => ProbeSetupStep::CreateImageReader,
        3 => ProbeSetupStep::SetImageListener,
        4 => ProbeSetupStep::GetReaderWindow,
        5 => ProbeSetupStep::CreateOutputTarget,
        6 => ProbeSetupStep::AddRequestTarget,
        7 => ProbeSetupStep::CreateSessionOutput,
        8 => ProbeSetupStep::CreateOutputContainer,
        9 => ProbeSetupStep::AddContainerOutput,
        _ => ProbeSetupStep::CreateCaptureSession,
    }
}

fn step_resource_of(step: ProbeSetupStep) -> (r: Option<ProbeResource>)
    ensures
        r == step_resource(step),
{
    match step {
        ProbeSetupStep::OpenCamera => Some(ProbeResource::CameraDevice),
        ProbeSetupStep::CreateCaptureRequest => Some(ProbeResource::CaptureRequest),
        ProbeSetupStep::CreateImageReader => Some(ProbeResource::ImageReader),
        ProbeSetupStep::SetImageListener => None,
        ProbeSetupStep::GetReaderWindow => Some(ProbeResource::ReaderWindow),
        ProbeSetupStep::CreateOutputTarget => Some(ProbeResource::OutputTarget),
        ProbeSetupStep::AddRequestTarget => Some(ProbeResource::RequestTarget),
        ProbeSetupStep::CreateSessionOutput => Some(ProbeResource::SessionOutput),
        ProbeSetupStep::CreateOutputContainer => Some(ProbeResource::OutputContainer),
        ProbeSetupStep::AddContainerOutput => None,
        ProbeSetupStep::CreateCaptureSession => Some(ProbeResource::CaptureSession),
    }
}

/// The error token of a failed set-up step, before its status code.
pub open spec fn step_failure_prefix(step: ProbeSetupStep) -> Seq<char> {
    match step {
        ProbeSetupStep::OpenCamera => "open_camera_failed_"@,
        ProbeSetupStep::CreateCaptureRequest => "create_request_failed_"@,
        ProbeSetupStep::CreateImageReader => "create_image_reader_failed_"@,
        ProbeSetupStep::SetImageListener => "set_image_listener_failed_"@,
        ProbeSetupStep::GetReaderWindow => "get_reader_window_failed_"@,
        ProbeSetupStep::CreateOutputTarget => "create_output_target_failed_"@,
        ProbeSetupStep::AddRequestTarget => "add_target_failed_"@,
        ProbeSetupStep::CreateSessionOutput => "create_session_output_failed_"@,
        ProbeSetupStep::CreateOutputContainer => "create_output_container_failed_"@,
        ProbeSetupStep::AddContainerOutput => "add_output_container_failed_"@,
        ProbeSetupStep::CreateCaptureSession => "create_capture_session_failed_"@,
    }
}

/// The error of a failed set-up step with the status the NDK returned.
pub fn step_failure_message(step: ProbeSetupStep, status: i32) -> (message: String)
    ensures
        message@ == step_failure_prefix(step) + dec_int(status as int),
{
    let mut message = match step {
        ProbeSetupStep::OpenCamera => String::from_str("open_camera_failed_"),
        ProbeSetupStep::CreateCaptureRequest => String::from_str("create_request_failed_"),
        ProbeSetupStep::CreateImageReader => String::from_str("create_image_reader_failed_"),
        ProbeSetupStep::SetImageListener => String::from_str("set_image_listener_failed_"),
        ProbeSetupStep::GetReaderWindow => String::from_str("get_reader_window_failed_"),
        ProbeSetupStep::CreateOutputTarget => String::from_str("create_output_target_failed_"),
        ProbeSetupStep::AddRequestTarget => String::from_str("add_target_failed_"),
        ProbeSetupStep::CreateSessionOutput => String::from_str("create_session_output_failed_"),
        ProbeSetupStep::CreateOutputContainer => String::from_str("create_output_container_failed_"),
        ProbeSetupStep::AddContainerOutput => String::from_str("add_output_container_failed_"),
        ProbeSetupStep::CreateCaptureSession => String::from_str("create_capture_session_failed_"),
    };
    push_i64(&mut message, status as i64);
    message
}

/// The error of a refused repeating request with the status the NDK returned.
pub fn repeating_request_failure_message(status: i32) -> (message: String)
    ensures
        message@ == "set_repeating_request_failed_"@ + dec_int(status as int),
{
    let mut message = String::from_str("set_repeating_request_failed_");
    push_i64(&mut message, status as i64);
    message
}


/// A frame counter one step further, wrapping at `u32::MAX` as the atomic
/// counters of the callback do.
pub open spec fn next_count(count: u32) -> u32 {
    if count == u32::MAX {
        0
    } else {
        (count + 1) as u32
    }
}

fn increment(count: u32) -> (next: u32)
    ensures
        next == next_count(count),
{
    if count == u32::MAX {
        0
    } else {
        count + 1
    }
}

/// Frame bookkeeping shared between the image callback and the probe thread.
pub struct ProbeState {
    pub alive: bool,
    pub frame_count: u32,
    pub hardware_buffer_frames: u32,
    pub acquire_errors: u32,
    pub first_frame_logged: bool,
    pub frame_ready: bool,
}

/// What the probe thread does next while it waits for the first frame.
#[derive(Clone, Copy, Debug, PartialEq, Eq, Structural)]
pub enum FirstFrameWait {
    /// The first frame has been seen.
    Seen,
    /// Wait on the frame condition for at most this many nanoseconds.
    WaitFor(u64),
    /// The deadline passed without a frame.
    GaveUp,
}

/// The state after an acquired image with or without a hardware buffer.
pub open spec fn after_acquired_image(state: ProbeState, hardware_buffer_present: bool) -> ProbeState {
    ProbeState {
        frame_count: next_count(state.frame_count),
        hardware_buffer_frames: if hardware_buffer_present {
            next_count(state.hardware_buffer_frames)
        } else {
            state.hardware_buffer_frames
        },
        acquire_errors: if hardware_buffer_present {
            state.acquire_errors
        } else {
            next_count(state.acquire_errors)
        },
        first_frame_logged: state.first_frame_logged || hardware_buffer_present,
        ..state
    }
}

/// Whether an acquired image is the first one with a hardware buffer, the
/// one for which the first-frame marker goes out.
pub open spec fn is_first_frame(state: ProbeState, hardware_buffer_present: bool) -> bool {
    hardware_buffer_present && !state.first_frame_logged
}

/// The state after a sequence of acquired images, each given by whether it
/// carried a hardware buffer.
pub open spec fn after_images(state: ProbeState, images: Seq<bool>) -> ProbeState
    decreases images.len(),
{
    if images.len() == 0 {
        state
    } else {
        after_acquired_image(after_images(state, images.drop_last()), images.last())
    }
}

/// How many images of a sequence trigger the first-frame marker.
pub open spec fn first_frame_signals(state: ProbeState, images: Seq<bool>) -> nat
    decreases images.len(),
{
    if images.len() == 0 {
        0
    } else {
        let before = after_images(state, images.drop_last());
        first_frame_signals(state, images.drop_last()) + if is_first_frame(before, images.last()) {
            1nat
        } else {
            0nat
        }
    }
}

/// The first-frame marker goes out at most once over any run of the image
/// callback, and exactly once when the run starts unlogged and some image
/// carries a hardware buffer.
pub proof fn lemma_first_frame_signalled_once(state: ProbeState, images: Seq<bool>)
    ensures
        first_frame_signals(state, images) <= 1,
        after_images(state, images).first_frame_logged == (state.first_frame_logged || images.contains(true)),
        first_frame_signals(state, images) == 1 <==> (!state.first_frame_logged && images.contains(true)),
    decreases images.len(),
{
    if images.len() > 0 {
        let prefix = images.drop_last();
        lemma_first_frame_signalled_once(state, prefix);
        assert(images == prefix.push(images.last()));
        if images.contains(true) && !prefix.contains(true) {
            let k = choose|k: int| 0 <= k < images.len() && images[k] == true;
            if k < prefix.len() {
                assert(prefix[k] == true);
            }
        }
        if prefix.contains(true) {
            let k = choose|k: int| 0 <= k < prefix.len() && prefix[k] == true;
            assert(images[k] == true);
        }
        if images.last() {
            assert(images[images.len() - 1] == true);
        }
    }
}

impl ProbeState {
    /// A fresh state: the callback accepts images and nothing was counted.
    pub fn new() -> (state: Self)
        ensures
            state == (ProbeState {
                alive: true,
                frame_count: 0,
                hardware_buffer_frames: 0,
                acquire_errors: 0,
                first_frame_logged: false,
                frame_ready: false,
            }),
    {
        ProbeState {
            alive: true,
            frame_count: 0,
            hardware_buffer_frames: 0,
            acquire_errors: 0,
            first_frame_logged: false,
            frame_ready: false,
        }
    }

    /// Counts an image that could not be acquired.
    pub fn record_acquire_failure(&mut self)
        ensures
            *final(self) == (ProbeState { acquire_errors: next_count(old(self).acquire_errors), ..*old(self) }),
    {
        self.acquire_errors = increment(self.acquire_errors);
    }

    /// Counts an acquired image; returns whether it is the first with a
    /// hardware buffer, for which the caller emits the first-frame marker and
    /// notifies the waiting thread.
    pub fn record_acquired_image(&mut self, hardware_buffer_present: bool) -> (first_frame: bool)
        ensures
            *final(self) == after_acquired_image(*old(self), hardware_buffer_present),
            first_frame == is_first_frame(*old(self), hardware_buffer_present),
    {
        self.frame_count = increment(self.frame_count);
        if hardware_buffer_present {
            self.hardware_buffer_frames = increment(self.hardware_buffer_frames);
            if !self.first_frame_logged {
                self.first_frame_logged = true;
                return true;
            }
            false
        } else {
            self.acquire_errors = increment(self.acquire_errors);
            false
        }
    }

    /// Marks the first frame as ready for the waiting thread.
    pub fn notify_first_frame(&mut self)
        ensures
            *final(self) == (ProbeState { frame_ready: true, ..*old(self) }),
    {
        self.frame_ready = true;
    }

    /// Stops the callback from taking further images.
    pub fn stop(&mut self)
        ensures
            *final(self) == (ProbeState { alive: false, ..*old(self) }),
    {
        self.alive = false;
    }

    /// One step of waiting for the first frame: `remaining_ns` is the time
    /// left before the deadline (`None` once it has passed) and
    /// `last_wait_timed_out` whether the previous wait ended by timing out.
    pub fn wait_for_first_frame(&self, remaining_ns: Option<u64>, last_wait_timed_out: bool) -> (step: FirstFrameWait)
        ensures
            self.frame_ready ==> step == FirstFrameWait::Seen,
            !self.frame_ready && last_wait_timed_out ==> step == FirstFrameWait::GaveUp,
            !self.frame_ready && !last_wait_timed_out ==> step == (match remaining_ns {
                Some(ns) => FirstFrameWait::WaitFor(ns),
                None => FirstFrameWait::GaveUp,
            }),
    {
        if self.frame_ready {
            FirstFrameWait::Seen
        } else if last_wait_timed_out {
            FirstFrameWait::GaveUp
        } else {
            match remaining_ns {
                Some(ns) => FirstFrameWait::WaitFor(ns),
                None => FirstFrameWait::GaveUp,
            }
        }
    }
}


/// The pieces of `bytes` between zero bytes, as `<[u8]>::split` yields them:
/// one more piece than there are zeros, empty pieces included.
pub open spec fn zero_separated(bytes: Seq<u8>) -> Seq<Seq<u8>>
    decreases bytes.len(),
{
    if bytes.len() == 0 {
        seq![Seq::empty()]
    } else {
        let pieces = zero_separated(bytes.drop_last());
        if bytes.last() == 0 {
            pieces.push(Seq::empty())
        } else {
            pieces.update(pieces.len() - 1, pieces.last().push(bytes.last()))
        }
    }
}

proof fn lemma_zero_separated_nonempty(bytes: Seq<u8>)
    ensures
        zero_separated(bytes).len() >= 1,
    decreases bytes.len(),
{
    if bytes.len() > 0 {
        lemma_zero_separated_nonempty(bytes.drop_last());
    }
}

/// The text entries among byte pieces: each non-empty piece that is valid
/// UTF-8, decoded, in order.
pub open spec fn text_entries(pieces: Seq<Seq<u8>>) -> Seq<Seq<char>>
    decreases pieces.len(),
{
    if pieces.len() == 0 {
        Seq::empty()
    } else {
        let rest = text_entries(pieces.drop_last());
        let piece = pieces.last();
        if piece.len() > 0 && valid_utf8(piece) {
            rest.push(decode_utf8(piece))
        } else {
            rest
        }
    }
}

/// The text views of a list of strings.
pub open spec fn string_views(strings: Seq<String>) -> Seq<Seq<char>> {
    strings.map_values(|s: String| s@)
}

/// `std::str::from_utf8`: the bytes read as text when they are valid UTF-8,
/// `None` when they are not.
#[verifier::external_body]
fn utf8_text(bytes: &[u8]) -> (text: Option<String>)
    ensures
        match text {
            Some(t) => valid_utf8(bytes@) && t@ == decode_utf8(bytes@),
            None => !valid_utf8(bytes@),
        },
{
    std::str::from_utf8(bytes).ok().map(|value| value.to_string())
}

fn push_text_entry(out: &mut Vec<String>, piece: &Vec<u8>)
    ensures
        string_views(final(out)@) == if piece@.len() > 0 && valid_utf8(piece@) {
            string_views(old(out)@).push(decode_utf8(piece@))
        } else {
            string_views(old(out)@)
        },
{
    if piece.len() == 0 {
        return;
    }
    match utf8_text(piece.as_slice()) {
        Some(text) => {
            out.push(text);
            assert(string_views(out@) =~= string_views(old(out)@).push(decode_utf8(piece@)));
        },
        None => {},
    }
}

/// The names in a Camera2 string-list entry (such as the physical camera ids
/// of a logical camera): the zero-separated pieces that are non-empty and
/// valid UTF-8, in order.
pub fn metadata_string_list(bytes: &[u8]) -> (names: Vec<String>)
    ensures
        string_views(names@) == text_entries(zero_separated(bytes@)),
{
    let n = bytes.len();
    let mut names: Vec<String> = Vec::new();
    let mut piece: Vec<u8> = Vec::new();
    let mut i: usize = 0;
    proof {
        assert(bytes@.take(0) =~= Seq::<u8>::empty());
        assert(string_views(names@) =~= Seq::<Seq<char>>::empty());
    }
    while i < n
        invariant
            i <= n == bytes@.len(),
            zero_separated(bytes@.take(i as int)).len() >= 1,
            zero_separated(bytes@.take(i as int)).last() == piece@,
            string_views(names@) == text_entries(zero_separated(bytes@.take(i as int)).drop_last()),
        decreases n - i,
    {
        let ghost pieces = zero_separated(bytes@.take(i as int));
        let ghost next = bytes@.take(i + 1);
        proof {
            assert(next.drop_last() =~= bytes@.take(i as int));
            assert(next.last() == bytes@[i as int]);
        }
        if bytes[i] == 0 {
            push_text_entry(&mut names, &piece);
            piece = Vec::new();
            proof {
                assert(zero_separated(next) == pieces.push(Seq::empty()));
                assert(zero_separated(next).drop_last() =~= pieces);
                assert(pieces =~= pieces.drop_last().push(pieces.last()));
            }
        } else {
            piece.push(bytes[i]);
            proof {
                let updated = pieces.update(pieces.len() - 1, pieces.last().push(bytes@[i as int]));
                assert(zero_separated(next) == updated);
                assert(updated.drop_last() =~= pieces.drop_last());
            }
        }
        i = i + 1;
    }
    push_text_entry(&mut names, &piece);
    proof {
        let pieces = zero_separated(bytes@.take(n as int));
        assert(bytes@.take(n as int) =~= bytes@);
        assert(pieces =~= pieces.drop_last().push(pieces.last()));
    }
    names
}

} // verus!
