//! Camera capture: which cameras to ask for, how to open one, and how a frame is grabbed.

use crate::fallback::{Attempt, Fallback};
use crate::text;
use vstd::prelude::*;
use vstd::string::*;

verus! {

// ── Cameras to ask for ──

/// A request for a camera.
#[derive(Debug)]
pub enum CameraRequest {
    /// Exactly this device, ideally this wide.
    Device { id: String, ideal_width: u32 },
    /// Exactly this facing mode.
    Facing(String),
    /// Exactly this device, at any resolution.
    DeviceOnly(String),
    /// Whatever camera the platform picks.
    DefaultCamera,
}

/// A request for a camera, with texts as sequences.
pub enum CameraRequestView {
    Device { id: Seq<char>, ideal_width: u32 },
    Facing(Seq<char>),
    DeviceOnly(Seq<char>),
    DefaultCamera,
}

impl View for CameraRequest {
    type V = CameraRequestView;

    open spec fn view(&self) -> CameraRequestView {
        match self {
            CameraRequest::Device { id, ideal_width } => CameraRequestView::Device {
                id: id@,
                ideal_width: *ideal_width,
            },
            CameraRequest::Facing(mode) => CameraRequestView::Facing(mode@),
            CameraRequest::DeviceOnly(id) => CameraRequestView::DeviceOnly(id@),
            CameraRequest::DefaultCamera => CameraRequestView::DefaultCamera,
        }
    }
}

impl CameraRequest {
    /// The request in words.
    pub open spec fn spec_label(self) -> Seq<char> {
        match self {
            CameraRequest::Device { id, ideal_width } => "deviceId="@ + id@ + " w="@
                + text::decimal(ideal_width as nat),
            CameraRequest::Facing(mode) => "facingMode="@ + mode@,
            CameraRequest::DeviceOnly(id) => "deviceId="@ + id@ + " (no resolution)"@,
            CameraRequest::DefaultCamera => "default camera"@,
        }
    }

    /// The request in words.
    pub fn label(&self) -> (r: String)
        ensures
            r@ == self.spec_label(),
    {
        match self {
            CameraRequest::Device { id, ideal_width } => {
                let mut r: String = "deviceId=".to_owned();
                r.append(id.as_str());
                r.append(" w=");
                text::append_decimal(&mut r, *ideal_width);
                r
            },
            CameraRequest::Facing(mode) => {
                let mut r: String = "facingMode=".to_owned();
                r.append(mode.as_str());
                r
            },
            CameraRequest::DeviceOnly(id) => {
                let mut r: String = "deviceId=".to_owned();
                r.append(id.as_str());
                r.append(" (no resolution)");
                r
            },
            CameraRequest::DefaultCamera => "default camera".to_owned(),
        }
    }
}

/// Requests with texts as sequences.
pub open spec fn views(requests: Seq<CameraRequest>) -> Seq<CameraRequestView> {
    Seq::new(requests.len(), |i: int| requests[i]@)
}

/// The width to ask for: the target, or so much that the camera gives its best.
pub open spec fn width_hint(target_width: u32) -> u32 {
    if target_width > 0 {
        target_width
    } else {
        4096
    }
}

/// The requests to be tried in order.  A device is asked for at the wanted width first; then
/// the facing mode; then the device at any resolution.  Where neither is given, the platform
/// picks the camera.
pub open spec fn requests(device_id: Seq<char>, facing_mode: Seq<char>, target_width: u32) -> Seq<
    CameraRequestView,
> {
    let device = if device_id.len() > 0 {
        seq![CameraRequestView::Device { id: device_id, ideal_width: width_hint(target_width) }]
    } else {
        Seq::empty()
    };
    let facing = if facing_mode.len() > 0 {
        seq![CameraRequestView::Facing(facing_mode)]
    } else {
        Seq::empty()
    };
    let device_only = if device_id.len() > 0 {
        seq![CameraRequestView::DeviceOnly(device_id)]
    } else {
        Seq::empty()
    };
    let given = device + facing + device_only;
    if given.len() == 0 {
        seq![CameraRequestView::DefaultCamera]
    } else {
        given
    }
}

/// The requests to be tried in order.
pub fn camera_requests(device_id: &str, facing_mode: &str, target_width: u32) -> (r: Vec<
    CameraRequest,
>)
    ensures
        views(r@) == requests(device_id@, facing_mode@, target_width),
{
    let mut r: Vec<CameraRequest> = Vec::new();
    if !device_id.is_empty() {
        let ideal_width: u32 = if target_width > 0 {
            target_width
        } else {
            4096
        };
        r.push(CameraRequest::Device { id: device_id.to_owned(), ideal_width });
    }
    if !facing_mode.is_empty() {
        r.push(CameraRequest::Facing(facing_mode.to_owned()));
    }
    if !device_id.is_empty() {
        r.push(CameraRequest::DeviceOnly(device_id.to_owned()));
    }
    if r.is_empty() {
        r.push(CameraRequest::DefaultCamera);
    }
    assert(views(r@) =~= requests(device_id@, facing_mode@, target_width));
    r
}

/// There is always something to ask for; nobody is asked for the platform's choice where a
/// device or a facing mode is wanted; and a wanted device comes first and last, at first with
/// the wanted width, or a width of 4096 where none is wanted, then with none.  The facing mode
/// comes right after the first request for the device.  Nothing else is asked for.
pub proof fn lemma_requests(device_id: Seq<char>, facing_mode: Seq<char>, target_width: u32)
    ensures
        ({
            let list = requests(device_id, facing_mode, target_width);
            &&& 1 <= list.len() <= 3
            &&& device_id.len() == 0 ==> list.len() == 1
            &&& device_id.len() > 0 && facing_mode.len() == 0 ==> list.len() == 2
            &&& device_id.len() > 0 && facing_mode.len() > 0 ==> list.len() == 3
            &&& list.contains(CameraRequestView::DefaultCamera) <==> device_id.len() == 0
                && facing_mode.len() == 0
            &&& list.contains(CameraRequestView::Facing(facing_mode)) <==> facing_mode.len() > 0
            &&& device_id.len() > 0 && target_width > 0 ==> list[0] == (
            CameraRequestView::Device { id: device_id, ideal_width: target_width })
            &&& device_id.len() > 0 && target_width == 0 ==> list[0] == (
            CameraRequestView::Device { id: device_id, ideal_width: 4096 })
            &&& device_id.len() > 0 ==> list.last() == CameraRequestView::DeviceOnly(device_id)
            &&& device_id.len() > 0 && facing_mode.len() > 0 ==> list[1]
                == CameraRequestView::Facing(facing_mode)
        }),
{
    let list = requests(device_id, facing_mode, target_width);
    if device_id.len() == 0 && facing_mode.len() == 0 {
        assert(list[0] == CameraRequestView::DefaultCamera);
    } else if device_id.len() == 0 {
        assert(list[0] == CameraRequestView::Facing(facing_mode));
    } else if facing_mode.len() > 0 {
        assert(list[1] == CameraRequestView::Facing(facing_mode));
    }
}

/// What a request says can be read off its label: the device or facing mode in full, and the
/// wanted width.
pub proof fn lemma_label(request: CameraRequest)
    ensures
        ({
            let label = request.spec_label();
            match request {
                CameraRequest::Device { id, ideal_width } => {
                    let n = id@.len() as int;
                    &&& label.subrange(0, 9) == "deviceId="@
                    &&& label.subrange(9, 9 + n) == id@
                    &&& label.subrange(9 + n, 12 + n) == " w="@
                    &&& text::value(label.skip(12 + n)) == ideal_width
                },
                CameraRequest::Facing(mode) => {
                    &&& label.subrange(0, 11) == "facingMode="@
                    &&& label.skip(11) == mode@
                },
                CameraRequest::DeviceOnly(id) => {
                    let n = id@.len() as int;
                    &&& label.subrange(0, 9) == "deviceId="@
                    &&& label.subrange(9, 9 + n) == id@
                    &&& label.skip(9 + n) == " (no resolution)"@
                },
                CameraRequest::DefaultCamera => label == "default camera"@,
            }
        }),
{
    reveal_strlit("deviceId=");
    reveal_strlit(" w=");
    reveal_strlit("facingMode=");
    reveal_strlit(" (no resolution)");
    let label = request.spec_label();
    match request {
        CameraRequest::Device { id, ideal_width } => {
            let n = id@.len() as int;
            text::lemma_decimal_value(ideal_width as nat);
            assert(label.subrange(0, 9) =~= "deviceId="@);
            assert(label.subrange(9, 9 + n) =~= id@);
            assert(label.subrange(9 + n, 12 + n) =~= " w="@);
            assert(label.skip(12 + n) =~= text::decimal(ideal_width as nat));
        },
        CameraRequest::Facing(mode) => {
            assert(label.subrange(0, 11) =~= "facingMode="@);
            assert(label.skip(11) =~= mode@);
        },
        CameraRequest::DeviceOnly(id) => {
            let n = id@.len() as int;
            assert(label.subrange(0, 9) =~= "deviceId="@);
            assert(label.subrange(9, 9 + n) =~= id@);
            assert(label.skip(9 + n) =~= " (no resolution)"@);
        },
        CameraRequest::DefaultCamera => {},
    }
}

// ── Opening a camera ──

/// How far the opening of a camera has come.
#[derive(Clone, Copy, PartialEq, Eq, Structural, Debug)]
pub enum Phase {
    /// The tracks of the stream that is shown have to be stopped.
    Stop,
    /// The hardware needs time to let go of the camera.
    Release,
    /// A camera is asked for.
    Request,
    /// The stream has to be attached to the video, and its facing mode to be looked at.
    Attach,
    /// The video has to be started.
    Play,
    /// The video needs time to report its size.
    Settle,
    /// The camera is open.
    Opened,
    /// The camera could not be opened.
    Failed,
}

/// What to do next to open a camera.
#[derive(Clone, Copy, PartialEq, Eq, Structural, Debug)]
pub enum Action {
    StopTracks,
    /// Wait for this many milliseconds.
    Wait(u32),
    /// Ask for the camera of the request with this index.
    Request(usize),
    AttachStream,
    Play,
    /// Success.
    Finish,
    /// Failure, with the error of the action that `CameraStart::failure` names.
    Fail,
}

/// The opening of a camera.
#[derive(Debug)]
pub struct CameraStart {
    pub requests: Vec<CameraRequest>,
    pub chain: Fallback,
    pub phase: Phase,
    /// The last action that failed.
    pub failed: Option<Action>,
}

/// What to do in a phase.
pub open spec fn action_in(phase: Phase, at: Attempt) -> Action {
    match phase {
        Phase::Stop => Action::StopTracks,
        Phase::Release => Action::Wait(300),
        Phase::Request => match at {
            Attempt::Try(i) => Action::Request(i),
            _ => Action::Fail,
        },
        Phase::Attach => Action::AttachStream,
        Phase::Play => Action::Play,
        Phase::Settle => Action::Wait(200),
        Phase::Opened => Action::Finish,
        Phase::Failed => Action::Fail,
    }
}

/// The phase after an action that went well or not, where `at` is what the chain of requests
/// says after it.
pub open spec fn phase_after(phase: Phase, at: Attempt, success: bool) -> Phase {
    match phase {
        Phase::Stop => if success {
            Phase::Release
        } else {
            Phase::Failed
        },
        Phase::Release => if success {
            Phase::Request
        } else {
            Phase::Failed
        },
        Phase::Request => match at {
            Attempt::Try(i) => Phase::Request,
            Attempt::Use(i) => Phase::Attach,
            Attempt::GiveUp => Phase::Failed,
        },
        Phase::Attach => if success {
            Phase::Play
        } else {
            Phase::Failed
        },
        Phase::Play => if success {
            Phase::Settle
        } else {
            Phase::Failed
        },
        Phase::Settle => if success {
            Phase::Opened
        } else {
            Phase::Failed
        },
        Phase::Opened => Phase::Opened,
        Phase::Failed => Phase::Failed,
    }
}

/// An opening without its requests: its phase, where the chain stands, and what failed last.
pub type OpeningState = (Phase, Attempt, Option<Action>);

/// An opening after a report.
pub open spec fn step(total: usize, state: OpeningState, success: bool) -> OpeningState {
    let at = if state.0 is Request {
        crate::fallback::next_attempt(total, state.1, success)
    } else {
        state.1
    };
    let failed = if success || state.0 is Opened || state.0 is Failed {
        state.2
    } else {
        Some(action_in(state.0, state.1))
    };
    (phase_after(state.0, at, success), at, failed)
}

impl CameraStart {
    /// The opening without its requests.
    pub open spec fn state(self) -> OpeningState {
        (self.phase, self.chain.at, self.failed)
    }

    /// There are requests, and the chain runs through them: it stands at a request until one
    /// succeeded or all failed.  What failed last is the request before the one that is tried,
    /// or what the opening failed with.
    pub open spec fn wf(self) -> bool {
        &&& self.requests@.len() > 0
        &&& self.chain.total == self.requests@.len()
        &&& match self.phase {
            Phase::Stop => self.chain.at == Attempt::Try(0) && self.failed is None,
            Phase::Release => self.chain.at == Attempt::Try(0) && self.failed is None,
            Phase::Request => {
                &&& self.chain.at matches Attempt::Try(i)
                &&& i < self.requests@.len()
                &&& self.failed == if i == 0 {
                    None
                } else {
                    Some(Action::Request((i - 1) as usize))
                }
            },
            Phase::Failed => {
                &&& self.failed is Some
                &&& self.chain.at is GiveUp <==> self.failed is Some && self.failed->0 is Request
                &&& self.failed->0 is Request ==> self.failed->0 == Action::Request(
                    (self.requests@.len() - 1) as usize,
                )
            },
            _ => self.chain.at is Use,
        }
    }

    /// What to do next.
    pub fn action(&self) -> (r: Action)
        requires
            self.wf(),
        ensures
            r == action_in(self.phase, self.chain.at),
            r matches Action::Request(i) ==> i < self.requests@.len(),
    {
        match self.phase {
            Phase::Stop => Action::StopTracks,
            Phase::Release => Action::Wait(300),
            Phase::Request => match self.chain.at {
                Attempt::Try(i) => Action::Request(i),
                _ => Action::Fail,
            },
            Phase::Attach => Action::AttachStream,
            Phase::Play => Action::Play,
            Phase::Settle => Action::Wait(200),
            Phase::Opened => Action::Finish,
            Phase::Failed => Action::Fail,
        }
    }

    /// Takes in how the action went.
    pub fn report(&mut self, success: bool)
        requires
            old(self).wf(),
        ensures
            final(self).wf(),
            final(self).requests == old(self).requests,
            final(self).state() == step(old(self).chain.total, old(self).state(), success),
    {
        let action = self.action();
        match action {
            Action::Finish => {},
            Action::Fail => {},
            _ => {
                if !success {
                    self.failed = Some(action);
                }
            },
        }
        self.phase =
        match self.phase {
            Phase::Stop => if success {
                Phase::Release
            } else {
                Phase::Failed
            },
            Phase::Release => if success {
                Phase::Request
            } else {
                Phase::Failed
            },
            Phase::Request => match self.chain.report(success) {
                Attempt::Try(_) => Phase::Request,
                Attempt::Use(_) => Phase::Attach,
                Attempt::GiveUp => Phase::Failed,
            },
            Phase::Attach => if success {
                Phase::Play
            } else {
                Phase::Failed
            },
            Phase::Play => if success {
                Phase::Settle
            } else {
                Phase::Failed
            },
            Phase::Settle => if success {
                Phase::Opened
            } else {
                Phase::Failed
            },
            Phase::Opened => Phase::Opened,
            Phase::Failed => Phase::Failed,
        };
    }

    /// The action whose error a failed opening returns: the last request where all requests
    /// failed, otherwise the action after them that failed.
    pub fn failure(&self) -> (r: Option<Action>)
        requires
            self.wf(),
        ensures
            r is Some <==> self.phase is Failed,
            r is Some ==> r == self.failed,
            self.phase is Failed && self.chain.at is GiveUp ==> r == Some(
                Action::Request((self.requests@.len() - 1) as usize),
            ),
    {
        match self.phase {
            Phase::Failed => self.failed,
            _ => None,
        }
    }
}

// ── Capture ──

/// A step of grabbing a frame on the capture canvas.
#[derive(Clone, Copy, PartialEq, Eq, Structural, Debug)]
pub enum GrabStep {
    Save,
    /// Moves the origin to the right.
    Translate(u32),
    /// Turns the horizontal axis round.
    FlipX,
    /// Draws the video over this size at the origin.
    Draw { width: u32, height: u32 },
    Restore,
    /// Reads this size from the top left corner.
    Read { width: u32, height: u32 },
}

/// A text that may be missing, as a sequence.
pub open spec fn text_of(text: Option<String>) -> Option<Seq<char>> {
    match text {
        Some(t) => Some(t@),
        None => None,
    }
}

/// The capture of a camera's frames.
#[derive(Clone, Copy, PartialEq, Eq, Structural, Debug)]
pub struct VideoCapture {
    pub width: u32,
    pub height: u32,
    /// Frames are shown as in a mirror.
    pub mirrored: bool,
}

impl VideoCapture {
    /// A capture of `width` by `height` pixels, mirrored until a camera is known to face away.
    pub fn new(width: u32, height: u32) -> (r: Self)
        ensures
            r == (VideoCapture { width, height, mirrored: true }),
    {
        VideoCapture { width, height, mirrored: true }
    }

    /// Starts to open a camera: a device and a facing mode where they are not empty, ideally
    /// `target_width` wide unless that is zero.  A stream that is shown is stopped first.
    pub fn start_with_device(
        device_id: &str,
        facing_mode: &str,
        target_width: u32,
        has_stream: bool,
    ) -> (r: CameraStart)
        ensures
            r.wf(),
            views(r.requests@) == requests(device_id@, facing_mode@, target_width),
            r.chain.at == Attempt::Try(0),
            r.phase == if has_stream {
                Phase::Stop
            } else {
                Phase::Request
            },
    {
        let list = camera_requests(device_id, facing_mode, target_width);
        proof {
            lemma_requests(device_id@, facing_mode@, target_width);
            assert(views(list@).len() == list@.len());
        }
        let chain = Fallback::new(list.len());
        let phase = if has_stream {
            Phase::Stop
        } else {
            Phase::Request
        };
        CameraStart { requests: list, chain, phase, failed: None }
    }

    /// The capture of a stream whose first video track, where there is one, has this facing
    /// mode: only a camera that faces away from the user is not mirrored.
    pub open spec fn with_facing(self, video_tracks: u32, facing: Option<Seq<char>>) -> Self {
        VideoCapture {
            mirrored: if video_tracks > 0 {
                facing != Some("environment"@)
            } else {
                self.mirrored
            },
            ..self
        }
    }

    /// Takes in the facing mode of the first video track, where there is one.
    pub fn detect_facing(&mut self, video_tracks: u32, facing: Option<String>)
        ensures
            *final(self) == old(self).with_facing(video_tracks, text_of(facing)),
    {
        if video_tracks > 0 {
            self.mirrored =
            match facing {
                Some(mode) => !(mode == "environment".to_owned()),
                None => true,
            };
        }
    }

    /// The camera's size, as far as the video reports one.
    pub open spec fn spec_actual_size(self, video_width: u32, video_height: u32) -> (u32, u32) {
        if video_width > 0 && video_height > 0 {
            (video_width, video_height)
        } else {
            (self.width, self.height)
        }
    }

    /// The camera's size, as far as the video reports one.
    pub fn actual_size(&self, video_width: u32, video_height: u32) -> (r: (u32, u32))
        ensures
            r == self.spec_actual_size(video_width, video_height),
    {
        if video_width > 0 && video_height > 0 {
            (video_width, video_height)
        } else {
            (self.width, self.height)
        }
    }

    /// Changes the size of the capture.
    pub fn resize(&mut self, width: u32, height: u32)
        ensures
            *final(self) == (VideoCapture { width, height, ..*old(self) }),
    {
        self.width = width;
        self.height = height;
    }

    /// The steps of grabbing a frame.
    pub open spec fn grab_steps(self) -> Seq<GrabStep> {
        let (width, height) = (self.width, self.height);
        if self.mirrored {
            seq![
                GrabStep::Save,
                GrabStep::Translate(width),
                GrabStep::FlipX,
                GrabStep::Draw { width, height },
                GrabStep::Restore,
                GrabStep::Read { width, height },
            ]
        } else {
            seq![GrabStep::Draw { width, height }, GrabStep::Read { width, height }]
        }
    }

    /// The steps of grabbing a frame.
    pub fn grab_frame_into(&self) -> (r: Vec<GrabStep>)
        ensures
            r@ == self.grab_steps(),
    {
        let (width, height): (u32, u32) = (self.width, self.height);
        let mut r: Vec<GrabStep> = Vec::new();
        if self.mirrored {
            r.push(GrabStep::Save);
            r.push(GrabStep::Translate(width));
            r.push(GrabStep::FlipX);
        }
        r.push(GrabStep::Draw { width, height });
        if self.mirrored {
            r.push(GrabStep::Restore);
        }
        r.push(GrabStep::Read { width, height });
        assert(r@ =~= self.grab_steps());
        r
    }
}

// ── Laws of opening ──

/// An opening after reports.
pub open spec fn after_reports(
    total: usize,
    state: OpeningState,
    outcomes: Seq<bool>,
) -> OpeningState
    decreases outcomes.len(),
{
    if outcomes.len() == 0 {
        state
    } else {
        step(total, after_reports(total, state, outcomes.drop_last()), outcomes.last())
    }
}

/// How many more reports there can be.
pub open spec fn remaining(total: usize, state: OpeningState) -> int {
    match state.0 {
        Phase::Stop => total + 5,
        Phase::Release => total + 4,
        Phase::Request => match state.1 {
            Attempt::Try(i) => total - i + 3,
            _ => 0,
        },
        Phase::Attach => 3,
        Phase::Play => 2,
        Phase::Settle => 1,
        Phase::Opened => 0,
        Phase::Failed => 0,
    }
}

/// The opening of a camera comes to an end: each report brings it nearer, and at the end it
/// stays as it is.
pub proof fn lemma_opening_ends(start: CameraStart, success: bool)
    requires
        start.wf(),
    ensures
        ({
            let total = start.chain.total;
            let state = start.state();
            let done = start.phase is Opened || start.phase is Failed;
            &&& remaining(total, state) >= 0
            &&& done <==> remaining(total, state) == 0
            &&& !done ==> remaining(total, step(total, state, success)) < remaining(total, state)
            &&& done ==> step(total, state, success) == state
        }),
{
}

/// Reports come one after the other.
proof fn lemma_reports_add(total: usize, state: OpeningState, a: Seq<bool>, b: Seq<bool>)
    ensures
        after_reports(total, state, a + b) == after_reports(
            total,
            after_reports(total, state, a),
            b,
        ),
    decreases b.len(),
{
    if b.len() == 0 {
        assert(a + b =~= a);
    } else {
        lemma_reports_add(total, state, a, b.drop_last());
        assert((a + b).drop_last() =~= a + b.drop_last());
    }
}

/// As many failures.
pub open spec fn failures(k: nat) -> Seq<bool> {
    Seq::new(k, |i: int| false)
}

/// An opening whose first request comes next.
pub open spec fn at_first_request() -> OpeningState {
    (Phase::Request, Attempt::Try(0), None)
}

/// While requests fail, the next ones are tried in order; the opening fails with the last one.
pub proof fn lemma_requests_fail(total: usize, k: nat)
    requires
        1 <= k <= total,
    ensures
        after_reports(total, at_first_request(), failures(k)) == if k < total {
            (
                Phase::Request,
                Attempt::Try(k as usize),
                Some(Action::Request((k - 1) as usize)),
            )
        } else {
            (Phase::Failed, Attempt::GiveUp, Some(Action::Request((total - 1) as usize)))
        },
    decreases k,
{
    let state = at_first_request();
    let f = failures(k);
    let init = failures((k - 1) as nat);
    assert(f.drop_last() =~= init);
    assert(!f.last());
    let before = after_reports(total, state, init);
    assert(after_reports(total, state, f) == step(total, before, false));
    if k > 1 {
        lemma_requests_fail(total, (k - 1) as nat);
        assert(before.1 == Attempt::Try((k - 1) as usize));
    } else {
        assert(init =~= Seq::<bool>::empty());
        assert(before == state);
    }
}

/// A camera opens with the first request that succeeds, once its video has been attached,
/// started and given time.
pub proof fn lemma_opens(total: usize, k: nat)
    requires
        k < total,
    ensures
        ({
            let end = after_reports(
                total,
                at_first_request(),
                failures(k) + seq![true, true, true, true],
            );
            end.0 == Phase::Opened && end.1 == Attempt::Use(k as usize)
        }),
{
    let tail = seq![true, true, true, true];
    lemma_reports_add(total, at_first_request(), failures(k), tail);
    let s0 = after_reports(total, at_first_request(), failures(k));
    if k > 0 {
        lemma_requests_fail(total, k);
    } else {
        assert(failures(0) =~= Seq::<bool>::empty());
    }
    assert(s0.0 == Phase::Request && s0.1 == Attempt::Try(k as usize));
    let one = seq![true];
    let two = seq![true, true];
    let three = seq![true, true, true];
    assert(tail.drop_last() =~= three);
    assert(three.drop_last() =~= two);
    assert(two.drop_last() =~= one);
    assert(one.drop_last() =~= Seq::<bool>::empty());
    let s1 = after_reports(total, s0, one);
    let s2 = after_reports(total, s0, two);
    let s3 = after_reports(total, s0, three);
    assert(after_reports(total, s0, Seq::<bool>::empty()) == s0);
    assert(s1 == step(total, s0, true));
    assert(s2 == step(total, s1, true));
    assert(s3 == step(total, s2, true));
    assert(after_reports(total, s0, tail) == step(total, s3, true));
}

/// An opening whose camera was found fails with what goes wrong afterwards.
pub proof fn lemma_later_failure(start: CameraStart)
    requires
        start.wf(),
        start.phase is Attach || start.phase is Play || start.phase is Settle,
    ensures
        ({
            let end = step(start.chain.total, start.state(), false);
            &&& end.0 == Phase::Failed
            &&& end.2 == Some(action_in(start.phase, start.chain.at))
        }),
{
}

/// Where a stream is shown, its tracks are stopped and the hardware is given 300 milliseconds
/// before the first request; otherwise the first request comes at once.
pub proof fn lemma_switching(start: CameraStart)
    requires
        start.wf(),
        start.phase is Stop,
    ensures
        ({
            let total = start.chain.total;
            let released = step(total, start.state(), true);
            let requested = step(total, released, true);
            &&& action_in(start.phase, start.chain.at) == Action::StopTracks
            &&& action_in(released.0, released.1) == Action::Wait(300)
            &&& action_in(requested.0, requested.1) == Action::Request(0)
        }),
{
}

/// Once a request succeeded its stream is attached, the video is started and given 200
/// milliseconds, and the camera is open; what is reported afterwards changes nothing.
pub proof fn lemma_after_request(start: CameraStart, success: bool)
    requires
        start.wf(),
        start.phase is Request,
    ensures
        ({
            let total = start.chain.total;
            let found = step(total, start.state(), true);
            let attached = step(total, found, true);
            let playing = step(total, attached, true);
            let opened = step(total, playing, true);
            &&& start.chain.at matches Attempt::Try(i) && {
                &&& action_in(start.phase, start.chain.at) == Action::Request(i)
                &&& opened.1 == Attempt::Use(i)
            }
            &&& action_in(found.0, found.1) == Action::AttachStream
            &&& action_in(attached.0, attached.1) == Action::Play
            &&& action_in(playing.0, playing.1) == Action::Wait(200)
            &&& action_in(opened.0, opened.1) == Action::Finish
            &&& step(total, opened, success) == opened
        }),
{
}

/// What goes wrong apart from a request ends the opening, with that error; a request that fails
/// ends it only where it is the last, and is otherwise followed by the next one.
pub proof fn lemma_failure(start: CameraStart)
    requires
        start.wf(),
        !(start.phase is Opened),
        !(start.phase is Failed),
    ensures
        ({
            let end = step(start.chain.total, start.state(), false);
            let action = action_in(start.phase, start.chain.at);
            &&& end.2 == Some(action)
            &&& match action {
                Action::Request(i) => if i + 1 < start.requests@.len() {
                    action_in(end.0, end.1) == Action::Request((i + 1) as usize)
                } else {
                    action_in(end.0, end.1) == Action::Fail
                },
                _ => action_in(end.0, end.1) == Action::Fail,
            }
        }),
{
}

// ── Laws of capturing ──

/// The camera's size is what the video reports, where it reports both sides, and the capture's
/// otherwise.
pub proof fn lemma_actual_size(capture: VideoCapture, video_width: u32, video_height: u32)
    ensures
        video_width != 0 && video_height != 0 ==> capture.spec_actual_size(
            video_width,
            video_height,
        ) == (video_width, video_height),
        video_width == 0 || video_height == 0 ==> capture.spec_actual_size(
            video_width,
            video_height,
        ) == (capture.width, capture.height),
{
}

/// Only a stream whose first video track faces away from the user is shown unmirrored.  A
/// stream without video tracks changes nothing, and no stream changes the size.
pub proof fn lemma_facing_mode(capture: VideoCapture, tracks: u32, facing: Option<Seq<char>>)
    ensures
        ({
            let after = capture.with_facing(tracks, facing);
            &&& after.width == capture.width && after.height == capture.height
            &&& tracks == 0 ==> after.mirrored == capture.mirrored
            &&& tracks != 0 && facing is None ==> after.mirrored
            &&& tracks != 0 ==> (!after.mirrored <==> facing is Some && facing->0
                == "environment"@)
        }),
{
}

// ── Laws of grabbing ──

/// Where the canvas puts a point: at `origin + sign * x`; and the earlier places it was told
/// to remember.
pub struct Placement {
    pub origin: int,
    pub sign: int,
    pub saved: Seq<(int, int)>,
}

/// The canvas after a step.
pub open spec fn placed(p: Placement, step: GrabStep) -> Placement {
    match step {
        GrabStep::Save => Placement { saved: p.saved.push((p.origin, p.sign)), ..p },
        GrabStep::Translate(dx) => Placement { origin: p.origin + p.sign * dx, ..p },
        GrabStep::FlipX => Placement { sign: -p.sign, ..p },
        GrabStep::Restore => Placement {
            origin: p.saved.last().0,
            sign: p.saved.last().1,
            saved: p.saved.drop_last(),
        },
        _ => p,
    }
}

/// The canvas after the first `k` steps.
pub open spec fn after_steps(steps: Seq<GrabStep>, k: int) -> Placement
    decreases k,
{
    if k <= 0 {
        Placement { origin: 0, sign: 1, saved: Seq::empty() }
    } else {
        placed(after_steps(steps, k - 1), steps[k - 1])
    }
}

/// A frame is drawn over all of the canvas, once: from right to left where it is mirrored, from
/// left to right where it is not.  Afterwards the canvas is as it was, and all of it is read.
pub proof fn lemma_grab(capture: VideoCapture)
    ensures
        ({
            let steps = capture.grab_steps();
            let draw: int = if capture.mirrored {
                3
            } else {
                0
            };
            let at = after_steps(steps, draw);
            let end = after_steps(steps, steps.len() as int);
            &&& steps[draw] == (GrabStep::Draw { width: capture.width, height: capture.height })
            &&& forall|i: int| 0 <= i < steps.len() && #[trigger] steps[i] is Draw ==> i == draw
            &&& capture.mirrored ==> at.origin == capture.width && at.sign == -1
            &&& !capture.mirrored ==> at.origin == 0 && at.sign == 1
            &&& end.origin == 0 && end.sign == 1 && end.saved.len() == 0
            &&& steps.last() == (GrabStep::Read { width: capture.width, height: capture.height })
        }),
{
    let steps = capture.grab_steps();
    let a0 = after_steps(steps, 0);
    let a1 = after_steps(steps, 1);
    let a2 = after_steps(steps, 2);
    assert(a1 == placed(a0, steps[0]));
    assert(a2 == placed(a1, steps[1]));
    if capture.mirrored {
        let a3 = after_steps(steps, 3);
        let a4 = after_steps(steps, 4);
        let a5 = after_steps(steps, 5);
        assert(a1.sign * capture.width == capture.width) by (nonlinear_arith)
            requires
                a1.sign == 1,
        ;
        assert(a3 == placed(a2, steps[2]));
        assert(a4 == placed(a3, steps[3]));
        assert(a5 == placed(a4, steps[4]));
        assert(after_steps(steps, 6) == placed(a5, steps[5]));
    }
}

} // verus!
