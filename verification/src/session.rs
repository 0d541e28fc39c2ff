//! The state of the program between camera, GPU and user.
//!
//! Opening a camera takes time and may fail.  So a change that needs one comes in parts: the
//! rendering is stopped (`pause`); once no other camera is being opened, a request says which
//! cameras to ask for; and once a camera is open, the change itself is made and the rendering
//! goes on.  From the request on the session is busy: another request has to wait, settings
//! are not taken, and nothing is rendered.

use crate::gpu;
use crate::gpu::GpuContext;
use crate::scale;
use crate::steerable;
use crate::steerable::SteerablePipeline;
use crate::text;
use crate::video::{CameraStart, Phase, VideoCapture};
use vstd::prelude::*;
use vstd::string::*;

pub mod laws;

verus! {

/// The width that is processed unless the user chooses another.
pub const DEFAULT_MAX_WIDTH: u32 = 640;

/// The widest capture canvas that is asked for.
pub const MAX_CAPTURE_WIDTH: u32 = 1280;

// ── Processing size ──

/// The largest even number that is not above `n`, but at least two.
pub open spec fn even_or_two(n: int) -> int {
    if n < 2 {
        2
    } else {
        n - n % 2
    }
}

/// The size at which a camera's frames are processed: the camera's, scaled down to the
/// greatest width where it is wider, and made even.
pub open spec fn processing(cam: (u32, u32), max_width: u32) -> (u32, u32) {
    let (w, h) = if cam.0 > max_width {
        (
            scale::scaled(cam.0 as int, max_width as int, cam.0 as int),
            scale::scaled(cam.1 as int, max_width as int, cam.0 as int),
        )
    } else {
        (cam.0 as int, cam.1 as int)
    };
    (even_or_two(w) as u32, even_or_two(h) as u32)
}

/// The size at which a camera's frames are processed.
pub fn processing_size(cam_w: u32, cam_h: u32, max_width: u32) -> (r: (u32, u32))
    ensures
        r == processing((cam_w, cam_h), max_width),
{
    let (w, h): (u32, u32) = if cam_w > max_width {
        (
            scale::scale_length(cam_w, max_width, cam_w),
            scale::scale_length(cam_h, max_width, cam_w),
        )
    } else {
        (cam_w, cam_h)
    };
    let even_w: u32 = w - w % 2;
    let even_h: u32 = h - h % 2;
    (
        if even_w == 0 {
            2
        } else {
            even_w
        },
        if even_h == 0 {
            2
        } else {
            even_h
        },
    )
}

// ── State ──

/// Everything that the program shows and how.  The amplification and the two frequencies are
/// the bits of single-precision values.
#[derive(Debug)]
pub struct AppState {
    pub ctx: GpuContext,
    pub pipeline: SteerablePipeline,
    pub capture: VideoCapture,
    pub amplification: u32,
    pub freq_low: u32,
    pub freq_high: u32,
    pub n_scales: u32,
    pub n_orient: u32,
    pub width: u32,
    pub height: u32,
    pub cam_w: u32,
    pub cam_h: u32,
    pub active_device_id: String,
    pub active_facing: String,
}

/// The state, whether frames are rendered, and whether a camera is being opened.
#[derive(Debug)]
pub struct Shared {
    pub state: AppState,
    pub running: bool,
    pub busy: bool,
}

/// The program, which has a state once it is initialised.
#[derive(Debug)]
pub struct Session {
    pub shared: Option<Shared>,
}

/// Why a request is turned down.
#[derive(Clone, Copy, PartialEq, Eq, Structural, Debug)]
pub enum SessionError {
    NotInitialized,
}

impl SessionError {
    /// The error in words.
    pub fn message(&self) -> (r: String)
        ensures
            r@ == "Not initialized yet"@,
    {
        match self {
            SessionError::NotInitialized => "Not initialized yet".to_owned(),
        }
    }
}

/// The state with texts as sequences.
pub struct SharedView {
    pub ctx: GpuContext,
    pub pipeline: SteerablePipeline,
    pub capture: VideoCapture,
    pub amplification: u32,
    pub freq_low: u32,
    pub freq_high: u32,
    pub n_scales: u32,
    pub n_orient: u32,
    pub width: u32,
    pub height: u32,
    pub cam_w: u32,
    pub cam_h: u32,
    pub device_id: Seq<char>,
    pub facing: Seq<char>,
    pub running: bool,
    pub busy: bool,
}

impl View for Shared {
    type V = SharedView;

    open spec fn view(&self) -> SharedView {
        SharedView {
            ctx: self.state.ctx,
            pipeline: self.state.pipeline,
            capture: self.state.capture,
            amplification: self.state.amplification,
            freq_low: self.state.freq_low,
            freq_high: self.state.freq_high,
            n_scales: self.state.n_scales,
            n_orient: self.state.n_orient,
            width: self.state.width,
            height: self.state.height,
            cam_w: self.state.cam_w,
            cam_h: self.state.cam_h,
            device_id: self.state.active_device_id@,
            facing: self.state.active_facing@,
            running: self.running,
            busy: self.busy,
        }
    }
}

impl View for Session {
    type V = Option<SharedView>;

    open spec fn view(&self) -> Option<SharedView> {
        match self.shared {
            Some(shared) => Some(shared@),
            None => None,
        }
    }
}

impl SharedView {
    /// The longest transform of the device.
    pub open spec fn max_fft(self) -> u32 {
        gpu::max_fft(self.ctx.max_compute_workgroup_storage_size)
    }

    /// Frames of this size can be processed.
    pub open spec fn fits(self, size: (u32, u32)) -> bool {
        steerable::supported(
            size.0 as int,
            size.1 as int,
            self.max_fft() as int,
            self.n_scales as int,
            self.n_orient as int,
        )
    }

    /// The pipeline is the one for the processing size, the device and the quality.
    pub open spec fn wf(self) -> bool {
        &&& 1 <= self.n_scales <= 4
        &&& 1 <= self.n_orient <= 8
        &&& self.fits((self.width, self.height))
        &&& self.pipeline == (SteerablePipeline {
            first_frame: self.pipeline.first_frame,
            ..SteerablePipeline::planned(
                self.width,
                self.height,
                self.max_fft(),
                self.n_scales,
                self.n_orient,
            )
        })
    }

    /// The size at which the frames of a video are processed.
    pub open spec fn size_for(self, video: (u32, u32), max_width: u32) -> (u32, u32) {
        processing(self.capture.spec_actual_size(video.0, video.1), max_width)
    }

    /// The state with a new pipeline for `size`.
    pub open spec fn rebuilt(self, size: (u32, u32)) -> SharedView {
        SharedView {
            capture: VideoCapture { width: size.0, height: size.1, ..self.capture },
            pipeline: SteerablePipeline::planned(
                size.0,
                size.1,
                self.max_fft(),
                self.n_scales,
                self.n_orient,
            ),
            width: size.0,
            height: size.1,
            ..self
        }
    }

    /// Frames are rendered: rendering is not stopped, and no camera is being opened.
    pub open spec fn renders(self) -> bool {
        self.running && !self.busy
    }

    /// The state after a stream was attached, whose first video track, where there is one, has
    /// this facing mode.
    pub open spec fn attached(self, video_tracks: u32, facing: Option<Seq<char>>) -> SharedView {
        SharedView { capture: self.capture.with_facing(video_tracks, facing), ..self }
    }

    /// The state after a camera was opened.  A camera whose frames are processed at the same
    /// size keeps the pipeline, which only forgets the motion it has seen.
    pub open spec fn with_camera(
        self,
        device_id: Seq<char>,
        facing: Seq<char>,
        video: (u32, u32),
    ) -> SharedView {
        let cam = self.capture.spec_actual_size(video.0, video.1);
        let size = self.size_for(video, DEFAULT_MAX_WIDTH);
        let camera = SharedView {
            device_id,
            facing,
            cam_w: cam.0,
            cam_h: cam.1,
            running: true,
            busy: false,
            ..self
        };
        if size != (self.width, self.height) {
            camera.rebuilt(size)
        } else {
            SharedView {
                pipeline: SteerablePipeline { first_frame: true, ..self.pipeline },
                ..camera
            }
        }
    }

    /// The state after a change of resolution was asked for: the capture has the size that the
    /// camera shall provide, at a guess of four to three.
    pub open spec fn resizing(self, max_w: u32) -> SharedView {
        let target = if max_w <= MAX_CAPTURE_WIDTH {
            max_w
        } else {
            MAX_CAPTURE_WIDTH
        };
        SharedView {
            capture: VideoCapture {
                width: target,
                height: (target * 3 / 4) as u32,
                ..self.capture
            },
            busy: true,
            ..self
        }
    }

    /// The state after a camera was opened for a change of resolution.
    pub open spec fn with_resolution(self, max_w: u32, video: (u32, u32)) -> SharedView {
        let cam = self.capture.spec_actual_size(video.0, video.1);
        SharedView { cam_w: cam.0, cam_h: cam.1, running: true, busy: false, ..self }.rebuilt(
            self.size_for(video, max_w),
        )
    }

    /// Asking for this quality changes something.
    pub open spec fn changes_quality(self, scales: u32, orient: u32) -> bool {
        !self.busy && (scales != self.n_scales || orient != self.n_orient)
    }

    /// The state with another number of scales and orientations, each within its limits.
    pub open spec fn with_quality(self, scales: u32, orient: u32) -> SharedView {
        if self.changes_quality(scales, orient) {
            let n_scales = clamped(scales, 1, 4);
            let n_orient = clamped(orient, 1, 8);
            SharedView {
                n_scales,
                n_orient,
                pipeline: SteerablePipeline::planned(
                    self.width,
                    self.height,
                    self.max_fft(),
                    n_scales,
                    n_orient,
                ),
                ..self
            }
        } else {
            self
        }
    }
}

/// The number in a range that is nearest to `n`.
pub open spec fn clamped(n: u32, low: u32, high: u32) -> u32 {
    if n < low {
        low
    } else if n > high {
        high
    } else {
        n
    }
}

/// The number in a range that is nearest to `n`.
fn clamp(n: u32, low: u32, high: u32) -> (r: u32)
    ensures
        r == clamped(n, low, high),
{
    if n < low {
        low
    } else if n > high {
        high
    } else {
        n
    }
}

/// The capture that the program starts with.
pub fn initial_capture() -> (r: VideoCapture)
    ensures
        r == (VideoCapture { width: 640, height: 480, mirrored: true }),
{
    VideoCapture::new(DEFAULT_MAX_WIDTH, DEFAULT_MAX_WIDTH * 3 / 4)
}

/// The state in which the program starts, with the frame size of its first camera.
pub open spec fn initial(ctx: GpuContext, capture: VideoCapture, video: (u32, u32)) -> SharedView {
    let cam = capture.spec_actual_size(video.0, video.1);
    let size = processing(cam, DEFAULT_MAX_WIDTH);
    let max_fft = gpu::max_fft(ctx.max_compute_workgroup_storage_size);
    SharedView {
        ctx,
        pipeline: SteerablePipeline::planned(size.0, size.1, max_fft, 3, 4),
        capture: VideoCapture { width: size.0, height: size.1, ..capture },
        amplification: 0x41f0_0000,
        freq_low: 0x3f00_0000,
        freq_high: 0x4040_0000,
        n_scales: 3,
        n_orient: 4,
        width: size.0,
        height: size.1,
        cam_w: cam.0,
        cam_h: cam.1,
        device_id: Seq::empty(),
        facing: Seq::empty(),
        running: true,
        busy: false,
    }
}

/// Can the program start with this camera?
pub fn can_start(ctx: &GpuContext, capture: &VideoCapture, video_w: u32, video_h: u32) -> (r: bool)
    ensures
        r == initial(*ctx, *capture, (video_w, video_h)).fits(
            processing(capture.spec_actual_size(video_w, video_h), DEFAULT_MAX_WIDTH),
        ),
{
    let (cam_w, cam_h): (u32, u32) = capture.actual_size(video_w, video_h);
    let (w, h): (u32, u32) = processing_size(cam_w, cam_h, DEFAULT_MAX_WIDTH);
    SteerablePipeline::is_supported(w, h, gpu::max_fft_for_device(ctx), 3, 4)
}

/// The state once the first camera is open: amplification 30, frequencies from 0.5 to 3 Hz,
/// the standard pyramid.
pub fn start(ctx: GpuContext, capture: VideoCapture, video_w: u32, video_h: u32) -> (r: Shared)
    requires
        initial(ctx, capture, (video_w, video_h)).fits(
            processing(capture.spec_actual_size(video_w, video_h), DEFAULT_MAX_WIDTH),
        ),
    ensures
        r@ == initial(ctx, capture, (video_w, video_h)),
        r@.wf(),
        r.state.width == r.state.pipeline.ow,
        r.state.height == r.state.pipeline.oh,
        r.state.active_device_id@.len() == 0,
        r.state.active_facing@.len() == 0,
        r.running,
        !r.busy,
{
    let mut capture = capture;
    let (cam_w, cam_h): (u32, u32) = capture.actual_size(video_w, video_h);
    let (w, h): (u32, u32) = processing_size(cam_w, cam_h, DEFAULT_MAX_WIDTH);
    capture.resize(w, h);
    let n_scales: u32 = 3;
    let n_orient: u32 = 4;
    let max_fft: u32 = gpu::max_fft_for_device(&ctx);
    let pipeline = SteerablePipeline::new(w, h, max_fft, n_scales, n_orient);
    let r = Shared {
        state: AppState {
            ctx,
            pipeline,
            capture,
            amplification: 0x41f0_0000,
            freq_low: 0x3f00_0000,
            freq_high: 0x4040_0000,
            n_scales,
            n_orient,
            width: w,
            height: h,
            cam_w,
            cam_h,
            active_device_id: String::new(),
            active_facing: String::new(),
        },
        running: true,
        busy: false,
    };
    assert(r@.device_id =~= Seq::<char>::empty());
    assert(r@.facing =~= Seq::<char>::empty());
    r
}

/// Stops the rendering, which a change of camera or resolution does first, before it waits for
/// the session to be free.
pub fn pause(session: &mut Session) -> (r: Result<(), SessionError>)
    ensures
        r is Ok <==> old(session)@ is Some,
        r is Err ==> r == Err::<(), SessionError>(SessionError::NotInitialized) && *final(session)
            == *old(session),
        old(session)@ matches Some(v) ==> final(session)@ == Some(
            SharedView { running: false, ..v },
        ),
{
    match &mut session.shared {
        None => Err(SessionError::NotInitialized),
        Some(shared) => {
            shared.running = false;
            Ok(())
        },
    }
}

/// Asks for another camera, which is to be opened at the best width.  Whether the rendering was
/// stopped is kept, so that a camera that does not open leaves it as it is.
pub fn start_with_camera(
    session: &mut Session,
    device_id: &str,
    facing_mode: &str,
    has_stream: bool,
) -> (r: Result<CameraStart, SessionError>)
    requires
        old(session)@ matches Some(v) ==> !v.busy,
    ensures
        r is Ok <==> old(session)@ is Some,
        r is Err ==> r == Err::<CameraStart, SessionError>(SessionError::NotInitialized)
            && *final(session) == *old(session),
        old(session)@ matches Some(v) ==> {
            &&& final(session)@ == Some(SharedView { busy: true, ..v })
            &&& r matches Ok(s) && opening(s, device_id@, facing_mode@, 0, has_stream)
        },
{
    match &mut session.shared {
        None => Err(SessionError::NotInitialized),
        Some(shared) => {
            shared.busy = true;
            Ok(VideoCapture::start_with_device(device_id, facing_mode, 0, has_stream))
        },
    }
}

/// An opening that has just begun.
pub open spec fn opening(
    s: CameraStart,
    device_id: Seq<char>,
    facing: Seq<char>,
    target_width: u32,
    has_stream: bool,
) -> bool {
    &&& s.wf()
    &&& crate::video::views(s.requests@) == crate::video::requests(
        device_id,
        facing,
        target_width,
    )
    &&& s.chain.at == crate::fallback::Attempt::Try(0)
    &&& s.phase == if has_stream {
        Phase::Stop
    } else {
        Phase::Request
    }
}

/// Asks for another resolution: the capture takes the size to aim at, and the active camera is
/// to be opened anew so that it provides enough pixels.  Whether the rendering was stopped is
/// kept.
pub fn set_resolution(session: &mut Session, max_w: u32, has_stream: bool) -> (r: Result<
    CameraStart,
    SessionError,
>)
    requires
        old(session)@ matches Some(v) ==> !v.busy,
    ensures
        r is Ok <==> old(session)@ is Some,
        r is Err ==> r == Err::<CameraStart, SessionError>(SessionError::NotInitialized)
            && *final(session) == *old(session),
        old(session)@ matches Some(v) ==> {
            &&& final(session)@ == Some(v.resizing(max_w))
            &&& r matches Ok(s) && opening(s, v.device_id, v.facing, max_w, has_stream)
        },
{
    match &mut session.shared {
        None => Err(SessionError::NotInitialized),
        Some(shared) => {
            shared.busy = true;
            let target_w: u32 = if max_w <= MAX_CAPTURE_WIDTH {
                max_w
            } else {
                MAX_CAPTURE_WIDTH
            };
            let target_h: u32 = (target_w as u64 * 3 / 4) as u32;
            shared.state.capture.resize(target_w, target_h);
            Ok(
                VideoCapture::start_with_device(
                    shared.state.active_device_id.as_str(),
                    shared.state.active_facing.as_str(),
                    max_w,
                    has_stream,
                ),
            )
        },
    }
}

impl Shared {
    /// Can frames of this video be processed?
    pub fn can_process(&self, video_w: u32, video_h: u32, max_width: u32) -> (r: bool)
        ensures
            r == self@.fits(self@.size_for((video_w, video_h), max_width)),
    {
        let (cam_w, cam_h): (u32, u32) = self.state.capture.actual_size(video_w, video_h);
        let (w, h): (u32, u32) = processing_size(cam_w, cam_h, max_width);
        SteerablePipeline::is_supported(
            w,
            h,
            gpu::max_fft_for_device(&self.state.ctx),
            self.state.n_scales,
            self.state.n_orient,
        )
    }

    /// The transform shader for the pipeline: the template with the longest transform, which
    /// limits the padded sides, filled in.
    pub fn fft_shader(&self, template: &str) -> (r: String)
        ensures
            r@ == text::replaced(
                template@,
                "/*SHARED_SIZE*/"@,
                text::decimal(self@.max_fft() as nat),
            ),
    {
        text::fft_shader_source(template, gpu::max_fft_for_device(&self.state.ctx))
    }

    /// Replaces pipeline and capture by those for another size.
    fn rebuild(&mut self, w: u32, h: u32)
        requires
            old(self)@.fits((w, h)),
        ensures
            final(self)@ == old(self)@.rebuilt((w, h)),
    {
        self.state.capture.resize(w, h);
        let max_fft: u32 = gpu::max_fft_for_device(&self.state.ctx);
        self.state.pipeline =
        SteerablePipeline::new(w, h, max_fft, self.state.n_scales, self.state.n_orient);
        self.state.width = w;
        self.state.height = h;
    }

    /// Takes over the camera that was asked for and is now open.  Says whether the pipeline is
    /// a new one.
    pub fn camera_opened(
        &mut self,
        device_id: &str,
        facing_mode: &str,
        video_w: u32,
        video_h: u32,
    ) -> (rebuilt: bool)
        requires
            old(self)@.wf(),
            old(self)@.fits(old(self)@.size_for((video_w, video_h), DEFAULT_MAX_WIDTH)),
        ensures
            final(self)@ == old(self)@.with_camera(device_id@, facing_mode@, (video_w, video_h)),
            final(self)@.wf(),
            final(self).state.active_device_id@ == device_id@,
            final(self).state.active_facing@ == facing_mode@,
            (final(self).state.width, final(self).state.height) == processing(
                (final(self).state.cam_w, final(self).state.cam_h),
                640,
            ),
            final(self).running,
            !final(self).busy,
            rebuilt <==> old(self)@.size_for((video_w, video_h), DEFAULT_MAX_WIDTH) != (
                old(self)@.width,
                old(self)@.height,
            ),
    {
        self.state.active_device_id = device_id.to_owned();
        self.state.active_facing = facing_mode.to_owned();
        let (cam_w, cam_h): (u32, u32) = self.state.capture.actual_size(video_w, video_h);
        self.state.cam_w = cam_w;
        self.state.cam_h = cam_h;
        let (w, h): (u32, u32) = processing_size(cam_w, cam_h, DEFAULT_MAX_WIDTH);
        self.running = true;
        self.busy = false;
        if w != self.state.width || h != self.state.height {
            self.rebuild(w, h);
            true
        } else {
            self.state.pipeline.reset_state();
            false
        }
    }

    /// Takes over the camera that was opened for a change of resolution.
    pub fn resolution_opened(&mut self, max_w: u32, video_w: u32, video_h: u32)
        requires
            old(self)@.wf(),
            old(self)@.fits(old(self)@.size_for((video_w, video_h), max_w)),
        ensures
            final(self)@ == old(self)@.with_resolution(max_w, (video_w, video_h)),
            final(self)@.wf(),
            final(self).state.active_device_id@ == old(self).state.active_device_id@,
            final(self).state.active_facing@ == old(self).state.active_facing@,
            (final(self).state.width, final(self).state.height) == processing(
                (final(self).state.cam_w, final(self).state.cam_h),
                max_w,
            ),
            final(self).running,
            !final(self).busy,
    {
        let (cam_w, cam_h): (u32, u32) = self.state.capture.actual_size(video_w, video_h);
        self.state.cam_w = cam_w;
        self.state.cam_h = cam_h;
        let (w, h): (u32, u32) = processing_size(cam_w, cam_h, max_w);
        self.running = true;
        self.busy = false;
        self.rebuild(w, h);
    }

    /// Changes the number of scales and orientations, unless the session is busy.  Says whether the pipeline is a new one.
    pub fn set_quality(&mut self, scales: u32, orient: u32) -> (rebuilt: bool)
        requires
            old(self)@.wf(),
        ensures
            final(self)@ == old(self)@.with_quality(scales, orient),
            final(self)@.wf(),
            rebuilt <==> old(self)@.changes_quality(scales, orient),
    {
        if !self.busy && (scales != self.state.n_scales || orient != self.state.n_orient) {
            self.state.n_scales = clamp(scales, 1, 4);
            self.state.n_orient = clamp(orient, 1, 8);
            let max_fft: u32 = gpu::max_fft_for_device(&self.state.ctx);
            proof {
                let (s, o) = (self.state.n_scales as int, self.state.n_orient as int);
                assert(s * o <= 32) by (nonlinear_arith)
                    requires
                        1 <= s <= 4,
                        1 <= o <= 8,
                ;
            }
            self.state.pipeline =
            SteerablePipeline::new(
                self.state.width,
                self.state.height,
                max_fft,
                self.state.n_scales,
                self.state.n_orient,
            );
            true
        } else {
            false
        }
    }

    /// Takes in the facing mode of a stream when it is attached, whatever becomes of the
    /// opening afterwards.
    pub fn stream_attached(&mut self, video_tracks: u32, facing: Option<String>)
        ensures
            final(self)@ == old(self)@.attached(video_tracks, crate::video::text_of(facing)),
            old(self)@.wf() ==> final(self)@.wf(),
    {
        self.state.capture.detect_facing(video_tracks, facing);
    }

    /// Gives up a camera that could not be opened: a stopped rendering stays stopped.
    pub fn opening_failed(&mut self)
        ensures
            final(self)@ == (SharedView { busy: false, ..old(self)@ }),
    {
        self.busy = false;
    }

    /// Are frames to be rendered?
    pub fn renders(&self) -> (r: bool)
        ensures
            r == self@.renders(),
    {
        self.running && !self.busy
    }

    /// Sets the amplification, unless the session is busy.
    pub fn set_magnification(&mut self, v: u32)
        ensures
            final(self)@ == if old(self)@.busy {
                old(self)@
            } else {
                SharedView { amplification: v, ..old(self)@ }
            },
            !old(self).busy ==> final(self).state.amplification == v,
    {
        if !self.busy {
            self.state.amplification = v;
        }
    }

    /// Sets the lower frequency, unless the session is busy.
    pub fn set_freq_low(&mut self, v: u32)
        ensures
            final(self)@ == if old(self)@.busy {
                old(self)@
            } else {
                SharedView { freq_low: v, ..old(self)@ }
            },
            !old(self).busy ==> final(self).state.freq_low == v,
    {
        if !self.busy {
            self.state.freq_low = v;
        }
    }

    /// Sets the upper frequency, unless the session is busy.
    pub fn set_freq_high(&mut self, v: u32)
        ensures
            final(self)@ == if old(self)@.busy {
                old(self)@
            } else {
                SharedView { freq_high: v, ..old(self)@ }
            },
            !old(self).busy ==> final(self).state.freq_high == v,
    {
        if !self.busy {
            self.state.freq_high = v;
        }
    }

    /// Stops or resumes the rendering.
    pub fn toggle_magnification(&mut self)
        ensures
            final(self)@ == (SharedView { running: !old(self)@.running, ..old(self)@ }),
    {
        self.running = !self.running;
    }
}

// ── The animation loop ──

/// The bits of 30, the frame rate that is taken before one was measured, in single precision.
pub const INITIAL_FPS: u32 = 0x41f0_0000;

/// The bits of 1000, the milliseconds of a second, in double precision.
pub const SECOND: u64 = 0x408f_4000_0000_0000;

/// The bits of infinity in double precision.
pub const INFINITY: u64 = 0x7ff0_0000_0000_0000;

/// At least a second, by the bits of a double-precision number of milliseconds.  Such bits are
/// ordered as the numbers are, from zero to infinity; above these lie what is not a number and
/// the negative numbers.
pub open spec fn is_second(elapsed: u64) -> bool {
    SECOND <= elapsed <= INFINITY
}

/// What the animation loop waits for.
#[derive(Clone, Copy, PartialEq, Eq, Structural, Debug)]
pub enum LoopPhase {
    /// The next animation frame.
    Waiting,
    /// The frame that is being grabbed.
    Grabbing,
    /// The frame that is being rendered.
    Rendering,
    /// The frame rate that is being computed and shown.
    Measuring,
}

/// What has happened.
#[derive(Clone, Copy, PartialEq, Eq, Structural, Debug)]
pub enum LoopEvent {
    /// An animation frame has come.
    AnimationFrame,
    /// A frame was grabbed, or could not be.
    Grabbed { success: bool },
    /// The frame was processed and rendered.  `now` is the bits of the clock reading after it,
    /// `elapsed` those of the milliseconds between the reading `FrameLoop::since` and `now`,
    /// both in double precision.
    Rendered { now: u64, elapsed: u64 },
    /// The frame rate was shown; `fps` is its bits in single precision.
    Measured { fps: u32 },
}

/// What the animation loop does next.  It never ends.
#[derive(Clone, Copy, PartialEq, Eq, Structural, Debug)]
pub enum LoopAction {
    /// Let the browser work, then wait for the next animation frame.
    Yield,
    /// Grab a frame.
    Grab,
    /// Process and render the frame that was grabbed, with these settings at this frame rate.
    Render { amplification: u32, freq_low: u32, freq_high: u32, fps: u32 },
    /// Wait for the next animation frame.
    NextFrame,
    /// Compute and show the rate of this many frames in this many milliseconds, which are the
    /// bits of a double-precision number.
    Report { frames: u32, elapsed: u64 },
}

/// The animation loop.
#[derive(Clone, Copy, PartialEq, Eq, Structural, Debug)]
pub struct FrameLoop {
    pub phase: LoopPhase,
    /// The frames that were rendered since the rate was last measured.
    pub frame_count: u32,
    /// The bits of the clock reading from which they are counted, in double precision.
    pub since: u64,
    /// The bits of the last rate that was measured, in single precision.
    pub fps: u32,
}

impl FrameLoop {
    /// The loop at its start, at a clock reading: it waits for an animation frame, nothing has
    /// been rendered, and the rate is taken to be 30.
    pub open spec fn initial(start: u64) -> FrameLoop {
        FrameLoop { phase: LoopPhase::Waiting, frame_count: 0, since: start, fps: INITIAL_FPS }
    }

    /// The loop waits for this event.
    pub open spec fn spec_accepts(self, event: LoopEvent) -> bool {
        match event {
            LoopEvent::AnimationFrame => self.phase is Waiting,
            LoopEvent::Grabbed { success } => self.phase is Grabbing,
            LoopEvent::Rendered { now, elapsed } => self.phase is Rendering,
            LoopEvent::Measured { fps } => self.phase is Measuring,
        }
    }

    /// The loop after an event in a session, and what it does.
    ///
    /// Nothing is grabbed while the session does not render.  A frame that could not be grabbed
    /// is left out.  A rendered frame is counted.  Once a second has elapsed the rate is
    /// measured and frames are counted anew from that reading; later frames are rendered at
    /// the rate that was measured.
    pub open spec fn spec_step(self, v: SharedView, event: LoopEvent) -> (FrameLoop, LoopAction) {
        match event {
            LoopEvent::AnimationFrame => if v.renders() {
                (FrameLoop { phase: LoopPhase::Grabbing, ..self }, LoopAction::Grab)
            } else {
                (FrameLoop { phase: LoopPhase::Waiting, ..self }, LoopAction::Yield)
            },
            LoopEvent::Grabbed { success } => if success {
                (
                    FrameLoop { phase: LoopPhase::Rendering, ..self },
                    LoopAction::Render {
                        amplification: v.amplification,
                        freq_low: v.freq_low,
                        freq_high: v.freq_high,
                        fps: self.fps,
                    },
                )
            } else {
                (FrameLoop { phase: LoopPhase::Waiting, ..self }, LoopAction::NextFrame)
            },
            LoopEvent::Rendered { now, elapsed } => {
                let count = (self.frame_count + 1) as u32;
                if is_second(elapsed) {
                    (
                        FrameLoop {
                            phase: LoopPhase::Measuring,
                            frame_count: 0,
                            since: now,
                            ..self
                        },
                        LoopAction::Report { frames: count, elapsed },
                    )
                } else {
                    (
                        FrameLoop { phase: LoopPhase::Waiting, frame_count: count, ..self },
                        LoopAction::NextFrame,
                    )
                }
            },
            LoopEvent::Measured { fps } => (
                FrameLoop { phase: LoopPhase::Waiting, fps, ..self },
                LoopAction::NextFrame,
            ),
        }
    }

    /// Starts the loop at a clock reading, given by its bits in double precision.
    pub fn new(start: u64) -> (r: Self)
        ensures
            r == Self::initial(start),
    {
        FrameLoop { phase: LoopPhase::Waiting, frame_count: 0, since: start, fps: INITIAL_FPS }
    }

    /// Does the loop wait for this event?
    pub fn accepts(&self, event: LoopEvent) -> (r: bool)
        ensures
            r == self.spec_accepts(event),
    {
        match (event, self.phase) {
            (LoopEvent::AnimationFrame, LoopPhase::Waiting) => true,
            (LoopEvent::Grabbed { .. }, LoopPhase::Grabbing) => true,
            (LoopEvent::Rendered { .. }, LoopPhase::Rendering) => true,
            (LoopEvent::Measured { .. }, LoopPhase::Measuring) => true,
            _ => false,
        }
    }

    /// Takes in an event that the loop waits for, and says what to do.
    pub fn step(&mut self, shared: &Shared, event: LoopEvent) -> (r: LoopAction)
        requires
            old(self).spec_accepts(event),
            event is Rendered ==> old(self).frame_count < u32::MAX,
        ensures
            (*final(self), r) == old(self).spec_step(shared@, event),
    {
        match event {
            LoopEvent::AnimationFrame => if shared.renders() {
                self.phase = LoopPhase::Grabbing;
                LoopAction::Grab
            } else {
                self.phase = LoopPhase::Waiting;
                LoopAction::Yield
            },
            LoopEvent::Grabbed { success } => if success {
                self.phase = LoopPhase::Rendering;
                LoopAction::Render {
                    amplification: shared.state.amplification,
                    freq_low: shared.state.freq_low,
                    freq_high: shared.state.freq_high,
                    fps: self.fps,
                }
            } else {
                self.phase = LoopPhase::Waiting;
                LoopAction::NextFrame
            },
            LoopEvent::Rendered { now, elapsed } => {
                let count: u32 = self.frame_count + 1;
                if SECOND <= elapsed && elapsed <= INFINITY {
                    self.phase = LoopPhase::Measuring;
                    self.frame_count = 0;
                    self.since = now;
                    LoopAction::Report { frames: count, elapsed }
                } else {
                    self.phase = LoopPhase::Waiting;
                    self.frame_count = count;
                    LoopAction::NextFrame
                }
            },
            LoopEvent::Measured { fps } => {
                self.phase = LoopPhase::Waiting;
                self.fps = fps;
                LoopAction::NextFrame
            },
        }
    }
}

} // verus!
