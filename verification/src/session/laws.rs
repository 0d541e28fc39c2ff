//! What holds of every session.

use crate::gpu::GpuContext;
use crate::session::{FrameLoop, LoopAction, LoopEvent, SharedView};
use crate::steerable::Storage;
use crate::video::{Action, CameraRequestView, CameraStart, VideoCapture};
use vstd::prelude::*;

verus! {

// ── Processing size ──

/// The greater of two numbers.
pub open spec fn at_least(n: int, least: int) -> int {
    if n < least {
        least
    } else {
        n
    }
}

/// A processing size is even and at least two by two, as the pipelines that halve an image
/// need it.  It is no wider than the greatest width and no larger than the camera's size,
/// unless these are below two.
pub proof fn lemma_processing(cam: (u32, u32), max_width: u32)
    ensures
        ({
            let size = crate::session::processing(cam, max_width);
            &&& size.0 % 2 == 0
            &&& size.1 % 2 == 0
            &&& size.0 >= 2
            &&& size.1 >= 2
            &&& size.0 <= at_least(max_width as int, 2)
            &&& size.0 <= at_least(cam.0 as int, 2)
            &&& size.1 <= at_least(cam.1 as int, 2)
        }),
{
    if cam.0 > max_width {
        let limit = max_width as int;
        let width = cam.0 as int;
        crate::scale::lemma_scaled_shrinks(width, limit, width);
        crate::scale::lemma_scaled_shrinks(cam.1 as int, limit, width);
        if limit > 0 {
            crate::scale::lemma_scaled_width(limit, width);
        }
    }
}

/// A camera that is not too wide and has even sides is processed at its own size.
pub proof fn lemma_processing_keeps(cam: (u32, u32), max_width: u32)
    requires
        2 <= cam.0 <= max_width,
        2 <= cam.1,
        cam.0 % 2 == 0,
        cam.1 % 2 == 0,
    ensures
        crate::session::processing(cam, max_width) == cam,
{
}

/// What has been brought to a processing size stays there.
pub proof fn lemma_processing_stable(cam: (u32, u32), max_width: u32)
    requires
        max_width >= 2,
    ensures
        crate::session::processing(crate::session::processing(cam, max_width), max_width)
            == crate::session::processing(cam, max_width),
{
    lemma_processing(cam, max_width);
    lemma_processing_keeps(crate::session::processing(cam, max_width), max_width);
}

/// A camera that is too wide is scaled down to the greatest width and, up to rounding, to its
/// own aspect ratio: the width is less than three pixels off, and so is the height, unless it
/// had to be brought up to two.
pub proof fn lemma_processing_aspect(cam: (u32, u32), max_width: u32)
    requires
        max_width < cam.0,
    ensures
        ({
            let size = crate::session::processing(cam, max_width);
            &&& max_width - 3 < size.0 <= at_least(max_width as int, 2)
            &&& (size.1 - 1) * cam.0 < cam.1 * max_width || size.1 == 2
            &&& cam.1 * max_width < (size.1 + 3) * cam.0
        }),
{
    let limit = max_width as int;
    let width = cam.0 as int;
    let length = cam.1 as int;
    let r = crate::scale::scaled(length, limit, width);
    lemma_processing(cam, max_width);
    crate::scale::lemma_scaled_shrinks(width, limit, width);
    if limit > 0 {
        crate::scale::lemma_scaled_width(limit, width);
    }
    crate::scale::lemma_scaled_shrinks(length, limit, width);
    crate::scale::lemma_scaled_near(length, limit, width);
    let h = crate::session::even_or_two(r);
    if r >= 2 {
        assert((h - 1) * width <= (r - 1) * width) by (nonlinear_arith)
            requires
                h <= r,
                width > 0,
        ;
    }
    assert((r + 2) * width <= (h + 3) * width) by (nonlinear_arith)
        requires
            r <= h + 1,
            width > 0,
    ;
}

/// A camera that is not too wide loses at most the odd column and the odd row.
pub proof fn lemma_processing_trims(cam: (u32, u32), max_width: u32)
    requires
        cam.0 <= max_width,
    ensures
        ({
            let size = crate::session::processing(cam, max_width);
            &&& cam.0 < size.0 + 2
            &&& cam.1 < size.1 + 2
        }),
{
}

/// A camera that is twice as wide as it may be, or four times, or eight times, is scaled by
/// just that: each side is divided and made even.
pub proof fn lemma_processing_divides(cam: (u32, u32), max_width: u32, k: nat)
    requires
        k >= 1,
        max_width >= 2,
        cam.0 == max_width * vstd::arithmetic::power2::pow2(k),
    ensures
        ({
            let size = crate::session::processing(cam, max_width);
            let height = cam.1 as int / vstd::arithmetic::power2::pow2(k) as int;
            &&& size.0 == max_width - max_width % 2
            &&& size.1 == at_least(height - height % 2, 2)
        }),
{
    let unit = vstd::arithmetic::power2::pow2(k) as int;
    crate::scale::lemma_scaled_divides(cam.0 as int, max_width as int, k);
    crate::scale::lemma_scaled_divides(cam.1 as int, max_width as int, k);
    vstd::arithmetic::power2::lemma_pow2_pos(k);
    vstd::arithmetic::power2::lemma2_to64();
    vstd::arithmetic::power2::lemma_pow2_strictly_increases(0, k);
    assert(cam.0 > max_width) by (nonlinear_arith)
        requires
            cam.0 == max_width * unit,
            unit >= 2,
            max_width >= 2,
    ;
    vstd::arithmetic::div_mod::lemma_div_by_multiple(max_width as int, unit);
    crate::scale::lemma_scaled_shrinks(cam.1 as int, max_width as int, cam.0 as int);
}

// ── Sizes ──

/// The device alone decides the longest transform of a session.
pub proof fn lemma_device(v: SharedView)
    ensures
        v.max_fft() == 2048 <==> v.ctx.max_compute_workgroup_storage_size >= 0x4000,
        v.max_fft() == 1024 <==> 0x2000 <= v.ctx.max_compute_workgroup_storage_size < 0x4000,
        v.max_fft() == 512 <==> v.ctx.max_compute_workgroup_storage_size < 0x2000,
{
    crate::gpu::lemma_max_fft(v.ctx.max_compute_workgroup_storage_size);
}

/// The pipeline of a session is made for the size and the quality that the session shows.  Its
/// padded sides hold the frame where the device can transform so much, and are the longest
/// transform otherwise.
pub proof fn lemma_pipeline_agrees(v: SharedView)
    requires
        v.wf(),
    ensures
        v.pipeline.ow == v.width,
        v.pipeline.oh == v.height,
        v.pipeline.n_scales == v.n_scales,
        v.pipeline.n_orient == v.n_orient,
        v.width <= v.max_fft() ==> v.width <= v.pipeline.pw < 2 * v.width,
        v.width > v.max_fft() ==> v.pipeline.pw == v.max_fft(),
        v.height <= v.max_fft() ==> v.height <= v.pipeline.ph < 2 * v.height,
        v.height > v.max_fft() ==> v.pipeline.ph == v.max_fft(),
{
    crate::gpu::lemma_max_fft(v.ctx.max_compute_workgroup_storage_size);
    crate::steerable::laws::lemma_padded(v.width as int, v.max_fft() as int);
    crate::steerable::laws::lemma_padded(v.height as int, v.max_fft() as int);
    crate::arith::lemma_power_above(v.width as int);
    crate::arith::lemma_power_above(v.height as int);
}

/// The program starts at the camera's size, or the capture's where the video reports none,
/// brought to at most 640 pixels of width; with a pyramid of three scales and four
/// orientations, an amplification of 30 and frequencies from 0.5 to 3 in single precision; with
/// no camera chosen; and it renders.
pub proof fn lemma_initial(ctx: GpuContext, capture: VideoCapture, video: (u32, u32))
    ensures
        ({
            let v = crate::session::initial(ctx, capture, video);
            let cam = if video.0 > 0 && video.1 > 0 {
                video
            } else {
                (capture.width, capture.height)
            };
            &&& v.ctx == ctx
            &&& (v.cam_w, v.cam_h) == cam
            &&& (v.width, v.height) == crate::session::processing(cam, 640)
            &&& v.width <= 640
            &&& (v.capture.width, v.capture.height) == (v.width, v.height)
            &&& v.capture.mirrored == capture.mirrored
            &&& (v.pipeline.ow, v.pipeline.oh) == (v.width, v.height)
            &&& v.pipeline.n_scales == 3 && v.n_scales == 3
            &&& v.pipeline.n_orient == 4 && v.n_orient == 4
            &&& v.pipeline.first_frame
            &&& v.amplification == 0x41f0_0000
            &&& v.freq_low == 0x3f00_0000
            &&& v.freq_high == 0x4040_0000
            &&& v.device_id.len() == 0 && v.facing.len() == 0
            &&& v.renders()
        }),
{
    lemma_processing(
        if video.0 > 0 && video.1 > 0 {
            video
        } else {
            (capture.width, capture.height)
        },
        640,
    );
}

/// A change of resolution processes the frames at the size that the chosen width gives for the
/// camera: what the video reports, or the capture's size where it reports none.  That is never
/// wider than was asked for, whether that is more or less than before, and nearly as wide where
/// the camera is wider.  The pipeline is made for that size, and the quality is kept.
pub proof fn lemma_resolution(v: SharedView, max_w: u32, video: (u32, u32))
    ensures
        ({
            let after = v.with_resolution(max_w, video);
            let cam = if video.0 > 0 && video.1 > 0 {
                video
            } else {
                (v.capture.width, v.capture.height)
            };
            &&& (after.width, after.height) == crate::session::processing(cam, max_w)
            &&& (after.cam_w, after.cam_h) == cam
            &&& max_w >= 2 ==> after.width <= max_w
            &&& cam.0 > max_w ==> after.width > max_w - 3
            &&& 2 <= cam.0 <= max_w ==> cam.0 - 2 < after.width <= cam.0
            &&& (after.capture.width, after.capture.height) == (after.width, after.height)
            &&& (after.pipeline.ow, after.pipeline.oh) == (after.width, after.height)
            &&& after.pipeline.n_scales == v.n_scales && after.n_scales == v.n_scales
            &&& after.pipeline.n_orient == v.n_orient && after.n_orient == v.n_orient
            &&& after.pipeline.first_frame
            &&& after.device_id == v.device_id && after.facing == v.facing
            &&& after.ctx == v.ctx
        }),
{
    let cam = if video.0 > 0 && video.1 > 0 {
        video
    } else {
        (v.capture.width, v.capture.height)
    };
    lemma_processing(cam, max_w);
    if cam.0 > max_w {
        lemma_processing_aspect(cam, max_w);
    } else {
        lemma_processing_trims(cam, max_w);
    }
}

/// The wider of two resolutions, where the camera provides it, is really the wider one: frames
/// of a width that is at least three pixels more are wider.
pub proof fn lemma_resolutions_differ(v: SharedView, less: u32, more: u32, video: (u32, u32))
    requires
        2 <= less,
        less + 3 <= more,
        0 < video.1,
        more <= video.0,
    ensures
        v.with_resolution(less, video).width < v.with_resolution(more, video).width,
{
    lemma_resolution(v, less, video);
    lemma_resolution(v, more, video);
}

/// A change of camera makes exactly the device and the facing mode that were given the active
/// ones, each for itself.  The frames are processed at most 640 pixels wide, in a pipeline for
/// that size.  The settings and the quality are kept.
pub proof fn lemma_camera(
    v: SharedView,
    device_id: Seq<char>,
    facing: Seq<char>,
    video: (u32, u32),
)
    requires
        v.wf(),
    ensures
        ({
            let after = v.with_camera(device_id, facing, video);
            let cam = if video.0 > 0 && video.1 > 0 {
                video
            } else {
                (v.capture.width, v.capture.height)
            };
            &&& after.device_id == device_id
            &&& after.facing == facing
            &&& (after.cam_w, after.cam_h) == cam
            &&& (after.width, after.height) == crate::session::processing(cam, 640)
            &&& after.width <= 640
            &&& cam.0 > 640 ==> after.width > 637
            &&& (after.pipeline.ow, after.pipeline.oh) == (after.width, after.height)
            &&& after.pipeline.n_scales == v.n_scales && after.n_scales == v.n_scales
            &&& after.pipeline.n_orient == v.n_orient && after.n_orient == v.n_orient
            &&& after.pipeline.first_frame
            &&& after.amplification == v.amplification
            &&& after.freq_low == v.freq_low && after.freq_high == v.freq_high
            &&& after.capture.mirrored == v.capture.mirrored
            &&& after.ctx == v.ctx
        }),
{
    let cam = if video.0 > 0 && video.1 > 0 {
        video
    } else {
        (v.capture.width, v.capture.height)
    };
    lemma_processing(cam, 640);
    if cam.0 > 640 {
        lemma_processing_aspect(cam, 640);
    }
}

/// A change of resolution that follows a change of camera asks for the camera that was chosen:
/// for the device at the new width where one was given, then for the facing mode where one was
/// given, and for the platform's choice only if neither was.
pub proof fn lemma_camera_is_asked_for_again(
    v: SharedView,
    device_id: Seq<char>,
    facing: Seq<char>,
    video: (u32, u32),
    max_w: u32,
)
    requires
        max_w > 0,
    ensures
        ({
            let chosen = v.with_camera(device_id, facing, video);
            let list = crate::video::requests(chosen.device_id, chosen.facing, max_w);
            &&& list == crate::video::requests(device_id, facing, max_w)
            &&& device_id.len() > 0 ==> list[0] == (CameraRequestView::Device {
                id: device_id,
                ideal_width: max_w,
            })
            &&& facing.len() > 0 ==> list.contains(CameraRequestView::Facing(facing))
            &&& device_id.len() == 0 && facing.len() > 0 ==> list.len() == 1 && list[0]
                == CameraRequestView::Facing(facing)
            &&& list.contains(CameraRequestView::DefaultCamera) <==> device_id.len() == 0
                && facing.len() == 0
            &&& chosen.resizing(max_w).device_id == device_id
            &&& chosen.resizing(max_w).facing == facing
            &&& chosen.with_resolution(max_w, video).device_id == device_id
            &&& chosen.with_resolution(max_w, video).facing == facing
        }),
{
    crate::video::lemma_requests(device_id, facing, max_w);
}

/// An opening that has just begun asks for the device first, at the wanted width, or at 4096
/// where none is wanted; for the facing mode first where there is no device; and stops a stream
/// that is shown before anything else.
pub proof fn lemma_opening(
    s: CameraStart,
    device_id: Seq<char>,
    facing: Seq<char>,
    target_width: u32,
    has_stream: bool,
)
    requires
        crate::session::opening(s, device_id, facing, target_width, has_stream),
    ensures
        ({
            let first = s.requests@[0]@;
            let action = crate::video::action_in(s.phase, s.chain.at);
            &&& device_id.len() > 0 && target_width > 0 ==> first == (CameraRequestView::Device {
                id: device_id,
                ideal_width: target_width,
            })
            &&& device_id.len() > 0 && target_width == 0 ==> first == (CameraRequestView::Device {
                id: device_id,
                ideal_width: 4096,
            })
            &&& device_id.len() == 0 && facing.len() > 0 ==> first == CameraRequestView::Facing(
                facing,
            )
            &&& device_id.len() == 0 && facing.len() == 0 ==> first
                == CameraRequestView::DefaultCamera
            &&& has_stream ==> action == Action::StopTracks
            &&& !has_stream ==> action == Action::Request(0)
            &&& s.wf()
        }),
{
    crate::video::lemma_requests(device_id, facing, target_width);
    let list = crate::video::views(s.requests@);
    assert(list[0] == s.requests@[0]@);
}

/// While another resolution is being opened, the capture has the width that was asked for, but
/// at most 1280, and three quarters of that as its height.  Apart from the size and from being
/// busy the session is as it was.
pub proof fn lemma_resizing(v: SharedView, max_w: u32)
    ensures
        ({
            let after = v.resizing(max_w);
            &&& max_w <= 1280 ==> after.capture.width == max_w
            &&& max_w > 1280 ==> after.capture.width == 1280
            &&& 4 * after.capture.height <= 3 * after.capture.width
            &&& 3 * after.capture.width < 4 * after.capture.height + 4
            &&& after == (SharedView {
                capture: VideoCapture {
                    width: after.capture.width,
                    height: after.capture.height,
                    mirrored: v.capture.mirrored,
                },
                busy: true,
                ..v
            })
        }),
{
}

// ── Sizes agree ──

/// What is captured has the size of what is processed.
pub open spec fn consistent(v: SharedView) -> bool {
    v.capture.width == v.width && v.capture.height == v.height
}

/// At the start, and after every change of resolution, sizes agree.
pub proof fn lemma_becomes_consistent(
    ctx: GpuContext,
    capture: VideoCapture,
    v: SharedView,
    max_w: u32,
    video: (u32, u32),
)
    ensures
        consistent(crate::session::initial(ctx, capture, video)),
        consistent(v.with_resolution(max_w, video)),
{
}

/// Where sizes agree they do so after a change of camera, whether or not the pipeline is a new
/// one, and after a change of quality.
pub proof fn lemma_stays_consistent(
    v: SharedView,
    device_id: Seq<char>,
    facing: Seq<char>,
    video: (u32, u32),
    scales: u32,
    orient: u32,
)
    requires
        consistent(v),
    ensures
        consistent(v.with_camera(device_id, facing, video)),
        consistent(v.with_quality(scales, orient)),
{
}

/// While a camera is being opened nothing is rendered.  Once it is open rendering goes on, and
/// other requests can follow.  Where it does not open, rendering goes on or not as it would
/// have done before the request.
pub proof fn lemma_running(
    v: SharedView,
    max_w: u32,
    device_id: Seq<char>,
    facing: Seq<char>,
    video: (u32, u32),
)
    ensures
        ({
            let requested = SharedView { busy: true, ..v };
            let given_up = SharedView { busy: false, ..requested };
            let resizing_given_up = SharedView { busy: false, ..v.resizing(max_w) };
            &&& !requested.renders()
            &&& !v.resizing(max_w).renders()
            &&& v.with_camera(device_id, facing, video).renders()
            &&& v.with_resolution(max_w, video).renders()
            &&& given_up.renders() == v.running
            &&& resizing_given_up.renders() == v.running
        }),
{
}

/// A change of camera or of resolution makes the pipeline start anew: it is either a new one or
/// has forgotten the motion it has seen.
pub proof fn lemma_starts_anew(
    v: SharedView,
    max_w: u32,
    device_id: Seq<char>,
    facing: Seq<char>,
    video: (u32, u32),
)
    ensures
        v.with_camera(device_id, facing, video).pipeline.first_frame,
        v.with_resolution(max_w, video).pipeline.first_frame,
{
}

/// After a change of camera or of resolution frames are mirrored as the facing mode of the
/// attached stream says.  Attaching it changes nothing else; in particular sizes still agree.
pub proof fn lemma_facing(
    v: SharedView,
    video_tracks: u32,
    mode: Option<Seq<char>>,
    max_w: u32,
    device_id: Seq<char>,
    facing: Seq<char>,
    video: (u32, u32),
)
    ensures
        ({
            let a = v.attached(video_tracks, mode);
            let mirrored = if video_tracks > 0 {
                mode != Some("environment"@)
            } else {
                v.capture.mirrored
            };
            &&& a.with_camera(device_id, facing, video).capture.mirrored == mirrored
            &&& a.with_resolution(max_w, video).capture.mirrored == mirrored
            &&& a == (SharedView { capture: VideoCapture { mirrored, ..v.capture }, ..v })
            &&& consistent(a) <==> consistent(v)
        }),
{
}

/// A change of resolution keeps the camera, the settings and the quality.
pub proof fn lemma_resolution_keeps(v: SharedView, max_w: u32, video: (u32, u32))
    ensures
        ({
            let after = v.resizing(max_w).with_resolution(max_w, video);
            &&& after.device_id == v.device_id
            &&& after.facing == v.facing
            &&& after.capture.mirrored == v.capture.mirrored
            &&& after.amplification == v.amplification
            &&& after.freq_low == v.freq_low
            &&& after.freq_high == v.freq_high
            &&& after.n_scales == v.n_scales
            &&& after.n_orient == v.n_orient
        }),
{
}

// ── Quality ──

/// The quality stays within its limits, the sizes are kept, and asking again for a quality
/// within the limits changes nothing.  A busy session keeps its quality.
pub proof fn lemma_quality(v: SharedView, scales: u32, orient: u32)
    requires
        v.wf(),
    ensures
        ({
            let w = v.with_quality(scales, orient);
            &&& 1 <= w.n_scales <= 4
            &&& 1 <= w.n_orient <= 8
            &&& (w.width, w.height) == (v.width, v.height)
            &&& w.capture == v.capture
            &&& w.running == v.running
            &&& v.busy ==> w == v
            &&& !v.busy && 1 <= scales <= 4 && 1 <= orient <= 8 ==> {
                &&& w.n_scales == scales
                &&& w.n_orient == orient
                &&& w.with_quality(scales, orient) == w
            }
        }),
{
}

/// What is outside the limits of a quality is brought to the nearest limit.  A change makes a
/// new pipeline of that quality for the same size, which starts anew; all else is kept.
pub proof fn lemma_quality_limits(v: SharedView, scales: u32, orient: u32)
    requires
        v.wf(),
    ensures
        v.changes_quality(scales, orient) <==> !v.busy && !(scales == v.n_scales && orient
            == v.n_orient),
        v.changes_quality(scales, orient) ==> {
            let w = v.with_quality(scales, orient);
            &&& scales == 0 ==> w.n_scales == 1
            &&& scales >= 4 ==> w.n_scales == 4
            &&& 1 <= scales <= 4 ==> w.n_scales == scales
            &&& orient == 0 ==> w.n_orient == 1
            &&& orient >= 8 ==> w.n_orient == 8
            &&& 1 <= orient <= 8 ==> w.n_orient == orient
            &&& w.pipeline.n_scales == w.n_scales && w.pipeline.n_orient == w.n_orient
            &&& w.pipeline.ow == v.width && w.pipeline.oh == v.height
            &&& w.pipeline.first_frame
            &&& w == (SharedView {
                n_scales: w.n_scales,
                n_orient: w.n_orient,
                pipeline: w.pipeline,
                ..v
            })
        },
        !v.changes_quality(scales, orient) ==> v.with_quality(scales, orient) == v,
{
}

// ── Frames ──

/// Where sizes agree, the pixels that are captured fill the buffer of the incoming frame: four
/// bytes to a pixel, which are one word to a pixel.
pub proof fn lemma_frame_fits(v: SharedView, bytes: Seq<u8>)
    requires
        v.wf(),
        consistent(v),
        bytes.len() == v.capture.width * v.capture.height * 4,
    ensures
        crate::words::le_words(bytes).len() == v.pipeline.ow * v.pipeline.oh,
        bytes.len() == v.pipeline.size_of(Storage::RgbaIn),
        crate::words::le_bytes(crate::words::le_words(bytes)) == bytes,
{
    let n = v.capture.width * v.capture.height;
    assert(bytes.len() == 4 * n);
    assert(bytes.len() % 4 == 0);
    crate::words::lemma_bytes_roundtrip(bytes);
}

/// The pipeline of a session can always be used.
pub proof fn lemma_pipeline_usable(v: SharedView)
    requires
        v.wf(),
    ensures
        v.pipeline.wf(),
        v.pipeline.bands() == v.n_scales * v.n_orient,
        crate::arith::is_power_of_two(v.pipeline.pw as int),
        crate::arith::is_power_of_two(v.pipeline.ph as int),
{
    crate::gpu::lemma_max_fft(v.ctx.max_compute_workgroup_storage_size);
    crate::arith::lemma_power_above(v.width as int);
    crate::arith::lemma_power_above(v.height as int);
    crate::steerable::laws::lemma_padded(v.width as int, v.max_fft() as int);
    crate::steerable::laws::lemma_padded(v.height as int, v.max_fft() as int);
}

/// No transform of a session is longer than the length that its shader is made for; on a device
/// with at least 4096 bytes of shared memory it fits there, eight bytes to a value.
pub proof fn lemma_transforms_fit(v: SharedView)
    requires
        v.wf(),
    ensures
        v.pipeline.pw <= v.max_fft(),
        v.pipeline.ph <= v.max_fft(),
        v.ctx.max_compute_workgroup_storage_size >= 4096 ==> v.pipeline.pw * 8
            <= v.ctx.max_compute_workgroup_storage_size && v.pipeline.ph * 8
            <= v.ctx.max_compute_workgroup_storage_size,
{
    crate::gpu::lemma_max_fft(v.ctx.max_compute_workgroup_storage_size);
    crate::arith::lemma_power_above(v.width as int);
    crate::arith::lemma_power_above(v.height as int);
}

/// On every device all that limits a frame size is that its pixels can be counted.
pub proof fn lemma_fits(v: SharedView, size: (u32, u32))
    requires
        1 <= v.n_scales <= 4,
        1 <= v.n_orient <= 8,
        1 <= size.0 <= 0x8000_0000,
        1 <= size.1 <= 0x8000_0000,
    ensures
        v.fits(size) <==> size.0 * size.1 <= u32::MAX,
{
    crate::gpu::lemma_max_fft(v.ctx.max_compute_workgroup_storage_size);
    let (s, o) = (v.n_scales as int, v.n_orient as int);
    assert(s * o <= 32) by (nonlinear_arith)
        requires
            1 <= s <= 4,
            1 <= o <= 8,
    ;
    if size.0 * size.1 <= u32::MAX {
        crate::steerable::laws::lemma_supported(
            size.0 as int,
            size.1 as int,
            v.max_fft() as int,
            s,
            o,
        );
    }
}

// ── The animation loop ──

/// What the loop is told: an event, and the session as it then is.
pub type LoopInput = (SharedView, LoopEvent);

/// The loop after some inputs, when it was started at a clock reading.
pub open spec fn loop_after(start: u64, inputs: Seq<LoopInput>) -> FrameLoop
    decreases inputs.len(),
{
    if inputs.len() == 0 {
        FrameLoop::initial(start)
    } else {
        loop_after(start, inputs.drop_last()).spec_step(inputs.last().0, inputs.last().1).0
    }
}

/// The loop before input `i`.
pub open spec fn loop_before(start: u64, inputs: Seq<LoopInput>, i: int) -> FrameLoop {
    loop_after(start, inputs.take(i))
}

/// What the loop does at input `i`.
pub open spec fn action_at(start: u64, inputs: Seq<LoopInput>, i: int) -> LoopAction {
    loop_before(start, inputs, i).spec_step(inputs[i].0, inputs[i].1).1
}

/// Each input is an event that the loop waits for.
pub open spec fn obeys(start: u64, inputs: Seq<LoopInput>) -> bool {
    forall|i: int|
        0 <= i < inputs.len() ==> loop_before(start, inputs, i).spec_accepts(
            (#[trigger] inputs[i]).1,
        )
}

/// The loop goes from input to input.
proof fn lemma_loop_advances(start: u64, inputs: Seq<LoopInput>, i: int)
    requires
        0 <= i < inputs.len(),
    ensures
        loop_before(start, inputs, i + 1) == loop_before(start, inputs, i).spec_step(
            inputs[i].0,
            inputs[i].1,
        ).0,
{
    let next = inputs.take(i + 1);
    assert(next.drop_last() =~= inputs.take(i));
    assert(next.last() == inputs[i]);
}

/// One turn of the loop.  A frame is grabbed at an animation frame, exactly if the session then
/// renders.  A frame is rendered after a grab that succeeded, exactly then, with the settings
/// that the session has at that moment; the event before was the animation frame at which the
/// session rendered.  A grab that failed renders nothing and counts nothing.  What follows a
/// rendering is its end, so that no frame is rendered twice.
pub proof fn lemma_loop_turn(start: u64, inputs: Seq<LoopInput>, i: int)
    requires
        obeys(start, inputs),
        0 <= i < inputs.len(),
    ensures
        ({
            let (v, event) = inputs[i];
            let action = action_at(start, inputs, i);
            let before = loop_before(start, inputs, i);
            let after = loop_before(start, inputs, i + 1);
            &&& action is Grab <==> event is AnimationFrame && v.renders()
            &&& event is AnimationFrame && !v.renders() ==> action is Yield && after == before
            &&& action is Render <==> event == (LoopEvent::Grabbed { success: true })
            &&& action is Render ==> {
                &&& action == (LoopAction::Render {
                    amplification: v.amplification,
                    freq_low: v.freq_low,
                    freq_high: v.freq_high,
                    fps: before.fps,
                })
                &&& i + 1 < inputs.len() ==> inputs[i + 1].1 is Rendered
            }
            &&& event is Grabbed ==> {
                &&& i > 0
                &&& action_at(start, inputs, i - 1) is Grab
                &&& inputs[i - 1].1 is AnimationFrame
                &&& inputs[i - 1].0.renders()
            }
            &&& event == (LoopEvent::Grabbed { success: false }) ==> action is NextFrame
                && after.frame_count == before.frame_count
            &&& event is Rendered ==> i > 0 && action_at(start, inputs, i - 1) is Render
        }),
{
    let (v, event) = inputs[i];
    assert(loop_before(start, inputs, i).spec_accepts(event));
    lemma_loop_advances(start, inputs, i);
    if i > 0 {
        lemma_loop_advances(start, inputs, i - 1);
        assert(loop_before(start, inputs, i - 1).spec_accepts(inputs[i - 1].1));
    } else {
        assert(inputs.take(0) =~= Seq::<LoopInput>::empty());
    }
    if i + 1 < inputs.len() {
        assert(loop_before(start, inputs, i + 1).spec_accepts(inputs[i + 1].1));
    }
}

/// The grabs that succeeded.
pub open spec fn successes(inputs: Seq<LoopInput>) -> int
    decreases inputs.len(),
{
    if inputs.len() == 0 {
        0
    } else {
        successes(inputs.drop_last()) + if inputs.last().1 == (LoopEvent::Grabbed {
            success: true,
        }) {
            1int
        } else {
            0int
        }
    }
}

/// The frames that the loop had rendered.
pub open spec fn renderings(start: u64, inputs: Seq<LoopInput>) -> int
    decreases inputs.len(),
{
    if inputs.len() == 0 {
        0
    } else {
        renderings(start, inputs.drop_last()) + if action_at(start, inputs, inputs.len() - 1)
            is Render {
            1int
        } else {
            0int
        }
    }
}

/// The frames whose rate was shown.
pub open spec fn reported(start: u64, inputs: Seq<LoopInput>) -> int
    decreases inputs.len(),
{
    if inputs.len() == 0 {
        0
    } else {
        reported(start, inputs.drop_last()) + match action_at(start, inputs, inputs.len() - 1) {
            LoopAction::Report { frames, elapsed } => frames as int,
            _ => 0int,
        }
    }
}

/// The loop obeys after fewer inputs.
proof fn lemma_obeys_before(start: u64, inputs: Seq<LoopInput>)
    requires
        obeys(start, inputs),
        inputs.len() > 0,
    ensures
        obeys(start, inputs.drop_last()),
        inputs.take(inputs.len() - 1) == inputs.drop_last(),
{
    let init = inputs.drop_last();
    assert(inputs.take(inputs.len() - 1) =~= init);
    assert forall|i: int| 0 <= i < init.len() implies loop_before(start, init, i).spec_accepts(
        (#[trigger] init[i]).1,
    ) by {
        assert(init.take(i) =~= inputs.take(i));
        assert(loop_before(start, inputs, i).spec_accepts(inputs[i].1));
    }
}

/// Each frame that could be grabbed is rendered exactly once, and each frame that was rendered
/// is counted exactly once: those that were reported, those that are yet to be, and the one
/// that is being rendered add up to all.
pub proof fn lemma_frames_counted(start: u64, inputs: Seq<LoopInput>)
    requires
        obeys(start, inputs),
        inputs.len() <= u32::MAX,
    ensures
        renderings(start, inputs) == successes(inputs),
        renderings(start, inputs) == reported(start, inputs) + loop_after(
            start,
            inputs,
        ).frame_count + if loop_after(start, inputs).phase is Rendering {
            1int
        } else {
            0int
        },
        0 <= reported(start, inputs),
        renderings(start, inputs) <= inputs.len(),
    decreases inputs.len(),
{
    if inputs.len() > 0 {
        let last = inputs.len() - 1;
        lemma_obeys_before(start, inputs);
        lemma_frames_counted(start, inputs.drop_last());
        assert(loop_before(start, inputs, last).spec_accepts(inputs[last].1));
    }
}

/// The rate that was measured last, or 30 where none was.
pub open spec fn last_rate(inputs: Seq<LoopInput>) -> u32
    decreases inputs.len(),
{
    if inputs.len() == 0 {
        crate::session::INITIAL_FPS
    } else {
        match inputs.last().1 {
            LoopEvent::Measured { fps } => fps,
            _ => last_rate(inputs.drop_last()),
        }
    }
}

/// The clock reading at the last measurement, or at the start where there was none.
pub open spec fn last_reading(start: u64, inputs: Seq<LoopInput>) -> u64
    decreases inputs.len(),
{
    if inputs.len() == 0 {
        start
    } else {
        match inputs.last().1 {
            LoopEvent::Rendered { now, elapsed } => if crate::session::is_second(elapsed) {
                now
            } else {
                last_reading(start, inputs.drop_last())
            },
            _ => last_reading(start, inputs.drop_last()),
        }
    }
}

/// The frames that were rendered since the last measurement, or since the start.
pub open spec fn frames_since(inputs: Seq<LoopInput>) -> int
    decreases inputs.len(),
{
    if inputs.len() == 0 {
        0
    } else {
        match inputs.last().1 {
            LoopEvent::Rendered { now, elapsed } => if crate::session::is_second(elapsed) {
                0
            } else {
                frames_since(inputs.drop_last()) + 1
            },
            _ => frames_since(inputs.drop_last()),
        }
    }
}

/// The loop knows the rate, the reading and the frames since the last measurement.
proof fn lemma_loop_state(start: u64, inputs: Seq<LoopInput>)
    requires
        inputs.len() <= u32::MAX,
    ensures
        loop_after(start, inputs).fps == last_rate(inputs),
        loop_after(start, inputs).since == last_reading(start, inputs),
        loop_after(start, inputs).frame_count == frames_since(inputs),
        0 <= frames_since(inputs) <= inputs.len(),
    decreases inputs.len(),
{
    if inputs.len() > 0 {
        lemma_loop_state(start, inputs.drop_last());
    }
}

/// The frame rate.  After a rendered frame the rate is measured exactly if a second or more has
/// elapsed since the last measurement, over all frames that were rendered since and over that
/// time; the count starts again at zero, from the reading after that frame.  The measured rate
/// follows.  Every frame is rendered at the rate that was measured last, and at 30 before the
/// first measurement.
pub proof fn lemma_frame_rate(start: u64, inputs: Seq<LoopInput>, i: int)
    requires
        obeys(start, inputs),
        inputs.len() <= u32::MAX,
        0 <= i < inputs.len(),
    ensures
        ({
            let before = inputs.take(i);
            let action = action_at(start, inputs, i);
            let after = loop_before(start, inputs, i + 1);
            &&& loop_before(start, inputs, i).since == last_reading(start, before)
            &&& action matches LoopAction::Render { fps, .. } ==> fps == last_rate(before)
            &&& inputs[i].1 matches LoopEvent::Rendered { now, elapsed } ==> {
                &&& action is Report <==> crate::session::is_second(elapsed)
                &&& action is Report ==> {
                    &&& action == (LoopAction::Report {
                        frames: (frames_since(before) + 1) as u32,
                        elapsed,
                    })
                    &&& after.frame_count == 0
                    &&& after.since == now
                    &&& i + 1 < inputs.len() ==> inputs[i + 1].1 is Measured
                }
            }
            &&& !(inputs[i].1 is Rendered) ==> !(action is Report)
            &&& inputs[i].1 matches LoopEvent::Measured { fps } ==> after.fps == fps
        }),
{
    lemma_loop_state(start, inputs.take(i));
    lemma_loop_advances(start, inputs, i);
    assert(loop_before(start, inputs, i).spec_accepts(inputs[i].1));
    if i + 1 < inputs.len() {
        assert(loop_before(start, inputs, i + 1).spec_accepts(inputs[i + 1].1));
    }
}

/// The loop starts waiting, with nothing counted, from the given reading, at a rate of 30 in
/// single precision.
pub proof fn lemma_loop_starts(start: u64)
    ensures
        ({
            let l = FrameLoop::initial(start);
            l.phase is Waiting && l.frame_count == 0 && l.since == start && l.fps == 0x41f0_0000
        }),
{
}

/// What the bits of an elapsed time say.  A double-precision number from zero upwards has the
/// bits `exponent * 2^52 + fraction` and, where the exponent is not zero, the value
/// `(2^52 + fraction) * 2^(exponent - 1075)`; where it is zero the value is below one.  It is a
/// second or more exactly if that value is at least 1000.  Infinity is more than a second; what
/// is not a number, and every number with a sign, is not.
pub proof fn lemma_second(exponent: nat, fraction: nat, bits: u64)
    requires
        exponent < 2047,
        fraction < 0x10_0000_0000_0000,
    ensures
        crate::session::is_second((exponent * 0x10_0000_0000_0000 + fraction) as u64) <==> exponent
            > 0 && (0x10_0000_0000_0000 + fraction) * vstd::arithmetic::power2::pow2(exponent)
            >= 1000 * vstd::arithmetic::power2::pow2(1075),
        crate::session::is_second(0x7ff0_0000_0000_0000),
        bits > 0x7ff0_0000_0000_0000 ==> !crate::session::is_second(bits),
{
    let top = 0x10_0000_0000_0000 + fraction;
    let p = vstd::arithmetic::power2::pow2(exponent) as int;
    let at = vstd::arithmetic::power2::pow2(1032) as int;
    vstd::arithmetic::power2::lemma_pow2_adds(1032, 43);
    vstd::arithmetic::power2::lemma2_to64();
    vstd::arithmetic::power2::lemma2_to64_rest();
    vstd::arithmetic::power2::lemma_pow2_pos(1032);
    vstd::arithmetic::power2::lemma_pow2_pos(exponent);
    let limit = 1000 * vstd::arithmetic::power2::pow2(1075) as int;
    assert(vstd::arithmetic::power2::pow2(43) == 0x800_0000_0000);
    assert(limit == 0x1f_4000_0000_0000 * at);
    if exponent < 1032 {
        vstd::arithmetic::power2::lemma_pow2_unfold((exponent + 1) as nat);
        if exponent + 1 < 1032 {
            vstd::arithmetic::power2::lemma_pow2_strictly_increases((exponent + 1) as nat, 1032);
        }
        assert(top * p < limit) by (nonlinear_arith)
            requires
                2 * p <= at,
                0 < p,
                0 < top < 0x20_0000_0000_0000,
                limit == 0x1f_4000_0000_0000 * at,
        ;
    } else if exponent > 1032 {
        vstd::arithmetic::power2::lemma_pow2_unfold(1033);
        if exponent > 1033 {
            vstd::arithmetic::power2::lemma_pow2_strictly_increases(1033, exponent);
        }
        assert(top * p >= limit) by (nonlinear_arith)
            requires
                p >= 2 * at,
                0 < at,
                0x10_0000_0000_0000 <= top,
                limit == 0x1f_4000_0000_0000 * at,
        ;
    } else {
        assert(top * p >= limit <==> top >= 0x1f_4000_0000_0000) by (nonlinear_arith)
            requires
                p == at,
                0 < at,
                limit == 0x1f_4000_0000_0000 * at,
        ;
    }
}

/// The loop never ends by itself: it always waits for an event, and for one kind only.
pub proof fn lemma_loop_goes_on(
    l: FrameLoop,
    success: bool,
    now: u64,
    elapsed: u64,
    fps: u32,
)
    ensures
        l.spec_accepts(LoopEvent::AnimationFrame) <==> l.phase is Waiting,
        l.spec_accepts(LoopEvent::Grabbed { success }) <==> l.phase is Grabbing,
        l.spec_accepts(LoopEvent::Rendered { now, elapsed }) <==> l.phase is Rendering,
        l.spec_accepts(LoopEvent::Measured { fps }) <==> l.phase is Measuring,
        l.phase is Waiting || l.phase is Grabbing || l.phase is Rendering || l.phase is Measuring,
{
}

} // verus!
