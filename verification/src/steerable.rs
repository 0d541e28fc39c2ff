//! The steerable pyramid: sizes, buffers, parameter blocks and the commands of a frame.
//!
//! A frame is converted to luminance and chrominance, its luminance transformed and split into
//! oriented sub-bands.  In each sub-band the motion between frames is a change of phase, which
//! is filtered in time, amplified and written back; the sub-bands are then summed up again.

use crate::arith;
use crate::gpu;
use crate::gpu::{BufferSpec, Usage, Workgroups};
use crate::words;
use vstd::prelude::*;

pub mod flow;
pub mod laws;

verus! {

/// The number of scales of the standard pyramid.
pub const N_SCALES: u32 = 3;

/// The number of orientations of the standard pyramid.
pub const N_ORIENT: u32 = 4;

/// The number of sub-bands of the standard pyramid.
pub const N_BAND: usize = 12;

// ── Parameter blocks ──

/// Parameters of the colour conversions: frame size and padded size.
#[derive(Clone, Copy, PartialEq, Eq, Structural, Debug)]
pub struct ColorParams {
    pub ow: u32,
    pub oh: u32,
    pub pw: u32,
    pub ph: u32,
}

impl ColorParams {
    /// The block as the shaders lay it out.
    pub open spec fn layout(self) -> Seq<u32> {
        seq![self.ow, self.oh, self.pw, self.ph]
    }

    /// The words of the block.
    pub fn words(&self) -> (r: Vec<u32>)
        ensures
            r@ == self.layout(),
    {
        let r: Vec<u32> = vec![self.ow, self.oh, self.pw, self.ph];
        assert(r@ =~= self.layout());
        r
    }
}

/// Parameters of a pass of transforms: their length and its logarithm, their number, whether
/// they are inverse, the distance of the elements of one and the distance of their starts.
#[derive(Clone, Copy, PartialEq, Eq, Structural, Debug)]
pub struct FftParams {
    pub n: u32,
    pub log2n: u32,
    pub num: u32,
    pub inv: u32,
    pub stride: u32,
    pub fft_stride: u32,
}

impl FftParams {
    /// The block as the shaders lay it out, padded to eight words.
    pub open spec fn layout(self) -> Seq<u32> {
        seq![self.n, self.log2n, self.num, self.inv, self.stride, self.fft_stride, 0u32, 0u32]
    }

    /// The words of the block.
    pub fn words(&self) -> (r: Vec<u32>)
        ensures
            r@ == self.layout(),
    {
        let r: Vec<u32> = vec![
            self.n,
            self.log2n,
            self.num,
            self.inv,
            self.stride,
            self.fft_stride,
            0u32,
            0u32,
        ];
        assert(r@ =~= self.layout());
        r
    }

    /// The position of element `i` of transform `k`.
    pub open spec fn position(self, k: int, i: int) -> int {
        k * self.fft_stride + i * self.stride
    }
}

/// Parameters of a filter of the bank.  `ftype` is 0 for a sub-band, 1 for the high-pass and 2
/// for the low-pass residual; `mode` is 1 where the squared filter is accumulated.
#[derive(Clone, Copy, PartialEq, Eq, Structural, Debug)]
pub struct FilterParams {
    pub w: u32,
    pub h: u32,
    pub norient: u32,
    pub oidx: u32,
    pub scale: u32,
    pub nscales: u32,
    pub ftype: u32,
    pub mode: u32,
}

impl FilterParams {
    /// The block as the shaders lay it out.
    pub open spec fn layout(self) -> Seq<u32> {
        seq![
            self.w,
            self.h,
            self.norient,
            self.oidx,
            self.scale,
            self.nscales,
            self.ftype,
            self.mode,
        ]
    }

    /// The words of the block.
    pub fn words(&self) -> (r: Vec<u32>)
        ensures
            r@ == self.layout(),
    {
        let r: Vec<u32> = vec![
            self.w,
            self.h,
            self.norient,
            self.oidx,
            self.scale,
            self.nscales,
            self.ftype,
            self.mode,
        ];
        assert(r@ =~= self.layout());
        r
    }
}

/// Parameters of the phase amplification.  `amp` (amplification), `al` and `ah` (the
/// coefficients of the two low-pass filters) are the bits of single-precision values; `first`
/// is 1 on the first frame.
#[derive(Clone, Copy, PartialEq, Eq, Structural, Debug)]
pub struct PhaseParams {
    pub w: u32,
    pub h: u32,
    pub amp: u32,
    pub al: u32,
    pub ah: u32,
    pub first: u32,
}

impl PhaseParams {
    /// The block as the shaders lay it out, padded to eight words.
    pub open spec fn layout(self) -> Seq<u32> {
        seq![self.w, self.h, self.amp, self.al, self.ah, self.first, 0u32, 0u32]
    }

    /// The words of the block.
    pub fn words(&self) -> (r: Vec<u32>)
        ensures
            r@ == self.layout(),
    {
        let r: Vec<u32> = vec![
            self.w,
            self.h,
            self.amp,
            self.al,
            self.ah,
            self.first,
            0u32,
            0u32,
        ];
        assert(r@ =~= self.layout());
        r
    }
}

/// Parameters of the final drawing: the frame size.
#[derive(Clone, Copy, PartialEq, Eq, Structural, Debug)]
pub struct BlitParams {
    pub w: u32,
    pub h: u32,
}

impl BlitParams {
    /// The block as the shaders lay it out.
    pub open spec fn layout(self) -> Seq<u32> {
        seq![self.w, self.h]
    }

    /// The words of the block.
    pub fn words(&self) -> (r: Vec<u32>)
        ensures
            r@ == self.layout(),
    {
        let r: Vec<u32> = vec![self.w, self.h];
        assert(r@ =~= self.layout());
        r
    }
}

// ── Resources ──

/// The parameter blocks of the pipeline.
#[derive(Clone, Copy, PartialEq, Eq, Hash, Structural, Debug)]
pub enum Uniform {
    Color,
    Blit,
    Phase,
    RowForward,
    ColumnForward,
    RowInverse,
    ColumnInverse,
    /// Analysis filter of a sub-band.
    Filter(u32),
    /// Synthesis filter of a sub-band.
    FilterAccumulate(u32),
    ResidualHigh,
    ResidualLow,
}

/// The storage buffers of the pipeline.
#[derive(Clone, Copy, PartialEq, Eq, Hash, Structural, Debug)]
pub enum Storage {
    /// The frame that comes in.
    RgbaIn,
    /// The frame that goes out.
    RgbaOut,
    Y,
    I,
    Q,
    /// All zeros, never written by a command.
    Zeros,
    SpectrumRe,
    SpectrumIm,
    AccumulatorRe,
    AccumulatorIm,
    OutY,
    /// The imaginary part of the result, which nobody reads.
    DiscardIm,
    /// Between the two passes of a transform.
    TmpRe,
    TmpIm,
    BandSpectrumRe,
    BandSpectrumIm,
    BandRe,
    BandIm,
    ModifiedRe,
    ModifiedIm,
    ModifiedSpectrumRe,
    ModifiedSpectrumIm,
    /// State of a sub-band that lasts from frame to frame.
    PrevRe(u32),
    PrevIm(u32),
    LowpassHigh(u32),
    LowpassLow(u32),
}

/// What can be bound to a shader.
#[derive(Clone, Copy, PartialEq, Eq, Structural, Debug)]
pub enum Resource {
    Uniform(Uniform),
    Storage(Storage),
}

impl Uniform {
    /// The use of a parameter block's buffer: bound as a uniform and uploaded to.
    pub open spec fn spec_usage(self) -> Usage {
        Usage::Uniform
    }

    /// The use of a parameter block's buffer.
    pub fn usage(self) -> (r: Usage)
        ensures
            r == self.spec_usage(),
    {
        Usage::Uniform
    }
}

impl Resource {
    /// The use of a resource's buffer.
    pub open spec fn spec_usage(self) -> Usage {
        match self {
            Resource::Uniform(u) => u.spec_usage(),
            Resource::Storage(s) => SteerablePipeline::usage_of(s),
        }
    }
}

/// The compute shaders.
#[derive(Clone, Copy, PartialEq, Eq, Hash, Structural, Debug)]
pub enum Kernel {
    RgbaToY,
    YiqToRgba,
    Fft,
    Filter,
    FilterAccumulate,
    PhaseAmplify,
}

/// A command of a frame.  The position of a resource in `bindings` is its binding number.
#[derive(Debug)]
pub enum Command {
    Dispatch { kernel: Kernel, bindings: Vec<Resource>, groups: Workgroups },
    Copy { source: Storage, target: Storage, size: u64 },
    /// Draws two triangles over the whole canvas.
    Blit { bindings: Vec<Resource>, vertices: u32 },
}

/// A command with its bindings as a sequence.
pub enum CommandView {
    Dispatch { kernel: Kernel, bindings: Seq<Resource>, groups: Workgroups },
    Copy { source: Storage, target: Storage, size: u64 },
    Blit { bindings: Seq<Resource>, vertices: u32 },
}

impl View for Command {
    type V = CommandView;

    open spec fn view(&self) -> CommandView {
        match self {
            Command::Dispatch { kernel, bindings, groups } => CommandView::Dispatch {
                kernel: *kernel,
                bindings: bindings@,
                groups: *groups,
            },
            Command::Copy { source, target, size } => CommandView::Copy {
                source: *source,
                target: *target,
                size: *size,
            },
            Command::Blit { bindings, vertices } => CommandView::Blit {
                bindings: bindings@,
                vertices: *vertices,
            },
        }
    }
}

/// Commands with their bindings as sequences.
pub open spec fn views(commands: Seq<Command>) -> Seq<CommandView> {
    Seq::new(commands.len(), |i: int| commands[i]@)
}

/// What a frame asks for: the pixels and the phase parameters to be uploaded and, where there
/// is a texture to draw on, the commands to be submitted.
#[derive(Debug)]
pub struct FramePlan<'a> {
    pub rgba: &'a [u8],
    pub phase: PhaseParams,
    pub commands: Option<Vec<Command>>,
}

// ── Sizes ──

/// The padded length of a side: the next power of two, but no longer than a transform may be.
pub open spec fn padded(side: int, max_fft: int) -> int {
    if arith::power_above(side) <= max_fft {
        arith::power_above(side)
    } else {
        max_fft
    }
}

/// The sizes whose byte counts fit the 32-bit arithmetic of the shaders, and pyramids whose
/// sub-bands can be numbered.
pub open spec fn supported(w: int, h: int, max_fft: int, n_scales: int, n_orient: int) -> bool {
    &&& 1 <= w <= 0x8000_0000
    &&& 1 <= h <= 0x8000_0000
    &&& 1 <= max_fft
    &&& w * h <= u32::MAX
    &&& padded(w, max_fft) * padded(h, max_fft) * 4 <= u32::MAX
    &&& n_scales * n_orient <= u32::MAX
}

/// The scale of a sub-band.
pub open spec fn band_scale(n_orient: u32, band: int) -> int {
    band / (n_orient as int)
}

/// The orientation of a sub-band.
pub open spec fn band_orient(n_orient: u32, band: int) -> int {
    band % (n_orient as int)
}

/// The plan of a steerable pyramid for one frame size.
#[derive(Clone, Copy, PartialEq, Eq, Structural, Debug)]
pub struct SteerablePipeline {
    /// Frame size.
    pub ow: u32,
    pub oh: u32,
    /// Padded size.
    pub pw: u32,
    pub ph: u32,
    /// Shape of the pyramid.
    pub n_scales: u32,
    pub n_orient: u32,
    /// No frame has been rendered since the state of the sub-bands was last reset.
    pub first_frame: bool,
}

impl SteerablePipeline {
    /// The sizes are positive and their products fit.
    pub open spec fn wf(self) -> bool {
        &&& 1 <= self.ow
        &&& 1 <= self.oh
        &&& 1 <= self.pw
        &&& 1 <= self.ph
        &&& self.ow * self.oh <= u32::MAX
        &&& self.pw * self.ph * 4 <= u32::MAX
        &&& self.n_scales * self.n_orient <= u32::MAX
    }

    /// The number of sub-bands.
    pub open spec fn bands(self) -> int {
        self.n_scales * self.n_orient
    }

    /// Bytes of a padded plane.
    pub open spec fn plane_bytes(self) -> u64 {
        (self.pw * self.ph * 4) as u64
    }

    /// Bytes of a frame.
    pub open spec fn frame_size(self) -> u64 {
        (self.ow * self.oh * 4) as u64
    }

    // ── Buffers ──

    /// The size of a buffer.
    pub open spec fn size_of(self, s: Storage) -> u64 {
        match s {
            Storage::RgbaIn => self.frame_size(),
            Storage::RgbaOut => self.frame_size(),
            _ => self.plane_bytes(),
        }
    }

    /// The use of a buffer: all can be copied from and to, but for the outgoing frame.
    pub open spec fn usage_of(s: Storage) -> Usage {
        match s {
            Storage::RgbaOut => Usage::StorageTarget,
            _ => Usage::StorageBoth,
        }
    }

    /// A buffer to be created.
    pub open spec fn spec_buffer(self, s: Storage) -> BufferSpec<Storage> {
        BufferSpec { id: s, size: self.size_of(s), usage: Self::usage_of(s) }
    }

    /// The buffers that do not depend on the number of sub-bands.
    pub open spec fn shared_storage() -> Seq<Storage> {
        seq![
            Storage::RgbaIn,
            Storage::RgbaOut,
            Storage::Y,
            Storage::I,
            Storage::Q,
            Storage::Zeros,
            Storage::SpectrumRe,
            Storage::SpectrumIm,
            Storage::AccumulatorRe,
            Storage::AccumulatorIm,
            Storage::OutY,
            Storage::DiscardIm,
            Storage::TmpRe,
            Storage::TmpIm,
            Storage::BandSpectrumRe,
            Storage::BandSpectrumIm,
            Storage::BandRe,
            Storage::BandIm,
            Storage::ModifiedRe,
            Storage::ModifiedIm,
            Storage::ModifiedSpectrumRe,
            Storage::ModifiedSpectrumIm,
        ]
    }

    /// All buffers, in the order in which they are created.
    pub open spec fn storage(self) -> Seq<Storage> {
        let n = self.bands() as nat;
        Self::shared_storage() + Seq::new(n, |i: int| Storage::PrevRe(i as u32)) + Seq::new(
            n,
            |i: int| Storage::PrevIm(i as u32),
        ) + Seq::new(n, |i: int| Storage::LowpassHigh(i as u32)) + Seq::new(
            n,
            |i: int| Storage::LowpassLow(i as u32),
        )
    }

    /// All buffers to be created, in order.
    pub open spec fn spec_buffers(self) -> Seq<BufferSpec<Storage>> {
        Seq::new(self.storage().len(), |i: int| self.spec_buffer(self.storage()[i]))
    }

    // ── Parameter blocks ──

    /// The parameter blocks, in the order in which they are created.
    pub open spec fn spec_uniforms(self) -> Seq<Uniform> {
        let n = self.bands() as nat;
        seq![
            Uniform::Color,
            Uniform::Blit,
            Uniform::Phase,
            Uniform::RowForward,
            Uniform::ColumnForward,
            Uniform::RowInverse,
            Uniform::ColumnInverse,
        ] + Seq::new(n, |i: int| Uniform::Filter(i as u32)) + Seq::new(
            n,
            |i: int| Uniform::FilterAccumulate(i as u32),
        ) + seq![Uniform::ResidualHigh, Uniform::ResidualLow]
    }

    /// The transforms of all rows.
    pub open spec fn row_params(self, inv: u32) -> FftParams {
        FftParams {
            n: self.pw,
            log2n: arith::exponent_below(self.pw as int) as u32,
            num: self.ph,
            inv,
            stride: 1,
            fft_stride: self.pw,
        }
    }

    /// The transforms of all columns.
    pub open spec fn column_params(self, inv: u32) -> FftParams {
        FftParams {
            n: self.ph,
            log2n: arith::exponent_below(self.ph as int) as u32,
            num: self.pw,
            inv,
            stride: self.pw,
            fft_stride: 1,
        }
    }

    /// The filter of a sub-band.
    pub open spec fn band_params(self, band: int) -> FilterParams {
        FilterParams {
            w: self.pw,
            h: self.ph,
            norient: self.n_orient,
            oidx: band_orient(self.n_orient, band) as u32,
            scale: band_scale(self.n_orient, band) as u32,
            nscales: self.n_scales,
            ftype: 0,
            mode: 0,
        }
    }

    /// The filter of a residual.
    pub open spec fn residual_params(self, ftype: u32) -> FilterParams {
        FilterParams {
            w: self.pw,
            h: self.ph,
            norient: self.n_orient,
            oidx: 0,
            scale: 0,
            nscales: self.n_scales,
            ftype,
            mode: 1,
        }
    }

    /// The phase parameters of the next frame.
    pub open spec fn spec_phase_params(self, amp: u32, al: u32, ah: u32) -> PhaseParams {
        PhaseParams {
            w: self.pw,
            h: self.ph,
            amp,
            al,
            ah,
            first: if self.first_frame {
                1
            } else {
                0
            },
        }
    }

    /// What a parameter block holds when it is created.
    pub open spec fn uniform_layout(self, u: Uniform) -> Seq<u32> {
        match u {
            Uniform::Color => (ColorParams {
                ow: self.ow,
                oh: self.oh,
                pw: self.pw,
                ph: self.ph,
            }).layout(),
            Uniform::Blit => (BlitParams { w: self.ow, h: self.oh }).layout(),
            Uniform::Phase => (PhaseParams {
                w: self.pw,
                h: self.ph,
                amp: 0,
                al: 0,
                ah: 0,
                first: 1,
            }).layout(),
            Uniform::RowForward => self.row_params(0).layout(),
            Uniform::ColumnForward => self.column_params(0).layout(),
            Uniform::RowInverse => self.row_params(1).layout(),
            Uniform::ColumnInverse => self.column_params(1).layout(),
            Uniform::Filter(band) => self.band_params(band as int).layout(),
            Uniform::FilterAccumulate(band) => self.band_params(band as int).layout(),
            Uniform::ResidualHigh => self.residual_params(1).layout(),
            Uniform::ResidualLow => self.residual_params(2).layout(),
        }
    }

    // ── Commands ──

    /// One workgroup of 16 by 16 for each tile of the padded image.
    pub open spec fn padded_groups(self) -> Workgroups {
        crate::gpu::tiles(self.pw, self.ph, 16, 16, 1)
    }

    /// One workgroup of 16 by 16 for each tile of the frame.
    pub open spec fn frame_groups(self) -> Workgroups {
        crate::gpu::tiles(self.ow, self.oh, 16, 16, 1)
    }

    /// A pass of transforms, one workgroup each.
    pub open spec fn fft_command(
        params: Uniform,
        in_re: Storage,
        in_im: Storage,
        out_re: Storage,
        out_im: Storage,
        num: u32,
    ) -> CommandView {
        CommandView::Dispatch {
            kernel: Kernel::Fft,
            bindings: seq![
                Resource::Uniform(params),
                Resource::Storage(in_re),
                Resource::Storage(in_im),
                Resource::Storage(out_re),
                Resource::Storage(out_im),
            ],
            groups: Workgroups { x: num, y: 1, z: 1 },
        }
    }

    /// A filter that is applied and added to the accumulated spectrum.
    pub open spec fn accumulate_command(self, params: Uniform, re: Storage, im: Storage) -> CommandView {
        CommandView::Dispatch {
            kernel: Kernel::FilterAccumulate,
            bindings: seq![
                Resource::Uniform(params),
                Resource::Storage(re),
                Resource::Storage(im),
                Resource::Storage(Storage::AccumulatorRe),
                Resource::Storage(Storage::AccumulatorIm),
            ],
            groups: self.padded_groups(),
        }
    }

    /// The commands before the sub-bands: conversion, transform and a cleared accumulator.
    pub open spec fn head(self) -> Seq<CommandView> {
        seq![
            CommandView::Dispatch {
                kernel: Kernel::RgbaToY,
                bindings: seq![
                    Resource::Uniform(Uniform::Color),
                    Resource::Storage(Storage::RgbaIn),
                    Resource::Storage(Storage::Y),
                    Resource::Storage(Storage::I),
                    Resource::Storage(Storage::Q),
                ],
                groups: self.padded_groups(),
            },
            Self::fft_command(
                Uniform::RowForward,
                Storage::Y,
                Storage::Zeros,
                Storage::TmpRe,
                Storage::TmpIm,
                self.ph,
            ),
            Self::fft_command(
                Uniform::ColumnForward,
                Storage::TmpRe,
                Storage::TmpIm,
                Storage::SpectrumRe,
                Storage::SpectrumIm,
                self.pw,
            ),
            CommandView::Copy {
                source: Storage::Zeros,
                target: Storage::AccumulatorRe,
                size: self.plane_bytes(),
            },
            CommandView::Copy {
                source: Storage::Zeros,
                target: Storage::AccumulatorIm,
                size: self.plane_bytes(),
            },
        ]
    }

    /// The commands of one sub-band: filter, inverse transform, phase amplification, forward
    /// transform, filter and accumulate.
    pub open spec fn band(self, k: int) -> Seq<CommandView> {
        let band = k as u32;
        seq![
            CommandView::Dispatch {
                kernel: Kernel::Filter,
                bindings: seq![
                    Resource::Uniform(Uniform::Filter(band)),
                    Resource::Storage(Storage::SpectrumRe),
                    Resource::Storage(Storage::SpectrumIm),
                    Resource::Storage(Storage::BandSpectrumRe),
                    Resource::Storage(Storage::BandSpectrumIm),
                ],
                groups: self.padded_groups(),
            },
            Self::fft_command(
                Uniform::ColumnInverse,
                Storage::BandSpectrumRe,
                Storage::BandSpectrumIm,
                Storage::TmpRe,
                Storage::TmpIm,
                self.pw,
            ),
            Self::fft_command(
                Uniform::RowInverse,
                Storage::TmpRe,
                Storage::TmpIm,
                Storage::BandRe,
                Storage::BandIm,
                self.ph,
            ),
            CommandView::Dispatch {
                kernel: Kernel::PhaseAmplify,
                bindings: seq![
                    Resource::Uniform(Uniform::Phase),
                    Resource::Storage(Storage::BandRe),
                    Resource::Storage(Storage::BandIm),
                    Resource::Storage(Storage::PrevRe(band)),
                    Resource::Storage(Storage::PrevIm(band)),
                    Resource::Storage(Storage::LowpassHigh(band)),
                    Resource::Storage(Storage::LowpassLow(band)),
                    Resource::Storage(Storage::ModifiedRe),
                    Resource::Storage(Storage::ModifiedIm),
                ],
                groups: self.padded_groups(),
            },
            Self::fft_command(
                Uniform::RowForward,
                Storage::ModifiedRe,
                Storage::ModifiedIm,
                Storage::TmpRe,
                Storage::TmpIm,
                self.ph,
            ),
            Self::fft_command(
                Uniform::ColumnForward,
                Storage::TmpRe,
                Storage::TmpIm,
                Storage::ModifiedSpectrumRe,
                Storage::ModifiedSpectrumIm,
                self.pw,
            ),
            self.accumulate_command(
                Uniform::FilterAccumulate(band),
                Storage::ModifiedSpectrumRe,
                Storage::ModifiedSpectrumIm,
            ),
        ]
    }

    /// The commands of the first `k` sub-bands.
    pub open spec fn bands_before(self, k: int) -> Seq<CommandView>
        decreases k,
    {
        if k <= 0 {
            Seq::empty()
        } else {
            self.bands_before(k - 1) + self.band(k - 1)
        }
    }

    /// The commands after the sub-bands: residuals, inverse transform, conversion, drawing.
    pub open spec fn tail(self) -> Seq<CommandView> {
        seq![
            self.accumulate_command(
                Uniform::ResidualHigh,
                Storage::SpectrumRe,
                Storage::SpectrumIm,
            ),
            self.accumulate_command(
                Uniform::ResidualLow,
                Storage::SpectrumRe,
                Storage::SpectrumIm,
            ),
            Self::fft_command(
                Uniform::ColumnInverse,
                Storage::AccumulatorRe,
                Storage::AccumulatorIm,
                Storage::TmpRe,
                Storage::TmpIm,
                self.pw,
            ),
            Self::fft_command(
                Uniform::RowInverse,
                Storage::TmpRe,
                Storage::TmpIm,
                Storage::OutY,
                Storage::DiscardIm,
                self.ph,
            ),
            CommandView::Dispatch {
                kernel: Kernel::YiqToRgba,
                bindings: seq![
                    Resource::Uniform(Uniform::Color),
                    Resource::Storage(Storage::OutY),
                    Resource::Storage(Storage::I),
                    Resource::Storage(Storage::Q),
                    Resource::Storage(Storage::RgbaOut),
                ],
                groups: self.frame_groups(),
            },
            CommandView::Blit {
                bindings: seq![
                    Resource::Uniform(Uniform::Blit),
                    Resource::Storage(Storage::RgbaOut),
                ],
                vertices: 6,
            },
        ]
    }

    /// The commands of a frame.
    pub open spec fn frame_commands(self) -> Seq<CommandView> {
        self.head() + self.bands_before(self.bands()) + self.tail()
    }

    // ── Construction ──

    /// The plan of a pyramid before its first frame.
    pub open spec fn planned(
        w: u32,
        h: u32,
        max_fft: u32,
        n_scales: u32,
        n_orient: u32,
    ) -> SteerablePipeline {
        SteerablePipeline {
            ow: w,
            oh: h,
            pw: padded(w as int, max_fft as int) as u32,
            ph: padded(h as int, max_fft as int) as u32,
            n_scales,
            n_orient,
            first_frame: true,
        }
    }

    /// Plans a pyramid of `n_scales` by `n_orient` sub-bands for frames of `w` by `h` pixels
    /// on a device whose transforms are at most `max_fft` long.
    pub fn new(w: u32, h: u32, max_fft: u32, n_scales: u32, n_orient: u32) -> (r: Self)
        requires
            supported(w as int, h as int, max_fft as int, n_scales as int, n_orient as int),
        ensures
            r.wf(),
            r == Self::planned(w, h, max_fft, n_scales, n_orient),
            r.ow == w,
            r.oh == h,
            r.n_scales == n_scales,
            r.n_orient == n_orient,
            r.first_frame,
            r.pw == padded(w as int, max_fft as int),
            r.ph == padded(h as int, max_fft as int),
    {
        let full_w: u32 = arith::next_pow2(w);
        let full_h: u32 = arith::next_pow2(h);
        let pw: u32 = if full_w <= max_fft {
            full_w
        } else {
            max_fft
        };
        let ph: u32 = if full_h <= max_fft {
            full_h
        } else {
            max_fft
        };
        proof {
            arith::lemma_power_above(w as int);
            arith::lemma_power_above(h as int);
        }
        SteerablePipeline { ow: w, oh: h, pw, ph, n_scales, n_orient, first_frame: true }
    }

    /// The number of sub-bands.
    fn band_count(&self) -> (r: u32)
        requires
            self.wf(),
        ensures
            r == self.bands(),
    {
        self.n_scales * self.n_orient
    }

    /// Bytes of a padded plane.
    fn plane_size(&self) -> (r: u64)
        requires
            self.wf(),
        ensures
            r == self.plane_bytes(),
    {
        assert(self.pw * self.ph <= u32::MAX) by (nonlinear_arith)
            requires
                self.pw * self.ph * 4 <= u32::MAX,
        ;
        (self.pw * self.ph * 4) as u64
    }

    // ── Resources ──

    /// All buffers, in the order in which they are created.
    #[verifier::rlimit(40)]
    fn storage_list(&self) -> (r: Vec<Storage>)
        requires
            self.wf(),
        ensures
            r@ == self.storage(),
    {
        let mut r: Vec<Storage> = vec![
            Storage::RgbaIn,
            Storage::RgbaOut,
            Storage::Y,
            Storage::I,
            Storage::Q,
            Storage::Zeros,
            Storage::SpectrumRe,
            Storage::SpectrumIm,
            Storage::AccumulatorRe,
            Storage::AccumulatorIm,
            Storage::OutY,
            Storage::DiscardIm,
            Storage::TmpRe,
            Storage::TmpIm,
            Storage::BandSpectrumRe,
            Storage::BandSpectrumIm,
            Storage::BandRe,
            Storage::BandIm,
            Storage::ModifiedRe,
            Storage::ModifiedIm,
            Storage::ModifiedSpectrumRe,
            Storage::ModifiedSpectrumIm,
        ];
        assert(r@ =~= Self::shared_storage());
        let n: u32 = self.band_count();
        let ghost a = r@;
        for i in 0..n
            invariant
                r@ == a + Seq::new(i as nat, |k: int| Storage::PrevRe(k as u32)),
        {
            r.push(Storage::PrevRe(i));
        }
        let ghost b = r@;
        for i in 0..n
            invariant
                r@ == b + Seq::new(i as nat, |k: int| Storage::PrevIm(k as u32)),
        {
            r.push(Storage::PrevIm(i));
        }
        let ghost c = r@;
        for i in 0..n
            invariant
                r@ == c + Seq::new(i as nat, |k: int| Storage::LowpassHigh(k as u32)),
        {
            r.push(Storage::LowpassHigh(i));
        }
        let ghost d = r@;
        for i in 0..n
            invariant
                r@ == d + Seq::new(i as nat, |k: int| Storage::LowpassLow(k as u32)),
        {
            r.push(Storage::LowpassLow(i));
        }
        r
    }

    /// A buffer to be created.
    pub fn buffer(&self, s: Storage) -> (r: BufferSpec<Storage>)
        requires
            self.wf(),
        ensures
            r == self.spec_buffer(s),
    {
        match s {
            Storage::RgbaIn => BufferSpec {
                id: s,
                size: (self.ow * self.oh) as u64 * 4,
                usage: Usage::StorageBoth,
            },
            Storage::RgbaOut => BufferSpec {
                id: s,
                size: (self.ow * self.oh) as u64 * 4,
                usage: Usage::StorageTarget,
            },
            _ => BufferSpec { id: s, size: self.plane_size(), usage: Usage::StorageBoth },
        }
    }

    /// The buffers to be created, in order.
    pub fn buffers(&self) -> (r: Vec<BufferSpec<Storage>>)
        requires
            self.wf(),
        ensures
            r@ == self.spec_buffers(),
    {
        let ids = self.storage_list();
        let mut r: Vec<BufferSpec<Storage>> = Vec::new();
        for i in 0..ids.len()
            invariant
                self.wf(),
                ids@ == self.storage(),
                r@ == Seq::new(i as nat, |k: int| self.spec_buffer(self.storage()[k])),
        {
            r.push(self.buffer(ids[i]));
        }
        r
    }

    /// What `Storage::Zeros` holds.
    pub fn zeros(&self) -> (r: Vec<u8>)
        requires
            self.wf(),
        ensures
            r@ == Seq::new(self.plane_bytes() as nat, |i: int| 0u8),
            r@.len() == self.pw * self.ph * 4,
            forall|i: int| 0 <= i < r@.len() ==> r@[i] == 0,
    {
        assert(0 <= self.pw * self.ph) by (nonlinear_arith);
        let r: Vec<u8> = vec![0u8; self.plane_size() as usize];
        assert(r@ =~= Seq::new(self.plane_bytes() as nat, |i: int| 0u8));
        r
    }

    /// The parameter blocks to be created, in order.
    pub fn uniforms(&self) -> (r: Vec<Uniform>)
        requires
            self.wf(),
        ensures
            r@ == self.spec_uniforms(),
    {
        let mut r: Vec<Uniform> = vec![
            Uniform::Color,
            Uniform::Blit,
            Uniform::Phase,
            Uniform::RowForward,
            Uniform::ColumnForward,
            Uniform::RowInverse,
            Uniform::ColumnInverse,
        ];
        let n: u32 = self.band_count();
        let ghost a = r@;
        for i in 0..n
            invariant
                r@ == a + Seq::new(i as nat, |k: int| Uniform::Filter(k as u32)),
        {
            r.push(Uniform::Filter(i));
        }
        let ghost b = r@;
        for i in 0..n
            invariant
                r@ == b + Seq::new(i as nat, |k: int| Uniform::FilterAccumulate(k as u32)),
        {
            r.push(Uniform::FilterAccumulate(i));
        }
        r.push(Uniform::ResidualHigh);
        r.push(Uniform::ResidualLow);
        r
    }

    /// The transforms of all rows, or of all columns.
    fn fft_params(&self, rows: bool, inv: u32) -> (r: FftParams)
        requires
            self.wf(),
        ensures
            rows ==> r == self.row_params(inv),
            !rows ==> r == self.column_params(inv),
    {
        if rows {
            FftParams {
                n: self.pw,
                log2n: arith::log2(self.pw),
                num: self.ph,
                inv,
                stride: 1,
                fft_stride: self.pw,
            }
        } else {
            FftParams {
                n: self.ph,
                log2n: arith::log2(self.ph),
                num: self.pw,
                inv,
                stride: self.pw,
                fft_stride: 1,
            }
        }
    }

    /// The filter of a sub-band.
    fn filter_params(&self, band: u32) -> (r: FilterParams)
        requires
            self.wf(),
            self.n_orient > 0,
        ensures
            r == self.band_params(band as int),
    {
        FilterParams {
            w: self.pw,
            h: self.ph,
            norient: self.n_orient,
            oidx: band % self.n_orient,
            scale: band / self.n_orient,
            nscales: self.n_scales,
            ftype: 0,
            mode: 0,
        }
    }

    /// The filter of a residual.
    fn residual(&self, ftype: u32) -> (r: FilterParams)
        ensures
            r == self.residual_params(ftype),
    {
        FilterParams {
            w: self.pw,
            h: self.ph,
            norient: self.n_orient,
            oidx: 0,
            scale: 0,
            nscales: self.n_scales,
            ftype,
            mode: 1,
        }
    }

    /// What a parameter block of the pipeline holds when it is created.
    pub fn uniform_words(&self, u: Uniform) -> (r: Vec<u32>)
        requires
            self.wf(),
            self.spec_uniforms().contains(u),
        ensures
            r@ == self.uniform_layout(u),
    {
        proof {
            self.lemma_band_uniforms(u);
        }
        match u {
            Uniform::Color => (ColorParams {
                ow: self.ow,
                oh: self.oh,
                pw: self.pw,
                ph: self.ph,
            }).words(),
            Uniform::Blit => (BlitParams { w: self.ow, h: self.oh }).words(),
            Uniform::Phase => (PhaseParams {
                w: self.pw,
                h: self.ph,
                amp: 0,
                al: 0,
                ah: 0,
                first: 1,
            }).words(),
            Uniform::RowForward => self.fft_params(true, 0).words(),
            Uniform::ColumnForward => self.fft_params(false, 0).words(),
            Uniform::RowInverse => self.fft_params(true, 1).words(),
            Uniform::ColumnInverse => self.fft_params(false, 1).words(),
            Uniform::Filter(band) => self.filter_params(band).words(),
            Uniform::FilterAccumulate(band) => self.filter_params(band).words(),
            Uniform::ResidualHigh => self.residual(1).words(),
            Uniform::ResidualLow => self.residual(2).words(),
        }
    }

    /// The filters of the pipeline belong to its sub-bands.
    proof fn lemma_band_uniforms(self, u: Uniform)
        requires
            self.wf(),
            self.spec_uniforms().contains(u),
        ensures
            u matches Uniform::Filter(band) ==> band < self.bands() && self.n_orient > 0,
            u matches Uniform::FilterAccumulate(band) ==> band < self.bands() && self.n_orient > 0,
    {
        let list = self.spec_uniforms();
        let i = choose|i: int| 0 <= i < list.len() && list[i] == u;
        assert(list[i] == u);
        let n = self.bands();
        assert(n >= 0) by (nonlinear_arith)
            requires
                n == self.n_scales * self.n_orient,
        ;
        if self.n_orient == 0 {
            assert(n == 0);
        }
        assert(list.len() == 9 + 2 * n);
        if 7 <= i < 7 + n {
            assert(u == Uniform::Filter((i - 7) as u32));
        } else if 7 + n <= i < 7 + 2 * n {
            assert(u == Uniform::FilterAccumulate((i - 7 - n) as u32));
        }
    }

    /// The phase parameters of the next frame.
    pub fn phase_params(&self, amp: u32, al: u32, ah: u32) -> (r: PhaseParams)
        ensures
            r == self.spec_phase_params(amp, al, ah),
            r.amp == amp,
            r.al == al,
            r.ah == ah,
    {
        PhaseParams {
            w: self.pw,
            h: self.ph,
            amp,
            al,
            ah,
            first: if self.first_frame {
                1
            } else {
                0
            },
        }
    }

    // ── Frames ──

    /// Appends the dispatch of a shader.
    fn dispatch(
        commands: &mut Vec<Command>,
        kernel: Kernel,
        bindings: Vec<Resource>,
        groups: Workgroups,
    )
        ensures
            views(final(commands)@) == views(old(commands)@).push(
                CommandView::Dispatch { kernel, bindings: bindings@, groups },
            ),
    {
        commands.push(Command::Dispatch { kernel, bindings, groups });
    }

    /// Appends a copy of a whole plane.
    fn copy_plane(&self, commands: &mut Vec<Command>, source: Storage, target: Storage)
        requires
            self.wf(),
        ensures
            views(final(commands)@) == views(old(commands)@).push(
                CommandView::Copy { source, target, size: self.plane_bytes() },
            ),
    {
        commands.push(Command::Copy { source, target, size: self.plane_size() });
    }

    /// Appends a pass of transforms.
    fn fft_pass(
        commands: &mut Vec<Command>,
        params: Uniform,
        in_re: Storage,
        in_im: Storage,
        out_re: Storage,
        out_im: Storage,
        num_ffts: u32,
    )
        ensures
            views(final(commands)@) == views(old(commands)@).push(
                Self::fft_command(params, in_re, in_im, out_re, out_im, num_ffts),
            ),
    {
        let bindings: Vec<Resource> = vec![
            Resource::Uniform(params),
            Resource::Storage(in_re),
            Resource::Storage(in_im),
            Resource::Storage(out_re),
            Resource::Storage(out_im),
        ];
        assert(bindings@ =~= Self::fft_command(
            params,
            in_re,
            in_im,
            out_re,
            out_im,
            num_ffts,
        )->Dispatch_bindings);
        Self::dispatch(commands, Kernel::Fft, bindings, Workgroups { x: num_ffts, y: 1, z: 1 });
    }

    /// Appends a filter that is added to the accumulated spectrum.
    fn accumulate(&self, commands: &mut Vec<Command>, params: Uniform, re: Storage, im: Storage)
        ensures
            views(final(commands)@) == views(old(commands)@).push(
                self.accumulate_command(params, re, im),
            ),
    {
        let bindings: Vec<Resource> = vec![
            Resource::Uniform(params),
            Resource::Storage(re),
            Resource::Storage(im),
            Resource::Storage(Storage::AccumulatorRe),
            Resource::Storage(Storage::AccumulatorIm),
        ];
        assert(bindings@ =~= self.accumulate_command(params, re, im)->Dispatch_bindings);
        Self::dispatch(
            commands,
            Kernel::FilterAccumulate,
            bindings,
            gpu::tile(self.pw, self.ph, 16, 16, 1),
        );
    }

    /// Appends the commands before the sub-bands.
    #[verifier::rlimit(40)]
    fn record_head(&self, commands: &mut Vec<Command>)
        requires
            self.wf(),
        ensures
            views(final(commands)@) == views(old(commands)@) + self.head(),
    {
        let bindings: Vec<Resource> = vec![
            Resource::Uniform(Uniform::Color),
            Resource::Storage(Storage::RgbaIn),
            Resource::Storage(Storage::Y),
            Resource::Storage(Storage::I),
            Resource::Storage(Storage::Q),
        ];
        assert(bindings@ =~= self.head()[0]->Dispatch_bindings);
        Self::dispatch(
            commands,
            Kernel::RgbaToY,
            bindings,
            gpu::tile(self.pw, self.ph, 16, 16, 1),
        );
        Self::fft_pass(
            commands,
            Uniform::RowForward,
            Storage::Y,
            Storage::Zeros,
            Storage::TmpRe,
            Storage::TmpIm,
            self.ph,
        );
        Self::fft_pass(
            commands,
            Uniform::ColumnForward,
            Storage::TmpRe,
            Storage::TmpIm,
            Storage::SpectrumRe,
            Storage::SpectrumIm,
            self.pw,
        );
        self.copy_plane(commands, Storage::Zeros, Storage::AccumulatorRe);
        self.copy_plane(commands, Storage::Zeros, Storage::AccumulatorIm);
        assert(views(commands@) =~= views(old(commands)@) + self.head());
    }

    /// Appends the commands of a sub-band.
    #[verifier::rlimit(40)]
    fn record_band(&self, commands: &mut Vec<Command>, band: u32)
        ensures
            views(final(commands)@) == views(old(commands)@) + self.band(band as int),
    {
        let filter: Vec<Resource> = vec![
            Resource::Uniform(Uniform::Filter(band)),
            Resource::Storage(Storage::SpectrumRe),
            Resource::Storage(Storage::SpectrumIm),
            Resource::Storage(Storage::BandSpectrumRe),
            Resource::Storage(Storage::BandSpectrumIm),
        ];
        assert(filter@ =~= self.band(band as int)[0]->Dispatch_bindings);
        Self::dispatch(
            commands,
            Kernel::Filter,
            filter,
            gpu::tile(self.pw, self.ph, 16, 16, 1),
        );
        Self::fft_pass(
            commands,
            Uniform::ColumnInverse,
            Storage::BandSpectrumRe,
            Storage::BandSpectrumIm,
            Storage::TmpRe,
            Storage::TmpIm,
            self.pw,
        );
        Self::fft_pass(
            commands,
            Uniform::RowInverse,
            Storage::TmpRe,
            Storage::TmpIm,
            Storage::BandRe,
            Storage::BandIm,
            self.ph,
        );
        let phase: Vec<Resource> = vec![
            Resource::Uniform(Uniform::Phase),
            Resource::Storage(Storage::BandRe),
            Resource::Storage(Storage::BandIm),
            Resource::Storage(Storage::PrevRe(band)),
            Resource::Storage(Storage::PrevIm(band)),
            Resource::Storage(Storage::LowpassHigh(band)),
            Resource::Storage(Storage::LowpassLow(band)),
            Resource::Storage(Storage::ModifiedRe),
            Resource::Storage(Storage::ModifiedIm),
        ];
        assert(phase@ =~= self.band(band as int)[3]->Dispatch_bindings);
        Self::dispatch(
            commands,
            Kernel::PhaseAmplify,
            phase,
            gpu::tile(self.pw, self.ph, 16, 16, 1),
        );
        Self::fft_pass(
            commands,
            Uniform::RowForward,
            Storage::ModifiedRe,
            Storage::ModifiedIm,
            Storage::TmpRe,
            Storage::TmpIm,
            self.ph,
        );
        Self::fft_pass(
            commands,
            Uniform::ColumnForward,
            Storage::TmpRe,
            Storage::TmpIm,
            Storage::ModifiedSpectrumRe,
            Storage::ModifiedSpectrumIm,
            self.pw,
        );
        self.accumulate(
            commands,
            Uniform::FilterAccumulate(band),
            Storage::ModifiedSpectrumRe,
            Storage::ModifiedSpectrumIm,
        );
        assert(views(commands@) =~= views(old(commands)@) + self.band(band as int));
    }

    /// Appends the commands after the sub-bands.
    #[verifier::rlimit(40)]
    fn record_tail(&self, commands: &mut Vec<Command>)
        ensures
            views(final(commands)@) == views(old(commands)@) + self.tail(),
    {
        self.accumulate(
            commands,
            Uniform::ResidualHigh,
            Storage::SpectrumRe,
            Storage::SpectrumIm,
        );
        self.accumulate(
            commands,
            Uniform::ResidualLow,
            Storage::SpectrumRe,
            Storage::SpectrumIm,
        );
        Self::fft_pass(
            commands,
            Uniform::ColumnInverse,
            Storage::AccumulatorRe,
            Storage::AccumulatorIm,
            Storage::TmpRe,
            Storage::TmpIm,
            self.pw,
        );
        Self::fft_pass(
            commands,
            Uniform::RowInverse,
            Storage::TmpRe,
            Storage::TmpIm,
            Storage::OutY,
            Storage::DiscardIm,
            self.ph,
        );
        let convert: Vec<Resource> = vec![
            Resource::Uniform(Uniform::Color),
            Resource::Storage(Storage::OutY),
            Resource::Storage(Storage::I),
            Resource::Storage(Storage::Q),
            Resource::Storage(Storage::RgbaOut),
        ];
        assert(convert@ =~= self.tail()[4]->Dispatch_bindings);
        Self::dispatch(
            commands,
            Kernel::YiqToRgba,
            convert,
            gpu::tile(self.ow, self.oh, 16, 16, 1),
        );
        let blit: Vec<Resource> = vec![
            Resource::Uniform(Uniform::Blit),
            Resource::Storage(Storage::RgbaOut),
        ];
        assert(blit@ =~= self.tail()[5]->Blit_bindings);
        let ghost before = views(commands@);
        commands.push(Command::Blit { bindings: blit, vertices: 6 });
        assert(views(commands@) =~= before.push(self.tail()[5]));
        assert(views(commands@) =~= views(old(commands)@) + self.tail());
    }

    /// Plans a frame: the pixels and the phase parameters are uploaded in any case; the
    /// commands follow, and the frame counts as rendered, where a texture to draw on could be
    /// acquired.  `amp`, `al` and `ah` are the bits of single-precision values.
    pub fn process_and_render<'a>(
        &mut self,
        frame: &'a [u32],
        amp: u32,
        al: u32,
        ah: u32,
        texture_acquired: bool,
    ) -> (r: FramePlan<'a>)
        requires
            old(self).wf(),
        ensures
            r.rgba@ == crate::words::le_bytes(frame@) || r.rgba@ == crate::words::be_bytes(frame@),
            r.phase == old(self).spec_phase_params(amp, al, ah),
            r.phase.w == old(self).pw,
            r.phase.h == old(self).ph,
            r.phase.amp == amp,
            r.phase.al == al,
            r.phase.ah == ah,
            r.phase.first == if old(self).first_frame {
                1u32
            } else {
                0u32
            },
            r.commands is Some <==> texture_acquired,
            r.commands matches Some(commands) ==> views(commands@) == old(self).frame_commands(),
            *final(self) == (SteerablePipeline {
                first_frame: old(self).first_frame && !texture_acquired,
                ..*old(self)
            }),
    {
        let rgba = words::upload_bytes(frame);
        let phase = self.phase_params(amp, al, ah);
        if !texture_acquired {
            return FramePlan { rgba, phase, commands: None };
        }
        let mut commands: Vec<Command> = Vec::new();
        self.record_head(&mut commands);
        let n: u32 = self.band_count();
        assert(views(commands@) =~= self.head() + self.bands_before(0));
        for i in 0..n
            invariant
                views(commands@) == self.head() + self.bands_before(i as int),
        {
            self.record_band(&mut commands, i);
            assert(views(commands@) =~= self.head() + self.bands_before(i + 1));
        }
        self.record_tail(&mut commands);
        self.first_frame = false;
        FramePlan { rgba, phase, commands: Some(commands) }
    }

    /// Is this a pyramid that can be planned?
    pub fn is_supported(w: u32, h: u32, max_fft: u32, n_scales: u32, n_orient: u32) -> (r: bool)
        ensures
            r == supported(
                w as int,
                h as int,
                max_fft as int,
                n_scales as int,
                n_orient as int,
            ),
    {
        if w < 1 || w > 0x8000_0000 || h < 1 || h > 0x8000_0000 || max_fft < 1 {
            return false;
        }
        let full_w: u32 = arith::next_pow2(w);
        let full_h: u32 = arith::next_pow2(h);
        let pw: u32 = if full_w <= max_fft {
            full_w
        } else {
            max_fft
        };
        let ph: u32 = if full_h <= max_fft {
            full_h
        } else {
            max_fft
        };
        proof {
            lemma_product(w, h);
            lemma_product(pw, ph);
            lemma_product(n_scales, n_orient);
        }
        let max: u128 = 0xffff_ffff;
        w as u128 * h as u128 <= max && pw as u128 * ph as u128 * 4 <= max && n_scales as u128
            * n_orient as u128 <= max
    }

    /// Forgets the motion seen so far: the next frame starts the sub-bands anew.
    pub fn reset_state(&mut self)
        ensures
            *final(self) == (SteerablePipeline { first_frame: true, ..*old(self) }),
    {
        self.first_frame = true;
    }
}

/// Products of two words are short enough to be computed.
proof fn lemma_product(a: u32, b: u32)
    ensures
        0 <= a * b <= 0xffff_ffff_0000_0000,
{
    assert(0 <= a * b <= 0xffff_ffff_0000_0000) by (nonlinear_arith)
        requires
            a <= 0xffff_ffff,
            b <= 0xffff_ffff,
    ;
}

} // verus!
