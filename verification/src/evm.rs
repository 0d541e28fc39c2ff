//! Eulerian magnification: a temporal bandpass on every pixel, whose result is amplified and
//! added back, planned for one frame size.

use crate::gpu;
use crate::gpu::{BufferSpec, GpuContext, Usage, Workgroups};
use crate::model::FrameParams;
use crate::words;
use vstd::prelude::*;

verus! {

/// Parameters of the bandpass.  The coefficients of the two low-pass filters and the
/// amplification are the bits of single-precision values.
#[derive(Clone, Copy, PartialEq, Eq, Structural, Debug)]
pub struct BandpassParams {
    pub width: u32,
    pub height: u32,
    pub alpha_low: u32,
    pub alpha_high: u32,
    pub amplification: u32,
}

impl BandpassParams {
    /// The block as the shaders lay it out, padded to eight words.
    pub open spec fn layout(self) -> Seq<u32> {
        seq![
            self.width,
            self.height,
            self.alpha_low,
            self.alpha_high,
            self.amplification,
            0u32,
            0u32,
            0u32,
        ]
    }

    /// The words of the block.
    pub fn words(&self) -> (r: Vec<u32>)
        ensures
            r@ == self.layout(),
    {
        let r: Vec<u32> = vec![
            self.width,
            self.height,
            self.alpha_low,
            self.alpha_high,
            self.amplification,
            0u32,
            0u32,
            0u32,
        ];
        assert(r@ =~= self.layout());
        r
    }
}

/// The buffers of the pipeline.
#[derive(Clone, Copy, PartialEq, Eq, Hash, Structural, Debug)]
pub enum Plane {
    FrameRgba,
    Chw,
    /// The two low-pass filters, which last from frame to frame.
    LowpassHigh,
    LowpassLow,
    OutputChw,
    OutputRgba,
    /// Read back by the program.
    Staging,
}

/// What can be bound to a shader.
#[derive(Clone, Copy, PartialEq, Eq, Hash, Structural, Debug)]
pub enum Resource {
    FrameParams,
    BandpassParams,
    Plane(Plane),
}

impl Resource {
    /// The use of a resource's buffer: parameter blocks are uniforms that can be uploaded to.
    pub open spec fn spec_usage(self) -> Usage {
        match self {
            Resource::FrameParams => Usage::Uniform,
            Resource::BandpassParams => Usage::Uniform,
            Resource::Plane(plane) => EvmPipeline::usage_of(plane),
        }
    }

    /// The use of a resource's buffer.
    pub fn usage(self) -> (r: Usage)
        ensures
            r == self.spec_usage(),
    {
        match self {
            Resource::FrameParams => Usage::Uniform,
            Resource::BandpassParams => Usage::Uniform,
            Resource::Plane(Plane::FrameRgba) => Usage::StorageBoth,
            Resource::Plane(Plane::OutputRgba) => Usage::StorageSource,
            Resource::Plane(Plane::Staging) => Usage::Staging,
            Resource::Plane(_) => Usage::Storage,
        }
    }
}

/// The compute shaders, each with the one bind group that is made for it.
#[derive(Clone, Copy, PartialEq, Eq, Hash, Structural, Debug)]
pub enum Kernel {
    RgbaToChw,
    Bandpass,
    ChwToRgba,
}

/// A command of a frame.
#[derive(Clone, Copy, PartialEq, Eq, Structural, Debug)]
pub enum Command {
    Dispatch { kernel: Kernel, groups: Workgroups },
    Copy { source: Plane, target: Plane, size: u64 },
}

/// What a frame asks for: pixels and parameters to be uploaded, and the commands to be
/// submitted together.
#[derive(Debug)]
pub struct FramePlan<'a> {
    pub frame: &'a [u8],
    pub bandpass: BandpassParams,
    pub commands: Vec<Command>,
}

/// The plan of the pipeline for one frame size.
#[derive(Clone, Copy, PartialEq, Eq, Structural, Debug)]
pub struct EvmPipeline {
    pub width: u32,
    pub height: u32,
}

impl EvmPipeline {
    /// There are pixels, and they can be counted.
    pub open spec fn wf(self) -> bool {
        &&& self.width > 0
        &&& self.height > 0
        &&& self.width * self.height <= u32::MAX
    }

    /// The number of words of a buffer: for each pixel one packed word, or one value for each
    /// channel.
    pub open spec fn words_of(self, plane: Plane) -> int {
        match plane {
            Plane::FrameRgba => self.width * self.height,
            Plane::Chw => 3 * (self.width * self.height),
            Plane::LowpassHigh => 3 * (self.width * self.height),
            Plane::LowpassLow => 3 * (self.width * self.height),
            Plane::OutputChw => 3 * (self.width * self.height),
            Plane::OutputRgba => self.width * self.height,
            Plane::Staging => self.width * self.height,
        }
    }

    /// The use of a buffer.
    pub open spec fn usage_of(plane: Plane) -> Usage {
        match plane {
            Plane::FrameRgba => Usage::StorageBoth,
            Plane::OutputRgba => Usage::StorageSource,
            Plane::Staging => Usage::Staging,
            _ => Usage::Storage,
        }
    }

    /// A buffer to be created.
    pub open spec fn spec_buffer(self, plane: Plane) -> BufferSpec<Plane> {
        BufferSpec {
            id: plane,
            size: (self.words_of(plane) * 4) as u64,
            usage: Self::usage_of(plane),
        }
    }

    /// The buffers, in the order in which they are created.
    pub open spec fn planes() -> Seq<Plane> {
        seq![
            Plane::FrameRgba,
            Plane::Chw,
            Plane::LowpassHigh,
            Plane::LowpassLow,
            Plane::OutputChw,
            Plane::OutputRgba,
            Plane::Staging,
        ]
    }

    /// The buffers to be created, in order.
    pub open spec fn spec_buffers(self) -> Seq<BufferSpec<Plane>> {
        Seq::new(Self::planes().len(), |i: int| self.spec_buffer(Self::planes()[i]))
    }

    /// What a shader's bind group binds.
    pub open spec fn spec_bind_group(kernel: Kernel) -> Seq<Resource> {
        match kernel {
            Kernel::RgbaToChw => seq![
                Resource::FrameParams,
                Resource::Plane(Plane::FrameRgba),
                Resource::Plane(Plane::Chw),
            ],
            Kernel::ChwToRgba => seq![
                Resource::FrameParams,
                Resource::Plane(Plane::OutputChw),
                Resource::Plane(Plane::OutputRgba),
            ],
            Kernel::Bandpass => seq![
                Resource::BandpassParams,
                Resource::Plane(Plane::Chw),
                Resource::Plane(Plane::LowpassHigh),
                Resource::Plane(Plane::LowpassLow),
                Resource::Plane(Plane::OutputChw),
            ],
        }
    }

    /// The parameters of the bandpass.
    pub open spec fn spec_bandpass_params(
        self,
        alpha_low: u32,
        alpha_high: u32,
        amplification: u32,
    ) -> BandpassParams {
        BandpassParams {
            width: self.width,
            height: self.height,
            alpha_low,
            alpha_high,
            amplification,
        }
    }

    /// The parameters of the conversions.
    pub open spec fn spec_frame_params(self) -> FrameParams {
        FrameParams { width: self.width, height: self.height, _pad0: 0, _pad1: 0 }
    }

    /// What a parameter block holds when it is created.
    pub open spec fn spec_contents(self, r: Resource) -> Seq<u32> {
        match r {
            Resource::FrameParams => self.spec_frame_params().layout(),
            Resource::BandpassParams => self.spec_bandpass_params(0, 0, 0).layout(),
            Resource::Plane(plane) => Seq::empty(),
        }
    }

    /// The commands of a frame.
    pub open spec fn frame_commands(self) -> Seq<Command> {
        seq![
            Command::Dispatch {
                kernel: Kernel::RgbaToChw,
                groups: gpu::tiles(self.width, self.height, 64, 16, 1),
            },
            Command::Dispatch {
                kernel: Kernel::Bandpass,
                groups: gpu::tiles(self.width, self.height, 16, 16, 1),
            },
            Command::Dispatch {
                kernel: Kernel::ChwToRgba,
                groups: gpu::tiles(self.width, self.height, 64, 16, 1),
            },
            Command::Copy {
                source: Plane::OutputRgba,
                target: Plane::Staging,
                size: (self.width * self.height * 4) as u64,
            },
        ]
    }

    /// Plans the pipeline for frames of `w` by `h` pixels.
    pub fn new(w: u32, h: u32) -> (r: Self)
        requires
            w > 0,
            h > 0,
            w * h <= u32::MAX,
        ensures
            r.wf(),
            r.width == w,
            r.height == h,
    {
        EvmPipeline { width: w, height: h }
    }

    /// A buffer to be created.
    pub fn buffer(&self, plane: Plane) -> (r: BufferSpec<Plane>)
        requires
            self.wf(),
        ensures
            r == self.spec_buffer(plane),
    {
        let pixels: u64 = (self.width * self.height) as u64;
        let chw_size: u64 = 3 * pixels * 4;
        match plane {
            Plane::FrameRgba => GpuContext::create_buffer(plane, pixels * 4, Usage::StorageBoth),
            Plane::Chw => GpuContext::create_buffer(plane, chw_size, Usage::Storage),
            Plane::LowpassHigh => GpuContext::create_buffer(plane, chw_size, Usage::Storage),
            Plane::LowpassLow => GpuContext::create_buffer(plane, chw_size, Usage::Storage),
            Plane::OutputChw => GpuContext::create_buffer(plane, chw_size, Usage::Storage),
            Plane::OutputRgba => GpuContext::create_buffer(
                plane,
                pixels * 4,
                Usage::StorageSource,
            ),
            Plane::Staging => GpuContext::create_buffer(plane, pixels * 4, Usage::Staging),
        }
    }

    /// The buffers to be created, in order.
    pub fn buffers(&self) -> (r: Vec<BufferSpec<Plane>>)
        requires
            self.wf(),
        ensures
            r@ == self.spec_buffers(),
    {
        let mut r: Vec<BufferSpec<Plane>> = Vec::new();
        r.push(self.buffer(Plane::FrameRgba));
        r.push(self.buffer(Plane::Chw));
        r.push(self.buffer(Plane::LowpassHigh));
        r.push(self.buffer(Plane::LowpassLow));
        r.push(self.buffer(Plane::OutputChw));
        r.push(self.buffer(Plane::OutputRgba));
        r.push(self.buffer(Plane::Staging));
        assert(r@ =~= self.spec_buffers());
        r
    }

    /// The parameters of the conversions.
    pub fn frame_params(&self) -> (r: FrameParams)
        ensures
            r == self.spec_frame_params(),
    {
        FrameParams { width: self.width, height: self.height, _pad0: 0, _pad1: 0 }
    }

    /// The parameters of the bandpass; all zero but for the size before the first frame.
    pub fn bandpass_params(&self, alpha_low: u32, alpha_high: u32, amplification: u32) -> (r:
        BandpassParams)
        ensures
            r == self.spec_bandpass_params(alpha_low, alpha_high, amplification),
            r.width == self.width,
            r.height == self.height,
            r.alpha_low == alpha_low,
            r.alpha_high == alpha_high,
            r.amplification == amplification,
    {
        BandpassParams {
            width: self.width,
            height: self.height,
            alpha_low,
            alpha_high,
            amplification,
        }
    }

    /// What a parameter block holds when it is created.
    pub fn contents(&self, resource: Resource) -> (r: Vec<u32>)
        requires
            resource !is Plane,
        ensures
            r@ == self.spec_contents(resource),
    {
        match resource {
            Resource::FrameParams => self.frame_params().words(),
            Resource::BandpassParams => self.bandpass_params(0, 0, 0).words(),
            Resource::Plane(_) => Vec::new(),
        }
    }

    /// What a shader's bind group binds.
    pub fn bind_group(kernel: Kernel) -> (r: Vec<Resource>)
        ensures
            r@ == Self::spec_bind_group(kernel),
    {
        let r: Vec<Resource> = match kernel {
            Kernel::RgbaToChw => vec![
                Resource::FrameParams,
                Resource::Plane(Plane::FrameRgba),
                Resource::Plane(Plane::Chw),
            ],
            Kernel::ChwToRgba => vec![
                Resource::FrameParams,
                Resource::Plane(Plane::OutputChw),
                Resource::Plane(Plane::OutputRgba),
            ],
            Kernel::Bandpass => vec![
                Resource::BandpassParams,
                Resource::Plane(Plane::Chw),
                Resource::Plane(Plane::LowpassHigh),
                Resource::Plane(Plane::LowpassLow),
                Resource::Plane(Plane::OutputChw),
            ],
        };
        assert(r@ =~= Self::spec_bind_group(kernel));
        r
    }

    /// Plans a frame.  The coefficients and the amplification are the bits of single-precision
    /// values.
    pub fn process_frame<'a>(
        &self,
        frame_rgba: &'a [u32],
        alpha_low: u32,
        alpha_high: u32,
        amplification: u32,
    ) -> (r: FramePlan<'a>)
        requires
            self.wf(),
            self.width * self.height * 4 <= u32::MAX,
        ensures
            r.frame@ == crate::words::le_bytes(frame_rgba@) || r.frame@ == crate::words::be_bytes(
                frame_rgba@,
            ),
            r.bandpass == self.spec_bandpass_params(alpha_low, alpha_high, amplification),
            r.bandpass.width == self.width,
            r.bandpass.height == self.height,
            r.bandpass.alpha_low == alpha_low,
            r.bandpass.alpha_high == alpha_high,
            r.bandpass.amplification == amplification,
            r.commands@ == self.frame_commands(),
    {
        let (w, h): (u32, u32) = (self.width, self.height);
        let commands: Vec<Command> = vec![
            Command::Dispatch { kernel: Kernel::RgbaToChw, groups: gpu::tile(w, h, 64, 16, 1) },
            Command::Dispatch { kernel: Kernel::Bandpass, groups: gpu::tile(w, h, 16, 16, 1) },
            Command::Dispatch { kernel: Kernel::ChwToRgba, groups: gpu::tile(w, h, 64, 16, 1) },
            Command::Copy {
                source: Plane::OutputRgba,
                target: Plane::Staging,
                size: (w * h * 4) as u64,
            },
        ];
        assert(commands@ =~= self.frame_commands());
        FramePlan {
            frame: words::upload_bytes(frame_rgba),
            bandpass: self.bandpass_params(alpha_low, alpha_high, amplification),
            commands,
        }
    }
}

// ── Laws ──

/// The plane that a shader writes besides the filters' state: its last.
pub open spec fn written(kernel: Kernel) -> Plane {
    EvmPipeline::spec_bind_group(kernel).last()->Plane_0
}

/// Each shader of a frame reads what the one before has written, the first one the frame and
/// the copy the result of the last one; the filters' state is touched by the bandpass alone.
pub proof fn lemma_chain(p: EvmPipeline, kernel: Kernel)
    requires
        p.wf(),
    ensures
        p.frame_commands()[0]->Dispatch_kernel == Kernel::RgbaToChw,
        EvmPipeline::spec_bind_group(Kernel::RgbaToChw)[1] == Resource::Plane(Plane::FrameRgba),
        p.frame_commands()[1]->Dispatch_kernel == Kernel::Bandpass,
        EvmPipeline::spec_bind_group(Kernel::Bandpass)[1] == Resource::Plane(
            written(Kernel::RgbaToChw),
        ),
        p.frame_commands()[2]->Dispatch_kernel == Kernel::ChwToRgba,
        EvmPipeline::spec_bind_group(Kernel::ChwToRgba)[1] == Resource::Plane(
            written(Kernel::Bandpass),
        ),
        p.frame_commands()[3]->Copy_source == written(Kernel::ChwToRgba),
        EvmPipeline::spec_bind_group(kernel).contains(Resource::Plane(Plane::LowpassHigh))
            <==> kernel == Kernel::Bandpass,
        EvmPipeline::spec_bind_group(kernel).contains(Resource::Plane(Plane::LowpassLow))
            <==> kernel == Kernel::Bandpass,
{
    let list = EvmPipeline::spec_bind_group(Kernel::Bandpass);
    assert(list[2] == Resource::Plane(Plane::LowpassHigh));
    assert(list[3] == Resource::Plane(Plane::LowpassLow));
}

/// The copy takes all of the result to all of the staging buffer, and both may be copied.
pub proof fn lemma_copy_fits(p: EvmPipeline)
    requires
        p.wf(),
    ensures
        p.frame_commands()[3] matches Command::Copy { source, target, size } && {
            &&& size == p.spec_buffer(source).size
            &&& size == p.spec_buffer(target).size
            &&& EvmPipeline::usage_of(source).spec_copies_out()
            &&& EvmPipeline::usage_of(target).spec_copies_in()
        },
{
}

/// All buffers are different.  No bind group binds a resource twice, every buffer that it
/// binds is one of the pipeline's and may be bound, and its first slot is its parameter block.
pub proof fn lemma_bindings(kernel: Kernel)
    ensures
        EvmPipeline::planes().no_duplicates(),
        EvmPipeline::spec_bind_group(kernel).no_duplicates(),
        EvmPipeline::spec_bind_group(kernel)[0] !is Plane,
        forall|b: int|
            0 <= b < EvmPipeline::spec_bind_group(kernel).len() ==> {
                let r = #[trigger] EvmPipeline::spec_bind_group(kernel)[b];
                &&& r matches Resource::Plane(plane) ==> EvmPipeline::planes().contains(plane)
                &&& b == 0 ==> r.spec_usage() is Uniform
                &&& b > 0 ==> r.spec_usage().spec_is_storage()
            },
{
    let planes = EvmPipeline::planes();
    assert(planes[0] == Plane::FrameRgba);
    assert(planes[1] == Plane::Chw);
    assert(planes[2] == Plane::LowpassHigh);
    assert(planes[3] == Plane::LowpassLow);
    assert(planes[4] == Plane::OutputChw);
    assert(planes[5] == Plane::OutputRgba);
}

/// The block of a frame carries the caller's coefficients and amplification unchanged, each in
/// its place behind the frame size; so frames that differ in one of them differ in the block.
pub proof fn lemma_bandpass_words(
    p: EvmPipeline,
    alpha_low: u32,
    alpha_high: u32,
    amplification: u32,
)
    ensures
        ({
            let words = p.spec_bandpass_params(alpha_low, alpha_high, amplification).layout();
            &&& words.len() == 8
            &&& words[0] == p.width && words[1] == p.height
            &&& words[2] == alpha_low && words[3] == alpha_high && words[4] == amplification
            &&& words[5] == 0 && words[6] == 0 && words[7] == 0
        }),
        p.spec_contents(Resource::FrameParams) =~= seq![p.width, p.height, 0u32, 0u32],
        p.spec_contents(Resource::BandpassParams) =~= seq![
            p.width,
            p.height,
            0u32,
            0u32,
            0u32,
            0u32,
            0u32,
            0u32,
        ],
{
}

/// A bind group begins with the parameters of its shader: those of the frame for the
/// conversions, those of the bandpass for the bandpass, whose filters' state comes between what
/// it reads and what it writes, the upper filter first.
pub proof fn lemma_own_parameters()
    ensures
        EvmPipeline::spec_bind_group(Kernel::RgbaToChw)[0] == Resource::FrameParams,
        EvmPipeline::spec_bind_group(Kernel::ChwToRgba)[0] == Resource::FrameParams,
        EvmPipeline::spec_bind_group(Kernel::Bandpass)[0] == Resource::BandpassParams,
        EvmPipeline::spec_bind_group(Kernel::Bandpass)[2] == Resource::Plane(Plane::LowpassHigh),
        EvmPipeline::spec_bind_group(Kernel::Bandpass)[3] == Resource::Plane(Plane::LowpassLow),
        EvmPipeline::spec_bind_group(Kernel::RgbaToChw).len() == 3,
        EvmPipeline::spec_bind_group(Kernel::ChwToRgba).len() == 3,
        EvmPipeline::spec_bind_group(Kernel::Bandpass).len() == 5,
        written(Kernel::ChwToRgba) == Plane::OutputRgba,
        written(Kernel::RgbaToChw) != written(Kernel::Bandpass),
{
}

/// As many groups of a size as a length needs, and no more.
pub open spec fn just_covers(groups: u32, size: int, length: u32) -> bool {
    groups * size >= length && (groups - 1) * size < length
}

/// The workgroups of a frame just cover it: groups of 64 by 16 pixels convert, groups of 16 by
/// 16 filter.  After the three dispatches comes the copy of all pixels, to the staging buffer.
pub proof fn lemma_workgroups(p: EvmPipeline, i: int)
    requires
        p.wf(),
        0 <= i < 3,
    ensures
        p.frame_commands().len() == 4,
        p.frame_commands()[i] matches Command::Dispatch { kernel, groups } && {
            &&& just_covers(
                groups.x,
                if kernel is Bandpass {
                    16
                } else {
                    64
                },
                p.width,
            )
            &&& just_covers(groups.y, 16, p.height)
            &&& groups.z == 1
        },
        p.frame_commands()[3] matches Command::Copy { source, target, size } && {
            &&& target == Plane::Staging
            &&& size == 4 * (p.width * p.height)
        },
{
    crate::gpu::lemma_tiles_cover(p.width, p.height, 64, 16, 1);
    crate::gpu::lemma_tiles_cover(p.width, p.height, 16, 16, 1);
    assert(p.width * p.height * 4 == 4 * (p.width * p.height)) by (nonlinear_arith);
    assert(0 <= p.width * p.height) by (nonlinear_arith);
}

/// The sizes and uses of the buffers: a packed word for each pixel of the frames, three values
/// in between.  The frame can be uploaded, the result copied from, the staging buffer copied to
/// and mapped; the rest is bound only.
pub proof fn lemma_buffer(p: EvmPipeline, plane: Plane)
    requires
        p.wf(),
    ensures
        ({
            let b = p.spec_buffer(plane);
            let packed = plane is FrameRgba || plane is OutputRgba || plane is Staging;
            &&& b.id == plane
            &&& packed ==> b.size == 4 * (p.width * p.height)
            &&& !packed ==> b.size == 12 * (p.width * p.height)
            &&& b.usage == match plane {
                Plane::FrameRgba => Usage::StorageBoth,
                Plane::OutputRgba => Usage::StorageSource,
                Plane::Staging => Usage::Staging,
                _ => Usage::Storage,
            }
            &&& EvmPipeline::planes().len() == 7
        }),
{
    assert(0 <= p.width * p.height) by (nonlinear_arith);
}

} // verus!
