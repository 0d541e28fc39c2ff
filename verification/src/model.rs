//! The neural magnifier: an encoder, a manipulator of the motion between two frames, and a
//! decoder, planned for one frame size.
//!
//! All buffers, parameter blocks and bind groups are planned once; a frame only uploads and
//! dispatches.

use crate::gpu;
use crate::gpu::{BufferSpec, GpuContext, LayoutEntry, ShaderStage, Usage, Workgroups};
use crate::words;
use vstd::prelude::*;

pub mod flow;
pub mod laws;

verus! {

// ── Parameter blocks ──

/// Parameters of a convolution: the shape of its kernel and the size of its input.
#[derive(Clone, Copy, PartialEq, Eq, Structural, Debug)]
pub struct ConvParams {
    pub in_channels: u32,
    pub out_channels: u32,
    pub kernel_size: u32,
    pub stride: u32,
    pub padding: u32,
    pub width: u32,
    pub height: u32,
    pub use_relu: u32,
}

impl ConvParams {
    /// The block as the shaders lay it out.
    pub open spec fn layout(self) -> Seq<u32> {
        seq![
            self.in_channels,
            self.out_channels,
            self.kernel_size,
            self.stride,
            self.padding,
            self.width,
            self.height,
            self.use_relu,
        ]
    }

    /// The words of the block.
    pub fn words(&self) -> (r: Vec<u32>)
        ensures
            r@ == self.layout(),
    {
        let r: Vec<u32> = vec![
            self.in_channels,
            self.out_channels,
            self.kernel_size,
            self.stride,
            self.padding,
            self.width,
            self.height,
            self.use_relu,
        ];
        assert(r@ =~= self.layout());
        r
    }

    /// The length of a side of the output, for a side of `side` of the input.
    pub open spec fn output(self, side: u32) -> int {
        (side + 2 * self.padding - self.kernel_size) / (self.stride as int) + 1
    }

    /// The kernel fits into the padded side, and the arithmetic fits 32 bits.
    pub open spec fn accepts(self, side: u32) -> bool {
        &&& self.stride > 0
        &&& side + 2 * self.padding <= u32::MAX
        &&& self.kernel_size <= side + 2 * self.padding
        &&& self.output(side) <= u32::MAX
    }
}

/// Parameters of the manipulator; `alpha` is the bits of a single-precision value.
#[derive(Clone, Copy, PartialEq, Eq, Structural, Debug)]
pub struct ManipParams {
    pub channels: u32,
    pub height: u32,
    pub width: u32,
    pub alpha: u32,
}

impl ManipParams {
    /// The block as the shaders lay it out.
    pub open spec fn layout(self) -> Seq<u32> {
        seq![self.channels, self.height, self.width, self.alpha]
    }

    /// The words of the block.
    pub fn words(&self) -> (r: Vec<u32>)
        ensures
            r@ == self.layout(),
    {
        let r: Vec<u32> = vec![self.channels, self.height, self.width, self.alpha];
        assert(r@ =~= self.layout());
        r
    }
}

/// Parameters of the upsampling.
#[derive(Clone, Copy, PartialEq, Eq, Structural, Debug)]
pub struct UpsampleParams {
    pub channels: u32,
    pub in_height: u32,
    pub in_width: u32,
    pub out_height: u32,
    pub out_width: u32,
    pub _pad: u32,
}

impl UpsampleParams {
    /// The block as the shaders lay it out.
    pub open spec fn layout(self) -> Seq<u32> {
        seq![
            self.channels,
            self.in_height,
            self.in_width,
            self.out_height,
            self.out_width,
            self._pad,
        ]
    }

    /// The words of the block.
    pub fn words(&self) -> (r: Vec<u32>)
        ensures
            r@ == self.layout(),
    {
        let r: Vec<u32> = vec![
            self.channels,
            self.in_height,
            self.in_width,
            self.out_height,
            self.out_width,
            self._pad,
        ];
        assert(r@ =~= self.layout());
        r
    }
}

/// Parameters of the conversions between pixels and planes.
#[derive(Clone, Copy, PartialEq, Eq, Structural, Debug)]
pub struct FrameParams {
    pub width: u32,
    pub height: u32,
    pub _pad0: u32,
    pub _pad1: u32,
}

impl FrameParams {
    /// The block as the shaders lay it out.
    pub open spec fn layout(self) -> Seq<u32> {
        seq![self.width, self.height, self._pad0, self._pad1]
    }

    /// The words of the block.
    pub fn words(&self) -> (r: Vec<u32>)
        ensures
            r@ == self.layout(),
    {
        let r: Vec<u32> = vec![self.width, self.height, self._pad0, self._pad1];
        assert(r@ =~= self.layout());
        r
    }
}

// ── Resources ──

/// The convolutions of the model.
#[derive(Clone, Copy, PartialEq, Eq, Hash, Structural, Debug)]
pub enum Layer {
    EncConv1,
    EncConv2,
    EncConv3,
    EncTexture,
    DecConv1,
    DecConv2,
    DecConv3,
}

/// The buffers of the model.  Those of the two frames end in `A` and `B`.
#[derive(Clone, Copy, PartialEq, Eq, Hash, Structural, Debug)]
pub enum Plane {
    FrameA,
    FrameB,
    ChwA,
    ChwB,
    Enc1A,
    Enc2A,
    ShapeA,
    TextureA,
    Enc1B,
    Enc2B,
    ShapeB,
    ManipOut,
    Dec1,
    Upsampled,
    Dec2,
    ChwOut,
    RgbaOut,
    /// Read back by the program, in turns.
    Staging(usize),
}

/// What can be bound to a shader.
#[derive(Clone, Copy, PartialEq, Eq, Hash, Structural, Debug)]
pub enum Resource {
    FrameParams,
    ManipParams,
    UpsampleParams,
    LayerParams(Layer),
    Weights(Layer),
    Bias(Layer),
    Plane(Plane),
}

impl Resource {
    /// The use of a resource's buffer: weights and biases are bound to shaders only, parameter
    /// blocks are uniforms that can be uploaded to.
    pub open spec fn spec_usage(self) -> Usage {
        match self {
            Resource::FrameParams => Usage::Uniform,
            Resource::ManipParams => Usage::Uniform,
            Resource::UpsampleParams => Usage::Uniform,
            Resource::LayerParams(layer) => Usage::Uniform,
            Resource::Weights(layer) => Usage::Storage,
            Resource::Bias(layer) => Usage::Storage,
            Resource::Plane(plane) => MotionMagModel::usage_of(plane),
        }
    }

    /// The use of a resource's buffer.
    pub fn usage(self) -> (r: Usage)
        ensures
            r == self.spec_usage(),
    {
        match self {
            Resource::FrameParams => Usage::Uniform,
            Resource::ManipParams => Usage::Uniform,
            Resource::UpsampleParams => Usage::Uniform,
            Resource::LayerParams(_) => Usage::Uniform,
            Resource::Weights(_) => Usage::Storage,
            Resource::Bias(_) => Usage::Storage,
            Resource::Plane(plane) => plane.usage(),
        }
    }
}

impl Plane {
    /// The use of a buffer.
    pub fn usage(self) -> (r: Usage)
        ensures
            r == MotionMagModel::usage_of(self),
    {
        match self {
            Plane::FrameA => Usage::StorageBoth,
            Plane::FrameB => Usage::StorageBoth,
            Plane::RgbaOut => Usage::StorageSource,
            Plane::Staging(_) => Usage::Staging,
            _ => Usage::Storage,
        }
    }
}

/// The compute shaders.
#[derive(Clone, Copy, PartialEq, Eq, Hash, Structural, Debug)]
pub enum Kernel {
    RgbaToChw,
    ChwToRgba,
    Manipulate,
    Upsample,
    Conv(Layer),
}

/// The bind groups that are made once.
#[derive(Clone, Copy, PartialEq, Eq, Hash, Structural, Debug)]
pub enum Group {
    RgbaToChwA,
    RgbaToChwB,
    ChwToRgba,
    Manip,
    Upsample,
    EncConv1A,
    EncConv2A,
    EncConv3A,
    EncTextureA,
    EncConv1B,
    EncConv2B,
    EncConv3B,
    DecConv1,
    DecConv2,
    DecConv3,
}

impl Group {
    /// The shader that the bind group is for.
    pub open spec fn spec_kernel(self) -> Kernel {
        match self {
            Group::RgbaToChwA => Kernel::RgbaToChw,
            Group::RgbaToChwB => Kernel::RgbaToChw,
            Group::ChwToRgba => Kernel::ChwToRgba,
            Group::Manip => Kernel::Manipulate,
            Group::Upsample => Kernel::Upsample,
            Group::EncConv1A => Kernel::Conv(Layer::EncConv1),
            Group::EncConv2A => Kernel::Conv(Layer::EncConv2),
            Group::EncConv3A => Kernel::Conv(Layer::EncConv3),
            Group::EncTextureA => Kernel::Conv(Layer::EncTexture),
            Group::EncConv1B => Kernel::Conv(Layer::EncConv1),
            Group::EncConv2B => Kernel::Conv(Layer::EncConv2),
            Group::EncConv3B => Kernel::Conv(Layer::EncConv3),
            Group::DecConv1 => Kernel::Conv(Layer::DecConv1),
            Group::DecConv2 => Kernel::Conv(Layer::DecConv2),
            Group::DecConv3 => Kernel::Conv(Layer::DecConv3),
        }
    }

    /// The shader that the bind group is for.
    pub fn kernel(self) -> (r: Kernel)
        ensures
            r == self.spec_kernel(),
    {
        match self {
            Group::RgbaToChwA => Kernel::RgbaToChw,
            Group::RgbaToChwB => Kernel::RgbaToChw,
            Group::ChwToRgba => Kernel::ChwToRgba,
            Group::Manip => Kernel::Manipulate,
            Group::Upsample => Kernel::Upsample,
            Group::EncConv1A => Kernel::Conv(Layer::EncConv1),
            Group::EncConv2A => Kernel::Conv(Layer::EncConv2),
            Group::EncConv3A => Kernel::Conv(Layer::EncConv3),
            Group::EncTextureA => Kernel::Conv(Layer::EncTexture),
            Group::EncConv1B => Kernel::Conv(Layer::EncConv1),
            Group::EncConv2B => Kernel::Conv(Layer::EncConv2),
            Group::EncConv3B => Kernel::Conv(Layer::EncConv3),
            Group::DecConv1 => Kernel::Conv(Layer::DecConv1),
            Group::DecConv2 => Kernel::Conv(Layer::DecConv2),
            Group::DecConv3 => Kernel::Conv(Layer::DecConv3),
        }
    }
}

/// A command of a frame.
#[derive(Clone, Copy, PartialEq, Eq, Structural, Debug)]
pub enum Command {
    Dispatch { kernel: Kernel, group: Group, groups: Workgroups },
    Copy { source: Plane, target: Plane, size: u64 },
}

/// What a frame asks for: the pixels of both frames and the manipulator's parameters to be
/// uploaded, and the commands to be submitted together.
#[derive(Debug)]
pub struct FramePlan<'a> {
    pub frame_a: &'a [u8],
    pub frame_b: &'a [u8],
    pub manip: ManipParams,
    pub commands: Vec<Command>,
}

// ── Weights ──

impl Layer {
    /// The number of weights of a layer.
    pub open spec fn spec_weight_count(self) -> nat {
        match self {
            Layer::EncConv1 => 16 * 3 * 3 * 3,
            Layer::EncConv2 => 32 * 16 * 3 * 3,
            Layer::EncConv3 => 32 * 32 * 3 * 3,
            Layer::EncTexture => 32 * 32 * 1 * 1,
            Layer::DecConv1 => 32 * 32 * 3 * 3,
            Layer::DecConv2 => 16 * 32 * 3 * 3,
            Layer::DecConv3 => 3 * 16 * 3 * 3,
        }
    }

    /// The number of weights of a layer.
    pub fn weight_count(self) -> (r: usize)
        ensures
            r == self.spec_weight_count(),
    {
        match self {
            Layer::EncConv1 => 16 * 3 * 3 * 3,
            Layer::EncConv2 => 32 * 16 * 3 * 3,
            Layer::EncConv3 => 32 * 32 * 3 * 3,
            Layer::EncTexture => 32 * 32 * 1 * 1,
            Layer::DecConv1 => 32 * 32 * 3 * 3,
            Layer::DecConv2 => 16 * 32 * 3 * 3,
            Layer::DecConv3 => 3 * 16 * 3 * 3,
        }
    }

    /// The number of biases of a layer.
    pub open spec fn spec_bias_count(self) -> nat {
        match self {
            Layer::EncConv1 => 16,
            Layer::EncConv2 => 32,
            Layer::EncConv3 => 32,
            Layer::EncTexture => 32,
            Layer::DecConv1 => 32,
            Layer::DecConv2 => 16,
            Layer::DecConv3 => 3,
        }
    }

    /// The number of biases of a layer.
    pub fn bias_count(self) -> (r: usize)
        ensures
            r == self.spec_bias_count(),
    {
        match self {
            Layer::EncConv1 => 16,
            Layer::EncConv2 => 32,
            Layer::EncConv3 => 32,
            Layer::EncTexture => 32,
            Layer::DecConv1 => 32,
            Layer::DecConv2 => 16,
            Layer::DecConv3 => 3,
        }
    }

    /// The parameters of a layer of a model for frames of `w` by `h` pixels.
    pub open spec fn spec_params(self, w: u32, h: u32) -> ConvParams {
        let lw = w / 2;
        let lh = h / 2;
        match self {
            Layer::EncConv1 => ConvParams {
                in_channels: 3,
                out_channels: 16,
                kernel_size: 3,
                stride: 1,
                padding: 1,
                width: w,
                height: h,
                use_relu: 1,
            },
            Layer::EncConv2 => ConvParams {
                in_channels: 16,
                out_channels: 32,
                kernel_size: 3,
                stride: 2,
                padding: 1,
                width: w,
                height: h,
                use_relu: 1,
            },
            Layer::EncConv3 => ConvParams {
                in_channels: 32,
                out_channels: 32,
                kernel_size: 3,
                stride: 1,
                padding: 1,
                width: lw,
                height: lh,
                use_relu: 1,
            },
            Layer::EncTexture => ConvParams {
                in_channels: 32,
                out_channels: 32,
                kernel_size: 1,
                stride: 1,
                padding: 0,
                width: lw,
                height: lh,
                use_relu: 0,
            },
            Layer::DecConv1 => ConvParams {
                in_channels: 32,
                out_channels: 32,
                kernel_size: 3,
                stride: 1,
                padding: 1,
                width: lw,
                height: lh,
                use_relu: 1,
            },
            Layer::DecConv2 => ConvParams {
                in_channels: 32,
                out_channels: 16,
                kernel_size: 3,
                stride: 1,
                padding: 1,
                width: w,
                height: h,
                use_relu: 1,
            },
            Layer::DecConv3 => ConvParams {
                in_channels: 16,
                out_channels: 3,
                kernel_size: 3,
                stride: 1,
                padding: 1,
                width: w,
                height: h,
                use_relu: 0,
            },
        }
    }

    /// The parameters of a layer of a model for frames of `w` by `h` pixels.
    pub fn params(self, w: u32, h: u32) -> (r: ConvParams)
        ensures
            r == self.spec_params(w, h),
    {
        let lw: u32 = w / 2;
        let lh: u32 = h / 2;
        let (in_channels, out_channels): (u32, u32) = match self {
            Layer::EncConv1 => (3, 16),
            Layer::EncConv2 => (16, 32),
            Layer::EncConv3 => (32, 32),
            Layer::EncTexture => (32, 32),
            Layer::DecConv1 => (32, 32),
            Layer::DecConv2 => (32, 16),
            Layer::DecConv3 => (16, 3),
        };
        let (width, height): (u32, u32) = match self {
            Layer::EncConv1 => (w, h),
            Layer::EncConv2 => (w, h),
            Layer::EncConv3 => (lw, lh),
            Layer::EncTexture => (lw, lh),
            Layer::DecConv1 => (lw, lh),
            Layer::DecConv2 => (w, h),
            Layer::DecConv3 => (w, h),
        };
        let (kernel_size, stride, padding, use_relu): (u32, u32, u32, u32) = match self {
            Layer::EncConv2 => (3, 2, 1, 1),
            Layer::EncTexture => (1, 1, 0, 0),
            Layer::DecConv3 => (3, 1, 1, 0),
            _ => (3, 1, 1, 1),
        };
        ConvParams {
            in_channels,
            out_channels,
            kernel_size,
            stride,
            padding,
            width,
            height,
            use_relu,
        }
    }
}

/// The weights and biases of all layers, as the bits of single-precision values.
#[derive(Debug)]
pub struct ModelWeights {
    pub enc_conv1_w: Vec<u32>,
    pub enc_conv1_b: Vec<u32>,
    pub enc_conv2_w: Vec<u32>,
    pub enc_conv2_b: Vec<u32>,
    pub enc_conv3_w: Vec<u32>,
    pub enc_conv3_b: Vec<u32>,
    pub enc_texture_w: Vec<u32>,
    pub enc_texture_b: Vec<u32>,
    pub dec_conv1_w: Vec<u32>,
    pub dec_conv1_b: Vec<u32>,
    pub dec_conv2_w: Vec<u32>,
    pub dec_conv2_b: Vec<u32>,
    pub dec_conv3_w: Vec<u32>,
    pub dec_conv3_b: Vec<u32>,
}

impl ModelWeights {
    /// The weights of a layer.
    pub open spec fn spec_weights(self, layer: Layer) -> Seq<u32> {
        match layer {
            Layer::EncConv1 => self.enc_conv1_w@,
            Layer::EncConv2 => self.enc_conv2_w@,
            Layer::EncConv3 => self.enc_conv3_w@,
            Layer::EncTexture => self.enc_texture_w@,
            Layer::DecConv1 => self.dec_conv1_w@,
            Layer::DecConv2 => self.dec_conv2_w@,
            Layer::DecConv3 => self.dec_conv3_w@,
        }
    }

    /// The biases of a layer.
    pub open spec fn spec_bias(self, layer: Layer) -> Seq<u32> {
        match layer {
            Layer::EncConv1 => self.enc_conv1_b@,
            Layer::EncConv2 => self.enc_conv2_b@,
            Layer::EncConv3 => self.enc_conv3_b@,
            Layer::EncTexture => self.enc_texture_b@,
            Layer::DecConv1 => self.dec_conv1_b@,
            Layer::DecConv2 => self.dec_conv2_b@,
            Layer::DecConv3 => self.dec_conv3_b@,
        }
    }

    /// The weights of a layer.
    pub fn weights(&self, layer: Layer) -> (r: &[u32])
        ensures
            r@ == self.spec_weights(layer),
    {
        match layer {
            Layer::EncConv1 => self.enc_conv1_w.as_slice(),
            Layer::EncConv2 => self.enc_conv2_w.as_slice(),
            Layer::EncConv3 => self.enc_conv3_w.as_slice(),
            Layer::EncTexture => self.enc_texture_w.as_slice(),
            Layer::DecConv1 => self.dec_conv1_w.as_slice(),
            Layer::DecConv2 => self.dec_conv2_w.as_slice(),
            Layer::DecConv3 => self.dec_conv3_w.as_slice(),
        }
    }

    /// The biases of a layer.
    pub fn bias(&self, layer: Layer) -> (r: &[u32])
        ensures
            r@ == self.spec_bias(layer),
    {
        match layer {
            Layer::EncConv1 => self.enc_conv1_b.as_slice(),
            Layer::EncConv2 => self.enc_conv2_b.as_slice(),
            Layer::EncConv3 => self.enc_conv3_b.as_slice(),
            Layer::EncTexture => self.enc_texture_b.as_slice(),
            Layer::DecConv1 => self.dec_conv1_b.as_slice(),
            Layer::DecConv2 => self.dec_conv2_b.as_slice(),
            Layer::DecConv3 => self.dec_conv3_b.as_slice(),
        }
    }
}

// ── A convolution ──

/// The slots of a convolution: parameters, input, weights, bias and output.
pub open spec fn conv_layout() -> Seq<LayoutEntry> {
    Seq::new(
        5,
        |i: int|
            LayoutEntry {
                binding: i as u32,
                visibility: ShaderStage::Compute,
                kind: if i == 0 {
                    gpu::BindingKind::Uniform
                } else {
                    gpu::BindingKind::Storage { read_only: i < 4 }
                },
            },
    )
}

/// The plan of a convolution.
#[derive(Debug)]
pub struct ConvLayer {
    pub layer: Layer,
    pub params: ConvParams,
    /// What the buffers of weights and biases hold, as the bits of single-precision values.
    pub weights: Vec<u32>,
    pub bias: Vec<u32>,
    pub out_width: u32,
    pub out_height: u32,
    pub out_channels: u32,
}

impl ConvLayer {
    /// Plans a convolution with its weights and biases.
    pub fn new(layer: Layer, params: ConvParams, weights: &[u32], bias: &[u32]) -> (r: Self)
        requires
            params.accepts(params.width),
            params.accepts(params.height),
        ensures
            r.layer == layer,
            r.params == params,
            r.weights@ == weights@,
            r.bias@ == bias@,
            r.out_width == params.output(params.width),
            r.out_height == params.output(params.height),
            r.out_channels == params.out_channels,
    {
        let out_width: u32 = (params.width + 2 * params.padding - params.kernel_size)
            / params.stride + 1;
        let out_height: u32 = (params.height + 2 * params.padding - params.kernel_size)
            / params.stride + 1;
        ConvLayer {
            layer,
            params,
            weights: words::copy_words(weights),
            bias: words::copy_words(bias),
            out_width,
            out_height,
            out_channels: params.out_channels,
        }
    }

    /// The slots of a convolution.
    pub fn layout() -> (r: Vec<LayoutEntry>)
        ensures
            r@ == conv_layout(),
    {
        let mut r: Vec<LayoutEntry> = Vec::new();
        r.push(gpu::bgl_entry(0, ShaderStage::Compute, true, false));
        r.push(gpu::bgl_entry(1, ShaderStage::Compute, false, true));
        r.push(gpu::bgl_entry(2, ShaderStage::Compute, false, true));
        r.push(gpu::bgl_entry(3, ShaderStage::Compute, false, true));
        r.push(gpu::bgl_entry(4, ShaderStage::Compute, false, false));
        assert(r@ =~= conv_layout());
        r
    }

    /// What is bound for a convolution from `input` to `output`.
    pub open spec fn bindings(layer: Layer, input: Plane, output: Plane) -> Seq<Resource> {
        seq![
            Resource::LayerParams(layer),
            Resource::Plane(input),
            Resource::Weights(layer),
            Resource::Bias(layer),
            Resource::Plane(output),
        ]
    }

    /// The bind group from an input to an output.
    pub fn create_bind_group(&self, input: Plane, output: Plane) -> (r: Vec<Resource>)
        ensures
            r@ == Self::bindings(self.layer, input, output),
    {
        let r: Vec<Resource> = vec![
            Resource::LayerParams(self.layer),
            Resource::Plane(input),
            Resource::Weights(self.layer),
            Resource::Bias(self.layer),
            Resource::Plane(output),
        ];
        assert(r@ =~= Self::bindings(self.layer, input, output));
        r
    }

    /// The workgroups of a convolution: tiles of 8 by 8 for each channel of the output.
    pub open spec fn workgroups(self) -> Workgroups {
        gpu::tiles(self.out_width, self.out_height, 8, 8, self.out_channels)
    }

    /// Appends the dispatch of the convolution.
    pub fn record(&self, commands: &mut Vec<Command>, group: Group)
        ensures
            final(commands)@ == old(commands)@.push(
                Command::Dispatch {
                    kernel: Kernel::Conv(self.layer),
                    group,
                    groups: self.workgroups(),
                },
            ),
    {
        let groups = gpu::tile(self.out_width, self.out_height, 8, 8, self.out_channels);
        commands.push(Command::Dispatch { kernel: Kernel::Conv(self.layer), group, groups });
    }
}

// ── The model ──

/// The plan of the model for one frame size.
#[derive(Debug)]
pub struct MotionMagModel {
    pub enc_conv1: ConvLayer,
    pub enc_conv2: ConvLayer,
    pub enc_conv3: ConvLayer,
    pub enc_texture: ConvLayer,
    pub dec_conv1: ConvLayer,
    pub dec_conv2: ConvLayer,
    pub dec_conv3: ConvLayer,
    pub width: u32,
    pub height: u32,
    pub latent_width: u32,
    pub latent_height: u32,
}

impl MotionMagModel {
    /// A convolution of the model.
    pub open spec fn conv(self, layer: Layer) -> ConvLayer {
        match layer {
            Layer::EncConv1 => self.enc_conv1,
            Layer::EncConv2 => self.enc_conv2,
            Layer::EncConv3 => self.enc_conv3,
            Layer::EncTexture => self.enc_texture,
            Layer::DecConv1 => self.dec_conv1,
            Layer::DecConv2 => self.dec_conv2,
            Layer::DecConv3 => self.dec_conv3,
        }
    }

    /// The sizes are at least two and fit, the latent size is half of the size, and the
    /// convolutions are those of the size.
    pub open spec fn wf(self) -> bool {
        &&& 2 <= self.width
        &&& 2 <= self.height
        &&& self.width * self.height <= u32::MAX
        &&& self.latent_width == self.width / 2
        &&& self.latent_height == self.height / 2
        &&& forall|layer: Layer|
            {
                let c = #[trigger] self.conv(layer);
                &&& c.layer == layer
                &&& c.params == layer.spec_params(self.width, self.height)
                &&& c.out_width == c.params.output(c.params.width)
                &&& c.out_height == c.params.output(c.params.height)
                &&& c.out_channels == c.params.out_channels
            }
    }

    /// The pixels of a frame.
    pub open spec fn pixels(self) -> int {
        self.width * self.height
    }

    /// The pixels of the latent image.
    pub open spec fn latent_pixels(self) -> int {
        self.latent_width * self.latent_height
    }

    /// The number of words of a buffer: for each pixel one packed word, or one value for each
    /// channel.
    pub open spec fn words_of(self, plane: Plane) -> int {
        match plane {
            Plane::FrameA => self.pixels(),
            Plane::FrameB => self.pixels(),
            Plane::ChwA => 3 * self.pixels(),
            Plane::ChwB => 3 * self.pixels(),
            Plane::Enc1A => 16 * self.pixels(),
            Plane::Enc2A => 32 * self.latent_pixels(),
            Plane::ShapeA => 32 * self.latent_pixels(),
            Plane::TextureA => 32 * self.latent_pixels(),
            Plane::Enc1B => 16 * self.pixels(),
            Plane::Enc2B => 32 * self.latent_pixels(),
            Plane::ShapeB => 32 * self.latent_pixels(),
            Plane::ManipOut => 32 * self.latent_pixels(),
            Plane::Dec1 => 32 * self.latent_pixels(),
            Plane::Upsampled => 32 * self.pixels(),
            Plane::Dec2 => 16 * self.pixels(),
            Plane::ChwOut => 3 * self.pixels(),
            Plane::RgbaOut => self.pixels(),
            Plane::Staging(i) => self.pixels(),
        }
    }

    /// The use of a buffer.
    pub open spec fn usage_of(plane: Plane) -> Usage {
        match plane {
            Plane::FrameA => Usage::StorageBoth,
            Plane::FrameB => Usage::StorageBoth,
            Plane::RgbaOut => Usage::StorageSource,
            Plane::Staging(i) => Usage::Staging,
            _ => Usage::Storage,
        }
    }

    /// A buffer to be created.
    pub open spec fn spec_buffer(self, plane: Plane) -> BufferSpec<Plane> {
        BufferSpec {
            id: plane,
            size: (self.words_of(plane) * 4) as u64,
            usage: Self::usage_of(plane),
        }
    }

    /// The buffers, in the order in which they are created.
    pub open spec fn planes() -> Seq<Plane> {
        seq![
            Plane::FrameA,
            Plane::FrameB,
            Plane::ChwA,
            Plane::ChwB,
            Plane::Enc1A,
            Plane::Enc2A,
            Plane::ShapeA,
            Plane::TextureA,
            Plane::Enc1B,
            Plane::Enc2B,
            Plane::ShapeB,
            Plane::ManipOut,
            Plane::Dec1,
            Plane::Upsampled,
            Plane::Dec2,
            Plane::ChwOut,
            Plane::RgbaOut,
            Plane::Staging(0),
            Plane::Staging(1),
        ]
    }

    /// The buffers to be created, in order.
    pub open spec fn spec_buffers(self) -> Seq<BufferSpec<Plane>> {
        Seq::new(Self::planes().len(), |i: int| self.spec_buffer(Self::planes()[i]))
    }

    /// What a bind group binds.
    pub open spec fn spec_bind_group(group: Group) -> Seq<Resource> {
        match group {
            Group::RgbaToChwA => seq![
                Resource::FrameParams,
                Resource::Plane(Plane::FrameA),
                Resource::Plane(Plane::ChwA),
            ],
            Group::RgbaToChwB => seq![
                Resource::FrameParams,
                Resource::Plane(Plane::FrameB),
                Resource::Plane(Plane::ChwB),
            ],
            Group::ChwToRgba => seq![
                Resource::FrameParams,
                Resource::Plane(Plane::ChwOut),
                Resource::Plane(Plane::RgbaOut),
            ],
            Group::Manip => seq![
                Resource::ManipParams,
                Resource::Plane(Plane::ShapeA),
                Resource::Plane(Plane::ShapeB),
                Resource::Plane(Plane::TextureA),
                Resource::Plane(Plane::ManipOut),
            ],
            Group::Upsample => seq![
                Resource::UpsampleParams,
                Resource::Plane(Plane::Dec1),
                Resource::Plane(Plane::Upsampled),
            ],
            Group::EncConv1A => ConvLayer::bindings(Layer::EncConv1, Plane::ChwA, Plane::Enc1A),
            Group::EncConv2A => ConvLayer::bindings(Layer::EncConv2, Plane::Enc1A, Plane::Enc2A),
            Group::EncConv3A => ConvLayer::bindings(Layer::EncConv3, Plane::Enc2A, Plane::ShapeA),
            Group::EncTextureA => ConvLayer::bindings(
                Layer::EncTexture,
                Plane::Enc2A,
                Plane::TextureA,
            ),
            Group::EncConv1B => ConvLayer::bindings(Layer::EncConv1, Plane::ChwB, Plane::Enc1B),
            Group::EncConv2B => ConvLayer::bindings(Layer::EncConv2, Plane::Enc1B, Plane::Enc2B),
            Group::EncConv3B => ConvLayer::bindings(Layer::EncConv3, Plane::Enc2B, Plane::ShapeB),
            Group::DecConv1 => ConvLayer::bindings(Layer::DecConv1, Plane::ManipOut, Plane::Dec1),
            Group::DecConv2 => ConvLayer::bindings(Layer::DecConv2, Plane::Upsampled, Plane::Dec2),
            Group::DecConv3 => ConvLayer::bindings(Layer::DecConv3, Plane::Dec2, Plane::ChwOut),
        }
    }

    /// The bind groups, in the order in which they are created.
    pub open spec fn spec_groups() -> Seq<Group> {
        seq![
            Group::RgbaToChwA,
            Group::RgbaToChwB,
            Group::ChwToRgba,
            Group::Manip,
            Group::Upsample,
            Group::EncConv1A,
            Group::EncConv2A,
            Group::EncConv3A,
            Group::EncTextureA,
            Group::EncConv1B,
            Group::EncConv2B,
            Group::EncConv3B,
            Group::DecConv1,
            Group::DecConv2,
            Group::DecConv3,
        ]
    }

    /// The manipulator's parameters.
    pub open spec fn spec_manip_params(self, alpha: u32) -> ManipParams {
        ManipParams { channels: 32, height: self.latent_height, width: self.latent_width, alpha }
    }

    /// The parameters of the conversions.
    pub open spec fn spec_frame_params(self) -> FrameParams {
        FrameParams { width: self.width, height: self.height, _pad0: 0, _pad1: 0 }
    }

    /// The parameters of the upsampling.
    pub open spec fn spec_upsample_params(self) -> UpsampleParams {
        UpsampleParams {
            channels: 32,
            in_height: self.latent_height,
            in_width: self.latent_width,
            out_height: self.height,
            out_width: self.width,
            _pad: 0,
        }
    }

    /// What a parameter block or a buffer of weights or biases holds when it is created.
    pub open spec fn spec_contents(self, r: Resource) -> Seq<u32> {
        match r {
            Resource::FrameParams => self.spec_frame_params().layout(),
            Resource::ManipParams => self.spec_manip_params(0).layout(),
            Resource::UpsampleParams => self.spec_upsample_params().layout(),
            Resource::LayerParams(layer) => self.conv(layer).params.layout(),
            Resource::Weights(layer) => self.conv(layer).weights@,
            Resource::Bias(layer) => self.conv(layer).bias@,
            Resource::Plane(plane) => Seq::empty(),
        }
    }

    /// The dispatch that goes with a bind group.
    pub open spec fn dispatch_of(self, group: Group) -> Command {
        Command::Dispatch {
            kernel: group.spec_kernel(),
            group,
            groups: match group.spec_kernel() {
                Kernel::RgbaToChw => gpu::tiles(self.width, self.height, 64, 16, 1),
                Kernel::ChwToRgba => gpu::tiles(self.width, self.height, 64, 16, 1),
                Kernel::Manipulate => gpu::tiles(self.latent_width, self.latent_height, 8, 8, 8),
                Kernel::Upsample => gpu::tiles(self.width, self.height, 8, 8, 8),
                Kernel::Conv(layer) => self.conv(layer).workgroups(),
            },
        }
    }

    /// The bind groups in the order of their dispatches: both frames are converted and
    /// encoded, the motion between them is manipulated, and the result is decoded.
    pub open spec fn order() -> Seq<Group> {
        seq![
            Group::RgbaToChwA,
            Group::RgbaToChwB,
            Group::EncConv1A,
            Group::EncConv2A,
            Group::EncConv3A,
            Group::EncTextureA,
            Group::EncConv1B,
            Group::EncConv2B,
            Group::EncConv3B,
            Group::Manip,
            Group::DecConv1,
            Group::Upsample,
            Group::DecConv2,
            Group::DecConv3,
            Group::ChwToRgba,
        ]
    }

    /// The dispatches of a frame.
    pub open spec fn frame_commands(self) -> Seq<Command> {
        Seq::new(Self::order().len(), |i: int| self.dispatch_of(Self::order()[i]))
    }

    /// The copy of the result to a staging buffer.
    pub open spec fn staging_copy(self, staging_idx: usize) -> Command {
        Command::Copy {
            source: Plane::RgbaOut,
            target: Plane::Staging(staging_idx),
            size: (self.pixels() * 4) as u64,
        }
    }

    // ── Construction ──

    /// Plans the model for frames of `w` by `h` pixels, with the given weights.
    #[verifier::rlimit(40)]
    pub fn new(w: u32, h: u32, weights: &ModelWeights) -> (r: Self)
        requires
            2 <= w,
            2 <= h,
            w * h <= u32::MAX,
        ensures
            r.wf(),
            r.width == w,
            r.height == h,
            r.latent_width == w / 2,
            r.latent_height == h / 2,
            forall|layer: Layer|
                #![trigger r.conv(layer)]
                {
                    &&& r.conv(layer).weights@ == weights.spec_weights(layer)
                    &&& r.conv(layer).bias@ == weights.spec_bias(layer)
                },
            r.enc_conv1.weights@ == weights.enc_conv1_w@,
            r.enc_conv1.bias@ == weights.enc_conv1_b@,
            r.enc_conv2.weights@ == weights.enc_conv2_w@,
            r.enc_conv2.bias@ == weights.enc_conv2_b@,
            r.enc_conv3.weights@ == weights.enc_conv3_w@,
            r.enc_conv3.bias@ == weights.enc_conv3_b@,
            r.enc_texture.weights@ == weights.enc_texture_w@,
            r.enc_texture.bias@ == weights.enc_texture_b@,
            r.dec_conv1.weights@ == weights.dec_conv1_w@,
            r.dec_conv1.bias@ == weights.dec_conv1_b@,
            r.dec_conv2.weights@ == weights.dec_conv2_w@,
            r.dec_conv2.bias@ == weights.dec_conv2_b@,
            r.dec_conv3.weights@ == weights.dec_conv3_w@,
            r.dec_conv3.bias@ == weights.dec_conv3_b@,
    {
        proof {
            lemma_side(w, h);
            lemma_side(h, w);
        }
        let enc_conv1 = Self::plan_layer(Layer::EncConv1, w, h, weights);
        let enc_conv2 = Self::plan_layer(Layer::EncConv2, w, h, weights);
        let enc_conv3 = Self::plan_layer(Layer::EncConv3, w, h, weights);
        let enc_texture = Self::plan_layer(Layer::EncTexture, w, h, weights);
        let dec_conv1 = Self::plan_layer(Layer::DecConv1, w, h, weights);
        let dec_conv2 = Self::plan_layer(Layer::DecConv2, w, h, weights);
        let dec_conv3 = Self::plan_layer(Layer::DecConv3, w, h, weights);
        MotionMagModel {
            enc_conv1,
            enc_conv2,
            enc_conv3,
            enc_texture,
            dec_conv1,
            dec_conv2,
            dec_conv3,
            width: w,
            height: h,
            latent_width: w / 2,
            latent_height: h / 2,
        }
    }

    /// Plans one convolution.
    fn plan_layer(layer: Layer, w: u32, h: u32, weights: &ModelWeights) -> (c: ConvLayer)
        requires
            2 <= w <= 0x8000_0000,
            2 <= h <= 0x8000_0000,
        ensures
            c.layer == layer,
            c.params == layer.spec_params(w, h),
            c.out_width == c.params.output(c.params.width),
            c.out_height == c.params.output(c.params.height),
            c.out_channels == c.params.out_channels,
            c.weights@ == weights.spec_weights(layer),
            c.bias@ == weights.spec_bias(layer),
    {
        ConvLayer::new(layer, layer.params(w, h), weights.weights(layer), weights.bias(layer))
    }

    // ── Resources ──

    /// A buffer to be created.
    pub fn buffer(&self, plane: Plane) -> (r: BufferSpec<Plane>)
        requires
            self.wf(),
        ensures
            r == self.spec_buffer(plane),
    {
        proof {
            let (w, h) = (self.latent_width as int, self.latent_height as int);
            assert(0 <= w * h <= self.width * self.height) by (nonlinear_arith)
                requires
                    0 <= w <= self.width,
                    0 <= h <= self.height,
            ;
        }
        let pixels: u64 = (self.width * self.height) as u64;
        let latent_pixels: u64 = (self.latent_width * self.latent_height) as u64;
        let size: u64 = match plane {
            Plane::FrameA => pixels * 4,
            Plane::FrameB => pixels * 4,
            Plane::ChwA => 3 * pixels * 4,
            Plane::ChwB => 3 * pixels * 4,
            Plane::Enc1A => 16 * pixels * 4,
            Plane::Enc2A => 32 * latent_pixels * 4,
            Plane::ShapeA => 32 * latent_pixels * 4,
            Plane::TextureA => 32 * latent_pixels * 4,
            Plane::Enc1B => 16 * pixels * 4,
            Plane::Enc2B => 32 * latent_pixels * 4,
            Plane::ShapeB => 32 * latent_pixels * 4,
            Plane::ManipOut => 32 * latent_pixels * 4,
            Plane::Dec1 => 32 * latent_pixels * 4,
            Plane::Upsampled => 32 * pixels * 4,
            Plane::Dec2 => 16 * pixels * 4,
            Plane::ChwOut => 3 * pixels * 4,
            Plane::RgbaOut => pixels * 4,
            Plane::Staging(_) => pixels * 4,
        };
        GpuContext::create_buffer(plane, size, plane.usage())
    }

    /// The buffers to be created, in order.
    pub fn buffers(&self) -> (r: Vec<BufferSpec<Plane>>)
        requires
            self.wf(),
        ensures
            r@ == self.spec_buffers(),
    {
        let planes: Vec<Plane> = vec![
            Plane::FrameA,
            Plane::FrameB,
            Plane::ChwA,
            Plane::ChwB,
            Plane::Enc1A,
            Plane::Enc2A,
            Plane::ShapeA,
            Plane::TextureA,
            Plane::Enc1B,
            Plane::Enc2B,
            Plane::ShapeB,
            Plane::ManipOut,
            Plane::Dec1,
            Plane::Upsampled,
            Plane::Dec2,
            Plane::ChwOut,
            Plane::RgbaOut,
            Plane::Staging(0),
            Plane::Staging(1),
        ];
        assert(planes@ =~= Self::planes());
        let mut r: Vec<BufferSpec<Plane>> = Vec::new();
        for i in 0..planes.len()
            invariant
                self.wf(),
                planes@ == Self::planes(),
                r@ == Seq::new(i as nat, |k: int| self.spec_buffer(Self::planes()[k])),
        {
            r.push(self.buffer(planes[i]));
        }
        r
    }

    /// The parameters of the conversions.
    pub fn frame_params(&self) -> (r: FrameParams)
        ensures
            r == self.spec_frame_params(),
    {
        FrameParams { width: self.width, height: self.height, _pad0: 0, _pad1: 0 }
    }

    /// The manipulator's parameters.  `alpha` is the bits of a single-precision value.
    pub fn manip_params(&self, alpha: u32) -> (r: ManipParams)
        ensures
            r == self.spec_manip_params(alpha),
            r.channels == 32,
            r.height == self.latent_height,
            r.width == self.latent_width,
            r.alpha == alpha,
    {
        ManipParams { channels: 32, height: self.latent_height, width: self.latent_width, alpha }
    }

    /// The parameters of the upsampling.
    pub fn upsample_params(&self) -> (r: UpsampleParams)
        ensures
            r == self.spec_upsample_params(),
    {
        UpsampleParams {
            channels: 32,
            in_height: self.latent_height,
            in_width: self.latent_width,
            out_height: self.height,
            out_width: self.width,
            _pad: 0,
        }
    }

    /// A convolution of the model.
    fn layer(&self, layer: Layer) -> (r: &ConvLayer)
        ensures
            *r == self.conv(layer),
    {
        match layer {
            Layer::EncConv1 => &self.enc_conv1,
            Layer::EncConv2 => &self.enc_conv2,
            Layer::EncConv3 => &self.enc_conv3,
            Layer::EncTexture => &self.enc_texture,
            Layer::DecConv1 => &self.dec_conv1,
            Layer::DecConv2 => &self.dec_conv2,
            Layer::DecConv3 => &self.dec_conv3,
        }
    }

    /// What a parameter block or a buffer of weights or biases holds when it is created.
    pub fn contents(&self, resource: Resource) -> (r: Vec<u32>)
        requires
            resource !is Plane,
        ensures
            r@ == self.spec_contents(resource),
    {
        match resource {
            Resource::FrameParams => self.frame_params().words(),
            Resource::ManipParams => self.manip_params(0).words(),
            Resource::UpsampleParams => self.upsample_params().words(),
            Resource::LayerParams(layer) => self.layer(layer).params.words(),
            Resource::Weights(layer) => words::copy_words(self.layer(layer).weights.as_slice()),
            Resource::Bias(layer) => words::copy_words(self.layer(layer).bias.as_slice()),
            Resource::Plane(_) => Vec::new(),
        }
    }

    /// The bind groups to be created, in order.
    pub fn groups() -> (r: Vec<Group>)
        ensures
            r@ == Self::spec_groups(),
    {
        let r: Vec<Group> = vec![
            Group::RgbaToChwA,
            Group::RgbaToChwB,
            Group::ChwToRgba,
            Group::Manip,
            Group::Upsample,
            Group::EncConv1A,
            Group::EncConv2A,
            Group::EncConv3A,
            Group::EncTextureA,
            Group::EncConv1B,
            Group::EncConv2B,
            Group::EncConv3B,
            Group::DecConv1,
            Group::DecConv2,
            Group::DecConv3,
        ];
        assert(r@ =~= Self::spec_groups());
        r
    }

    /// What a bind group binds.
    #[verifier::rlimit(40)]
    pub fn bind_group(&self, group: Group) -> (r: Vec<Resource>)
        requires
            self.wf(),
        ensures
            r@ == Self::spec_bind_group(group),
    {
        proof {
            self.lemma_layers();
        }
        match group {
            Group::RgbaToChwA => Self::conversion(Plane::FrameA, Plane::ChwA),
            Group::RgbaToChwB => Self::conversion(Plane::FrameB, Plane::ChwB),
            Group::ChwToRgba => Self::conversion(Plane::ChwOut, Plane::RgbaOut),
            Group::Manip => {
                let r: Vec<Resource> = vec![
                    Resource::ManipParams,
                    Resource::Plane(Plane::ShapeA),
                    Resource::Plane(Plane::ShapeB),
                    Resource::Plane(Plane::TextureA),
                    Resource::Plane(Plane::ManipOut),
                ];
                assert(r@ =~= Self::spec_bind_group(group));
                r
            },
            Group::Upsample => {
                let r: Vec<Resource> = vec![
                    Resource::UpsampleParams,
                    Resource::Plane(Plane::Dec1),
                    Resource::Plane(Plane::Upsampled),
                ];
                assert(r@ =~= Self::spec_bind_group(group));
                r
            },
            Group::EncConv1A => self.enc_conv1.create_bind_group(Plane::ChwA, Plane::Enc1A),
            Group::EncConv2A => self.enc_conv2.create_bind_group(Plane::Enc1A, Plane::Enc2A),
            Group::EncConv3A => self.enc_conv3.create_bind_group(Plane::Enc2A, Plane::ShapeA),
            Group::EncTextureA => self.enc_texture.create_bind_group(
                Plane::Enc2A,
                Plane::TextureA,
            ),
            Group::EncConv1B => self.enc_conv1.create_bind_group(Plane::ChwB, Plane::Enc1B),
            Group::EncConv2B => self.enc_conv2.create_bind_group(Plane::Enc1B, Plane::Enc2B),
            Group::EncConv3B => self.enc_conv3.create_bind_group(Plane::Enc2B, Plane::ShapeB),
            Group::DecConv1 => self.dec_conv1.create_bind_group(Plane::ManipOut, Plane::Dec1),
            Group::DecConv2 => self.dec_conv2.create_bind_group(Plane::Upsampled, Plane::Dec2),
            Group::DecConv3 => self.dec_conv3.create_bind_group(Plane::Dec2, Plane::ChwOut),
        }
    }

    /// The bind group of a conversion.
    fn conversion(input: Plane, output: Plane) -> (r: Vec<Resource>)
        ensures
            r@ == seq![Resource::FrameParams, Resource::Plane(input), Resource::Plane(output)],
    {
        let r: Vec<Resource> = vec![
            Resource::FrameParams,
            Resource::Plane(input),
            Resource::Plane(output),
        ];
        assert(r@ =~= seq![
            Resource::FrameParams,
            Resource::Plane(input),
            Resource::Plane(output),
        ]);
        r
    }

    /// Each convolution knows its layer.
    proof fn lemma_layers(self)
        requires
            self.wf(),
        ensures
            self.enc_conv1.layer == Layer::EncConv1,
            self.enc_conv2.layer == Layer::EncConv2,
            self.enc_conv3.layer == Layer::EncConv3,
            self.enc_texture.layer == Layer::EncTexture,
            self.dec_conv1.layer == Layer::DecConv1,
            self.dec_conv2.layer == Layer::DecConv2,
            self.dec_conv3.layer == Layer::DecConv3,
    {
        assert(self.conv(Layer::EncConv1).layer == Layer::EncConv1);
        assert(self.conv(Layer::EncConv2).layer == Layer::EncConv2);
        assert(self.conv(Layer::EncConv3).layer == Layer::EncConv3);
        assert(self.conv(Layer::EncTexture).layer == Layer::EncTexture);
        assert(self.conv(Layer::DecConv1).layer == Layer::DecConv1);
        assert(self.conv(Layer::DecConv2).layer == Layer::DecConv2);
        assert(self.conv(Layer::DecConv3).layer == Layer::DecConv3);
    }

    // ── Frames ──

    /// Appends a conversion between pixels and planes.
    fn record_frame_dispatch(&self, commands: &mut Vec<Command>, group: Group)
        requires
            group.spec_kernel() is RgbaToChw || group.spec_kernel() is ChwToRgba,
        ensures
            final(commands)@ == old(commands)@.push(self.dispatch_of(group)),
    {
        let groups = gpu::tile(self.width, self.height, 64, 16, 1);
        commands.push(Command::Dispatch { kernel: group.kernel(), group, groups });
    }

    /// Appends the manipulator.
    fn record_manip_dispatch(&self, commands: &mut Vec<Command>)
        ensures
            final(commands)@ == old(commands)@.push(self.dispatch_of(Group::Manip)),
    {
        let groups = gpu::tile(self.latent_width, self.latent_height, 8, 8, 8);
        commands.push(
            Command::Dispatch { kernel: Kernel::Manipulate, group: Group::Manip, groups },
        );
    }

    /// Appends the upsampling.
    fn record_upsample_dispatch(&self, commands: &mut Vec<Command>)
        ensures
            final(commands)@ == old(commands)@.push(self.dispatch_of(Group::Upsample)),
    {
        let groups = gpu::tile(self.width, self.height, 8, 8, 8);
        commands.push(
            Command::Dispatch { kernel: Kernel::Upsample, group: Group::Upsample, groups },
        );
    }

    /// Appends the dispatch that goes with a bind group.
    #[verifier::rlimit(40)]
    fn record_group(&self, commands: &mut Vec<Command>, group: Group)
        requires
            self.wf(),
        ensures
            final(commands)@ == old(commands)@.push(self.dispatch_of(group)),
    {
        proof {
            self.lemma_layers();
        }
        match group.kernel() {
            Kernel::RgbaToChw => self.record_frame_dispatch(commands, group),
            Kernel::ChwToRgba => self.record_frame_dispatch(commands, group),
            Kernel::Manipulate => self.record_manip_dispatch(commands),
            Kernel::Upsample => self.record_upsample_dispatch(commands),
            Kernel::Conv(layer) => self.layer(layer).record(commands, group),
        }
    }

    /// The dispatches of a frame.
    fn record_frame(&self) -> (r: Vec<Command>)
        requires
            self.wf(),
        ensures
            r@ == self.frame_commands(),
    {
        let order: Vec<Group> = vec![
            Group::RgbaToChwA,
            Group::RgbaToChwB,
            Group::EncConv1A,
            Group::EncConv2A,
            Group::EncConv3A,
            Group::EncTextureA,
            Group::EncConv1B,
            Group::EncConv2B,
            Group::EncConv3B,
            Group::Manip,
            Group::DecConv1,
            Group::Upsample,
            Group::DecConv2,
            Group::DecConv3,
            Group::ChwToRgba,
        ];
        assert(order@ =~= Self::order());
        let mut commands: Vec<Command> = Vec::new();
        for i in 0..order.len()
            invariant
                self.wf(),
                order@ == Self::order(),
                commands@ == Seq::new(i as nat, |k: int| self.dispatch_of(Self::order()[k])),
        {
            self.record_group(&mut commands, order[i]);
        }
        commands
    }

    /// Plans the magnification of the motion from one frame to another, with a copy of the
    /// result to a staging buffer.  `alpha` is the bits of a single-precision value.
    pub fn magnify<'a>(
        &self,
        frame_a_rgba: &'a [u32],
        frame_b_rgba: &'a [u32],
        alpha: u32,
        staging_idx: usize,
    ) -> (r: FramePlan<'a>)
        requires
            self.wf(),
            self.width * self.height * 4 <= u32::MAX,
            staging_idx < 2,
        ensures
            r.frame_a@ == crate::words::le_bytes(frame_a_rgba@) || r.frame_a@
                == crate::words::be_bytes(frame_a_rgba@),
            r.frame_b@ == crate::words::le_bytes(frame_b_rgba@) || r.frame_b@
                == crate::words::be_bytes(frame_b_rgba@),
            r.manip == self.spec_manip_params(alpha),
            r.manip.channels == 32,
            r.manip.height == self.height / 2,
            r.manip.width == self.width / 2,
            r.manip.alpha == alpha,
            r.commands@ == self.frame_commands().push(self.staging_copy(staging_idx)),
    {
        let mut plan = self.magnify_no_staging(frame_a_rgba, frame_b_rgba, alpha);
        plan.commands.push(
            Command::Copy {
                source: Plane::RgbaOut,
                target: Plane::Staging(staging_idx),
                size: (self.width * self.height * 4) as u64,
            },
        );
        plan
    }

    /// Plans the magnification without a copy: the result stays on the GPU.
    pub fn magnify_no_staging<'a>(
        &self,
        frame_a_rgba: &'a [u32],
        frame_b_rgba: &'a [u32],
        alpha: u32,
    ) -> (r: FramePlan<'a>)
        requires
            self.wf(),
        ensures
            r.frame_a@ == crate::words::le_bytes(frame_a_rgba@) || r.frame_a@
                == crate::words::be_bytes(frame_a_rgba@),
            r.frame_b@ == crate::words::le_bytes(frame_b_rgba@) || r.frame_b@
                == crate::words::be_bytes(frame_b_rgba@),
            r.manip == self.spec_manip_params(alpha),
            r.manip.channels == 32,
            r.manip.height == self.height / 2,
            r.manip.width == self.width / 2,
            r.manip.alpha == alpha,
            r.commands@ == self.frame_commands(),
    {
        FramePlan {
            frame_a: words::upload_bytes(frame_a_rgba),
            frame_b: words::upload_bytes(frame_b_rgba),
            manip: self.manip_params(alpha),
            commands: self.record_frame(),
        }
    }
}

/// A side of an image whose pixels can be counted, and which is two wide, is not too long.
proof fn lemma_side(a: u32, b: u32)
    requires
        2 <= b,
        a * b <= u32::MAX,
    ensures
        a <= 0x7fff_ffff,
{
    assert(a <= 0x7fff_ffff) by (nonlinear_arith)
        requires
            2 <= b,
            a * b <= 0xffff_ffff,
            0 <= a,
    ;
}

} // verus!
