//! Where the data of a frame goes: which dispatch supplies which, from the two frames to the
//! result.

use crate::gpu::BindingKind;
use crate::model::{Command, Kernel, Layer, ModelWeights, MotionMagModel, Plane, Resource};
use vstd::prelude::*;

verus! {

/// What dispatch `i` of a frame binds.
pub open spec fn binds(i: int) -> Seq<Resource> {
    MotionMagModel::spec_bind_group(MotionMagModel::order()[i])
}

/// The buffer that dispatch `i` writes: the last that it binds.
pub open spec fn output(i: int) -> Resource {
    binds(i).last()
}

/// Dispatch `i` reads at slot `b` what dispatch `j` has written, and none between them has
/// written over.
pub open spec fn supplies(j: int, i: int, b: int) -> bool {
    &&& 0 <= j < i < 15
    &&& 0 < b < binds(i).len() - 1
    &&& binds(i)[b] is Plane
    &&& binds(i)[b] == output(j)
    &&& forall|m: int| j < m < i ==> #[trigger] output(m) != output(j)
}

/// Dispatch `i` runs this shader.
pub open spec fn runs(m: MotionMagModel, i: int, kernel: Kernel) -> bool {
    m.frame_commands()[i] matches Command::Dispatch { kernel: k, group, groups } && k == kernel
        && group == MotionMagModel::order()[i]
}

/// No two dispatches write the same buffer.
proof fn lemma_outputs(i: int, j: int)
    requires
        0 <= i < 15,
        0 <= j < 15,
    ensures
        output(i) is Plane,
        output(i) == output(j) ==> i == j,
        output(i) != Resource::Plane(Plane::FrameA),
        output(i) != Resource::Plane(Plane::FrameB),
{
    if output(i) == output(j) {
        crate::model::laws::lemma_written_once(i, j);
    }
    crate::model::laws::lemma_written_once(i, i);
}

/// A dispatch that reads what another has written is supplied by it.
proof fn lemma_supplies(j: int, i: int, b: int)
    requires
        0 <= j < i < 15,
        0 < b < binds(i).len() - 1,
        binds(i)[b] == output(j),
    ensures
        supplies(j, i, b),
{
    lemma_outputs(j, j);
    assert forall|m: int| j < m < i implies #[trigger] output(m) != output(j) by {
        lemma_outputs(m, j);
    }
}

/// Each of the two frames is converted and encoded for itself: the first into its shape and its
/// texture, the second into its shape, each by the three encoding layers in order; the texture
/// branches off after the second of them.
#[verifier::rlimit(80)]
pub proof fn lemma_encoding(m: MotionMagModel)
    ensures
        runs(m, 0, Kernel::RgbaToChw),
        binds(0)[1] == Resource::Plane(Plane::FrameA),
        runs(m, 1, Kernel::RgbaToChw),
        binds(1)[1] == Resource::Plane(Plane::FrameB),
        runs(m, 2, Kernel::Conv(Layer::EncConv1)) && supplies(0, 2, 1),
        runs(m, 3, Kernel::Conv(Layer::EncConv2)) && supplies(2, 3, 1),
        runs(m, 4, Kernel::Conv(Layer::EncConv3)) && supplies(3, 4, 1),
        runs(m, 5, Kernel::Conv(Layer::EncTexture)) && supplies(3, 5, 1),
        runs(m, 6, Kernel::Conv(Layer::EncConv1)) && supplies(1, 6, 1),
        runs(m, 7, Kernel::Conv(Layer::EncConv2)) && supplies(6, 7, 1),
        runs(m, 8, Kernel::Conv(Layer::EncConv3)) && supplies(7, 8, 1),
{
    lemma_supplies(0, 2, 1);
    lemma_supplies(2, 3, 1);
    lemma_supplies(3, 4, 1);
    lemma_supplies(3, 5, 1);
    lemma_supplies(1, 6, 1);
    lemma_supplies(6, 7, 1);
    lemma_supplies(7, 8, 1);
}

/// The manipulator takes the shape of the first frame, the shape of the second and the texture
/// of the first, in this order.  Its result is decoded by the first decoding layer, upsampled,
/// decoded by the other two, and converted into what is copied out.
#[verifier::rlimit(80)]
pub proof fn lemma_decoding(m: MotionMagModel, staging_idx: usize)
    ensures
        m.frame_commands().len() == 15,
        runs(m, 9, Kernel::Manipulate),
        supplies(4, 9, 1) && supplies(8, 9, 2) && supplies(5, 9, 3),
        runs(m, 10, Kernel::Conv(Layer::DecConv1)) && supplies(9, 10, 1),
        runs(m, 11, Kernel::Upsample) && supplies(10, 11, 1),
        runs(m, 12, Kernel::Conv(Layer::DecConv2)) && supplies(11, 12, 1),
        runs(m, 13, Kernel::Conv(Layer::DecConv3)) && supplies(12, 13, 1),
        runs(m, 14, Kernel::ChwToRgba) && supplies(13, 14, 1),
        m.staging_copy(staging_idx) matches Command::Copy { source, target, size } && {
            &&& Resource::Plane(source) == output(14)
            &&& target == Plane::Staging(staging_idx)
        },
{
    lemma_supplies(4, 9, 1);
    lemma_supplies(8, 9, 2);
    lemma_supplies(5, 9, 3);
    lemma_supplies(9, 10, 1);
    lemma_supplies(10, 11, 1);
    lemma_supplies(11, 12, 1);
    lemma_supplies(12, 13, 1);
    lemma_supplies(13, 14, 1);
}

/// Every result but the last is read by a later dispatch.
pub proof fn lemma_everything_is_used(m: MotionMagModel, j: int)
    requires
        0 <= j < 14,
    ensures
        exists|i: int, b: int| #[trigger] supplies(j, i, b),
{
    lemma_encoding(m);
    lemma_decoding(m, 0);
    let i: int = if j == 0 {
        2
    } else if j == 1 {
        6
    } else if j == 4 || j == 5 || j == 8 {
        9
    } else {
        j + 1
    };
    let b: int = if j == 8 {
        2
    } else if j == 5 {
        3
    } else {
        1
    };
    assert(supplies(j, i, b));
}

/// What a shader is given besides the images: a convolution the parameters, weights and biases
/// of its own layer, the others their own parameters.
pub proof fn lemma_own_parameters(i: int)
    requires
        0 <= i < 15,
    ensures
        match MotionMagModel::order()[i].spec_kernel() {
            Kernel::Conv(layer) => {
                &&& binds(i).len() == 5
                &&& binds(i)[0] == Resource::LayerParams(layer)
                &&& binds(i)[2] == Resource::Weights(layer)
                &&& binds(i)[3] == Resource::Bias(layer)
            },
            Kernel::RgbaToChw => binds(i).len() == 3 && binds(i)[0] == Resource::FrameParams,
            Kernel::ChwToRgba => binds(i).len() == 3 && binds(i)[0] == Resource::FrameParams,
            Kernel::Manipulate => binds(i).len() == 5 && binds(i)[0] == Resource::ManipParams,
            Kernel::Upsample => binds(i).len() == 3 && binds(i)[0] == Resource::UpsampleParams,
        },
{
}

// ── Where results come from ──

/// What dispatch `i` writes has been made from `frame`, over any number of dispatches.
pub open spec fn comes_from(i: int, frame: Plane) -> bool
    decreases i,
{
    exists|b: int|
        #![trigger binds(i)[b]]
        0 <= b < binds(i).len() - 1 && (binds(i)[b] == Resource::Plane(frame) || exists|j: int|
            0 <= j < i && #[trigger] output(j) == binds(i)[b] && comes_from(j, frame))
}

/// A dispatch whose only image comes from another has its origin.
proof fn lemma_single_origin(j: int, i: int, frame: Plane)
    requires
        frame is FrameA || frame is FrameB,
        supplies(j, i, 1),
        forall|b: int| 0 <= b < binds(i).len() - 1 && b != 1 ==> !(#[trigger] binds(i)[b] is Plane),
    ensures
        comes_from(i, frame) == comes_from(j, frame),
{
    lemma_outputs(j, j);
    if comes_from(j, frame) {
        assert(binds(i)[1] == output(j));
    }
    if comes_from(i, frame) {
        let b = choose|b: int|
            #![trigger binds(i)[b]]
            0 <= b < binds(i).len() - 1 && (binds(i)[b] == Resource::Plane(frame) || exists|k: int|
                0 <= k < i && #[trigger] output(k) == binds(i)[b] && comes_from(k, frame));
        if b != 1 {
            assert(!(binds(i)[b] is Plane));
            let k = choose|k: int|
                0 <= k < i && #[trigger] output(k) == binds(i)[b] && comes_from(k, frame);
            lemma_outputs(k, k);
        }
        let k = choose|k: int|
            0 <= k < i && #[trigger] output(k) == binds(i)[b] && comes_from(k, frame);
        lemma_outputs(k, j);
    }
}

/// The shape and the texture of the first frame come from the first frame and not from the
/// second; the shape of the second comes from the second and not from the first.  The result
/// comes from both.
#[verifier::rlimit(80)]
pub proof fn lemma_origins(m: MotionMagModel)
    ensures
        output(4) == binds(9)[1],
        comes_from(4, Plane::FrameA) && !comes_from(4, Plane::FrameB),
        output(5) == binds(9)[3],
        comes_from(5, Plane::FrameA) && !comes_from(5, Plane::FrameB),
        output(8) == binds(9)[2],
        comes_from(8, Plane::FrameB) && !comes_from(8, Plane::FrameA),
        output(14) == Resource::Plane(Plane::RgbaOut),
        comes_from(14, Plane::FrameA) && comes_from(14, Plane::FrameB),
{
    lemma_encoding(m);
    lemma_decoding(m, 0);
    lemma_frame_origin(0, Plane::FrameA, Plane::FrameB);
    lemma_frame_origin(1, Plane::FrameB, Plane::FrameA);
    lemma_both_origins(0, 2);
    lemma_both_origins(2, 3);
    lemma_both_origins(3, 4);
    lemma_both_origins(3, 5);
    lemma_both_origins(1, 6);
    lemma_both_origins(6, 7);
    lemma_both_origins(7, 8);
    assert(comes_from(9, Plane::FrameA)) by {
        assert(binds(9)[1] == output(4));
    }
    assert(comes_from(9, Plane::FrameB)) by {
        assert(binds(9)[2] == output(8));
    }
    lemma_both_origins(9, 10);
    lemma_both_origins(10, 11);
    lemma_both_origins(11, 12);
    lemma_both_origins(12, 13);
    lemma_both_origins(13, 14);
}

/// The conversion of a frame comes from that frame only.
proof fn lemma_frame_origin(i: int, frame: Plane, other: Plane)
    requires
        (i == 0 && frame is FrameA && other is FrameB) || (i == 1 && frame is FrameB && other
            is FrameA),
    ensures
        comes_from(i, frame),
        !comes_from(i, other),
{
    assert(binds(i)[1] == Resource::Plane(frame));
    if comes_from(i, other) {
        let b = choose|b: int|
            #![trigger binds(i)[b]]
            0 <= b < binds(i).len() - 1 && (binds(i)[b] == Resource::Plane(other) || exists|j: int|
                0 <= j < i && #[trigger] output(j) == binds(i)[b] && comes_from(j, other));
        assert(b == 0 || b == 1);
        let j = choose|j: int|
            0 <= j < i && #[trigger] output(j) == binds(i)[b] && comes_from(j, other);
        lemma_outputs(j, j);
    }
}

/// The origin of one dispatch is handed on to another that has no other image.
proof fn lemma_both_origins(j: int, i: int)
    requires
        supplies(j, i, 1),
        i != 9,
    ensures
        comes_from(i, Plane::FrameA) == comes_from(j, Plane::FrameA),
        comes_from(i, Plane::FrameB) == comes_from(j, Plane::FrameB),
{
    lemma_own_parameters(i);
    assert forall|b: int| 0 <= b < binds(i).len() - 1 && b != 1 implies !(#[trigger] binds(i)[b]
        is Plane) by {}
    lemma_single_origin(j, i, Plane::FrameA);
    lemma_single_origin(j, i, Plane::FrameB);
}

// ── Layers ──

/// The layers.  The first takes the three colours, the last gives them; in between each takes
/// as many channels as the one before gives.  Every kernel is odd and padded so that it keeps
/// the size, but the second encoding layer takes every other pixel.  The kernels are 3 by 3,
/// but the texture's is a point.  All but the texture and the last are rectified.  The layers
/// on either side of the latent image, and only they, work at half the size.
pub proof fn lemma_layers(layer: Layer, w: u32, h: u32)
    ensures
        ({
            let p = layer.spec_params(w, h);
            let latent = layer is EncConv3 || layer is EncTexture || layer is DecConv1;
            &&& p.in_channels == match layer {
                Layer::EncConv1 => 3u32,
                Layer::EncConv2 => 16,
                Layer::DecConv3 => 16,
                _ => 32,
            }
            &&& p.out_channels == match layer {
                Layer::EncConv1 => 16u32,
                Layer::DecConv2 => 16,
                Layer::DecConv3 => 3,
                _ => 32,
            }
            &&& p.kernel_size == if layer is EncTexture {
                1u32
            } else {
                3
            }
            &&& 2 * p.padding + 1 == p.kernel_size
            &&& p.stride == if layer is EncConv2 {
                2u32
            } else {
                1
            }
            &&& p.use_relu == if layer is EncTexture || layer is DecConv3 {
                0u32
            } else {
                1
            }
            &&& latent ==> 2 * p.width <= w < 2 * p.width + 2 && 2 * p.height <= h < 2 * p.height
                + 2
            &&& !latent ==> p.width == w && p.height == h
        }),
{
}

/// A layer's block has the channels that go in and out, the side of the kernel, the stride, the
/// padding, width and height of the input and whether the result is rectified, in this order.
pub proof fn lemma_layer_words(m: MotionMagModel, layer: Layer)
    requires
        m.wf(),
    ensures
        ({
            let words = m.spec_contents(Resource::LayerParams(layer));
            let p = layer.spec_params(m.width, m.height);
            &&& words.len() == 8
            &&& words[0] == p.in_channels && words[1] == p.out_channels
            &&& words[2] == p.kernel_size && words[3] == p.stride && words[4] == p.padding
            &&& words[5] == p.width && words[6] == p.height && words[7] == p.use_relu
        }),
{
    assert(m.conv(layer).layer == layer);
}

/// The words of the other blocks: the conversions know the frame size; the manipulator the 32
/// channels and the latent size and the caller's factor, unchanged; the upsampling the 32
/// channels, the latent size and the frame size.
pub proof fn lemma_other_words(m: MotionMagModel, alpha: u32)
    requires
        m.wf(),
    ensures
        m.spec_contents(Resource::FrameParams) =~= seq![m.width, m.height, 0u32, 0u32],
        m.spec_contents(Resource::ManipParams) =~= seq![
            32u32,
            m.height / 2,
            m.width / 2,
            0u32,
        ],
        m.spec_contents(Resource::UpsampleParams) =~= seq![
            32u32,
            m.height / 2,
            m.width / 2,
            m.height,
            m.width,
            0u32,
        ],
        m.spec_manip_params(alpha).layout() =~= seq![32u32, m.height / 2, m.width / 2, alpha],
{
}

/// Each layer has the weights and the biases that bear its name.
pub proof fn lemma_weights_by_name(weights: ModelWeights)
    ensures
        weights.spec_weights(Layer::EncConv1) == weights.enc_conv1_w@,
        weights.spec_weights(Layer::EncConv2) == weights.enc_conv2_w@,
        weights.spec_weights(Layer::EncConv3) == weights.enc_conv3_w@,
        weights.spec_weights(Layer::EncTexture) == weights.enc_texture_w@,
        weights.spec_weights(Layer::DecConv1) == weights.dec_conv1_w@,
        weights.spec_weights(Layer::DecConv2) == weights.dec_conv2_w@,
        weights.spec_weights(Layer::DecConv3) == weights.dec_conv3_w@,
        weights.spec_bias(Layer::EncConv1) == weights.enc_conv1_b@,
        weights.spec_bias(Layer::EncConv2) == weights.enc_conv2_b@,
        weights.spec_bias(Layer::EncConv3) == weights.enc_conv3_b@,
        weights.spec_bias(Layer::EncTexture) == weights.enc_texture_b@,
        weights.spec_bias(Layer::DecConv1) == weights.dec_conv1_b@,
        weights.spec_bias(Layer::DecConv2) == weights.dec_conv2_b@,
        weights.spec_bias(Layer::DecConv3) == weights.dec_conv3_b@,
{
}

/// The convolutions of a model are those that bear their layers' names.
pub proof fn lemma_layers_by_name(m: MotionMagModel)
    requires
        m.wf(),
    ensures
        m.enc_conv1.layer == Layer::EncConv1,
        m.enc_conv2.layer == Layer::EncConv2,
        m.enc_conv3.layer == Layer::EncConv3,
        m.enc_texture.layer == Layer::EncTexture,
        m.dec_conv1.layer == Layer::DecConv1,
        m.dec_conv2.layer == Layer::DecConv2,
        m.dec_conv3.layer == Layer::DecConv3,
{
    assert(m.conv(Layer::EncConv1).layer == Layer::EncConv1);
    assert(m.conv(Layer::EncConv2).layer == Layer::EncConv2);
    assert(m.conv(Layer::EncConv3).layer == Layer::EncConv3);
    assert(m.conv(Layer::EncTexture).layer == Layer::EncTexture);
    assert(m.conv(Layer::DecConv1).layer == Layer::DecConv1);
    assert(m.conv(Layer::DecConv2).layer == Layer::DecConv2);
    assert(m.conv(Layer::DecConv3).layer == Layer::DecConv3);
}

/// The slots of a convolution suit what is bound there: a uniform for the parameters, storage
/// for the rest, which can be written for the output only.
pub proof fn lemma_conv_slots(layer: Layer, input: Plane, target: Plane, b: int)
    requires
        0 <= b < 5,
    ensures
        ({
            let bindings = crate::model::ConvLayer::bindings(layer, input, target);
            let entry = crate::model::conv_layout()[b];
            &&& crate::model::conv_layout().len() == 5 && bindings.len() == 5
            &&& entry.binding == b
            &&& entry.visibility is Compute
            &&& entry.kind is Uniform <==> bindings[b] == Resource::LayerParams(layer)
            &&& entry.kind == (BindingKind::Storage { read_only: false }) <==> b == 4
            &&& bindings[1] == Resource::Plane(input)
            &&& bindings[4] == Resource::Plane(target)
        }),
{
}

// ── Buffers and workgroups ──

/// The channels of a buffer: one packed word for the colours of a pixel, or one value each.
pub open spec fn channels(plane: Plane) -> int {
    match plane {
        Plane::ChwA => 3,
        Plane::ChwB => 3,
        Plane::ChwOut => 3,
        Plane::Enc1A => 16,
        Plane::Enc1B => 16,
        Plane::Dec2 => 16,
        Plane::FrameA => 1,
        Plane::FrameB => 1,
        Plane::RgbaOut => 1,
        Plane::Staging(i) => 1,
        _ => 32,
    }
}

/// The sizes and uses of the buffers: four bytes for each channel of each pixel, of half the
/// size in either direction between the halving and the upsampling.  The frames can be uploaded,
/// the result copied from, the staging buffers copied to and mapped; the rest is bound only.
pub proof fn lemma_buffer(m: MotionMagModel, plane: Plane)
    requires
        m.wf(),
    ensures
        ({
            let b = m.spec_buffer(plane);
            let latent = plane is Enc2A || plane is Enc2B || plane is ShapeA || plane is ShapeB
                || plane is TextureA || plane is ManipOut || plane is Dec1;
            &&& b.id == plane
            &&& latent ==> b.size == 4 * (channels(plane) * ((m.width / 2) * (m.height / 2)))
            &&& !latent ==> b.size == 4 * (channels(plane) * (m.width * m.height))
            &&& b.usage == match plane {
                Plane::FrameA => crate::gpu::Usage::StorageBoth,
                Plane::FrameB => crate::gpu::Usage::StorageBoth,
                Plane::RgbaOut => crate::gpu::Usage::StorageSource,
                Plane::Staging(i) => crate::gpu::Usage::Staging,
                _ => crate::gpu::Usage::Storage,
            }
        }),
{
    let (w, h) = (m.width as int, m.height as int);
    let (lw, lh) = (m.latent_width as int, m.latent_height as int);
    assert(0 <= lw * lh <= w * h) by (nonlinear_arith)
        requires
            0 <= lw <= w,
            0 <= lh <= h,
    ;
    assert((m.width / 2) * (m.height / 2) == lw * lh);
}

/// Weights and biases are bound only; parameter blocks are uniforms that can be uploaded to.
pub proof fn lemma_uses(layer: Layer)
    ensures
        Resource::Weights(layer).spec_usage() == crate::gpu::Usage::Storage,
        Resource::Bias(layer).spec_usage() == crate::gpu::Usage::Storage,
        Resource::LayerParams(layer).spec_usage() == crate::gpu::Usage::Uniform,
        Resource::FrameParams.spec_usage() == crate::gpu::Usage::Uniform,
        Resource::ManipParams.spec_usage() == crate::gpu::Usage::Uniform,
        Resource::UpsampleParams.spec_usage() == crate::gpu::Usage::Uniform,
{
}

/// As many groups of a size as a length needs, and no more.
pub open spec fn just_covers(groups: u32, size: int, length: u32) -> bool {
    groups * size >= length && (groups - 1) * size < length
}

/// The workgroups of a dispatch just cover what it writes: a convolution's by 8 by 8 pixels for
/// each channel that it puts out, the conversions' by 64 by 16 pixels, the manipulator's and
/// the upsampling's by 8 by 8 pixels in eight layers.
pub proof fn lemma_workgroups(m: MotionMagModel, i: int)
    requires
        m.wf(),
        0 <= i < 15,
    ensures
        m.frame_commands()[i] matches Command::Dispatch { kernel, group, groups } && {
            &&& kernel is RgbaToChw || kernel is ChwToRgba ==> {
                &&& just_covers(groups.x, 64, m.width)
                &&& just_covers(groups.y, 16, m.height)
                &&& groups.z == 1
            }
            &&& kernel is Manipulate ==> {
                &&& just_covers(groups.x, 8, m.width / 2)
                &&& just_covers(groups.y, 8, m.height / 2)
                &&& groups.z == 8
            }
            &&& kernel is Upsample ==> {
                &&& just_covers(groups.x, 8, m.width)
                &&& just_covers(groups.y, 8, m.height)
                &&& groups.z == 8
            }
            &&& kernel matches Kernel::Conv(layer) ==> {
                let c = m.conv(layer);
                &&& just_covers(groups.x, 8, c.out_width)
                &&& just_covers(groups.y, 8, c.out_height)
                &&& groups.z == layer.spec_params(m.width, m.height).out_channels
            }
        },
{
    let group = MotionMagModel::order()[i];
    crate::gpu::lemma_tiles_cover(m.width, m.height, 64, 16, 1);
    crate::gpu::lemma_tiles_cover(m.width, m.height, 8, 8, 8);
    crate::gpu::lemma_tiles_cover(m.latent_width, m.latent_height, 8, 8, 8);
    if let Kernel::Conv(layer) = group.spec_kernel() {
        let c = m.conv(layer);
        assert(c.layer == layer);
        crate::gpu::lemma_tiles_cover(c.out_width, c.out_height, 8, 8, c.out_channels);
        lemma_output_positive(m, layer);
    }
}

/// A convolution puts something out.
proof fn lemma_output_positive(m: MotionMagModel, layer: Layer)
    requires
        m.wf(),
    ensures
        m.conv(layer).out_width >= 1,
        m.conv(layer).out_height >= 1,
{
    let c = m.conv(layer);
    assert(c.layer == layer);
    let p = c.params;
    assert(p.accepts(p.width) && p.accepts(p.height)) by {
        assert(p.stride == 1 || p.stride == 2);
        assert(p.output(p.width) == c.out_width);
        assert(p.output(p.height) == c.out_height);
        lemma_fits(m);
    }
    crate::model::laws::lemma_output_places(p, p.width);
    crate::model::laws::lemma_output_places(p, p.height);
}

/// The sides of a frame are not too long for the arithmetic.
proof fn lemma_fits(m: MotionMagModel)
    requires
        m.wf(),
    ensures
        m.width <= 0x7fff_ffff,
        m.height <= 0x7fff_ffff,
{
    let (w, h) = (m.width as int, m.height as int);
    assert(w <= 0x7fff_ffff && h <= 0x7fff_ffff) by (nonlinear_arith)
        requires
            2 <= w,
            2 <= h,
            w * h <= 0xffff_ffff,
    ;
}

} // verus!
