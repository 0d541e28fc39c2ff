//! What holds of every model and of every frame it magnifies.

use crate::model::{
    Command, ConvParams, Group, Kernel, Layer, ModelWeights, MotionMagModel, Plane, Resource,
};
use vstd::prelude::*;

verus! {

// ── Sizes ──

/// A layer has a weight for each output channel, input channel and point of its kernel, and a
/// bias for each output channel, whatever the frame size.
pub proof fn lemma_weight_counts(layer: Layer, w: u32, h: u32)
    ensures
        layer.spec_weight_count() == layer.spec_params(w, h).out_channels * layer.spec_params(
            w,
            h,
        ).in_channels * layer.spec_params(w, h).kernel_size * layer.spec_params(w, h).kernel_size,
        layer.spec_bias_count() == layer.spec_params(w, h).out_channels,
{
    let p = layer.spec_params(w, h);
    assert(p.out_channels * p.in_channels * p.kernel_size * p.kernel_size
        == layer.spec_weight_count()) by (nonlinear_arith)
        requires
            p == layer.spec_params(w, h),
    ;
}

/// A side of a convolution's output has as many elements as the kernel has places on the
/// padded side: the last place fits, and there is no room for another.
pub proof fn lemma_output_places(p: ConvParams, side: u32)
    requires
        p.accepts(side),
    ensures
        p.output(side) >= 1,
        (p.output(side) - 1) * p.stride + p.kernel_size <= side + 2 * p.padding,
        p.output(side) * p.stride + p.kernel_size > side + 2 * p.padding,
{
    let room = side + 2 * p.padding - p.kernel_size;
    let stride = p.stride as int;
    let n = room / stride;
    vstd::arithmetic::div_mod::lemma_fundamental_div_mod(room, stride);
    assert(n >= 0 && n * stride <= room && room < (n + 1) * stride) by (nonlinear_arith)
        requires
            room == stride * n + room % stride,
            0 <= room % stride < stride,
            room >= 0,
    ;
}

/// The buffers of a model hold the weights and biases that it was given, each layer its own.
pub proof fn lemma_contents(m: MotionMagModel, weights: ModelWeights, layer: Layer)
    requires
        m.conv(layer).weights@ == weights.spec_weights(layer),
        m.conv(layer).bias@ == weights.spec_bias(layer),
    ensures
        m.spec_contents(Resource::Weights(layer)) == weights.spec_weights(layer),
        m.spec_contents(Resource::Bias(layer)) == weights.spec_bias(layer),
{
}

/// The input of a bind group's convolution.
pub open spec fn conv_input(group: Group) -> Plane {
    MotionMagModel::spec_bind_group(group)[1]->Plane_0
}

/// The output of a bind group's convolution.
pub open spec fn conv_output(group: Group) -> Plane {
    MotionMagModel::spec_bind_group(group)[4]->Plane_0
}

/// A convolution reads all of its input buffer.
pub proof fn lemma_conv_input_size(m: MotionMagModel, group: Group)
    requires
        m.wf(),
        group.spec_kernel() is Conv,
    ensures
        ({
            let p = m.conv(group.spec_kernel()->Conv_0).params;
            m.words_of(conv_input(group)) == p.in_channels * (p.width * p.height)
        }),
{
    let layer = group.spec_kernel()->Conv_0;
    assert(m.conv(layer).layer == layer);
}

/// A convolution fills all of its output buffer; the halving one does so on frames of even
/// width and height.  (On other frames it rounds up where the latent size rounds down.)
pub proof fn lemma_conv_output_size(m: MotionMagModel, group: Group)
    requires
        m.wf(),
        group.spec_kernel() is Conv,
        group.spec_kernel() == Kernel::Conv(Layer::EncConv2) ==> m.width % 2 == 0 && m.height % 2
            == 0,
    ensures
        ({
            let c = m.conv(group.spec_kernel()->Conv_0);
            m.words_of(conv_output(group)) == c.out_channels * (c.out_width * c.out_height)
        }),
{
    let layer = group.spec_kernel()->Conv_0;
    let c = m.conv(layer);
    assert(c.layer == layer);
    if layer is EncConv2 {
        let (w, h) = (m.width as int, m.height as int);
        assert(c.params.stride == 2);
        assert(c.params.output(c.params.width) == (w - 1) / 2 + 1);
        assert(c.params.output(c.params.height) == (h - 1) / 2 + 1);
    } else {
        lemma_conv_keeps_size(m, layer);
    }
}

/// Except for the halving one, every convolution keeps the size of the image.
pub proof fn lemma_conv_keeps_size(m: MotionMagModel, layer: Layer)
    requires
        m.wf(),
        layer !is EncConv2,
    ensures
        m.conv(layer).out_width == m.conv(layer).params.width,
        m.conv(layer).out_height == m.conv(layer).params.height,
{
    let c = m.conv(layer);
    assert(c.layer == layer);
    assert(c.params.stride == 1);
    assert(2 * c.params.padding + 1 == c.params.kernel_size);
    assert(c.params.output(c.params.width) == (c.params.width - 1) / 1 + 1);
    assert(c.params.output(c.params.height) == (c.params.height - 1) / 1 + 1);
}

// ── The shape of a frame ──

/// A frame takes fifteen dispatches, one for each bind group that was made; so nothing has to
/// be made during a frame.
#[verifier::rlimit(40)]
pub proof fn lemma_dispatches(m: MotionMagModel)
    ensures
        m.frame_commands().len() == 15,
        MotionMagModel::spec_groups().len() == 15,
        MotionMagModel::spec_groups().no_duplicates(),
        MotionMagModel::order().to_multiset() == MotionMagModel::spec_groups().to_multiset(),
        forall|i: int|
            #![trigger m.frame_commands()[i]]
            0 <= i < 15 ==> m.frame_commands()[i] == m.dispatch_of(MotionMagModel::order()[i]),
{
    let a = MotionMagModel::order();
    let b = MotionMagModel::spec_groups();
    assert forall|g: Group| a.to_multiset().count(g) == b.to_multiset().count(g) by {
        lemma_group_listed(g);
        assert(a.no_duplicates());
        assert(b.no_duplicates());
        a.lemma_multiset_has_no_duplicates();
        b.lemma_multiset_has_no_duplicates();
        a.to_multiset_ensures();
        b.to_multiset_ensures();
        assert(a.to_multiset().contains(g));
        assert(b.to_multiset().contains(g));
    }
    assert(a.to_multiset() =~= b.to_multiset());
}

/// Every bind group is made and used.
proof fn lemma_group_listed(g: Group)
    ensures
        MotionMagModel::order().contains(g),
        MotionMagModel::spec_groups().contains(g),
{
    let (i, j): (int, int) = match g {
        Group::RgbaToChwA => (0, 0),
        Group::RgbaToChwB => (1, 1),
        Group::EncConv1A => (2, 5),
        Group::EncConv2A => (3, 6),
        Group::EncConv3A => (4, 7),
        Group::EncTextureA => (5, 8),
        Group::EncConv1B => (6, 9),
        Group::EncConv2B => (7, 10),
        Group::EncConv3B => (8, 11),
        Group::Manip => (9, 3),
        Group::DecConv1 => (10, 12),
        Group::Upsample => (11, 4),
        Group::DecConv2 => (12, 13),
        Group::DecConv3 => (13, 14),
        Group::ChwToRgba => (14, 2),
    };
    assert(MotionMagModel::order()[i] == g);
    assert(MotionMagModel::spec_groups()[j] == g);
}

// ── Flow of data ──

/// A bind group's shader reads `plane`: all of its planes but the last.
pub open spec fn reads(group: Group, plane: Plane) -> bool {
    exists|b: int|
        0 <= b < MotionMagModel::spec_bind_group(group).len() - 1
            && #[trigger] MotionMagModel::spec_bind_group(group)[b] == Resource::Plane(plane)
}

/// The plane that a bind group's shader writes: its last.
pub open spec fn written(group: Group) -> Plane {
    MotionMagModel::spec_bind_group(group).last()->Plane_0
}

/// Some dispatch of the frame before the one at `i` writes `plane`.
pub open spec fn written_before(i: int, plane: Plane) -> bool {
    exists|j: int| 0 <= j < i && written(#[trigger] MotionMagModel::order()[j]) == plane
}

/// Nothing that a frame computes is read before it is written: a buffer that a shader reads is
/// one of the two frames, or was written by an earlier dispatch of the same frame.
#[verifier::rlimit(40)]
pub proof fn lemma_reads_are_written(i: int, plane: Plane)
    requires
        0 <= i < 15,
        reads(MotionMagModel::order()[i], plane),
    ensures
        plane == Plane::FrameA || plane == Plane::FrameB || written_before(i, plane),
{
    let o = MotionMagModel::order();
    let g = o[i];
    let list = MotionMagModel::spec_bind_group(g);
    let b = choose|b: int| 0 <= b < list.len() - 1 && #[trigger] list[b] == Resource::Plane(plane);
    assert(list[b] == Resource::Plane(plane));
    assert(written(o[0]) == Plane::ChwA);
    assert(written(o[1]) == Plane::ChwB);
    assert(written(o[2]) == Plane::Enc1A);
    assert(written(o[3]) == Plane::Enc2A);
    assert(written(o[4]) == Plane::ShapeA);
    assert(written(o[5]) == Plane::TextureA);
    assert(written(o[6]) == Plane::Enc1B);
    assert(written(o[7]) == Plane::Enc2B);
    assert(written(o[8]) == Plane::ShapeB);
    assert(written(o[9]) == Plane::ManipOut);
    assert(written(o[10]) == Plane::Dec1);
    assert(written(o[11]) == Plane::Upsampled);
    assert(written(o[12]) == Plane::Dec2);
    assert(written(o[13]) == Plane::ChwOut);
}

/// No two dispatches of a frame write the same buffer, and none writes one of the frames.
#[verifier::rlimit(40)]
pub proof fn lemma_written_once(i: int, j: int)
    requires
        0 <= i < 15,
        0 <= j < 15,
        written(MotionMagModel::order()[i]) == written(MotionMagModel::order()[j]),
    ensures
        i == j,
        written(MotionMagModel::order()[i]) != Plane::FrameA,
        written(MotionMagModel::order()[i]) != Plane::FrameB,
{
}

/// The last dispatch writes what the copy to a staging buffer takes; the copy takes all of it
/// to all of the staging buffer, and both may be copied.
pub proof fn lemma_staging_copy(m: MotionMagModel, staging_idx: usize)
    requires
        m.wf(),
        staging_idx < 2,
    ensures
        written(MotionMagModel::order()[14]) == Plane::RgbaOut,
        m.staging_copy(staging_idx) matches Command::Copy { source, target, size } && {
            &&& source == Plane::RgbaOut
            &&& size == m.spec_buffer(source).size
            &&& size == m.spec_buffer(target).size
            &&& MotionMagModel::usage_of(source).spec_copies_out()
            &&& MotionMagModel::usage_of(target).spec_copies_in()
            &&& MotionMagModel::planes().contains(target)
        },
{
    assert(MotionMagModel::planes()[17] == Plane::Staging(0));
    assert(MotionMagModel::planes()[18] == Plane::Staging(1));
}

// ── Resources ──

/// All buffers of a model are different.
pub proof fn lemma_planes()
    ensures
        MotionMagModel::planes().len() == 19,
        MotionMagModel::planes().no_duplicates(),
{
}

/// No bind group binds a resource twice, every buffer that it binds is one of the model's and
/// may be bound, and its first slot is its parameter block.
#[verifier::rlimit(40)]
pub proof fn lemma_bindings(group: Group)
    ensures
        MotionMagModel::spec_bind_group(group).no_duplicates(),
        MotionMagModel::spec_bind_group(group)[0] !is Plane,
        forall|b: int|
            0 <= b < MotionMagModel::spec_bind_group(group).len() ==> {
                let r = #[trigger] MotionMagModel::spec_bind_group(group)[b];
                &&& r matches Resource::Plane(plane) ==> MotionMagModel::planes().contains(plane)
                &&& b == 0 ==> r.spec_usage() is Uniform
                &&& b > 0 ==> r.spec_usage().spec_is_storage()
            },
{
    let list = MotionMagModel::spec_bind_group(group);
    assert forall|b: int| 0 <= b < list.len() implies {
        let r = #[trigger] list[b];
        &&& r matches Resource::Plane(plane) ==> MotionMagModel::planes().contains(plane)
        &&& b == 0 ==> r.spec_usage() is Uniform
        &&& b > 0 ==> r.spec_usage().spec_is_storage()
    } by {
        if let Resource::Plane(plane) = list[b] {
            lemma_plane_listed(plane);
        }
    }
}

/// Every buffer but further staging buffers is the model's.
proof fn lemma_plane_listed(plane: Plane)
    ensures
        plane !is Staging ==> MotionMagModel::planes().contains(plane),
{
    let i: int = match plane {
        Plane::FrameA => 0,
        Plane::FrameB => 1,
        Plane::ChwA => 2,
        Plane::ChwB => 3,
        Plane::Enc1A => 4,
        Plane::Enc2A => 5,
        Plane::ShapeA => 6,
        Plane::TextureA => 7,
        Plane::Enc1B => 8,
        Plane::Enc2B => 9,
        Plane::ShapeB => 10,
        Plane::ManipOut => 11,
        Plane::Dec1 => 12,
        Plane::Upsampled => 13,
        Plane::Dec2 => 14,
        Plane::ChwOut => 15,
        Plane::RgbaOut => 16,
        Plane::Staging(k) => 17,
    };
    if plane !is Staging {
        assert(MotionMagModel::planes()[i] == plane);
    }
}

} // verus!
