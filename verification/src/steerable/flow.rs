//! Where the data of a frame goes: which command supplies which, from the incoming frame to
//! the drawing.

use crate::steerable::{CommandView, Kernel, Resource, SteerablePipeline, Storage, Uniform};
use vstd::prelude::*;

verus! {

/// What command `i` binds at slot `b`.
pub open spec fn slot(p: SteerablePipeline, i: int, b: int) -> Resource {
    crate::steerable::laws::bindings_of(p.frame_commands()[i])[b]
}

/// Command `j` puts out at slot `output` what command `i` takes in at slot `input`: both bind
/// the same buffer, `j` writes it, `i` reads it, and no command between them writes it.
pub open spec fn supplies(
    p: SteerablePipeline,
    j: int,
    output: int,
    i: int,
    input: int,
) -> bool {
    let f = p.frame_commands();
    &&& 0 <= j < i < f.len()
    &&& 0 <= output < crate::steerable::laws::bindings_of(f[j]).len()
    &&& 0 <= input < crate::steerable::laws::bindings_of(f[i]).len()
    &&& slot(p, j, output) == slot(p, i, input)
    &&& slot(p, j, output) matches Resource::Storage(s) && passes(p, j, i, s)
}

/// Command `i` reads of `s` what command `j` has written.
pub open spec fn passes(p: SteerablePipeline, j: int, i: int, s: Storage) -> bool {
    let f = p.frame_commands();
    &&& crate::steerable::laws::writes(f[j], s)
    &&& crate::steerable::laws::reads(f[i], s)
    &&& forall|m: int| j < m < i ==> !crate::steerable::laws::writes(#[trigger] f[m], s)
}

/// Both parts of a complex image go from slots 3 and 4 of one command to slots 1 and 2 of
/// another.
pub open spec fn supplies_image(p: SteerablePipeline, j: int, i: int) -> bool {
    supplies(p, j, 3, i, 1) && supplies(p, j, 4, i, 2)
}

/// The command runs this shader.
pub open spec fn runs(c: CommandView, kernel: Kernel) -> bool {
    c matches CommandView::Dispatch { kernel: k, bindings, groups } && k == kernel
}

/// The commands that add to the accumulated spectrum, in order: one for each sub-band, and one
/// for each of the two residuals.
pub open spec fn accumulation(p: SteerablePipeline, k: int) -> int {
    if k < p.bands() {
        11 + 7 * k
    } else {
        5 + 6 * p.bands() + k
    }
}

/// Which commands write the buffers that outlast a sub-band.
proof fn lemma_writers(p: SteerablePipeline, m: int)
    requires
        p.wf(),
        0 <= m < p.frame_commands().len(),
    ensures
        ({
            let c = p.frame_commands()[m];
            let n = p.bands();
            let adds = (5 <= m < 5 + 7 * n && (m - 5) % 7 == 6) || m == 5 + 7 * n || m == 6 + 7
                * n;
            &&& crate::steerable::laws::writes(c, Storage::SpectrumRe) <==> m == 2
            &&& crate::steerable::laws::writes(c, Storage::SpectrumIm) <==> m == 2
            &&& crate::steerable::laws::writes(c, Storage::I) <==> m == 0
            &&& crate::steerable::laws::writes(c, Storage::Q) <==> m == 0
            &&& crate::steerable::laws::writes(c, Storage::AccumulatorRe) <==> m == 3 || adds
            &&& crate::steerable::laws::writes(c, Storage::AccumulatorIm) <==> m == 4 || adds
            &&& !crate::steerable::laws::writes(c, Storage::RgbaIn)
            &&& !crate::steerable::laws::writes(c, Storage::Zeros)
        }),
{
    crate::steerable::laws::lemma_frame_shape(p);
    crate::steerable::laws::lemma_bands(p);
    assert(p.frame_commands()[m] == crate::steerable::laws::command_at(p, m));
}

/// A command that follows another at once takes what that has put out.
proof fn lemma_next(p: SteerablePipeline, j: int, output: int, input: int)
    requires
        0 <= j,
        j + 1 < p.frame_commands().len(),
        0 <= output < crate::steerable::laws::bindings_of(p.frame_commands()[j]).len(),
        0 <= input < crate::steerable::laws::bindings_of(p.frame_commands()[j + 1]).len(),
        slot(p, j, output) == slot(p, j + 1, input),
        slot(p, j, output) is Storage,
        crate::steerable::laws::writes(
            p.frame_commands()[j],
            slot(p, j, output)->Storage_0,
        ),
        crate::steerable::laws::reads(
            p.frame_commands()[j + 1],
            slot(p, j, output)->Storage_0,
        ),
    ensures
        supplies(p, j, output, j + 1, input),
{
}

/// The incoming frame is converted first.  Its luminance is transformed, as the real part of an
/// image whose imaginary part is zero, into the spectrum: rows first, then columns.
#[verifier::rlimit(40)]
pub proof fn lemma_spectrum(p: SteerablePipeline)
    requires
        p.wf(),
    ensures
        runs(p.frame_commands()[0], Kernel::RgbaToY),
        slot(p, 0, 0) == Resource::Uniform(Uniform::Color),
        slot(p, 0, 1) == Resource::Storage(Storage::RgbaIn),
        crate::steerable::laws::transforms(p.frame_commands()[1], Uniform::RowForward),
        supplies(p, 0, 2, 1, 1),
        slot(p, 1, 2) == Resource::Storage(Storage::Zeros),
        crate::steerable::laws::transforms(p.frame_commands()[2], Uniform::ColumnForward),
        supplies_image(p, 1, 2),
{
    crate::steerable::laws::lemma_frame_shape(p);
    crate::steerable::laws::lemma_bands(p);
    let f = p.frame_commands();
    assert(f[0] == crate::steerable::laws::command_at(p, 0));
    assert(f[1] == crate::steerable::laws::command_at(p, 1));
    assert(f[2] == crate::steerable::laws::command_at(p, 2));
    lemma_next(p, 0, 2, 1);
    lemma_next(p, 1, 3, 1);
    lemma_next(p, 1, 4, 2);
}

/// A sub-band: its filter takes the spectrum of the frame; the result is transformed back,
/// columns first, then rows; its phase is amplified with the state of this very sub-band; the
/// result is transformed again, and its own filter adds it to the accumulated spectrum.
#[verifier::rlimit(80)]
pub proof fn lemma_band(p: SteerablePipeline, k: u32)
    requires
        p.wf(),
        k < p.bands(),
    ensures
        ({
            let f = p.frame_commands();
            let b = 5 + 7 * k;
            &&& runs(f[b], Kernel::Filter)
            &&& slot(p, b, 0) == Resource::Uniform(Uniform::Filter(k))
            &&& supplies_image(p, 2, b)
            &&& crate::steerable::laws::transforms(f[b + 1], Uniform::ColumnInverse)
            &&& supplies_image(p, b, b + 1)
            &&& crate::steerable::laws::transforms(f[b + 2], Uniform::RowInverse)
            &&& supplies_image(p, b + 1, b + 2)
            &&& runs(f[b + 3], Kernel::PhaseAmplify)
            &&& slot(p, b + 3, 0) == Resource::Uniform(Uniform::Phase)
            &&& supplies_image(p, b + 2, b + 3)
            &&& slot(p, b + 3, 3) == Resource::Storage(Storage::PrevRe(k))
            &&& slot(p, b + 3, 4) == Resource::Storage(Storage::PrevIm(k))
            &&& slot(p, b + 3, 5) == Resource::Storage(Storage::LowpassHigh(k))
            &&& slot(p, b + 3, 6) == Resource::Storage(Storage::LowpassLow(k))
            &&& crate::steerable::laws::transforms(f[b + 4], Uniform::RowForward)
            &&& supplies(p, b + 3, 7, b + 4, 1)
            &&& supplies(p, b + 3, 8, b + 4, 2)
            &&& crate::steerable::laws::transforms(f[b + 5], Uniform::ColumnForward)
            &&& supplies_image(p, b + 4, b + 5)
            &&& crate::steerable::laws::accumulates(f[b + 6], Uniform::FilterAccumulate(k))
            &&& supplies_image(p, b + 5, b + 6)
        }),
{
    crate::steerable::laws::lemma_frame_shape(p);
    crate::steerable::laws::lemma_bands(p);
    let f = p.frame_commands();
    let b = 5 + 7 * k;
    assert(f[2] == crate::steerable::laws::command_at(p, 2));
    assert forall|r: int| 0 <= r < 7 implies f[b + r] == #[trigger] p.band(k as int)[r] by {
        assert((b + r - 5) / 7 == k && (b + r - 5) % 7 == r);
        assert(f[b + r] == crate::steerable::laws::command_at(p, b + r));
    }
    let band = p.band(k as int);
    assert(f[b + 0] == band[0]);
    assert(f[b + 1] == band[1]);
    assert(f[b + 2] == band[2]);
    assert(f[b + 3] == band[3]);
    assert(f[b + 4] == band[4]);
    assert(f[b + 5] == band[5]);
    assert(f[b + 6] == band[6]);
    lemma_next(p, b, 3, 1);
    lemma_next(p, b, 4, 2);
    lemma_next(p, b + 1, 3, 1);
    lemma_next(p, b + 1, 4, 2);
    lemma_next(p, b + 2, 3, 1);
    lemma_next(p, b + 2, 4, 2);
    lemma_next(p, b + 3, 7, 1);
    lemma_next(p, b + 3, 8, 2);
    lemma_next(p, b + 4, 3, 1);
    lemma_next(p, b + 4, 4, 2);
    lemma_next(p, b + 5, 3, 1);
    lemma_next(p, b + 5, 4, 2);
    assert forall|m: int| 2 < m < b implies !crate::steerable::laws::writes(
        #[trigger] f[m],
        Storage::SpectrumRe,
    ) && !crate::steerable::laws::writes(f[m], Storage::SpectrumIm) by {
        lemma_writers(p, m);
    }
}

/// The accumulated spectrum: both parts are cleared, then each addition takes what the one
/// before has left, through all sub-bands in order and the two residuals.
#[verifier::rlimit(80)]
pub proof fn lemma_accumulation(p: SteerablePipeline, k: int)
    requires
        p.wf(),
        0 <= k <= p.bands() + 1,
    ensures
        ({
            let f = p.frame_commands();
            let i = accumulation(p, k);
            &&& 0 <= i < f.len()
            &&& runs(f[i], Kernel::FilterAccumulate)
            &&& k < p.bands() ==> slot(p, i, 0) == Resource::Uniform(
                Uniform::FilterAccumulate(k as u32),
            )
            &&& k == p.bands() ==> slot(p, i, 0) == Resource::Uniform(Uniform::ResidualHigh)
            &&& k == p.bands() + 1 ==> slot(p, i, 0) == Resource::Uniform(Uniform::ResidualLow)
            &&& k == 0 ==> {
                &&& slot(p, 3, 0) == Resource::Storage(Storage::Zeros)
                &&& slot(p, 4, 0) == Resource::Storage(Storage::Zeros)
                &&& f[3] is Copy && f[4] is Copy
                &&& supplies(p, 3, 1, i, 3)
                &&& supplies(p, 4, 1, i, 4)
            }
            &&& k > 0 ==> {
                &&& supplies(p, accumulation(p, k - 1), 3, i, 3)
                &&& supplies(p, accumulation(p, k - 1), 4, i, 4)
            }
        }),
{
    crate::steerable::laws::lemma_frame_shape(p);
    crate::steerable::laws::lemma_bands(p);
    let f = p.frame_commands();
    let n = p.bands();
    let i = accumulation(p, k);
    if k < n {
        assert((i - 5) / 7 == k && (i - 5) % 7 == 6);
    }
    assert(f[i] == crate::steerable::laws::command_at(p, i));
    assert(f[3] == crate::steerable::laws::command_at(p, 3));
    assert(f[4] == crate::steerable::laws::command_at(p, 4));
    let re = Storage::AccumulatorRe;
    let im = Storage::AccumulatorIm;
    if k == 0 {
        assert forall|m: int| 3 < m < i implies !crate::steerable::laws::writes(
            #[trigger] f[m],
            re,
        ) by {
            lemma_writers(p, m);
        }
        assert forall|m: int| 4 < m < i implies !crate::steerable::laws::writes(
            #[trigger] f[m],
            im,
        ) by {
            lemma_writers(p, m);
        }
    } else {
        let j = accumulation(p, k - 1);
        if k - 1 < n {
            assert((j - 5) / 7 == k - 1 && (j - 5) % 7 == 6);
        }
        assert(f[j] == crate::steerable::laws::command_at(p, j));
        assert forall|m: int| j < m < i implies !crate::steerable::laws::writes(
            #[trigger] f[m],
            re,
        ) && !crate::steerable::laws::writes(f[m], im) by {
            lemma_writers(p, m);
            if k < n {
                assert(0 < m - j < 7);
                assert((m - 5) % 7 != 6);
            }
        }
    }
}

/// The residuals take the spectrum of the frame.  The complete accumulated spectrum is
/// transformed back, columns first, then rows.  The real part of that, and no other luminance,
/// is converted with both chrominances of the incoming frame, each in its place; the outcome is
/// what is drawn, last.
#[verifier::rlimit(80)]
pub proof fn lemma_result(p: SteerablePipeline)
    requires
        p.wf(),
    ensures
        ({
            let f = p.frame_commands();
            let t = 5 + 7 * p.bands();
            &&& f.len() == t + 6
            &&& supplies_image(p, 2, t)
            &&& supplies_image(p, 2, t + 1)
            &&& accumulation(p, p.bands() + 1) == t + 1
            &&& crate::steerable::laws::transforms(f[t + 2], Uniform::ColumnInverse)
            &&& supplies_image(p, t + 1, t + 2)
            &&& crate::steerable::laws::transforms(f[t + 3], Uniform::RowInverse)
            &&& supplies_image(p, t + 2, t + 3)
            &&& runs(f[t + 4], Kernel::YiqToRgba)
            &&& slot(p, t + 4, 0) == Resource::Uniform(Uniform::Color)
            &&& supplies(p, t + 3, 3, t + 4, 1)
            &&& supplies(p, 0, 3, t + 4, 2)
            &&& supplies(p, 0, 4, t + 4, 3)
            &&& f[t + 5] is Blit
            &&& slot(p, t + 5, 0) == Resource::Uniform(Uniform::Blit)
            &&& supplies(p, t + 4, 4, t + 5, 1)
        }),
{
    crate::steerable::laws::lemma_frame_shape(p);
    crate::steerable::laws::lemma_bands(p);
    let f = p.frame_commands();
    let t = 5 + 7 * p.bands();
    assert(f[0] == crate::steerable::laws::command_at(p, 0));
    assert(f[2] == crate::steerable::laws::command_at(p, 2));
    assert(f[t] == crate::steerable::laws::command_at(p, t));
    assert(f[t + 1] == crate::steerable::laws::command_at(p, t + 1));
    assert(f[t + 2] == crate::steerable::laws::command_at(p, t + 2));
    assert(f[t + 3] == crate::steerable::laws::command_at(p, t + 3));
    assert(f[t + 4] == crate::steerable::laws::command_at(p, t + 4));
    assert(f[t + 5] == crate::steerable::laws::command_at(p, t + 5));
    lemma_next(p, t + 1, 3, 1);
    lemma_next(p, t + 1, 4, 2);
    lemma_next(p, t + 2, 3, 1);
    lemma_next(p, t + 2, 4, 2);
    lemma_next(p, t + 3, 3, 1);
    lemma_next(p, t + 4, 4, 1);
    assert forall|m: int| 2 < m < t + 1 implies !crate::steerable::laws::writes(
        #[trigger] f[m],
        Storage::SpectrumRe,
    ) && !crate::steerable::laws::writes(f[m], Storage::SpectrumIm) by {
        lemma_writers(p, m);
    }
    assert forall|m: int| 0 < m < t + 4 implies !crate::steerable::laws::writes(
        #[trigger] f[m],
        Storage::I,
    ) && !crate::steerable::laws::writes(f[m], Storage::Q) by {
        lemma_writers(p, m);
    }
}

/// Command `i` takes something that command `j` has put out.
pub open spec fn takes(p: SteerablePipeline, j: int, i: int) -> bool {
    exists|output: int, input: int| #[trigger] supplies(p, j, output, i, input)
}

/// What command `j` puts out has an influence on command `i`, over any number of commands.
pub open spec fn leads_to(p: SteerablePipeline, j: int, i: int) -> bool
    decreases i - j,
{
    j == i || (j < i && exists|m: int| j < m <= i && #[trigger] takes(p, j, m) && leads_to(p, m, i))
}

/// Every command of a frame has an influence on what is drawn: the conversion, the transforms,
/// the clearing, and the filters and the amplified phase of every sub-band.
pub proof fn lemma_everything_is_drawn(p: SteerablePipeline, j: int)
    requires
        p.wf(),
        0 <= j < p.frame_commands().len(),
    ensures
        leads_to(p, j, p.frame_commands().len() - 1),
        p.frame_commands().last() is Blit,
    decreases p.frame_commands().len() - j,
{
    crate::steerable::laws::lemma_frame_shape(p);
    crate::steerable::laws::lemma_bands(p);
    lemma_spectrum(p);
    lemma_result(p);
    let n = p.bands();
    let t = 5 + 7 * n;
    let last = p.frame_commands().len() - 1;
    if j < last {
        let m = next_of(p, j);
        assert(takes(p, j, m)) by {
            if j == 0 {
                assert(supplies(p, 0, 2, 1, 1));
            } else if j == 1 {
                assert(supplies(p, 1, 3, 2, 1));
            } else if j == 2 {
                if n > 0 {
                    lemma_band(p, 0);
                }
                assert(supplies(p, 2, 3, m, 1));
            } else if j <= 4 {
                lemma_accumulation(p, 0);
                if j == 3 {
                    assert(supplies(p, 3, 1, m, 3));
                } else {
                    assert(supplies(p, 4, 1, m, 4));
                }
            } else if j < t {
                let k = (j - 5) / 7;
                let r = (j - 5) % 7;
                assert(j == 5 + 7 * k + r);
                if r == 6 {
                    lemma_accumulation(p, k + 1);
                    assert(accumulation(p, k) == j);
                    assert(supplies(p, j, 3, m, 3));
                } else {
                    lemma_band(p, k as u32);
                    if r == 3 {
                        assert(supplies(p, j, 7, m, 1));
                    } else {
                        assert(supplies(p, j, 3, m, 1));
                    }
                }
            } else if j == t {
                lemma_accumulation(p, n + 1);
                assert(accumulation(p, n) == t);
                assert(supplies(p, t, 3, t + 1, 3));
            } else if j == t + 4 {
                assert(supplies(p, j, 4, m, 1));
            } else {
                assert(supplies(p, j, 3, m, 1));
            }
        }
        lemma_everything_is_drawn(p, m);
        assert(j < m <= last && takes(p, j, m) && leads_to(p, m, last));
    }
}

/// A later command that takes what command `j` puts out.
spec fn next_of(p: SteerablePipeline, j: int) -> int {
    let t = 5 + 7 * p.bands();
    if j == 2 {
        5
    } else if j == 3 || j == 4 {
        accumulation(p, 0)
    } else if 5 <= j < t && (j - 5) % 7 == 6 {
        accumulation(p, (j - 5) / 7 + 1)
    } else {
        j + 1
    }
}

// ── Workgroups ──

/// As many groups of a size as a length needs, and no more.
pub open spec fn just_covers(groups: u32, size: int, length: u32) -> bool {
    groups * size >= length && (groups - 1) * size < length
}

/// The workgroups of a dispatch.  A pass of transforms has one for each transform that its
/// parameters tell.  Every other shader has groups of 16 by 16: just as many as the padded
/// image needs, or the frame for the conversion back.
pub proof fn lemma_workgroups(p: SteerablePipeline, i: int)
    requires
        p.wf(),
        0 <= i < p.frame_commands().len(),
    ensures
        p.frame_commands()[i] matches CommandView::Dispatch { kernel, bindings, groups } ==> {
            &&& kernel is Fft ==> {
                &&& groups.x == p.uniform_layout(bindings[0]->Uniform_0)[2]
                &&& groups.y == 1
                &&& groups.z == 1
            }
            &&& kernel !is Fft && kernel !is YiqToRgba ==> {
                &&& just_covers(groups.x, 16, p.pw)
                &&& just_covers(groups.y, 16, p.ph)
                &&& groups.z == 1
            }
            &&& kernel is YiqToRgba ==> {
                &&& just_covers(groups.x, 16, p.ow)
                &&& just_covers(groups.y, 16, p.oh)
                &&& groups.z == 1
            }
        },
        p.frame_commands()[i] matches CommandView::Blit { bindings, vertices } ==> vertices == 6,
{
    crate::steerable::laws::lemma_frame_shape(p);
    crate::steerable::laws::lemma_bands(p);
    assert(p.frame_commands()[i] == crate::steerable::laws::command_at(p, i));
    crate::gpu::lemma_tiles_cover(p.pw, p.ph, 16, 16, 1);
    crate::gpu::lemma_tiles_cover(p.ow, p.oh, 16, 16, 1);
}

// ── Parameters and buffers ──

/// The words of the parameter blocks.  Both conversions know the frame and the padded size, the
/// drawing the frame size.  A pass over the rows has one transform for each row, of neighbouring
/// pixels; one over the columns has one for each column, of pixels a row apart; forward passes
/// are told from inverse ones.  A sub-band's two filters have its scale and its orientation, of
/// as many as there are, and are neither residual; the residuals are told apart and squared.
pub proof fn lemma_parameters(p: SteerablePipeline, band: u32)
    requires
        p.wf(),
    ensures
        p.uniform_layout(Uniform::Color) =~= seq![p.ow, p.oh, p.pw, p.ph],
        p.uniform_layout(Uniform::Blit) =~= seq![p.ow, p.oh],
        p.uniform_layout(Uniform::Phase) =~= seq![p.pw, p.ph, 0u32, 0u32, 0u32, 1u32, 0u32, 0u32],
        ({
            let rf = p.uniform_layout(Uniform::RowForward);
            let ri = p.uniform_layout(Uniform::RowInverse);
            let cf = p.uniform_layout(Uniform::ColumnForward);
            let ci = p.uniform_layout(Uniform::ColumnInverse);
            &&& rf.len() == 8 && cf.len() == 8
            &&& rf[0] == p.pw && rf[2] == p.ph && rf[3] == 0 && rf[4] == 1 && rf[5] == p.pw
            &&& cf[0] == p.ph && cf[2] == p.pw && cf[3] == 0 && cf[4] == p.pw && cf[5] == 1
            &&& rf[6] == 0 && rf[7] == 0 && cf[6] == 0 && cf[7] == 0
            &&& ri =~= rf.update(3, 1u32)
            &&& ci =~= cf.update(3, 1u32)
            &&& vstd::arithmetic::power2::pow2(rf[1] as nat) <= p.pw
                < vstd::arithmetic::power2::pow2((rf[1] + 1) as nat)
            &&& vstd::arithmetic::power2::pow2(cf[1] as nat) <= p.ph
                < vstd::arithmetic::power2::pow2((cf[1] + 1) as nat)
        }),
        band < p.bands() ==> ({
            let filter = p.uniform_layout(Uniform::Filter(band));
            &&& filter.len() == 8
            &&& filter[0] == p.pw && filter[1] == p.ph
            &&& filter[2] == p.n_orient && filter[5] == p.n_scales
            &&& filter[4] * p.n_orient + filter[3] == band
            &&& filter[3] < p.n_orient && filter[4] < p.n_scales
            &&& filter[6] == 0 && filter[7] == 0
            &&& p.uniform_layout(Uniform::FilterAccumulate(band)) == filter
        }),
{
    if band < p.bands() {
        crate::steerable::laws::lemma_band_pairs(p.n_scales, p.n_orient, band as int);
    }
    crate::arith::lemma_exponent_below(p.pw as int);
    crate::arith::lemma_exponent_below(p.ph as int);
}

/// The phase parameters of a frame: the padded size, the caller's amplification and
/// coefficients unchanged, each in its place, and whether the frame is the first.
pub proof fn lemma_phase_words(p: SteerablePipeline, amp: u32, al: u32, ah: u32)
    ensures
        ({
            let words = p.spec_phase_params(amp, al, ah).layout();
            &&& words.len() == 8
            &&& words[0] == p.pw && words[1] == p.ph
            &&& words[2] == amp && words[3] == al && words[4] == ah
            &&& words[5] == 1 <==> p.first_frame
            &&& words[5] == 0 <==> !p.first_frame
            &&& words[6] == 0 && words[7] == 0
        }),
{
}

/// The two residuals are told apart by their type and squared by their mode; they belong to no
/// scale and no orientation.
pub proof fn lemma_residuals(p: SteerablePipeline)
    ensures
        p.uniform_layout(Uniform::ResidualHigh) =~= seq![
            p.pw,
            p.ph,
            p.n_orient,
            0u32,
            0u32,
            p.n_scales,
            1u32,
            1u32,
        ],
        p.uniform_layout(Uniform::ResidualLow) =~= p.uniform_layout(Uniform::ResidualHigh).update(
            6,
            2u32,
        ),
{
}

/// The sizes and uses of the buffers.  The two frames have four bytes for each of their pixels,
/// all others for each padded one.  All can be bound, uploaded and copied to, and all but the
/// outgoing frame copied from; none is mapped or a uniform.
pub proof fn lemma_buffers(p: SteerablePipeline, s: Storage)
    requires
        p.wf(),
    ensures
        ({
            let b = p.spec_buffer(s);
            &&& b.id == s
            &&& s is RgbaIn || s is RgbaOut ==> b.size == 4 * (p.ow * p.oh)
            &&& !(s is RgbaIn || s is RgbaOut) ==> b.size == 4 * (p.pw * p.ph)
            &&& s is RgbaOut ==> b.usage == crate::gpu::Usage::StorageTarget
            &&& s !is RgbaOut ==> b.usage == crate::gpu::Usage::StorageBoth
        }),
{
    assert(p.ow * p.oh * 4 == 4 * (p.ow * p.oh)) by (nonlinear_arith);
    assert(p.pw * p.ph * 4 == 4 * (p.pw * p.ph)) by (nonlinear_arith);
    assert(0 <= p.ow * p.oh) by (nonlinear_arith);
    assert(0 <= p.pw * p.ph) by (nonlinear_arith);
}

// ── Padding ──

/// The padded length of a side is the shortest power of two that holds it, where a transform
/// may be that long; where not, it is as long as a transform may be.
pub proof fn lemma_padded_length(side: int, max_fft: int, k: nat)
    requires
        1 <= side,
        1 <= max_fft,
        side <= vstd::arithmetic::power2::pow2(k),
        k == 0 || vstd::arithmetic::power2::pow2((k - 1) as nat) < side,
    ensures
        crate::steerable::padded(side, max_fft) == if vstd::arithmetic::power2::pow2(k)
            <= max_fft {
            vstd::arithmetic::power2::pow2(k) as int
        } else {
            max_fft
        },
{
    crate::arith::lemma_power_above(side);
    let p = crate::arith::power_above(side);
    let e = choose|e: nat| p == #[trigger] vstd::arithmetic::power2::pow2(e);
    assert(p <= vstd::arithmetic::power2::pow2(k));
    if e < k {
        if e < k - 1 {
            vstd::arithmetic::power2::lemma_pow2_strictly_increases(e, (k - 1) as nat);
        }
    } else if k < e {
        vstd::arithmetic::power2::lemma_pow2_strictly_increases(k, e);
    }
}

/// A planned pyramid has the frame size, quality and padded sides that it was asked for, each
/// side padded for itself, and is fresh.
pub proof fn lemma_planned(w: u32, h: u32, max_fft: u32, n_scales: u32, n_orient: u32)
    requires
        crate::steerable::supported(
            w as int,
            h as int,
            max_fft as int,
            n_scales as int,
            n_orient as int,
        ),
    ensures
        ({
            let p = SteerablePipeline::planned(w, h, max_fft, n_scales, n_orient);
            let q = SteerablePipeline::planned(h, w, max_fft, n_scales, n_orient);
            &&& (p.ow, p.oh) == (w, h)
            &&& (p.n_scales, p.n_orient) == (n_scales, n_orient)
            &&& p.first_frame
            &&& p.pw == crate::steerable::padded(w as int, max_fft as int)
            &&& p.ph == crate::steerable::padded(h as int, max_fft as int)
            &&& (q.pw, q.ph) == (p.ph, p.pw)
            &&& p.bands() == n_scales * n_orient
        }),
{
    crate::arith::lemma_power_above(w as int);
    crate::arith::lemma_power_above(h as int);
}

} // verus!
