//! What holds of every steerable pyramid and of every frame it renders.

use crate::steerable::{
    CommandView, FftParams, Kernel, Resource, SteerablePipeline, Storage, Uniform,
};
use vstd::prelude::*;

verus! {

// ── Sizes ──

/// Up to a transform length of 2048 all that limits a pyramid is that frame size and number of
/// sub-bands fit 32 bits.
pub proof fn lemma_supported(w: int, h: int, max_fft: int, n_scales: int, n_orient: int)
    requires
        1 <= w <= 0x8000_0000,
        1 <= h <= 0x8000_0000,
        w * h <= u32::MAX,
        1 <= max_fft <= 2048,
        n_scales * n_orient <= u32::MAX,
    ensures
        crate::steerable::supported(w, h, max_fft, n_scales, n_orient),
{
    crate::arith::lemma_power_above(w);
    crate::arith::lemma_power_above(h);
    let pw = crate::steerable::padded(w, max_fft);
    let ph = crate::steerable::padded(h, max_fft);
    assert(pw * ph * 4 <= u32::MAX) by (nonlinear_arith)
        requires
            0 <= pw <= 2048,
            0 <= ph <= 2048,
    ;
}

/// Where the longest transform is a power of two, so is every padded side.  It holds the side
/// exactly if the side is no longer than the longest transform, and then no shorter power of
/// two would; otherwise it is the longest transform.
pub proof fn lemma_padded(side: int, max_fft: int)
    requires
        1 <= side,
        1 <= max_fft,
        crate::arith::is_power_of_two(max_fft),
    ensures
        crate::arith::is_power_of_two(crate::steerable::padded(side, max_fft)),
        1 <= crate::steerable::padded(side, max_fft) <= max_fft,
        crate::steerable::padded(side, max_fft) >= side <==> side <= max_fft,
        side <= max_fft ==> crate::steerable::padded(side, max_fft) < 2 * side,
        side > max_fft ==> crate::steerable::padded(side, max_fft) == max_fft,
{
    crate::arith::lemma_power_above(side);
}

/// On padded sides that are powers of two, the length of every transform is two to the
/// logarithm it is given.
pub proof fn lemma_fft_lengths(p: SteerablePipeline, inv: u32)
    requires
        p.wf(),
        crate::arith::is_power_of_two(p.pw as int),
        crate::arith::is_power_of_two(p.ph as int),
    ensures
        p.row_params(inv).n == vstd::arithmetic::power2::pow2(p.row_params(inv).log2n as nat),
        p.column_params(inv).n == vstd::arithmetic::power2::pow2(p.column_params(inv).log2n as nat),
{
    crate::arith::lemma_power_of_two_exponent(p.pw as int);
    crate::arith::lemma_power_of_two_exponent(p.ph as int);
    crate::arith::lemma_exponent_below(p.pw as int);
    crate::arith::lemma_exponent_below(p.ph as int);
}

// ── Transforms ──

/// The positions of a pass of transforms are the pixels of the padded image, each once.
pub open spec fn covers_once(f: FftParams, pixels: int) -> bool {
    &&& forall|k: int, i: int|
        0 <= k < f.num && 0 <= i < f.n ==> 0 <= #[trigger] f.position(k, i) < pixels
    &&& forall|k: int, i: int, l: int, j: int|
        0 <= k < f.num && 0 <= i < f.n && 0 <= l < f.num && 0 <= j < f.n && #[trigger] f.position(
            k,
            i,
        ) == #[trigger] f.position(l, j) ==> k == l && i == j
    &&& forall|q: int| 0 <= q < pixels ==> #[trigger] reaches(f, q)
}

/// Some element of some transform is at position `q`.
pub open spec fn reaches(f: FftParams, q: int) -> bool {
    exists|k: int, i: int| 0 <= k < f.num && 0 <= i < f.n && #[trigger] f.position(k, i) == q
}

/// A number is determined by its quotient and remainder.
proof fn lemma_digits(w: int, h: int, y: int, x: int)
    requires
        0 <= y < h,
        0 <= x < w,
    ensures
        0 <= y * w + x < w * h,
        (y * w + x) / w == y,
        (y * w + x) % w == x,
{
    assert(0 <= y * w + x < w * h) by (nonlinear_arith)
        requires
            0 <= y < h,
            0 <= x < w,
    ;
    vstd::arithmetic::div_mod::lemma_fundamental_div_mod_converse(y * w + x, w, y, x);
}

/// A pass over the rows touches every pixel exactly once, and so does one over the columns.
pub proof fn lemma_fft_covers_once(p: SteerablePipeline, inv: u32)
    requires
        p.wf(),
    ensures
        covers_once(p.row_params(inv), p.pw * p.ph),
        covers_once(p.column_params(inv), p.pw * p.ph),
{
    let w = p.pw as int;
    let h = p.ph as int;
    let rows = p.row_params(inv);
    let cols = p.column_params(inv);
    assert forall|k: int, i: int| 0 <= k < rows.num && 0 <= i < rows.n implies 0
        <= #[trigger] rows.position(k, i) < w * h && rows.position(k, i) / w == k
        && rows.position(k, i) % w == i by {
        lemma_digits(w, h, k, i);
        assert(rows.position(k, i) == k * w + i);
    }
    assert forall|k: int, i: int| 0 <= k < cols.num && 0 <= i < cols.n implies 0
        <= #[trigger] cols.position(k, i) < w * h && cols.position(k, i) / w == i
        && cols.position(k, i) % w == k by {
        lemma_digits(w, h, i, k);
        assert(cols.position(k, i) == i * w + k);
    }
    assert forall|q: int| 0 <= q < w * h implies #[trigger] reaches(rows, q) by {
        lemma_split(w, h, q);
        assert(rows.position(q / w, q % w) == q);
    }
    assert forall|q: int| 0 <= q < w * h implies #[trigger] reaches(cols, q) by {
        lemma_split(w, h, q);
        assert(cols.position(q % w, q / w) == q);
    }
}

/// A pixel has a row and a column.
proof fn lemma_split(w: int, h: int, q: int)
    requires
        0 < w,
        0 <= q < w * h,
    ensures
        0 <= q / w < h,
        0 <= q % w < w,
        (q / w) * w + q % w == q,
{
    assert(0 <= q / w < h && 0 <= q % w < w && (q / w) * w + q % w == q) by (nonlinear_arith)
        requires
            0 < w,
            0 <= q < w * h,
    ;
}

// ── Sub-bands ──

/// The sub-bands are the pairs of a scale and an orientation: each number below the number of
/// sub-bands stands for one pair.
pub proof fn lemma_band_pairs(n_scales: u32, n_orient: u32, band: int)
    requires
        0 <= band < n_scales * n_orient,
    ensures
        0 <= crate::steerable::band_scale(n_orient, band) < n_scales,
        0 <= crate::steerable::band_orient(n_orient, band) < n_orient,
        crate::steerable::band_scale(n_orient, band) * n_orient + crate::steerable::band_orient(
            n_orient,
            band,
        ) == band,
{
    let s = n_scales as int;
    let o = n_orient as int;
    assert(o > 0) by (nonlinear_arith)
        requires
            0 <= o,
            0 <= band < s * o,
    ;
    assert(s * o == o * s) by (nonlinear_arith);
    lemma_split(o, s, band);
}

/// Each pair of a scale and an orientation is one sub-band.
pub proof fn lemma_pair_band(n_scales: u32, n_orient: u32, scale: int, orient: int)
    requires
        0 <= scale < n_scales,
        0 <= orient < n_orient,
    ensures
        0 <= scale * n_orient + orient < n_scales * n_orient,
        crate::steerable::band_scale(n_orient, scale * n_orient + orient) == scale,
        crate::steerable::band_orient(n_orient, scale * n_orient + orient) == orient,
{
    let s = n_scales as int;
    let o = n_orient as int;
    assert(s * o == o * s) by (nonlinear_arith);
    lemma_digits(o, s, scale, orient);
}

// ── The shape of a frame ──

/// The number of dispatches among commands.
pub open spec fn dispatches(commands: Seq<CommandView>) -> int
    decreases commands.len(),
{
    if commands.len() == 0 {
        0
    } else {
        dispatches(commands.drop_last()) + if commands.last() is Dispatch {
            1int
        } else {
            0int
        }
    }
}

/// Dispatches add up.
proof fn lemma_dispatches_add(a: Seq<CommandView>, b: Seq<CommandView>)
    ensures
        dispatches(a + b) == dispatches(a) + dispatches(b),
    decreases b.len(),
{
    if b.len() == 0 {
        assert(a + b =~= a);
    } else {
        lemma_dispatches_add(a, b.drop_last());
        assert((a + b).drop_last() =~= a + b.drop_last());
    }
}

/// Commands of one kind are easily counted.
proof fn lemma_dispatches_uniform(commands: Seq<CommandView>, dispatch: bool)
    requires
        forall|i: int|
            0 <= i < commands.len() ==> (#[trigger] commands[i] is Dispatch) == dispatch,
    ensures
        dispatches(commands) == if dispatch {
            commands.len() as int
        } else {
            0
        },
    decreases commands.len(),
{
    if commands.len() > 0 {
        lemma_dispatches_uniform(commands.drop_last(), dispatch);
    }
}

/// The sub-bands have seven commands each, all of them dispatches.
#[verifier::rlimit(40)]
proof fn lemma_bands_before(p: SteerablePipeline, k: int)
    requires
        0 <= k,
    ensures
        p.bands_before(k).len() == 7 * k,
        dispatches(p.bands_before(k)) == 7 * k,
        forall|i: int|
            0 <= i < 7 * k ==> #[trigger] p.bands_before(k)[i] == p.band(i / 7)[i % 7],
    decreases k,
{
    if k > 0 {
        lemma_bands_before(p, k - 1);
        lemma_dispatches_add(p.bands_before(k - 1), p.band(k - 1));
        let b = p.band(k - 1);
        lemma_dispatches_uniform(b, true);
        assert forall|i: int| 0 <= i < 7 * k implies #[trigger] p.bands_before(k)[i] == p.band(
            i / 7,
        )[i % 7] by {
            if i < 7 * (k - 1) {
                assert(p.bands_before(k)[i] == p.bands_before(k - 1)[i]);
            } else {
                assert(i / 7 == k - 1);
                assert(p.bands_before(k)[i] == b[i - 7 * (k - 1)]);
            }
        }
    }
}

/// A frame takes eight dispatches and seven more for each sub-band: 92 on the standard pyramid.
#[verifier::rlimit(40)]
pub proof fn lemma_dispatch_count(p: SteerablePipeline)
    requires
        p.wf(),
    ensures
        dispatches(p.frame_commands()) == 8 + 7 * p.bands(),
        p.n_scales == crate::steerable::N_SCALES && p.n_orient == crate::steerable::N_ORIENT
            ==> p.bands() == crate::steerable::N_BAND && dispatches(p.frame_commands()) == 92,
{
    let n = p.bands();
    lemma_bands(p);
    lemma_bands_before(p, n);
    lemma_dispatches_add(p.head(), p.bands_before(n));
    lemma_dispatches_add(p.head() + p.bands_before(n), p.tail());
    let h = p.head();
    lemma_dispatches_uniform(h.take(3), true);
    lemma_dispatches_uniform(h.skip(3), false);
    lemma_dispatches_add(h.take(3), h.skip(3));
    assert(h.take(3) + h.skip(3) =~= h);
    let t = p.tail();
    lemma_dispatches_uniform(t.take(5), true);
    lemma_dispatches_uniform(t.skip(5), false);
    lemma_dispatches_add(t.take(5), t.skip(5));
    assert(t.take(5) + t.skip(5) =~= t);
    if p.n_scales == 3 && p.n_orient == 4 {
        assert(n == 12) by (nonlinear_arith)
            requires
                n == p.n_scales * p.n_orient,
                p.n_scales == 3,
                p.n_orient == 4,
        ;
    }
}

/// There is no negative number of sub-bands.
pub proof fn lemma_bands(p: SteerablePipeline)
    requires
        p.wf(),
    ensures
        0 <= p.bands() <= u32::MAX,
{
    let s = p.n_scales as int;
    let o = p.n_orient as int;
    assert(0 <= s * o) by (nonlinear_arith)
        requires
            0 <= s,
            0 <= o,
    ;
}

/// The commands of a frame by their position.
pub open spec fn command_at(p: SteerablePipeline, i: int) -> CommandView {
    let n = p.bands();
    if i < 5 {
        p.head()[i]
    } else if i < 5 + 7 * n {
        p.band((i - 5) / 7)[(i - 5) % 7]
    } else {
        p.tail()[i - 5 - 7 * n]
    }
}

/// Five commands, seven for each sub-band in order, and six more.
pub proof fn lemma_frame_shape(p: SteerablePipeline)
    requires
        p.wf(),
    ensures
        p.frame_commands().len() == 11 + 7 * p.bands(),
        forall|i: int|
            0 <= i < p.frame_commands().len() ==> #[trigger] p.frame_commands()[i] == command_at(
                p,
                i,
            ),
{
    let n = p.bands();
    lemma_bands(p);
    lemma_bands_before(p, n);
    assert forall|i: int| 0 <= i < p.frame_commands().len() implies #[trigger] p.frame_commands()[i]
        == command_at(p, i) by {
        if 5 <= i < 5 + 7 * n {
            assert(p.frame_commands()[i] == p.bands_before(n)[i - 5]);
        }
    }
}

// ── Flow of data ──

/// Binding `b` is the storage buffer `s`.
pub open spec fn bound(bindings: Seq<Resource>, b: int, s: Storage) -> bool {
    bindings[b] == Resource::Storage(s)
}

/// The shader, copy or drawing reads `s`.
pub open spec fn reads(c: CommandView, s: Storage) -> bool {
    match c {
        CommandView::Dispatch { kernel, bindings, groups } => match kernel {
            Kernel::RgbaToY => bound(bindings, 1, s),
            Kernel::Fft => bound(bindings, 1, s) || bound(bindings, 2, s),
            Kernel::Filter => bound(bindings, 1, s) || bound(bindings, 2, s),
            Kernel::FilterAccumulate => bound(bindings, 1, s) || bound(bindings, 2, s) || bound(
                bindings,
                3,
                s,
            ) || bound(bindings, 4, s),
            Kernel::PhaseAmplify => bound(bindings, 1, s) || bound(bindings, 2, s) || bound(
                bindings,
                3,
                s,
            ) || bound(bindings, 4, s) || bound(bindings, 5, s) || bound(bindings, 6, s),
            Kernel::YiqToRgba => bound(bindings, 1, s) || bound(bindings, 2, s) || bound(
                bindings,
                3,
                s,
            ),
        },
        CommandView::Copy { source, target, size } => source == s,
        CommandView::Blit { bindings, vertices } => bound(bindings, 1, s),
    }
}

/// The shader or copy writes `s`.
pub open spec fn writes(c: CommandView, s: Storage) -> bool {
    match c {
        CommandView::Dispatch { kernel, bindings, groups } => match kernel {
            Kernel::RgbaToY => bound(bindings, 2, s) || bound(bindings, 3, s) || bound(
                bindings,
                4,
                s,
            ),
            Kernel::Fft => bound(bindings, 3, s) || bound(bindings, 4, s),
            Kernel::Filter => bound(bindings, 3, s) || bound(bindings, 4, s),
            Kernel::FilterAccumulate => bound(bindings, 3, s) || bound(bindings, 4, s),
            Kernel::PhaseAmplify => bound(bindings, 3, s) || bound(bindings, 4, s) || bound(
                bindings,
                5,
                s,
            ) || bound(bindings, 6, s) || bound(bindings, 7, s) || bound(bindings, 8, s),
            Kernel::YiqToRgba => bound(bindings, 4, s),
        },
        CommandView::Copy { source, target, size } => target == s,
        CommandView::Blit { bindings, vertices } => false,
    }
}

/// The sub-band whose state `s` holds.
pub open spec fn state_of(s: Storage) -> Option<u32> {
    match s {
        Storage::PrevRe(band) => Some(band),
        Storage::PrevIm(band) => Some(band),
        Storage::LowpassHigh(band) => Some(band),
        Storage::LowpassLow(band) => Some(band),
        _ => None,
    }
}

/// `s` holds something before a frame starts: an upload, or the state of a sub-band.
pub open spec fn is_given(s: Storage) -> bool {
    s == Storage::RgbaIn || s == Storage::Zeros || state_of(s) is Some
}

/// Some command of the frame before the one at `i` writes `s`.
pub open spec fn written_before(p: SteerablePipeline, i: int, s: Storage) -> bool {
    exists|j: int| 0 <= j < i && writes(#[trigger] p.frame_commands()[j], s)
}

/// Nothing that a frame computes is read before it is written: a buffer that a command reads
/// was written by an earlier command of the same frame, unless it was given beforehand.
#[verifier::rlimit(40)]
pub proof fn lemma_reads_are_written(p: SteerablePipeline, i: int, s: Storage)
    requires
        p.wf(),
        0 <= i < p.frame_commands().len(),
        reads(p.frame_commands()[i], s),
        !is_given(s),
    ensures
        written_before(p, i, s),
{
    lemma_frame_shape(p);
    lemma_bands(p);
    let n = p.bands();
    let f = p.frame_commands();
    assert(f[i] == command_at(p, i));
    assert(f[0] == command_at(p, 0));
    assert(i > 2 ==> f[2] == command_at(p, 2));
    assert(i > 3 ==> f[3] == command_at(p, 3));
    assert(i > 4 ==> f[4] == command_at(p, 4));
    if i > 0 {
        assert(f[i - 1] == command_at(p, i - 1));
        if 5 < i < 5 + 7 * n {
            let k = (i - 5) / 7;
            let r = (i - 5) % 7;
            if r > 0 {
                assert((i - 6) / 7 == k);
                assert((i - 6) % 7 == r - 1);
            }
        }
    }
}

/// No command writes the incoming frame or the zeros.
pub proof fn lemma_uploads_kept(p: SteerablePipeline, i: int)
    requires
        p.wf(),
        0 <= i < p.frame_commands().len(),
    ensures
        !writes(p.frame_commands()[i], Storage::RgbaIn),
        !writes(p.frame_commands()[i], Storage::Zeros),
{
    lemma_frame_shape(p);
    assert(p.frame_commands()[i] == command_at(p, i));
    lemma_bands(p);
}

/// The state of a sub-band is touched by one command of a frame only: the phase amplification
/// of that sub-band.
#[verifier::rlimit(40)]
pub proof fn lemma_state_isolated(p: SteerablePipeline, i: int, s: Storage, band: u32)
    requires
        p.wf(),
        0 <= i < p.frame_commands().len(),
        state_of(s) == Some(band),
        band < p.bands(),
    ensures
        reads(p.frame_commands()[i], s) <==> i == 8 + 7 * band,
        writes(p.frame_commands()[i], s) <==> i == 8 + 7 * band,
{
    lemma_frame_shape(p);
    lemma_bands(p);
    let n = p.bands();
    assert(p.frame_commands()[i] == command_at(p, i));
    if 5 <= i < 5 + 7 * n {
        assert(0 <= (i - 5) / 7 < n);
        assert(i - 5 == 7 * ((i - 5) / 7) + (i - 5) % 7);
    }
}

/// `s` is used anew by every sub-band.
pub open spec fn is_scratch(s: Storage) -> bool {
    s is TmpRe || s is TmpIm || s is BandSpectrumRe || s is BandSpectrumIm || s is BandRe || s
        is BandIm || s is ModifiedRe || s is ModifiedIm || s is ModifiedSpectrumRe || s
        is ModifiedSpectrumIm
}

/// Sub-bands do not see each other's intermediate results: what a command of a sub-band reads
/// of the buffers that all sub-bands share was written by that sub-band.
pub proof fn lemma_scratch_is_local(p: SteerablePipeline, i: int, band: int, s: Storage)
    requires
        p.wf(),
        0 <= band < p.bands(),
        5 + 7 * band <= i < 12 + 7 * band,
        is_scratch(s),
        reads(p.frame_commands()[i], s),
    ensures
        exists|j: int| 5 + 7 * band <= j < i && writes(#[trigger] p.frame_commands()[j], s),
{
    lemma_frame_shape(p);
    lemma_bands(p);
    let f = p.frame_commands();
    let r = i - 5 - 7 * band;
    assert((i - 5) / 7 == band && (i - 5) % 7 == r);
    assert(f[i] == command_at(p, i));
    if r > 0 {
        assert((i - 6) / 7 == band && (i - 6) % 7 == r - 1);
        assert(f[i - 1] == command_at(p, i - 1));
    }
}

/// The command is a pass of transforms with these parameters.
pub open spec fn transforms(c: CommandView, u: Uniform) -> bool {
    c matches CommandView::Dispatch { kernel, bindings, groups } && kernel == Kernel::Fft
        && bindings[0] == Resource::Uniform(u)
}

/// The second pass takes both parts of what the first one has put out.
pub open spec fn feeds(first: CommandView, second: CommandView) -> bool {
    &&& bindings_of(first)[3] == bindings_of(second)[1]
    &&& bindings_of(first)[4] == bindings_of(second)[2]
}

/// A transform of an image takes two passes, one right after the other: forward it takes the
/// rows and then the columns, inverse the columns and then the rows.
pub proof fn lemma_transform_pairs(p: SteerablePipeline, i: int)
    requires
        p.wf(),
        0 <= i < p.frame_commands().len(),
    ensures
        ({
            let f = p.frame_commands();
            &&& transforms(f[i], Uniform::RowForward) ==> i + 1 < f.len() && transforms(
                f[i + 1],
                Uniform::ColumnForward,
            ) && feeds(f[i], f[i + 1])
            &&& transforms(f[i], Uniform::ColumnForward) ==> i > 0 && transforms(
                f[i - 1],
                Uniform::RowForward,
            )
            &&& transforms(f[i], Uniform::ColumnInverse) ==> i + 1 < f.len() && transforms(
                f[i + 1],
                Uniform::RowInverse,
            ) && feeds(f[i], f[i + 1])
            &&& transforms(f[i], Uniform::RowInverse) ==> i > 0 && transforms(
                f[i - 1],
                Uniform::ColumnInverse,
            )
        }),
{
    lemma_frame_shape(p);
    lemma_bands(p);
    let n = p.bands();
    let f = p.frame_commands();
    assert(f[i] == command_at(p, i));
    if i > 0 {
        assert(f[i - 1] == command_at(p, i - 1));
    }
    if i + 1 < f.len() {
        assert(f[i + 1] == command_at(p, i + 1));
    }
    if 5 <= i < 5 + 7 * n {
        let k = (i - 5) / 7;
        let r = (i - 5) % 7;
        assert(i - 5 == 7 * k + r);
        if r > 0 {
            assert((i - 6) / 7 == k && (i - 6) % 7 == r - 1);
        }
        if r < 6 {
            assert((i - 4) / 7 == k && (i - 4) % 7 == r + 1);
        }
    }
}

/// Rows and columns are transformed back as they were transformed.
pub proof fn lemma_inverse_passes(p: SteerablePipeline)
    ensures
        p.row_params(1) == (FftParams { inv: 1, ..p.row_params(0) }),
        p.column_params(1) == (FftParams { inv: 1, ..p.column_params(0) }),
{
}

/// The command adds a filter to the accumulated spectrum.
pub open spec fn accumulates(c: CommandView, u: Uniform) -> bool {
    c matches CommandView::Dispatch { kernel, bindings, groups } && kernel
        == Kernel::FilterAccumulate && bindings[0] == Resource::Uniform(u)
}

/// The accumulated spectrum is cleared before anything is added; then every sub-band is added
/// exactly once, in order, and after them the two residuals; then it is transformed back.
pub proof fn lemma_accumulated_once(p: SteerablePipeline, i: int, band: u32)
    requires
        p.wf(),
        0 <= i < p.frame_commands().len(),
    ensures
        band < p.bands() ==> (accumulates(
            p.frame_commands()[i],
            Uniform::FilterAccumulate(band),
        ) <==> i == 11 + 7 * band),
        accumulates(p.frame_commands()[i], Uniform::ResidualHigh) <==> i == 5 + 7 * p.bands(),
        accumulates(p.frame_commands()[i], Uniform::ResidualLow) <==> i == 6 + 7 * p.bands(),
        p.frame_commands()[3] == (CommandView::Copy {
            source: Storage::Zeros,
            target: Storage::AccumulatorRe,
            size: p.plane_bytes(),
        }),
        p.frame_commands()[4] == (CommandView::Copy {
            source: Storage::Zeros,
            target: Storage::AccumulatorIm,
            size: p.plane_bytes(),
        }),
        reads(p.frame_commands()[7 + 7 * p.bands()], Storage::AccumulatorRe),
        reads(p.frame_commands()[7 + 7 * p.bands()], Storage::AccumulatorIm),
{
    lemma_frame_shape(p);
    lemma_bands(p);
    let n = p.bands();
    let f = p.frame_commands();
    assert(f[i] == command_at(p, i));
    assert(f[3] == command_at(p, 3));
    assert(f[4] == command_at(p, 4));
    assert(f[7 + 7 * n] == command_at(p, 7 + 7 * n));
    if 5 <= i < 5 + 7 * n {
        assert(0 <= (i - 5) / 7 < n);
        assert(i - 5 == 7 * ((i - 5) / 7) + (i - 5) % 7);
    }
}

// ── Resources ──

/// The resources that a command binds.
pub open spec fn bindings_of(c: CommandView) -> Seq<Resource> {
    match c {
        CommandView::Dispatch { kernel, bindings, groups } => bindings,
        CommandView::Copy { source, target, size } => seq![
            Resource::Storage(source),
            Resource::Storage(target),
        ],
        CommandView::Blit { bindings, vertices } => bindings,
    }
}

/// The resource belongs to the pipeline.
pub open spec fn is_planned(p: SteerablePipeline, r: Resource) -> bool {
    match r {
        Resource::Uniform(u) => p.spec_uniforms().contains(u),
        Resource::Storage(s) => p.storage().contains(s),
    }
}

/// No command binds a resource twice, so no shader writes what it reads by another name.
#[verifier::rlimit(40)]
pub proof fn lemma_no_aliases(p: SteerablePipeline, i: int)
    requires
        p.wf(),
        0 <= i < p.frame_commands().len(),
    ensures
        bindings_of(p.frame_commands()[i]).no_duplicates(),
{
    lemma_frame_shape(p);
    lemma_bands(p);
    assert(p.frame_commands()[i] == command_at(p, i));
}

/// All buffers of a pipeline are different, and they are the shared ones and the four states
/// of each of its sub-bands.
#[verifier::rlimit(40)]
pub proof fn lemma_storage(p: SteerablePipeline)
    requires
        p.wf(),
    ensures
        p.storage().len() == 22 + 4 * p.bands(),
        p.storage().no_duplicates(),
        forall|s: Storage| #[trigger]
            p.storage().contains(s) <==> (state_of(s) matches Some(band) ==> band < p.bands()),
{
    lemma_bands(p);
    let n = p.bands();
    let list = p.storage();
    let shared = SteerablePipeline::shared_storage();
    assert forall|i: int| 0 <= i < list.len() implies #[trigger] list[i] == (if i < 22 {
        shared[i]
    } else if i < 22 + n {
        Storage::PrevRe((i - 22) as u32)
    } else if i < 22 + 2 * n {
        Storage::PrevIm((i - 22 - n) as u32)
    } else if i < 22 + 3 * n {
        Storage::LowpassHigh((i - 22 - 2 * n) as u32)
    } else {
        Storage::LowpassLow((i - 22 - 3 * n) as u32)
    }) by {}
    assert forall|i: int, j: int| 0 <= i < j < list.len() implies list[i] != list[j] by {
        if j < 22 {
            assert(shared[i] != shared[j]);
        }
    }
    assert forall|s: Storage| #[trigger]
        list.contains(s) <==> (state_of(s) matches Some(band) ==> band < n) by {
        match s {
            Storage::PrevRe(band) => {
                if band < n {
                    assert(list[22 + band] == s);
                }
            },
            Storage::PrevIm(band) => {
                if band < n {
                    assert(list[22 + n + band] == s);
                }
            },
            Storage::LowpassHigh(band) => {
                if band < n {
                    assert(list[22 + 2 * n + band] == s);
                }
            },
            Storage::LowpassLow(band) => {
                if band < n {
                    assert(list[22 + 3 * n + band] == s);
                }
            },
            _ => {
                assert(shared.contains(s)) by {
                    lemma_shared_storage(s);
                }
                let i = choose|i: int| 0 <= i < shared.len() && shared[i] == s;
                assert(list[i] == s);
            },
        }
    }
}

/// What is no state of a sub-band is shared.
proof fn lemma_shared_storage(s: Storage)
    requires
        state_of(s) is None,
    ensures
        SteerablePipeline::shared_storage().contains(s),
{
    let list = SteerablePipeline::shared_storage();
    let i: int = match s {
        Storage::RgbaIn => 0,
        Storage::RgbaOut => 1,
        Storage::Y => 2,
        Storage::I => 3,
        Storage::Q => 4,
        Storage::Zeros => 5,
        Storage::SpectrumRe => 6,
        Storage::SpectrumIm => 7,
        Storage::AccumulatorRe => 8,
        Storage::AccumulatorIm => 9,
        Storage::OutY => 10,
        Storage::DiscardIm => 11,
        Storage::TmpRe => 12,
        Storage::TmpIm => 13,
        Storage::BandSpectrumRe => 14,
        Storage::BandSpectrumIm => 15,
        Storage::BandRe => 16,
        Storage::BandIm => 17,
        Storage::ModifiedRe => 18,
        Storage::ModifiedIm => 19,
        Storage::ModifiedSpectrumRe => 20,
        _ => 21,
    };
    assert(list[i] == s);
}

/// The sub-band that a parameter block is for.
pub open spec fn filter_of(u: Uniform) -> Option<u32> {
    match u {
        Uniform::Filter(band) => Some(band),
        Uniform::FilterAccumulate(band) => Some(band),
        _ => None,
    }
}

/// All parameter blocks of a pipeline are different, and they are the shared ones and the two
/// filters of each of its sub-bands.
#[verifier::rlimit(40)]
pub proof fn lemma_uniforms(p: SteerablePipeline)
    requires
        p.wf(),
    ensures
        p.spec_uniforms().len() == 9 + 2 * p.bands(),
        p.spec_uniforms().no_duplicates(),
        forall|u: Uniform| #[trigger]
            p.spec_uniforms().contains(u) <==> (filter_of(u) matches Some(band) ==> band
                < p.bands()),
{
    lemma_bands(p);
    let n = p.bands();
    let list = p.spec_uniforms();
    assert forall|i: int| 0 <= i < list.len() implies #[trigger] list[i] == (if 7 <= i < 7 + n {
        Uniform::Filter((i - 7) as u32)
    } else if 7 + n <= i < 7 + 2 * n {
        Uniform::FilterAccumulate((i - 7 - n) as u32)
    } else if i == 0 {
        Uniform::Color
    } else if i == 1 {
        Uniform::Blit
    } else if i == 2 {
        Uniform::Phase
    } else if i == 3 {
        Uniform::RowForward
    } else if i == 4 {
        Uniform::ColumnForward
    } else if i == 5 {
        Uniform::RowInverse
    } else if i == 6 {
        Uniform::ColumnInverse
    } else if i == 7 + 2 * n {
        Uniform::ResidualHigh
    } else {
        Uniform::ResidualLow
    }) by {}
    assert forall|u: Uniform| #[trigger]
        list.contains(u) <==> (filter_of(u) matches Some(band) ==> band < n) by {
        let i: int = match u {
            Uniform::Color => 0,
            Uniform::Blit => 1,
            Uniform::Phase => 2,
            Uniform::RowForward => 3,
            Uniform::ColumnForward => 4,
            Uniform::RowInverse => 5,
            Uniform::ColumnInverse => 6,
            Uniform::Filter(band) => 7 + band,
            Uniform::FilterAccumulate(band) => 7 + n + band,
            Uniform::ResidualHigh => 7 + 2 * n,
            Uniform::ResidualLow => 8 + 2 * n,
        };
        if filter_of(u) matches Some(band) ==> band < n {
            assert(list[i] == u);
        }
    }
}

/// Every resource that a command binds belongs to the pipeline.
#[verifier::rlimit(40)]
pub proof fn lemma_bindings_planned(p: SteerablePipeline, i: int, b: int)
    requires
        p.wf(),
        0 <= i < p.frame_commands().len(),
        0 <= b < bindings_of(p.frame_commands()[i]).len(),
    ensures
        is_planned(p, bindings_of(p.frame_commands()[i])[b]),
{
    lemma_frame_shape(p);
    lemma_bands(p);
    lemma_storage(p);
    lemma_uniforms(p);
    assert(p.frame_commands()[i] == command_at(p, i));
    let n = p.bands();
    if 5 <= i < 5 + 7 * n {
        assert(0 <= (i - 5) / 7 < n);
    }
}

/// The first binding of a shader is its parameter block; the others are storage buffers.  Each
/// buffer may be bound so.
pub proof fn lemma_bindings_kinds(p: SteerablePipeline, i: int, b: int)
    requires
        p.wf(),
        0 <= i < p.frame_commands().len(),
        0 <= b < bindings_of(p.frame_commands()[i]).len(),
        p.frame_commands()[i] !is Copy,
    ensures
        b == 0 <==> bindings_of(p.frame_commands()[i])[b] is Uniform,
        b == 0 ==> bindings_of(p.frame_commands()[i])[b].spec_usage() is Uniform,
        b > 0 ==> bindings_of(p.frame_commands()[i])[b].spec_usage().spec_is_storage(),
{
    lemma_frame_shape(p);
    lemma_bands(p);
    assert(p.frame_commands()[i] == command_at(p, i));
}

/// A copy takes all of its source to all of its target, which may be copied from and to.
pub proof fn lemma_copies_fit(p: SteerablePipeline, i: int)
    requires
        p.wf(),
        0 <= i < p.frame_commands().len(),
    ensures
        p.frame_commands()[i] matches CommandView::Copy { source, target, size } ==> {
            &&& size == p.size_of(source)
            &&& size == p.size_of(target)
            &&& SteerablePipeline::usage_of(source).spec_copies_out()
            &&& SteerablePipeline::usage_of(target).spec_copies_in()
        },
{
    lemma_frame_shape(p);
    lemma_bands(p);
    assert(p.frame_commands()[i] == command_at(p, i));
}

// ── Frame after frame ──

/// The pipeline after a sequence of frames, for each of which a texture could be acquired or
/// not.
pub open spec fn after_frames(p: SteerablePipeline, acquired: Seq<bool>) -> SteerablePipeline
    decreases acquired.len(),
{
    if acquired.len() == 0 {
        p
    } else {
        let q = after_frames(p, acquired.drop_last());
        SteerablePipeline { first_frame: q.first_frame && !acquired.last(), ..q }
    }
}

/// Whatever happens, the plan stays the same; a pipeline counts as fresh until the first frame
/// that is really rendered, and never again without a reset.
pub proof fn lemma_after_frames(p: SteerablePipeline, acquired: Seq<bool>)
    ensures
        after_frames(p, acquired) == (SteerablePipeline {
            first_frame: p.first_frame && forall|i: int|
                0 <= i < acquired.len() ==> !#[trigger] acquired[i],
            ..p
        }),
        after_frames(p, acquired).frame_commands() == p.frame_commands(),
    decreases acquired.len(),
{
    if acquired.len() > 0 {
        let init = acquired.drop_last();
        lemma_after_frames(p, init);
        let fresh = forall|i: int| 0 <= i < acquired.len() ==> !#[trigger] acquired[i];
        let fresh_init = forall|i: int| 0 <= i < init.len() ==> !#[trigger] init[i];
        if fresh {
            assert forall|i: int| 0 <= i < init.len() implies !#[trigger] init[i] by {
                assert(init[i] == acquired[i]);
            }
            assert(!acquired[acquired.len() - 1]);
        }
        if fresh_init && !acquired.last() {
            assert forall|i: int| 0 <= i < acquired.len() implies !#[trigger] acquired[i] by {
                if i < init.len() {
                    assert(init[i] == acquired[i]);
                }
            }
        }
    }
    lemma_same_commands(p, after_frames(p, acquired), p.bands());
}

/// The commands depend on the sizes alone.
proof fn lemma_same_commands(p: SteerablePipeline, q: SteerablePipeline, k: int)
    requires
        q == (SteerablePipeline { first_frame: q.first_frame, ..p }),
    ensures
        p.bands_before(k) == q.bands_before(k),
    decreases k,
{
    if k > 0 {
        lemma_same_commands(p, q, k - 1);
        assert(p.band(k - 1) =~= q.band(k - 1));
    }
}

} // verus!
