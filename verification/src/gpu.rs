//! What the planning code knows of a GPU device, and the vocabulary of the plans.

use crate::fallback::{Attempt, Fallback};
use vstd::prelude::*;

verus! {

/// How a buffer may be used.
#[derive(Clone, Copy, PartialEq, Eq, Structural, Debug)]
pub enum Usage {
    /// Bound to shaders only.
    Storage,
    /// Bound to shaders and copied from.
    StorageSource,
    /// Bound to shaders and copied or uploaded to.
    StorageTarget,
    /// Bound to shaders, copied from and copied or uploaded to.
    StorageBoth,
    /// Copied to on the GPU and mapped for reading.
    Staging,
    /// A parameter block: bound as a uniform and uploaded to.
    Uniform,
}

impl Usage {
    /// May the buffer be bound as a storage buffer?
    pub open spec fn spec_is_storage(self) -> bool {
        self is Storage || self is StorageSource || self is StorageTarget || self is StorageBoth
    }

    /// May the buffer be bound as a storage buffer?
    pub fn is_storage(self) -> (r: bool)
        ensures
            r == self.spec_is_storage(),
    {
        match self {
            Usage::Storage => true,
            Usage::StorageSource => true,
            Usage::StorageTarget => true,
            Usage::StorageBoth => true,
            Usage::Staging => false,
            Usage::Uniform => false,
        }
    }

    /// May the buffer be bound as a uniform?
    pub fn is_uniform(self) -> (r: bool)
        ensures
            r == (self is Uniform),
    {
        match self {
            Usage::Uniform => true,
            _ => false,
        }
    }

    /// May the buffer be the source of a copy?
    pub open spec fn spec_copies_out(self) -> bool {
        self is StorageSource || self is StorageBoth
    }

    /// May the buffer be the source of a copy?
    pub fn copies_out(self) -> (r: bool)
        ensures
            r == self.spec_copies_out(),
    {
        match self {
            Usage::StorageSource => true,
            Usage::StorageBoth => true,
            _ => false,
        }
    }

    /// May the buffer be the target of a copy or an upload?
    pub open spec fn spec_copies_in(self) -> bool {
        self is StorageTarget || self is StorageBoth || self is Staging || self is Uniform
    }

    /// May the buffer be the target of a copy or an upload?
    pub fn copies_in(self) -> (r: bool)
        ensures
            r == self.spec_copies_in(),
    {
        match self {
            Usage::StorageTarget => true,
            Usage::StorageBoth => true,
            Usage::Staging => true,
            Usage::Uniform => true,
            _ => false,
        }
    }

    /// May the buffer be mapped for reading?
    pub fn is_mapped(self) -> (r: bool)
        ensures
            r == (self is Staging),
    {
        match self {
            Usage::Staging => true,
            _ => false,
        }
    }
}

/// What each use allows: to be bound as storage, to be copied from, to be copied to.
pub proof fn lemma_usages()
    ensures
        Usage::Storage.spec_is_storage() && !Usage::Storage.spec_copies_out()
            && !Usage::Storage.spec_copies_in(),
        Usage::StorageSource.spec_is_storage() && Usage::StorageSource.spec_copies_out()
            && !Usage::StorageSource.spec_copies_in(),
        Usage::StorageTarget.spec_is_storage() && !Usage::StorageTarget.spec_copies_out()
            && Usage::StorageTarget.spec_copies_in(),
        Usage::StorageBoth.spec_is_storage() && Usage::StorageBoth.spec_copies_out()
            && Usage::StorageBoth.spec_copies_in(),
        !Usage::Staging.spec_is_storage() && !Usage::Staging.spec_copies_out()
            && Usage::Staging.spec_copies_in(),
        !Usage::Uniform.spec_is_storage() && !Usage::Uniform.spec_copies_out()
            && Usage::Uniform.spec_copies_in(),
{
}

/// A buffer to be created: which one it is, its size in bytes and its use.
#[derive(Debug)]
pub struct BufferSpec<B> {
    pub id: B,
    pub size: u64,
    pub usage: Usage,
}

/// The number of workgroups of a dispatch along each axis.
#[derive(Clone, Copy, PartialEq, Eq, Structural, Debug)]
pub struct Workgroups {
    pub x: u32,
    pub y: u32,
    pub z: u32,
}

/// The workgroups of size `gx` by `gy` that cover a `w` by `h` image, `z` deep.
pub open spec fn tiles(w: u32, h: u32, gx: int, gy: int, z: u32) -> Workgroups {
    Workgroups {
        x: crate::arith::groups(w as int, gx) as u32,
        y: crate::arith::groups(h as int, gy) as u32,
        z,
    }
}

/// The workgroups of size `gx` by `gy` that cover a `w` by `h` image, `z` deep.
pub fn tile(w: u32, h: u32, gx: u32, gy: u32, z: u32) -> (r: Workgroups)
    requires
        gx > 0,
        gy > 0,
    ensures
        r == tiles(w, h, gx as int, gy as int, z),
{
    Workgroups { x: GpuContext::div_ceil(w, gx), y: GpuContext::div_ceil(h, gy), z }
}

/// Tiled workgroups reach every pixel of the image, and the last ones are not idle.
pub proof fn lemma_tiles_cover(w: u32, h: u32, gx: int, gy: int, z: u32)
    requires
        gx > 0,
        gy > 0,
    ensures
        tiles(w, h, gx, gy, z).x * gx >= w,
        tiles(w, h, gx, gy, z).y * gy >= h,
        w > 0 ==> (tiles(w, h, gx, gy, z).x - 1) * gx < w,
        h > 0 ==> (tiles(w, h, gx, gy, z).y - 1) * gy < h,
        tiles(w, h, gx, gy, z).z == z,
{
    crate::arith::lemma_groups(w as int, gx);
    crate::arith::lemma_groups(h as int, gy);
    let x = crate::arith::groups(w as int, gx);
    let y = crate::arith::groups(h as int, gy);
    assert(x == 0 ==> x * gx == 0) by (nonlinear_arith);
    assert(y == 0 ==> y * gy == 0) by (nonlinear_arith);
}

/// The stage of a pipeline that sees a binding.
#[derive(Clone, Copy, PartialEq, Eq, Structural, Debug)]
pub enum ShaderStage {
    Vertex,
    Fragment,
    Compute,
}

/// What a binding slot holds.
#[derive(Clone, Copy, PartialEq, Eq, Structural, Debug)]
pub enum BindingKind {
    Uniform,
    Storage { read_only: bool },
}

/// One slot of a bind group layout.
#[derive(Clone, Copy, PartialEq, Eq, Structural, Debug)]
pub struct LayoutEntry {
    pub binding: u32,
    pub visibility: ShaderStage,
    pub kind: BindingKind,
}

/// Makes a layout slot.  `read_only` matters for storage buffers only.
pub fn bgl_entry(binding: u32, visibility: ShaderStage, is_uniform: bool, read_only: bool) -> (r:
    LayoutEntry)
    ensures
        r.binding == binding,
        r.visibility == visibility,
        is_uniform ==> r.kind == BindingKind::Uniform,
        !is_uniform ==> r.kind == (BindingKind::Storage { read_only }),
{
    if is_uniform {
        LayoutEntry { binding, visibility, kind: BindingKind::Uniform }
    } else {
        LayoutEntry { binding, visibility, kind: BindingKind::Storage { read_only } }
    }
}

/// Which kind of adapter to ask for.
#[derive(Clone, Copy, PartialEq, Eq, Structural, Debug)]
pub enum PowerPreference {
    /// Let the platform pick the adapter that suits the surface best.
    Any,
    HighPerformance,
    LowPower,
}

/// The adapters to ask for, in order: the platform's own choice first, because a
/// high-performance adapter may be unable to present to the display.
pub open spec fn preferences() -> Seq<PowerPreference> {
    seq![PowerPreference::Any, PowerPreference::HighPerformance, PowerPreference::LowPower]
}

/// What to do next to find an adapter.
#[derive(Clone, Copy, PartialEq, Eq, Structural, Debug)]
pub enum AdapterStep {
    /// Ask for an adapter of this kind that can present to the surface.
    Request(PowerPreference),
    /// The adapter that was found last is the one to use.
    Found,
    /// There is no adapter.
    NotFound,
}

/// What to do at a point of the search.
pub open spec fn adapter_step(at: Attempt) -> AdapterStep {
    match at {
        Attempt::Try(i) => AdapterStep::Request(preferences()[i as int]),
        Attempt::Use(i) => AdapterStep::Found,
        Attempt::GiveUp => AdapterStep::NotFound,
    }
}

/// The search for an adapter: the kinds are asked for in order, and the first adapter that is
/// found is used.
#[derive(Clone, Copy, PartialEq, Eq, Structural, Debug)]
pub struct AdapterSearch {
    pub chain: Fallback,
}

impl AdapterSearch {
    /// The search runs through the three kinds.
    pub open spec fn wf(self) -> bool {
        &&& self.chain.total == 3
        &&& self.chain.at matches Attempt::Try(i) ==> i < 3
    }

    /// Starts the search.
    pub fn new() -> (r: Self)
        ensures
            r.wf(),
            r.chain.at == Attempt::Try(0),
    {
        AdapterSearch { chain: Fallback::new(3) }
    }

    /// What to do next.
    pub fn step(&self) -> (r: AdapterStep)
        requires
            self.wf(),
        ensures
            r == adapter_step(self.chain.at),
    {
        match self.chain.at {
            Attempt::Try(i) => AdapterStep::Request(GpuContext::power_preferences()[i]),
            Attempt::Use(_) => AdapterStep::Found,
            Attempt::GiveUp => AdapterStep::NotFound,
        }
    }

    /// Takes in whether the adapter that was asked for could be had.
    pub fn report(&mut self, success: bool)
        requires
            old(self).wf(),
        ensures
            final(self).wf(),
            final(self).chain.at == crate::fallback::next_attempt(3, old(self).chain.at, success),
    {
        let _ = self.chain.report(success);
    }
}

/// The platform's choice is asked for first, then high performance, then low power; the first
/// adapter that can be had is used, and there is none only if all three were refused.
pub proof fn lemma_adapter_order(outcomes: Seq<bool>)
    requires
        outcomes.len() <= 3,
    ensures
        adapter_step(crate::fallback::after(3, seq![])) == AdapterStep::Request(
            PowerPreference::Any,
        ),
        adapter_step(crate::fallback::after(3, seq![false])) == AdapterStep::Request(
            PowerPreference::HighPerformance,
        ),
        adapter_step(crate::fallback::after(3, seq![false, false])) == AdapterStep::Request(
            PowerPreference::LowPower,
        ),
        adapter_step(crate::fallback::after(3, outcomes)) == AdapterStep::Found <==> exists|i: int|
            0 <= i < outcomes.len() && #[trigger] outcomes[i],
        adapter_step(crate::fallback::after(3, outcomes)) == AdapterStep::NotFound <==> (
        outcomes.len() == 3 && forall|i: int| 0 <= i < outcomes.len() ==> !#[trigger] outcomes[i]),
{
    crate::fallback::lemma_all_failed(3, seq![]);
    crate::fallback::lemma_all_failed(3, seq![false]);
    crate::fallback::lemma_all_failed(3, seq![false, false]);
    if forall|i: int| 0 <= i < outcomes.len() ==> !#[trigger] outcomes[i] {
        crate::fallback::lemma_all_failed(3, outcomes);
    } else if outcomes[0] {
        crate::fallback::lemma_first_success(3, outcomes, 0);
    } else if outcomes[1] {
        crate::fallback::lemma_first_success(3, outcomes, 1);
    } else {
        crate::fallback::lemma_first_success(3, outcomes, 2);
    }
}

/// The limits of a device that the plans depend on.
#[derive(Clone, Copy, PartialEq, Eq, Structural, Debug)]
pub struct GpuContext {
    /// Bytes of memory that the invocations of one workgroup share.
    pub max_compute_workgroup_storage_size: u32,
}

impl GpuContext {
    /// Records the limits of a device.
    pub fn new(max_compute_workgroup_storage_size: u32) -> (r: Self)
        ensures
            r.max_compute_workgroup_storage_size == max_compute_workgroup_storage_size,
    {
        GpuContext { max_compute_workgroup_storage_size }
    }

    /// The adapters to ask for, in order.
    pub fn power_preferences() -> (r: Vec<PowerPreference>)
        ensures
            r@ == preferences(),
    {
        let mut r: Vec<PowerPreference> = Vec::new();
        r.push(PowerPreference::Any);
        r.push(PowerPreference::HighPerformance);
        r.push(PowerPreference::LowPower);
        assert(r@ =~= preferences());
        r
    }

    /// Describes a buffer to be created.
    pub fn create_buffer<B>(id: B, size: u64, usage: Usage) -> (r: BufferSpec<B>)
        ensures
            r == (BufferSpec { id, size, usage }),
    {
        BufferSpec { id, size, usage }
    }

    /// Divides and rounds up.
    pub fn div_ceil(n: u32, size: u32) -> (r: u32)
        requires
            size > 0,
        ensures
            r == crate::arith::groups(n as int, size as int),
    {
        crate::arith::div_ceil(n, size)
    }
}

/// The longest transform that a workgroup's shared memory holds: a complex value takes eight
/// bytes, and 512 is the length that is tried where even 1024 does not fit.
pub open spec fn max_fft(shared: u32) -> u32 {
    if shared / 8 >= 2048 {
        2048
    } else if shared / 8 >= 1024 {
        1024
    } else {
        512
    }
}

/// The longest transform for a device.
pub fn max_fft_for_device(device: &GpuContext) -> (r: u32)
    ensures
        r == max_fft(device.max_compute_workgroup_storage_size),
{
    let shared: u32 = device.max_compute_workgroup_storage_size;
    let max_n: u32 = shared / 8;
    if max_n >= 2048 {
        2048
    } else if max_n >= 1024 {
        1024
    } else {
        512
    }
}

/// The longest transform is a power of two; on a device with at least 4096 bytes of shared
/// memory it fits there, eight bytes to a value; 2048 is used exactly where 16 KiB are
/// there, 1024 exactly where 8 KiB are there but not 16.
pub proof fn lemma_max_fft(shared: u32)
    ensures
        crate::arith::is_power_of_two(max_fft(shared) as int),
        512 <= max_fft(shared) <= 2048,
        shared >= 4096 ==> max_fft(shared) * 8 <= shared,
        max_fft(shared) == 2048 <==> shared >= 0x4000,
        max_fft(shared) == 1024 <==> 0x2000 <= shared < 0x4000,
        max_fft(shared) == 512 <==> shared < 0x2000,
{
    vstd::arithmetic::power2::lemma2_to64();
    assert(vstd::arithmetic::power2::pow2(9) == 512);
    assert(vstd::arithmetic::power2::pow2(10) == 1024);
    assert(vstd::arithmetic::power2::pow2(11) == 2048);
}

} // verus!
