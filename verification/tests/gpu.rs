use mamp::fallback::{Attempt, Fallback};
use mamp::gpu::{
    bgl_entry, max_fft_for_device, tile, AdapterSearch, AdapterStep, BindingKind, GpuContext,
    PowerPreference, ShaderStage, Usage, Workgroups,
};

#[test]
fn longest_transform_of_a_device() {
    let of = |shared: u32| max_fft_for_device(&GpuContext::new(shared));
    assert_eq!(of(32768), 2048);
    assert_eq!(of(16384), 2048);
    assert_eq!(of(16383), 1024);
    assert_eq!(of(8192), 1024);
    assert_eq!(of(8191), 512);
    assert_eq!(of(0), 512);
    assert_eq!(of(u32::MAX), 2048);
}

#[test]
fn tiles_cover_the_image() {
    assert_eq!(tile(640, 480, 64, 16, 1), Workgroups { x: 10, y: 30, z: 1 });
    assert_eq!(tile(641, 481, 8, 8, 32), Workgroups { x: 81, y: 61, z: 32 });
    assert_eq!(tile(0, 1, 16, 16, 1), Workgroups { x: 0, y: 1, z: 1 });
    assert_eq!(GpuContext::div_ceil(33, 8), 5);
}

#[test]
fn layout_slots() {
    let e = bgl_entry(0, ShaderStage::Compute, true, false);
    assert_eq!((e.binding, e.visibility, e.kind), (0, ShaderStage::Compute, BindingKind::Uniform));
    let e = bgl_entry(3, ShaderStage::Fragment, false, true);
    assert_eq!(e.binding, 3);
    assert_eq!(e.visibility, ShaderStage::Fragment);
    assert_eq!(e.kind, BindingKind::Storage { read_only: true });
    assert_eq!(
        bgl_entry(4, ShaderStage::Compute, false, false).kind,
        BindingKind::Storage { read_only: false }
    );
    assert_eq!(bgl_entry(1, ShaderStage::Vertex, true, true).kind, BindingKind::Uniform);
}

#[test]
fn uses_of_buffers() {
    let all = [
        Usage::Storage,
        Usage::StorageSource,
        Usage::StorageTarget,
        Usage::StorageBoth,
        Usage::Staging,
        Usage::Uniform,
    ];
    let flags: Vec<(bool, bool, bool, bool, bool)> = all
        .iter()
        .map(|u| (u.is_storage(), u.is_uniform(), u.copies_out(), u.copies_in(), u.is_mapped()))
        .collect();
    assert_eq!(
        flags,
        vec![
            (true, false, false, false, false),
            (true, false, true, false, false),
            (true, false, false, true, false),
            (true, false, true, true, false),
            (false, false, false, true, true),
            (false, true, false, true, false),
        ]
    );
    let b = GpuContext::create_buffer("b", 12, Usage::Staging);
    assert_eq!((b.id, b.size, b.usage), ("b", 12, Usage::Staging));
}

#[test]
fn adapters_are_asked_for_in_order() {
    let order =
        [PowerPreference::Any, PowerPreference::HighPerformance, PowerPreference::LowPower];
    assert_eq!(GpuContext::power_preferences(), order.to_vec());
    let mut search = AdapterSearch::new();
    for preference in order {
        assert_eq!(search.step(), AdapterStep::Request(preference));
        search.report(false);
    }
    assert_eq!(search.step(), AdapterStep::NotFound);
    search.report(true);
    assert_eq!(search.step(), AdapterStep::NotFound);
}

#[test]
fn first_adapter_is_used() {
    let mut search = AdapterSearch::new();
    search.report(false);
    search.report(true);
    assert_eq!(search.step(), AdapterStep::Found);
    search.report(false);
    assert_eq!(search.step(), AdapterStep::Found);
}

#[test]
fn alternatives_are_tried_until_one_succeeds() {
    let mut chain = Fallback::new(3);
    assert_eq!(chain.at, Attempt::Try(0));
    assert_eq!(chain.report(false), Attempt::Try(1));
    assert_eq!(chain.report(true), Attempt::Use(1));
    assert_eq!(chain.report(false), Attempt::Use(1));
    assert_eq!(Fallback::new(0).at, Attempt::GiveUp);
    let mut chain = Fallback::new(1);
    assert_eq!(chain.report(false), Attempt::GiveUp);
    assert_eq!(chain.report(true), Attempt::GiveUp);
}
