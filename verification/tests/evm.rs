use mamp::evm::{Command, EvmPipeline, Kernel, Plane, Resource};
use mamp::gpu::{Usage, Workgroups};

#[test]
fn buffers_of_the_bandpass() {
    let p = EvmPipeline::new(640, 360);
    let list: Vec<(Plane, u64, Usage)> =
        p.buffers().iter().map(|b| (b.id, b.size, b.usage)).collect();
    let pixels = 640 * 360;
    assert_eq!(
        list,
        vec![
            (Plane::FrameRgba, pixels * 4, Usage::StorageBoth),
            (Plane::Chw, 3 * pixels * 4, Usage::Storage),
            (Plane::LowpassHigh, 3 * pixels * 4, Usage::Storage),
            (Plane::LowpassLow, 3 * pixels * 4, Usage::Storage),
            (Plane::OutputChw, 3 * pixels * 4, Usage::Storage),
            (Plane::OutputRgba, pixels * 4, Usage::StorageSource),
            (Plane::Staging, pixels * 4, Usage::Staging),
        ]
    );
}

#[test]
fn parameters_of_the_bandpass() {
    let p = EvmPipeline::new(640, 360);
    assert_eq!(p.frame_params().words(), vec![640, 360, 0, 0]);
    assert_eq!(p.contents(Resource::FrameParams), vec![640, 360, 0, 0]);
    assert_eq!(p.contents(Resource::BandpassParams), vec![640, 360, 0, 0, 0, 0, 0, 0]);
    assert_eq!(p.bandpass_params(0, 0, 0).words(), vec![640, 360, 0, 0, 0, 0, 0, 0]);
    assert_eq!(p.bandpass_params(1, 2, 3).words(), vec![640, 360, 1, 2, 3, 0, 0, 0]);
}

#[test]
fn bind_groups_of_the_bandpass() {
    assert_eq!(
        EvmPipeline::bind_group(Kernel::RgbaToChw),
        vec![
            Resource::FrameParams,
            Resource::Plane(Plane::FrameRgba),
            Resource::Plane(Plane::Chw),
        ]
    );
    assert_eq!(
        EvmPipeline::bind_group(Kernel::Bandpass),
        vec![
            Resource::BandpassParams,
            Resource::Plane(Plane::Chw),
            Resource::Plane(Plane::LowpassHigh),
            Resource::Plane(Plane::LowpassLow),
            Resource::Plane(Plane::OutputChw),
        ]
    );
    assert_eq!(
        EvmPipeline::bind_group(Kernel::ChwToRgba),
        vec![
            Resource::FrameParams,
            Resource::Plane(Plane::OutputChw),
            Resource::Plane(Plane::OutputRgba),
        ]
    );
}

#[test]
fn commands_of_the_bandpass() {
    let p = EvmPipeline::new(641, 360);
    let pixels = [0x1122_3344u32];
    let plan = p.process_frame(&pixels, 4, 5, 6);
    assert_eq!(plan.frame, &0x1122_3344u32.to_ne_bytes());
    assert_eq!(plan.bandpass.words(), vec![641, 360, 4, 5, 6, 0, 0, 0]);
    assert_eq!(
        plan.commands,
        vec![
            Command::Dispatch {
                kernel: Kernel::RgbaToChw,
                groups: Workgroups { x: 11, y: 23, z: 1 },
            },
            Command::Dispatch {
                kernel: Kernel::Bandpass,
                groups: Workgroups { x: 41, y: 23, z: 1 },
            },
            Command::Dispatch {
                kernel: Kernel::ChwToRgba,
                groups: Workgroups { x: 11, y: 23, z: 1 },
            },
            Command::Copy {
                source: Plane::OutputRgba,
                target: Plane::Staging,
                size: 641 * 360 * 4,
            },
        ]
    );
}

#[test]
fn uses_of_the_bandpass_resources() {
    assert_eq!(Resource::FrameParams.usage(), Usage::Uniform);
    assert_eq!(Resource::BandpassParams.usage(), Usage::Uniform);
    for b in EvmPipeline::new(4, 4).buffers() {
        assert_eq!(Resource::Plane(b.id).usage(), b.usage);
    }
}
