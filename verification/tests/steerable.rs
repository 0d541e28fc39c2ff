use mamp::gpu::{Usage, Workgroups};
use mamp::steerable::{
    Command, Kernel, Resource, SteerablePipeline, Storage, Uniform, N_BAND, N_ORIENT, N_SCALES,
};

fn standard() -> SteerablePipeline {
    SteerablePipeline::new(640, 480, 2048, N_SCALES, N_ORIENT)
}

fn frame(p: &mut SteerablePipeline) -> Vec<Command> {
    match p.process_and_render(&[0u32; 4], 0, 0, 0, true).commands {
        Some(commands) => commands,
        None => panic!("a texture was there"),
    }
}

#[test]
fn padded_sizes() {
    let p = standard();
    assert_eq!((p.ow, p.oh, p.pw, p.ph), (640, 480, 1024, 512));
    assert!(p.first_frame);
    let p = SteerablePipeline::new(640, 480, 512, 3, 4);
    assert_eq!((p.pw, p.ph), (512, 512));
    let p = SteerablePipeline::new(2, 2, 2048, 1, 1);
    assert_eq!((p.pw, p.ph), (2, 2));
    let p = SteerablePipeline::new(1, 1, 512, 1, 1);
    assert_eq!((p.pw, p.ph), (1, 1));
}

#[test]
fn supported_pyramids() {
    assert!(SteerablePipeline::is_supported(640, 480, 2048, 3, 4));
    assert!(SteerablePipeline::is_supported(2, 0x7fff_ffff, 2048, 4, 8));
    assert!(!SteerablePipeline::is_supported(3, 0x7fff_ffff, 2048, 4, 8));
    assert!(!SteerablePipeline::is_supported(0, 480, 2048, 3, 4));
    assert!(!SteerablePipeline::is_supported(640, 0, 2048, 3, 4));
    assert!(!SteerablePipeline::is_supported(640, 480, 0, 3, 4));
    assert!(!SteerablePipeline::is_supported(0x8000_0001, 1, 2048, 3, 4));
    assert!(!SteerablePipeline::is_supported(40000, 40000, 65536, 3, 4));
    assert!(!SteerablePipeline::is_supported(640, 480, 2048, 65536, 65536));
}

#[test]
fn buffers_of_the_standard_pyramid() {
    let p = standard();
    let buffers = p.buffers();
    assert_eq!(buffers.len(), 22 + 4 * N_BAND);
    assert_eq!(buffers[0].id, Storage::RgbaIn);
    assert_eq!(buffers[0].size, 640 * 480 * 4);
    assert_eq!(buffers[0].usage, Usage::StorageBoth);
    assert_eq!(buffers[1].id, Storage::RgbaOut);
    assert_eq!(buffers[1].size, 640 * 480 * 4);
    assert_eq!(buffers[1].usage, Usage::StorageTarget);
    for b in &buffers[2..] {
        assert_eq!(b.size, 1024 * 512 * 4);
        assert_eq!(b.usage, Usage::StorageBoth);
    }
    assert_eq!(buffers[5].id, Storage::Zeros);
    assert_eq!(buffers[22].id, Storage::PrevRe(0));
    assert_eq!(buffers[34].id, Storage::PrevIm(0));
    assert_eq!(buffers[46].id, Storage::LowpassHigh(0));
    assert_eq!(buffers[69].id, Storage::LowpassLow(11));
    for (i, a) in buffers.iter().enumerate() {
        for b in &buffers[i + 1..] {
            assert_ne!(a.id, b.id);
        }
    }
}

#[test]
fn zeros_fill_a_plane() {
    let p = SteerablePipeline::new(4, 4, 512, 1, 1);
    assert_eq!(p.zeros(), vec![0u8; 64]);
}

#[test]
fn parameter_blocks() {
    let p = standard();
    let list = p.uniforms();
    assert_eq!(list.len(), 9 + 2 * N_BAND);
    for u in &list {
        assert_eq!(u.usage(), Usage::Uniform);
    }
    assert_eq!(p.uniform_words(Uniform::Color), vec![640, 480, 1024, 512]);
    assert_eq!(p.uniform_words(Uniform::Blit), vec![640, 480]);
    assert_eq!(p.uniform_words(Uniform::Phase), vec![1024, 512, 0, 0, 0, 1, 0, 0]);
    assert_eq!(p.uniform_words(Uniform::RowForward), vec![1024, 10, 512, 0, 1, 1024, 0, 0]);
    assert_eq!(p.uniform_words(Uniform::ColumnForward), vec![512, 9, 1024, 0, 1024, 1, 0, 0]);
    assert_eq!(p.uniform_words(Uniform::RowInverse), vec![1024, 10, 512, 1, 1, 1024, 0, 0]);
    assert_eq!(p.uniform_words(Uniform::ColumnInverse), vec![512, 9, 1024, 1, 1024, 1, 0, 0]);
    assert_eq!(p.uniform_words(Uniform::Filter(0)), vec![1024, 512, 4, 0, 0, 3, 0, 0]);
    assert_eq!(p.uniform_words(Uniform::Filter(7)), vec![1024, 512, 4, 3, 1, 3, 0, 0]);
    assert_eq!(p.uniform_words(Uniform::FilterAccumulate(8)), vec![1024, 512, 4, 0, 2, 3, 0, 0]);
    assert_eq!(p.uniform_words(Uniform::ResidualHigh), vec![1024, 512, 4, 0, 0, 3, 1, 1]);
    assert_eq!(p.uniform_words(Uniform::ResidualLow), vec![1024, 512, 4, 0, 0, 3, 2, 1]);
}

#[test]
fn bands_run_through_scales_and_orientations() {
    let p = SteerablePipeline::new(64, 64, 512, 4, 8);
    let mut seen = Vec::new();
    for u in p.uniforms() {
        if let Uniform::Filter(_) = u {
            let words = p.uniform_words(u);
            seen.push((words[4], words[3]));
        }
    }
    let expected: Vec<(u32, u32)> = (0..4).flat_map(|s| (0..8).map(move |o| (s, o))).collect();
    assert_eq!(seen, expected);
}

#[test]
fn a_frame_takes_92_dispatches() {
    let commands = frame(&mut standard());
    assert_eq!(commands.len(), 95);
    let dispatches = commands.iter().filter(|c| matches!(c, Command::Dispatch { .. })).count();
    assert_eq!(dispatches, 92);
    let copies = commands.iter().filter(|c| matches!(c, Command::Copy { .. })).count();
    assert_eq!(copies, 2);
    let mut small = SteerablePipeline::new(64, 64, 512, 1, 1);
    let dispatches =
        frame(&mut small).iter().filter(|c| matches!(c, Command::Dispatch { .. })).count();
    assert_eq!(dispatches, 15);
}

#[test]
fn frame_starts_with_conversion_and_transform() {
    let commands = frame(&mut standard());
    match &commands[0] {
        Command::Dispatch { kernel, bindings, groups } => {
            assert_eq!(*kernel, Kernel::RgbaToY);
            assert_eq!(
                *bindings,
                vec![
                    Resource::Uniform(Uniform::Color),
                    Resource::Storage(Storage::RgbaIn),
                    Resource::Storage(Storage::Y),
                    Resource::Storage(Storage::I),
                    Resource::Storage(Storage::Q),
                ]
            );
            assert_eq!(*groups, Workgroups { x: 64, y: 32, z: 1 });
        }
        other => panic!("{:?}", other),
    }
    match &commands[1] {
        Command::Dispatch { kernel, bindings, groups } => {
            assert_eq!(*kernel, Kernel::Fft);
            assert_eq!(bindings[0], Resource::Uniform(Uniform::RowForward));
            assert_eq!(bindings[2], Resource::Storage(Storage::Zeros));
            assert_eq!(*groups, Workgroups { x: 512, y: 1, z: 1 });
        }
        other => panic!("{:?}", other),
    }
    match &commands[3] {
        Command::Copy { source, target, size } => {
            assert_eq!(*source, Storage::Zeros);
            assert_eq!(*target, Storage::AccumulatorRe);
            assert_eq!(*size, 1024 * 512 * 4);
        }
        other => panic!("{:?}", other),
    }
}

#[test]
fn phase_amplification_uses_the_state_of_its_band() {
    let commands = frame(&mut standard());
    for band in 0..12u32 {
        match &commands[8 + 7 * band as usize] {
            Command::Dispatch { kernel, bindings, groups } => {
                assert_eq!(*kernel, Kernel::PhaseAmplify);
                assert_eq!(
                    *bindings,
                    vec![
                        Resource::Uniform(Uniform::Phase),
                        Resource::Storage(Storage::BandRe),
                        Resource::Storage(Storage::BandIm),
                        Resource::Storage(Storage::PrevRe(band)),
                        Resource::Storage(Storage::PrevIm(band)),
                        Resource::Storage(Storage::LowpassHigh(band)),
                        Resource::Storage(Storage::LowpassLow(band)),
                        Resource::Storage(Storage::ModifiedRe),
                        Resource::Storage(Storage::ModifiedIm),
                    ]
                );
                assert_eq!(*groups, Workgroups { x: 64, y: 32, z: 1 });
            }
            other => panic!("{:?}", other),
        }
    }
}

#[test]
fn frame_ends_with_conversion_and_drawing() {
    let commands = frame(&mut standard());
    match &commands[93] {
        Command::Dispatch { kernel, bindings, groups } => {
            assert_eq!(*kernel, Kernel::YiqToRgba);
            assert_eq!(bindings[4], Resource::Storage(Storage::RgbaOut));
            assert_eq!(*groups, Workgroups { x: 40, y: 30, z: 1 });
        }
        other => panic!("{:?}", other),
    }
    match &commands[94] {
        Command::Blit { bindings, vertices } => {
            assert_eq!(
                *bindings,
                vec![Resource::Uniform(Uniform::Blit), Resource::Storage(Storage::RgbaOut)]
            );
            assert_eq!(*vertices, 6);
        }
        other => panic!("{:?}", other),
    }
}

#[test]
fn no_shader_binds_a_resource_twice() {
    for c in frame(&mut standard()) {
        if let Command::Dispatch { bindings, .. } = c {
            for (i, a) in bindings.iter().enumerate() {
                assert!(!bindings[i + 1..].contains(a));
            }
        }
    }
}

#[test]
fn transforms_touch_every_pixel_once() {
    let p = SteerablePipeline::new(8, 4, 512, 1, 1);
    for u in [Uniform::RowForward, Uniform::ColumnForward, Uniform::RowInverse, Uniform::ColumnInverse] {
        let w = p.uniform_words(u);
        let mut seen = vec![0; 32];
        for k in 0..w[2] {
            for i in 0..w[0] {
                seen[(k * w[5] + i * w[4]) as usize] += 1;
            }
        }
        assert_eq!(seen, vec![1; 32]);
        assert_eq!(1 << w[1], w[0]);
    }
}

#[test]
fn first_frame_lasts_until_a_texture_is_there() {
    let mut p = standard();
    let pixels = [0x0102_0304u32, 5];
    let plan = p.process_and_render(&pixels, 30f32.to_bits(), 1, 2, false);
    assert!(plan.commands.is_none());
    assert_eq!(plan.phase.words(), vec![1024, 512, 30f32.to_bits(), 1, 2, 1, 0, 0]);
    assert_eq!(plan.rgba.len(), 8);
    assert_eq!(&plan.rgba[..4], &0x0102_0304u32.to_ne_bytes());
    assert!(p.first_frame);
    let plan = p.process_and_render(&pixels, 0, 0, 0, true);
    assert_eq!(plan.phase.first, 1);
    assert!(plan.commands.is_some());
    assert!(!p.first_frame);
    let plan = p.process_and_render(&pixels, 0, 0, 0, true);
    assert_eq!(plan.phase.first, 0);
    let plan = p.process_and_render(&pixels, 0, 0, 0, false);
    assert_eq!(plan.phase.first, 0);
    assert!(!p.first_frame);
    p.reset_state();
    assert_eq!(p, standard());
}

fn reads(c: &Command) -> Vec<Storage> {
    let (slots, bindings) = match c {
        Command::Dispatch { kernel, bindings, .. } => (
            match kernel {
                Kernel::RgbaToY => 1..2,
                Kernel::Fft | Kernel::Filter => 1..3,
                Kernel::FilterAccumulate => 1..5,
                Kernel::PhaseAmplify => 1..7,
                Kernel::YiqToRgba => 1..4,
            },
            bindings,
        ),
        Command::Copy { source, .. } => return vec![*source],
        Command::Blit { bindings, .. } => (1..2, bindings),
    };
    storage(&bindings[slots])
}

fn writes(c: &Command) -> Vec<Storage> {
    match c {
        Command::Dispatch { kernel, bindings, .. } => {
            let first = match kernel {
                Kernel::RgbaToY => 2,
                Kernel::YiqToRgba => 4,
                _ => 3,
            };
            storage(&bindings[first..])
        }
        Command::Copy { target, .. } => vec![*target],
        Command::Blit { .. } => vec![],
    }
}

fn storage(bindings: &[Resource]) -> Vec<Storage> {
    bindings
        .iter()
        .map(|r| match r {
            Resource::Storage(s) => *s,
            other => panic!("{:?}", other),
        })
        .collect()
}

fn is_state(s: Storage) -> bool {
    matches!(
        s,
        Storage::PrevRe(_) | Storage::PrevIm(_) | Storage::LowpassHigh(_) | Storage::LowpassLow(_)
    )
}

#[test]
fn frame_reads_only_what_is_written() {
    let mut written = vec![Storage::RgbaIn, Storage::Zeros];
    for c in frame(&mut standard()) {
        for s in reads(&c) {
            assert!(is_state(s) || written.contains(&s), "{:?}", s);
        }
        for s in writes(&c) {
            assert!(s != Storage::RgbaIn && s != Storage::Zeros);
            written.push(s);
        }
    }
}

#[test]
fn bands_keep_to_themselves() {
    let commands = frame(&mut standard());
    let kept = [
        Storage::SpectrumRe,
        Storage::SpectrumIm,
        Storage::AccumulatorRe,
        Storage::AccumulatorIm,
    ];
    for band in 0..12 {
        let mut written = Vec::new();
        for c in &commands[5 + 7 * band..12 + 7 * band] {
            for s in reads(c) {
                assert!(is_state(s) || kept.contains(&s) || written.contains(&s));
            }
            written.extend(writes(c));
        }
    }
}

#[test]
fn transforms_come_in_pairs() {
    let commands = frame(&mut standard());
    let params: Vec<Option<Uniform>> = commands
        .iter()
        .map(|c| match c {
            Command::Dispatch { kernel: Kernel::Fft, bindings, .. } => match bindings[0] {
                Resource::Uniform(u) => Some(u),
                other => panic!("{:?}", other),
            },
            _ => None,
        })
        .collect();
    for (i, u) in params.iter().enumerate() {
        match u {
            Some(Uniform::RowForward) => assert_eq!(params[i + 1], Some(Uniform::ColumnForward)),
            Some(Uniform::ColumnForward) => assert_eq!(params[i - 1], Some(Uniform::RowForward)),
            Some(Uniform::ColumnInverse) => assert_eq!(params[i + 1], Some(Uniform::RowInverse)),
            Some(Uniform::RowInverse) => assert_eq!(params[i - 1], Some(Uniform::ColumnInverse)),
            Some(other) => panic!("{:?}", other),
            None => {}
        }
    }
    assert_eq!(params.iter().filter(|u| u.is_some()).count(), 4 + 4 * 12);
}

#[test]
fn every_filter_is_accumulated_once() {
    let mut seen = Vec::new();
    for c in frame(&mut standard()) {
        if let Command::Dispatch { kernel: Kernel::FilterAccumulate, bindings, .. } = c {
            seen.push(bindings[0]);
        }
    }
    let mut expected: Vec<Resource> =
        (0..12).map(|b| Resource::Uniform(Uniform::FilterAccumulate(b))).collect();
    expected.push(Resource::Uniform(Uniform::ResidualHigh));
    expected.push(Resource::Uniform(Uniform::ResidualLow));
    assert_eq!(seen, expected);
}

#[test]
fn bindings_are_planned() {
    let mut p = SteerablePipeline::new(100, 60, 512, 2, 3);
    let planned: Vec<Storage> = p.buffers().iter().map(|b| b.id).collect();
    let uniforms = p.uniforms();
    for (i, u) in uniforms.iter().enumerate() {
        assert!(!uniforms[i + 1..].contains(u));
    }
    for c in frame(&mut p) {
        let bindings = match c {
            Command::Dispatch { bindings, .. } => bindings,
            Command::Blit { bindings, .. } => bindings,
            Command::Copy { source, target, size } => {
                assert_eq!(p.buffer(source).size, size);
                assert_eq!(p.buffer(target).size, size);
                assert!(p.buffer(source).usage.copies_out());
                assert!(p.buffer(target).usage.copies_in());
                continue;
            }
        };
        for (b, r) in bindings.iter().enumerate() {
            match r {
                Resource::Uniform(u) => assert!(b == 0 && uniforms.contains(u)),
                Resource::Storage(s) => assert!(b > 0 && planned.contains(s)),
            }
        }
    }
}
