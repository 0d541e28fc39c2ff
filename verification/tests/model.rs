use mamp::gpu::{BindingKind, Usage, Workgroups};
use mamp::model::{
    Command, ConvLayer, ConvParams, Group, Kernel, Layer, ModelWeights, MotionMagModel, Plane,
    Resource,
};

const LAYERS: [Layer; 7] = [
    Layer::EncConv1,
    Layer::EncConv2,
    Layer::EncConv3,
    Layer::EncTexture,
    Layer::DecConv1,
    Layer::DecConv2,
    Layer::DecConv3,
];

fn weights() -> ModelWeights {
    let w = |l: Layer| vec![7u32; l.weight_count()];
    let b = |l: Layer| vec![9u32; l.bias_count()];
    ModelWeights {
        enc_conv1_w: w(Layer::EncConv1),
        enc_conv1_b: b(Layer::EncConv1),
        enc_conv2_w: w(Layer::EncConv2),
        enc_conv2_b: b(Layer::EncConv2),
        enc_conv3_w: w(Layer::EncConv3),
        enc_conv3_b: b(Layer::EncConv3),
        enc_texture_w: w(Layer::EncTexture),
        enc_texture_b: b(Layer::EncTexture),
        dec_conv1_w: w(Layer::DecConv1),
        dec_conv1_b: b(Layer::DecConv1),
        dec_conv2_w: w(Layer::DecConv2),
        dec_conv2_b: b(Layer::DecConv2),
        dec_conv3_w: w(Layer::DecConv3),
        dec_conv3_b: b(Layer::DecConv3),
    }
}

fn conv_of(m: &MotionMagModel, layer: Layer) -> &ConvLayer {
    match layer {
        Layer::EncConv1 => &m.enc_conv1,
        Layer::EncConv2 => &m.enc_conv2,
        Layer::EncConv3 => &m.enc_conv3,
        Layer::EncTexture => &m.enc_texture,
        Layer::DecConv1 => &m.dec_conv1,
        Layer::DecConv2 => &m.dec_conv2,
        Layer::DecConv3 => &m.dec_conv3,
    }
}

#[test]
fn weight_counts_of_the_layers() {
    let counts: Vec<(usize, usize)> =
        LAYERS.iter().map(|l| (l.weight_count(), l.bias_count())).collect();
    assert_eq!(
        counts,
        vec![(432, 16), (4608, 32), (9216, 32), (1024, 32), (9216, 32), (4608, 16), (432, 3)]
    );
    for l in LAYERS {
        let p = l.params(320, 240);
        let expected = p.out_channels * p.in_channels * p.kernel_size * p.kernel_size;
        assert_eq!(l.weight_count(), expected as usize);
        assert_eq!(l.bias_count(), p.out_channels as usize);
    }
}

#[test]
fn convolution_output_sizes() {
    let params = ConvParams {
        in_channels: 3,
        out_channels: 5,
        kernel_size: 3,
        stride: 2,
        padding: 1,
        width: 7,
        height: 8,
        use_relu: 1,
    };
    let c = ConvLayer::new(Layer::EncConv1, params, &[1, 2, 3], &[4]);
    assert_eq!((c.out_width, c.out_height, c.out_channels), (4, 4, 5));
    assert_eq!((c.weights.as_slice(), c.bias.as_slice()), (&[1, 2, 3][..], &[4][..]));
    assert_eq!(params.words(), vec![3, 5, 3, 2, 1, 7, 8, 1]);
    let mut commands = Vec::new();
    c.record(&mut commands, Group::EncConv1B);
    assert_eq!(
        commands,
        vec![Command::Dispatch {
            kernel: Kernel::Conv(Layer::EncConv1),
            group: Group::EncConv1B,
            groups: Workgroups { x: 1, y: 1, z: 5 },
        }]
    );
}

#[test]
fn convolution_slots() {
    let layout = ConvLayer::layout();
    let kinds: Vec<BindingKind> = layout.iter().map(|e| e.kind).collect();
    assert_eq!(
        kinds,
        vec![
            BindingKind::Uniform,
            BindingKind::Storage { read_only: true },
            BindingKind::Storage { read_only: true },
            BindingKind::Storage { read_only: true },
            BindingKind::Storage { read_only: false },
        ]
    );
    let bindings: Vec<u32> = layout.iter().map(|e| e.binding).collect();
    assert_eq!(bindings, vec![0, 1, 2, 3, 4]);
}

#[test]
fn layers_of_the_model() {
    let m = MotionMagModel::new(320, 240, &weights());
    assert_eq!((m.width, m.height, m.latent_width, m.latent_height), (320, 240, 160, 120));
    let sizes: Vec<(u32, u32, u32)> = LAYERS
        .iter()
        .map(|&l| conv_of(&m, l))
        .map(|c| (c.out_width, c.out_height, c.out_channels))
        .collect();
    assert_eq!(
        sizes,
        vec![
            (320, 240, 16),
            (160, 120, 32),
            (160, 120, 32),
            (160, 120, 32),
            (160, 120, 32),
            (320, 240, 16),
            (320, 240, 3),
        ]
    );
    assert_eq!(m.enc_conv2.params.words(), vec![16, 32, 3, 2, 1, 320, 240, 1]);
    assert_eq!(m.enc_texture.params.words(), vec![32, 32, 1, 1, 0, 160, 120, 0]);
    assert_eq!(m.dec_conv3.params.words(), vec![16, 3, 3, 1, 1, 320, 240, 0]);
    assert_eq!(m.enc_conv3.weights.len(), 9216);
}

#[test]
fn odd_frames_overhang_the_latent_image() {
    let m = MotionMagModel::new(3, 3, &weights());
    assert_eq!((m.latent_width, m.latent_height), (1, 1));
    assert_eq!((m.enc_conv2.out_width, m.enc_conv2.out_height), (2, 2));
}

#[test]
fn buffers_of_the_model() {
    let m = MotionMagModel::new(320, 240, &weights());
    let buffers = m.buffers();
    let pixels = 320 * 240;
    let latent = 160 * 120;
    let sizes: Vec<u64> = buffers.iter().map(|b| b.size).collect();
    assert_eq!(
        sizes,
        vec![
            pixels * 4,
            pixels * 4,
            3 * pixels * 4,
            3 * pixels * 4,
            16 * pixels * 4,
            32 * latent * 4,
            32 * latent * 4,
            32 * latent * 4,
            16 * pixels * 4,
            32 * latent * 4,
            32 * latent * 4,
            32 * latent * 4,
            32 * latent * 4,
            32 * pixels * 4,
            16 * pixels * 4,
            3 * pixels * 4,
            pixels * 4,
            pixels * 4,
            pixels * 4,
        ]
    );
    assert_eq!(buffers[0].usage, Usage::StorageBoth);
    assert_eq!(buffers[2].usage, Usage::Storage);
    assert_eq!(buffers[16].usage, Usage::StorageSource);
    assert_eq!(buffers[18].id, Plane::Staging(1));
    assert_eq!(buffers[18].usage, Usage::Staging);
}

#[test]
fn model_parameter_blocks() {
    let m = MotionMagModel::new(320, 240, &weights());
    assert_eq!(m.frame_params().words(), vec![320, 240, 0, 0]);
    assert_eq!(m.manip_params(0).words(), vec![32, 120, 160, 0]);
    assert_eq!(m.manip_params(2f32.to_bits()).words(), vec![32, 120, 160, 0x4000_0000]);
    assert_eq!(m.upsample_params().words(), vec![32, 120, 160, 240, 320, 0]);
}

#[test]
fn bind_groups_of_the_model() {
    let m = MotionMagModel::new(320, 240, &weights());
    assert_eq!(MotionMagModel::groups().len(), 15);
    assert_eq!(
        m.bind_group(Group::Manip),
        vec![
            Resource::ManipParams,
            Resource::Plane(Plane::ShapeA),
            Resource::Plane(Plane::ShapeB),
            Resource::Plane(Plane::TextureA),
            Resource::Plane(Plane::ManipOut),
        ]
    );
    assert_eq!(
        m.bind_group(Group::EncTextureA),
        vec![
            Resource::LayerParams(Layer::EncTexture),
            Resource::Plane(Plane::Enc2A),
            Resource::Weights(Layer::EncTexture),
            Resource::Bias(Layer::EncTexture),
            Resource::Plane(Plane::TextureA),
        ]
    );
    assert_eq!(
        m.bind_group(Group::ChwToRgba),
        vec![
            Resource::FrameParams,
            Resource::Plane(Plane::ChwOut),
            Resource::Plane(Plane::RgbaOut),
        ]
    );
}

#[test]
fn magnification_takes_fifteen_dispatches() {
    let m = MotionMagModel::new(320, 240, &weights());
    let (a, b) = ([1u32, 2], [3u32]);
    let plain = m.magnify_no_staging(&a, &b, 5);
    assert_eq!(plain.commands.len(), 15);
    assert_eq!(plain.manip.alpha, 5);
    assert_eq!(&plain.frame_a[4..], &2u32.to_ne_bytes());
    assert_eq!(plain.frame_b, &3u32.to_ne_bytes());
    let staged = m.magnify(&a, &b, 5, 1);
    assert_eq!(staged.commands[..15], plain.commands[..]);
    assert_eq!(
        staged.commands[15],
        Command::Copy {
            source: Plane::RgbaOut,
            target: Plane::Staging(1),
            size: 320 * 240 * 4,
        }
    );
}

#[test]
fn magnification_in_order() {
    let m = MotionMagModel::new(320, 240, &weights());
    let commands = m.magnify(&[], &[], 0, 0).commands;
    let groups: Vec<Group> = commands
        .iter()
        .filter_map(|c| match c {
            Command::Dispatch { group, .. } => Some(*group),
            _ => None,
        })
        .collect();
    assert_eq!(
        groups,
        vec![
            Group::RgbaToChwA,
            Group::RgbaToChwB,
            Group::EncConv1A,
            Group::EncConv2A,
            Group::EncConv3A,
            Group::EncTextureA,
            Group::EncConv1B,
            Group::EncConv2B,
            Group::EncConv3B,
            Group::Manip,
            Group::DecConv1,
            Group::Upsample,
            Group::DecConv2,
            Group::DecConv3,
            Group::ChwToRgba,
        ]
    );
    assert_eq!(
        commands[0],
        Command::Dispatch {
            kernel: Kernel::RgbaToChw,
            group: Group::RgbaToChwA,
            groups: Workgroups { x: 5, y: 15, z: 1 },
        }
    );
    assert_eq!(
        commands[9],
        Command::Dispatch {
            kernel: Kernel::Manipulate,
            group: Group::Manip,
            groups: Workgroups { x: 20, y: 15, z: 8 },
        }
    );
    assert_eq!(
        commands[11],
        Command::Dispatch {
            kernel: Kernel::Upsample,
            group: Group::Upsample,
            groups: Workgroups { x: 40, y: 30, z: 8 },
        }
    );
}

#[test]
fn model_reads_only_what_is_written() {
    let m = MotionMagModel::new(64, 48, &weights());
    let mut written = vec![Plane::FrameA, Plane::FrameB];
    for c in m.magnify_no_staging(&[], &[], 0).commands {
        if let Command::Dispatch { group, .. } = c {
            let planes: Vec<Plane> = m
                .bind_group(group)
                .iter()
                .filter_map(|r| match r {
                    Resource::Plane(p) => Some(*p),
                    _ => None,
                })
                .collect();
            let (last, inputs) = planes.split_last().unwrap();
            for p in inputs {
                assert!(written.contains(p));
            }
            assert!(!written.contains(last));
            written.push(*last);
        }
    }
}

#[test]
fn weights_by_layer() {
    let mut w = weights();
    w.dec_conv2_w = vec![1, 2, 3];
    w.dec_conv2_b = vec![4];
    assert_eq!(w.weights(Layer::DecConv2), &[1, 2, 3]);
    assert_eq!(w.bias(Layer::DecConv2), &[4]);
    assert_eq!(w.weights(Layer::EncConv1).len(), 432);
    let m = MotionMagModel::new(8, 8, &w);
    assert_eq!(m.dec_conv2.weights, vec![1, 2, 3]);
    assert_eq!(m.dec_conv2.bias, vec![4]);
}

#[test]
fn convolutions_fill_their_buffers_on_even_frames() {
    let m = MotionMagModel::new(100, 62, &weights());
    for group in MotionMagModel::groups() {
        if let Kernel::Conv(layer) = group.kernel() {
            let c = conv_of(&m, layer);
            let bindings = m.bind_group(group);
            let size_of = |r: Resource| match r {
                Resource::Plane(p) => m.buffer(p).size,
                other => panic!("{:?}", other),
            };
            let input = c.params.in_channels as u64 * c.params.width as u64 * c.params.height as u64;
            assert_eq!(size_of(bindings[1]), input * 4);
            let output = c.out_channels as u64 * c.out_width as u64 * c.out_height as u64;
            assert_eq!(size_of(bindings[4]), output * 4);
        }
    }
}

#[test]
fn model_bindings_are_planned() {
    let m = MotionMagModel::new(100, 62, &weights());
    let planned: Vec<Plane> = m.buffers().iter().map(|b| b.id).collect();
    for (i, p) in planned.iter().enumerate() {
        assert!(!planned[i + 1..].contains(p));
    }
    for group in MotionMagModel::groups() {
        let bindings = m.bind_group(group);
        for (i, r) in bindings.iter().enumerate() {
            assert!(!bindings[i + 1..].contains(r));
            if let Resource::Plane(p) = r {
                assert!(i > 0 && planned.contains(p));
                assert_eq!(m.buffer(*p).usage, r.usage());
            }
            assert_eq!(r.usage().is_uniform(), i == 0);
            assert_eq!(r.usage().is_storage(), i > 0);
        }
    }
}

#[test]
fn buffers_hold_the_weights_of_their_layer() {
    let mut w = weights();
    w.enc_conv1_w = vec![10, 11];
    w.enc_conv1_b = vec![12];
    w.enc_conv2_w = vec![20, 21, 22];
    w.enc_conv2_b = vec![23];
    w.enc_texture_w = vec![40];
    w.dec_conv3_b = vec![73, 74];
    let m = MotionMagModel::new(320, 240, &w);
    assert_eq!(m.contents(Resource::Weights(Layer::EncConv1)), vec![10, 11]);
    assert_eq!(m.contents(Resource::Bias(Layer::EncConv1)), vec![12]);
    assert_eq!(m.contents(Resource::Weights(Layer::EncConv2)), vec![20, 21, 22]);
    assert_eq!(m.contents(Resource::Bias(Layer::EncConv2)), vec![23]);
    assert_eq!(m.contents(Resource::Weights(Layer::EncTexture)), vec![40]);
    assert_eq!(m.contents(Resource::Bias(Layer::DecConv3)), vec![73, 74]);
    for l in LAYERS {
        assert_eq!(m.contents(Resource::Weights(l)), w.weights(l));
        assert_eq!(m.contents(Resource::Bias(l)), w.bias(l));
        assert_eq!(m.contents(Resource::LayerParams(l)), l.params(320, 240).words());
    }
    assert_eq!(m.contents(Resource::FrameParams), vec![320, 240, 0, 0]);
    assert_eq!(m.contents(Resource::ManipParams), vec![32, 120, 160, 0]);
    assert_eq!(m.contents(Resource::UpsampleParams), vec![32, 120, 160, 240, 320, 0]);
}

#[test]
fn convolutions_have_a_place_for_every_output() {
    for (side, kernel_size, stride, padding) in
        [(7u32, 3u32, 2u32, 1u32), (8, 3, 2, 1), (5, 5, 1, 0), (9, 1, 3, 0), (4, 2, 7, 3)]
    {
        let params = ConvParams {
            in_channels: 1,
            out_channels: 1,
            kernel_size,
            stride,
            padding,
            width: side,
            height: side,
            use_relu: 0,
        };
        let n = ConvLayer::new(Layer::EncConv1, params, &[], &[]).out_width;
        assert!((n - 1) * stride + kernel_size <= side + 2 * padding);
        assert!(n * stride + kernel_size > side + 2 * padding);
    }
}

#[test]
fn uses_of_parameters_and_weights() {
    for l in LAYERS {
        assert_eq!(Resource::LayerParams(l).usage(), Usage::Uniform);
        assert_eq!(Resource::Weights(l).usage(), Usage::Storage);
        assert_eq!(Resource::Bias(l).usage(), Usage::Storage);
    }
    assert_eq!(Resource::FrameParams.usage(), Usage::Uniform);
    assert_eq!(Resource::ManipParams.usage(), Usage::Uniform);
    assert_eq!(Resource::UpsampleParams.usage(), Usage::Uniform);
    assert_eq!(Resource::Plane(Plane::RgbaOut).usage(), Usage::StorageSource);
    assert_eq!(Resource::Plane(Plane::Staging(0)).usage(), Usage::Staging);
}
