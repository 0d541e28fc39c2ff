use mamp::arith::{div_ceil, log2, next_pow2};
use mamp::scale::scale_length;
use mamp::session::processing_size;
use mamp::text::{append_decimal, fft_shader_source, resolution_label};
use mamp::words::{pack_words, upload_bytes};

#[test]
fn divides_and_rounds_up() {
    assert_eq!(div_ceil(0, 16), 0);
    assert_eq!(div_ceil(1, 16), 1);
    assert_eq!(div_ceil(16, 16), 1);
    assert_eq!(div_ceil(17, 16), 2);
    assert_eq!(div_ceil(640, 64), 10);
    assert_eq!(div_ceil(u32::MAX, 1), u32::MAX);
    assert_eq!(div_ceil(u32::MAX, 2), 0x8000_0000);
}

#[test]
fn next_power_of_two() {
    assert_eq!(next_pow2(1), 1);
    assert_eq!(next_pow2(2), 2);
    assert_eq!(next_pow2(3), 4);
    assert_eq!(next_pow2(480), 512);
    assert_eq!(next_pow2(640), 1024);
    assert_eq!(next_pow2(1024), 1024);
    assert_eq!(next_pow2(1025), 2048);
    assert_eq!(next_pow2(0x8000_0000), 0x8000_0000);
    for n in 1..5000u32 {
        let p = next_pow2(n);
        assert!(p.is_power_of_two() && p >= n && p < 2 * n);
    }
}

#[test]
fn logarithms() {
    assert_eq!(log2(1), 0);
    assert_eq!(log2(2), 1);
    assert_eq!(log2(3), 1);
    assert_eq!(log2(2048), 11);
    assert_eq!(log2(2047), 10);
    assert_eq!(log2(u32::MAX), 31);
    for k in 0..24u32 {
        assert_eq!(log2(1 << k), ((1u32 << k) as f32).log2() as u32);
    }
}

fn scaled_in_floating_point(length: u32, limit: u32, width: u32) -> u32 {
    let scale = limit as f64 / width as f64;
    (length as f64 * scale) as u32
}

#[test]
fn scaling_agrees_with_floating_point() {
    for &(length, limit, width) in &[
        (1920, 640, 1920),
        (1080, 640, 1920),
        (720, 640, 1280),
        (3, 1, 3),
        (49, 1, 49),
        (u32::MAX, u32::MAX - 1, u32::MAX),
        (u32::MAX, 1, u32::MAX),
        (u32::MAX, 1, 2),
        (0, 5, 7),
        (7, 0, 7),
    ] {
        assert_eq!(scale_length(length, limit, width), scaled_in_floating_point(length, limit, width));
    }
    let mut x: u64 = 88172645463325252;
    for _ in 0..20000 {
        x ^= x << 13;
        x ^= x >> 7;
        x ^= x << 17;
        let a = x as u32;
        let b = (x >> 32) as u32;
        let (limit, width) = if a < b { (a, b) } else { (b, a) };
        if limit == width {
            continue;
        }
        let length = (x >> 11) as u32;
        assert_eq!(scale_length(length, limit, width), scaled_in_floating_point(length, limit, width));
        assert_eq!(scale_length(width, limit, width), scaled_in_floating_point(width, limit, width));
    }
}

fn processing_in_floating_point(cam_w: u32, cam_h: u32, max_width: u32) -> (u32, u32) {
    let (mut w, mut h) = if cam_w > max_width {
        let scale = max_width as f64 / cam_w as f64;
        ((cam_w as f64 * scale) as u32, (cam_h as f64 * scale) as u32)
    } else {
        (cam_w, cam_h)
    };
    w &= !1;
    h &= !1;
    if w == 0 {
        w = 2;
    }
    if h == 0 {
        h = 2;
    }
    (w, h)
}

#[test]
fn processing_sizes_of_usual_cameras() {
    assert_eq!(processing_size(1920, 1080, 640), (640, 360));
    assert_eq!(processing_size(1280, 720, 640), (640, 360));
    assert_eq!(processing_size(640, 480, 640), (640, 480));
    assert_eq!(processing_size(641, 481, 1280), (640, 480));
    assert_eq!(processing_size(4032, 3024, 640), (640, 480));
    assert_eq!(processing_size(1080, 1920, 640), (640, 1136));
}

#[test]
fn processing_sizes_are_never_empty() {
    assert_eq!(processing_size(0, 0, 640), (2, 2));
    assert_eq!(processing_size(1, 1, 640), (2, 2));
    assert_eq!(processing_size(1920, 1, 640), (640, 2));
    assert_eq!(processing_size(1920, 1080, 0), (2, 2));
    assert_eq!(processing_size(1920, 1080, 1), (2, 2));
}

#[test]
fn processing_sizes_agree_with_floating_point() {
    for cam_w in (1..4200u32).step_by(37) {
        for &max_width in &[0u32, 1, 2, 320, 480, 640, 641, 1280, 1919] {
            let cam_h = cam_w * 9 / 16 + cam_w % 5;
            assert_eq!(
                processing_size(cam_w, cam_h, max_width),
                processing_in_floating_point(cam_w, cam_h, max_width)
            );
        }
    }
}

#[test]
fn processing_sizes_are_even_and_stable() {
    for cam_w in 1..2000u32 {
        let (w, h) = processing_size(cam_w, 1117, 640);
        assert!(w % 2 == 0 && h % 2 == 0 && w >= 2 && h >= 2 && w <= 640 && h <= 1117);
        assert_eq!(processing_size(w, h, 640), (w, h));
    }
}

#[test]
fn decimals() {
    let mut text = String::from("n=");
    append_decimal(&mut text, 0);
    text.push(' ');
    append_decimal(&mut text, 10);
    text.push(' ');
    append_decimal(&mut text, u32::MAX);
    assert_eq!(text, "n=0 10 4294967295");
    for n in (0..200000u32).step_by(97) {
        let mut text = String::new();
        append_decimal(&mut text, n);
        assert_eq!(text, format!("{}", n));
    }
}

#[test]
fn resolution_labels() {
    assert_eq!(resolution_label(640, 360, 1920, 1080), "640x360 cam 1920x1080");
    assert_eq!(resolution_label(2, 2, 0, 0), "2x2 cam 0x0");
}

#[test]
fn transform_shader_gets_its_size() {
    let template = "var<workgroup> a: array<f32, /*SHARED_SIZE*/>;\nvar<workgroup> b: array<f32, /*SHARED_SIZE*/>;";
    assert_eq!(
        fft_shader_source(template, 2048),
        "var<workgroup> a: array<f32, 2048>;\nvar<workgroup> b: array<f32, 2048>;"
    );
    assert_eq!(fft_shader_source("no marker", 512), "no marker");
    assert_eq!(fft_shader_source("", 512), "");
    assert_eq!(fft_shader_source("/*SHARED_SIZE*/*SHARED_SIZE*/", 7), "7*SHARED_SIZE*/");
}

#[test]
fn words_are_little_endian() {
    assert_eq!(pack_words(&[1, 2, 3, 4, 5, 6, 7, 8]), vec![0x0403_0201, 0x0807_0605]);
    assert_eq!(pack_words(&[0xff, 0, 0, 0x80]), vec![0x8000_00ff]);
    assert_eq!(pack_words(&[1, 2, 3]), Vec::<u32>::new());
    assert_eq!(pack_words(&[1, 2, 3, 4, 5]), vec![0x0403_0201]);
    assert_eq!(pack_words(&[]), Vec::<u32>::new());
}

#[test]
fn uploads_have_the_byte_order_of_the_machine() {
    let words = [0x0403_0201u32, 0xdead_beef];
    let bytes = upload_bytes(&words);
    assert_eq!(bytes.len(), 8);
    assert_eq!(&bytes[..4], &0x0403_0201u32.to_ne_bytes());
    assert_eq!(&bytes[4..], &0xdead_beefu32.to_ne_bytes());
    assert!(upload_bytes(&[]).is_empty());
}

#[test]
fn pixels_survive_packing_and_upload() {
    let pixels: Vec<u8> = (0..64u32).map(|i| (i * 37) as u8).collect();
    let words = pack_words(&pixels);
    let back: Vec<u8> = words.iter().flat_map(|w| w.to_le_bytes()).collect();
    assert_eq!(back, pixels);
    if little_endian() {
        assert_eq!(upload_bytes(&words), &pixels[..]);
    }
}

fn little_endian() -> bool {
    1u32.to_ne_bytes()[0] == 1
}
