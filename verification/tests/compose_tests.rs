use kbd_overlay::{build_frame, Opacity};

/// Encode raw RGBA bytes as a PNG in memory.
fn png_bytes(width: u32, height: u32, raw: Vec<u8>) -> Vec<u8> {
    let img = image::RgbaImage::from_raw(width, height, raw).unwrap();
    let mut bytes: Vec<u8> = Vec::new();
    img.write_to(
        &mut std::io::Cursor::new(&mut bytes),
        image::ImageOutputFormat::Png,
    )
    .unwrap();
    bytes
}

fn sample_raw() -> Vec<u8> {
    // 3x2 image, six distinct pixels
    vec![
        10, 20, 30, 255, 40, 50, 60, 200, 70, 80, 90, 128, //
        100, 110, 120, 64, 130, 140, 150, 32, 160, 170, 180, 0,
    ]
}

#[test]
fn identity_build_round_trips_source_pixels() {
    let png = png_bytes(3, 2, sample_raw());
    let (frame, used) =
        build_frame(&vec![png], 3, 2, false, Opacity::opaque()).unwrap();
    assert_eq!(used, 0);
    assert_eq!(frame.width, 3);
    assert_eq!(frame.height, 2);
    let raw = sample_raw();
    assert_eq!(frame.pixels.len(), 6);
    for i in 0..6 {
        let (r, g, b, a) = (
            raw[4 * i] as u32,
            raw[4 * i + 1] as u32,
            raw[4 * i + 2] as u32,
            raw[4 * i + 3] as u32,
        );
        assert_eq!(frame.pixels[i], (a << 24) | (r << 16) | (g << 8) | b);
    }
}

#[test]
fn building_twice_gives_byte_identical_frames() {
    let png = png_bytes(3, 2, sample_raw());
    let candidates = vec![png];
    let op = Opacity::new(5033165, 16777216);
    let (f1, u1) = build_frame(&candidates, 8, 4, true, op).unwrap();
    let (f2, u2) = build_frame(&candidates, 8, 4, true, op).unwrap();
    assert_eq!(u1, u2);
    assert_eq!(f1.width, f2.width);
    assert_eq!(f1.height, f2.height);
    assert_eq!(f1.pixels, f2.pixels);
}

#[test]
fn inverting_twice_restores_the_colour_channels() {
    let raw = sample_raw();
    let mut inverted = raw.clone();
    for px in inverted.chunks_mut(4) {
        px[0] = 255 - px[0];
        px[1] = 255 - px[1];
        px[2] = 255 - px[2];
    }
    let plain = build_frame(
        &vec![png_bytes(3, 2, raw)],
        3,
        2,
        false,
        Opacity::opaque(),
    )
    .unwrap()
    .0;
    let double = build_frame(
        &vec![png_bytes(3, 2, inverted)],
        3,
        2,
        true,
        Opacity::opaque(),
    )
    .unwrap()
    .0;
    assert_eq!(plain.pixels, double.pixels);
}

#[test]
fn inversion_leaves_alpha_untouched() {
    let png = png_bytes(3, 2, sample_raw());
    let op = Opacity::new(1, 2);
    let plain = build_frame(&vec![png.clone()], 3, 2, false, op).unwrap().0;
    let flipped = build_frame(&vec![png], 3, 2, true, op).unwrap().0;
    for i in 0..6 {
        assert_eq!(plain.pixels[i] >> 24, flipped.pixels[i] >> 24);
        // colour channels complement each other
        assert_eq!((plain.pixels[i] >> 16) & 0xff, 255 - ((flipped.pixels[i] >> 16) & 0xff));
        assert_eq!((plain.pixels[i] >> 8) & 0xff, 255 - ((flipped.pixels[i] >> 8) & 0xff));
        assert_eq!(plain.pixels[i] & 0xff, 255 - (flipped.pixels[i] & 0xff));
    }
}

#[test]
fn opacity_zero_gives_a_fully_transparent_frame() {
    let png = png_bytes(3, 2, sample_raw());
    let frame = build_frame(&vec![png], 3, 2, false, Opacity::transparent())
        .unwrap()
        .0;
    let raw = sample_raw();
    for i in 0..6 {
        assert_eq!(frame.pixels[i] >> 24, 0);
        // colour channels survive
        assert_eq!((frame.pixels[i] >> 16) & 0xff, raw[4 * i] as u32);
    }
}

#[test]
fn opacity_scales_alpha_by_exact_floor() {
    // the fraction below is exactly what the binary float closest to
    // three tenths denotes
    assert_eq!(0.3f32 as f64, 5033165f64 / 16777216f64);
    let op = Opacity::new(5033165, 16777216);
    let png = png_bytes(3, 2, sample_raw());
    let frame = build_frame(&vec![png], 3, 2, false, op).unwrap().0;
    let raw = sample_raw();
    for i in 0..6 {
        let a = raw[4 * i + 3] as u64;
        let expected = (a * 5033165 / 16777216) as u32;
        assert_eq!(frame.pixels[i] >> 24, expected);
        // never more than three tenths of the source alpha
        assert!(10 * (frame.pixels[i] >> 24) as u64 <= 3 * a);
    }
}

#[test]
fn opacity_one_leaves_alpha_unchanged() {
    let png = png_bytes(3, 2, sample_raw());
    let frame = build_frame(&vec![png], 3, 2, true, Opacity::opaque()).unwrap().0;
    let raw = sample_raw();
    for i in 0..6 {
        assert_eq!(frame.pixels[i] >> 24, raw[4 * i + 3] as u32);
    }
}

#[test]
fn resampling_builds_the_target_dimensions() {
    let png = png_bytes(3, 2, sample_raw());
    let (frame, _) = build_frame(&vec![png], 9, 5, false, Opacity::opaque()).unwrap();
    assert_eq!(frame.width, 9);
    assert_eq!(frame.height, 5);
    assert_eq!(frame.pixels.len(), 45);
}

#[test]
fn fallback_candidate_is_used_when_the_first_fails_to_decode() {
    let garbage = vec![1u8, 2, 3, 4, 5];
    let png = png_bytes(3, 2, sample_raw());
    let (frame, used) = build_frame(
        &vec![garbage, png],
        3,
        2,
        false,
        Opacity::opaque(),
    )
    .unwrap();
    assert_eq!(used, 1);
    assert!(!frame.pixels.is_empty());
}

#[test]
fn no_decodable_candidate_gives_no_frame() {
    let r = build_frame(
        &vec![vec![0u8, 1, 2], vec![]],
        3,
        2,
        false,
        Opacity::opaque(),
    );
    assert!(r.is_none());
}
