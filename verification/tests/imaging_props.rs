use imagetool::ops::{FlipDirection, Operation, ValueEnumFilterType};
use imagetool::pipeline::{run_transform, Outcome, Probes};

fn rgba_png(w: u32, h: u32) -> Vec<u8> {
    let img = image::DynamicImage::ImageRgba8(image::RgbaImage::from_fn(w, h, |x, y| {
        image::Rgba([(x % 256) as u8, (y % 256) as u8, ((x + y) % 256) as u8, 255])
    }));
    let mut cur = std::io::Cursor::new(Vec::new());
    img.write_to(&mut cur, image::ImageFormat::Png).unwrap();
    cur.into_inner()
}

fn gray_png(w: u32, h: u32) -> Vec<u8> {
    let img = image::DynamicImage::ImageLuma8(image::GrayImage::from_fn(w, h, |x, y| {
        image::Luma([((x * 7 + y * 13) % 256) as u8])
    }));
    let mut cur = std::io::Cursor::new(Vec::new());
    img.write_to(&mut cur, image::ImageFormat::Png).unwrap();
    cur.into_inner()
}

fn good_probes(bytes: Vec<u8>) -> Probes {
    Probes { input_exists: true, input_is_file: true, output_exists: false, input: Some(bytes) }
}

fn transform(bytes: Vec<u8>, op: &Operation, out: &str) -> Vec<u8> {
    match run_transform(out, false, op, &good_probes(bytes)).unwrap() {
        Outcome::Encoded(b) => b,
        Outcome::Report(_) => panic!("a transform must yield bytes"),
    }
}

#[test]
fn invert_twice_restores_the_buffer() {
    let original = rgba_png(40, 30);
    let once = transform(original.clone(), &Operation::Invert, "out.png");
    let twice = transform(once.clone(), &Operation::Invert, "out.png");
    let a = image::load_from_memory(&original).unwrap().to_rgba8();
    let b = image::load_from_memory(&once).unwrap().to_rgba8();
    let c = image::load_from_memory(&twice).unwrap().to_rgba8();
    assert_ne!(a.as_raw(), b.as_raw());
    assert_eq!(a.as_raw(), c.as_raw());
}

#[test]
fn flip_twice_on_a_grayscale_source_restores_its_grayscale() {
    let original = gray_png(33, 21);
    let op = Operation::Flip { direction: FlipDirection::Horizontal };
    let once = transform(original.clone(), &op, "out.png");
    let twice = transform(once.clone(), &op, "out.png");
    let reference = image::load_from_memory(&original).unwrap().grayscale().to_luma8();
    let flipped = image::load_from_memory(&once).unwrap().to_luma8();
    let back = image::load_from_memory(&twice).unwrap().to_luma8();
    assert_ne!(reference.as_raw(), flipped.as_raw());
    assert_eq!(reference.as_raw(), back.as_raw());
}

#[test]
fn four_quarter_turns_restore_the_buffer() {
    let original = rgba_png(40, 30);
    let op = Operation::Rotate { amount: imagetool::ops::RotationAmountDegrees::Nintey };
    let mut bytes = original.clone();
    for _ in 0..4 {
        bytes = transform(bytes, &op, "out.png");
    }
    let a = image::load_from_memory(&original).unwrap().to_rgba8();
    let b = image::load_from_memory(&bytes).unwrap().to_rgba8();
    assert_eq!(a.as_raw(), b.as_raw());
}

#[test]
fn resize_to_jpeg_has_requested_dims_and_format() {
    let original = rgba_png(640, 480);
    let op = Operation::Resize {
        width: 100,
        height: 200,
        filter_type: ValueEnumFilterType::Lanczos3,
        keep_aspect_ratio: false,
    };
    let bytes = transform(original, &op, "out.jpg");
    assert_eq!(image::guess_format(&bytes).unwrap(), image::ImageFormat::Jpeg);
    let out = image::load_from_memory(&bytes).unwrap();
    assert_eq!(out.width(), 100);
    assert_eq!(out.height(), 200);
}

#[test]
fn resize_keeping_aspect_fits_the_bounds() {
    let original = rgba_png(640, 480);
    let op = Operation::Resize {
        width: 100,
        height: 200,
        filter_type: ValueEnumFilterType::Nearest,
        keep_aspect_ratio: true,
    };
    let bytes = transform(original, &op, "out.png");
    let out = image::load_from_memory(&bytes).unwrap();
    assert_eq!(out.width(), 100);
    assert_eq!(out.height(), 75);
}

#[test]
fn brighten_by_a_negative_amount_darkens() {
    let original = rgba_png(64, 64);
    let op = Operation::Brighten { amount: -50 };
    let bytes = transform(original.clone(), &op, "out.png");
    let mean = |raw: &[u8]| -> f64 {
        raw.iter().map(|&v| v as u64).sum::<u64>() as f64 / raw.len() as f64
    };
    let a = image::load_from_memory(&original).unwrap().to_luma8();
    let b = image::load_from_memory(&bytes).unwrap().to_luma8();
    assert!(mean(b.as_raw()) < mean(a.as_raw()));
}

#[test]
fn crop_clamps_to_the_image() {
    let original = rgba_png(64, 48);
    let op = Operation::Crop { x: 60, y: 0, width: 10, height: 10 };
    let bytes = transform(original, &op, "out.png");
    let out = image::load_from_memory(&bytes).unwrap();
    assert_eq!(out.width(), 4);
    assert_eq!(out.height(), 10);
}

#[test]
fn crop_takes_the_requested_rectangle() {
    let original = rgba_png(64, 48);
    let op = Operation::Crop { x: 0, y: 0, width: 10, height: 10 };
    let bytes = transform(original, &op, "out.png");
    let out = image::load_from_memory(&bytes).unwrap();
    assert_eq!(out.width(), 10);
    assert_eq!(out.height(), 10);
}

#[test]
fn grayscale_converts_the_color_model() {
    let original = rgba_png(16, 16);
    let bytes = transform(original, &Operation::Grayscale, "out.png");
    let out = image::load_from_memory(&bytes).unwrap();
    assert_eq!(out.color(), image::ColorType::La8);
}

#[test]
fn reformat_changes_only_the_container() {
    let original = rgba_png(16, 16);
    let bytes = transform(original.clone(), &Operation::Reformat, "out.bmp");
    assert_eq!(image::guess_format(&bytes).unwrap(), image::ImageFormat::Bmp);
    let a = image::load_from_memory(&original).unwrap().to_rgba8();
    let b = image::load_from_memory(&bytes).unwrap().to_rgba8();
    assert_eq!(a.as_raw(), b.as_raw());
}

#[test]
fn brighten_leaves_float_channel_rasters_unchanged() {
    let img = image::DynamicImage::ImageRgb32F(image::Rgb32FImage::from_pixel(
        8,
        8,
        image::Rgb([0.25f32, 0.5, 0.75]),
    ));
    let mut cur = std::io::Cursor::new(Vec::new());
    img.write_to(&mut cur, image::ImageFormat::OpenExr).unwrap();
    let original = cur.into_inner();
    let out = transform(original.clone(), &Operation::Brighten { amount: 100 }, "out.exr");
    let a = image::load_from_memory(&original).unwrap().to_rgba32f();
    let b = image::load_from_memory(&out).unwrap().to_rgba32f();
    assert_eq!(a.as_raw(), b.as_raw());
}

#[test]
fn hue_rotation_changes_pixels() {
    let original = rgba_png(16, 16);
    let bytes = transform(original.clone(), &Operation::Hue { shift: 180 }, "out.png");
    let a = image::load_from_memory(&original).unwrap().to_rgba8();
    let b = image::load_from_memory(&bytes).unwrap().to_rgba8();
    assert_ne!(a.as_raw(), b.as_raw());
    assert_eq!(b.width(), 16);
    assert_eq!(b.height(), 16);
}
