use imagetool::decimal::u64_to_decimal;
use imagetool::format::ImgFormat;
use imagetool::imaging::ColorModel;
use imagetool::pathname::{extension_of, file_name_of};
use imagetool::pipeline::{run_details, run_dimensions, Outcome, Probes};
use imagetool::report::{details_report, dimensions_report};

fn rgba_png(w: u32, h: u32) -> Vec<u8> {
    let img = image::DynamicImage::ImageRgba8(image::RgbaImage::from_fn(w, h, |x, y| {
        image::Rgba([(x % 256) as u8, (y % 256) as u8, ((x + y) % 256) as u8, 255])
    }));
    let mut cur = std::io::Cursor::new(Vec::new());
    img.write_to(&mut cur, image::ImageFormat::Png).unwrap();
    cur.into_inner()
}

fn good_probes(bytes: Vec<u8>) -> Probes {
    Probes { input_exists: true, input_is_file: true, output_exists: false, input: Some(bytes) }
}

#[test]
fn details_report_is_exact() {
    let r = details_report("cat.png", ImgFormat::Png, 12345, 640, 480, ColorModel::Rgba8);
    assert_eq!(
        r,
        "cat.png\n  * Format: Png\n  * Size (bytes): 12345\n  * Dimensions: 640x480\n  * Color Type: Rgba8\n"
    );
}

#[test]
fn dimensions_report_is_exact() {
    assert_eq!(dimensions_report(640, 480), "640x480\n");
}

#[test]
fn dimensions_run_prints_one_line() {
    let p = good_probes(rgba_png(640, 480));
    match run_dimensions(&p).unwrap() {
        Outcome::Report(text) => assert_eq!(text, "640x480\n"),
        Outcome::Encoded(_) => panic!("an inspection must yield a report"),
    }
}

#[test]
fn details_run_reports_name_size_and_dims() {
    let bytes = rgba_png(640, 480);
    let size = bytes.len() as u64;
    let p = good_probes(bytes);
    match run_details("pics/cat.png", &p).unwrap() {
        Outcome::Report(text) => {
            let expected = format!(
                "cat.png\n  * Format: Png\n  * Size (bytes): {}\n  * Dimensions: 640x480\n  * Color Type: Rgba8\n",
                size
            );
            assert_eq!(text, expected);
        }
        Outcome::Encoded(_) => panic!("an inspection must yield a report"),
    }
}

#[test]
fn decimal_rendering_matches_display() {
    assert_eq!(u64_to_decimal(0), "0");
    assert_eq!(u64_to_decimal(7), "7");
    assert_eq!(u64_to_decimal(12345), "12345");
    assert_eq!(u64_to_decimal(u64::MAX), format!("{}", u64::MAX));
}

#[test]
fn file_names_follow_path_rules() {
    assert_eq!(file_name_of("a/b/cat.png"), Some(String::from("cat.png")));
    assert_eq!(file_name_of("cat.png"), Some(String::from("cat.png")));
    assert_eq!(file_name_of("a/b/"), Some(String::from("b")));
    assert_eq!(file_name_of("a/b/."), Some(String::from("b")));
    assert_eq!(file_name_of("a/.."), None);
    assert_eq!(file_name_of("/"), None);
    assert_eq!(file_name_of(""), None);
    assert_eq!(file_name_of("."), None);
    assert_eq!(file_name_of(".hidden"), Some(String::from(".hidden")));
}

#[test]
fn extensions_follow_path_rules() {
    assert_eq!(extension_of("a/cat.png"), Some(String::from("png")));
    assert_eq!(extension_of("x.tar.gz"), Some(String::from("gz")));
    assert_eq!(extension_of(".hidden"), None);
    assert_eq!(extension_of("noext"), None);
    assert_eq!(extension_of("trailing."), Some(String::from("")));
    assert_eq!(extension_of("dir.d/noext"), None);
}

#[test]
fn extension_table_matches_the_imaging_library() {
    let cases = [
        "avif", "jpg", "jpeg", "jfif", "png", "apng", "gif", "webp", "tif", "tiff", "tga", "dds",
        "bmp", "ico", "hdr", "exr", "pbm", "pam", "ppm", "pgm", "pnm", "ff", "qoi", "xyz", "",
        "PNG", "JpEg",
    ];
    for ext in cases {
        let ours = ImgFormat::from_extension(ext).map(|f| String::from(f.name()));
        let theirs = image::ImageFormat::from_extension(ext).map(|f| format!("{:?}", f));
        assert_eq!(ours, theirs, "extension {:?}", ext);
    }
}

#[test]
fn format_names_are_debug_style() {
    assert_eq!(ImgFormat::Png.name(), "Png");
    assert_eq!(ImgFormat::WebP.name(), "WebP");
    assert_eq!(ImgFormat::OpenExr.name(), "OpenExr");
    assert_eq!(ColorModel::Rgba8.name(), "Rgba8");
    assert_eq!(ColorModel::L16.name(), "L16");
}

#[test]
fn details_of_unrecognized_input_extension_fails() {
    let p = good_probes(rgba_png(4, 4));
    let r = run_details("cat.weird", &p);
    assert_eq!(r.err(), Some(imagetool::errors::PipelineError::OutputFormatUnknown));
}

#[test]
fn details_without_file_name_fails_at_format_resolution() {
    let p = good_probes(rgba_png(4, 4));
    let r = run_details("pics/..", &p);
    assert_eq!(r.err(), Some(imagetool::errors::PipelineError::OutputFormatUnknown));
}
