use imagetool::commands::{
    Commands, DetailsCommand, ExecutableCommand, ModifyCommandBase, ModifySubcommand,
    ProcessCommandRoot, RotateCommand,
};
use imagetool::errors::PipelineError;
use imagetool::ops::{Operation, RotationAmountDegrees};
use imagetool::pipeline::{run_dimensions, run_transform, Outcome, Probes};

fn rgba_png(w: u32, h: u32) -> Vec<u8> {
    let img = image::DynamicImage::ImageRgba8(image::RgbaImage::from_fn(w, h, |x, y| {
        image::Rgba([(x % 256) as u8, (y % 256) as u8, ((x + y) % 256) as u8, 255])
    }));
    let mut cur = std::io::Cursor::new(Vec::new());
    img.write_to(&mut cur, image::ImageFormat::Png).unwrap();
    cur.into_inner()
}

fn good_probes(bytes: Vec<u8>) -> Probes {
    Probes { input_exists: true, input_is_file: true, output_exists: false, input: Some(bytes) }
}

#[test]
fn missing_input_is_first() {
    let p = Probes { input_exists: false, input_is_file: false, output_exists: true, input: None };
    let r = run_transform("out.png", false, &Operation::Invert, &p);
    assert_eq!(r.err(), Some(PipelineError::InputMissing));
}

#[test]
fn non_file_input_is_second() {
    let p = Probes { input_exists: true, input_is_file: false, output_exists: true, input: None };
    let r = run_transform("out.png", false, &Operation::Invert, &p);
    assert_eq!(r.err(), Some(PipelineError::InputNotFile));
}

#[test]
fn existing_output_without_overwrite_is_refused() {
    let p = Probes {
        input_exists: true,
        input_is_file: true,
        output_exists: true,
        input: Some(rgba_png(8, 8)),
    };
    let op = Operation::Crop { x: 0, y: 0, width: 10, height: 10 };
    let r = run_transform("out.png", false, &op, &p);
    assert_eq!(r.err(), Some(PipelineError::OutputExists));
    let msg = PipelineError::OutputExists.message();
    assert!(msg.contains("Output file already exists"));
}

#[test]
fn existing_output_with_overwrite_runs() {
    let p = Probes {
        input_exists: true,
        input_is_file: true,
        output_exists: true,
        input: Some(rgba_png(8, 8)),
    };
    let r = run_transform("out.png", true, &Operation::Invert, &p);
    assert!(r.is_ok());
}

#[test]
fn unknown_output_extension_is_refused_before_reading() {
    let p = Probes { input_exists: true, input_is_file: true, output_exists: false, input: None };
    let r = run_transform("out.xyz", false, &Operation::Invert, &p);
    assert_eq!(r.err(), Some(PipelineError::OutputFormatUnknown));
}

#[test]
fn unreadable_input_is_read_failed() {
    let p = Probes { input_exists: true, input_is_file: true, output_exists: false, input: None };
    let r = run_transform("out.png", false, &Operation::Invert, &p);
    assert_eq!(r.err(), Some(PipelineError::ReadFailed));
}

#[test]
fn garbage_bytes_are_decode_failed() {
    let p = good_probes(vec![0u8, 1, 2, 3, 4, 5, 6, 7]);
    let r = run_transform("out.png", false, &Operation::Invert, &p);
    assert_eq!(r.err(), Some(PipelineError::DecodeFailed));
}

#[test]
fn format_without_an_encoder_is_encode_failed() {
    let p = good_probes(rgba_png(8, 8));
    let r = run_transform("out.dds", false, &Operation::Invert, &p);
    assert_eq!(r.err(), Some(PipelineError::EncodeFailed));
}

#[test]
fn brighten_amount_beyond_machine_limit_is_invalid() {
    let p = good_probes(rgba_png(4, 4));
    let r = run_transform("out.png", false, &Operation::Brighten { amount: i32::MAX }, &p);
    assert_eq!(r.err(), Some(PipelineError::ArgumentInvalid));
}

#[test]
fn hue_shift_zero_fails_before_everything() {
    let p = Probes { input_exists: false, input_is_file: false, output_exists: false, input: None };
    let r = run_transform("out.png", false, &Operation::Hue { shift: 0 }, &p);
    assert_eq!(r.err(), Some(PipelineError::ArgumentInvalid));
}

#[test]
fn hue_shift_360_fails() {
    let p = good_probes(rgba_png(4, 4));
    let r = run_transform("out.png", false, &Operation::Hue { shift: 360 }, &p);
    assert_eq!(r.err(), Some(PipelineError::ArgumentInvalid));
}

#[test]
fn hue_shift_in_bounds_runs() {
    let p = good_probes(rgba_png(4, 4));
    let r = run_transform("out.png", false, &Operation::Hue { shift: 359 }, &p);
    assert!(r.is_ok());
}

#[test]
fn rotation_only_accepts_quarter_turns() {
    assert_eq!(RotationAmountDegrees::from_degrees(90), Some(RotationAmountDegrees::Nintey));
    assert_eq!(RotationAmountDegrees::from_degrees(180), Some(RotationAmountDegrees::OneEighty));
    assert_eq!(RotationAmountDegrees::from_degrees(270), Some(RotationAmountDegrees::TwoSeventy));
    assert_eq!(RotationAmountDegrees::from_degrees(45), None);
    assert_eq!(RotationAmountDegrees::from_degrees(0), None);
}

#[test]
fn crop_with_zero_extent_is_invalid() {
    let p = good_probes(rgba_png(4, 4));
    let op = Operation::Crop { x: 0, y: 0, width: 0, height: 4 };
    let r = run_transform("out.png", false, &op, &p);
    assert_eq!(r.err(), Some(PipelineError::ArgumentInvalid));
}

#[test]
fn resize_with_zero_extent_is_invalid() {
    let p = good_probes(rgba_png(4, 4));
    let op = Operation::Resize {
        width: 10,
        height: 0,
        filter_type: imagetool::ops::ValueEnumFilterType::Nearest,
        keep_aspect_ratio: false,
    };
    let r = run_transform("out.png", false, &op, &p);
    assert_eq!(r.err(), Some(PipelineError::ArgumentInvalid));
}

#[test]
fn rotate_through_command_tree_swaps_dimensions() {
    let root = ProcessCommandRoot {
        cmd: Commands::Modify(ModifyCommandBase {
            subcommand: ModifySubcommand::Rotate(RotateCommand {
                input_path: String::from("cat.png"),
                output_path: String::from("out.png"),
                amount: RotationAmountDegrees::Nintey,
                overwrite: false,
            }),
        }),
    };
    let p = good_probes(rgba_png(640, 480));
    let r = root.run(&p).unwrap();
    match r {
        Outcome::Encoded(bytes) => {
            let out = image::load_from_memory(&bytes).unwrap();
            assert_eq!(out.width(), 480);
            assert_eq!(out.height(), 640);
        }
        Outcome::Report(_) => panic!("a transform must yield bytes"),
    }
}

#[test]
fn details_through_command_tree_reports() {
    let root = ProcessCommandRoot {
        cmd: Commands::Details(DetailsCommand { input_path: String::from("cat.png") }),
    };
    let p = good_probes(rgba_png(16, 16));
    let r = root.run(&p).unwrap();
    match r {
        Outcome::Report(text) => assert!(text.contains("Dimensions: 16x16")),
        Outcome::Encoded(_) => panic!("an inspection must yield a report"),
    }
}

#[test]
fn dimensions_of_missing_input() {
    let p = Probes { input_exists: false, input_is_file: false, output_exists: false, input: None };
    let r = run_dimensions(&p);
    assert_eq!(r.err(), Some(PipelineError::InputMissing));
}

#[test]
fn error_messages_are_fixed() {
    assert_eq!(
        PipelineError::InputMissing.message(),
        "Unable to find file at the given input path"
    );
    assert_eq!(PipelineError::InputNotFile.message(), "Input path did not lead to a file.");
    assert_eq!(
        PipelineError::OutputExists.message(),
        "Output file already exists. Use --overwrite to replace it"
    );
    assert_eq!(
        PipelineError::OutputFormatUnknown.message(),
        "error occured whilst parsing image extension to determine filetype"
    );
    assert_eq!(PipelineError::ReadFailed.message(), "error occured whilst reading image");
    assert_eq!(PipelineError::DecodeFailed.message(), "error occured whilst decoding image");
    assert_eq!(PipelineError::EncodeFailed.message(), "error occured whilst saving image to disk");
    assert_eq!(PipelineError::FilenameUnreadable.message(), "failed to obtain filename");
}
