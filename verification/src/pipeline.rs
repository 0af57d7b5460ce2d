//! The pipeline runner: one envelope of checks shared by every operation,
//! followed by the operation's own body.
//!
//! The caller probes the filesystem and hands the findings in as plain
//! values; the runner owns every decision, in a fixed order, so that the
//! earliest applicable failure is the one surfaced. `spec_run_matches` is
//! the whole contract: which error a run returns, and what its successful
//! payload is, over the named decode, transform and encode results.

use vstd::prelude::*;
use crate::errors::PipelineError;
use crate::imaging::{color_of, decode_image, encode_image, spec_color_of, spec_decode, spec_encode};
use crate::ops::{apply_operation, Operation};
use crate::pathname::{
    extension_of, file_name_of, format_from_path, spec_extension, spec_file_name,
    spec_format_from_path,
};
use crate::report::{
    details_report, dimensions_report, spec_details_report, spec_dimensions_report,
};

verus! {

/// What the shell observed of the filesystem before the run: whether the
/// input path exists and is a regular file, whether the output path is
/// taken, and the input's bytes where reading them succeeded.
pub struct Probes {
    pub input_exists: bool,
    pub input_is_file: bool,
    pub output_exists: bool,
    pub input: Option<Vec<u8>>,
}

/// What a successful run hands back to the shell: a report to print, or
/// encoded bytes to write to the output path.
pub enum Outcome {
    Report(String),
    Encoded(Vec<u8>),
}

/// The envelope-relevant description of a command: whether its arguments
/// are within bounds, whether it writes an output file and under which path
/// and overwrite policy, whether it resolves the input path's format, and
/// which operation body it runs, if the library runs one.
pub ghost struct EnvelopeArgs {
    pub wf: bool,
    pub writes_output: bool,
    pub checks_input_format: bool,
    pub input_path: Seq<char>,
    pub output_path: Seq<char>,
    pub overwrite: bool,
    pub op: Option<Operation>,
}

/// The envelope description of a transform operation writing `output_path`.
pub open spec fn transform_args(op: Operation, output_path: Seq<char>, overwrite: bool) -> EnvelopeArgs {
    EnvelopeArgs {
        wf: op.wf(),
        writes_output: true,
        checks_input_format: false,
        input_path: Seq::empty(),
        output_path,
        overwrite,
        op: Some(op),
    }
}

/// The envelope description of a transform whose body the shell runs
/// itself, outside the library.
pub open spec fn shell_transform_args(wf: bool, output_path: Seq<char>, overwrite: bool) -> EnvelopeArgs {
    EnvelopeArgs {
        wf,
        writes_output: true,
        checks_input_format: false,
        input_path: Seq::empty(),
        output_path,
        overwrite,
        op: None,
    }
}

/// The envelope description of an inspection of `input_path`.
pub open spec fn inspect_args(checks_input_format: bool, input_path: Seq<char>) -> EnvelopeArgs {
    EnvelopeArgs {
        wf: true,
        writes_output: false,
        checks_input_format,
        input_path,
        output_path: Seq::empty(),
        overwrite: false,
        op: None,
    }
}

/// The first envelope check that fails, if any: argument bounds, then input
/// existence, then input being a file, then the output non-clobber rule,
/// then output format resolution, then the input having been readable.
pub open spec fn spec_command_verdict(a: EnvelopeArgs, p: Probes) -> Option<PipelineError> {
    if !a.wf {
        Some(PipelineError::ArgumentInvalid)
    } else if !p.input_exists {
        Some(PipelineError::InputMissing)
    } else if !p.input_is_file {
        Some(PipelineError::InputNotFile)
    } else if a.writes_output && p.output_exists && !a.overwrite {
        Some(PipelineError::OutputExists)
    } else if a.writes_output && spec_format_from_path(a.output_path) is None {
        Some(PipelineError::OutputFormatUnknown)
    } else if p.input is None {
        Some(PipelineError::ReadFailed)
    } else {
        None
    }
}

/// What a transform run returns once the envelope has passed: decoding the
/// input bytes decides DecodeFailed, encoding the operation's named raster
/// under the output extension decides EncodeFailed, and a success carries
/// exactly those encoded bytes.
pub open spec fn spec_transform_result(
    a: EnvelopeArgs,
    bytes: Seq<u8>,
    r: Result<Outcome, PipelineError>,
) -> bool {
    match (a.op, spec_extension(a.output_path)) {
        (Some(op), Some(ext)) => match spec_decode(bytes) {
            None => r == Err::<Outcome, PipelineError>(PipelineError::DecodeFailed),
            Some(img) => match spec_encode(op.spec_apply(img), ext) {
                None => r == Err::<Outcome, PipelineError>(PipelineError::EncodeFailed),
                Some(v) => r matches Ok(o) && o matches Outcome::Encoded(b) && b@ == v,
            },
        },
        _ => true,
    }
}

/// What the details inspection returns once the envelope has passed: an
/// unrecognised input extension decides OutputFormatUnknown before any
/// decode, decoding decides DecodeFailed, and a success carries exactly the
/// details report of the file name, the format, the byte count and the
/// decoded raster's dimensions and color model.
pub open spec fn spec_details_result(
    input_path: Seq<char>,
    bytes: Seq<u8>,
    r: Result<Outcome, PipelineError>,
) -> bool {
    match spec_format_from_path(input_path) {
        None => r == Err::<Outcome, PipelineError>(PipelineError::OutputFormatUnknown),
        Some(format) => match spec_decode(bytes) {
            None => r == Err::<Outcome, PipelineError>(PipelineError::DecodeFailed),
            Some(img) => match spec_file_name(input_path) {
                None => true,
                Some(name) => r matches Ok(o) && o matches Outcome::Report(t) && t@
                    == spec_details_report(
                    name,
                    format,
                    bytes.len(),
                    img.spec_width() as nat,
                    img.spec_height() as nat,
                    spec_color_of(img),
                ),
            },
        },
    }
}

/// What the dimensions inspection returns once the envelope has passed:
/// decoding decides DecodeFailed, and a success carries exactly the one-line
/// report of the decoded raster's dimensions.
pub open spec fn spec_dimensions_result(bytes: Seq<u8>, r: Result<Outcome, PipelineError>) -> bool {
    match spec_decode(bytes) {
        None => r == Err::<Outcome, PipelineError>(PipelineError::DecodeFailed),
        Some(img) => r matches Ok(o) && o matches Outcome::Report(t) && t@
            == spec_dimensions_report(img.spec_width() as nat, img.spec_height() as nat),
    }
}

/// The whole behaviour of a run: the earliest failing envelope check decides
/// the error, and past the envelope the result is the command's payload over
/// the named decode, transform and encode results.
pub open spec fn spec_run_matches(
    a: EnvelopeArgs,
    p: Probes,
    r: Result<Outcome, PipelineError>,
) -> bool {
    match spec_command_verdict(a, p) {
        Some(k) => r == Err::<Outcome, PipelineError>(k),
        None => match p.input {
            None => true,
            Some(bytes) => if a.writes_output {
                spec_transform_result(a, bytes@, r)
            } else if a.checks_input_format {
                spec_details_result(a.input_path, bytes@, r)
            } else {
                spec_dimensions_result(bytes@, r)
            },
        },
    }
}

/// The envelope surfaces the earliest applicable failure, and each kind
/// fires exactly when every check before it passes and its own fails.
pub proof fn lemma_envelope_order(a: EnvelopeArgs, p: Probes)
    ensures
        (spec_command_verdict(a, p) == Some(PipelineError::ArgumentInvalid)) <==> !a.wf,
        (spec_command_verdict(a, p) == Some(PipelineError::InputMissing)) <==> a.wf
            && !p.input_exists,
        (spec_command_verdict(a, p) == Some(PipelineError::InputNotFile)) <==> a.wf
            && p.input_exists && !p.input_is_file,
        (spec_command_verdict(a, p) == Some(PipelineError::OutputExists)) <==> a.wf
            && p.input_exists && p.input_is_file && a.writes_output && p.output_exists
            && !a.overwrite,
        (spec_command_verdict(a, p) == Some(PipelineError::OutputFormatUnknown)) <==> a.wf
            && p.input_exists && p.input_is_file && (a.writes_output ==> !(p.output_exists
            && !a.overwrite)) && a.writes_output && spec_format_from_path(a.output_path) is None,
        (spec_command_verdict(a, p) == Some(PipelineError::ReadFailed)) <==> a.wf
            && p.input_exists && p.input_is_file && (a.writes_output ==> !(p.output_exists
            && !a.overwrite) && spec_format_from_path(a.output_path) is Some) && p.input is None,
        (spec_command_verdict(a, p) is None) <==> a.wf && p.input_exists && p.input_is_file && (
        a.writes_output ==> !(p.output_exists && !a.overwrite) && spec_format_from_path(
            a.output_path,
        ) is Some) && p.input is Some,
{
}

/// With overwriting off, an existing output file fails the envelope, so a
/// run yields no bytes and the shell leaves the existing file untouched.
pub proof fn lemma_no_clobber(a: EnvelopeArgs, p: Probes)
    requires
        a.writes_output,
        p.output_exists,
        !a.overwrite,
    ensures
        spec_command_verdict(a, p) is Some,
{
}

/// Decide the envelope verdict for a transform, over plain probe values:
/// the earliest failing check, if any. The shell also calls this for the
/// operations whose bodies it runs itself, so their decision order cannot
/// drift from the library's.
pub fn transform_verdict(args_wf: bool, output_path: &str, overwrite: bool, probes: &Probes) -> (r:
    Option<PipelineError>)
    ensures
        r == spec_command_verdict(shell_transform_args(args_wf, output_path@, overwrite), *probes),
{
    if !args_wf {
        return Some(PipelineError::ArgumentInvalid);
    }
    if !probes.input_exists {
        return Some(PipelineError::InputMissing);
    }
    if !probes.input_is_file {
        return Some(PipelineError::InputNotFile);
    }
    if probes.output_exists && !overwrite {
        return Some(PipelineError::OutputExists);
    }
    if let None = format_from_path(output_path) {
        return Some(PipelineError::OutputFormatUnknown);
    }
    match &probes.input {
        Some(_) => None,
        None => Some(PipelineError::ReadFailed),
    }
}

/// Run one transform operation inside the shared envelope: validate, check
/// the probed paths, resolve the output format, decode, apply, encode.
pub fn run_transform(output_path: &str, overwrite: bool, op: &Operation, probes: &Probes) -> (r:
    Result<Outcome, PipelineError>)
    ensures
        spec_run_matches(transform_args(*op, output_path@, overwrite), *probes, r),
{
    if let Some(k) = transform_verdict(op.is_wf(), output_path, overwrite, probes) {
        return Err(k);
    }
    let ext = match extension_of(output_path) {
        Some(e) => e,
        None => {
            return Err(PipelineError::OutputFormatUnknown);
        },
    };
    let bytes = match &probes.input {
        Some(b) => b,
        None => {
            return Err(PipelineError::ReadFailed);
        },
    };
    let img = match decode_image(bytes) {
        Ok(i) => i,
        Err(_) => {
            return Err(PipelineError::DecodeFailed);
        },
    };
    let out = apply_operation(img, op);
    match encode_image(&out, ext.as_str()) {
        Ok(v) => Ok(Outcome::Encoded(v)),
        Err(_) => Err(PipelineError::EncodeFailed),
    }
}

/// Run the details inspection: check the probed input, resolve its format
/// from its extension, decode, and render the report.
pub fn run_details(input_path: &str, probes: &Probes) -> (r: Result<Outcome, PipelineError>)
    ensures
        spec_run_matches(inspect_args(true, input_path@), *probes, r),
{
    if !probes.input_exists {
        return Err(PipelineError::InputMissing);
    }
    if !probes.input_is_file {
        return Err(PipelineError::InputNotFile);
    }
    let bytes = match &probes.input {
        Some(b) => b,
        None => {
            return Err(PipelineError::ReadFailed);
        },
    };
    let format = match format_from_path(input_path) {
        Some(f) => f,
        None => {
            return Err(PipelineError::OutputFormatUnknown);
        },
    };
    let img = match decode_image(bytes) {
        Ok(i) => i,
        Err(_) => {
            return Err(PipelineError::DecodeFailed);
        },
    };
    let name = match file_name_of(input_path) {
        Some(n) => n,
        None => {
            return Err(PipelineError::FilenameUnreadable);
        },
    };
    let color = color_of(&img);
    let size = bytes.len() as u64;
    let report = details_report(name.as_str(), format, size, img.width(), img.height(), color);
    Ok(Outcome::Report(report))
}

/// Run the dimensions inspection: check the probed input, decode, and render
/// the one-line report.
pub fn run_dimensions(probes: &Probes) -> (r: Result<Outcome, PipelineError>)
    ensures
        spec_run_matches(inspect_args(false, Seq::empty()), *probes, r),
{
    if !probes.input_exists {
        return Err(PipelineError::InputMissing);
    }
    if !probes.input_is_file {
        return Err(PipelineError::InputNotFile);
    }
    let bytes = match &probes.input {
        Some(b) => b,
        None => {
            return Err(PipelineError::ReadFailed);
        },
    };
    let img = match decode_image(bytes) {
        Ok(i) => i,
        Err(_) => {
            return Err(PipelineError::DecodeFailed);
        },
    };
    Ok(Outcome::Report(dimensions_report(img.width(), img.height())))
}

} // verus!
