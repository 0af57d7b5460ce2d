//! The error kinds an invocation can fail with, each carrying a fixed
//! human-readable message.

use vstd::prelude::*;

verus! {

/// Every way a single invocation can fail. The envelope checks surface the
/// first five kinds in a fixed order; the remaining kinds come from the body
/// of the run.
#[derive(Debug, Clone, Copy, PartialEq, Eq)]
pub enum PipelineError {
    /// An argument is outside the bounds its operation allows.
    ArgumentInvalid,
    /// The input path does not refer to any filesystem entry.
    InputMissing,
    /// The input path refers to something other than a regular file.
    InputNotFile,
    /// The output path is already taken and overwriting was not requested.
    OutputExists,
    /// The output path's extension names no known image format.
    OutputFormatUnknown,
    /// The input file could not be read.
    ReadFailed,
    /// The input bytes could not be decoded as an image.
    DecodeFailed,
    /// The transformed image could not be encoded.
    EncodeFailed,
    /// The input path has no usable final file name.
    FilenameUnreadable,
}

impl PipelineError {
    /// The fixed message attached to this kind.
    pub open spec fn spec_message(self) -> Seq<char> {
        match self {
            PipelineError::ArgumentInvalid => "invalid value for argument"@,
            PipelineError::InputMissing => "Unable to find file at the given input path"@,
            PipelineError::InputNotFile => "Input path did not lead to a file."@,
            PipelineError::OutputExists => "Output file already exists. Use --overwrite to replace it"@,
            PipelineError::OutputFormatUnknown => "error occured whilst parsing image extension to determine filetype"@,
            PipelineError::ReadFailed => "error occured whilst reading image"@,
            PipelineError::DecodeFailed => "error occured whilst decoding image"@,
            PipelineError::EncodeFailed => "error occured whilst saving image to disk"@,
            PipelineError::FilenameUnreadable => "failed to obtain filename"@,
        }
    }

    /// Render the fixed message of this kind.
    pub fn message(&self) -> (r: String)
        ensures
            r@ == self.spec_message(),
    {
        match self {
            PipelineError::ArgumentInvalid => String::from_str("invalid value for argument"),
            PipelineError::InputMissing => String::from_str("Unable to find file at the given input path"),
            PipelineError::InputNotFile => String::from_str("Input path did not lead to a file."),
            PipelineError::OutputExists => String::from_str("Output file already exists. Use --overwrite to replace it"),
            PipelineError::OutputFormatUnknown => String::from_str("error occured whilst parsing image extension to determine filetype"),
            PipelineError::ReadFailed => String::from_str("error occured whilst reading image"),
            PipelineError::DecodeFailed => String::from_str("error occured whilst decoding image"),
            PipelineError::EncodeFailed => String::from_str("error occured whilst saving image to disk"),
            PipelineError::FilenameUnreadable => String::from_str("failed to obtain filename"),
        }
    }
}

} // verus!
