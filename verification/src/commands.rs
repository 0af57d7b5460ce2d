//! The command tree: one struct per subcommand, each carrying the parsed
//! arguments, and one trait whose contract is the shared envelope.

use vstd::prelude::*;
use crate::errors::PipelineError;
use crate::ops::{FlipDirection, Operation, RotationAmountDegrees, ValueEnumFilterType};
use crate::pipeline::{
    inspect_args, run_details, run_dimensions, run_transform, spec_run_matches, transform_args,
    EnvelopeArgs, Outcome, Probes,
};

verus! {

/// A command that can be run against the probed state of the filesystem.
///
/// The contract is the behaviour every operation shares: the earliest
/// applicable envelope check decides the error, and past the envelope the
/// result is the command's payload over the named decode, transform and
/// encode results (see `spec_run_matches`).
pub trait ExecutableCommand: Sized {
    /// The envelope-relevant description of this command.
    spec fn envelope_args(self) -> EnvelopeArgs;

    /// Consume the command and run it.
    fn run(self, probes: &Probes) -> (r: Result<Outcome, PipelineError>)
        ensures
            spec_run_matches(self.envelope_args(), *probes, r),
    ;
}

/// Print detailed information about an image.
pub struct DetailsCommand {
    pub input_path: String,
}

impl ExecutableCommand for DetailsCommand {
    open spec fn envelope_args(self) -> EnvelopeArgs {
        inspect_args(true, self.input_path@)
    }

    fn run(self, probes: &Probes) -> (r: Result<Outcome, PipelineError>) {
        run_details(self.input_path.as_str(), probes)
    }
}

/// Print an image's dimensions as `WidthxHeight`.
pub struct DimensionsCommand {
    pub input_path: String,
}

impl ExecutableCommand for DimensionsCommand {
    open spec fn envelope_args(self) -> EnvelopeArgs {
        inspect_args(false, Seq::empty())
    }

    fn run(self, probes: &Probes) -> (r: Result<Outcome, PipelineError>) {
        run_dimensions(probes)
    }
}

/// Brighten the pixels of an image.
pub struct BrightenCommand {
    pub input_path: String,
    pub output_path: String,
    pub amount: i32,
    pub overwrite: bool,
}

impl ExecutableCommand for BrightenCommand {
    open spec fn envelope_args(self) -> EnvelopeArgs {
        let op = Operation::Brighten { amount: self.amount };
        transform_args(op, self.output_path@, self.overwrite)
    }

    fn run(self, probes: &Probes) -> (r: Result<Outcome, PipelineError>) {
        let op = Operation::Brighten { amount: self.amount };
        run_transform(self.output_path.as_str(), self.overwrite, &op, probes)
    }
}

/// Cut a rectangle out of an image.
pub struct CropCommand {
    pub input_path: String,
    pub output_path: String,
    pub x: u32,
    pub y: u32,
    pub width: u32,
    pub height: u32,
    pub overwrite: bool,
}

impl ExecutableCommand for CropCommand {
    open spec fn envelope_args(self) -> EnvelopeArgs {
        let op = Operation::Crop { x: self.x, y: self.y, width: self.width, height: self.height };
        transform_args(op, self.output_path@, self.overwrite)
    }

    fn run(self, probes: &Probes) -> (r: Result<Outcome, PipelineError>) {
        let op = Operation::Crop {
            x: self.x,
            y: self.y,
            width: self.width,
            height: self.height,
        };
        run_transform(self.output_path.as_str(), self.overwrite, &op, probes)
    }
}

/// Flip an image in a given direction.
pub struct FlipCommand {
    pub input_path: String,
    pub output_path: String,
    pub direction: FlipDirection,
    pub overwrite: bool,
}

impl ExecutableCommand for FlipCommand {
    open spec fn envelope_args(self) -> EnvelopeArgs {
        let op = Operation::Flip { direction: self.direction };
        transform_args(op, self.output_path@, self.overwrite)
    }

    fn run(self, probes: &Probes) -> (r: Result<Outcome, PipelineError>) {
        let op = Operation::Flip { direction: self.direction };
        run_transform(self.output_path.as_str(), self.overwrite, &op, probes)
    }
}

/// Re-encode an image in the format its output extension names.
pub struct FormatCommand {
    pub input_path: String,
    pub output_path: String,
    pub overwrite: bool,
}

impl ExecutableCommand for FormatCommand {
    open spec fn envelope_args(self) -> EnvelopeArgs {
        transform_args(Operation::Reformat, self.output_path@, self.overwrite)
    }

    fn run(self, probes: &Probes) -> (r: Result<Outcome, PipelineError>) {
        run_transform(self.output_path.as_str(), self.overwrite, &Operation::Reformat, probes)
    }
}

/// Convert an image to grayscale.
pub struct GrayscaleCommand {
    pub input_path: String,
    pub output_path: String,
    pub overwrite: bool,
}

impl ExecutableCommand for GrayscaleCommand {
    open spec fn envelope_args(self) -> EnvelopeArgs {
        transform_args(Operation::Grayscale, self.output_path@, self.overwrite)
    }

    fn run(self, probes: &Probes) -> (r: Result<Outcome, PipelineError>) {
        run_transform(self.output_path.as_str(), self.overwrite, &Operation::Grayscale, probes)
    }
}

/// Rotate an image's hues.
pub struct HueCommand {
    pub input_path: String,
    pub output_path: String,
    pub shift: i32,
    pub overwrite: bool,
}

impl ExecutableCommand for HueCommand {
    open spec fn envelope_args(self) -> EnvelopeArgs {
        let op = Operation::Hue { shift: self.shift };
        transform_args(op, self.output_path@, self.overwrite)
    }

    fn run(self, probes: &Probes) -> (r: Result<Outcome, PipelineError>) {
        let op = Operation::Hue { shift: self.shift };
        run_transform(self.output_path.as_str(), self.overwrite, &op, probes)
    }
}

/// Invert an image's colours.
pub struct InvertCommand {
    pub input_path: String,
    pub output_path: String,
    pub overwrite: bool,
}

impl ExecutableCommand for InvertCommand {
    open spec fn envelope_args(self) -> EnvelopeArgs {
        transform_args(Operation::Invert, self.output_path@, self.overwrite)
    }

    fn run(self, probes: &Probes) -> (r: Result<Outcome, PipelineError>) {
        run_transform(self.output_path.as_str(), self.overwrite, &Operation::Invert, probes)
    }
}

/// Resize an image, optionally keeping its aspect ratio.
pub struct ResizeCommand {
    pub input_path: String,
    pub output_path: String,
    pub width: u32,
    pub height: u32,
    pub filter_type: ValueEnumFilterType,
    pub keep_aspect_ratio: bool,
    pub overwrite: bool,
}

impl ExecutableCommand for ResizeCommand {
    open spec fn envelope_args(self) -> EnvelopeArgs {
        let op = Operation::Resize {
            width: self.width,
            height: self.height,
            filter_type: self.filter_type,
            keep_aspect_ratio: self.keep_aspect_ratio,
        };
        transform_args(op, self.output_path@, self.overwrite)
    }

    fn run(self, probes: &Probes) -> (r: Result<Outcome, PipelineError>) {
        let op = Operation::Resize {
            width: self.width,
            height: self.height,
            filter_type: self.filter_type,
            keep_aspect_ratio: self.keep_aspect_ratio,
        };
        run_transform(self.output_path.as_str(), self.overwrite, &op, probes)
    }
}

/// Rotate an image clockwise by a quarter-turn quantum.
pub struct RotateCommand {
    pub input_path: String,
    pub output_path: String,
    pub amount: RotationAmountDegrees,
    pub overwrite: bool,
}

impl ExecutableCommand for RotateCommand {
    open spec fn envelope_args(self) -> EnvelopeArgs {
        let op = Operation::Rotate { amount: self.amount };
        transform_args(op, self.output_path@, self.overwrite)
    }

    fn run(self, probes: &Probes) -> (r: Result<Outcome, PipelineError>) {
        let op = Operation::Rotate { amount: self.amount };
        run_transform(self.output_path.as_str(), self.overwrite, &op, probes)
    }
}

/// The subcommands under `modify`, one per transform operation. `Format`
/// and `Reformat` are aliases with the same behaviour.
pub enum ModifySubcommand {
    Brighten(BrightenCommand),
    Crop(CropCommand),
    Flip(FlipCommand),
    Format(FormatCommand),
    Grayscale(GrayscaleCommand),
    Hue(HueCommand),
    Invert(InvertCommand),
    Reformat(FormatCommand),
    Resize(ResizeCommand),
    Rotate(RotateCommand),
}

/// The collection of commands that modify images.
pub struct ModifyCommandBase {
    pub subcommand: ModifySubcommand,
}

impl ExecutableCommand for ModifyCommandBase {
    open spec fn envelope_args(self) -> EnvelopeArgs {
        match self.subcommand {
            ModifySubcommand::Brighten(c) => c.envelope_args(),
            ModifySubcommand::Crop(c) => c.envelope_args(),
            ModifySubcommand::Flip(c) => c.envelope_args(),
            ModifySubcommand::Format(c) => c.envelope_args(),
            ModifySubcommand::Grayscale(c) => c.envelope_args(),
            ModifySubcommand::Hue(c) => c.envelope_args(),
            ModifySubcommand::Invert(c) => c.envelope_args(),
            ModifySubcommand::Reformat(c) => c.envelope_args(),
            ModifySubcommand::Resize(c) => c.envelope_args(),
            ModifySubcommand::Rotate(c) => c.envelope_args(),
        }
    }

    fn run(self, probes: &Probes) -> (r: Result<Outcome, PipelineError>) {
        match self.subcommand {
            ModifySubcommand::Brighten(c) => c.run(probes),
            ModifySubcommand::Crop(c) => c.run(probes),
            ModifySubcommand::Flip(c) => c.run(probes),
            ModifySubcommand::Format(c) => c.run(probes),
            ModifySubcommand::Grayscale(c) => c.run(probes),
            ModifySubcommand::Hue(c) => c.run(probes),
            ModifySubcommand::Invert(c) => c.run(probes),
            ModifySubcommand::Reformat(c) => c.run(probes),
            ModifySubcommand::Resize(c) => c.run(probes),
            ModifySubcommand::Rotate(c) => c.run(probes),
        }
    }
}

/// The top level of the command tree.
pub enum Commands {
    Details(DetailsCommand),
    Dimensions(DimensionsCommand),
    Modify(ModifyCommandBase),
}

/// The root of a parsed invocation.
pub struct ProcessCommandRoot {
    pub cmd: Commands,
}

impl ExecutableCommand for ProcessCommandRoot {
    open spec fn envelope_args(self) -> EnvelopeArgs {
        match self.cmd {
            Commands::Details(c) => c.envelope_args(),
            Commands::Dimensions(c) => c.envelope_args(),
            Commands::Modify(c) => c.envelope_args(),
        }
    }

    fn run(self, probes: &Probes) -> (r: Result<Outcome, PipelineError>) {
        match self.cmd {
            Commands::Details(c) => c.run(probes),
            Commands::Dimensions(c) => c.run(probes),
            Commands::Modify(c) => c.run(probes),
        }
    }
}

} // verus!
