//! Planning of one processing job: which outputs it produces, in which order,
//! and under which file names.
use vstd::prelude::*;
use vstd::string::StringExecFns;
use crate::catalog::ModelType;

verus! {

/// The settings of one processing job.
pub struct ProcessingConfig {
    /// The source image.
    pub input: String,
    /// The directory that receives the outputs.
    pub output: String,
    /// Base name for the outputs; empty means the input's file stem.
    pub custom_filename: String,
    pub gen_alpha: bool,
    pub gen_gray: bool,
    pub gen_halftone: bool,
    pub gen_lineart: bool,
    pub gen_logo: bool,
    pub gen_illus: bool,
    pub gen_thumbnail: bool,
    pub selected_model: ModelType,
}

/// The files a job can produce.
#[derive(Clone, Copy, PartialEq, Eq, Debug, Structural)]
pub enum OutputKind {
    Alpha,
    Gray,
    Halftone,
    LineArt,
    Logo,
    Illustration,
    Thumbnail,
}

/// The file name suffix of each output, extension included.
pub open spec fn output_suffix(kind: OutputKind) -> Seq<char> {
    match kind {
        OutputKind::Alpha => "_alpha.png"@,
        OutputKind::Gray => "_gray.svg"@,
        OutputKind::Halftone => "_halftone.svg"@,
        OutputKind::LineArt => "_lineart.svg"@,
        OutputKind::Logo => "_logo.svg"@,
        OutputKind::Illustration => "_illustration.svg"@,
        OutputKind::Thumbnail => "_thumb.png"@,
    }
}

/// `kind` as a one-element sequence when `on`, else empty.
pub open spec fn step_if(on: bool, kind: OutputKind) -> Seq<OutputKind> {
    if on {
        seq![kind]
    } else {
        Seq::empty()
    }
}

impl ProcessingConfig {
    /// At least one vector output is requested.
    pub open spec fn any_conversion(&self) -> bool {
        self.gen_gray || self.gen_halftone || self.gen_lineart || self.gen_logo || self.gen_illus
    }

    /// The background must be removed: for the transparent PNG itself, or
    /// because every vector output is traced from the transparent image.
    pub open spec fn spec_needs_alpha(&self) -> bool {
        self.gen_alpha || self.any_conversion()
    }

    /// The outputs produced from the (possibly transparent) image, in order.
    pub open spec fn derived_outputs(&self) -> Seq<OutputKind> {
        step_if(self.gen_gray, OutputKind::Gray) + step_if(self.gen_halftone, OutputKind::Halftone)
            + step_if(self.gen_lineart, OutputKind::LineArt) + step_if(
            self.gen_logo,
            OutputKind::Logo,
        ) + step_if(self.gen_illus, OutputKind::Illustration) + step_if(
            self.gen_thumbnail,
            OutputKind::Thumbnail,
        )
    }

    /// Whether the job must run background removal.
    pub fn needs_alpha(&self) -> (r: bool)
        ensures
            r == self.spec_needs_alpha(),
    {
        self.gen_alpha || self.gen_gray || self.gen_halftone || self.gen_lineart || self.gen_logo
            || self.gen_illus
    }

    /// The base of every output file name: the custom name, or the input's
    /// file stem when no custom name is set.
    pub fn base_name(&self, file_stem: &str) -> (r: String)
        ensures
            r@ == if self.custom_filename@.len() == 0 {
                file_stem@
            } else {
                self.custom_filename@
            },
    {
        if self.custom_filename.as_str().is_empty() {
            file_stem.to_string()
        } else {
            self.custom_filename.clone()
        }
    }

    /// The outputs produced after background removal, in the order they run.
    pub fn derived_steps(&self) -> (r: Vec<OutputKind>)
        ensures
            r@ == self.derived_outputs(),
    {
        let mut steps: Vec<OutputKind> = Vec::new();
        if self.gen_gray {
            steps.push(OutputKind::Gray);
        }
        assert(steps@ =~= step_if(self.gen_gray, OutputKind::Gray));
        if self.gen_halftone {
            steps.push(OutputKind::Halftone);
        }
        assert(steps@ =~= step_if(self.gen_gray, OutputKind::Gray) + step_if(
            self.gen_halftone,
            OutputKind::Halftone,
        ));
        if self.gen_lineart {
            steps.push(OutputKind::LineArt);
        }
        assert(steps@ =~= step_if(self.gen_gray, OutputKind::Gray) + step_if(
            self.gen_halftone,
            OutputKind::Halftone,
        ) + step_if(self.gen_lineart, OutputKind::LineArt));
        if self.gen_logo {
            steps.push(OutputKind::Logo);
        }
        assert(steps@ =~= step_if(self.gen_gray, OutputKind::Gray) + step_if(
            self.gen_halftone,
            OutputKind::Halftone,
        ) + step_if(self.gen_lineart, OutputKind::LineArt) + step_if(
            self.gen_logo,
            OutputKind::Logo,
        ));
        if self.gen_illus {
            steps.push(OutputKind::Illustration);
        }
        assert(steps@ =~= step_if(self.gen_gray, OutputKind::Gray) + step_if(
            self.gen_halftone,
            OutputKind::Halftone,
        ) + step_if(self.gen_lineart, OutputKind::LineArt) + step_if(
            self.gen_logo,
            OutputKind::Logo,
        ) + step_if(self.gen_illus, OutputKind::Illustration));
        if self.gen_thumbnail {
            steps.push(OutputKind::Thumbnail);
        }
        assert(steps@ =~= self.derived_outputs());
        steps
    }
}

/// The file name of output `kind` for base name `base`.
pub fn output_file_name(base: &str, kind: OutputKind) -> (r: String)
    ensures
        r@ == base@ + output_suffix(kind),
{
    let suffix = match kind {
        OutputKind::Alpha => "_alpha.png",
        OutputKind::Gray => "_gray.svg",
        OutputKind::Halftone => "_halftone.svg",
        OutputKind::LineArt => "_lineart.svg",
        OutputKind::Logo => "_logo.svg",
        OutputKind::Illustration => "_illustration.svg",
        OutputKind::Thumbnail => "_thumb.png",
    };
    let mut name = base.to_string();
    name.append(suffix);
    name
}

} // verus!
