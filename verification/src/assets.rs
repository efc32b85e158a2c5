//! The fixed configuration and pipeline-stage templates.
//!
//! The templates themselves are stored outside the library and handed in
//! as plain text; these types carry them into the archive builder.

use vstd::prelude::*;

verus! {

/// One fixed configuration template, with the name its rendering keeps
/// inside the artifact.
pub struct Template {
    /// The entry name inside the artifact.
    pub name: String,
    /// The template text.
    pub text: String,
}

/// The fixed engine configuration templates: each is rendered against the
/// parameter context and added to the artifact under its own name.
pub struct ConfigAssets {
    /// The templates, in the order their renderings enter the artifact.
    pub templates: Vec<Template>,
}

/// The two pipeline-stage templates that bracket the rule fragments in
/// the assembled pipeline definition.
pub struct PipelineAssets {
    /// The "input" stage, rendered first.
    pub input_template: String,
    /// The "output" stage, rendered last.
    pub output_template: String,
}

} // verus!
