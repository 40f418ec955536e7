//! Teemiao is a toolkit for application build workflows. Its core captures a
//! snapshot of the current build's provenance - the active version-control
//! revision and the build timestamp - and renders it as a structured artifact
//! for downstream tooling.

use vstd::prelude::*;

pub mod build_info;
pub mod json;

use vstd::string::StringExecFns;

use crate::build_info::BuildInfoError;

verus! {

/// Different types of errors that can occur in Teemiao.
#[derive(Debug, Clone, PartialEq, Eq)]
pub enum TeemiaoError {
    /// Build information could not be generated.
    BuildInfo(BuildInfoError),
    /// Configuration could not be generated from a template.
    ConfigTemplate(String),
}

impl From<BuildInfoError> for TeemiaoError {
    fn from(err: BuildInfoError) -> (r: Self) {
        TeemiaoError::BuildInfo(err)
    }
}

impl vstd::std_specs::convert::FromSpecImpl<BuildInfoError> for TeemiaoError {
    open spec fn obeys_from_spec() -> bool {
        true
    }

    open spec fn from_spec(err: BuildInfoError) -> Self {
        TeemiaoError::BuildInfo(err)
    }
}

impl TeemiaoError {
    /// The human-readable message for this error: which tool failed and why.
    pub open spec fn spec_message(&self) -> Seq<char> {
        match self {
            TeemiaoError::BuildInfo(err) => "Failed to generate build info: "@
                + err.spec_message(),
            TeemiaoError::ConfigTemplate(m) => "Failed to generate configuration from template: "@
                + m@,
        }
    }

    /// Renders the message for this error.
    pub fn message(&self) -> (text: String)
        ensures
            text@ == self.spec_message(),
    {
        match self {
            TeemiaoError::BuildInfo(err) => {
                let mut text = String::from_str("Failed to generate build info: ");
                let inner = err.message();
                text.append(inner.as_str());
                text
            },
            TeemiaoError::ConfigTemplate(m) => {
                let mut text = String::from_str("Failed to generate configuration from template: ");
                text.append(m.as_str());
                text
            },
        }
    }
}

} // verus!
