//! The agent's declarative configuration model.
//!
//! Loaded once at startup from a structured text file in the agent's
//! directory and immutable for the process lifetime: refresh operations
//! re-derive downstream state but never mutate it. The unverified
//! driver parses the file and hands over plain values.

use vstd::prelude::*;

verus! {

/// One named bundle of local source files: everything matching
/// `src_globs` under `src_dir` is concatenated into a single artifact
/// with extension `dst_ext` and uploaded as one remote file.
#[derive(Debug)]
pub struct FileBundle {
    pub bundle_name: String,
    pub src_dir: String,
    pub src_globs: Vec<String>,
    pub dst_ext: String,
}

/// The agent's configuration: logical name, model identifier, path of
/// the instructions file (relative to the agent's directory), and the
/// ordered bundle specifications.
#[derive(Debug)]
pub struct Config {
    pub name: String,
    pub model: String,
    pub instructions_file: String,
    pub file_bundles: Vec<FileBundle>,
}

/// The name/model pair handed to the provider when a new remote
/// assistant is created.
#[derive(Debug)]
pub struct CreateConfig {
    pub name: String,
    pub model: String,
}

impl From<&Config> for CreateConfig {
    /// The creation request derived from the full configuration: its
    /// name and model, nothing else.
    fn from(config: &Config) -> (r: CreateConfig) {
        CreateConfig { name: config.name.clone(), model: config.model.clone() }
    }
}

impl vstd::std_specs::convert::FromSpecImpl<&Config> for CreateConfig {
    open spec fn obeys_from_spec() -> bool {
        true
    }

    open spec fn from_spec(config: &Config) -> CreateConfig {
        CreateConfig { name: config.name, model: config.model }
    }
}

} // verus!
