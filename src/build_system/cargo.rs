use vstd::prelude::*;
use vstd::string::*;

use super::{command_with, word, BuildSystem, RootIdentificationResult};
use crate::error::Error;
use crate::probe::{DirFacts, EntryKind, Marker};
use crate::project::Project;
use crate::text::opt_view;

verus! {

/// The Rust package manager. A `Cargo.toml` file only suggests a root, since
/// the package may be a member of a workspace farther up.
#[derive(Debug)]
pub struct Cargo;

/// A `Cargo.toml` file makes the directory a plausible root.
pub open spec fn cargo_signal(d: DirFacts) -> Result<RootIdentificationResult, Error> {
    if d.kind(Marker::CargoToml) == Some(EntryKind::File) {
        Ok(RootIdentificationResult::MaybeRoot)
    } else {
        Ok(RootIdentificationResult::NotRoot)
    }
}

impl BuildSystem for Cargo {
    fn is_project_root(&self, dir: &DirFacts) -> (r: Result<RootIdentificationResult, Error>)
        ensures
            r == cargo_signal(*dir),
    {
        match dir.kind_of(Marker::CargoToml) {
            Some(EntryKind::File) => Ok(RootIdentificationResult::MaybeRoot),
            _ => Ok(RootIdentificationResult::NotRoot),
        }
    }

    fn configure_marker(&self, project: &Project) -> (r: Option<String>)
        ensures
            opt_view(r) == super::marker_of(super::BuildSystemKind::Cargo, *project),
    {
        None
    }

    fn configure_command(&self, project: &Project) -> (r: Vec<String>)
        ensures
            r.deep_view() == super::configure_of(super::BuildSystemKind::Cargo, *project),
    {
        let r: Vec<String> = Vec::new();
        assert(r.deep_view() =~= seq![]);
        r
    }

    /// `cargo build`, or `cargo` with the trailing arguments in place of `build`.
    fn build_command(&self, project: &Project) -> (r: Vec<String>)
        ensures
            r.deep_view() == super::build_of(super::BuildSystemKind::Cargo, *project),
    {
        let head = vec![word("cargo")];
        assert(head.deep_view() =~= seq!["cargo"@]);
        if project.args.len() == 0 {
            let r = vec![word("cargo"), word("build")];
            assert(r.deep_view() =~= seq!["cargo"@] + seq!["build"@]);
            r
        } else {
            command_with(head, &project.args)
        }
    }
}

} // verus!
