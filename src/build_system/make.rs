use vstd::prelude::*;
use vstd::string::*;

use super::{command_with, word, BuildSystem, RootIdentificationResult};
use crate::error::Error;
use crate::probe::{DirFacts, EntryKind, Marker};
use crate::project::Project;
use crate::text::opt_view;

verus! {

/// A plain makefile build. A `Makefile` only suggests a root, since
/// makefiles also stand in subdirectories of a project.
#[derive(Debug)]
pub struct Make;

/// A `Makefile` file makes the directory a plausible root.
pub open spec fn make_signal(d: DirFacts) -> Result<RootIdentificationResult, Error> {
    if d.kind(Marker::Makefile) == Some(EntryKind::File) {
        Ok(RootIdentificationResult::MaybeRoot)
    } else {
        Ok(RootIdentificationResult::NotRoot)
    }
}

impl BuildSystem for Make {
    fn is_project_root(&self, dir: &DirFacts) -> (r: Result<RootIdentificationResult, Error>)
        ensures
            r == make_signal(*dir),
    {
        match dir.kind_of(Marker::Makefile) {
            Some(EntryKind::File) => Ok(RootIdentificationResult::MaybeRoot),
            _ => Ok(RootIdentificationResult::NotRoot),
        }
    }

    fn configure_marker(&self, project: &Project) -> (r: Option<String>)
        ensures
            opt_view(r) == super::marker_of(super::BuildSystemKind::Make, *project),
    {
        None
    }

    fn configure_command(&self, project: &Project) -> (r: Vec<String>)
        ensures
            r.deep_view() == super::configure_of(super::BuildSystemKind::Make, *project),
    {
        let r: Vec<String> = Vec::new();
        assert(r.deep_view() =~= seq![]);
        r
    }

    /// `make -C <project dir>` and the trailing arguments.
    fn build_command(&self, project: &Project) -> (r: Vec<String>)
        ensures
            r.deep_view() == super::build_of(super::BuildSystemKind::Make, *project),
    {
        let head = vec![word("make"), word("-C"), project.project_dir.clone()];
        assert(head.deep_view() =~= seq!["make"@, "-C"@, project.project_dir@]);
        command_with(head, &project.args)
    }
}

} // verus!
