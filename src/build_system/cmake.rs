use vstd::prelude::*;
use vstd::string::*;

use super::{command_with, word, BuildSystem, RootIdentificationResult};
use crate::error::Error;
use crate::probe::{DirFacts, EntryKind, Marker};
use crate::project::Project;
use crate::text::opt_view;

verus! {

/// CMake, generating makefiles. A top-level `CMakeLists.txt` marks the root.
#[derive(Debug)]
pub struct CMake;

/// A `CMakeLists.txt` entry of any kind makes the directory the root.
pub open spec fn cmake_signal(d: DirFacts) -> Result<RootIdentificationResult, Error> {
    if d.kind(Marker::CMakeLists).is_some() {
        Ok(RootIdentificationResult::IsRoot)
    } else {
        Ok(RootIdentificationResult::NotRoot)
    }
}

impl BuildSystem for CMake {
    fn is_project_root(&self, dir: &DirFacts) -> (r: Result<RootIdentificationResult, Error>)
        ensures
            r == cmake_signal(*dir),
    {
        match dir.kind_of(Marker::CMakeLists) {
            Some(_) => Ok(RootIdentificationResult::IsRoot),
            None => Ok(RootIdentificationResult::NotRoot),
        }
    }

    /// `build.ninja` in the build directory.
    fn configure_marker(&self, project: &Project) -> (r: Option<String>)
        ensures
            opt_view(r) == super::marker_of(super::BuildSystemKind::CMake, *project),
    {
        Some(crate::text::join_path(project.build_dir.as_str(), "build.ninja"))
    }

    /// `cmake`, the configure arguments, then the generator, source and
    /// build directory flags.
    fn configure_command(&self, project: &Project) -> (r: Vec<String>)
        ensures
            r.deep_view() == super::configure_of(super::BuildSystemKind::CMake, *project),
    {
        let mut r = command_with(vec![word("cmake")], &project.configure_args);
        let tail = vec![
            word("-G"),
            word("Unix Makefiles"),
            word("-S"),
            project.project_dir.clone(),
            word("-B"),
            project.build_dir.clone(),
        ];
        crate::text::append_strings(&mut r, &tail);
        assert(r.deep_view() =~= super::configure_of(super::BuildSystemKind::CMake, *project));
        r
    }

    /// `make -C <build dir>` and the trailing arguments.
    fn build_command(&self, project: &Project) -> (r: Vec<String>)
        ensures
            r.deep_view() == super::build_of(super::BuildSystemKind::CMake, *project),
    {
        let head = vec![word("make"), word("-C"), project.build_dir.clone()];
        assert(head.deep_view() =~= seq!["make"@, "-C"@, project.build_dir@]);
        command_with(head, &project.args)
    }
}

} // verus!
