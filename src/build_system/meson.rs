use vstd::prelude::*;
use vstd::string::*;

use super::{command_with, word, BuildSystem, RootIdentificationResult};
use crate::error::Error;
use crate::probe::{DirFacts, EntryKind, Marker};
use crate::project::Project;
use crate::text::opt_view;

use crate::text::{has_prefix, starts_with_after_space, trim_start};

verus! {

/// Meson with the ninja backend.
#[derive(Debug)]
pub struct Meson;

/// Whether a line, after its leading white space, opens with the `project`
/// declaration.
pub open spec fn declares_project(lines: Seq<String>) -> bool {
    exists|i: int| 0 <= i < lines.len() && has_prefix(trim_start((#[trigger] lines[i])@), "project"@)
}

/// A `meson_options.txt` entry makes the directory the root. Otherwise a
/// `meson.build` file does when one of its lines declares the project; one
/// that does not only suggests a root, unless reading it failed first.
pub open spec fn meson_signal(d: DirFacts) -> Result<RootIdentificationResult, Error> {
    if d.kind(Marker::MesonOptions).is_some() {
        Ok(RootIdentificationResult::IsRoot)
    } else {
        match d.meson_build {
            None => Ok(RootIdentificationResult::NotRoot),
            Some(f) => if declares_project(f.lines@) {
                Ok(RootIdentificationResult::IsRoot)
            } else {
                match f.failure {
                    Some(e) => Err(e),
                    None => Ok(RootIdentificationResult::MaybeRoot),
                }
            },
        }
    }
}

impl BuildSystem for Meson {
    fn is_project_root(&self, dir: &DirFacts) -> (r: Result<RootIdentificationResult, Error>)
        ensures
            r == meson_signal(*dir),
    {
        if dir.kind_of(Marker::MesonOptions).is_some() {
            return Ok(RootIdentificationResult::IsRoot);
        }
        match &dir.meson_build {
            None => Ok(RootIdentificationResult::NotRoot),
            Some(f) => {
                let mut i: usize = 0;
                while i < f.lines.len()
                    invariant
                        dir.meson_build == Some(*f),
                        dir.kind(Marker::MesonOptions).is_none(),
                        i <= f.lines@.len(),
                        forall|k: int|
                            0 <= k < i ==> !has_prefix(trim_start((#[trigger] f.lines@[k])@), "project"@),
                    decreases f.lines@.len() - i,
                {
                    if starts_with_after_space(f.lines[i].as_str(), "project") {
                        assert(has_prefix(trim_start(f.lines@[i as int]@), "project"@));
                        assert(declares_project(f.lines@));
                        return Ok(RootIdentificationResult::IsRoot);
                    }
                    i = i + 1;
                }
                match &f.failure {
                    Some(e) => Err(e.duplicate()),
                    None => Ok(RootIdentificationResult::MaybeRoot),
                }
            },
        }
    }

    /// `build.ninja` in the build directory.
    fn configure_marker(&self, project: &Project) -> (r: Option<String>)
        ensures
            opt_view(r) == super::marker_of(super::BuildSystemKind::Meson, *project),
    {
        Some(crate::text::join_path(project.build_dir.as_str(), "build.ninja"))
    }

    /// `meson setup`, the configure arguments, the build directory, then the
    /// project directory.
    fn configure_command(&self, project: &Project) -> (r: Vec<String>)
        ensures
            r.deep_view() == super::configure_of(super::BuildSystemKind::Meson, *project),
    {
        let mut r = command_with(vec![word("meson"), word("setup")], &project.configure_args);
        let tail = vec![project.build_dir.clone(), project.project_dir.clone()];
        crate::text::append_strings(&mut r, &tail);
        assert(r.deep_view() =~= super::configure_of(super::BuildSystemKind::Meson, *project));
        r
    }

    /// `ninja -C <build dir>` and the trailing arguments.
    fn build_command(&self, project: &Project) -> (r: Vec<String>)
        ensures
            r.deep_view() == super::build_of(super::BuildSystemKind::Meson, *project),
    {
        let head = vec![word("ninja"), word("-C"), project.build_dir.clone()];
        assert(head.deep_view() =~= seq!["ninja"@, "-C"@, project.build_dir@]);
        command_with(head, &project.args)
    }
}

} // verus!
