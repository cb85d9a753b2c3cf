use vstd::prelude::*;
use vstd::string::*;

mod cargo;
mod cmake;
mod make;
mod meson;

pub use cargo::Cargo;
pub use cmake::CMake;
pub use make::Make;
pub use meson::Meson;

use crate::error::Error;
use crate::probe::DirFacts;
use crate::project::Project;

verus! {

/// What a detector, or the generic heuristic, says of a candidate directory.
#[derive(Clone, Copy, Debug, PartialEq, Eq, Structural)]
pub enum RootIdentificationResult {
    /// Definitely the project root: the walk ends here.
    IsRoot,
    NotRoot,
    /// Plausibly the root, unless a farther directory says so too.
    MaybeRoot,
}

/// The capabilities of one build tool.
pub trait BuildSystem {
    /// Whether `dir` is the root of a project of this tool.
    fn is_project_root(&self, dir: &DirFacts) -> Result<RootIdentificationResult, Error>;

    /// The file whose presence and age tell that the configure step is
    /// current, or `None` for a tool without a configure step.
    fn configure_marker(&self, project: &Project) -> Option<String>;

    /// The command line of the configure step; empty for a tool without one.
    fn configure_command(&self, project: &Project) -> Vec<String>;

    /// The command line of the build step.
    fn build_command(&self, project: &Project) -> Vec<String>;
}

/// The supported build tools.
#[derive(Clone, Copy, Debug, PartialEq, Eq, Structural)]
pub enum BuildSystemKind {
    Meson,
    Cargo,
    CMake,
    Make,
}

/// The detectors in the order in which the walk consults them.
pub open spec fn registry() -> Seq<BuildSystemKind> {
    seq![BuildSystemKind::Meson, BuildSystemKind::Cargo, BuildSystemKind::CMake, BuildSystemKind::Make]
}

/// What the detector of `k` says of `d`.
pub open spec fn root_signal(k: BuildSystemKind, d: DirFacts) -> Result<RootIdentificationResult, Error> {
    match k {
        BuildSystemKind::Meson => meson::meson_signal(d),
        BuildSystemKind::Cargo => cargo::cargo_signal(d),
        BuildSystemKind::CMake => cmake::cmake_signal(d),
        BuildSystemKind::Make => make::make_signal(d),
    }
}

/// The configure marker of `k` for `p`.
pub open spec fn marker_of(k: BuildSystemKind, p: Project) -> Option<Seq<char>> {
    match k {
        BuildSystemKind::Meson => Some(crate::text::joined(p.build_dir@, "build.ninja"@)),
        BuildSystemKind::Cargo => None,
        BuildSystemKind::CMake => Some(crate::text::joined(p.build_dir@, "build.ninja"@)),
        BuildSystemKind::Make => None,
    }
}

/// The configure command line of `k` for `p`.
pub open spec fn configure_of(k: BuildSystemKind, p: Project) -> Seq<Seq<char>> {
    match k {
        BuildSystemKind::Meson => seq!["meson"@, "setup"@] + p.configure_args.deep_view() + seq![
            p.build_dir@,
            p.project_dir@,
        ],
        BuildSystemKind::Cargo => seq![],
        BuildSystemKind::CMake => seq!["cmake"@] + p.configure_args.deep_view() + seq![
            "-G"@,
            "Unix Makefiles"@,
            "-S"@,
            p.project_dir@,
            "-B"@,
            p.build_dir@,
        ],
        BuildSystemKind::Make => seq![],
    }
}

/// The build command line of `k` for `p`.
pub open spec fn build_of(k: BuildSystemKind, p: Project) -> Seq<Seq<char>> {
    match k {
        BuildSystemKind::Meson => seq!["ninja"@, "-C"@, p.build_dir@] + p.args.deep_view(),
        BuildSystemKind::Cargo => seq!["cargo"@] + if p.args@.len() == 0 {
            seq!["build"@]
        } else {
            p.args.deep_view()
        },
        BuildSystemKind::CMake => seq!["make"@, "-C"@, p.build_dir@] + p.args.deep_view(),
        BuildSystemKind::Make => seq!["make"@, "-C"@, p.project_dir@] + p.args.deep_view(),
    }
}

/// The build tool that a configuration names, if it names a known one.
pub open spec fn kind_named(name: Seq<char>) -> Option<BuildSystemKind> {
    if name == "cargo"@ {
        Some(BuildSystemKind::Cargo)
    } else if name == "cmake"@ {
        Some(BuildSystemKind::CMake)
    } else if name == "make"@ {
        Some(BuildSystemKind::Make)
    } else if name == "meson"@ {
        Some(BuildSystemKind::Meson)
    } else {
        None
    }
}

/// A command line of fixed words followed by a copy of `rest`.
pub(crate) fn command_with(head: Vec<String>, rest: &Vec<String>) -> (r: Vec<String>)
    ensures
        r.deep_view() == head.deep_view() + rest.deep_view(),
{
    let mut command = head;
    crate::text::append_strings(&mut command, rest);
    command
}

/// The owned form of a word.
pub(crate) fn word(s: &str) -> (r: String)
    ensures
        r@ == s@,
{
    String::from_str(s)
}

impl BuildSystem for BuildSystemKind {
    fn is_project_root(&self, dir: &DirFacts) -> (r: Result<RootIdentificationResult, Error>)
        ensures
            r == root_signal(*self, *dir),
    {
        match self {
            BuildSystemKind::Meson => Meson.is_project_root(dir),
            BuildSystemKind::Cargo => Cargo.is_project_root(dir),
            BuildSystemKind::CMake => CMake.is_project_root(dir),
            BuildSystemKind::Make => Make.is_project_root(dir),
        }
    }

    fn configure_marker(&self, project: &Project) -> (r: Option<String>)
        ensures
            crate::text::opt_view(r) == marker_of(*self, *project),
    {
        match self {
            BuildSystemKind::Meson => Meson.configure_marker(project),
            BuildSystemKind::Cargo => Cargo.configure_marker(project),
            BuildSystemKind::CMake => CMake.configure_marker(project),
            BuildSystemKind::Make => Make.configure_marker(project),
        }
    }

    fn configure_command(&self, project: &Project) -> (r: Vec<String>)
        ensures
            r.deep_view() == configure_of(*self, *project),
    {
        match self {
            BuildSystemKind::Meson => Meson.configure_command(project),
            BuildSystemKind::Cargo => Cargo.configure_command(project),
            BuildSystemKind::CMake => CMake.configure_command(project),
            BuildSystemKind::Make => Make.configure_command(project),
        }
    }

    fn build_command(&self, project: &Project) -> (r: Vec<String>)
        ensures
            r.deep_view() == build_of(*self, *project),
    {
        match self {
            BuildSystemKind::Meson => Meson.build_command(project),
            BuildSystemKind::Cargo => Cargo.build_command(project),
            BuildSystemKind::CMake => CMake.build_command(project),
            BuildSystemKind::Make => Make.build_command(project),
        }
    }
}

/// The detectors, in the order in which the walk consults them.
pub fn build_systems() -> (r: Vec<BuildSystemKind>)
    ensures
        r@ == registry(),
{
    let r = vec![BuildSystemKind::Meson, BuildSystemKind::Cargo, BuildSystemKind::CMake, BuildSystemKind::Make];
    assert(r@ =~= registry());
    r
}

/// The build tool of the given configuration name: `cargo`, `cmake`, `make`
/// or `meson`; `None` for any other name.
pub fn build_system_from_str(name: &str) -> (r: Option<BuildSystemKind>)
    ensures
        r == kind_named(name@),
{
    let name = String::from_str(name);
    if name == word("cargo") {
        Some(BuildSystemKind::Cargo)
    } else if name == word("cmake") {
        Some(BuildSystemKind::CMake)
    } else if name == word("make") {
        Some(BuildSystemKind::Make)
    } else if name == word("meson") {
        Some(BuildSystemKind::Meson)
    } else {
        None
    }
}

} // verus!
