use vstd::prelude::*;
use vstd::string::*;

use crate::build_system::{
    build_of, build_system_from_str, build_systems, configure_of, kind_named, marker_of, registry,
    root_signal, BuildSystem, BuildSystemKind, RootIdentificationResult,
};
use crate::error::{Error, ErrorView, IoFailure};
use crate::mk_info::{env_of, keys_unique, opt_deep, settle_env, BuildInfo, BuildInfoView, MkInfo};
use crate::opts::{Opts, OptsView};
use crate::probe::{DirFacts, EntryKind, Marker};
use crate::text::{
    append_strings, copy_strings, fields, join_path, joined, opt_view, split_fields, split_words,
    words,
};

verus! {

/// Whether `m` is a directory in `d`.
pub open spec fn has_dir(d: DirFacts, m: Marker) -> bool {
    d.kind(m) == Some(EntryKind::Dir)
}

/// Whether `d` holds the directory of a version-control system whose
/// checkout root it is.
pub open spec fn has_vcs_root(d: DirFacts) -> bool {
    has_dir(d, Marker::Git) || has_dir(d, Marker::Mercurial) || has_dir(d, Marker::Darcs) || has_dir(
        d,
        Marker::Bazaar,
    )
}

/// Whether `d` holds the directory of a version-control system that keeps
/// such a directory in every subdirectory of a checkout.
pub open spec fn has_vcs_til_root(d: DirFacts) -> bool {
    has_dir(d, Marker::Subversion) || has_dir(d, Marker::Cvs)
}

/// What `d`'s `.editorconfig` says: whether it declares itself the root.
pub open spec fn editor_config_root(d: DirFacts) -> Result<bool, Error> {
    match d.editor_config {
        Some(Ok(c)) => Ok(c.root),
        Some(Err(e)) => Err(e),
        None => Ok(false),
    }
}

/// The generic root heuristic: version control first, then `.editorconfig`.
pub open spec fn generic_signal(d: DirFacts) -> Result<RootIdentificationResult, Error> {
    if has_vcs_root(d) {
        Ok(RootIdentificationResult::IsRoot)
    } else if has_vcs_til_root(d) {
        Ok(RootIdentificationResult::MaybeRoot)
    } else {
        match editor_config_root(d) {
            Ok(true) => Ok(RootIdentificationResult::IsRoot),
            Ok(false) => Ok(RootIdentificationResult::NotRoot),
            Err(e) => Err(e),
        }
    }
}

/// What the detectors together say of one directory.
#[derive(Clone, Copy, Debug, PartialEq, Eq, Structural)]
pub enum DirScan {
    /// The first detector, in registry order, that claims the root.
    IsRoot(BuildSystemKind),
    /// No detector claims the root; this is the last one that finds it plausible.
    MaybeRoot(BuildSystemKind),
    NotRoot,
}

/// The detectors from registry index `k` on, asked in order about `d`, after
/// the earlier ones left the plausible candidate `last`: the first `IsRoot`
/// ends the scan, a later `MaybeRoot` replaces an earlier one, and a failure
/// ends it with that failure.
pub open spec fn scan_from(d: DirFacts, k: int, last: Option<BuildSystemKind>) -> Result<DirScan, Error>
    decreases 4 - k,
{
    if k < 0 || k >= 4 {
        match last {
            Some(b) => Ok(DirScan::MaybeRoot(b)),
            None => Ok(DirScan::NotRoot),
        }
    } else {
        match root_signal(registry()[k], d) {
            Err(e) => Err(e),
            Ok(RootIdentificationResult::IsRoot) => Ok(DirScan::IsRoot(registry()[k])),
            Ok(RootIdentificationResult::MaybeRoot) => scan_from(d, k + 1, Some(registry()[k])),
            Ok(RootIdentificationResult::NotRoot) => scan_from(d, k + 1, last),
        }
    }
}

/// What all the detectors say of `d`.
pub open spec fn scan(d: DirFacts) -> Result<DirScan, Error> {
    scan_from(d, 0, None)
}

/// The chosen build system, if any, and the project root.
#[derive(Debug, PartialEq, Eq)]
pub struct RootInfo {
    pub build_system: Option<BuildSystemKind>,
    pub project_dir: String,
}

/// The root found in the directories `dirs` from index `i` on (nearest
/// first), given the candidate `maybe` that the previous directory left and
/// whether a plausible version-control root has been passed (`latch`).
///
/// A detector's `IsRoot` ends the walk there. A directory with no detector
/// candidate, after one that had one, ends it in favour of that one. A
/// version-control or `.editorconfig` root ends it at the current directory's
/// candidate, or at the directory itself. A plausible version-control root
/// sets the latch, after which the first directory without such a signal
/// ends the walk. The last directory ends it in any case.
pub open spec fn walk(dirs: Seq<DirFacts>, i: int, maybe: Option<RootInfo>, latch: bool) -> Result<
    Option<RootInfo>,
    Error,
>
    decreases dirs.len() - i,
{
    if i < 0 || i >= dirs.len() {
        Ok(maybe)
    } else {
        let d = dirs[i];
        match scan(d) {
            Err(e) => Err(e),
            Ok(DirScan::IsRoot(k)) => Ok(Some(RootInfo { build_system: Some(k), project_dir: d.path })),
            Ok(s) => {
                let here = match s {
                    DirScan::MaybeRoot(k) => Some(RootInfo { build_system: Some(k), project_dir: d.path }),
                    _ => None,
                };
                let bare = Some(RootInfo { build_system: None, project_dir: d.path });
                if here is None && maybe is Some {
                    Ok(maybe)
                } else {
                    match generic_signal(d) {
                        Err(e) => Err(e),
                        Ok(RootIdentificationResult::IsRoot) => Ok(
                            if here is Some {
                                here
                            } else {
                                bare
                            },
                        ),
                        Ok(RootIdentificationResult::MaybeRoot) => walk(
                            dirs,
                            i + 1,
                            if here is Some {
                                here
                            } else {
                                bare
                            },
                            true,
                        ),
                        Ok(RootIdentificationResult::NotRoot) => if latch {
                            Ok(here)
                        } else {
                            walk(dirs, i + 1, here, latch)
                        },
                    }
                }
            },
        }
    }
}

/// The root that the walk over `dirs` (the start directory, then each of its
/// ancestors) settles on, or why there is none.
pub open spec fn root_of(dirs: Seq<DirFacts>) -> Result<RootInfo, Error> {
    match walk(dirs, 0, None, false) {
        Ok(Some(r)) => Ok(r),
        Ok(None) => Err(Error::NoProjectRootFound),
        Err(e) => Err(e),
    }
}

impl RootInfo {
    /// The root `project_dir`, with the build system `build_system`.
    pub fn new(build_system: Option<BuildSystemKind>, project_dir: &String) -> (r: RootInfo)
        ensures
            r == (RootInfo { build_system, project_dir: *project_dir }),
    {
        RootInfo { build_system, project_dir: project_dir.clone() }
    }
}

/// Whether `dir`'s `.editorconfig` declares itself the root.
pub fn has_root_editor_config(dir: &DirFacts) -> (r: Result<bool, Error>)
    ensures
        r == editor_config_root(*dir),
{
    match &dir.editor_config {
        Some(Ok(c)) => Ok(c.root),
        Some(Err(e)) => Err(e.duplicate()),
        None => Ok(false),
    }
}

fn is_dir_in(dir: &DirFacts, m: Marker) -> (r: bool)
    ensures
        r == has_dir(*dir, m),
{
    match dir.kind_of(m) {
        Some(EntryKind::Dir) => true,
        _ => false,
    }
}

/// The generic root heuristic on `dir` (see [`generic_signal`]).
pub fn is_project_root(dir: &DirFacts) -> (r: Result<RootIdentificationResult, Error>)
    ensures
        r == generic_signal(*dir),
{
    if is_dir_in(dir, Marker::Git) || is_dir_in(dir, Marker::Mercurial) || is_dir_in(dir, Marker::Darcs)
        || is_dir_in(dir, Marker::Bazaar) {
        Ok(RootIdentificationResult::IsRoot)
    } else if is_dir_in(dir, Marker::Subversion) || is_dir_in(dir, Marker::Cvs) {
        Ok(RootIdentificationResult::MaybeRoot)
    } else {
        match has_root_editor_config(dir) {
            Ok(true) => Ok(RootIdentificationResult::IsRoot),
            Ok(false) => Ok(RootIdentificationResult::NotRoot),
            Err(e) => Err(e),
        }
    }
}

/// What the detectors, in registry order, say of `dir` (see [`scan`]).
pub fn scan_detectors(dir: &DirFacts) -> (r: Result<DirScan, Error>)
    ensures
        r == scan(*dir),
{
    let systems = build_systems();
    let mut last: Option<BuildSystemKind> = None;
    let mut k: usize = 0;
    while k < systems.len()
        invariant
            systems@ == registry(),
            k <= 4,
            scan(*dir) == scan_from(*dir, k as int, last),
        decreases 4 - k,
    {
        let b = systems[k];
        match b.is_project_root(dir) {
            Err(e) => return Err(e),
            Ok(RootIdentificationResult::IsRoot) => return Ok(DirScan::IsRoot(b)),
            Ok(RootIdentificationResult::MaybeRoot) => {
                last = Some(b);
            },
            Ok(RootIdentificationResult::NotRoot) => {},
        }
        k = k + 1;
    }
    match last {
        Some(b) => Ok(DirScan::MaybeRoot(b)),
        None => Ok(DirScan::NotRoot),
    }
}

/// The project root and build system for a start directory, given what is
/// known of it and of each of its ancestors, nearest first, up to the
/// filesystem root (see [`walk`]).
pub fn find_root(ancestors: &Vec<DirFacts>) -> (r: Result<RootInfo, Error>)
    ensures
        r == root_of(ancestors@),
{
    let n = ancestors.len();
    let mut maybe: Option<RootInfo> = None;
    let mut latch = false;
    let mut i: usize = 0;
    while i < n
        invariant
            n == ancestors@.len(),
            i <= n,
            walk(ancestors@, 0, None, false) == walk(ancestors@, i as int, maybe, latch),
        decreases n - i,
    {
        let d = &ancestors[i];
        let here = match scan_detectors(d) {
            Err(e) => return Err(e),
            Ok(DirScan::IsRoot(k)) => return Ok(RootInfo::new(Some(k), &d.path)),
            Ok(DirScan::MaybeRoot(k)) => Some(RootInfo::new(Some(k), &d.path)),
            Ok(DirScan::NotRoot) => None,
        };
        if here.is_none() && maybe.is_some() {
            return match maybe {
                Some(m) => Ok(m),
                None => Err(Error::NoProjectRootFound),
            };
        }
        match is_project_root(d) {
            Err(e) => return Err(e),
            Ok(RootIdentificationResult::IsRoot) => {
                return match here {
                    Some(h) => Ok(h),
                    None => Ok(RootInfo::new(None, &d.path)),
                };
            },
            Ok(RootIdentificationResult::MaybeRoot) => {
                latch = true;
                maybe = match here {
                    Some(h) => Some(h),
                    None => Some(RootInfo::new(None, &d.path)),
                };
            },
            Ok(RootIdentificationResult::NotRoot) => {
                if latch {
                    return match here {
                        Some(h) => Ok(h),
                        None => Err(Error::NoProjectRootFound),
                    };
                }
                maybe = here;
            },
        }
        i = i + 1;
    }
    match maybe {
        Some(m) => Ok(m),
        None => Err(Error::NoProjectRootFound),
    }
}

/// The resolved context of one invocation: where the project is, where it
/// builds, with what arguments and environment, and by which build system.
#[derive(Debug)]
pub struct Project {
    pub container_image: Option<String>,
    pub container_args: Option<Vec<String>>,
    pub mk_info_path: Option<String>,
    pub project_dir: String,
    pub work_dir: String,
    pub build_dir: String,
    pub configure_args: Vec<String>,
    pub args: Vec<String>,
    pub env: Vec<(String, String)>,
    pub build_system: BuildSystemKind,
    pub container: bool,
}

/// The build system that the configuration `b` and the root's detector
/// settle on: the one the configuration names, when it names one (an unknown
/// name settles on none), else the detected one.
pub open spec fn chosen_system(b: BuildInfoView, found: Option<BuildSystemKind>) -> Option<
    BuildSystemKind,
> {
    match b.build_system {
        Some(n) => kind_named(n),
        None => found,
    }
}

/// Whether `p` is the project that the options `opts`, the working
/// directory `work_dir`, the root `root`, the effective configuration `b` and
/// the configuration file `mk_info_path` describe.
pub open spec fn assembled(
    p: Project,
    opts: OptsView,
    work_dir: Seq<char>,
    root: RootInfo,
    b: BuildInfoView,
    mk_info_path: Option<Seq<char>>,
) -> bool {
    &&& Some(p.build_system) == chosen_system(b, root.build_system)
    &&& p.project_dir == root.project_dir
    &&& p.work_dir@ == work_dir
    &&& p.build_dir@ == joined(
        root.project_dir@,
        match opts.build_dir {
            Some(d) => d,
            None => "build"@,
        },
    )
    &&& p.configure_args.deep_view() == match b.configure {
        Some(c) => c,
        None => seq![],
    }
    &&& p.args.deep_view() == if opts.args.len() == 0 {
        match b.default {
            Some(d) => d.to_seq(),
            None => seq![],
        }
    } else {
        opts.args
    }
    &&& p.env.deep_view() == env_of(
        match b.env {
            Some(e) => e,
            None => seq![],
        },
    )
    &&& keys_unique(p.env.deep_view())
    &&& opt_view(p.container_image) == b.image()
    &&& opt_deep(p.container_args) == b.container_args()
    &&& opt_view(p.mk_info_path) == mk_info_path
    &&& p.container == opts.container
}

/// Whether the configure step of `p` is current, given whether its marker
/// exists (`None` when it does not) with its modification time or the
/// message of the failure to read it, and the modification time of the
/// configuration file or the message of the failure to read it.
///
/// A build system without a marker is always configured; a missing marker
/// means not configured; without a configuration file the marker suffices;
/// otherwise the marker must be strictly newer than the configuration file.
pub open spec fn configured(
    p: Project,
    marker: Option<Result<i128, String>>,
    mk_info_time: Result<i128, String>,
) -> Result<bool, ErrorView> {
    match marker_of(p.build_system, p) {
        None => Ok(true),
        Some(m) => match marker {
            None => Ok(false),
            Some(Err(msg)) => Err(ErrorView::Io(m, msg@)),
            Some(Ok(t)) => match p.mk_info_path {
                None => Ok(true),
                Some(path) => match mk_info_time {
                    Err(msg) => Err(ErrorView::Io(path@, msg@)),
                    Ok(c) => Ok(t > c),
                },
            },
        },
    }
}

/// The view of a result that carries no strings.
pub open spec fn result_view<T>(r: Result<T, Error>) -> Result<T, ErrorView> {
    match r {
        Ok(v) => Ok(v),
        Err(e) => Err(e@),
    }
}

/// The view of a result that carries a string.
pub open spec fn string_result_view(r: Result<String, Error>) -> Result<Seq<char>, ErrorView> {
    match r {
        Ok(v) => Ok(v@),
        Err(e) => Err(e@),
    }
}

/// The view of a result that carries a command line.
pub open spec fn command_result_view(r: Result<Vec<String>, Error>) -> Result<
    Seq<Seq<char>>,
    ErrorView,
> {
    match r {
        Ok(v) => Ok(v.deep_view()),
        Err(e) => Err(e@),
    }
}

/// The container runtimes looked for, in order of preference.
pub open spec fn runtime_names() -> Seq<Seq<char>> {
    seq!["podman"@, "docker"@]
}

/// The paths at which a container runtime is looked for along the search
/// path `path_var`: each directory in turn, each runtime in turn.
pub open spec fn runtime_candidates_of(path_var: Seq<char>) -> Seq<Seq<char>> {
    let f = fields(path_var, ':');
    Seq::new(2 * f.len(), |i: int| joined(f[i / 2], runtime_names()[i % 2]))
}

/// The first candidate, from index `i` on, that `present` marks as existing.
pub open spec fn first_marked(c: Seq<Seq<char>>, present: Seq<bool>, i: int) -> Option<Seq<char>>
    decreases c.len() - i,
{
    if i < 0 || i >= c.len() {
        None
    } else if i < present.len() && present[i] {
        Some(c[i])
    } else {
        first_marked(c, present, i + 1)
    }
}

/// The container runtime to use: the explicit choice if there is one, else
/// the first candidate along the search path that exists.
pub open spec fn runtime_choice(
    runtime_override: Option<Seq<char>>,
    path_var: Option<Seq<char>>,
    present: Seq<bool>,
) -> Result<Seq<char>, ErrorView> {
    match runtime_override {
        Some(r) => Ok(r),
        None => match path_var {
            None => Err(ErrorView::NoContainerRuntimeFound),
            Some(p) => match first_marked(runtime_candidates_of(p), present, 0) {
                Some(c) => Ok(c),
                None => Err(ErrorView::NoContainerRuntimeFound),
            },
        },
    }
}

/// One `-e<key>=<value>` flag for each environment entry, in order.
pub open spec fn env_flags(env: Seq<(Seq<char>, Seq<char>)>) -> Seq<Seq<char>> {
    Seq::new(env.len(), |i: int| "-e"@ + env[i].0 + "="@ + env[i].1)
}

/// `command` wrapped in a run of the container runtime `runtime` on the
/// image `image`, with the project directory mounted onto itself, the
/// working directory set, the environment forwarded and the container
/// options added.
pub open spec fn container_command(
    p: Project,
    runtime: Seq<char>,
    image: Seq<char>,
    command: Seq<Seq<char>>,
) -> Seq<Seq<char>> {
    seq![
        runtime,
        "run"@,
        "-ti"@,
        "--rm"@,
        "-v"@,
        p.project_dir@ + ":"@ + p.project_dir@,
        "--workdir"@,
        p.work_dir@,
    ] + env_flags(p.env.deep_view()) + match opt_deep(p.container_args) {
        Some(a) => a,
        None => seq![],
    } + seq!["--"@, image] + command
}

/// The command line that runs `command` for `p`: `command` itself, or,
/// when `p` runs in a container, `command` wrapped for the runtime found.
pub open spec fn invocation_of(
    p: Project,
    command: Seq<Seq<char>>,
    runtime: Result<Seq<char>, ErrorView>,
) -> Result<Seq<Seq<char>>, ErrorView> {
    if !p.container {
        Ok(command)
    } else {
        match opt_view(p.container_image) {
            None => Err(ErrorView::MissingContainerImage),
            Some(image) => match runtime {
                Err(e) => Err(e),
                Ok(rt) => Ok(container_command(p, rt, image, command)),
            },
        }
    }
}

/// The paths at which a container runtime is looked for along the search
/// path `path_var` (see [`runtime_candidates_of`]).
pub fn runtime_candidates(path_var: &str) -> (r: Vec<String>)
    ensures
        r.deep_view() == runtime_candidates_of(path_var@),
{
    let dirs = split_fields(path_var, ':');
    let ghost f = fields(path_var@, ':');
    let mut r: Vec<String> = Vec::new();
    let mut i: usize = 0;
    while i < dirs.len()
        invariant
            f == fields(path_var@, ':'),
            dirs.deep_view() == f,
            i <= dirs@.len(),
            r.deep_view() =~= runtime_candidates_of(path_var@).take(2 * i),
        decreases dirs@.len() - i,
    {
        let ghost before = r.deep_view();
        assert(dirs@[i as int]@ == f[i as int]);
        r.push(join_path(dirs[i].as_str(), "podman"));
        r.push(join_path(dirs[i].as_str(), "docker"));
        let ghost full = runtime_candidates_of(path_var@);
        let ghost k: int = 2 * i;
        assert(k / 2 == i && k % 2 == 0 && (k + 1) / 2 == i && (k + 1) % 2 == 1) by {
            assert(k == 2 * i);
        }
        assert(full[k] == joined(f[i as int], "podman"@));
        assert(full[k + 1] == joined(f[i as int], "docker"@));
        assert(r.deep_view() =~= before.push(full[k]).push(full[k + 1]));
        assert(full.take(k + 2) =~= full.take(k).push(full[k]).push(full[k + 1]));
        i = i + 1;
    }
    assert(runtime_candidates_of(path_var@).take(2 * i) =~= runtime_candidates_of(path_var@));
    r
}

impl Project {
    /// The project that `opts`, the working directory `work_dir`, the root
    /// `root`, the mode selector `mode`, the configuration file
    /// `mk_info_path` and its contents `mk_info` describe.
    ///
    /// The configuration is the base merged with each mode that `mode` names,
    /// split at white space, in order. Its environment entries are settled
    /// into one value per key, the last one set (see [`env_of`]). It fails,
    /// with `NoBuildSystemFound`,
    /// exactly when neither the configuration nor the root settle on a build
    /// system.
    pub fn from_opts(
        opts: &Opts,
        work_dir: String,
        root: RootInfo,
        mode: &str,
        mk_info_path: Option<String>,
        mk_info: MkInfo,
    ) -> (r: Result<Project, Error>)
        ensures
            ({
                let b = mk_info@.resolve(words(mode@));
                match r {
                    Ok(p) => assembled(p, opts@, work_dir@, root, b, opt_view(mk_info_path)),
                    Err(e) => chosen_system(b, root.build_system) is None && e
                        == Error::NoBuildSystemFound,
                }
            }),
    {
        let modes = split_words(mode);
        let b = mk_info.resolve(&modes);
        let ghost bv = b@;
        let chosen = match &b.build_system {
            Some(n) => build_system_from_str(n.as_str()),
            None => root.build_system,
        };
        let build_system = match chosen {
            Some(k) => k,
            None => return Err(Error::NoBuildSystemFound),
        };
        let container_image = match b.image() {
            Some(s) => Some(String::from_str(s)),
            None => None,
        };
        let container_args = match b.container_args() {
            Some(v) => Some(copy_strings(v)),
            None => None,
        };
        let BuildInfo { container: _, default, configure, build_system: _, env } = b;
        let configure_args = match configure {
            Some(c) => c,
            None => Vec::new(),
        };
        let build_dir = match &opts.build_dir {
            Some(d) => join_path(root.project_dir.as_str(), d.as_str()),
            None => join_path(root.project_dir.as_str(), "build"),
        };
        let args = if opts.args.len() == 0 {
            match default {
                Some(d) => d.into_vec(),
                None => Vec::new(),
            }
        } else {
            copy_strings(&opts.args)
        };
        let entries = match env {
            Some(e) => e,
            None => Vec::new(),
        };
        assert(entries.deep_view() =~= match bv.env {
            Some(e) => e,
            None => seq![],
        });
        let env = settle_env(&entries);
        let p = Project {
            container_image,
            container_args,
            mk_info_path,
            project_dir: root.project_dir,
            work_dir,
            build_dir,
            configure_args,
            args,
            env,
            build_system,
            container: opts.container,
        };
        assert(p.configure_args.deep_view() =~= match bv.configure {
            Some(c) => c,
            None => seq![],
        });
        assert(p.args.deep_view() =~= if opts@.args.len() == 0 {
            match bv.default {
                Some(d) => d.to_seq(),
                None => seq![],
            }
        } else {
            opts@.args
        });
        Ok(p)
    }

    /// The next step of a build cycle after `ev` (see [`run_step_of`]).
    pub fn run_step(&self, ev: RunEvent) -> (r: RunStep)
        ensures
            r@ == run_step_of(*self, ev),
    {
        match ev {
            RunEvent::Start { reconfigure, configured } => if reconfigure || !configured {
                RunStep::Clean
            } else {
                RunStep::Build(self.build())
            },
            RunEvent::Cleaned => match self.configure() {
                Some(c) => RunStep::Configure(c),
                None => RunStep::Build(self.build()),
            },
            RunEvent::Configured { success } => if success {
                RunStep::Build(self.build())
            } else {
                RunStep::Finish
            },
            RunEvent::Built => RunStep::Finish,
        }
    }

    /// The configure marker of this project's build system.
    pub fn configure_marker(&self) -> (r: Option<String>)
        ensures
            opt_view(r) == marker_of(self.build_system, *self),
    {
        self.build_system.configure_marker(self)
    }

    /// The command line of the build step.
    pub fn build(&self) -> (r: Vec<String>)
        ensures
            r.deep_view() == build_of(self.build_system, *self),
    {
        self.build_system.build_command(self)
    }

    /// The command line of the configure step, when there is one to run: a
    /// command line of one word or none is no step.
    pub fn configure(&self) -> (r: Option<Vec<String>>)
        ensures
            match r {
                Some(c) => configure_of(self.build_system, *self).len() > 1 && c.deep_view()
                    == configure_of(self.build_system, *self),
                None => configure_of(self.build_system, *self).len() <= 1,
            },
    {
        let cmd = self.build_system.configure_command(self);
        if cmd.len() > 1 {
            Some(cmd)
        } else {
            None
        }
    }

    /// Whether the configure step is current (see [`configured`]). `marker`
    /// is `None` when the marker does not exist, else its modification time
    /// or the message of the failure to read it; `mk_info_time` is that of
    /// the configuration file, and only consulted when there is one.
    pub fn is_configured(&self, marker: Option<Result<i128, String>>, mk_info_time: Result<
        i128,
        String,
    >) -> (r: Result<bool, Error>)
        ensures
            result_view(r) == configured(*self, marker, mk_info_time),
    {
        let path = match self.configure_marker() {
            Some(m) => m,
            None => return Ok(true),
        };
        let marker_time = match marker {
            None => return Ok(false),
            Some(Err(msg)) => return Err(Error::Io(path, msg)),
            Some(Ok(t)) => t,
        };
        let mk_info_path = match &self.mk_info_path {
            None => return Ok(true),
            Some(p) => p,
        };
        match mk_info_time {
            Err(msg) => Err(Error::Io(mk_info_path.clone(), msg)),
            Ok(c) => Ok(marker_time > c),
        }
    }

    /// The outcome of removing the build directory, given how the removal
    /// went: a directory that did not exist is no failure.
    pub fn clean(&self, removal: Result<(), IoFailure>) -> (r: Result<(), Error>)
        ensures
            result_view(r) == match removal {
                Ok(()) => Ok(()),
                Err(f) => if f.not_found {
                    Ok(())
                } else {
                    Err(ErrorView::Io(self.build_dir@, f.message@))
                },
            },
    {
        match removal {
            Ok(()) => Ok(()),
            Err(f) => if f.not_found {
                Ok(())
            } else {
                Err(Error::Io(self.build_dir.clone(), f.message))
            },
        }
    }

    /// The container runtime to use (see [`runtime_choice`]): the explicit
    /// choice `runtime_override` if there is one, else the first of
    /// [`runtime_candidates`] of the search path `path_var` that `present`
    /// marks as existing.
    pub fn find_container_runtime(
        &self,
        runtime_override: Option<String>,
        path_var: Option<String>,
        present: &Vec<bool>,
    ) -> (r: Result<String, Error>)
        ensures
            string_result_view(r) == runtime_choice(
                opt_view(runtime_override),
                opt_view(path_var),
                present@,
            ),
    {
        if let Some(rt) = runtime_override {
            return Ok(rt);
        }
        let search = match &path_var {
            Some(p) => p,
            None => return Err(Error::NoContainerRuntimeFound),
        };
        let c = runtime_candidates(search.as_str());
        let ghost cv = c.deep_view();
        let mut i: usize = 0;
        while i < c.len()
            invariant
                cv == c.deep_view(),
                path_var == Some(*search),
                runtime_override is None,
                cv == runtime_candidates_of(search@),
                i <= c@.len(),
                first_marked(cv, present@, 0) == first_marked(cv, present@, i as int),
            decreases c@.len() - i,
        {
            if i < present.len() && present[i] {
                assert(cv[i as int] == c@[i as int]@);
                assert(first_marked(cv, present@, i as int) == Some(cv[i as int]));
                return Ok(c[i].clone());
            }
            i = i + 1;
        }
        Err(Error::NoContainerRuntimeFound)
    }

    /// The command line that runs `command` for this project (see
    /// [`invocation_of`]), given the container runtime found, or the failure
    /// to find one.
    pub fn invocation(&self, command: &Vec<String>, runtime: Result<String, Error>) -> (r: Result<
        Vec<String>,
        Error,
    >)
        ensures
            command_result_view(r) == invocation_of(
                *self,
                command.deep_view(),
                string_result_view(runtime),
            ),
    {
        if !self.container {
            return Ok(copy_strings(command));
        }
        let image = match &self.container_image {
            Some(i) => i,
            None => return Err(Error::MissingContainerImage),
        };
        let runtime = match runtime {
            Ok(rt) => rt,
            Err(e) => return Err(e),
        };
        let mut volume = self.project_dir.clone();
        volume.append(":");
        volume.append(self.project_dir.as_str());
        let mut r = vec![
            runtime,
            String::from_str("run"),
            String::from_str("-ti"),
            String::from_str("--rm"),
            String::from_str("-v"),
            volume,
            String::from_str("--workdir"),
            self.work_dir.clone(),
        ];
        let ghost head = r.deep_view();
        let mut i: usize = 0;
        let ghost env = self.env.deep_view();
        while i < self.env.len()
            invariant
                env == self.env.deep_view(),
                i <= env.len(),
                r.deep_view() == head + env_flags(env).take(i as int),
            decreases env.len() - i,
        {
            let ghost before = r.deep_view();
            let mut flag = String::from_str("-e");
            flag.append(self.env[i].0.as_str());
            flag.append("=");
            flag.append(self.env[i].1.as_str());
            r.push(flag);
            assert(env_flags(env).take(i + 1) =~= env_flags(env).take(i as int).push(
                env_flags(env)[i as int],
            ));
            assert(r.deep_view() =~= before.push(env_flags(env)[i as int]));
            i = i + 1;
        }
        assert(env_flags(env).take(i as int) =~= env_flags(env));
        if let Some(a) = &self.container_args {
            append_strings(&mut r, a);
        }
        let tail = vec![String::from_str("--"), image.clone()];
        append_strings(&mut r, &tail);
        append_strings(&mut r, command);
        assert(r.deep_view() =~= container_command(*self, runtime@, image@, command.deep_view()));
        Ok(r)
    }
}

/// What happened last in a build cycle: the cycle starts (with whether a
/// reconfigure was asked for and whether the configure step is current), the
/// build directory has been cleaned, the configure step ran (with whether it
/// succeeded), or the build step ran.
#[derive(Clone, Copy, Debug, PartialEq, Eq, Structural)]
pub enum RunEvent {
    Start { reconfigure: bool, configured: bool },
    Cleaned,
    Configured { success: bool },
    Built,
}

/// What a build cycle does next.
#[derive(Debug, PartialEq, Eq)]
pub enum RunStep {
    /// Remove the build directory.
    Clean,
    /// Run this configure command line.
    Configure(Vec<String>),
    /// Run this build command line.
    Build(Vec<String>),
    /// The cycle is over.
    Finish,
}

/// The value of a [`RunStep`].
pub enum RunStepView {
    Clean,
    Configure(Seq<Seq<char>>),
    Build(Seq<Seq<char>>),
    Finish,
}

impl View for RunStep {
    type V = RunStepView;

    open spec fn view(&self) -> RunStepView {
        match self {
            RunStep::Clean => RunStepView::Clean,
            RunStep::Configure(c) => RunStepView::Configure(c.deep_view()),
            RunStep::Build(c) => RunStepView::Build(c.deep_view()),
            RunStep::Finish => RunStepView::Finish,
        }
    }
}

/// The next step of a build cycle of `p` after `ev`: a cycle reconfigures
/// (clean, then configure when the build system has a configure command)
/// when asked to or when the configure step is stale, and builds unless the
/// configure step failed.
pub open spec fn run_step_of(p: Project, ev: RunEvent) -> RunStepView {
    match ev {
        RunEvent::Start { reconfigure, configured } => if reconfigure || !configured {
            RunStepView::Clean
        } else {
            RunStepView::Build(build_of(p.build_system, p))
        },
        RunEvent::Cleaned => if configure_of(p.build_system, p).len() > 1 {
            RunStepView::Configure(configure_of(p.build_system, p))
        } else {
            RunStepView::Build(build_of(p.build_system, p))
        },
        RunEvent::Configured { success } => if success {
            RunStepView::Build(build_of(p.build_system, p))
        } else {
            RunStepView::Finish
        },
        RunEvent::Built => RunStepView::Finish,
    }
}

/// Whether a change seen at `now` should trigger a rebuild, the last build
/// having been at `last_build`: only once more than `threshold` has passed.
/// All three are in one unit of time.
pub fn debounce_elapsed(last_build: i128, now: i128, threshold: i128) -> (r: bool)
    ensures
        r == (last_build + threshold < now),
{
    match last_build.checked_add(threshold) {
        Some(s) => s < now,
        None => threshold < 0,
    }
}

} // verus!
