use mk::build_system::{build_system_from_str, BuildSystem, BuildSystemKind, CMake, Cargo, Make, Meson};
use mk::error::{Error, IoFailure};
use mk::mk_info::{BuildInfo, ContainerDef, MkInfo, StringOrArray};
use mk::opts::Opts;
use mk::project::{debounce_elapsed, find_root, runtime_candidates, Project, RootInfo, RunEvent, RunStep};
use mk::probe::{DirFacts, Entry, EntryKind, Marker};

fn strings(v: &[&str]) -> Vec<String> {
    v.iter().map(|s| s.to_string()).collect()
}

fn empty() -> BuildInfo {
    BuildInfo { container: None, default: None, configure: None, build_system: None, env: None }
}

fn opts(args: &[&str]) -> Opts {
    Opts {
        args: strings(args),
        build_dir: None,
        clean: false,
        container: false,
        cwd: ".".to_string(),
        reconfigure: false,
        watch: false,
    }
}

fn project(kind: BuildSystemKind, args: &[&str]) -> Project {
    Project {
        container_image: None,
        container_args: None,
        mk_info_path: Some("/p/Mk".to_string()),
        project_dir: "/p".to_string(),
        work_dir: "/p/src".to_string(),
        build_dir: "/p/build".to_string(),
        configure_args: strings(&["-DX=1"]),
        args: strings(args),
        env: vec![],
        build_system: kind,
        container: false,
    }
}

fn root(kind: Option<BuildSystemKind>) -> RootInfo {
    RootInfo { build_system: kind, project_dir: "/p".to_string() }
}

#[test]
fn names_of_build_systems() {
    assert_eq!(build_system_from_str("cargo"), Some(BuildSystemKind::Cargo));
    assert_eq!(build_system_from_str("cmake"), Some(BuildSystemKind::CMake));
    assert_eq!(build_system_from_str("make"), Some(BuildSystemKind::Make));
    assert_eq!(build_system_from_str("meson"), Some(BuildSystemKind::Meson));
    assert_eq!(build_system_from_str("ninja"), None);
    assert_eq!(build_system_from_str("Make"), None);
    assert_eq!(build_system_from_str(""), None);
}

#[test]
fn cargo_commands() {
    let p = project(BuildSystemKind::Cargo, &[]);
    assert_eq!(Cargo.build_command(&p), strings(&["cargo", "build"]));
    assert_eq!(Cargo.configure_command(&p), Vec::<String>::new());
    assert_eq!(Cargo.configure_marker(&p), None);
    let p = project(BuildSystemKind::Cargo, &["test", "--release"]);
    assert_eq!(p.build(), strings(&["cargo", "test", "--release"]));
    assert_eq!(p.configure(), None);
}

#[test]
fn cmake_commands() {
    let p = project(BuildSystemKind::CMake, &["install"]);
    assert_eq!(
        CMake.configure_command(&p),
        strings(&["cmake", "-DX=1", "-G", "Unix Makefiles", "-S", "/p", "-B", "/p/build"])
    );
    assert_eq!(p.build(), strings(&["make", "-C", "/p/build", "install"]));
    assert_eq!(p.configure_marker(), Some("/p/build/build.ninja".to_string()));
    assert_eq!(p.configure(), Some(CMake.configure_command(&p)));
}

#[test]
fn meson_commands() {
    let p = project(BuildSystemKind::Meson, &["test"]);
    assert_eq!(Meson.configure_command(&p), strings(&["meson", "setup", "-DX=1", "/p/build", "/p"]));
    assert_eq!(Meson.build_command(&p), strings(&["ninja", "-C", "/p/build", "test"]));
    assert_eq!(Meson.configure_marker(&p), Some("/p/build/build.ninja".to_string()));
}

#[test]
fn make_commands() {
    let p = project(BuildSystemKind::Make, &["-j4", "all"]);
    assert_eq!(Make.build_command(&p), strings(&["make", "-C", "/p", "-j4", "all"]));
    assert_eq!(p.configure(), None);
    assert_eq!(p.configure_marker(), None);
}

#[test]
fn makefile_project_end_to_end() {
    let dirs = vec![
        DirFacts {
            path: "/home/u/proj".to_string(),
            entries: vec![Entry { marker: Marker::Makefile, kind: EntryKind::File }],
            meson_build: None,
            editor_config: None,
        },
        DirFacts { path: "/home/u".to_string(), entries: vec![], meson_build: None, editor_config: None },
    ];
    let found = find_root(&dirs).unwrap();
    assert_eq!(found.build_system, Some(BuildSystemKind::Make));
    let p = Project::from_opts(&opts(&["clean", "all"]), "/home/u/proj".to_string(), found, "default", None, MkInfo::default())
        .unwrap();
    assert_eq!(p.build(), strings(&["make", "-C", "/home/u/proj", "clean", "all"]));
    assert_eq!(p.is_configured(None, Err("no file".to_string())), Ok(true));
}

#[test]
fn stale_after_config_edit_and_current_after_reconfigure() {
    let p = project(BuildSystemKind::CMake, &[]);
    assert_eq!(p.is_configured(Some(Ok(100)), Ok(50)), Ok(true));
    assert_eq!(p.is_configured(Some(Ok(100)), Ok(150)), Ok(false));
    assert_eq!(p.is_configured(Some(Ok(150)), Ok(150)), Ok(false));
    assert_eq!(p.is_configured(Some(Ok(200)), Ok(150)), Ok(true));
}

#[test]
fn configured_without_marker_or_config_file() {
    let p = project(BuildSystemKind::Meson, &[]);
    assert_eq!(p.is_configured(None, Ok(0)), Ok(false));
    assert_eq!(
        p.is_configured(Some(Err("denied".to_string())), Ok(0)),
        Err(Error::Io("/p/build/build.ninja".to_string(), "denied".to_string()))
    );
    assert_eq!(
        p.is_configured(Some(Ok(5)), Err("gone".to_string())),
        Err(Error::Io("/p/Mk".to_string(), "gone".to_string()))
    );
    let mut q = project(BuildSystemKind::Meson, &[]);
    q.mk_info_path = None;
    assert_eq!(q.is_configured(Some(Ok(5)), Err("ignored".to_string())), Ok(true));
}

#[test]
fn clean_outcomes() {
    let p = project(BuildSystemKind::Make, &[]);
    assert_eq!(p.clean(Ok(())), Ok(()));
    assert_eq!(p.clean(Err(IoFailure { not_found: true, message: "missing".to_string() })), Ok(()));
    assert_eq!(
        p.clean(Err(IoFailure { not_found: false, message: "busy".to_string() })),
        Err(Error::Io("/p/build".to_string(), "busy".to_string()))
    );
}

#[test]
fn from_opts_uses_configuration() {
    let mk = MkInfo {
        base: BuildInfo {
            default: Some(StringOrArray::String("all".to_string())),
            configure: Some(strings(&["-Da=1"])),
            env: Some(vec![("CC".to_string(), "clang".to_string())]),
            container: Some(ContainerDef::Definition { image: "img".to_string(), opts: Some(strings(&["--privileged"])) }),
            ..empty()
        },
        mode: Some(vec![(
            "release".to_string(),
            BuildInfo { configure: Some(strings(&["-Db=2"])), build_system: Some("meson".to_string()), ..empty() },
        )]),
    };
    let mut o = opts(&[]);
    o.build_dir = Some("out".to_string());
    let p = Project::from_opts(&o, "/p/sub".to_string(), root(Some(BuildSystemKind::Make)), " release\tother ", Some("/p/Mk".to_string()), mk)
        .unwrap();
    assert_eq!(p.build_system, BuildSystemKind::Meson);
    assert_eq!(p.build_dir, "/p/out");
    assert_eq!(p.work_dir, "/p/sub");
    assert_eq!(p.project_dir, "/p");
    assert_eq!(p.configure_args, strings(&["-Da=1", "-Db=2"]));
    assert_eq!(p.args, strings(&["all"]));
    assert_eq!(p.env, vec![("CC".to_string(), "clang".to_string())]);
    assert_eq!(p.container_image, Some("img".to_string()));
    assert_eq!(p.container_args, Some(strings(&["--privileged"])));
    assert_eq!(p.mk_info_path, Some("/p/Mk".to_string()));
}

#[test]
fn from_opts_defaults() {
    let p = Project::from_opts(&opts(&["x"]), "/p".to_string(), root(Some(BuildSystemKind::Cargo)), "default", None, MkInfo::default())
        .unwrap();
    assert_eq!(p.build_dir, "/p/build");
    assert_eq!(p.args, strings(&["x"]));
    assert_eq!(p.configure_args, Vec::<String>::new());
    assert_eq!(p.container_image, None);
    let mut o = opts(&[]);
    o.build_dir = Some("/tmp/b".to_string());
    let p = Project::from_opts(&o, "/p".to_string(), root(Some(BuildSystemKind::Cargo)), "", None, MkInfo::default()).unwrap();
    assert_eq!(p.build_dir, "/tmp/b");
    assert_eq!(p.args, Vec::<String>::new());
}

#[test]
fn from_opts_without_build_system_fails() {
    let r = Project::from_opts(&opts(&[]), "/p".to_string(), root(None), "default", None, MkInfo::default());
    assert_eq!(r.unwrap_err(), Error::NoBuildSystemFound);
    let mk = MkInfo { base: BuildInfo { build_system: Some("scons".to_string()), ..empty() }, mode: None };
    let r = Project::from_opts(&opts(&[]), "/p".to_string(), root(Some(BuildSystemKind::Make)), "default", None, mk);
    assert_eq!(r.unwrap_err(), Error::NoBuildSystemFound);
    let mk = MkInfo { base: BuildInfo { build_system: Some("cmake".to_string()), ..empty() }, mode: None };
    let p = Project::from_opts(&opts(&[]), "/p".to_string(), root(None), "default", None, mk).unwrap();
    assert_eq!(p.build_system, BuildSystemKind::CMake);
}

#[test]
fn container_invocation() {
    let mut p = project(BuildSystemKind::Make, &[]);
    p.container = true;
    p.env = vec![("A".to_string(), "1".to_string()), ("B".to_string(), "x y".to_string())];
    p.container_args = Some(strings(&["--net=host"]));
    let cmd = strings(&["make", "-C", "/p"]);
    assert_eq!(p.invocation(&cmd, Ok("/usr/bin/podman".to_string())), Err(Error::MissingContainerImage));
    p.container_image = Some("img:1".to_string());
    assert_eq!(
        p.invocation(&cmd, Ok("/usr/bin/podman".to_string())),
        Ok(strings(&[
            "/usr/bin/podman", "run", "-ti", "--rm", "-v", "/p:/p", "--workdir", "/p/src", "-eA=1", "-eB=x y",
            "--net=host", "--", "img:1", "make", "-C", "/p",
        ]))
    );
    assert_eq!(p.invocation(&cmd, Err(Error::NoContainerRuntimeFound)), Err(Error::NoContainerRuntimeFound));
    p.container = false;
    assert_eq!(p.invocation(&cmd, Err(Error::NoContainerRuntimeFound)), Ok(cmd.clone()));
}

#[test]
fn container_runtime_search() {
    let p = project(BuildSystemKind::Make, &[]);
    assert_eq!(
        runtime_candidates("/bin:/usr/bin/"),
        strings(&["/bin/podman", "/bin/docker", "/usr/bin/podman", "/usr/bin/docker"])
    );
    assert_eq!(runtime_candidates(""), strings(&["podman", "docker"]));
    assert_eq!(
        p.find_container_runtime(None, Some("/bin:/usr/bin".to_string()), &vec![false, false, false, true]),
        Ok("/usr/bin/docker".to_string())
    );
    assert_eq!(
        p.find_container_runtime(None, Some("/bin:/usr/bin".to_string()), &vec![false, true, true, true]),
        Ok("/bin/docker".to_string())
    );
    assert_eq!(
        p.find_container_runtime(Some("/opt/rt".to_string()), None, &vec![]),
        Ok("/opt/rt".to_string())
    );
    assert_eq!(p.find_container_runtime(None, None, &vec![true]), Err(Error::NoContainerRuntimeFound));
    assert_eq!(
        p.find_container_runtime(None, Some("/bin".to_string()), &vec![false, false]),
        Err(Error::NoContainerRuntimeFound)
    );
}

#[test]
fn debounce() {
    assert!(!debounce_elapsed(1000, 1050, 100));
    assert!(!debounce_elapsed(1000, 1100, 100));
    assert!(debounce_elapsed(1000, 1101, 100));
    assert!(!debounce_elapsed(i128::MAX - 10, i128::MAX, 100));
}

#[test]
fn parse_options() {
    assert_eq!(Opts::parse(&strings(&["-h"])), Ok(None));
    assert_eq!(Opts::parse(&strings(&["--help"])), Ok(None));
    let o = Opts::parse(&strings(&["-mw", "-h", "-mC", "/src", "-mB", "out", "-mc", "-mR", "x", "--", "-mw", "y"]))
        .unwrap()
        .unwrap();
    assert_eq!(
        o,
        Opts {
            args: strings(&["-h", "x", "-mw", "y"]),
            build_dir: Some("out".to_string()),
            clean: true,
            container: false,
            cwd: "/src".to_string(),
            reconfigure: true,
            watch: true,
        }
    );
    assert_eq!(Opts::parse(&strings(&["-mC"])), Err(Error::MissingArgument("-mC".to_string())));
    assert_eq!(Opts::parse(&strings(&["a", "-mB"])), Err(Error::MissingArgument("-mB".to_string())));
    assert_eq!(Opts::parse(&vec![]).unwrap().unwrap().cwd, ".");
}

#[test]
fn build_cycle_steps() {
    let p = project(BuildSystemKind::Meson, &["test"]);
    let build = RunStep::Build(strings(&["ninja", "-C", "/p/build", "test"]));
    assert_eq!(p.run_step(RunEvent::Start { reconfigure: false, configured: true }), build);
    assert_eq!(p.run_step(RunEvent::Start { reconfigure: true, configured: true }), RunStep::Clean);
    assert_eq!(p.run_step(RunEvent::Start { reconfigure: false, configured: false }), RunStep::Clean);
    assert_eq!(
        p.run_step(RunEvent::Cleaned),
        RunStep::Configure(strings(&["meson", "setup", "-DX=1", "/p/build", "/p"]))
    );
    assert_eq!(p.run_step(RunEvent::Configured { success: true }), build);
    assert_eq!(p.run_step(RunEvent::Configured { success: false }), RunStep::Finish);
    assert_eq!(p.run_step(RunEvent::Built), RunStep::Finish);
    let c = project(BuildSystemKind::Cargo, &[]);
    assert_eq!(c.run_step(RunEvent::Cleaned), RunStep::Build(strings(&["cargo", "build"])));
}

#[test]
fn from_opts_settles_environment_and_joins_defaults() {
    let mk = MkInfo {
        base: BuildInfo {
            default: Some(StringOrArray::String("all".to_string())),
            env: Some(vec![("CC".to_string(), "gcc".to_string()), ("V".to_string(), "1".to_string())]),
            ..empty()
        },
        mode: Some(vec![(
            "clang".to_string(),
            BuildInfo {
                default: Some(StringOrArray::Array(strings(&["check"]))),
                env: Some(vec![("CC".to_string(), "clang".to_string())]),
                ..empty()
            },
        )]),
    };
    let p = Project::from_opts(&opts(&[]), "/p".to_string(), root(Some(BuildSystemKind::Make)), "clang", None, mk).unwrap();
    assert_eq!(p.env, vec![("CC".to_string(), "clang".to_string()), ("V".to_string(), "1".to_string())]);
    assert_eq!(p.args, strings(&["all", "check"]));
}
