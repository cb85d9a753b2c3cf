use mk::build_system::{BuildSystem, BuildSystemKind, Cargo, CMake, Make, Meson, RootIdentificationResult};
use mk::editor_config::EditorConfig;
use mk::error::Error;
use mk::probe::{DirFacts, Entry, EntryKind, LineFile, Marker};
use mk::project::{find_root, is_project_root, scan_detectors, DirScan, RootInfo};

fn dir(path: &str, entries: &[(Marker, EntryKind)]) -> DirFacts {
    DirFacts {
        path: path.to_string(),
        entries: entries.iter().map(|(m, k)| Entry { marker: *m, kind: *k }).collect(),
        meson_build: None,
        editor_config: None,
    }
}

fn lines(text: &[&str], failure: Option<Error>) -> Option<LineFile> {
    Some(LineFile { lines: text.iter().map(|s| s.to_string()).collect(), failure })
}

fn root(build_system: Option<BuildSystemKind>, path: &str) -> RootInfo {
    RootInfo { build_system, project_dir: path.to_string() }
}

#[test]
fn vcs_root_without_build_tool_is_root_without_build_system() {
    let dirs = vec![
        dir("/repo/a/b", &[]),
        dir("/repo/a", &[]),
        dir("/repo", &[(Marker::Git, EntryKind::Dir)]),
        dir("/", &[]),
    ];
    assert_eq!(find_root(&dirs), Ok(root(None, "/repo")));
}

#[test]
fn vcs_marker_that_is_a_file_is_no_signal() {
    let dirs = vec![dir("/w/a", &[(Marker::Makefile, EntryKind::File)]), dir("/w", &[(Marker::Git, EntryKind::File)])];
    assert_eq!(find_root(&dirs), Ok(root(Some(BuildSystemKind::Make), "/w/a")));
}

#[test]
fn build_tool_at_vcs_root_is_kept() {
    let dirs = vec![
        dir("/repo/src", &[]),
        dir("/repo", &[(Marker::Git, EntryKind::Dir), (Marker::CargoToml, EntryKind::File)]),
    ];
    assert_eq!(find_root(&dirs), Ok(root(Some(BuildSystemKind::Cargo), "/repo")));
}

#[test]
fn cmake_above_cargo_wins() {
    let dirs = vec![
        dir("/p/crate", &[(Marker::CargoToml, EntryKind::File)]),
        dir("/p", &[(Marker::CMakeLists, EntryKind::File)]),
        dir("/", &[]),
    ];
    assert_eq!(find_root(&dirs), Ok(root(Some(BuildSystemKind::CMake), "/p")));
}

#[test]
fn cmake_above_makefiles_wins_through_a_chain_of_candidates() {
    let dirs = vec![
        dir("/p/a/b", &[(Marker::Makefile, EntryKind::File)]),
        dir("/p/a", &[(Marker::CargoToml, EntryKind::File)]),
        dir("/p", &[(Marker::CMakeLists, EntryKind::File), (Marker::Makefile, EntryKind::File)]),
    ];
    assert_eq!(find_root(&dirs), Ok(root(Some(BuildSystemKind::CMake), "/p")));
}

#[test]
fn gap_between_candidate_and_claim_ends_the_walk() {
    let dirs = vec![
        dir("/p/a/crate", &[(Marker::CargoToml, EntryKind::File)]),
        dir("/p/a", &[]),
        dir("/p", &[(Marker::CMakeLists, EntryKind::File)]),
    ];
    assert_eq!(find_root(&dirs), Ok(root(Some(BuildSystemKind::Cargo), "/p/a/crate")));
}

#[test]
fn two_consecutive_candidates_then_nothing_gives_the_second() {
    let dirs = vec![
        dir("/w/p/sub", &[(Marker::Makefile, EntryKind::File)]),
        dir("/w/p", &[(Marker::Makefile, EntryKind::File)]),
        dir("/w", &[]),
        dir("/", &[(Marker::Makefile, EntryKind::File)]),
    ];
    assert_eq!(find_root(&dirs), Ok(root(Some(BuildSystemKind::Make), "/w/p")));
}

#[test]
fn candidate_at_filesystem_root_is_taken() {
    let dirs = vec![dir("/x", &[(Marker::CargoToml, EntryKind::File)]), dir("/", &[(Marker::CargoToml, EntryKind::File)])];
    assert_eq!(find_root(&dirs), Ok(root(Some(BuildSystemKind::Cargo), "/")));
}

#[test]
fn nothing_anywhere_is_no_project_root() {
    let dirs = vec![dir("/a/b", &[]), dir("/a", &[]), dir("/", &[])];
    assert_eq!(find_root(&dirs), Err(Error::NoProjectRootFound));
}

#[test]
fn empty_ancestor_list_is_no_project_root() {
    assert_eq!(find_root(&vec![]), Err(Error::NoProjectRootFound));
}

#[test]
fn subversion_latch_stops_at_first_directory_without_it() {
    let dirs = vec![
        dir("/co/a", &[(Marker::Subversion, EntryKind::Dir)]),
        dir("/co", &[(Marker::Subversion, EntryKind::Dir)]),
        dir("/", &[]),
    ];
    // The first directory leaves a bare candidate; the second has no detector
    // candidate, so the walk ends in favour of the first.
    assert_eq!(find_root(&dirs), Ok(root(None, "/co/a")));
}

#[test]
fn subversion_candidate_then_quiet_directory_ends_walk() {
    let dirs = vec![
        dir("/co/a", &[(Marker::Makefile, EntryKind::File)]),
        dir("/co", &[(Marker::Makefile, EntryKind::File), (Marker::Cvs, EntryKind::Dir)]),
        dir("/", &[(Marker::Makefile, EntryKind::File)]),
    ];
    // The plausible root of version control sets the latch; the next
    // directory has no such signal, so its own candidate ends the walk.
    assert_eq!(find_root(&dirs), Ok(root(Some(BuildSystemKind::Make), "/")));
}

#[test]
fn editor_config_root_ends_walk() {
    let mut top = dir("/e", &[]);
    top.editor_config = Some(Ok(EditorConfig { root: true }));
    let dirs = vec![dir("/e/x", &[]), top, dir("/", &[(Marker::Git, EntryKind::Dir)])];
    assert_eq!(find_root(&dirs), Ok(root(None, "/e")));
}

#[test]
fn editor_config_without_root_flag_is_no_signal() {
    let mut mid = dir("/e", &[]);
    mid.editor_config = Some(Ok(EditorConfig { root: false }));
    let dirs = vec![dir("/e/x", &[]), mid, dir("/", &[(Marker::Git, EntryKind::Dir)])];
    assert_eq!(find_root(&dirs), Ok(root(None, "/")));
}

#[test]
fn unreadable_editor_config_is_an_error() {
    let mut top = dir("/e", &[]);
    top.editor_config = Some(Err(Error::Io("/e/.editorconfig".to_string(), "denied".to_string())));
    let dirs = vec![top];
    assert_eq!(find_root(&dirs), Err(Error::Io("/e/.editorconfig".to_string(), "denied".to_string())));
    assert_eq!(
        is_project_root(&dirs[0]),
        Err(Error::Io("/e/.editorconfig".to_string(), "denied".to_string()))
    );
}

#[test]
fn makefile_only_directory_is_make_root() {
    let dirs = vec![dir("/proj", &[(Marker::Makefile, EntryKind::File)]), dir("/", &[])];
    assert_eq!(find_root(&dirs), Ok(root(Some(BuildSystemKind::Make), "/proj")));
}

#[test]
fn makefile_directory_is_no_makefile() {
    let d = dir("/proj", &[(Marker::Makefile, EntryKind::Dir)]);
    assert_eq!(Make.is_project_root(&d), Ok(RootIdentificationResult::NotRoot));
}

#[test]
fn cmake_lists_of_any_kind_claims_root() {
    let d = dir("/proj", &[(Marker::CMakeLists, EntryKind::Other)]);
    assert_eq!(CMake.is_project_root(&d), Ok(RootIdentificationResult::IsRoot));
    assert_eq!(Cargo.is_project_root(&d), Ok(RootIdentificationResult::NotRoot));
}

#[test]
fn meson_options_claims_root() {
    let d = dir("/m", &[(Marker::MesonOptions, EntryKind::File)]);
    assert_eq!(Meson.is_project_root(&d), Ok(RootIdentificationResult::IsRoot));
}

#[test]
fn meson_build_with_project_declaration_claims_root() {
    let mut d = dir("/m", &[]);
    d.meson_build = lines(&["# top", "", "   project('x', 'c')"], None);
    assert_eq!(Meson.is_project_root(&d), Ok(RootIdentificationResult::IsRoot));
}

#[test]
fn meson_build_without_declaration_is_plausible() {
    let mut d = dir("/m/sub", &[]);
    d.meson_build = lines(&["# project('x')", "executable('a', 'a.c')", "  subdir('b')"], None);
    assert_eq!(Meson.is_project_root(&d), Ok(RootIdentificationResult::MaybeRoot));
}

#[test]
fn meson_build_read_failure_before_declaration_is_error() {
    let mut d = dir("/m", &[]);
    let e = Error::Io("/m/meson.build".to_string(), "bad data".to_string());
    d.meson_build = lines(&["# start"], Some(e));
    assert_eq!(
        Meson.is_project_root(&d),
        Err(Error::Io("/m/meson.build".to_string(), "bad data".to_string()))
    );
}

#[test]
fn meson_build_read_failure_after_declaration_is_root() {
    let mut d = dir("/m", &[]);
    let e = Error::Io("/m/meson.build".to_string(), "bad data".to_string());
    d.meson_build = lines(&["project('x')"], Some(e));
    assert_eq!(Meson.is_project_root(&d), Ok(RootIdentificationResult::IsRoot));
}

#[test]
fn meson_claim_comes_first_in_registry_order() {
    let mut d = dir("/both", &[(Marker::CMakeLists, EntryKind::File)]);
    d.meson_build = lines(&["project('x')"], None);
    assert_eq!(scan_detectors(&d), Ok(DirScan::IsRoot(BuildSystemKind::Meson)));
}

#[test]
fn last_candidate_in_registry_order_is_kept() {
    let d = dir("/both", &[(Marker::CargoToml, EntryKind::File), (Marker::Makefile, EntryKind::File)]);
    assert_eq!(scan_detectors(&d), Ok(DirScan::MaybeRoot(BuildSystemKind::Make)));
    let dirs = vec![d, dir("/", &[])];
    assert_eq!(find_root(&dirs), Ok(root(Some(BuildSystemKind::Make), "/both")));
}

#[test]
fn detector_failure_stops_the_walk() {
    let mut d = dir("/m", &[]);
    d.meson_build = lines(&[], Some(Error::Io("/m/meson.build".to_string(), "gone".to_string())));
    let dirs = vec![dir("/m/a", &[]), d];
    assert_eq!(find_root(&dirs), Err(Error::Io("/m/meson.build".to_string(), "gone".to_string())));
}

#[test]
fn failure_beyond_the_stop_is_never_seen() {
    let mut far = dir("/", &[]);
    far.meson_build = lines(&[], Some(Error::Io("/meson.build".to_string(), "gone".to_string())));
    let dirs = vec![dir("/r", &[(Marker::Git, EntryKind::Dir)]), far];
    assert_eq!(find_root(&dirs), Ok(root(None, "/r")));
}

#[test]
fn generic_heuristic_orders_its_signals() {
    let d = dir("/x", &[(Marker::Subversion, EntryKind::Dir), (Marker::Mercurial, EntryKind::Dir)]);
    assert_eq!(is_project_root(&d), Ok(RootIdentificationResult::IsRoot));
    let d = dir("/x", &[(Marker::Cvs, EntryKind::Dir)]);
    assert_eq!(is_project_root(&d), Ok(RootIdentificationResult::MaybeRoot));
    for m in [Marker::Git, Marker::Mercurial, Marker::Darcs, Marker::Bazaar] {
        let d = dir("/x", &[(m, EntryKind::Dir)]);
        assert_eq!(is_project_root(&d), Ok(RootIdentificationResult::IsRoot));
    }
    assert_eq!(is_project_root(&dir("/x", &[])), Ok(RootIdentificationResult::NotRoot));
}

#[test]
fn marker_names() {
    assert_eq!(Marker::CargoToml.file_name(), "Cargo.toml");
    assert_eq!(Marker::MesonOptions.file_name(), "meson_options.txt");
    assert_eq!(Marker::Darcs.file_name(), "_darcs");
    assert_eq!(Marker::MkInfo(0).file_name(), ".Mk");
    assert_eq!(Marker::MkInfo(14).file_name(), "Mk.yml");
    let all = Marker::all();
    assert_eq!(all.len(), 25);
    assert!(all.contains(&Marker::MkInfo(7)));
}
