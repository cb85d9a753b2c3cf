use vstd::prelude::*;

use crate::build_system::{build_of, marker_of, BuildSystemKind};
use crate::error::ErrorView;
use crate::mk_info::{first_present, mk_info_lookup, ArgsView, BuildInfoView};
use crate::probe::{mk_info_name, DirFacts, Marker};
use crate::project::{
    configured, generic_signal, has_vcs_root, root_of, scan, walk, DirScan, Project, RootInfo,
};
use crate::build_system::RootIdentificationResult;
use crate::text::joined;

verus! {

/// Walking from index `j` through directories without any signal keeps
/// going with no candidate.
proof fn lemma_walk_skips_quiet(dirs: Seq<DirFacts>, j: int, k: int)
    requires
        0 <= j <= k <= dirs.len(),
        forall|t: int|
            j <= t < k ==> scan(#[trigger] dirs[t]) == Ok::<DirScan, crate::error::Error>(
                DirScan::NotRoot,
            ) && generic_signal(dirs[t]) == Ok::<RootIdentificationResult, crate::error::Error>(
                RootIdentificationResult::NotRoot,
            ),
    ensures
        walk(dirs, j, None, false) == walk(dirs, k, None, false),
    decreases k - j,
{
    if j < k {
        lemma_walk_skips_quiet(dirs, j + 1, k);
    }
}

/// A root of version control ends the walk at its directory, with no build
/// system, when no detector fires in it or in any directory below it and no
/// other generic signal comes first.
pub proof fn lemma_vcs_root_without_build_tool(dirs: Seq<DirFacts>, d: int)
    requires
        0 <= d < dirs.len(),
        has_vcs_root(dirs[d]),
        forall|t: int|
            0 <= t <= d ==> scan(#[trigger] dirs[t]) == Ok::<DirScan, crate::error::Error>(
                DirScan::NotRoot,
            ),
        forall|t: int|
            0 <= t < d ==> generic_signal(#[trigger] dirs[t]) == Ok::<
                RootIdentificationResult,
                crate::error::Error,
            >(RootIdentificationResult::NotRoot),
    ensures
        root_of(dirs) == Ok::<RootInfo, crate::error::Error>(
            RootInfo { build_system: None, project_dir: dirs[d].path },
        ),
{
    lemma_walk_skips_quiet(dirs, 0, d);
    assert(scan(dirs[d]) == Ok::<DirScan, crate::error::Error>(DirScan::NotRoot));
}

/// Through directories where detectors only find the root plausible, the
/// walk goes on up to the first directory that a detector claims.
proof fn lemma_walk_reaches_claim(
    dirs: Seq<DirFacts>,
    j: int,
    maybe: Option<RootInfo>,
    k: int,
    b: BuildSystemKind,
)
    requires
        0 <= j <= k < dirs.len(),
        scan(dirs[k]) == Ok::<DirScan, crate::error::Error>(DirScan::IsRoot(b)),
        forall|t: int| j <= t < k ==> (#[trigger] scan(dirs[t])) matches Ok(DirScan::MaybeRoot(_)),
        forall|t: int|
            j <= t < k ==> generic_signal(#[trigger] dirs[t]) == Ok::<
                RootIdentificationResult,
                crate::error::Error,
            >(RootIdentificationResult::NotRoot),
    ensures
        walk(dirs, j, maybe, false) == Ok::<Option<RootInfo>, crate::error::Error>(
            Some(RootInfo { build_system: Some(b), project_dir: dirs[k].path }),
        ),
    decreases k - j,
{
    if j < k {
        let next = match scan(dirs[j]) {
            Ok(DirScan::MaybeRoot(m)) => Some(RootInfo { build_system: Some(m), project_dir: dirs[j].path }),
            _ => None,
        };
        lemma_walk_reaches_claim(dirs, j + 1, next, k, b);
    }
}

/// A detector that claims a directory wins over every candidate that merely
/// plausible roots nearer the start put up, whichever detectors those came
/// from, as long as the walk reaches it: no directory in between lacks a
/// candidate, and no generic signal stops the walk first.
///
/// `first` is the nearest directory with a candidate and `k` the claimed one.
pub proof fn lemma_claim_beats_candidates(dirs: Seq<DirFacts>, first: int, k: int, b: BuildSystemKind)
    requires
        0 <= first <= k < dirs.len(),
        scan(dirs[k]) == Ok::<DirScan, crate::error::Error>(DirScan::IsRoot(b)),
        forall|t: int|
            0 <= t < first ==> scan(#[trigger] dirs[t]) == Ok::<DirScan, crate::error::Error>(
                DirScan::NotRoot,
            ),
        forall|t: int|
            first <= t < k ==> (#[trigger] scan(dirs[t])) matches Ok(DirScan::MaybeRoot(_)),
        forall|t: int|
            0 <= t < k ==> generic_signal(#[trigger] dirs[t]) == Ok::<
                RootIdentificationResult,
                crate::error::Error,
            >(RootIdentificationResult::NotRoot),
    ensures
        root_of(dirs) == Ok::<RootInfo, crate::error::Error>(
            RootInfo { build_system: Some(b), project_dir: dirs[k].path },
        ),
{
    lemma_walk_skips_quiet(dirs, 0, first);
    lemma_walk_reaches_claim(dirs, first, None, k, b);
}

/// Two directories in a row that the same detector finds plausible, then
/// one without any detector candidate: the walk settles on the second,
/// provided it gets there (nothing stops it before the first).
pub proof fn lemma_last_of_consecutive_candidates(dirs: Seq<DirFacts>, i: int, b: BuildSystemKind)
    requires
        0 <= i && i + 2 < dirs.len(),
        forall|t: int|
            0 <= t < i ==> scan(#[trigger] dirs[t]) == Ok::<DirScan, crate::error::Error>(
                DirScan::NotRoot,
            ) && generic_signal(dirs[t]) == Ok::<RootIdentificationResult, crate::error::Error>(
                RootIdentificationResult::NotRoot,
            ),
        scan(dirs[i]) == Ok::<DirScan, crate::error::Error>(DirScan::MaybeRoot(b)),
        scan(dirs[i + 1]) == Ok::<DirScan, crate::error::Error>(DirScan::MaybeRoot(b)),
        generic_signal(dirs[i]) == Ok::<RootIdentificationResult, crate::error::Error>(
            RootIdentificationResult::NotRoot,
        ),
        generic_signal(dirs[i + 1]) == Ok::<RootIdentificationResult, crate::error::Error>(
            RootIdentificationResult::NotRoot,
        ),
        scan(dirs[i + 2]) == Ok::<DirScan, crate::error::Error>(DirScan::NotRoot),
    ensures
        root_of(dirs) == Ok::<RootInfo, crate::error::Error>(
            RootInfo { build_system: Some(b), project_dir: dirs[i + 1].path },
        ),
{
    lemma_walk_skips_quiet(dirs, 0, i);
    let first = Some(RootInfo { build_system: Some(b), project_dir: dirs[i].path });
    let second = Some(RootInfo { build_system: Some(b), project_dir: dirs[i + 1].path });
    assert(walk(dirs, i + 2, second, false) == Ok::<Option<RootInfo>, crate::error::Error>(second));
    assert(walk(dirs, i + 1, first, false) == walk(dirs, i + 2, second, false));
    assert(walk(dirs, i, None, false) == walk(dirs, i + 1, first, false));
}

/// Merging keeps the accumulator's scalar values and puts its list entries
/// first: a build system set on the left survives any overlay, and two
/// configure lists, two default argument lists or two environments are
/// concatenated, left one first.
pub proof fn lemma_merge_prefers_accumulator(a: BuildInfoView, b: BuildInfoView)
    ensures
        a.build_system is Some ==> a.merge(b).build_system == a.build_system,
        a.container is Some ==> a.merge(b).container == a.container,
        a.default is Some && b.default is Some ==> a.merge(b).default == Some(
            ArgsView::Many(a.default.unwrap().to_seq() + b.default.unwrap().to_seq()),
        ),
        b.default is None ==> a.merge(b).default == a.default,
        a.configure is Some && b.configure is Some ==> a.merge(b).configure == Some(
            a.configure.unwrap() + b.configure.unwrap(),
        ),
        a.env is Some && b.env is Some ==> a.merge(b).env == Some(a.env.unwrap() + b.env.unwrap()),
{
}

/// Merging is associative, so a chain of mode overlays can be grouped in
/// any way, and the empty configuration changes nothing on either side.
pub proof fn lemma_merge_associative(a: BuildInfoView, b: BuildInfoView, c: BuildInfoView)
    ensures
        a.merge(b).merge(c) == a.merge(b.merge(c)),
        a.merge(BuildInfoView::empty()) == a,
        BuildInfoView::empty().merge(a) == a,
{
    match (a.configure, b.configure, c.configure) {
        (Some(x), Some(y), Some(z)) => {
            assert(x + y + z =~= x + (y + z));
        },
        _ => {},
    }
    match (a.default, b.default, c.default) {
        (Some(x), Some(y), Some(z)) => {
            assert(x.to_seq() + y.to_seq() + z.to_seq() =~= x.to_seq() + (y.to_seq() + z.to_seq()));
        },
        _ => {},
    }
    match (a.env, b.env, c.env) {
        (Some(x), Some(y), Some(z)) => {
            assert(x + y + z =~= x + (y + z));
        },
        _ => {},
    }
}

/// A configuration file edited after the configure marker was written makes
/// the project stale; a marker written after the edit makes it current again.
pub proof fn lemma_edit_invalidates_configuration(
    p: Project,
    marker_time: i128,
    edit_time: i128,
    regenerated_time: i128,
)
    requires
        marker_of(p.build_system, p) is Some,
        p.mk_info_path is Some,
        marker_time <= edit_time < regenerated_time,
    ensures
        configured(p, Some(Ok(marker_time)), Ok(edit_time)) == Ok::<bool, ErrorView>(false),
        configured(p, Some(Ok(regenerated_time)), Ok(edit_time)) == Ok::<bool, ErrorView>(true),
{
}

/// The first present candidate from `from` on exists and comes no later
/// than any present candidate `m` at or after `from`.
proof fn lemma_first_present_bound(d: DirFacts, from: int, m: int)
    requires
        0 <= from <= m < 15,
        d.kind(Marker::MkInfo(m as usize)) is Some,
    ensures
        first_present(d, from) matches Some(x) && from <= x <= m,
    decreases m - from,
{
    if d.kind(Marker::MkInfo(from as usize)) is None {
        lemma_first_present_bound(d, from + 1, m);
    }
}

/// The first present candidate from `from` on is `x` when `x` is present
/// and nothing between `from` and `x` is.
proof fn lemma_first_present_exact(d: DirFacts, from: int, x: int)
    requires
        0 <= from <= x < 15,
        d.kind(Marker::MkInfo(x as usize)) is Some,
        forall|t: int| from <= t < x ==> (#[trigger] d.kind(Marker::MkInfo(t as usize))) is None,
    ensures
        first_present(d, from) == Some(x),
    decreases x - from,
{
    if from < x {
        lemma_first_present_exact(d, from + 1, x);
    }
}

/// Two candidate configuration files present at once are a conflict; when
/// no other candidate comes before the second, the conflict names exactly
/// those two, in the order in which they are looked for.
pub proof fn lemma_two_config_files_conflict(d: DirFacts, i: int, j: int)
    requires
        0 <= i < j < 15,
        d.kind(Marker::MkInfo(i as usize)) is Some,
        d.kind(Marker::MkInfo(j as usize)) is Some,
    ensures
        mk_info_lookup(d) matches Err(ErrorView::ConflictingMk(_, _)),
        (forall|t: int| 0 <= t < j && t != i ==> (#[trigger] d.kind(Marker::MkInfo(t as usize))) is None)
            ==> mk_info_lookup(d) == Err::<Option<Seq<char>>, ErrorView>(
            ErrorView::ConflictingMk(
                joined(d.path@, mk_info_name(i)),
                joined(d.path@, mk_info_name(j)),
            ),
        ),
{
    lemma_first_present_bound(d, 0, i);
    let x = first_present(d, 0)->Some_0;
    lemma_first_present_bound(d, x + 1, j);
    if forall|t: int| 0 <= t < j && t != i ==> (#[trigger] d.kind(Marker::MkInfo(t as usize))) is None {
        lemma_first_present_exact(d, 0, i);
        lemma_first_present_exact(d, i + 1, j);
    }
}

/// A start directory that holds only a makefile, below a directory in which
/// no detector fires (or at the top of the tree), is the root of a plain
/// makefile project.
pub proof fn lemma_makefile_only_root(dirs: Seq<DirFacts>)
    requires
        dirs.len() >= 1,
        dirs[0].entries@ == seq![
            crate::probe::Entry { marker: Marker::Makefile, kind: crate::probe::EntryKind::File },
        ],
        dirs[0].meson_build is None,
        dirs[0].editor_config is None,
        dirs.len() == 1 || scan(dirs[1]) == Ok::<DirScan, crate::error::Error>(DirScan::NotRoot),
    ensures
        root_of(dirs) == Ok::<RootInfo, crate::error::Error>(
            RootInfo { build_system: Some(BuildSystemKind::Make), project_dir: dirs[0].path },
        ),
{
    let d = dirs[0];
    assert(d.entries@.drop_first() =~= seq![]);
    reveal_with_fuel(crate::probe::kind_in, 2);
    assert(d.kind(Marker::MesonOptions) is None);
    assert(d.kind(Marker::CargoToml) is None);
    assert(d.kind(Marker::CMakeLists) is None);
    assert(d.kind(Marker::Makefile) == Some(crate::probe::EntryKind::File));
    assert(d.kind(Marker::Git) is None);
    assert(d.kind(Marker::Mercurial) is None);
    assert(d.kind(Marker::Darcs) is None);
    assert(d.kind(Marker::Bazaar) is None);
    assert(d.kind(Marker::Subversion) is None);
    assert(d.kind(Marker::Cvs) is None);
    reveal_with_fuel(crate::project::scan_from, 5);
    assert(scan(d) == Ok::<DirScan, crate::error::Error>(DirScan::MaybeRoot(BuildSystemKind::Make)));
    assert(generic_signal(d) == Ok::<RootIdentificationResult, crate::error::Error>(
        RootIdentificationResult::NotRoot,
    ));
    let here = Some(RootInfo { build_system: Some(BuildSystemKind::Make), project_dir: d.path });
    assert(walk(dirs, 1, here, false) == Ok::<Option<RootInfo>, crate::error::Error>(here));
}

/// A plain makefile project is always configured, whatever the probes of a
/// marker and a configuration file say, and builds with `make -C` on the
/// project directory followed by the trailing arguments.
pub proof fn lemma_makefile_project_commands(
    p: Project,
    marker: Option<Result<i128, String>>,
    mk_info_time: Result<i128, String>,
)
    requires
        p.build_system == BuildSystemKind::Make,
    ensures
        configured(p, marker, mk_info_time) == Ok::<bool, ErrorView>(true),
        build_of(p.build_system, p) == seq!["make"@, "-C"@, p.project_dir@] + p.args.deep_view(),
{
}

} // verus!
