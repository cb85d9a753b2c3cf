use vstd::prelude::*;

use crate::editor_config::EditorConfig;
use crate::error::Error;

verus! {

/// A file or directory name that the ancestor walk and the configuration
/// lookup ask about in a directory.
#[derive(Clone, Copy, Debug, PartialEq, Eq, Structural)]
pub enum Marker {
    CargoToml,
    CMakeLists,
    Makefile,
    MesonOptions,
    Git,
    Mercurial,
    Darcs,
    Bazaar,
    Subversion,
    Cvs,
    /// The candidate project-info file of this index in [`mk_info_name`].
    MkInfo(usize),
}

/// What a name found in a directory refers to.
#[derive(Clone, Copy, Debug, PartialEq, Eq, Structural)]
pub enum EntryKind {
    File,
    Dir,
    Other,
}

/// One marker that exists in a directory, with what it is.
#[derive(Clone, Copy, Debug, PartialEq, Eq, Structural)]
pub struct Entry {
    pub marker: Marker,
    pub kind: EntryKind,
}

/// The lines of a text file as far as they could be read, and the failure
/// that stopped the reading, if one did.
#[derive(Debug)]
pub struct LineFile {
    pub lines: Vec<String>,
    pub failure: Option<Error>,
}

/// What the ancestor walk knows of one directory.
///
/// `entries` lists the markers that exist there (an absent marker is not
/// listed); `meson_build` holds the `meson.build` file when it exists, and
/// `editor_config` the parsed `.editorconfig` file, or the failure to read
/// it, when that file exists.
#[derive(Debug)]
pub struct DirFacts {
    pub path: String,
    pub entries: Vec<Entry>,
    pub meson_build: Option<LineFile>,
    pub editor_config: Option<Result<EditorConfig, Error>>,
}

/// Number of candidate project-info file names.
pub const MK_INFO_COUNT: usize = 15;

/// The candidate project-info file names, relative to a project root, in the
/// order in which they are looked for.
pub open spec fn mk_info_name(i: int) -> Seq<char> {
    if i == 0 { ".Mk"@ }
    else if i == 1 { ".Mk.yaml"@ }
    else if i == 2 { ".Mk.yml"@ }
    else if i == 3 { ".github/mk"@ }
    else if i == 4 { ".github/mk.yaml"@ }
    else if i == 5 { ".github/mk.yml"@ }
    else if i == 6 { ".github/Mk"@ }
    else if i == 7 { ".github/Mk.yaml"@ }
    else if i == 8 { ".github/Mk.yml"@ }
    else if i == 9 { ".mk"@ }
    else if i == 10 { ".mk.yaml"@ }
    else if i == 11 { ".mk.yml"@ }
    else if i == 12 { "Mk"@ }
    else if i == 13 { "Mk.yaml"@ }
    else { "Mk.yml"@ }
}

/// The name that a marker stands for.
pub open spec fn marker_name(m: Marker) -> Seq<char> {
    match m {
        Marker::CargoToml => "Cargo.toml"@,
        Marker::CMakeLists => "CMakeLists.txt"@,
        Marker::Makefile => "Makefile"@,
        Marker::MesonOptions => "meson_options.txt"@,
        Marker::Git => ".git"@,
        Marker::Mercurial => ".hg"@,
        Marker::Darcs => "_darcs"@,
        Marker::Bazaar => ".bzr"@,
        Marker::Subversion => ".svn"@,
        Marker::Cvs => "CVS"@,
        Marker::MkInfo(i) => mk_info_name(i as int),
    }
}

/// What the first entry for `m` in `entries` says it is, if there is one.
pub open spec fn kind_in(entries: Seq<Entry>, m: Marker) -> Option<EntryKind>
    decreases entries.len(),
{
    if entries.len() == 0 {
        None
    } else if entries[0].marker == m {
        Some(entries[0].kind)
    } else {
        kind_in(entries.drop_first(), m)
    }
}

impl Marker {
    /// Whether the marker names one of the candidate files.
    pub open spec fn wf(self) -> bool {
        match self {
            Marker::MkInfo(i) => i < MK_INFO_COUNT,
            _ => true,
        }
    }

    /// The file or directory name of this marker.
    pub fn file_name(&self) -> (r: &'static str)
        requires
            self.wf(),
        ensures
            r@ == marker_name(*self),
    {
        match self {
            Marker::CargoToml => "Cargo.toml",
            Marker::CMakeLists => "CMakeLists.txt",
            Marker::Makefile => "Makefile",
            Marker::MesonOptions => "meson_options.txt",
            Marker::Git => ".git",
            Marker::Mercurial => ".hg",
            Marker::Darcs => "_darcs",
            Marker::Bazaar => ".bzr",
            Marker::Subversion => ".svn",
            Marker::Cvs => "CVS",
            Marker::MkInfo(i) => mk_info_file(*i),
        }
    }

    /// Every marker, each once: the names to look for in a directory.
    pub fn all() -> (r: Vec<Marker>)
        ensures
            forall|i: int| 0 <= i < r@.len() ==> (#[trigger] r@[i]).wf(),
            forall|m: Marker| m.wf() ==> r@.contains(m),
    {
        let mut r = vec![
            Marker::CargoToml,
            Marker::CMakeLists,
            Marker::Makefile,
            Marker::MesonOptions,
            Marker::Git,
            Marker::Mercurial,
            Marker::Darcs,
            Marker::Bazaar,
            Marker::Subversion,
            Marker::Cvs,
        ];
        let ghost fixed = r@;
        let mut i: usize = 0;
        while i < MK_INFO_COUNT
            invariant
                i <= MK_INFO_COUNT,
                r@.len() == fixed.len() + i,
                forall|j: int| 0 <= j < fixed.len() ==> r@[j] == fixed[j],
                fixed.len() == 10,
                forall|j: int| 10 <= j < 10 + i ==> #[trigger] r@[j] == Marker::MkInfo((j - 10) as usize),
                forall|j: int| 0 <= j < r@.len() ==> (#[trigger] r@[j]).wf(),
            decreases MK_INFO_COUNT - i,
        {
            r.push(Marker::MkInfo(i));
            i = i + 1;
        }
        assert forall|m: Marker| m.wf() implies r@.contains(m) by {
            match m {
                Marker::CargoToml => assert(r@[0] == m),
                Marker::CMakeLists => assert(r@[1] == m),
                Marker::Makefile => assert(r@[2] == m),
                Marker::MesonOptions => assert(r@[3] == m),
                Marker::Git => assert(r@[4] == m),
                Marker::Mercurial => assert(r@[5] == m),
                Marker::Darcs => assert(r@[6] == m),
                Marker::Bazaar => assert(r@[7] == m),
                Marker::Subversion => assert(r@[8] == m),
                Marker::Cvs => assert(r@[9] == m),
                Marker::MkInfo(k) => assert(r@[10 + k] == m),
            }
        }
        r
    }
}

/// The candidate project-info file name of index `i`.
pub fn mk_info_file(i: usize) -> (r: &'static str)
    requires
        i < MK_INFO_COUNT,
    ensures
        r@ == mk_info_name(i as int),
{
    if i == 0 { ".Mk" }
    else if i == 1 { ".Mk.yaml" }
    else if i == 2 { ".Mk.yml" }
    else if i == 3 { ".github/mk" }
    else if i == 4 { ".github/mk.yaml" }
    else if i == 5 { ".github/mk.yml" }
    else if i == 6 { ".github/Mk" }
    else if i == 7 { ".github/Mk.yaml" }
    else if i == 8 { ".github/Mk.yml" }
    else if i == 9 { ".mk" }
    else if i == 10 { ".mk.yaml" }
    else if i == 11 { ".mk.yml" }
    else if i == 12 { "Mk" }
    else if i == 13 { "Mk.yaml" }
    else { "Mk.yml" }
}

impl DirFacts {
    /// What `m` is in this directory, if it exists.
    pub open spec fn kind(&self, m: Marker) -> Option<EntryKind> {
        kind_in(self.entries@, m)
    }

    /// Executable form of [`DirFacts::kind`].
    pub fn kind_of(&self, m: Marker) -> (r: Option<EntryKind>)
        ensures
            r == self.kind(m),
    {
        let n = self.entries.len();
        let mut i: usize = 0;
        assert(self.entries@.subrange(0, n as int) =~= self.entries@);
        while i < n
            invariant
                n == self.entries@.len(),
                i <= n,
                kind_in(self.entries@, m) == kind_in(self.entries@.subrange(i as int, n as int), m),
            decreases n - i,
        {
            assert(self.entries@.subrange(i as int, n as int).drop_first() =~= self.entries@.subrange(
                i + 1,
                n as int,
            ));
            if self.entries[i].marker == m {
                return Some(self.entries[i].kind);
            }
            i = i + 1;
        }
        None
    }
}

} // verus!
