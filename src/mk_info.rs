use vstd::prelude::*;
use vstd::string::*;

use crate::error::{Error, ErrorView};
use crate::probe::{mk_info_file, mk_info_name, DirFacts, Marker, MK_INFO_COUNT};
use crate::text::{copy_strings, join_path, joined, opt_view};

verus! {

/// The container a project builds in: an image name alone, or an image with
/// extra options for the container runtime.
#[derive(Debug, PartialEq, Eq)]
pub enum ContainerDef {
    Image(String),
    Definition { image: String, opts: Option<Vec<String>> },
}

/// An argument list written either as one string or as a list.
#[derive(Debug, PartialEq, Eq)]
pub enum StringOrArray {
    String(String),
    Array(Vec<String>),
}

/// One layer of project configuration; every field is optional.
#[derive(Debug, PartialEq, Eq)]
pub struct BuildInfo {
    pub container: Option<ContainerDef>,
    pub default: Option<StringOrArray>,
    pub configure: Option<Vec<String>>,
    pub build_system: Option<String>,
    pub env: Option<Vec<(String, String)>>,
}

/// A project-info file: the base configuration and the named mode overlays.
#[derive(Debug, PartialEq, Eq)]
pub struct MkInfo {
    pub base: BuildInfo,
    pub mode: Option<Vec<(String, BuildInfo)>>,
}

/// The value of a [`ContainerDef`].
pub enum ContainerView {
    Image(Seq<char>),
    Definition(Seq<char>, Option<Seq<Seq<char>>>),
}

/// The value of a [`StringOrArray`].
pub enum ArgsView {
    One(Seq<char>),
    Many(Seq<Seq<char>>),
}

/// The value of a [`BuildInfo`].
pub struct BuildInfoView {
    pub container: Option<ContainerView>,
    pub default: Option<ArgsView>,
    pub configure: Option<Seq<Seq<char>>>,
    pub build_system: Option<Seq<char>>,
    pub env: Option<Seq<(Seq<char>, Seq<char>)>>,
}

/// The value of a [`MkInfo`].
pub struct MkInfoView {
    pub base: BuildInfoView,
    pub mode: Option<Seq<(Seq<char>, BuildInfoView)>>,
}

/// The deep view of an optional vector.
pub open spec fn opt_deep<T: DeepView>(o: Option<Vec<T>>) -> Option<Seq<T::V>> {
    match o {
        Some(v) => Some(v.deep_view()),
        None => None,
    }
}

/// A scalar field merged: the first value present wins.
pub open spec fn first_of<T>(a: Option<T>, b: Option<T>) -> Option<T> {
    match a {
        Some(_) => a,
        None => b,
    }
}

/// A list field merged: both lists, the first one's entries first.
pub open spec fn joined_lists<T>(a: Option<Seq<T>>, b: Option<Seq<T>>) -> Option<Seq<T>> {
    match (a, b) {
        (Some(x), Some(y)) => Some(x + y),
        (Some(x), None) => Some(x),
        (None, y) => y,
    }
}

/// Two optional argument lists merged: both as one list, the first one's
/// entries first, or whichever one is present.
pub open spec fn joined_args(a: Option<ArgsView>, b: Option<ArgsView>) -> Option<ArgsView> {
    match (a, b) {
        (Some(x), Some(y)) => Some(ArgsView::Many(x.to_seq() + y.to_seq())),
        (Some(x), None) => Some(x),
        (None, y) => y,
    }
}

impl View for ContainerDef {
    type V = ContainerView;

    open spec fn view(&self) -> ContainerView {
        match self {
            ContainerDef::Image(i) => ContainerView::Image(i@),
            ContainerDef::Definition { image, opts } => ContainerView::Definition(
                image@,
                opt_deep(*opts),
            ),
        }
    }
}

impl View for StringOrArray {
    type V = ArgsView;

    open spec fn view(&self) -> ArgsView {
        match self {
            StringOrArray::String(s) => ArgsView::One(s@),
            StringOrArray::Array(a) => ArgsView::Many(a.deep_view()),
        }
    }
}

impl ArgsView {
    /// The arguments as a list: a single string is a list of one.
    pub open spec fn to_seq(self) -> Seq<Seq<char>> {
        match self {
            ArgsView::One(s) => seq![s],
            ArgsView::Many(a) => a,
        }
    }
}

impl View for BuildInfo {
    type V = BuildInfoView;

    open spec fn view(&self) -> BuildInfoView {
        BuildInfoView {
            container: match self.container {
                Some(c) => Some(c@),
                None => None,
            },
            default: match self.default {
                Some(d) => Some(d@),
                None => None,
            },
            configure: opt_deep(self.configure),
            build_system: opt_view(self.build_system),
            env: opt_deep(self.env),
        }
    }
}

/// The view of a table of modes.
pub open spec fn modes_view(t: Seq<(String, BuildInfo)>) -> Seq<(Seq<char>, BuildInfoView)> {
    t.map_values(|e: (String, BuildInfo)| (e.0@, e.1@))
}

impl View for MkInfo {
    type V = MkInfoView;

    open spec fn view(&self) -> MkInfoView {
        MkInfoView {
            base: self.base@,
            mode: match self.mode {
                Some(t) => Some(modes_view(t@)),
                None => None,
            },
        }
    }
}

impl BuildInfoView {
    /// The configuration that sets nothing.
    pub open spec fn empty() -> BuildInfoView {
        BuildInfoView {
            container: None,
            default: None,
            configure: None,
            build_system: None,
            env: None,
        }
    }

    /// `self` with `other` laid over it: scalars (the container and the build
    /// system) keep `self`'s value when it has one; the argument lists and the
    /// environment are concatenated, `self`'s entries first.
    pub open spec fn merge(self, other: BuildInfoView) -> BuildInfoView {
        BuildInfoView {
            container: first_of(self.container, other.container),
            default: joined_args(self.default, other.default),
            configure: joined_lists(self.configure, other.configure),
            build_system: first_of(self.build_system, other.build_system),
            env: joined_lists(self.env, other.env),
        }
    }

    /// The container image, with or without options.
    pub open spec fn image(self) -> Option<Seq<char>> {
        match self.container {
            Some(ContainerView::Image(i)) => Some(i),
            Some(ContainerView::Definition(i, _)) => Some(i),
            None => None,
        }
    }

    /// The container options, which only a full definition carries.
    pub open spec fn container_args(self) -> Option<Seq<Seq<char>>> {
        match self.container {
            Some(ContainerView::Definition(_, o)) => o,
            _ => None,
        }
    }
}

/// The overlay of the first mode named `name` in `table`.
pub open spec fn mode_entry(table: Seq<(Seq<char>, BuildInfoView)>, name: Seq<char>) -> Option<
    BuildInfoView,
>
    decreases table.len(),
{
    if table.len() == 0 {
        None
    } else if table[0].0 == name {
        Some(table[0].1)
    } else {
        mode_entry(table.drop_first(), name)
    }
}

/// `acc` with the overlays of the modes `names` merged onto it in order;
/// names that the table lacks are passed over.
pub open spec fn apply_modes(
    acc: BuildInfoView,
    table: Option<Seq<(Seq<char>, BuildInfoView)>>,
    names: Seq<Seq<char>>,
) -> BuildInfoView
    decreases names.len(),
{
    if names.len() == 0 {
        acc
    } else {
        let next = match table {
            Some(t) => match mode_entry(t, names[0]) {
                Some(m) => acc.merge(m),
                None => acc,
            },
            None => acc,
        };
        apply_modes(next, table, names.drop_first())
    }
}

impl MkInfoView {
    /// The effective configuration for the modes `names`.
    pub open spec fn resolve(self, names: Seq<Seq<char>>) -> BuildInfoView {
        apply_modes(self.base, self.mode, names)
    }
}

/// The index of the first candidate project-info file, from index `from` on,
/// that exists in `d`.
pub open spec fn first_present(d: DirFacts, from: int) -> Option<int>
    decreases 15 - from,
{
    if from < 0 || from >= 15 {
        None
    } else if d.kind(Marker::MkInfo(from as usize)).is_some() {
        Some(from)
    } else {
        first_present(d, from + 1)
    }
}

/// The project-info file of the root `d`: none, the one candidate present,
/// or a conflict between the first two present.
pub open spec fn mk_info_lookup(d: DirFacts) -> Result<Option<Seq<char>>, ErrorView> {
    match first_present(d, 0) {
        None => Ok(None),
        Some(i) => match first_present(d, i + 1) {
            None => Ok(Some(joined(d.path@, mk_info_name(i)))),
            Some(j) => Err(
                ErrorView::ConflictingMk(joined(d.path@, mk_info_name(i)), joined(d.path@, mk_info_name(j))),
            ),
        },
    }
}

/// The view of an optional path or its error.
pub open spec fn path_result_view(r: Result<Option<String>, Error>) -> Result<Option<Seq<char>>, ErrorView> {
    match r {
        Ok(p) => Ok(opt_view(p)),
        Err(e) => Err(e@),
    }
}

/// The index of the first entry of `env`, from index `i` on, whose key is `k`.
pub open spec fn key_index_from(env: Seq<(Seq<char>, Seq<char>)>, k: Seq<char>, i: int) -> Option<int>
    decreases env.len() - i,
{
    if i < 0 || i >= env.len() {
        None
    } else if env[i].0 == k {
        Some(i)
    } else {
        key_index_from(env, k, i + 1)
    }
}

/// `env` with the entry `e` set: it replaces the value of an entry with the
/// same key, in place, or is added at the end.
pub open spec fn set_entry(env: Seq<(Seq<char>, Seq<char>)>, e: (Seq<char>, Seq<char>)) -> Seq<
    (Seq<char>, Seq<char>),
> {
    match key_index_from(env, e.0, 0) {
        Some(i) => env.update(i, e),
        None => env.push(e),
    }
}

/// The environment that the entries `entries` set, one after the other: each
/// key once, at the place of its first entry, with the value of its last.
pub open spec fn env_of(entries: Seq<(Seq<char>, Seq<char>)>) -> Seq<(Seq<char>, Seq<char>)>
    decreases entries.len(),
{
    if entries.len() == 0 {
        seq![]
    } else {
        set_entry(env_of(entries.drop_last()), entries.last())
    }
}

/// Whether no two entries of `env` share a key.
pub open spec fn keys_unique(env: Seq<(Seq<char>, Seq<char>)>) -> bool {
    forall|i: int, j: int| 0 <= i < j < env.len() ==> (#[trigger] env[i]).0 != (#[trigger] env[j]).0
}

proof fn lemma_key_index_from(env: Seq<(Seq<char>, Seq<char>)>, k: Seq<char>, i: int)
    requires
        0 <= i,
    ensures
        match key_index_from(env, k, i) {
            Some(x) => i <= x < env.len() && env[x].0 == k,
            None => forall|j: int| i <= j < env.len() ==> (#[trigger] env[j]).0 != k,
        },
    decreases env.len() - i,
{
    if i < env.len() && env[i].0 != k {
        lemma_key_index_from(env, k, i + 1);
    }
}

/// Setting an entry keeps the keys unique.
proof fn lemma_set_entry_unique(env: Seq<(Seq<char>, Seq<char>)>, e: (Seq<char>, Seq<char>))
    requires
        keys_unique(env),
    ensures
        keys_unique(set_entry(env, e)),
{
    lemma_key_index_from(env, e.0, 0);
}

/// The index of the first entry of `env` whose key is `k`.
fn find_key(env: &Vec<(String, String)>, k: &String) -> (r: Option<usize>)
    ensures
        match r {
            Some(j) => key_index_from(env.deep_view(), k@, 0) == Some(j as int) && j < env@.len(),
            None => key_index_from(env.deep_view(), k@, 0) is None,
        },
{
    let ghost ev = env.deep_view();
    let mut j: usize = 0;
    while j < env.len()
        invariant
            ev == env.deep_view(),
            j <= ev.len(),
            key_index_from(ev, k@, 0) == key_index_from(ev, k@, j as int),
        decreases ev.len() - j,
    {
        if env[j].0 == *k {
            return Some(j);
        }
        j = j + 1;
    }
    None
}

/// The environment that a list of entries sets (see [`env_of`]).
pub fn settle_env(entries: &Vec<(String, String)>) -> (r: Vec<(String, String)>)
    ensures
        r.deep_view() == env_of(entries.deep_view()),
        keys_unique(r.deep_view()),
{
    let ghost all = entries.deep_view();
    let mut acc: Vec<(String, String)> = Vec::new();
    let mut i: usize = 0;
    assert(all.take(0) =~= seq![]);
    assert(acc.deep_view() =~= seq![]);
    while i < entries.len()
        invariant
            all == entries.deep_view(),
            i <= all.len(),
            acc.deep_view() == env_of(all.take(i as int)),
            keys_unique(acc.deep_view()),
        decreases all.len() - i,
    {
        let (k, v) = &entries[i];
        let ghost before = acc.deep_view();
        let ghost e = all[i as int];
        assert(e == (k@, v@));
        assert(all.take(i + 1).drop_last() =~= all.take(i as int));
        assert(env_of(all.take(i + 1)) == set_entry(before, e));
        proof {
            lemma_set_entry_unique(before, e);
        }
        match find_key(&acc, k) {
            Some(j) => {
                acc.set(j, (k.clone(), v.clone()));
                assert(acc.deep_view() =~= before.update(j as int, e));
            },
            None => {
                acc.push((k.clone(), v.clone()));
                assert(acc.deep_view() =~= before.push(e));
            },
        }
        i = i + 1;
    }
    assert(all.take(i as int) =~= all);
    acc
}

/// A copy of an environment list.
pub fn copy_env(env: &Vec<(String, String)>) -> (r: Vec<(String, String)>)
    ensures
        r.deep_view() == env.deep_view(),
{
    let mut r: Vec<(String, String)> = Vec::new();
    let mut i: usize = 0;
    while i < env.len()
        invariant
            i <= env@.len(),
            r.deep_view() == env.deep_view().take(i as int),
        decreases env@.len() - i,
    {
        let ghost before = r.deep_view();
        let (k, v) = &env[i];
        r.push((k.clone(), v.clone()));
        assert(r.deep_view() =~= before.push(env.deep_view()[i as int]));
        assert(env.deep_view().take(i + 1) =~= env.deep_view().take(i as int).push(
            env.deep_view()[i as int],
        ));
        i = i + 1;
    }
    assert(env.deep_view().take(i as int) =~= env.deep_view());
    r
}

impl ContainerDef {
    /// A copy of this definition.
    pub fn duplicate(&self) -> (r: ContainerDef)
        ensures
            r@ == self@,
    {
        match self {
            ContainerDef::Image(i) => ContainerDef::Image(i.clone()),
            ContainerDef::Definition { image, opts } => ContainerDef::Definition {
                image: image.clone(),
                opts: match opts {
                    Some(o) => Some(copy_strings(o)),
                    None => None,
                },
            },
        }
    }
}

impl StringOrArray {
    /// A copy of this argument list.
    pub fn duplicate(&self) -> (r: StringOrArray)
        ensures
            r@ == self@,
    {
        match self {
            StringOrArray::String(s) => StringOrArray::String(s.clone()),
            StringOrArray::Array(a) => StringOrArray::Array(copy_strings(a)),
        }
    }

    /// The arguments as a list: a single string becomes a list of one.
    pub fn into_vec(self) -> (r: Vec<String>)
        ensures
            r.deep_view() == self@.to_seq(),
    {
        match self {
            StringOrArray::String(s) => {
                let r = vec![s];
                assert(r.deep_view() =~= self@.to_seq());
                r
            },
            StringOrArray::Array(a) => a,
        }
    }
}

impl Default for StringOrArray {
    /// The empty list.
    fn default() -> (r: StringOrArray)
        ensures
            r@ == ArgsView::Many(seq![]),
    {
        let r = StringOrArray::Array(Vec::new());
        assert(r@ == ArgsView::Many(seq![])) by {
            if let StringOrArray::Array(a) = r {
                assert(a.deep_view() =~= seq![]);
            }
        }
        r
    }
}

impl Default for BuildInfo {
    /// The configuration that sets nothing.
    fn default() -> (r: BuildInfo)
        ensures
            r@ == BuildInfoView::empty(),
    {
        BuildInfo { container: None, default: None, configure: None, build_system: None, env: None }
    }
}

impl Default for MkInfo {
    /// An empty base configuration and no modes.
    fn default() -> (r: MkInfo)
        ensures
            r@ == (MkInfoView { base: BuildInfoView::empty(), mode: None }),
    {
        MkInfo { base: BuildInfo::default(), mode: None }
    }
}

impl BuildInfo {
    /// A copy of this configuration.
    pub fn duplicate(&self) -> (r: BuildInfo)
        ensures
            r@ == self@,
    {
        BuildInfo {
            container: match &self.container {
                Some(c) => Some(c.duplicate()),
                None => None,
            },
            default: match &self.default {
                Some(d) => Some(d.duplicate()),
                None => None,
            },
            configure: match &self.configure {
                Some(c) => Some(copy_strings(c)),
                None => None,
            },
            build_system: match &self.build_system {
                Some(b) => Some(b.clone()),
                None => None,
            },
            env: match &self.env {
                Some(e) => Some(copy_env(e)),
                None => None,
            },
        }
    }

    /// The container image, whichever way the container is written.
    pub fn image(&self) -> (r: Option<&str>)
        ensures
            match r {
                Some(s) => self@.image() == Some(s@),
                None => self@.image() is None,
            },
    {
        match &self.container {
            Some(ContainerDef::Image(image)) => Some(image.as_str()),
            Some(ContainerDef::Definition { image, .. }) => Some(image.as_str()),
            None => None,
        }
    }

    /// The container options of a full container definition.
    pub fn container_args(&self) -> (r: Option<&Vec<String>>)
        ensures
            match r {
                Some(v) => self@.container_args() == Some(v.deep_view()),
                None => self@.container_args() is None,
            },
    {
        match &self.container {
            Some(ContainerDef::Definition { opts, .. }) => match opts {
                Some(o) => Some(o),
                None => None,
            },
            _ => None,
        }
    }

    /// Two optional lists merged: both, `a`'s entries first, or whichever
    /// one is present.
    pub fn merge_field<T: DeepView>(a: Option<Vec<T>>, b: Option<Vec<T>>) -> (r: Option<Vec<T>>)
        ensures
            opt_deep(r) == joined_lists(opt_deep(a), opt_deep(b)),
    {
        match a {
            Some(mut x) => match b {
                Some(mut y) => {
                    let ghost x0 = x;
                    let ghost y0 = y;
                    x.append(&mut y);
                    assert(x.deep_view() =~= x0.deep_view() + y0.deep_view());
                    Some(x)
                },
                None => Some(x),
            },
            None => b,
        }
    }

    /// Two optional argument lists merged (see [`joined_args`]).
    pub fn merge_args(a: Option<StringOrArray>, b: Option<StringOrArray>) -> (r: Option<StringOrArray>)
        ensures
            match r {
                Some(x) => joined_args(
                    match a {
                        Some(v) => Some(v@),
                        None => None,
                    },
                    match b {
                        Some(v) => Some(v@),
                        None => None,
                    },
                ) == Some(x@),
                None => a is None && b is None,
            },
    {
        match a {
            Some(x) => match b {
                Some(y) => {
                    let ghost xs = x@.to_seq();
                    let ghost ys = y@.to_seq();
                    let mut first = x.into_vec();
                    let mut second = y.into_vec();
                    first.append(&mut second);
                    let r = StringOrArray::Array(first);
                    assert(first.deep_view() =~= xs + ys) by {
                        assert(first.deep_view().len() == xs.len() + ys.len());
                    }
                    Some(r)
                },
                None => Some(x),
            },
            None => b,
        }
    }

    /// This configuration with `other` laid over it (see
    /// [`BuildInfoView::merge`]); no overlay changes nothing.
    pub fn merge(self, other: Option<BuildInfo>) -> (r: BuildInfo)
        ensures
            r@ == self@.merge(
                match other {
                    Some(o) => o@,
                    None => BuildInfoView::empty(),
                },
            ),
    {
        let other = match other {
            Some(o) => o,
            None => BuildInfo::default(),
        };
        BuildInfo {
            container: match self.container {
                Some(c) => Some(c),
                None => other.container,
            },
            default: Self::merge_args(self.default, other.default),
            configure: Self::merge_field(self.configure, other.configure),
            build_system: match self.build_system {
                Some(b) => Some(b),
                None => other.build_system,
            },
            env: Self::merge_field(self.env, other.env),
        }
    }
}

/// The overlay of the first mode named `name` in `table`.
fn find_mode<'a>(table: &'a Vec<(String, BuildInfo)>, name: &String) -> (r: Option<&'a BuildInfo>)
    ensures
        match r {
            Some(b) => mode_entry(modes_view(table@), name@) == Some(b@),
            None => mode_entry(modes_view(table@), name@) is None,
        },
{
    let n = table.len();
    let mut i: usize = 0;
    assert(modes_view(table@).subrange(0, n as int) =~= modes_view(table@));
    while i < n
        invariant
            n == table@.len(),
            i <= n,
            mode_entry(modes_view(table@), name@) == mode_entry(
                modes_view(table@).subrange(i as int, n as int),
                name@,
            ),
        decreases n - i,
    {
        let ghost t = modes_view(table@);
        assert(t.subrange(i as int, n as int).drop_first() =~= t.subrange(i + 1, n as int));
        assert(t.subrange(i as int, n as int)[0] == (table@[i as int].0@, table@[i as int].1@));
        if table[i].0 == *name {
            return Some(&table[i].1);
        }
        i = i + 1;
    }
    None
}

/// The first candidate index from `from` on whose file exists in `root`.
fn next_present(root: &DirFacts, from: usize) -> (r: Option<usize>)
    requires
        from <= MK_INFO_COUNT,
    ensures
        match r {
            Some(i) => first_present(*root, from as int) == Some(i as int) && i < MK_INFO_COUNT,
            None => first_present(*root, from as int) is None,
        },
{
    let mut i = from;
    while i < MK_INFO_COUNT
        invariant
            from <= i <= MK_INFO_COUNT,
            first_present(*root, from as int) == first_present(*root, i as int),
        decreases MK_INFO_COUNT - i,
    {
        if root.kind_of(Marker::MkInfo(i)).is_some() {
            return Some(i);
        }
        i = i + 1;
    }
    None
}

impl MkInfo {
    /// The project-info file of the project root `root`: `None` when no
    /// candidate exists, its path when exactly one does, and a conflict that
    /// names the first two otherwise.
    pub fn find_root_path(root: &DirFacts) -> (r: Result<Option<String>, Error>)
        ensures
            path_result_view(r) == mk_info_lookup(*root),
    {
        match next_present(root, 0) {
            None => Ok(None),
            Some(i) => {
                let first = join_path(root.path.as_str(), mk_info_file(i));
                match next_present(root, i + 1) {
                    None => Ok(Some(first)),
                    Some(j) => {
                        let second = join_path(root.path.as_str(), mk_info_file(j));
                        Err(Error::ConflictingMk(first, second))
                    },
                }
            },
        }
    }

    /// The configuration file to read for the project root `root`: the one
    /// named explicitly, when one is, else the one found there (see
    /// [`MkInfo::find_root_path`]), including its conflict.
    pub fn select_path(explicit: Option<String>, root: &DirFacts) -> (r: Result<Option<String>, Error>)
        ensures
            path_result_view(r) == match explicit {
                Some(p) => Ok(Some(p@)),
                None => mk_info_lookup(*root),
            },
    {
        match explicit {
            Some(p) => Ok(Some(p)),
            None => Self::find_root_path(root),
        }
    }

    /// The effective configuration for the modes named in `modes`, in order:
    /// the base with each known mode's overlay merged onto it.
    pub fn resolve(self, modes: &Vec<String>) -> (r: BuildInfo)
        ensures
            r@ == self@.resolve(modes.deep_view()),
    {
        let ghost target = self@.resolve(modes.deep_view());
        let ghost table = self@.mode;
        let MkInfo { base, mode } = self;
        let mut acc = base;
        let mut i: usize = 0;
        assert(modes.deep_view().skip(0) =~= modes.deep_view());
        while i < modes.len()
            invariant
                i <= modes@.len(),
                table == (match mode {
                    Some(t) => Some(modes_view(t@)),
                    None => None,
                }),
                apply_modes(acc@, table, modes.deep_view().skip(i as int)) == target,
            decreases modes@.len() - i,
        {
            let ghost names = modes.deep_view().skip(i as int);
            assert(names.drop_first() =~= modes.deep_view().skip(i + 1));
            assert(names[0] == modes@[i as int]@);
            match &mode {
                Some(t) => match find_mode(t, &modes[i]) {
                    Some(m) => {
                        acc = acc.merge(Some(m.duplicate()));
                    },
                    None => {},
                },
                None => {},
            }
            i = i + 1;
        }
        acc
    }
}

} // verus!
