use vstd::prelude::*;
use vstd::string::*;

use crate::error::{Error, ErrorView};
use crate::text::{append_strings, opt_view};

verus! {

/// The options of one invocation.
///
/// `args` are the arguments handed on to the build tool; `cwd` is the
/// directory the search starts from; `build_dir` overrides the build
/// directory, relative to the project root; `clean`, `reconfigure` and
/// `watch` select those actions; `container` runs the commands inside a
/// container.
#[derive(Debug, PartialEq, Eq)]
pub struct Opts {
    pub args: Vec<String>,
    pub build_dir: Option<String>,
    pub clean: bool,
    pub container: bool,
    pub cwd: String,
    pub reconfigure: bool,
    pub watch: bool,
}

/// The value of an [`Opts`].
pub struct OptsView {
    pub args: Seq<Seq<char>>,
    pub build_dir: Option<Seq<char>>,
    pub clean: bool,
    pub container: bool,
    pub cwd: Seq<char>,
    pub reconfigure: bool,
    pub watch: bool,
}

impl View for Opts {
    type V = OptsView;

    open spec fn view(&self) -> OptsView {
        OptsView {
            args: self.args.deep_view(),
            build_dir: opt_view(self.build_dir),
            clean: self.clean,
            container: self.container,
            cwd: self.cwd@,
            reconfigure: self.reconfigure,
            watch: self.watch,
        }
    }
}

/// The options before any argument is read: start in `.`, nothing selected.
pub open spec fn initial_opts() -> OptsView {
    OptsView {
        args: seq![],
        build_dir: None,
        clean: false,
        container: false,
        cwd: "."@,
        reconfigure: false,
        watch: false,
    }
}

/// The result of reading `args` from index `i` on into `st`; `first` tells
/// whether `args[i]` is the first argument. `Ok(None)` means that help was
/// asked for.
///
/// `-h` or `--help` as the first argument asks for help; elsewhere it is
/// handed on. `-mw`, `-mc` and `-mR` select watching, cleaning and
/// reconfiguring. `-mC` and `-mB` take the next argument as the start and
/// build directory, and fail when there is none. `--` hands on everything
/// after it. Any other argument is handed on.
pub open spec fn parse_from(args: Seq<Seq<char>>, i: int, st: OptsView, first: bool) -> Result<
    Option<OptsView>,
    ErrorView,
>
    decreases args.len() - i,
{
    if i < 0 || i >= args.len() {
        Ok(Some(st))
    } else {
        let a = args[i];
        if a == "-h"@ || a == "--help"@ {
            if first {
                Ok(None)
            } else {
                parse_from(args, i + 1, OptsView { args: st.args.push(a), ..st }, false)
            }
        } else if a == "-mw"@ {
            parse_from(args, i + 1, OptsView { watch: true, ..st }, false)
        } else if a == "-mc"@ {
            parse_from(args, i + 1, OptsView { clean: true, ..st }, false)
        } else if a == "-mR"@ {
            parse_from(args, i + 1, OptsView { reconfigure: true, ..st }, false)
        } else if a == "-mC"@ {
            if i + 1 < args.len() {
                parse_from(args, i + 2, OptsView { cwd: args[i + 1], ..st }, false)
            } else {
                Err(ErrorView::MissingArgument("-mC"@))
            }
        } else if a == "-mB"@ {
            if i + 1 < args.len() {
                parse_from(args, i + 2, OptsView { build_dir: Some(args[i + 1]), ..st }, false)
            } else {
                Err(ErrorView::MissingArgument("-mB"@))
            }
        } else if a == "--"@ {
            Ok(Some(OptsView { args: st.args + args.skip(i + 1), ..st }))
        } else {
            parse_from(args, i + 1, OptsView { args: st.args.push(a), ..st }, false)
        }
    }
}

/// The view of a parse result.
pub open spec fn parsed_view(r: Result<Option<Opts>, Error>) -> Result<Option<OptsView>, ErrorView> {
    match r {
        Ok(Some(o)) => Ok(Some(o@)),
        Ok(None) => Ok(None),
        Err(e) => Err(e@),
    }
}

impl Opts {
    /// The options that the command-line arguments `args` (the program name
    /// left out) select, `None` when they ask for help, or the option that
    /// lacks its value (see [`parse_from`]).
    pub fn parse(args: &Vec<String>) -> (r: Result<Option<Opts>, Error>)
        ensures
            parsed_view(r) == parse_from(args.deep_view(), 0, initial_opts(), true),
    {
        let ghost all = args.deep_view();
        let mut st = Opts {
            args: Vec::new(),
            build_dir: None,
            clean: false,
            container: false,
            cwd: String::from_str("."),
            reconfigure: false,
            watch: false,
        };
        assert(st@ =~= initial_opts()) by {
            assert(st.args.deep_view() =~= seq![]);
        }
        let n = args.len();
        let mut is_first = true;
        let mut i: usize = 0;
        let help = String::from_str("-h");
        let long_help = String::from_str("--help");
        let watch = String::from_str("-mw");
        let clean = String::from_str("-mc");
        let reconfigure = String::from_str("-mR");
        let cwd = String::from_str("-mC");
        let build_dir = String::from_str("-mB");
        let rest = String::from_str("--");
        while i < n
            invariant
                n == args@.len(),
                all == args.deep_view(),
                i <= n,
                help@ == "-h"@,
                long_help@ == "--help"@,
                watch@ == "-mw"@,
                clean@ == "-mc"@,
                reconfigure@ == "-mR"@,
                cwd@ == "-mC"@,
                build_dir@ == "-mB"@,
                rest@ == "--"@,
                parse_from(all, 0, initial_opts(), true) == parse_from(all, i as int, st@, is_first),
            decreases n - i,
        {
            let a = &args[i];
            assert(all[i as int] == a@);
            let ghost before = st@;
            if *a == help || *a == long_help {
                if is_first {
                    return Ok(None);
                }
                st.args.push(a.clone());
                assert(st.args.deep_view() =~= before.args.push(a@));
                i = i + 1;
            } else if *a == watch {
                st.watch = true;
                i = i + 1;
            } else if *a == clean {
                st.clean = true;
                i = i + 1;
            } else if *a == reconfigure {
                st.reconfigure = true;
                i = i + 1;
            } else if *a == cwd {
                if i + 1 < n {
                    assert(all[i + 1] == args@[i + 1]@);
                    st.cwd = args[i + 1].clone();
                    i = i + 2;
                } else {
                    return Err(Error::MissingArgument(String::from_str("-mC")));
                }
            } else if *a == build_dir {
                if i + 1 < n {
                    assert(all[i + 1] == args@[i + 1]@);
                    st.build_dir = Some(args[i + 1].clone());
                    i = i + 2;
                } else {
                    return Err(Error::MissingArgument(String::from_str("-mB")));
                }
            } else if *a == rest {
                let mut tail: Vec<String> = Vec::new();
                let mut j = i + 1;
                assert(tail.deep_view() =~= all.skip(i + 1).take(0));
                while j < n
                    invariant
                        n == args@.len(),
                        all == args.deep_view(),
                        i < j <= n,
                        tail.deep_view() == all.skip(i + 1).take(j - i - 1),
                    decreases n - j,
                {
                    let ghost before = tail.deep_view();
                    tail.push(args[j].clone());
                    assert(all.skip(i + 1).take(j - i) =~= before.push(all[j as int]));
                    assert(tail.deep_view() =~= before.push(args@[j as int]@));
                    j = j + 1;
                }
                assert(all.skip(i + 1).take(n - i - 1) =~= all.skip(i + 1));
                let ghost before = st@;
                append_strings(&mut st.args, &tail);
                assert(st.args.deep_view() =~= before.args + all.skip(i + 1));
                return Ok(Some(st));
            } else {
                st.args.push(a.clone());
                assert(st.args.deep_view() =~= before.args.push(a@));
                i = i + 1;
            }
            is_first = false;
        }
        Ok(Some(st))
    }
}

} // verus!
