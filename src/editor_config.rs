use vstd::prelude::*;

verus! {

/// The part of an `.editorconfig` file that bounds the search for a project:
/// its top-level `root` flag, false when absent.
#[derive(Clone, Copy, Debug, PartialEq, Eq, Structural)]
pub struct EditorConfig {
    pub root: bool,
}

} // verus!
