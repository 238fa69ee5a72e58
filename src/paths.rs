//! Where the packaged artifacts live under an output root.
use vstd::prelude::*;

verus! {

/// A path with one more component: `base/name`, with no doubled separator
/// when `base` already ends in one, and `name` alone when `base` is empty.
pub open spec fn joined(base: Seq<char>, name: Seq<char>) -> Seq<char> {
    if base.len() == 0 {
        name
    } else if base.last() == '/' {
        base + name
    } else {
        base + seq!['/'] + name
    }
}

/// Appends the component `name` to the path `base`.
pub fn join_path(base: &str, name: &str) -> (r: String)
    ensures
        r@ == joined(base@, name@),
{
    let n = base.unicode_len();
    if n == 0 {
        String::from_str(name)
    } else if base.get_char(n - 1) == '/' {
        String::from_str(base).concat(name)
    } else {
        let sep = "/";
        proof {
            reveal_strlit("/");
        }
        let r = String::from_str(base).concat(sep).concat(name);
        assert(r@ =~= base@ + seq!['/'] + name@);
        r
    }
}

/// The library directory under an output root.
pub open spec fn lib_dir_of(root: Seq<char>) -> Seq<char> {
    joined(root, "lib"@)
}

/// The include directory under an output root.
pub open spec fn include_dir_of(root: Seq<char>) -> Seq<char> {
    joined(root, "include"@)
}

/// The two artifact roots under one output root.
pub struct ArtifactLayout {
    pub root: String,
    pub lib_dir: String,
    pub include_dir: String,
}

impl ArtifactLayout {
    /// Both roots are derived from `root`.
    pub open spec fn wf(&self) -> bool {
        &&& self.lib_dir@ == lib_dir_of(self.root@)
        &&& self.include_dir@ == include_dir_of(self.root@)
    }

    /// Derives the library and include directories of an output root.
    pub fn locate(root: &str) -> (r: ArtifactLayout)
        ensures
            r.root@ == root@,
            r.wf(),
    {
        ArtifactLayout {
            root: String::from_str(root),
            lib_dir: join_path(root, "lib"),
            include_dir: join_path(root, "include"),
        }
    }
}

} // verus!
