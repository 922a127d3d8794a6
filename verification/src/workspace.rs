//! Rules of the workspace scan that depend on file and directory names only.
use vstd::prelude::*;
use crate::text::text_in;

verus! {

/// Directory names that the scan never enters.
pub open spec fn skipped_dir_names() -> Seq<Seq<char>> {
    seq!["target"@, ".git"@, "node_modules"@]
}

/// Path components that mark a file as test or benchmark code.
pub open spec fn test_dir_names() -> Seq<Seq<char>> {
    seq!["tests"@, "benches"@]
}

/// Whether the scan skips a directory of this name: build output, version
/// control data and installed packages are not part of the project.
pub fn is_skipped_dir(name: &str) -> (b: bool)
    ensures
        b == skipped_dir_names().contains(name@),
{
    let options: Vec<&str> = vec!["target", ".git", "node_modules"];
    proof {
        assert(options@.map_values(|p: &str| p@) =~= skipped_dir_names());
    }
    text_in(name, &options)
}

/// Whether a file whose path has these components is test or benchmark code:
/// one of its components is `tests` or `benches`.
pub fn is_test_or_bench(components: &Vec<String>) -> (b: bool)
    ensures
        b == exists|k: int|
            0 <= k < components@.len() && #[trigger] test_dir_names().contains(
                components@[k]@,
            ),
{
    let options: Vec<&str> = vec!["tests", "benches"];
    proof {
        assert(options@.map_values(|p: &str| p@) =~= test_dir_names());
    }
    let mut i: usize = 0;
    while i < components.len()
        invariant
            i <= components@.len(),
            options@.map_values(|p: &str| p@) == test_dir_names(),
            forall|k: int| 0 <= k < i ==> !(#[trigger] test_dir_names().contains(components@[k]@)),
        decreases components@.len() - i,
    {
        if text_in(components[i].as_str(), &options) {
            return true;
        }
        i = i + 1;
    }
    false
}

} // verus!
