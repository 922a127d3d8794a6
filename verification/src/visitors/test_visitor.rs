//! Test and production functions met in a file.
use vstd::prelude::*;
use crate::text::text_in;

verus! {

/// Macros counted as assertions.
pub open spec fn assert_macros() -> Seq<Seq<char>> {
    seq!["assert"@, "assert_eq"@, "assert_ne"@]
}

/// Test and production function counts of a file, and its assertion count.
pub struct TestVisitor {
    pub test_fns: usize,
    pub production_fns: usize,
    pub assert_count: u32,
}

impl TestVisitor {
    /// A visitor that has met nothing.
    pub fn new() -> (v: Self)
        ensures
            v.test_fns == 0,
            v.production_fns == 0,
            v.assert_count == 0,
    {
        TestVisitor { test_fns: 0, production_fns: 0, assert_count: 0 }
    }

    /// A free function, marked `#[test]` or not.
    pub fn record_fn(&mut self, is_test: bool)
        requires
            old(self).test_fns < usize::MAX,
            old(self).production_fns < usize::MAX,
        ensures
            is_test ==> final(self).test_fns == old(self).test_fns + 1
                && final(self).production_fns == old(self).production_fns,
            !is_test ==> final(self).production_fns == old(self).production_fns + 1
                && final(self).test_fns == old(self).test_fns,
            final(self).assert_count == old(self).assert_count,
    {
        if is_test {
            self.test_fns = self.test_fns + 1;
        } else {
            self.production_fns = self.production_fns + 1;
        }
    }

    /// A macro invocation whose path ends in `name`.
    pub fn record_macro(&mut self, name: &str)
        requires
            old(self).assert_count < u32::MAX,
        ensures
            final(self).assert_count == old(self).assert_count + if assert_macros().contains(
                name@,
            ) {
                1int
            } else {
                0int
            },
            final(self).test_fns == old(self).test_fns,
            final(self).production_fns == old(self).production_fns,
    {
        let names: Vec<&str> = vec!["assert", "assert_eq", "assert_ne"];
        proof {
            assert(names@.map_values(|p: &str| p@) =~= assert_macros());
        }
        if text_in(name, &names) {
            self.assert_count = self.assert_count + 1;
        }
    }
}

} // verus!
