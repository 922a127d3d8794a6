//! Allocations and copies met in a file.
use vstd::prelude::*;
use crate::text::{join, join_texts, text_in, views};

verus! {

/// Call paths, joined with `::`, that allocate.
pub open spec fn allocating_calls() -> Seq<Seq<char>> {
    seq![
        "Vec::new"@,
        "Vec::with_capacity"@,
        "String::new"@,
        "String::from"@,
        "String::with_capacity"@,
        "Box::new"@,
        "HashMap::new"@,
        "HashSet::new"@,
        "BTreeMap::new"@,
        "BTreeSet::new"@,
        "Rc::new"@,
        "Arc::new"@,
    ]
}

/// Method names that copy their receiver.
pub open spec fn copying_methods() -> Seq<Seq<char>> {
    seq!["clone"@, "to_string"@, "to_owned"@]
}

/// Macros that allocate.
pub open spec fn allocating_macros() -> Seq<Seq<char>> {
    seq!["format"@, "vec"@]
}

/// Allocation and copy counts of a file.
pub struct PerformanceVisitor {
    pub allocations: usize,
    pub clones: usize,
}

impl PerformanceVisitor {
    /// A visitor that has met nothing.
    pub fn new() -> (v: Self)
        ensures
            v.allocations == 0,
            v.clones == 0,
    {
        PerformanceVisitor { allocations: 0, clones: 0 }
    }

    /// A call whose callee is a path with the given segments.
    pub fn record_call(&mut self, segments: &Vec<String>)
        requires
            old(self).allocations < usize::MAX,
        ensures
            final(self).allocations == old(self).allocations + if allocating_calls().contains(
                join(views(segments@), "::"@),
            ) {
                1int
            } else {
                0int
            },
            final(self).clones == old(self).clones,
    {
        let full = join_texts(segments, "::");
        let names: Vec<&str> = vec![
            "Vec::new",
            "Vec::with_capacity",
            "String::new",
            "String::from",
            "String::with_capacity",
            "Box::new",
            "HashMap::new",
            "HashSet::new",
            "BTreeMap::new",
            "BTreeSet::new",
            "Rc::new",
            "Arc::new",
        ];
        proof {
            assert(names@.map_values(|p: &str| p@) =~= allocating_calls());
        }
        if text_in(full.as_str(), &names) {
            self.allocations = self.allocations + 1;
        }
    }

    /// A method call of the method `name`.
    pub fn record_method(&mut self, name: &str)
        requires
            old(self).clones < usize::MAX,
        ensures
            final(self).clones == old(self).clones + if copying_methods().contains(name@) {
                1int
            } else {
                0int
            },
            final(self).allocations == old(self).allocations,
    {
        let names: Vec<&str> = vec!["clone", "to_string", "to_owned"];
        proof {
            assert(names@.map_values(|p: &str| p@) =~= copying_methods());
        }
        if text_in(name, &names) {
            self.clones = self.clones + 1;
        }
    }

    /// A macro invocation whose path ends in `name`.
    pub fn record_macro(&mut self, name: &str)
        requires
            old(self).allocations < usize::MAX,
        ensures
            final(self).allocations == old(self).allocations + if allocating_macros().contains(
                name@,
            ) {
                1int
            } else {
                0int
            },
            final(self).clones == old(self).clones,
    {
        let names: Vec<&str> = vec!["format", "vec"];
        proof {
            assert(names@.map_values(|p: &str| p@) =~= allocating_macros());
        }
        if text_in(name, &names) {
            self.allocations = self.allocations + 1;
        }
    }
}

} // verus!
