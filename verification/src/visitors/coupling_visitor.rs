//! Imports met in a file, classified by their root.
use vstd::prelude::*;
use crate::text::{same_text, starts_with_seq, starts_with_text, text_in, views};

verus! {

/// Path roots that stay inside the crate.
pub open spec fn internal_roots() -> Seq<Seq<char>> {
    seq!["crate"@, "self"@, "super"@]
}

/// Path roots of the standard library.
pub open spec fn std_roots() -> Seq<Seq<char>> {
    seq!["std"@, "core"@, "alloc"@]
}

/// Prefix of the roots of this project's own crates.
pub open spec fn workspace_prefix() -> Seq<char> {
    "ec_"@
}

/// A `use` item with this root and visibility is not charged: it has no
/// single root (glob or group), stays inside the crate, re-exports a module
/// declared in the file, or names one of the project's own crates.
pub open spec fn use_is_free(root: Option<String>, is_public: bool, mods: Set<Seq<char>>) -> bool {
    match root {
        None => true,
        Some(r) => {
            ||| internal_roots().contains(r@)
            ||| (is_public && mods.contains(r@))
            ||| (!std_roots().contains(r@) && starts_with_seq(r@, workspace_prefix()))
        },
    }
}

/// A charged `use` item with this root counts as a standard library import.
pub open spec fn use_is_std(root: Option<String>) -> bool {
    match root {
        None => false,
        Some(r) => std_roots().contains(r@),
    }
}

/// A `use` whose root is one of the path keywords `crate`, `self` or
/// `super` stays inside the crate and is never charged; one whose root is
/// `std`, `core` or `alloc` is a standard library import, unless it
/// publicly re-exports a module of the same name declared in the file.
pub proof fn lemma_root_kinds(root: Option<String>, is_public: bool, mods: Set<Seq<char>>)
    ensures
        root matches Some(r) && (r@ == "crate"@ || r@ == "self"@ || r@ == "super"@) ==> use_is_free(
            root,
            is_public,
            mods,
        ),
        root matches Some(r) && (r@ == "std"@ || r@ == "core"@ || r@ == "alloc"@) ==> use_is_std(
            root,
        ),
        root matches Some(r) && (r@ == "std"@ || r@ == "core"@ || r@ == "alloc"@) && !(is_public
            && mods.contains(r@)) ==> !use_is_free(root, is_public, mods),
{
    if let Some(r) = root {
        let i = internal_roots();
        let t = std_roots();
        assert(i[0] == "crate"@ && i[1] == "self"@ && i[2] == "super"@);
        assert(t[0] == "std"@ && t[1] == "core"@ && t[2] == "alloc"@);
        if r@ == "std"@ || r@ == "core"@ || r@ == "alloc"@ {
            reveal_strlit("std");
            reveal_strlit("core");
            reveal_strlit("alloc");
            reveal_strlit("crate");
            reveal_strlit("self");
            reveal_strlit("super");
            assert(t.contains(r@));
            assert(!i.contains(r@)) by {
                assert("std"@.len() == 3 && "core"@.len() == 4 && "alloc"@.len() == 5);
                assert("crate"@.len() == 5 && "self"@.len() == 4 && "super"@.len() == 5);
                assert("core"@[0] == 'c' && "alloc"@[0] == 'a');
                assert("crate"@[0] == 'c' && "self"@[0] == 's' && "super"@[0] == 's');
                assert("alloc"@[1] == 'l' && "crate"@[1] == 'r');
                if i.contains(r@) {
                    let k = choose|k: int| 0 <= k < i.len() && i[k] == r@;
                    assert(i[k] == r@);
                }
            }
        }
    }
}

/// Import counts of a file, and the modules the file declares.
pub struct CouplingVisitor {
    pub external_uses: usize,
    pub std_uses: usize,
    local_mods: Vec<String>,
}

impl CouplingVisitor {
    /// Imports charged in full so far.
    pub closed spec fn external_count(&self) -> usize {
        self.external_uses
    }

    /// Standard library imports so far.
    pub closed spec fn std_count(&self) -> usize {
        self.std_uses
    }

    /// Names of the modules declared in the file so far.
    pub closed spec fn local_modules(&self) -> Set<Seq<char>> {
        views(self.local_mods@).to_set()
    }

    /// A visitor that has met nothing.
    pub fn new() -> (v: Self)
        ensures
            v.external_count() == 0,
            v.std_count() == 0,
            v.local_modules() == Set::<Seq<char>>::empty(),
    {
        let v = CouplingVisitor { external_uses: 0, std_uses: 0, local_mods: Vec::new() };
        assert(v.local_modules() =~= Set::<Seq<char>>::empty());
        v
    }

    /// Imports charged in full so far.
    pub fn external_uses(&self) -> (n: usize)
        ensures
            n == self.external_count(),
    {
        self.external_uses
    }

    /// Standard library imports so far.
    pub fn std_uses(&self) -> (n: usize)
        ensures
            n == self.std_count(),
    {
        self.std_uses
    }

    /// Whether a module of this name is declared in the file.
    pub fn has_local_module(&self, name: &str) -> (b: bool)
        ensures
            b == self.local_modules().contains(name@),
    {
        let mut i: usize = 0;
        while i < self.local_mods.len()
            invariant
                i <= self.local_mods@.len(),
                forall|k: int| 0 <= k < i ==> self.local_mods@[k]@ != name@,
            decreases self.local_mods@.len() - i,
        {
            if same_text(self.local_mods[i].as_str(), name) {
                assert(views(self.local_mods@)[i as int] == name@);
                return true;
            }
            i = i + 1;
        }
        assert(!views(self.local_mods@).contains(name@));
        false
    }

    /// A `mod` item of the given name.
    pub fn record_mod(&mut self, name: String)
        ensures
            final(self).local_modules() == old(self).local_modules().insert(name@),
            final(self).external_count() == old(self).external_count(),
            final(self).std_count() == old(self).std_count(),
    {
        if !self.has_local_module(name.as_str()) {
            let ghost before = views(self.local_mods@);
            self.local_mods.push(name);
            assert(views(self.local_mods@) =~= before.push(name@));
            proof {
                Seq::lemma_to_set_insert_commutes(before, name@);
                assert(before + seq![name@] =~= before.push(name@));
            }
        } else {
            assert(old(self).local_modules().insert(name@) =~= old(self).local_modules());
        }
    }

    /// A `use` item whose tree has the given single root (`None` for a glob
    /// or group at the top), public or not.
    pub fn record_use(&mut self, root: Option<String>, is_public: bool)
        requires
            old(self).std_count() < usize::MAX,
            old(self).external_count() < usize::MAX,
        ensures
            final(self).local_modules() == old(self).local_modules(),
            use_is_free(root, is_public, old(self).local_modules()) ==> {
                &&& final(self).std_count() == old(self).std_count()
                &&& final(self).external_count() == old(self).external_count()
            },
            !use_is_free(root, is_public, old(self).local_modules()) && use_is_std(root) ==> {
                &&& final(self).std_count() == old(self).std_count() + 1
                &&& final(self).external_count() == old(self).external_count()
            },
            !use_is_free(root, is_public, old(self).local_modules()) && !use_is_std(root) ==> {
                &&& final(self).external_count() == old(self).external_count() + 1
                &&& final(self).std_count() == old(self).std_count()
            },
            root matches Some(r) && (r@ == "crate"@ || r@ == "self"@ || r@ == "super"@) ==> {
                &&& final(self).external_count() == old(self).external_count()
                &&& final(self).std_count() == old(self).std_count()
            },
            root matches Some(r) && (r@ == "std"@ || r@ == "core"@ || r@ == "alloc"@) && !(
            is_public && old(self).local_modules().contains(r@)) ==> {
                &&& final(self).std_count() == old(self).std_count() + 1
                &&& final(self).external_count() == old(self).external_count()
            },
    {
        proof {
            lemma_root_kinds(root, is_public, old(self).local_modules());
        }
        match root {
            None => {},
            Some(r) => {
                let internal: Vec<&str> = vec!["crate", "self", "super"];
                let stdlib: Vec<&str> = vec!["std", "core", "alloc"];
                proof {
                    assert(internal@.map_values(|p: &str| p@) =~= internal_roots());
                    assert(stdlib@.map_values(|p: &str| p@) =~= std_roots());
                }
                if text_in(r.as_str(), &internal) {
                    return ;
                }
                if is_public && self.has_local_module(r.as_str()) {
                    return ;
                }
                if text_in(r.as_str(), &stdlib) {
                    self.std_uses = self.std_uses + 1;
                } else if starts_with_text(r.as_str(), "ec_") {
                } else {
                    self.external_uses = self.external_uses + 1;
                }
            },
        }
    }
}

} // verus!
