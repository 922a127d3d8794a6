//! Side effects met in a file.
use vstd::prelude::*;
use crate::text::text_in;

verus! {

/// Macros that write to standard output or standard error.
pub open spec fn output_macros() -> Seq<Seq<char>> {
    seq!["println"@, "print"@, "eprintln"@, "eprint"@]
}

/// Side effect counts of a file.
pub struct SideEffectVisitor {
    pub stdout_writes: usize,
    pub static_muts: usize,
    pub io_calls: usize,
}

impl SideEffectVisitor {
    /// A visitor that has met nothing.
    pub fn new() -> (v: Self)
        ensures
            v.stdout_writes == 0,
            v.static_muts == 0,
            v.io_calls == 0,
    {
        SideEffectVisitor { stdout_writes: 0, static_muts: 0, io_calls: 0 }
    }

    /// A `static` item, mutable or not.
    pub fn record_static(&mut self, is_mut: bool)
        requires
            old(self).static_muts < usize::MAX,
        ensures
            final(self).static_muts == old(self).static_muts + if is_mut {
                1int
            } else {
                0int
            },
            final(self).stdout_writes == old(self).stdout_writes,
            final(self).io_calls == old(self).io_calls,
    {
        if is_mut {
            self.static_muts = self.static_muts + 1;
        }
    }

    /// A macro invocation whose path ends in `name`.
    pub fn record_macro(&mut self, name: &str)
        requires
            old(self).stdout_writes < usize::MAX,
        ensures
            final(self).stdout_writes == old(self).stdout_writes + if output_macros().contains(
                name@,
            ) {
                1int
            } else {
                0int
            },
            final(self).static_muts == old(self).static_muts,
            final(self).io_calls == old(self).io_calls,
    {
        let names: Vec<&str> = vec!["println", "print", "eprintln", "eprint"];
        proof {
            assert(names@.map_values(|p: &str| p@) =~= output_macros());
        }
        if text_in(name, &names) {
            self.stdout_writes = self.stdout_writes + 1;
        }
    }
}

} // verus!
