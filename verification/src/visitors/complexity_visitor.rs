//! Per-function cyclomatic complexity.
use vstd::prelude::*;

verus! {

/// Complexity of one function: decision points plus one.
#[derive(Debug, Clone)]
pub struct FnComplexity {
    pub name: String,
    pub cc: u32,
    pub is_test: bool,
}

/// The function being measured when a nested function starts, restored
/// when the nested one ends.
pub struct FnFrame {
    pub name: Option<String>,
    pub decisions: u32,
    pub is_test: bool,
}

/// The functions with complexity above ten, as (name, complexity) pairs in
/// the order they were measured.
pub open spec fn above_ten(fs: Seq<FnComplexity>) -> Seq<(Seq<char>, u32)>
    decreases fs.len(),
{
    if fs.len() == 0 {
        Seq::empty()
    } else if fs.last().cc > 10 {
        above_ten(fs.drop_last()).push((fs.last().name@, fs.last().cc))
    } else {
        above_ten(fs.drop_last())
    }
}

/// Complexity of every function of a file.
pub struct ComplexityVisitor {
    pub functions: Vec<FnComplexity>,
    current_name: Option<String>,
    current_decisions: u32,
    current_is_test: bool,
}

impl ComplexityVisitor {
    /// The functions measured so far.
    pub closed spec fn measured(&self) -> Seq<FnComplexity> {
        self.functions@
    }

    /// Name of the function being measured, if any.
    pub closed spec fn current(&self) -> Option<String> {
        self.current_name
    }

    /// Decision points met so far in the function being measured.
    pub closed spec fn decisions(&self) -> u32 {
        self.current_decisions
    }

    /// Whether the function being measured is a test.
    pub closed spec fn current_is_test(&self) -> bool {
        self.current_is_test
    }

    /// A visitor that has measured nothing and is in no function.
    pub fn new() -> (v: Self)
        ensures
            v.measured() == Seq::<FnComplexity>::empty(),
            v.current() is None,
            v.decisions() == 0,
            !v.current_is_test(),
    {
        ComplexityVisitor {
            functions: Vec::new(),
            current_name: None,
            current_decisions: 0,
            current_is_test: false,
        }
    }

    /// A function item starts; the function being measured so far is
    /// handed back, to be restored by `exit_fn`.
    pub fn enter_fn(&mut self, name: String, is_test: bool) -> (saved: FnFrame)
        ensures
            saved.name == old(self).current(),
            saved.decisions == old(self).decisions(),
            saved.is_test == old(self).current_is_test(),
            final(self).measured() == old(self).measured(),
            final(self).current() == Some(name),
            final(self).decisions() == 0,
            final(self).current_is_test() == is_test,
    {
        let saved_name = self.current_name.take();
        let saved = FnFrame {
            name: saved_name,
            decisions: self.current_decisions,
            is_test: self.current_is_test,
        };
        self.current_name = Some(name);
        self.current_decisions = 0;
        self.current_is_test = is_test;
        saved
    }

    /// The functions measured so far, in the order they ended.
    pub fn functions(&self) -> (r: &Vec<FnComplexity>)
        ensures
            r@ == self.measured(),
    {
        &self.functions
    }

    /// Decision points met so far in the function being measured.
    pub fn decision_count(&self) -> (n: u32)
        ensures
            n == self.decisions(),
    {
        self.current_decisions
    }

    /// A decision point (`if`, `while`, `for`, a non-wildcard match arm,
    /// `&&`, `||`, `?`) in the function being measured.
    pub fn record_decision(&mut self)
        requires
            old(self).decisions() < u32::MAX,
        ensures
            final(self).decisions() == old(self).decisions() + 1,
            final(self).current() == old(self).current(),
            final(self).current_is_test() == old(self).current_is_test(),
            final(self).measured() == old(self).measured(),
    {
        self.current_decisions = self.current_decisions + 1;
    }

    /// The function item that `enter_fn` started ends: its complexity is
    /// recorded and the enclosing function's measurement resumes.
    pub fn exit_fn(&mut self, saved: FnFrame)
        requires
            old(self).decisions() < u32::MAX,
        ensures
            old(self).current() is Some ==> final(self).measured() == old(self).measured().push(
                FnComplexity {
                    name: old(self).current()->0,
                    cc: (old(self).decisions() + 1) as u32,
                    is_test: old(self).current_is_test(),
                },
            ),
            old(self).current() is None ==> final(self).measured() == old(self).measured(),
            final(self).current() == saved.name,
            final(self).decisions() == saved.decisions,
            final(self).current_is_test() == saved.is_test,
    {
        if let Some(name) = self.current_name.take() {
            self.functions.push(
                FnComplexity {
                    name,
                    cc: self.current_decisions + 1,
                    is_test: self.current_is_test,
                },
            );
        }
        self.current_name = saved.name;
        self.current_decisions = saved.decisions;
        self.current_is_test = saved.is_test;
    }

    /// Name and complexity of every function whose complexity exceeds ten.
    pub fn high_complexity(&self) -> (r: Vec<(String, u32)>)
        ensures
            r@.map_values(|p: (String, u32)| (p.0@, p.1)) == above_ten(self.measured()),
    {
        let mut r: Vec<(String, u32)> = Vec::new();
        let mut i: usize = 0;
        proof {
            assert(self.functions@.take(0) =~= Seq::<FnComplexity>::empty());
            assert(r@.map_values(|p: (String, u32)| (p.0@, p.1)) =~= Seq::<
                (Seq<char>, u32),
            >::empty());
        }
        while i < self.functions.len()
            invariant
                i <= self.functions@.len(),
                r@.map_values(|p: (String, u32)| (p.0@, p.1)) == above_ten(
                    self.functions@.take(i as int),
                ),
            decreases self.functions@.len() - i,
        {
            proof {
                assert(self.functions@.take(i + 1).drop_last() =~= self.functions@.take(i as int));
                assert(self.functions@.take(i + 1).last() == self.functions@[i as int]);
            }
            let f = &self.functions[i];
            if f.cc > 10 {
                let ghost before = r@;
                r.push((f.name.clone(), f.cc));
                assert(r@.map_values(|p: (String, u32)| (p.0@, p.1)) =~= before.map_values(
                    |p: (String, u32)| (p.0@, p.1),
                ).push((f.name@, f.cc)));
            }
            i = i + 1;
        }
        assert(self.functions@.take(self.functions@.len() as int) =~= self.functions@);
        r
    }
}

} // verus!
