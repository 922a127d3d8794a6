//! The structural part of a syntax-tree analysis: which findings of the
//! visitors are reported as warnings.
use vstd::prelude::*;
use crate::visitors::complexity_visitor::above_ten;
use crate::visitors::{ComplexityVisitor, UnsafeVisitor};
use crate::visitors::unsafe_visitor::unjustified;

verus! {

/// The entries of `hc` whose complexity exceeds twenty.
pub open spec fn above_twenty(hc: Seq<(Seq<char>, u32)>) -> Seq<(Seq<char>, u32)>
    decreases hc.len(),
{
    if hc.len() == 0 {
        Seq::empty()
    } else if hc.last().1 > 20 {
        above_twenty(hc.drop_last()).push(hc.last())
    } else {
        above_twenty(hc.drop_last())
    }
}

/// Analyzer of a parsed file.
pub struct AstAnalyzer;

impl AstAnalyzer {
    /// The analyzer.
    pub fn new() -> (a: Self) {
        AstAnalyzer
    }

    /// Number of unsafe constructs without a safety comment, when there is
    /// at least one; a warning is reported for them.
    pub fn unsafe_warning(&self, v: &UnsafeVisitor) -> (w: Option<usize>)
        ensures
            unjustified(v.blocks@) > 0 ==> w == Some(unjustified(v.blocks@) as usize),
            unjustified(v.blocks@) == 0 ==> w is None,
    {
        let n = v.unjustified_count();
        if n > 0 {
            Some(n)
        } else {
            None
        }
    }

    /// Functions whose complexity exceeds twenty, in the order measured; a
    /// warning is reported for each.
    pub fn complexity_warnings(&self, v: &ComplexityVisitor) -> (w: Vec<(String, u32)>)
        ensures
            w@.map_values(|p: (String, u32)| (p.0@, p.1)) == above_twenty(above_ten(v.measured())),
    {
        let hc = v.high_complexity();
        let ghost hv = hc@.map_values(|p: (String, u32)| (p.0@, p.1));
        let mut w: Vec<(String, u32)> = Vec::new();
        let mut i: usize = 0;
        proof {
            assert(hv.take(0) =~= Seq::<(Seq<char>, u32)>::empty());
            assert(w@.map_values(|p: (String, u32)| (p.0@, p.1)) =~= Seq::<(Seq<char>, u32)>::empty());
        }
        while i < hc.len()
            invariant
                hv == hc@.map_values(|p: (String, u32)| (p.0@, p.1)),
                i <= hc@.len(),
                w@.map_values(|p: (String, u32)| (p.0@, p.1)) == above_twenty(hv.take(i as int)),
            decreases hc@.len() - i,
        {
            proof {
                assert(hv.take(i + 1).drop_last() =~= hv.take(i as int));
                assert(hv.take(i + 1).last() == hv[i as int]);
            }
            if hc[i].1 > 20 {
                let ghost before = w@;
                w.push((hc[i].0.clone(), hc[i].1));
                assert(w@.map_values(|p: (String, u32)| (p.0@, p.1)) =~= before.map_values(
                    |p: (String, u32)| (p.0@, p.1),
                ).push(hv[i as int]));
            }
            i = i + 1;
        }
        assert(hv.take(hc@.len() as int) =~= hv);
        w
    }
}

} // verus!
