//! Unsafe constructs met in a file.
use vstd::prelude::*;

verus! {

/// What kind of construct is unsafe.
#[derive(Debug, Clone, Copy, PartialEq, Eq, Structural)]
pub enum UnsafeKind {
    ExprBlock,
    UnsafeFn,
    UnsafeImpl,
    UnsafeTrait,
}

/// One unsafe construct, and whether a doc comment accompanies it.
#[derive(Debug, Clone, Copy, PartialEq, Eq, Structural)]
pub struct UnsafeBlock {
    pub kind: UnsafeKind,
    pub has_safety_comment: bool,
}

/// Number of constructs in `blocks` that carry no safety comment.
pub open spec fn unjustified(blocks: Seq<UnsafeBlock>) -> nat
    decreases blocks.len(),
{
    if blocks.len() == 0 {
        0
    } else {
        unjustified(blocks.drop_last()) + if blocks.last().has_safety_comment {
            0nat
        } else {
            1nat
        }
    }
}

/// The unsafe constructs of a file, in the order the walk meets them.
pub struct UnsafeVisitor {
    pub blocks: Vec<UnsafeBlock>,
}

impl UnsafeVisitor {
    /// A visitor that has met nothing.
    pub fn new() -> (v: Self)
        ensures
            v.blocks@ == Seq::<UnsafeBlock>::empty(),
    {
        UnsafeVisitor { blocks: Vec::new() }
    }

    /// An `unsafe { .. }` expression: never counted as commented.
    pub fn record_unsafe_block(&mut self)
        ensures
            final(self).blocks@ == old(self).blocks@.push(
                UnsafeBlock { kind: UnsafeKind::ExprBlock, has_safety_comment: false },
            ),
    {
        self.blocks.push(UnsafeBlock { kind: UnsafeKind::ExprBlock, has_safety_comment: false });
    }

    /// An `unsafe fn`, with or without a doc comment.
    pub fn record_unsafe_fn(&mut self, has_doc_comment: bool)
        ensures
            final(self).blocks@ == old(self).blocks@.push(
                UnsafeBlock { kind: UnsafeKind::UnsafeFn, has_safety_comment: has_doc_comment },
            ),
    {
        self.blocks.push(
            UnsafeBlock { kind: UnsafeKind::UnsafeFn, has_safety_comment: has_doc_comment },
        );
    }

    /// An `unsafe impl`, with or without a doc comment.
    pub fn record_unsafe_impl(&mut self, has_doc_comment: bool)
        ensures
            final(self).blocks@ == old(self).blocks@.push(
                UnsafeBlock { kind: UnsafeKind::UnsafeImpl, has_safety_comment: has_doc_comment },
            ),
    {
        self.blocks.push(
            UnsafeBlock { kind: UnsafeKind::UnsafeImpl, has_safety_comment: has_doc_comment },
        );
    }

    /// An `unsafe trait`, with or without a doc comment.
    pub fn record_unsafe_trait(&mut self, has_doc_comment: bool)
        ensures
            final(self).blocks@ == old(self).blocks@.push(
                UnsafeBlock { kind: UnsafeKind::UnsafeTrait, has_safety_comment: has_doc_comment },
            ),
    {
        self.blocks.push(
            UnsafeBlock { kind: UnsafeKind::UnsafeTrait, has_safety_comment: has_doc_comment },
        );
    }

    /// Number of unsafe constructs without a safety comment.
    pub fn unjustified_count(&self) -> (n: usize)
        ensures
            n == unjustified(self.blocks@),
            n <= self.blocks@.len(),
    {
        let mut n: usize = 0;
        let mut i: usize = 0;
        proof {
            assert(self.blocks@.take(0) =~= Seq::<UnsafeBlock>::empty());
        }
        while i < self.blocks.len()
            invariant
                i <= self.blocks@.len(),
                n <= i,
                n == unjustified(self.blocks@.take(i as int)),
            decreases self.blocks@.len() - i,
        {
            proof {
                assert(self.blocks@.take(i + 1).drop_last() =~= self.blocks@.take(i as int));
            }
            if !self.blocks[i].has_safety_comment {
                n = n + 1;
            }
            i = i + 1;
        }
        assert(self.blocks@.take(self.blocks@.len() as int) =~= self.blocks@);
        n
    }
}

} // verus!
