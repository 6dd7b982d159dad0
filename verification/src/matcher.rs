//! Whitelist/blacklist set-membership predicates over block identities.

use vstd::prelude::*;
use vstd::std_specs::cmp::PartialEqSpec;
use vstd::seq_lib::lemma_seq_contains_after_push;

verus! {

/// True when `B`'s `==` operator decides mathematical equality exactly. Block
/// identities are opaque, cheaply copyable values compared with `==`; every
/// matcher operation assumes their comparison is the real one.
pub open spec fn eq_exact<B: PartialEq>() -> bool {
    &&& B::obeys_eq_spec()
    &&& forall|x: B, y: B| #[trigger] x.eq_spec(&y) <==> x == y
}

/// A plain `u32` palette identity compares by mathematical equality, so it
/// discharges `eq_exact` directly; other palettes discharge it the same way
/// from `vstd`'s equality laws for their representation.
pub proof fn lemma_eq_exact_u32()
    ensures
        eq_exact::<u32>(),
{
    broadcast use vstd::laws_eq::group_laws_eq;

    reveal(vstd::laws_eq::obeys_concrete_eq);
    assert(vstd::laws_eq::obeys_concrete_eq::<u32>());
}

/// A predicate over block identities: a set of blocks together with a
/// `blacklist` flag. A block matches exactly when membership in the set
/// differs from the flag (whitelist when false, blacklist when true).
///
/// Matchers are immutable configuration values; the constructors are the only
/// mutation surface.
pub struct BlockMatcher<B> {
    pub blocks: Vec<B>,
    pub blacklist: bool,
}

impl<B: Copy + PartialEq> BlockMatcher<B> {
    /// Well-formed: the stored blocks are pairwise distinct.
    pub open spec fn wf(self) -> bool {
        forall|i: int, j: int|
            0 <= i < j < self.blocks@.len() ==> self.blocks@[i] != self.blocks@[j]
    }

    /// What the matcher decides for `block`: set membership XOR blacklist.
    pub open spec fn spec_matches(self, block: B) -> bool {
        self.blocks@.contains(block) != self.blacklist
    }

    /// The matcher that matches every block: empty set, blacklist.
    pub fn all() -> (r: Self)
        ensures
            r.wf(),
            r.blocks@ == Seq::<B>::empty(),
            r.blacklist,
            forall|b: B| #[trigger] r.spec_matches(b),
    {
        let r = BlockMatcher { blocks: Vec::new(), blacklist: true };
        proof {
            assert forall|b: B| #[trigger] r.spec_matches(b) by {
                assert(!r.blocks@.contains(b));
            }
        }
        r
    }

    /// The matcher that matches no block: empty set, whitelist.
    pub fn none() -> (r: Self)
        ensures
            r.wf(),
            r.blocks@ == Seq::<B>::empty(),
            !r.blacklist,
            forall|b: B| !(#[trigger] r.spec_matches(b)),
    {
        let r = BlockMatcher { blocks: Vec::new(), blacklist: false };
        proof {
            assert forall|b: B| !(#[trigger] r.spec_matches(b)) by {
                assert(!r.blocks@.contains(b));
            }
        }
        r
    }

    /// The matcher that matches exactly `block`.
    pub fn is(block: B) -> (r: Self)
        ensures
            r.wf(),
            r.blocks@ == seq![block],
            !r.blacklist,
            forall|b: B| #[trigger] r.spec_matches(b) <==> b == block,
    {
        let mut blocks: Vec<B> = Vec::new();
        blocks.push(block);
        let r = BlockMatcher { blocks, blacklist: false };
        proof {
            assert forall|b: B| #[trigger] r.spec_matches(b) <==> b == block by {
                lemma_seq_contains_after_push(Seq::<B>::empty(), block, b);
            }
        }
        r
    }

    /// The matcher that matches every block except `block`.
    pub fn is_not(block: B) -> (r: Self)
        ensures
            r.wf(),
            r.blocks@ == seq![block],
            r.blacklist,
            forall|b: B| #[trigger] r.spec_matches(b) <==> b != block,
    {
        let mut blocks: Vec<B> = Vec::new();
        blocks.push(block);
        let r = BlockMatcher { blocks, blacklist: true };
        proof {
            assert forall|b: B| #[trigger] r.spec_matches(b) <==> b != block by {
                lemma_seq_contains_after_push(Seq::<B>::empty(), block, b);
            }
        }
        r
    }

    /// The whitelist over the given blocks: matches exactly the blocks listed.
    pub fn among(blocks: &Vec<B>) -> (r: Self)
        requires
            eq_exact::<B>(),
        ensures
            r.wf(),
            !r.blacklist,
            forall|b: B| #[trigger] r.blocks@.contains(b) <==> blocks@.contains(b),
            forall|b: B| #[trigger] r.spec_matches(b) <==> blocks@.contains(b),
    {
        let deduped = dedup_blocks(blocks);
        BlockMatcher { blocks: deduped, blacklist: false }
    }

    /// The blacklist over the given blocks: matches exactly the blocks not listed.
    pub fn exclude(blocks: &Vec<B>) -> (r: Self)
        requires
            eq_exact::<B>(),
        ensures
            r.wf(),
            r.blacklist,
            forall|b: B| #[trigger] r.blocks@.contains(b) <==> blocks@.contains(b),
            forall|b: B| #[trigger] r.spec_matches(b) <==> !blocks@.contains(b),
    {
        let deduped = dedup_blocks(blocks);
        BlockMatcher { blocks: deduped, blacklist: true }
    }

    /// Membership test with inversion: set membership XOR the blacklist flag.
    /// A pure function of the matcher's fields; it never fails.
    pub fn matches(&self, block: &B) -> (r: bool)
        requires
            eq_exact::<B>(),
        ensures
            r == self.spec_matches(*block),
    {
        contains_block(&self.blocks, block) ^ self.blacklist
    }
}

/// Whether `blocks` holds `block`, by linear scan with `==`.
fn contains_block<B: Copy + PartialEq>(blocks: &Vec<B>, block: &B) -> (r: bool)
    requires
        eq_exact::<B>(),
    ensures
        r == blocks@.contains(*block),
{
    let mut i: usize = 0;
    while i < blocks.len()
        invariant
            eq_exact::<B>(),
            i <= blocks@.len(),
            forall|j: int| 0 <= j < i ==> blocks@[j] != *block,
        decreases blocks@.len() - i,
    {
        if blocks[i] == *block {
            return true;
        }
        i = i + 1;
    }
    false
}

/// The given blocks with duplicates removed; order of first occurrence kept.
fn dedup_blocks<B: Copy + PartialEq>(blocks: &Vec<B>) -> (r: Vec<B>)
    requires
        eq_exact::<B>(),
    ensures
        forall|i: int, j: int| 0 <= i < j < r@.len() ==> r@[i] != r@[j],
        forall|b: B| #[trigger] r@.contains(b) <==> blocks@.contains(b),
{
    let mut out: Vec<B> = Vec::new();
    let mut i: usize = 0;
    while i < blocks.len()
        invariant
            eq_exact::<B>(),
            i <= blocks@.len(),
            forall|p: int, q: int| 0 <= p < q < out@.len() ==> out@[p] != out@[q],
            forall|b: B| #[trigger] out@.contains(b) <==> blocks@.subrange(0, i as int).contains(b),
        decreases blocks@.len() - i,
    {
        let ghost prefix = blocks@.subrange(0, i as int);
        let b = blocks[i];
        if !contains_block(&out, &b) {
            let ghost old_out = out@;
            out.push(b);
            proof {
                assert forall|x: B| #[trigger] out@.contains(x) <==> old_out.contains(x) || x == b by {
                    lemma_seq_contains_after_push(old_out, b, x);
                }
            }
        }
        i = i + 1;
        proof {
            assert(blocks@.subrange(0, i as int) == prefix.push(blocks@[i - 1]));
            assert forall|x: B|
                #[trigger] blocks@.subrange(0, i as int).contains(x) <==> prefix.contains(x) || x
                    == blocks@[i - 1] by {
                lemma_seq_contains_after_push(prefix, blocks@[i - 1], x);
            }
        }
    }
    proof {
        assert(blocks@.subrange(0, blocks@.len() as int) == blocks@);
    }
    out
}

} // verus!
