use vstd::prelude::*;
use crate::boot::UntypedDesc;

verus! {

/// An untyped region together with whether it has been handed out.
#[derive(Clone, Copy, PartialEq, Eq, Structural, Debug)]
pub struct UsedUntypedDesc {
    pub desc: UntypedDesc,
    pub used: bool,
}

/// The region can back an object of `2^bits` bytes: it is ordinary memory,
/// large enough, and not yet handed out.
pub open spec fn fits(e: UsedUntypedDesc, bits: int) -> bool {
    &&& !e.desc.is_device
    &&& e.desc.size_bits >= bits
    &&& !e.used
}

/// Some region of the list fits.
pub open spec fn has_fit(s: Seq<UsedUntypedDesc>, bits: int) -> bool {
    exists|i: int| 0 <= i < s.len() && #[trigger] fits(s[i], bits)
}

/// `i` is the lowest index of a region that fits.
pub open spec fn is_first_fit(s: Seq<UsedUntypedDesc>, bits: int, i: int) -> bool {
    &&& 0 <= i < s.len()
    &&& fits(s[i], bits)
    &&& forall|j: int| 0 <= j < i ==> !#[trigger] fits(s[j], bits)
}

/// The lowest index of a region that fits (meaningful where `has_fit`).
pub open spec fn first_fit(s: Seq<UsedUntypedDesc>, bits: int) -> int {
    choose|i: int| is_first_fit(s, bits, i)
}

/// The list with the region at `i` marked as handed out.
pub open spec fn mark_used(s: Seq<UsedUntypedDesc>, i: int) -> Seq<UsedUntypedDesc> {
    s.update(i, UsedUntypedDesc { desc: s[i].desc, used: true })
}

/// How many regions of the list have been handed out.
pub open spec fn used_count(s: Seq<UsedUntypedDesc>) -> nat
    decreases s.len(),
{
    if s.len() == 0 {
        0
    } else {
        used_count(s.drop_last()) + if s.last().used { 1nat } else { 0nat }
    }
}

proof fn lemma_lowest_fit_below(s: Seq<UsedUntypedDesc>, bits: int, k: int)
    requires
        0 <= k < s.len(),
        fits(s[k], bits),
    ensures
        exists|i: int| is_first_fit(s, bits, i),
    decreases k,
{
    if exists|j: int| 0 <= j < k && #[trigger] fits(s[j], bits) {
        let j = choose|j: int| 0 <= j < k && #[trigger] fits(s[j], bits);
        lemma_lowest_fit_below(s, bits, j);
    } else {
        assert(is_first_fit(s, bits, k));
    }
}

/// Where some region fits, a lowest fitting one exists and `first_fit`
/// names it.
pub proof fn lemma_first_fit_exists(s: Seq<UsedUntypedDesc>, bits: int)
    requires
        has_fit(s, bits),
    ensures
        is_first_fit(s, bits, first_fit(s, bits)),
{
    let k = choose|k: int| 0 <= k < s.len() && #[trigger] fits(s[k], bits);
    lemma_lowest_fit_below(s, bits, k);
}

/// There is only one lowest fitting region.
pub proof fn lemma_first_fit_unique(s: Seq<UsedUntypedDesc>, bits: int, i: int, j: int)
    requires
        is_first_fit(s, bits, i),
        is_first_fit(s, bits, j),
    ensures
        i == j,
{
    if i < j {
        assert(!fits(s[i], bits));
    } else if j < i {
        assert(!fits(s[j], bits));
    }
}

/// No untyped region is handed out twice: once the lowest fitting region
/// for one request has been marked, a later request, of any size, is given
/// another region.
pub(crate) proof fn lemma_no_untyped_handed_out_twice(s: Seq<UsedUntypedDesc>, bits1: int, bits2: int)
    requires
        has_fit(s, bits1),
        has_fit(mark_used(s, first_fit(s, bits1)), bits2),
    ensures
        first_fit(mark_used(s, first_fit(s, bits1)), bits2) != first_fit(s, bits1),
{
    lemma_first_fit_exists(s, bits1);
    let t = mark_used(s, first_fit(s, bits1));
    lemma_first_fit_exists(t, bits2);
}

/// Handing out a region that was free adds exactly one to the number of
/// regions handed out.
pub(crate) proof fn lemma_mark_used_counts_one_more(s: Seq<UsedUntypedDesc>, i: int)
    requires
        0 <= i < s.len(),
        !s[i].used,
    ensures
        used_count(mark_used(s, i)) == used_count(s) + 1,
    decreases s.len(),
{
    let t = mark_used(s, i);
    if i == s.len() - 1 {
        assert(t.drop_last() =~= s.drop_last());
    } else {
        assert(t.drop_last() =~= mark_used(s.drop_last(), i));
        lemma_mark_used_counts_one_more(s.drop_last(), i);
    }
}

} // verus!
