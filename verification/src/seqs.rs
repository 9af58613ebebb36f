//! Which positions of a sequence survive a filter.

use vstd::prelude::*;

verus! {

/// The positions, in order, at which `flags` is set.
pub open spec fn kept(flags: Seq<bool>) -> Seq<int>
    decreases flags.len(),
{
    if flags.len() == 0 {
        Seq::empty()
    } else if flags.last() {
        kept(flags.drop_last()).push(flags.len() - 1)
    } else {
        kept(flags.drop_last())
    }
}

/// Every kept position is a position of a set flag, and the kept positions
/// increase.
pub proof fn lemma_kept_sound(flags: Seq<bool>)
    ensures
        kept(flags).len() <= flags.len(),
        forall|k: int|
            0 <= k < kept(flags).len() ==> 0 <= #[trigger] kept(flags)[k] < flags.len()
                && flags[kept(flags)[k]],
        forall|j: int, k: int|
            0 <= j < k < kept(flags).len() ==> #[trigger] kept(flags)[j] < #[trigger] kept(
                flags,
            )[k],
    decreases flags.len(),
{
    if flags.len() > 0 {
        let init = flags.drop_last();
        lemma_kept_sound(init);
    }
}

/// What one more flag adds to the kept positions.
pub proof fn lemma_kept_step(flags: Seq<bool>, i: int)
    requires
        0 <= i < flags.len(),
    ensures
        kept(flags.take(i + 1)) == if flags[i] {
            kept(flags.take(i)).push(i)
        } else {
            kept(flags.take(i))
        },
{
    assert(flags.take(i + 1).drop_last() == flags.take(i));
}

} // verus!
