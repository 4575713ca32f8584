use vstd::prelude::*;

verus! {

/// How many entries of `flags` are set.
pub open spec fn count_true(flags: Seq<bool>) -> nat
    decreases flags.len(),
{
    if flags.len() == 0 {
        0
    } else {
        count_true(flags.drop_last()) + if flags.last() { 1nat } else { 0nat }
    }
}

/// The identifiers, in increasing order, of the entries of `flags` that are
/// set, where the entry at index `i` has identifier `i + 1`.
pub open spec fn ids_where(flags: Seq<bool>) -> Seq<u32>
    decreases flags.len(),
{
    if flags.len() == 0 {
        seq![]
    } else if flags.last() {
        ids_where(flags.drop_last()).push(flags.len() as u32)
    } else {
        ids_where(flags.drop_last())
    }
}

/// A count never exceeds the number of entries.
pub proof fn lemma_count_true_bounded(flags: Seq<bool>)
    ensures
        count_true(flags) <= flags.len(),
    decreases flags.len(),
{
    if flags.len() > 0 {
        lemma_count_true_bounded(flags.drop_last());
    }
}

/// Appending an entry adds one to the count exactly when it is set.
pub proof fn lemma_count_true_push(flags: Seq<bool>, b: bool)
    ensures
        count_true(flags.push(b)) == count_true(flags) + if b { 1nat } else { 0nat },
{
    assert(flags.push(b).drop_last() =~= flags);
}

/// Clearing a set entry lowers the count by exactly one.
pub proof fn lemma_count_true_clear(flags: Seq<bool>, i: int)
    requires
        0 <= i < flags.len(),
        flags[i],
    ensures
        count_true(flags) >= 1,
        count_true(flags.update(i, false)) == count_true(flags) - 1,
    decreases flags.len(),
{
    let g = flags.update(i, false);
    if i == flags.len() - 1 {
        assert(g.drop_last() =~= flags.drop_last());
    } else {
        lemma_count_true_clear(flags.drop_last(), i);
        assert(g.drop_last() =~= flags.drop_last().update(i, false));
    }
}

/// Appending a set entry appends its identifier.
pub proof fn lemma_ids_where_push(flags: Seq<bool>, b: bool)
    ensures
        ids_where(flags.push(b)) == if b {
            ids_where(flags).push((flags.len() + 1) as u32)
        } else {
            ids_where(flags)
        },
{
    assert(flags.push(b).drop_last() =~= flags);
}

} // verus!
