use vstd::prelude::*;

verus! {

/// Number of `false` entries in a sequence of allocation flags: the
/// count of pages a bitmap considers free.
pub open spec fn count_false(s: Seq<bool>) -> nat
    decreases s.len(),
{
    if s.len() == 0 {
        0
    } else {
        count_false(s.drop_last()) + (if s.last() {
            0nat
        } else {
            1nat
        })
    }
}

/// Appending an entry adds one to the count when it is `false`.
pub proof fn lemma_count_false_push(s: Seq<bool>, b: bool)
    ensures
        count_false(s.push(b)) == count_false(s) + (if b {
            0nat
        } else {
            1nat
        }),
{
    assert(s.push(b).drop_last() =~= s);
}

/// Setting a `false` entry to `true` lowers the count by one.
pub proof fn lemma_count_false_set_true(s: Seq<bool>, i: int)
    requires
        0 <= i < s.len(),
        !s[i],
    ensures
        count_false(s.update(i, true)) == count_false(s) - 1,
    decreases s.len(),
{
    if i == s.len() - 1 {
        assert(s.update(i, true).drop_last() =~= s.drop_last());
    } else {
        assert(s.update(i, true).drop_last() =~= s.drop_last().update(i, true));
        lemma_count_false_set_true(s.drop_last(), i);
    }
}

/// Clearing a `true` entry raises the count by one.
pub proof fn lemma_count_false_set_false(s: Seq<bool>, i: int)
    requires
        0 <= i < s.len(),
        s[i],
    ensures
        count_false(s.update(i, false)) == count_false(s) + 1,
    decreases s.len(),
{
    if i == s.len() - 1 {
        assert(s.update(i, false).drop_last() =~= s.drop_last());
    } else {
        assert(s.update(i, false).drop_last() =~= s.drop_last().update(i, false));
        lemma_count_false_set_false(s.drop_last(), i);
    }
}

/// The count is zero exactly when every entry is `true`.
pub proof fn lemma_count_false_zero_iff_all_true(s: Seq<bool>)
    ensures
        (count_false(s) == 0) <==> (forall|i: int| 0 <= i < s.len() ==> s[i]),
    decreases s.len(),
{
    if s.len() > 0 {
        lemma_count_false_zero_iff_all_true(s.drop_last());
        assert(forall|i: int| 0 <= i < s.len() - 1 ==> s.drop_last()[i] == s[i]);
    }
}

/// One step of a prefix scan: extending the prefix by entry `i` adds one
/// to the count exactly when that entry is `false`.
pub proof fn lemma_count_false_take_step(s: Seq<bool>, i: int)
    requires
        0 <= i < s.len(),
    ensures
        count_false(s.take(i + 1)) == count_false(s.take(i)) + (if s[i] {
            0nat
        } else {
            1nat
        }),
{
    assert(s.take(i + 1).drop_last() =~= s.take(i));
    assert(s.take(i + 1).last() == s[i]);
}

} // verus!
