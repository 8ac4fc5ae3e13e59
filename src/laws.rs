//! Properties that relate several operations of [`CopyVec`].
use vstd::prelude::*;
use vstd::std_specs::cmp::PartialEqSpec;
use crate::CopyVec;

verus! {

/// Pushing `x` onto a vector with room and then popping gives back `Some(x)`
/// and restores the vector's previous contents: `push` leaves `v@.push(x)`,
/// and `pop` on that returns its last element and leaves it without it.
pub proof fn lemma_push_then_pop<T: Copy, const N: usize>(v: &CopyVec<T, N>, x: T)
    requires
        v@.len() < N,
    ensures
        v@.push(x).len() > 0,
        v@.push(x).last() == x,
        v@.push(x).drop_last() == v@,
{
    assert(v@.push(x).drop_last() =~= v@);
}

/// Removing at index 1 from `[a, b, c, d]` returns `b` and leaves `[a, c, d]`:
/// the remaining elements keep their order.
pub proof fn lemma_pop_at_keeps_order<T>(a: T, b: T, c: T, d: T)
    ensures
        seq![a, b, c, d][1] == b,
        seq![a, b, c, d].remove(1) == seq![a, c, d],
{
    assert(seq![a, b, c, d].remove(1) =~= seq![a, c, d]);
}

/// Where the elements compare by plain equality, two vectors are equal
/// exactly when their live elements are, whatever their unused slots hold.
pub proof fn lemma_eq_ignores_residue<T: Copy + PartialEq, const N: usize>(
    a: &CopyVec<T, N>,
    b: &CopyVec<T, N>,
)
    requires
        vstd::laws_eq::obeys_concrete_eq::<T>(),
    ensures
        a.eq_spec(b) <==> a@ == b@,
{
    reveal(vstd::laws_eq::obeys_concrete_eq);
    if a@ == b@ {
        assert(a.eq_spec(b));
    }
    if a.eq_spec(b) {
        assert(a@ =~= b@);
    }
}

} // verus!
