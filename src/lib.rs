//! A vector of `Copy` elements whose storage is a fixed array of `N` slots.
//!
//! Only the first `len` slots are live; the rest hold whatever was last
//! written there and are never observed through the public interface.
//! A `Copy` type offers no value to fill fresh slots with, so the array comes
//! into being with the first element pushed, every slot a copy of it.
use vstd::prelude::*;
use vstd::std_specs::cmp::PartialEqSpec;

pub mod laws;

verus! {

/// Fixed-capacity vector of `Copy` elements backed by an inline array.
pub struct CopyVec<T: Copy, const N: usize> {
    len: usize,
    slots: Option<[T; N]>,
}

impl<T: Copy, const N: usize> View for CopyVec<T, N> {
    type V = Seq<T>;

    /// The live elements, in order.
    closed spec fn view(&self) -> Seq<T> {
        match self.slots {
            Some(array) => array@.subrange(0, self.len as int),
            None => Seq::empty(),
        }
    }
}

impl<T: Copy, const N: usize> CopyVec<T, N> {
    /// The length never exceeds the capacity, and a vector without storage
    /// is empty.
    #[verifier::type_invariant]
    closed spec fn inv(self) -> bool {
        &&& self.len <= N
        &&& self.slots is None ==> self.len == 0
    }

    /// Creates an empty vector; its storage is made by the first push.
    pub fn new() -> (r: Self)
        ensures
            r@ == Seq::<T>::empty(),
    {
        CopyVec { len: 0, slots: None }
    }

    /// The live element at `index`.
    fn get(&self, index: usize) -> (r: T)
        requires
            index < self@.len(),
        ensures
            r == self@[index as int],
    {
        proof {
            use_type_invariant(self);
        }
        self.slots.as_ref().unwrap()[index]
    }

    /// The number of live elements; whatever sequence of operations produced
    /// the vector, it never exceeds the capacity.
    pub fn len(&self) -> (r: usize)
        ensures
            r == self@.len(),
            r <= N,
    {
        proof {
            use_type_invariant(self);
        }
        self.len
    }

    /// Whether the vector holds no element.
    pub fn is_empty(&self) -> (r: bool)
        ensures
            r == (self@.len() == 0),
    {
        self.len() == 0
    }

    /// The fixed capacity `N`.
    pub fn capacity(&self) -> (r: usize)
        ensures
            r == N,
    {
        N
    }

    /// How many more elements fit: `N - len`.
    pub fn remaining_capacity(&self) -> (r: usize)
        ensures
            r == N - self@.len(),
    {
        proof {
            use_type_invariant(self);
        }
        N.saturating_sub(self.len)
    }

    /// Appends `value` if there is room; otherwise hands `value` back and
    /// leaves the vector unchanged.
    pub fn try_push(&mut self, value: T) -> (r: Result<(), T>)
        ensures
            old(self)@.len() < N ==> r == Ok::<(), T>(()) && final(self)@ == old(self)@.push(value),
            old(self)@.len() >= N ==> r == Err::<(), T>(value) && final(self)@ == old(self)@,
    {
        proof {
            use_type_invariant(&*self);
        }
        if self.len >= N {
            return Err(value);
        }
        let i = self.len;
        if self.slots.is_none() {
            self.slots = Some(vstd::array::array_fill_for_copy_types(value));
        } else {
            write_slot(&mut self.slots, i, value);
        }
        self.len = i + 1;
        assert(self@ =~= old(self)@.push(value));
        Ok(())
    }

    /// Appends `value`; the vector must not be full.
    pub fn push(&mut self, value: T)
        requires
            old(self)@.len() < N,
        ensures
            final(self)@ == old(self)@.push(value),
    {
        let pushed = self.try_push(value);
        pushed.ok().expect("copyvec out of capacity");
    }

    /// Removes and returns the last element, or `None` when empty.
    pub fn pop(&mut self) -> (r: Option<T>)
        ensures
            old(self)@.len() == 0 ==> r == None::<T> && final(self)@ == old(self)@,
            old(self)@.len() > 0 ==> r == Some(old(self)@.last())
                && final(self)@ == old(self)@.drop_last(),
    {
        proof {
            use_type_invariant(&*self);
        }
        if self.len > 0 {
            let last = self.len - 1;
            let elem = self.get(last);
            self.len = last;
            assert(self@ =~= old(self)@.drop_last());
            Some(elem)
        } else {
            None
        }
    }

    /// Removes the element at `index`, shifting the later ones left by one
    /// so that their order is kept; `None` (and no change) when `index` is
    /// not below the length.
    pub fn pop_at(&mut self, index: usize) -> (r: Option<T>)
        ensures
            index >= old(self)@.len() ==> r == None::<T> && final(self)@ == old(self)@,
            index < old(self)@.len() ==> r == Some(old(self)@[index as int])
                && final(self)@ == old(self)@.remove(index as int),
    {
        proof {
            use_type_invariant(&*self);
        }
        if index >= self.len {
            return None;
        }
        let value = self.get(index);
        let len = self.len;
        shift_left(&mut self.slots, index, len);
        self.len = len - 1;
        assert(self@ =~= old(self)@.remove(index as int));
        Some(value)
    }

    /// Removes and returns the element at `index`, which must be below the
    /// length; later elements keep their order.
    pub fn remove(&mut self, index: usize) -> (r: T)
        requires
            index < old(self)@.len(),
        ensures
            r == old(self)@[index as int],
            final(self)@ == old(self)@.remove(index as int),
    {
        self.pop_at(index).expect("index out of range of copyvec")
    }

    /// Shortens the vector to `new_len` elements; does nothing when
    /// `new_len` is not below the length.
    pub fn truncate(&mut self, new_len: usize)
        ensures
            new_len < old(self)@.len() ==> final(self)@ == old(self)@.subrange(0, new_len as int),
            new_len >= old(self)@.len() ==> final(self)@ == old(self)@,
    {
        proof {
            use_type_invariant(&*self);
        }
        if new_len < self.len {
            self.len = new_len;
            assert(self@ =~= old(self)@.subrange(0, new_len as int));
        }
    }

    /// The live elements as a slice.
    pub fn as_slice(&self) -> (r: &[T])
        ensures
            r@ == self@,
    {
        proof {
            use_type_invariant(self);
        }
        match &self.slots {
            Some(array) => {
                let (live, _) = array.as_slice().split_at(self.len);
                live
            },
            None => &[],
        }
    }

    /// The live elements as a mutable slice: elements may be changed in
    /// place, the length may not.
    pub fn as_mut_slice(&mut self) -> (r: &mut [T])
        ensures
            r@ == old(self)@,
            final(r)@.len() == r@.len() ==> final(self)@ == final(r)@,
    {
        proof {
            use_type_invariant(&*self);
        }
        let len = self.len;
        let whole = storage_mut(&mut self.slots);
        let (live, _) = whole.split_at_mut(len);
        live
    }

    /// Builds a vector holding `elems` in order; they must fit.
    pub fn from_slice(elems: &[T]) -> (r: Self)
        requires
            elems@.len() <= N,
        ensures
            r@ == elems@,
    {
        let mut r = Self::new();
        let mut i: usize = 0;
        while i < elems.len()
            invariant
                i <= elems@.len() <= N,
                r@ == elems@.subrange(0, i as int),
            decreases elems@.len() - i,
        {
            r.push(elems[i]);
            i = i + 1;
            assert(r@ =~= elems@.subrange(0, i as int));
        }
        assert(elems@.subrange(0, i as int) =~= elems@);
        r
    }

    /// The length to report when a decoded sequence does not fit: the
    /// sequence's announced length `size_hint` if there is one, else the
    /// number of elements taken so far.
    pub fn overflow_len(&self, size_hint: Option<usize>) -> (r: usize)
        ensures
            r == match size_hint {
                Some(n) => n,
                None => self@.len() as usize,
            },
    {
        match size_hint {
            Some(n) => n,
            None => self.len(),
        }
    }

    /// Removes every element.
    pub fn clear(&mut self)
        ensures
            final(self)@ == Seq::<T>::empty(),
    {
        self.truncate(0);
        assert(self@ =~= Seq::<T>::empty());
    }
}

// Mutable access to the storage goes through the functions below: Verus
// admits a `&mut` to a field of a type with an invariant only as the argument
// of a call that cannot unwind.

/// Stores `value` in slot `i` of the storage.
fn write_slot<T: Copy, const N: usize>(slots: &mut Option<[T; N]>, i: usize, value: T)
    requires
        (*old(slots)) is Some,
        i < N,
    ensures
        (*final(slots)) is Some,
        (*final(slots)).unwrap()@ == (*old(slots)).unwrap()@.update(i as int, value),
    no_unwind
{
    if let Some(array) = slots {
        array[i] = value;
    }
}

/// Closes the gap at `index` among the first `len` slots: each slot from
/// `index` to `len - 2` takes the value of the one after it.
fn shift_left<T: Copy, const N: usize>(slots: &mut Option<[T; N]>, index: usize, len: usize)
    requires
        (*old(slots)) is Some,
        index < len <= N,
    ensures
        (*final(slots)) is Some,
        (*final(slots)).unwrap()@.subrange(0, len - 1) == (*old(slots)).unwrap()@.subrange(
            0,
            len as int,
        ).remove(index as int),
    no_unwind
{
    if let Some(array) = slots {
        let ghost before = array@;
        let mut i: usize = index;
        while i + 1 < len
            invariant
                index <= i < len <= N,
                array@.len() == N,
                forall|j: int| 0 <= j < index ==> array@[j] == before[j],
                forall|j: int| index <= j < i ==> array@[j] == before[j + 1],
                forall|j: int| i <= j < len ==> array@[j] == before[j],
            decreases len - i,
        {
            let next = array[i + 1];
            array[i] = next;
            i = i + 1;
        }
        assert(array@.subrange(0, len - 1) =~= before.subrange(0, len as int).remove(index as int));
    }
}

/// All the slots of the storage as a mutable slice; empty when there is no
/// storage.
fn storage_mut<T: Copy, const N: usize>(slots: &mut Option<[T; N]>) -> (r: &mut [T])
    ensures
        r@ == match *old(slots) {
            Some(array) => array@,
            None => Seq::empty(),
        },
        (*final(slots)) is Some <==> (*old(slots)) is Some,
        match *final(slots) {
            Some(array) => array@ == final(r)@,
            None => final(r)@.len() == 0,
        },
    no_unwind
{
    match slots {
        Some(array) => array,
        None => &mut [],
    }
}

impl<T: Copy, const N: usize> Default for CopyVec<T, N> {
    fn default() -> (r: Self)
        ensures
            r@ == Seq::<T>::empty(),
    {
        Self::new()
    }
}

impl<T: Copy + PartialEq, const N: usize> PartialEq for CopyVec<T, N> {
    /// Element-wise comparison of the live elements; capacity and the slots
    /// past the length play no part.
    fn eq(&self, other: &Self) -> (r: bool) {
        proof {
            use_type_invariant(self);
            use_type_invariant(other);
        }
        if self.len != other.len {
            return false;
        }
        let mut i: usize = 0;
        while i < self.len
            invariant
                self.len == other.len <= N,
                self@.len() == self.len,
                other@.len() == other.len,
                i <= self.len,
                <T as PartialEqSpec>::obeys_eq_spec() ==> forall|j: int|
                    0 <= j < i ==> (#[trigger] self@[j]).eq_spec(&other@[j]),
            decreases self.len - i,
        {
            if !(self.get(i) == other.get(i)) {
                return false;
            }
            i = i + 1;
        }
        true
    }
}

impl<T: Copy + PartialEq, const N: usize> vstd::std_specs::cmp::PartialEqSpecImpl for CopyVec<T, N> {
    open spec fn obeys_eq_spec() -> bool {
        <T as PartialEqSpec>::obeys_eq_spec()
    }

    open spec fn eq_spec(&self, other: &Self) -> bool {
        &&& self@.len() == other@.len()
        &&& forall|i: int| 0 <= i < self@.len() ==> (#[trigger] self@[i]).eq_spec(&other@[i])
    }
}

impl<T: Copy, const N: usize> core::ops::Deref for CopyVec<T, N> {
    type Target = [T];

    fn deref(&self) -> (r: &[T])
        ensures
            r@ == self@,
    {
        self.as_slice()
    }
}

impl<T: Copy, const N: usize> core::ops::DerefMut for CopyVec<T, N> {
    fn deref_mut(&mut self) -> (r: &mut [T])
        ensures
            r@ == old(self)@,
            final(r)@.len() == r@.len() ==> final(self)@ == final(r)@,
    {
        self.as_mut_slice()
    }
}

impl<T: Copy, const N: usize> AsRef<[T]> for CopyVec<T, N> {
    fn as_ref(&self) -> (r: &[T])
        ensures
            r@ == self@,
    {
        self.as_slice()
    }
}

impl<T: Copy, const N: usize> AsMut<[T]> for CopyVec<T, N> {
    fn as_mut(&mut self) -> (r: &mut [T])
        ensures
            r@ == old(self)@,
            final(r)@.len() == r@.len() ==> final(self)@ == final(r)@,
    {
        self.as_mut_slice()
    }
}

impl<T: Copy, const N: usize> core::borrow::Borrow<[T]> for CopyVec<T, N> {
    fn borrow(&self) -> (r: &[T])
        ensures
            <[T] as View>::view(r) == CopyVec::<T, N>::view(self),
    {
        self.as_slice()
    }
}

impl<T: Copy, const N: usize> core::borrow::BorrowMut<[T]> for CopyVec<T, N> {
    fn borrow_mut(&mut self) -> (r: &mut [T])
        ensures
            <[T] as View>::view(r) == CopyVec::<T, N>::view(old(self)),
            <[T] as View>::view(final(r)).len() == <[T] as View>::view(r).len()
                ==> CopyVec::<T, N>::view(final(self)) == <[T] as View>::view(final(r)),
    {
        self.as_mut_slice()
    }
}

impl<T: Copy + Eq, const N: usize> Eq for CopyVec<T, N> {

}

} // verus!
