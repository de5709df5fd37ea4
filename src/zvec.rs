//! [`Vec`]'s analogue with collecting statistics and all corresponding types,
//! structs, traits, etc.
//!
//! Every method of [`ZVec`] records one operation in the collection's log and
//! then does the work of the `Vec` method of the same name.

use vstd::prelude::*;

use std::collections::TryReserveError;
use std::mem::MaybeUninit;
use std::ops::{Bound, RangeBounds};

use crate::bounds::{bounds_of, end_of, resolve, selects_within, start_of};
use crate::collection::{Operation, OperationType, Zond, ZondCollection, ZondHandler};
use crate::vec_std;
use crate::vec_std::{dedup_of, fits_in_memory, lemma_fewer_fit, subsequence_of};
use vstd::std_specs::cmp::PartialEqSpec;

verus! {

/// Describes [`ZVec`]'s operation types or, in other words, called methods.
#[derive(Debug, Clone)]
pub enum ZVecOperation<T: Clone> {
    New,
    WithCapacity { capacity: usize },
    Capacity,
    Reserve { additional: usize },
    ReserveExact { additional: usize },
    TryReserve { additional: usize },
    TryReserveExact { additional: usize },
    ShrinkToFit,
    ShrinkTo { min_capacity: usize },
    IntoBoxedSlice,
    Truncate { len: usize },
    AsSlice,
    AsMutSlice,
    SwapRemove { index: usize },
    Insert { index: usize, element: T },
    Remove { index: usize },
    Retain,
    RetainMut,
    DedupByKey,
    DedupBy,
    Push { value: T },
    Pop,
    Append { other: Vec<T> },
    Drain { start_bound: Bound<usize>, end_bound: Bound<usize> },
    Clear,
    Len,
    IsEmpty,
    SplitOff { at: usize },
    ResizeWith { new_len: usize },
    Leak,
    SpareCapacityMut,
    Resize { new_len: usize, value: T },
    ExtendFromSlice { other: Vec<T> },
    ExtendFromWithin { src_start_bound: Bound<usize>, src_end_bound: Bound<usize> },
    Dedup,
    Splice { start_bound: Bound<usize>, end_bound: Bound<usize> },
    IntoVec,
    FromVec { from: Vec<T> },
}

impl<T: Clone> OperationType for ZVecOperation<T> {}

/// `b` holds, one for one, clones of the items of `a`.
pub open spec fn clones_of<T: Clone>(a: Seq<T>, b: Seq<T>) -> bool {
    &&& b.len() == a.len()
    &&& forall|i: int| 0 <= i < a.len() ==> cloned::<T>(a[i], #[trigger] b[i])
}

// A copy of `v`, item by item.
fn clone_items<T: Clone>(v: &[T]) -> (r: Vec<T>)
    ensures
        clones_of(v@, r@),
{
    let mut r: Vec<T> = Vec::new();
    r.extend_from_slice(v);
    r
}

/// `ZVec` is a wrapper around [`Vec`] providing collecting statistics about operations.
#[verifier::reject_recursive_types(T)]
pub struct ZVec<T: Clone, H: ZondHandler<ZVecOperation<T>>> {
    inner: Vec<T>,
    zond_collection: ZondCollection<ZVecOperation<T>, H>,
}

impl<T: Clone, H: ZondHandler<ZVecOperation<T>>> View for ZVec<T, H> {
    type V = Seq<T>;

    closed spec fn view(&self) -> Seq<T> {
        self.inner@
    }
}

impl<T: Clone, H: ZondHandler<ZVecOperation<T>>> ZVec<T, H> {
    /// The log of the operations on this collection.
    pub closed spec fn log(&self) -> ZondCollection<ZVecOperation<T>, H> {
        self.zond_collection
    }

    pub open spec fn wf(&self) -> bool {
        self.log().wf()
    }

    /// The underlying vector.
    pub closed spec fn items(&self) -> Vec<T> {
        self.inner
    }

    // Builds the collection around `inner`, recording `operation` first.
    fn build(inner: Vec<T>, zond: Zond<ZVecOperation<T>, H>, operation: ZVecOperation<T>) -> (r: Self)
        requires
            zond.policy().wf(),
            zond.policy().fresh(),
        ensures
            r.wf(),
            r@ == inner@,
            r.log().handler() == zond.handler(),
            r.log().begins(zond.policy(), operation),
    {
        let mut zond_collection = ZondCollection::new(zond);
        let ghost pre = zond_collection;
        zond_collection.push_operation(operation);
        proof {
            assert(zond_collection.recorded() =~= seq![zond_collection.recorded().last()]);
            assert(pre.pending().push(zond_collection.recorded().last()) =~= seq![zond_collection.recorded().last()]);
            assert(pre.delivered().push(seq![zond_collection.recorded().last()]) =~= seq![seq![zond_collection.recorded().last()]]);
        }
        ZVec { inner, zond_collection }
    }

    /// Creates `ZVec` from existing `Vec` instance.
    pub fn from_vec(from: Vec<T>, zond: Zond<ZVecOperation<T>, H>) -> (r: Self)
        requires
            zond.policy().wf(),
            zond.policy().fresh(),
        ensures
            r.wf(),
            r@ == from@,
            r.log().handler() == zond.handler(),
            r.log().begins_any(zond.policy()),
            (r.log().last_kind() matches ZVecOperation::FromVec { from: c } && clones_of(from@, c@)),
    {
        let copy = clone_items(from.as_slice());
        Self::build(from, zond, ZVecOperation::FromVec { from: copy })
    }

    pub fn new(zond: Zond<ZVecOperation<T>, H>) -> (r: Self)
        requires
            zond.policy().wf(),
            zond.policy().fresh(),
        ensures
            r.wf(),
            r@ == Seq::<T>::empty(),
            r.log().handler() == zond.handler(),
            r.log().begins(zond.policy(), ZVecOperation::New),
    {
        Self::build(Vec::new(), zond, ZVecOperation::New)
    }

    pub fn with_capacity(capacity: usize, zond: Zond<ZVecOperation<T>, H>) -> (r: Self)
        requires
            fits_in_memory::<T>(capacity as int),
            zond.policy().wf(),
            zond.policy().fresh(),
        ensures
            r.wf(),
            r@ == Seq::<T>::empty(),
            r.log().handler() == zond.handler(),
            r.log().begins(zond.policy(), ZVecOperation::WithCapacity { capacity }),
    {
        Self::build(Vec::with_capacity(capacity), zond, ZVecOperation::WithCapacity { capacity })
    }

    pub fn capacity(&mut self) -> (r: usize)
        requires
            old(self).wf(),
        ensures
            final(self).wf(),
            final(self)@ == old(self)@,
            r >= old(self)@.len(),
            old(self).log().records(final(self).log(), ZVecOperation::Capacity),
    {
        self.zond_collection.push_operation(ZVecOperation::Capacity);
        vec_std::capacity(&self.inner)
    }

    pub fn reserve(&mut self, additional: usize)
        requires
            old(self).wf(),
            fits_in_memory::<T>(old(self)@.len() + additional),
        ensures
            final(self).wf(),
            final(self)@ == old(self)@,
            old(self).log().records(final(self).log(), ZVecOperation::Reserve { additional }),
    {
        self.zond_collection.push_operation(ZVecOperation::Reserve { additional });
        self.inner.reserve(additional)
    }

    pub fn reserve_exact(&mut self, additional: usize)
        requires
            old(self).wf(),
            fits_in_memory::<T>(old(self)@.len() + additional),
        ensures
            final(self).wf(),
            final(self)@ == old(self)@,
            old(self).log().records(final(self).log(), ZVecOperation::ReserveExact { additional }),
    {
        self.zond_collection.push_operation(ZVecOperation::ReserveExact { additional });
        vec_std::reserve_exact(&mut self.inner, additional)
    }

    pub fn try_reserve(&mut self, additional: usize) -> (r: Result<(), TryReserveError>)
        requires
            old(self).wf(),
        ensures
            final(self).wf(),
            final(self)@ == old(self)@,
            old(self).log().records(final(self).log(), ZVecOperation::TryReserve { additional }),
    {
        self.zond_collection.push_operation(ZVecOperation::TryReserve { additional });
        self.inner.try_reserve(additional)
    }

    pub fn try_reserve_exact(&mut self, additional: usize) -> (r: Result<(), TryReserveError>)
        requires
            old(self).wf(),
        ensures
            final(self).wf(),
            final(self)@ == old(self)@,
            !fits_in_memory::<T>(old(self)@.len() + additional) ==> (r is Err),
            old(self).log().records(final(self).log(), ZVecOperation::TryReserveExact { additional }),
    {
        self.zond_collection.push_operation(ZVecOperation::TryReserveExact { additional });
        vec_std::try_reserve_exact(&mut self.inner, additional)
    }

    pub fn shrink_to_fit(&mut self)
        requires
            old(self).wf(),
        ensures
            final(self).wf(),
            final(self)@ == old(self)@,
            old(self).log().records(final(self).log(), ZVecOperation::ShrinkToFit),
    {
        self.zond_collection.push_operation(ZVecOperation::ShrinkToFit);
        vec_std::shrink_to_fit(&mut self.inner)
    }

    pub fn shrink_to(&mut self, min_capacity: usize)
        requires
            old(self).wf(),
        ensures
            final(self).wf(),
            final(self)@ == old(self)@,
            old(self).log().records(final(self).log(), ZVecOperation::ShrinkTo { min_capacity }),
    {
        self.zond_collection.push_operation(ZVecOperation::ShrinkTo { min_capacity });
        vec_std::shrink_to(&mut self.inner, min_capacity)
    }

    pub fn truncate(&mut self, len: usize)
        requires
            old(self).wf(),
        ensures
            final(self).wf(),
            len <= old(self)@.len() ==> final(self)@ == old(self)@.subrange(0, len as int),
            len > old(self)@.len() ==> final(self)@ == old(self)@,
            old(self).log().records(final(self).log(), ZVecOperation::Truncate { len }),
    {
        self.zond_collection.push_operation(ZVecOperation::Truncate { len });
        self.inner.truncate(len)
    }

    pub fn as_slice(&mut self) -> (r: &[T])
        requires
            old(self).wf(),
        ensures
            final(self).wf(),
            final(self)@ == old(self)@,
            r@ == old(self)@,
            old(self).log().records(final(self).log(), ZVecOperation::AsSlice),
    {
        self.zond_collection.push_operation(ZVecOperation::AsSlice);
        self.inner.as_slice()
    }

    pub fn as_mut_slice(&mut self) -> (r: &mut [T])
        requires
            old(self).wf(),
        ensures
            final(self).wf(),
            r@ == old(self)@,
            final(self)@ == final(r)@,
            old(self).log().records(final(self).log(), ZVecOperation::AsMutSlice),
    {
        self.zond_collection.push_operation(ZVecOperation::AsMutSlice);
        self.inner.as_mut_slice()
    }

    pub fn swap_remove(&mut self, index: usize) -> (r: T)
        requires
            old(self).wf(),
            index < old(self)@.len(),
        ensures
            final(self).wf(),
            r == old(self)@[index as int],
            final(self)@ == old(self)@.update(index as int, old(self)@.last()).drop_last(),
            old(self).log().records(final(self).log(), ZVecOperation::SwapRemove { index }),
    {
        self.zond_collection.push_operation(ZVecOperation::SwapRemove { index });
        self.inner.swap_remove(index)
    }

    pub fn insert(&mut self, index: usize, element: T)
        requires
            old(self).wf(),
            index <= old(self)@.len(),
        ensures
            final(self).wf(),
            final(self)@ == old(self)@.insert(index as int, element),
            old(self).log().records_one(final(self).log()),
            (final(self).log().last_kind() matches ZVecOperation::Insert { index: i, element: c } && i == index
                && cloned(element, c)),
    {
        self.zond_collection.push_operation(ZVecOperation::Insert { index, element: element.clone() });
        self.inner.insert(index, element)
    }

    pub fn remove(&mut self, index: usize) -> (r: T)
        requires
            old(self).wf(),
            index < old(self)@.len(),
        ensures
            final(self).wf(),
            r == old(self)@[index as int],
            final(self)@ == old(self)@.remove(index as int),
            old(self).log().records(final(self).log(), ZVecOperation::Remove { index }),
    {
        self.zond_collection.push_operation(ZVecOperation::Remove { index });
        self.inner.remove(index)
    }

    pub fn retain<F: FnMut(&T) -> bool>(&mut self, f: F)
        requires
            old(self).wf(),
        ensures
            final(self).wf(),
            subsequence_of(final(self)@, old(self)@),
            old(self).log().records(final(self).log(), ZVecOperation::Retain),
    {
        self.zond_collection.push_operation(ZVecOperation::Retain);
        vec_std::retain(&mut self.inner, f)
    }

    pub fn retain_mut<F: FnMut(&mut T) -> bool>(&mut self, f: F)
        requires
            old(self).wf(),
        ensures
            final(self).wf(),
            final(self)@.len() <= old(self)@.len(),
            old(self).log().records(final(self).log(), ZVecOperation::RetainMut),
    {
        self.zond_collection.push_operation(ZVecOperation::RetainMut);
        vec_std::retain_mut(&mut self.inner, f)
    }

    pub fn dedup_by_key<K: PartialEq, F: FnMut(&mut T) -> K>(&mut self, key: F)
        requires
            old(self).wf(),
        ensures
            final(self).wf(),
            final(self)@.len() <= old(self)@.len(),
            old(self)@.len() > 0 ==> final(self)@.len() > 0,
            old(self).log().records(final(self).log(), ZVecOperation::DedupByKey),
    {
        self.zond_collection.push_operation(ZVecOperation::DedupByKey);
        vec_std::dedup_by_key(&mut self.inner, key)
    }

    pub fn dedup_by<F: FnMut(&mut T, &mut T) -> bool>(&mut self, same_bucket: F)
        requires
            old(self).wf(),
        ensures
            final(self).wf(),
            final(self)@.len() <= old(self)@.len(),
            old(self)@.len() > 0 ==> final(self)@.len() > 0,
            old(self).log().records(final(self).log(), ZVecOperation::DedupBy),
    {
        self.zond_collection.push_operation(ZVecOperation::DedupBy);
        vec_std::dedup_by(&mut self.inner, same_bucket)
    }

    pub fn push(&mut self, value: T)
        requires
            old(self).wf(),
        ensures
            final(self).wf(),
            final(self)@ == old(self)@.push(value),
            old(self).log().records_one(final(self).log()),
            (final(self).log().last_kind() matches ZVecOperation::Push { value: c } && cloned(value, c)),
    {
        self.zond_collection.push_operation(ZVecOperation::Push { value: value.clone() });
        self.inner.push(value)
    }

    pub fn pop(&mut self) -> (r: Option<T>)
        requires
            old(self).wf(),
        ensures
            final(self).wf(),
            old(self)@.len() > 0 ==> (r == Some(old(self)@.last()) && final(self)@ == old(self)@.drop_last()),
            old(self)@.len() == 0 ==> (r == None::<T> && final(self)@ == old(self)@),
            old(self).log().records(final(self).log(), ZVecOperation::Pop),
    {
        self.zond_collection.push_operation(ZVecOperation::Pop);
        self.inner.pop()
    }

    pub fn append(&mut self, other: &mut Vec<T>)
        requires
            old(self).wf(),
        ensures
            final(self).wf(),
            final(self)@ == old(self)@ + old(other)@,
            final(other)@ == Seq::<T>::empty(),
            old(self).log().records_one(final(self).log()),
            (final(self).log().last_kind() matches ZVecOperation::Append { other: c } && clones_of(old(other)@, c@)),
    {
        self.zond_collection.push_operation(ZVecOperation::Append { other: clone_items(other.as_slice()) });
        self.inner.append(other)
    }

    /// Removes the items that `range` selects and returns them, in order; or,
    /// where `range` reaches outside the vector, leaves it as it is and
    /// returns `None`.
    pub fn drain<R: RangeBounds<usize>>(&mut self, range: R) -> (r: Option<Vec<T>>)
        requires
            old(self).wf(),
        ensures
            final(self).wf(),
            old(self).log().records_one(final(self).log()),
            final(self).log().last_kind() is Drain,
            ({
                let start = final(self).log().last_kind()->Drain_start_bound;
                let end = final(self).log().last_kind()->Drain_end_bound;
                let len = old(self)@.len();
                &&& r is Some <==> selects_within(start, end, len)
                &&& r matches Some(d) ==> {
                    &&& d@ == old(self)@.subrange(start_of(start), end_of(end, len))
                    &&& final(self)@ == old(self)@.subrange(0, start_of(start)) + old(self)@.subrange(end_of(end, len), len as int)
                }
                &&& r is None ==> final(self)@ == old(self)@
            }),
    {
        let (start_bound, end_bound) = bounds_of(&range);
        let ghost (start, end) = (start_bound, end_bound);
        let span = resolve(&start_bound, &end_bound, self.inner.len());
        self.zond_collection.push_operation(ZVecOperation::Drain { start_bound, end_bound });
        match span {
            Some((s, e)) => Some(vec_std::drain(&mut self.inner, s, e)),
            None => None,
        }
    }

    pub fn clear(&mut self)
        requires
            old(self).wf(),
        ensures
            final(self).wf(),
            final(self)@ == Seq::<T>::empty(),
            old(self).log().records(final(self).log(), ZVecOperation::Clear),
    {
        self.zond_collection.push_operation(ZVecOperation::Clear);
        self.inner.clear()
    }

    pub fn len(&mut self) -> (r: usize)
        requires
            old(self).wf(),
        ensures
            final(self).wf(),
            final(self)@ == old(self)@,
            r == old(self)@.len(),
            old(self).log().records(final(self).log(), ZVecOperation::Len),
    {
        self.zond_collection.push_operation(ZVecOperation::Len);
        self.inner.len()
    }

    pub fn is_empty(&mut self) -> (r: bool)
        requires
            old(self).wf(),
        ensures
            final(self).wf(),
            final(self)@ == old(self)@,
            r == (old(self)@.len() == 0),
            old(self).log().records(final(self).log(), ZVecOperation::IsEmpty),
    {
        self.zond_collection.push_operation(ZVecOperation::IsEmpty);
        self.inner.is_empty()
    }

    pub fn split_off(&mut self, at: usize) -> (r: Vec<T>)
        requires
            old(self).wf(),
            at <= old(self)@.len(),
        ensures
            final(self).wf(),
            final(self)@ == old(self)@.subrange(0, at as int),
            r@ == old(self)@.subrange(at as int, old(self)@.len() as int),
            old(self).log().records(final(self).log(), ZVecOperation::SplitOff { at }),
    {
        self.zond_collection.push_operation(ZVecOperation::SplitOff { at });
        self.inner.split_off(at)
    }

    pub fn resize_with<F: FnMut() -> T>(&mut self, new_len: usize, f: F)
        requires
            old(self).wf(),
            fits_in_memory::<T>(new_len as int),
        ensures
            final(self).wf(),
            final(self)@.len() == new_len,
            new_len <= old(self)@.len() ==> final(self)@ == old(self)@.subrange(0, new_len as int),
            new_len > old(self)@.len() ==> final(self)@.subrange(0, old(self)@.len() as int) == old(self)@,
            old(self).log().records(final(self).log(), ZVecOperation::ResizeWith { new_len }),
    {
        self.zond_collection.push_operation(ZVecOperation::ResizeWith { new_len });
        vec_std::resize_with(&mut self.inner, new_len, f)
    }

    pub fn spare_capacity_mut(&mut self) -> (r: &mut [MaybeUninit<T>])
        requires
            old(self).wf(),
        ensures
            final(self).wf(),
            final(self)@ == old(self)@,
            old(self).log().records(final(self).log(), ZVecOperation::SpareCapacityMut),
    {
        self.zond_collection.push_operation(ZVecOperation::SpareCapacityMut);
        vec_std::spare_capacity_mut(&mut self.inner)
    }

    pub fn resize(&mut self, new_len: usize, value: T)
        requires
            old(self).wf(),
            fits_in_memory::<T>(new_len as int),
        ensures
            final(self).wf(),
            new_len <= old(self)@.len() ==> final(self)@ == old(self)@.subrange(0, new_len as int),
            new_len > old(self)@.len() ==> {
                &&& final(self)@.len() == new_len
                &&& final(self)@.subrange(0, old(self)@.len() as int) == old(self)@
                &&& forall|i: int| old(self)@.len() <= i < new_len ==> cloned(value, #[trigger] final(self)@[i])
            },
            old(self).log().records_one(final(self).log()),
            (final(self).log().last_kind() matches ZVecOperation::Resize { new_len: n, value: c } && n == new_len
                && cloned(value, c)),
    {
        self.zond_collection.push_operation(ZVecOperation::Resize { new_len, value: value.clone() });
        self.inner.resize(new_len, value)
    }

    pub fn extend_from_slice(&mut self, other: &[T])
        requires
            old(self).wf(),
        ensures
            final(self).wf(),
            final(self)@.len() == old(self)@.len() + other@.len(),
            final(self)@.subrange(0, old(self)@.len() as int) == old(self)@,
            forall|i: int| 0 <= i < other@.len() ==> cloned(other@[i], #[trigger] final(self)@[old(self)@.len() + i]),
            old(self).log().records_one(final(self).log()),
            (final(self).log().last_kind() matches ZVecOperation::ExtendFromSlice { other: c } && clones_of(other@, c@)),
    {
        self.zond_collection.push_operation(ZVecOperation::ExtendFromSlice { other: clone_items(other) });
        let ghost pre = self.inner@;
        self.inner.extend_from_slice(other);
        proof {
            assert forall|i: int| 0 <= i < old(self)@.len() implies self.inner@.subrange(0, old(self)@.len() as int)[i] == pre[i] by {}
            assert(self.inner@.subrange(0, old(self)@.len() as int) =~= pre);
            assert forall|i: int| 0 <= i < other@.len() implies cloned(other@[i], #[trigger] self.inner@[old(self)@.len() + i]) by {
                assert(old(self)@.len() + i >= pre.len());
            }
        }
    }

    /// Appends clones of the items that `src` selects and returns `true`; or,
    /// where `src` reaches outside the vector, leaves it as it is and returns
    /// `false`.
    pub fn extend_from_within<R: RangeBounds<usize>>(&mut self, src: R) -> (r: bool)
        requires
            old(self).wf(),
            fits_in_memory::<T>(2 * old(self)@.len() as int),
        ensures
            final(self).wf(),
            old(self).log().records_one(final(self).log()),
            final(self).log().last_kind() is ExtendFromWithin,
            ({
                let start = start_of(final(self).log().last_kind()->ExtendFromWithin_src_start_bound);
                let end = end_of(final(self).log().last_kind()->ExtendFromWithin_src_end_bound, old(self)@.len());
                let len = old(self)@.len();
                &&& r == (start <= end <= len)
                &&& r ==> {
                    &&& final(self)@.len() == len + (end - start)
                    &&& final(self)@.subrange(0, len as int) == old(self)@
                    &&& forall|i: int| 0 <= i < end - start ==> cloned(old(self)@[start + i], #[trigger] final(self)@[len + i])
                }
                &&& !r ==> final(self)@ == old(self)@
            }),
    {
        let (src_start_bound, src_end_bound) = bounds_of(&src);
        let span = resolve(&src_start_bound, &src_end_bound, self.inner.len());
        self.zond_collection.push_operation(ZVecOperation::ExtendFromWithin { src_start_bound, src_end_bound });
        match span {
            Some((s, e)) => {
                proof {
                    lemma_fewer_fit::<T>(self.inner@.len() + (e - s), 2 * self.inner@.len() as int);
                }
                vec_std::extend_from_within(&mut self.inner, s, e);
                true
            },
            None => false,
        }
    }

    /// Puts the items of `replace_with` in place of those that `range` selects
    /// and returns the removed ones, in order; or, where `range` reaches
    /// outside the vector, leaves it as it is and returns `None`.
    pub fn splice<R: RangeBounds<usize>>(&mut self, range: R, replace_with: Vec<T>) -> (r: Option<Vec<T>>)
        requires
            old(self).wf(),
            fits_in_memory::<T>(old(self)@.len() + replace_with@.len() as int),
        ensures
            final(self).wf(),
            old(self).log().records_one(final(self).log()),
            final(self).log().last_kind() is Splice,
            ({
                let start = final(self).log().last_kind()->Splice_start_bound;
                let end = final(self).log().last_kind()->Splice_end_bound;
                let len = old(self)@.len();
                &&& r is Some <==> selects_within(start, end, len)
                &&& r matches Some(d) ==> {
                    &&& d@ == old(self)@.subrange(start_of(start), end_of(end, len))
                    &&& final(self)@ == old(self)@.subrange(0, start_of(start)) + replace_with@ + old(self)@.subrange(
                        end_of(end, len),
                        len as int,
                    )
                }
                &&& r is None ==> final(self)@ == old(self)@
            }),
    {
        let (start_bound, end_bound) = bounds_of(&range);
        let span = resolve(&start_bound, &end_bound, self.inner.len());
        self.zond_collection.push_operation(ZVecOperation::Splice { start_bound, end_bound });
        match span {
            Some((s, e)) => {
                proof {
                    lemma_fewer_fit::<T>(
                        self.inner@.len() - (e - s) + replace_with@.len(),
                        self.inner@.len() + replace_with@.len() as int,
                    );
                }
                Some(vec_std::splice(&mut self.inner, s, e, replace_with))
            },
            None => None,
        }
    }

    /// The items in a boxed slice, after the last hand-over. Returns, beside
    /// them, every batch handed over in the collection's life.
    pub fn into_boxed_slice(self) -> (r: (Box<[T]>, Ghost<Seq<Seq<Operation<ZVecOperation<T>>>>>))
        ensures
            r.0@ == self@,
            self.wf() ==> self.log().ends_with(ZVecOperation::IntoBoxedSlice, r.1@),
    {
        let ZVec { inner, zond_collection } = self;
        let batches = zond_collection.end_with(ZVecOperation::IntoBoxedSlice);
        (vec_std::into_boxed_slice(inner), batches)
    }

    /// The items in a slice that lives on, after the last hand-over. Returns,
    /// beside them, every batch handed over in the collection's life.
    pub fn leak<'a>(self) -> (r: (&'a mut [T], Ghost<Seq<Seq<Operation<ZVecOperation<T>>>>>))
        ensures
            r.0@ == self@,
            self.wf() ==> self.log().ends_with(ZVecOperation::Leak, r.1@),
    {
        let ZVec { inner, zond_collection } = self;
        let batches = zond_collection.end_with(ZVecOperation::Leak);
        (vec_std::leak(inner), batches)
    }

    /// Gives the items back as a `Vec`, after the last hand-over. Returns,
    /// beside them, every batch handed over in the collection's life.
    pub fn into_vec(self) -> (r: (Vec<T>, Ghost<Seq<Seq<Operation<ZVecOperation<T>>>>>))
        ensures
            r.0 == self.items(),
            r.0@ == self@,
            self.wf() ==> self.log().ends_with(ZVecOperation::IntoVec, r.1@),
    {
        let ZVec { inner, zond_collection } = self;
        let batches = zond_collection.end_with(ZVecOperation::IntoVec);
        (inner, batches)
    }

    /// Ends the collection: whatever was collected is handed over, whatever
    /// the policy, in one last batch. Returns every batch handed over in the
    /// collection's life, that one last.
    pub fn finish(self) -> (batches: Ghost<Seq<Seq<Operation<ZVecOperation<T>>>>>)
        ensures
            batches@ == self.log().delivered().push(self.log().pending()),
    {
        let ZVec { inner: _, mut zond_collection } = self;
        zond_collection.teardown();
        Ghost(zond_collection.delivered())
    }
}

impl<T: Clone + PartialEq + PartialEqSpec, H: ZondHandler<ZVecOperation<T>>> ZVec<T, H> {
    pub fn dedup(&mut self)
        requires
            old(self).wf(),
        ensures
            final(self).wf(),
            subsequence_of(final(self)@, old(self)@),
            T::obeys_eq_spec() ==> final(self)@ == dedup_of(old(self)@),
            old(self).log().records(final(self).log(), ZVecOperation::Dedup),
    {
        self.zond_collection.push_operation(ZVecOperation::Dedup);
        vec_std::dedup(&mut self.inner)
    }
}

impl<T: Clone, H: ZondHandler<ZVecOperation<T>>> From<ZVec<T, H>> for Vec<T> {
    /// The items, after the last hand-over.
    fn from(zvec: ZVec<T, H>) -> (r: Vec<T>) {
        zvec.into_vec().0
    }
}

impl<T: Clone, H: ZondHandler<ZVecOperation<T>>> vstd::std_specs::convert::FromSpecImpl<ZVec<T, H>> for Vec<T> {
    open spec fn obeys_from_spec() -> bool {
        true
    }

    open spec fn from_spec(zvec: ZVec<T, H>) -> Vec<T> {
        zvec.items()
    }
}

} // verus!
