//! The methods of `Vec` that a `ZVec` hands its work to and that have no
//! specification of their own here, each with what its documentation promises.

use vstd::prelude::*;

use std::collections::TryReserveError;
use std::mem::MaybeUninit;
use vstd::layout::size_of;
use vstd::std_specs::cmp::PartialEqSpec;

verus! {

/// `len` items of `T` fit in one allocation: at most `isize::MAX` bytes, and a
/// count that a `usize` holds.
pub open spec fn fits_in_memory<T>(len: int) -> bool {
    &&& 0 <= len <= usize::MAX
    &&& len * size_of::<T>() <= isize::MAX
}

/// `idx` picks the items of `sub` out of `s`, at positions that rise.
pub open spec fn picks<T>(idx: Seq<int>, sub: Seq<T>, s: Seq<T>) -> bool {
    &&& idx.len() == sub.len()
    &&& forall|i: int| 0 <= i < idx.len() ==> 0 <= #[trigger] idx[i] < s.len() && sub[i] == s[idx[i]]
    &&& forall|i: int, j: int| #![trigger idx[i], idx[j]] 0 <= i < j < idx.len() ==> idx[i] < idx[j]
}

/// `sub` is `s` with some items left out, the others in their order.
pub open spec fn subsequence_of<T>(sub: Seq<T>, s: Seq<T>) -> bool {
    exists|idx: Seq<int>| #[trigger] picks(idx, sub, s)
}

/// `s` with every run of consecutive items that `==` finds equal cut down to
/// its first item.
pub open spec fn dedup_of<T: PartialEqSpec>(s: Seq<T>) -> Seq<T>
    decreases s.len(),
{
    if s.len() == 0 {
        s
    } else {
        let kept = dedup_of(s.drop_last());
        if kept.len() > 0 && s.last().eq_spec(&kept.last()) {
            kept
        } else {
            kept.push(s.last())
        }
    }
}

/// Fewer items fit as well.
pub proof fn lemma_fewer_fit<T>(fewer: int, more: int)
    requires
        0 <= fewer <= more,
        fits_in_memory::<T>(more),
    ensures
        fits_in_memory::<T>(fewer),
{
    assert(fewer * size_of::<T>() <= more * size_of::<T>()) by (nonlinear_arith)
        requires
            0 <= fewer <= more,
    ;
}

/// Relies on `Vec::capacity`, which is never below the length.
#[verifier::external_body]
pub(crate) fn capacity<T>(v: &Vec<T>) -> (r: usize)
    ensures
        r >= v@.len(),
{
    v.capacity()
}

/// Relies on `Vec::reserve_exact`: the items stay as they were. It panics
/// only where the new capacity would not fit in memory.
#[verifier::external_body]
pub(crate) fn reserve_exact<T>(v: &mut Vec<T>, additional: usize)
    requires
        fits_in_memory::<T>(old(v)@.len() + additional),
    ensures
        final(v)@ == old(v)@,
{
    v.reserve_exact(additional)
}

/// Relies on `Vec::try_reserve_exact`: the items stay as they were, whether
/// or not the memory could be had, and a capacity that would not fit in
/// memory is an error.
#[verifier::external_body]
pub(crate) fn try_reserve_exact<T>(v: &mut Vec<T>, additional: usize) -> (r: Result<(), TryReserveError>)
    ensures
        final(v)@ == old(v)@,
        !fits_in_memory::<T>(old(v)@.len() + additional) ==> (r is Err),
{
    v.try_reserve_exact(additional)
}

/// Relies on `Vec::shrink_to_fit`: only the capacity changes.
#[verifier::external_body]
pub(crate) fn shrink_to_fit<T>(v: &mut Vec<T>)
    ensures
        final(v)@ == old(v)@,
{
    v.shrink_to_fit()
}

/// Relies on `Vec::shrink_to`: only the capacity changes.
#[verifier::external_body]
pub(crate) fn shrink_to<T>(v: &mut Vec<T>, min_capacity: usize)
    ensures
        final(v)@ == old(v)@,
{
    v.shrink_to(min_capacity)
}

/// Relies on `Vec::into_boxed_slice`: the same items, in a boxed slice.
#[verifier::external_body]
pub(crate) fn into_boxed_slice<T>(v: Vec<T>) -> (r: Box<[T]>)
    ensures
        r@ == v@,
{
    v.into_boxed_slice()
}

/// Relies on `Vec::leak`: the same items, in a slice that lives on.
#[verifier::external_body]
pub(crate) fn leak<'a, T>(v: Vec<T>) -> (r: &'a mut [T])
    ensures
        r@ == v@,
{
    v.leak()
}

/// Relies on `Vec::retain`: the items kept are some of those there before,
/// in their order.
#[verifier::external_body]
pub(crate) fn retain<T, F: FnMut(&T) -> bool>(v: &mut Vec<T>, f: F)
    ensures
        subsequence_of(final(v)@, old(v)@),
{
    v.retain(f)
}

/// Relies on `Vec::retain_mut`: no item is added.
#[verifier::external_body]
pub(crate) fn retain_mut<T, F: FnMut(&mut T) -> bool>(v: &mut Vec<T>, f: F)
    ensures
        final(v)@.len() <= old(v)@.len(),
{
    v.retain_mut(f)
}

/// Relies on `Vec::dedup_by_key`: no item is added, and the first item always
/// stays.
#[verifier::external_body]
pub(crate) fn dedup_by_key<T, K: PartialEq, F: FnMut(&mut T) -> K>(v: &mut Vec<T>, key: F)
    ensures
        final(v)@.len() <= old(v)@.len(),
        old(v)@.len() > 0 ==> final(v)@.len() > 0,
{
    v.dedup_by_key(key)
}

/// Relies on `Vec::dedup_by`: no item is added, and the first item always
/// stays.
#[verifier::external_body]
pub(crate) fn dedup_by<T, F: FnMut(&mut T, &mut T) -> bool>(v: &mut Vec<T>, same_bucket: F)
    ensures
        final(v)@.len() <= old(v)@.len(),
        old(v)@.len() > 0 ==> final(v)@.len() > 0,
{
    v.dedup_by(same_bucket)
}

/// Relies on `Vec::dedup`: each run of consecutive items that `==` finds
/// equal is cut down to its first item, and the items kept are some of
/// those there before, in their order.
#[verifier::external_body]
pub(crate) fn dedup<T: PartialEq + PartialEqSpec>(v: &mut Vec<T>)
    ensures
        subsequence_of(final(v)@, old(v)@),
        T::obeys_eq_spec() ==> final(v)@ == dedup_of(old(v)@),
{
    v.dedup()
}

/// Relies on `Vec::drain` over `start..end`, the drained items collected:
/// they leave the vector, in order.
#[verifier::external_body]
pub(crate) fn drain<T>(v: &mut Vec<T>, start: usize, end: usize) -> (r: Vec<T>)
    requires
        start <= end <= old(v)@.len(),
    ensures
        r@ == old(v)@.subrange(start as int, end as int),
        final(v)@ == old(v)@.subrange(0, start as int) + old(v)@.subrange(end as int, old(v)@.len() as int),
{
    v.drain(start..end).collect()
}

/// Relies on `Vec::splice` over `start..end`, the removed items collected:
/// they leave the vector, and `replace_with` takes their place.
#[verifier::external_body]
pub(crate) fn splice<T>(v: &mut Vec<T>, start: usize, end: usize, replace_with: Vec<T>) -> (r: Vec<T>)
    requires
        start <= end <= old(v)@.len(),
        fits_in_memory::<T>(old(v)@.len() - (end - start) + replace_with@.len()),
    ensures
        r@ == old(v)@.subrange(start as int, end as int),
        final(v)@ == old(v)@.subrange(0, start as int) + replace_with@ + old(v)@.subrange(
            end as int,
            old(v)@.len() as int,
        ),
{
    v.splice(start..end, replace_with).collect()
}

/// Relies on `Vec::extend_from_within` over `start..end`: clones of those
/// items are appended.
#[verifier::external_body]
pub(crate) fn extend_from_within<T: Clone>(v: &mut Vec<T>, start: usize, end: usize)
    requires
        start <= end <= old(v)@.len(),
        fits_in_memory::<T>(old(v)@.len() + (end - start)),
    ensures
        final(v)@.len() == old(v)@.len() + (end - start),
        final(v)@.subrange(0, old(v)@.len() as int) == old(v)@,
        forall|i: int|
            0 <= i < end - start ==> cloned::<T>(old(v)@[start + i], #[trigger] final(v)@[old(v)@.len() + i]),
{
    v.extend_from_within(start..end)
}

/// Relies on `Vec::resize_with`: cut to `new_len` items, or filled up to it
/// with what `f` returns.
#[verifier::external_body]
pub(crate) fn resize_with<T, F: FnMut() -> T>(v: &mut Vec<T>, new_len: usize, f: F)
    requires
        fits_in_memory::<T>(new_len as int),
    ensures
        final(v)@.len() == new_len,
        new_len <= old(v)@.len() ==> final(v)@ == old(v)@.subrange(0, new_len as int),
        new_len > old(v)@.len() ==> final(v)@.subrange(0, old(v)@.len() as int) == old(v)@,
{
    v.resize_with(new_len, f)
}

/// Relies on `Vec::spare_capacity_mut`: the unused part of the allocation;
/// the items stay as they were.
#[verifier::external_body]
pub(crate) fn spare_capacity_mut<T>(v: &mut Vec<T>) -> (r: &mut [MaybeUninit<T>])
    ensures
        final(v)@ == old(v)@,
{
    v.spare_capacity_mut()
}

} // verus!
