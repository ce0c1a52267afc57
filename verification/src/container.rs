//! The bounded container that backs the snake body and the food queue: a
//! `fixed_slice_vec::FixedSliceVec` of `Point`, growable only within the
//! capacity of caller-supplied storage.
//!
//! The container itself belongs to the outside crate; this module declares it,
//! names its contents and capacity, and gives each method the game calls a
//! contract taken from that crate's source.

use vstd::prelude::*;
use crate::geometry::Point;
use core::mem::MaybeUninit;
use fixed_slice_vec::FixedSliceVec;

verus! {

#[verifier::external_type_specification]
#[verifier::external_body]
#[verifier::reject_recursive_types(T)]
pub struct ExFixedSliceVec<'a, T: Sized>(FixedSliceVec<'a, T>);

/// The elements the container currently holds, front to back.
pub uninterp spec fn fsv_view(v: FixedSliceVec<Point>) -> Seq<Point>;

/// The fixed maximum element count the container was constructed with.
pub uninterp spec fn fsv_cap(v: FixedSliceVec<Point>) -> nat;

/// Relies on `FixedSliceVec::new`: the vector starts empty, with one slot of
/// capacity per storage slot.
#[verifier::external_body]
pub fn fsv_new<'a>(storage: &'a mut [MaybeUninit<Point>]) -> (v: FixedSliceVec<'a, Point>)
    ensures
        fsv_view(v) == Seq::<Point>::empty(),
        fsv_cap(v) == old(storage)@.len(),
{
    FixedSliceVec::new(storage)
}

/// Relies on `FixedSliceVec::len`: the number of initialized elements.
#[verifier::external_body]
pub fn fsv_len(v: &FixedSliceVec<Point>) -> (n: usize)
    ensures
        n == fsv_view(*v).len(),
{
    v.len()
}

/// Relies on `FixedSliceVec::capacity`: the length of the backing storage.
#[verifier::external_body]
pub fn fsv_capacity(v: &FixedSliceVec<Point>) -> (n: usize)
    ensures
        n == fsv_cap(*v),
{
    v.capacity()
}

/// Relies on `FixedSliceVec::push`: appends at the back; panics only when
/// full, which the precondition rules out.
#[verifier::external_body]
pub fn fsv_push(v: &mut FixedSliceVec<Point>, value: Point)
    requires
        fsv_view(*old(v)).len() < fsv_cap(*old(v)),
    ensures
        fsv_view(*final(v)) == fsv_view(*old(v)).push(value),
        fsv_cap(*final(v)) == fsv_cap(*old(v)),
{
    v.push(value)
}

/// Relies on `FixedSliceVec::insert`: shifts the elements from `index` one
/// slot back; panics only when full or out of range, which the preconditions
/// rule out.
#[verifier::external_body]
pub fn fsv_insert(v: &mut FixedSliceVec<Point>, index: usize, value: Point)
    requires
        fsv_view(*old(v)).len() < fsv_cap(*old(v)),
        index <= fsv_view(*old(v)).len(),
    ensures
        fsv_view(*final(v)) == fsv_view(*old(v)).insert(index as int, value),
        fsv_cap(*final(v)) == fsv_cap(*old(v)),
{
    v.insert(index, value)
}

/// Relies on `FixedSliceVec::pop`: removes and returns the back element, or
/// `None` when empty.
#[verifier::external_body]
pub fn fsv_pop(v: &mut FixedSliceVec<Point>) -> (r: Option<Point>)
    ensures
        fsv_cap(*final(v)) == fsv_cap(*old(v)),
        fsv_view(*old(v)).len() == 0 ==> r is None && fsv_view(*final(v)) == fsv_view(*old(v)),
        fsv_view(*old(v)).len() > 0 ==> r == Some(fsv_view(*old(v)).last())
            && fsv_view(*final(v)) == fsv_view(*old(v)).drop_last(),
{
    v.pop()
}

/// Relies on the `Deref`-to-slice indexing of `FixedSliceVec`; panics only
/// out of range, which the precondition rules out.
#[verifier::external_body]
pub fn fsv_get(v: &FixedSliceVec<Point>, index: usize) -> (p: Point)
    requires
        index < fsv_view(*v).len(),
    ensures
        p == fsv_view(*v)[index as int],
{
    v[index]
}

/// Whether `p` occurs among the container's elements; the occupancy test used
/// for self-collision, the eat check, and food placement.
pub fn contains_point(v: &FixedSliceVec<Point>, p: Point) -> (r: bool)
    ensures
        r == fsv_view(*v).contains(p),
{
    let n = fsv_len(v);
    let mut i: usize = 0;
    while i < n
        invariant
            i <= n,
            n == fsv_view(*v).len(),
            forall|j: int| 0 <= j < i ==> fsv_view(*v)[j] != p,
        decreases n - i,
    {
        if fsv_get(v, i) == p {
            assert(fsv_view(*v)[i as int] == p);
            return true;
        }
        i += 1;
    }
    assert(!fsv_view(*v).contains(p));
    false
}

/// Fresh uninitialized backing storage for a container of `n` points.
pub fn point_storage(n: usize) -> (v: Vec<MaybeUninit<Point>>)
    ensures
        v@.len() == n,
{
    let mut v: Vec<MaybeUninit<Point>> = Vec::new();
    let mut i: usize = 0;
    while i < n
        invariant
            i <= n,
            v@.len() == i,
        decreases n - i,
    {
        v.push(MaybeUninit::uninit());
        i += 1;
    }
    v
}

} // verus!
