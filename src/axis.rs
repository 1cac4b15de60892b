use vstd::prelude::*;

use crate::coord::{Coord, DimensionTooLargeForSize};
use crate::sealed::Sealed;
use crate::size::{Size, MAX_SIZE_FIELD};

verus! {

/// One of the two grid dimensions: horizontal (`X`) or vertical (`Y`).
#[derive(Debug, Clone, Copy, Hash, PartialEq, Eq, PartialOrd, Ord, Structural)]
pub enum Axis {
    X,
    Y,
}

impl Axis {
    pub open spec fn spec_other(self) -> Axis {
        match self {
            Axis::X => Axis::Y,
            Axis::Y => Axis::X,
        }
    }

    /// The remaining axis.
    #[verifier::when_used_as_spec(spec_other)]
    pub fn other(self) -> (r: Axis)
        ensures
            r == self.spec_other(),
    {
        match self {
            Axis::X => Axis::Y,
            Axis::Y => Axis::X,
        }
    }

    /// Builds a coordinate with `this_axis` on `self` and `other_axis` on the other axis.
    pub fn new_coord(self, this_axis: i32, other_axis: i32) -> (r: Coord)
        ensures
            r == Coord::spec_new_axis(this_axis, other_axis, self),
    {
        match self {
            Axis::X => Coord::new(this_axis, other_axis),
            Axis::Y => Coord::new(other_axis, this_axis),
        }
    }
    /// A size with `this_axis` on `self` and `other_axis` on the other axis, or an
    /// error when either exceeds `MAX_SIZE_FIELD`.
    pub fn try_new_size(self, this_axis: u32, other_axis: u32) -> (r: Result<
        Size,
        DimensionTooLargeForSize,
    >)
        ensures
            r is Ok <==> this_axis <= MAX_SIZE_FIELD && other_axis <= MAX_SIZE_FIELD,
            r matches Ok(s) ==> s.spec_get(self) == this_axis && s.spec_get(self.spec_other())
                == other_axis,
    {
        match self {
            Axis::X => Size::try_new(this_axis, other_axis),
            Axis::Y => Size::try_new(other_axis, this_axis),
        }
    }

    /// A size with `this_axis` on `self` and `other_axis` on the other axis; both must
    /// be within `MAX_SIZE_FIELD`.
    pub fn new_size(self, this_axis: u32, other_axis: u32) -> (r: Size)
        requires
            this_axis <= MAX_SIZE_FIELD,
            other_axis <= MAX_SIZE_FIELD,
        ensures
            r.spec_get(self) == this_axis,
            r.spec_get(self.spec_other()) == other_axis,
    {
        match self {
            Axis::X => Size::new(this_axis, other_axis),
            Axis::Y => Size::new(other_axis, this_axis),
        }
    }
}

/// Taking the other axis twice gives the axis back.
pub proof fn lemma_other_involutive(a: Axis)
    ensures
        a.other().other() == a,
{
}

/// An axis fixed at compile time. It offers the same operations as `Axis`, resolved
/// without a run-time branch. Only `static_axis::X` and `static_axis::Y` implement it.
pub trait StaticAxis: Sealed {
    /// The marker of the other axis. (Bounded by `Sealed` alone: the two markers
    /// name each other, and a bound by `StaticAxis` here would make their impls
    /// depend on one another.)
    type Other: Sealed;

    /// The axis this marker stands for.
    spec fn spec_axis() -> Axis;

    fn axis() -> (r: Axis)
        ensures
            r == Self::spec_axis(),
    ;

    fn new_coord(this_axis: i32, other_axis: i32) -> (r: Coord)
        ensures
            r == Coord::spec_new_axis(this_axis, other_axis, Self::spec_axis()),
    ;

    fn coord_get(coord: Coord) -> (r: i32)
        ensures
            r == coord.spec_get(Self::spec_axis()),
    ;

    fn coord_get_mut(coord: &mut Coord) -> (r: &mut i32)
        ensures
            *r == old(coord).spec_get(Self::spec_axis()),
            *final(coord) == old(coord).spec_set(Self::spec_axis(), *final(r)),
    ;

    fn coord_with_axis<F: FnMut(i32) -> i32>(coord: Coord, f: F) -> (r: Coord)
        requires
            call_requires(f, (coord.spec_get(Self::spec_axis()),)),
        ensures
            call_ensures(f, (coord.spec_get(Self::spec_axis()),), r.spec_get(Self::spec_axis())),
            r == coord.spec_set(Self::spec_axis(), r.spec_get(Self::spec_axis())),
    ;

    fn coord_set(coord: Coord, value: i32) -> (r: Coord)
        ensures
            r == coord.spec_set(Self::spec_axis(), value),
    ;

    fn coord_set_in_place(coord: &mut Coord, value: i32)
        ensures
            *final(coord) == old(coord).spec_set(Self::spec_axis(), value),
    ;

    fn try_new_size(this_axis: u32, other_axis: u32) -> (r: Result<Size, DimensionTooLargeForSize>)
        ensures
            r is Ok <==> this_axis <= MAX_SIZE_FIELD && other_axis <= MAX_SIZE_FIELD,
            r matches Ok(s) ==> s.spec_get(Self::spec_axis()) == this_axis && s.spec_get(
                Self::spec_axis().spec_other(),
            ) == other_axis,
    ;

    fn size_get(size: Size) -> (r: u32)
        ensures
            r == size.spec_get(Self::spec_axis()),
            r <= MAX_SIZE_FIELD,
    ;

    fn size_with_axis<F: FnMut(u32) -> u32>(size: Size, f: F) -> (r: Size)
        requires
            call_requires(f, (size.spec_get(Self::spec_axis()),)),
            forall|v: u32|
                call_ensures(f, (size.spec_get(Self::spec_axis()),), v) ==> v <= MAX_SIZE_FIELD,
        ensures
            call_ensures(f, (size.spec_get(Self::spec_axis()),), r.spec_get(Self::spec_axis())),
            r.spec_get(Self::spec_axis().spec_other()) == size.spec_get(
                Self::spec_axis().spec_other(),
            ),
    ;

    fn try_size_set(size: Size, value: u32) -> (r: Result<Size, DimensionTooLargeForSize>)
        ensures
            r is Ok <==> value <= MAX_SIZE_FIELD,
            r matches Ok(s) ==> s.spec_get(Self::spec_axis()) == value && s.spec_get(
                Self::spec_axis().spec_other(),
            ) == size.spec_get(Self::spec_axis().spec_other()),
    ;

    fn try_size_set_in_place(size: &mut Size, value: u32) -> (r: Result<(), DimensionTooLargeForSize>)
        ensures
            r is Ok <==> value <= MAX_SIZE_FIELD,
            r is Ok ==> final(size).spec_get(Self::spec_axis()) == value && final(size).spec_get(
                Self::spec_axis().spec_other(),
            ) == old(size).spec_get(Self::spec_axis().spec_other()),
            r is Err ==> *final(size) == *old(size),
    ;

    /// Like `try_size_set`, for a `value` already known to be within the bound.
    fn size_set(size: Size, value: u32) -> (r: Size)
        requires
            value <= MAX_SIZE_FIELD,
        ensures
            r.spec_get(Self::spec_axis()) == value,
            r.spec_get(Self::spec_axis().spec_other()) == size.spec_get(
                Self::spec_axis().spec_other(),
            ),
    {
        Self::try_size_set(size, value).unwrap()
    }

    /// Like `try_size_set_in_place`, for a `value` already known to be within the bound.
    fn size_set_in_place(size: &mut Size, value: u32)
        requires
            value <= MAX_SIZE_FIELD,
        ensures
            final(size).spec_get(Self::spec_axis()) == value,
            final(size).spec_get(Self::spec_axis().spec_other()) == old(size).spec_get(
                Self::spec_axis().spec_other(),
            ),
    {
        Self::try_size_set_in_place(size, value).unwrap()
    }

    /// Like `try_new_size`, for dimensions already known to be within the bound.
    fn new_size(this_axis: u32, other_axis: u32) -> (r: Size)
        requires
            this_axis <= MAX_SIZE_FIELD,
            other_axis <= MAX_SIZE_FIELD,
        ensures
            r.spec_get(Self::spec_axis()) == this_axis,
            r.spec_get(Self::spec_axis().spec_other()) == other_axis,
    {
        Self::try_new_size(this_axis, other_axis).unwrap()
    }
}

} // verus!
