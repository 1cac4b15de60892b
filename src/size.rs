use vstd::prelude::*;

use crate::axis::{Axis, StaticAxis};
use crate::row_major::CoordIterRowMajor;
use crate::static_axis;
use crate::coord::{Coord, DimensionTooLargeForCoord, DimensionTooLargeForSize, NegativeDimension};

verus! {

/// The largest width or height of a size: one more than `i32::MAX`, so that every
/// cell of a maximal grid is addressable by a signed coordinate.
pub const MAX_SIZE_FIELD: u32 = 2147483648;

/// Succeeds exactly when `value` is a legal width or height.
pub(crate) fn check_size_limit(value: u32) -> (r: Result<(), DimensionTooLargeForSize>)
    ensures
        r is Ok <==> value <= MAX_SIZE_FIELD,
{
    if value > MAX_SIZE_FIELD {
        Err(DimensionTooLargeForSize)
    } else {
        Ok(())
    }
}

/// The extent of a grid. Neither field ever exceeds `MAX_SIZE_FIELD`.
#[derive(Debug, Clone, Copy, Hash, PartialEq, Eq, PartialOrd, Ord, Structural)]
pub struct Size {
    x: u32,
    y: u32,
}

impl Size {
    #[verifier::type_invariant]
    closed spec fn bounded(self) -> bool {
        self.x <= MAX_SIZE_FIELD && self.y <= MAX_SIZE_FIELD
    }

    /// The width.
    pub closed spec fn spec_width(self) -> u32 {
        self.x
    }

    /// The height.
    pub closed spec fn spec_height(self) -> u32 {
        self.y
    }

    /// The dimension on `axis`.
    pub open spec fn spec_get(self, axis: Axis) -> u32 {
        match axis {
            Axis::X => self.spec_width(),
            Axis::Y => self.spec_height(),
        }
    }
    /// A size of `width` by `height` when both are within the bound, else the error.
    pub closed spec fn spec_try_new(width: u32, height: u32) -> Result<Size, DimensionTooLargeForSize> {
        if width <= MAX_SIZE_FIELD && height <= MAX_SIZE_FIELD {
            Ok(Size { x: width, y: height })
        } else {
            Err(DimensionTooLargeForSize)
        }
    }

    /// A size of `width` by `height`, or an error when either exceeds `MAX_SIZE_FIELD`.
    #[verifier::when_used_as_spec(spec_try_new)]
    pub fn try_new(width: u32, height: u32) -> (r: Result<Size, DimensionTooLargeForSize>)
        ensures
            r == Self::spec_try_new(width, height),
            r is Ok <==> width <= MAX_SIZE_FIELD && height <= MAX_SIZE_FIELD,
            r matches Ok(s) ==> s.spec_width() == width && s.spec_height() == height,
    {
        match check_size_limit(width) {
            Err(e) => return Err(e),
            Ok(()) => {},
        }
        match check_size_limit(height) {
            Err(e) => return Err(e),
            Ok(()) => {},
        }
        Ok(Size { x: width, y: height })
    }

    /// A size of `width` by `height`; both must be within `MAX_SIZE_FIELD`.
    pub fn new(width: u32, height: u32) -> (r: Size)
        requires
            width <= MAX_SIZE_FIELD,
            height <= MAX_SIZE_FIELD,
        ensures
            r.spec_width() == width,
            r.spec_height() == height,
    {
        Self::try_new(width, height).unwrap()
    }

    /// A size from 16-bit dimensions, which are always within the bound.
    pub fn new_u16(width: u16, height: u16) -> (r: Size)
        ensures
            r.spec_width() == width,
            r.spec_height() == height,
    {
        Size { x: width as u32, y: height as u32 }
    }

    pub fn from_coord(coord: Coord) -> (r: Result<Size, NegativeDimension>)
        ensures
            r is Ok <==> coord.x >= 0 && coord.y >= 0,
            r matches Ok(s) ==> s.spec_width() == coord.x && s.spec_height() == coord.y,
    {
        coord.to_size()
    }

    /// The coordinate with this size's width and height as components.
    pub fn to_coord(self) -> (r: Result<Coord, DimensionTooLargeForCoord>)
        ensures
            r is Ok <==> self.spec_width() <= i32::MAX && self.spec_height() <= i32::MAX,
            r matches Ok(c) ==> c.x == self.spec_width() && c.y == self.spec_height(),
    {
        if self.x > i32::MAX as u32 || self.y > i32::MAX as u32 {
            Err(DimensionTooLargeForCoord)
        } else {
            Ok(Coord::new(self.x as i32, self.y as i32))
        }
    }

    /// Returns the width.
    #[verifier::when_used_as_spec(spec_width)]
    pub fn width(self) -> (r: u32)
        ensures
            r == self.spec_width(),
            r <= MAX_SIZE_FIELD,
    {
        proof {
            use_type_invariant(&self);
        }
        self.x
    }

    /// Alias for `width`.
    pub fn x(self) -> (r: u32)
        ensures
            r == self.spec_width(),
            r <= MAX_SIZE_FIELD,
    {
        self.width()
    }

    /// Returns the height.
    #[verifier::when_used_as_spec(spec_height)]
    pub fn height(self) -> (r: u32)
        ensures
            r == self.spec_height(),
            r <= MAX_SIZE_FIELD,
    {
        proof {
            use_type_invariant(&self);
        }
        self.y
    }

    /// Alias for `height`.
    pub fn y(self) -> (r: u32)
        ensures
            r == self.spec_height(),
            r <= MAX_SIZE_FIELD,
    {
        self.height()
    }
    /// The dimension on `axis`.
    #[verifier::when_used_as_spec(spec_get)]
    pub fn get(self, axis: Axis) -> (r: u32)
        ensures
            r == self.spec_get(axis),
            r <= MAX_SIZE_FIELD,
    {
        match axis {
            Axis::X => self.width(),
            Axis::Y => self.height(),
        }
    }

    /// This size with `f` applied to the dimension on `axis`; `f` must keep it
    /// within `MAX_SIZE_FIELD`.
    pub fn with_axis<F: FnMut(u32) -> u32>(self, axis: Axis, f: F) -> (r: Size)
        requires
            call_requires(f, (self.spec_get(axis),)),
            forall|v: u32| call_ensures(f, (self.spec_get(axis),), v) ==> v <= MAX_SIZE_FIELD,
        ensures
            call_ensures(f, (self.spec_get(axis),), r.spec_get(axis)),
            r.spec_get(axis.spec_other()) == self.spec_get(axis.spec_other()),
    {
        let mut f = f;
        let value = f(self.get(axis));
        self.set(axis, value)
    }

    /// This size with the dimension on `axis` replaced by `value`, or an error when
    /// `value` exceeds `MAX_SIZE_FIELD`.
    pub fn try_set(self, axis: Axis, value: u32) -> (r: Result<Size, DimensionTooLargeForSize>)
        ensures
            r is Ok <==> value <= MAX_SIZE_FIELD,
            r matches Ok(s) ==> s.spec_get(axis) == value && s.spec_get(axis.spec_other())
                == self.spec_get(axis.spec_other()),
    {
        match check_size_limit(value) {
            Err(e) => return Err(e),
            Ok(()) => {},
        }
        proof {
            use_type_invariant(&self);
        }
        Ok(
            match axis {
                Axis::X => Size { x: value, y: self.y },
                Axis::Y => Size { x: self.x, y: value },
            },
        )
    }

    /// This size with the dimension on `axis` replaced by `value`, which must be
    /// within `MAX_SIZE_FIELD`.
    pub fn set(self, axis: Axis, value: u32) -> (r: Size)
        requires
            value <= MAX_SIZE_FIELD,
        ensures
            r.spec_get(axis) == value,
            r.spec_get(axis.spec_other()) == self.spec_get(axis.spec_other()),
    {
        self.try_set(axis, value).unwrap()
    }

    /// Replaces the dimension on `axis` by `value`, or leaves this size as it is and
    /// returns an error when `value` exceeds `MAX_SIZE_FIELD`.
    pub fn try_set_in_place(&mut self, axis: Axis, value: u32) -> (r: Result<
        (),
        DimensionTooLargeForSize,
    >)
        ensures
            r is Ok <==> value <= MAX_SIZE_FIELD,
            r is Ok ==> final(self).spec_get(axis) == value && final(self).spec_get(
                axis.spec_other(),
            ) == old(self).spec_get(axis.spec_other()),
            r is Err ==> *final(self) == *old(self),
    {
        match check_size_limit(value) {
            Err(e) => return Err(e),
            Ok(()) => {},
        }
        proof {
            use_type_invariant(&*self);
        }
        match axis {
            Axis::X => self.x = value,
            Axis::Y => self.y = value,
        }
        Ok(())
    }

    /// Replaces the dimension on `axis` by `value`, which must be within
    /// `MAX_SIZE_FIELD`.
    pub fn set_in_place(&mut self, axis: Axis, value: u32)
        requires
            value <= MAX_SIZE_FIELD,
        ensures
            final(self).spec_get(axis) == value,
            final(self).spec_get(axis.spec_other()) == old(self).spec_get(axis.spec_other()),
    {
        self.try_set_in_place(axis, value).unwrap()
    }

    /// A size with `this_axis` on `axis` and `other_axis` on the other axis, or an
    /// error when either exceeds `MAX_SIZE_FIELD`.
    pub fn try_new_axis(this_axis: u32, other_axis: u32, axis: Axis) -> (r: Result<
        Size,
        DimensionTooLargeForSize,
    >)
        ensures
            r is Ok <==> this_axis <= MAX_SIZE_FIELD && other_axis <= MAX_SIZE_FIELD,
            r matches Ok(s) ==> s.spec_get(axis) == this_axis && s.spec_get(axis.spec_other())
                == other_axis,
    {
        axis.try_new_size(this_axis, other_axis)
    }

    /// A size with `this_axis` on `axis` and `other_axis` on the other axis; both must
    /// be within `MAX_SIZE_FIELD`.
    pub fn new_axis(this_axis: u32, other_axis: u32, axis: Axis) -> (r: Size)
        requires
            this_axis <= MAX_SIZE_FIELD,
            other_axis <= MAX_SIZE_FIELD,
        ensures
            r.spec_get(axis) == this_axis,
            r.spec_get(axis.spec_other()) == other_axis,
    {
        axis.new_size(this_axis, other_axis)
    }

    pub fn get_static<A: StaticAxis>(self) -> (r: u32)
        ensures
            r == self.spec_get(A::spec_axis()),
            r <= MAX_SIZE_FIELD,
    {
        A::size_get(self)
    }

    /// This size with `f` applied to the dimension on `A`; `f` must keep it within
    /// `MAX_SIZE_FIELD`.
    pub fn with_static_axis<A: StaticAxis, F: FnMut(u32) -> u32>(self, f: F) -> (r: Size)
        requires
            call_requires(f, (self.spec_get(A::spec_axis()),)),
            forall|v: u32|
                call_ensures(f, (self.spec_get(A::spec_axis()),), v) ==> v <= MAX_SIZE_FIELD,
        ensures
            call_ensures(f, (self.spec_get(A::spec_axis()),), r.spec_get(A::spec_axis())),
            r.spec_get(A::spec_axis().spec_other()) == self.spec_get(A::spec_axis().spec_other()),
    {
        A::size_with_axis(self, f)
    }

    pub fn try_set_static<A: StaticAxis>(self, value: u32) -> (r: Result<Size, DimensionTooLargeForSize>)
        ensures
            r is Ok <==> value <= MAX_SIZE_FIELD,
            r matches Ok(s) ==> s.spec_get(A::spec_axis()) == value && s.spec_get(
                A::spec_axis().spec_other(),
            ) == self.spec_get(A::spec_axis().spec_other()),
    {
        A::try_size_set(self, value)
    }

    pub fn try_set_static_in_place<A: StaticAxis>(&mut self, value: u32) -> (r: Result<
        (),
        DimensionTooLargeForSize,
    >)
        ensures
            r is Ok <==> value <= MAX_SIZE_FIELD,
            r is Ok ==> final(self).spec_get(A::spec_axis()) == value && final(self).spec_get(
                A::spec_axis().spec_other(),
            ) == old(self).spec_get(A::spec_axis().spec_other()),
            r is Err ==> *final(self) == *old(self),
    {
        A::try_size_set_in_place(self, value)
    }

    pub fn set_static<A: StaticAxis>(self, value: u32) -> (r: Size)
        requires
            value <= MAX_SIZE_FIELD,
        ensures
            r.spec_get(A::spec_axis()) == value,
            r.spec_get(A::spec_axis().spec_other()) == self.spec_get(A::spec_axis().spec_other()),
    {
        A::size_set(self, value)
    }

    pub fn set_static_in_place<A: StaticAxis>(&mut self, value: u32)
        requires
            value <= MAX_SIZE_FIELD,
        ensures
            final(self).spec_get(A::spec_axis()) == value,
            final(self).spec_get(A::spec_axis().spec_other()) == old(self).spec_get(
                A::spec_axis().spec_other(),
            ),
    {
        A::size_set_in_place(self, value)
    }

    pub fn try_new_static_axis<A: StaticAxis>(this_axis: u32, other_axis: u32) -> (r: Result<
        Size,
        DimensionTooLargeForSize,
    >)
        ensures
            r is Ok <==> this_axis <= MAX_SIZE_FIELD && other_axis <= MAX_SIZE_FIELD,
            r matches Ok(s) ==> s.spec_get(A::spec_axis()) == this_axis && s.spec_get(
                A::spec_axis().spec_other(),
            ) == other_axis,
    {
        A::try_new_size(this_axis, other_axis)
    }

    pub fn new_static_axis<A: StaticAxis>(this_axis: u32, other_axis: u32) -> (r: Size)
        requires
            this_axis <= MAX_SIZE_FIELD,
            other_axis <= MAX_SIZE_FIELD,
        ensures
            r.spec_get(A::spec_axis()) == this_axis,
            r.spec_get(A::spec_axis().spec_other()) == other_axis,
    {
        A::new_size(this_axis, other_axis)
    }

    pub fn try_set_width(self, width: u32) -> (r: Result<Size, DimensionTooLargeForSize>)
        ensures
            r is Ok <==> width <= MAX_SIZE_FIELD,
            r matches Ok(s) ==> s.spec_width() == width && s.spec_height() == self.spec_height(),
    {
        self.try_set_static::<static_axis::X>(width)
    }

    pub fn try_set_height(self, height: u32) -> (r: Result<Size, DimensionTooLargeForSize>)
        ensures
            r is Ok <==> height <= MAX_SIZE_FIELD,
            r matches Ok(s) ==> s.spec_width() == self.spec_width() && s.spec_height() == height,
    {
        self.try_set_static::<static_axis::Y>(height)
    }

    pub fn set_width(self, width: u32) -> (r: Size)
        requires
            width <= MAX_SIZE_FIELD,
        ensures
            r.spec_width() == width,
            r.spec_height() == self.spec_height(),
    {
        self.set_static::<static_axis::X>(width)
    }

    pub fn set_height(self, height: u32) -> (r: Size)
        requires
            height <= MAX_SIZE_FIELD,
        ensures
            r.spec_width() == self.spec_width(),
            r.spec_height() == height,
    {
        self.set_static::<static_axis::Y>(height)
    }

    pub fn try_set_width_in_place(&mut self, width: u32) -> (r: Result<(), DimensionTooLargeForSize>)
        ensures
            r is Ok <==> width <= MAX_SIZE_FIELD,
            r is Ok ==> final(self).spec_width() == width && final(self).spec_height() == old(self).spec_height(),
            r is Err ==> *final(self) == *old(self),
    {
        self.try_set_static_in_place::<static_axis::X>(width)
    }

    pub fn try_set_height_in_place(&mut self, height: u32) -> (r: Result<(), DimensionTooLargeForSize>)
        ensures
            r is Ok <==> height <= MAX_SIZE_FIELD,
            r is Ok ==> final(self).spec_width() == old(self).spec_width() && final(self).spec_height() == height,
            r is Err ==> *final(self) == *old(self),
    {
        self.try_set_static_in_place::<static_axis::Y>(height)
    }

    pub fn set_width_in_place(&mut self, width: u32)
        requires
            width <= MAX_SIZE_FIELD,
        ensures
            final(self).spec_width() == width,
            final(self).spec_height() == old(self).spec_height(),
    {
        self.set_static_in_place::<static_axis::X>(width)
    }

    pub fn set_height_in_place(&mut self, height: u32)
        requires
            height <= MAX_SIZE_FIELD,
        ensures
            final(self).spec_width() == old(self).spec_width(),
            final(self).spec_height() == height,
    {
        self.set_static_in_place::<static_axis::Y>(height)
    }

    /// The number of cells in a grid of this size. The product is computed without
    /// wrapping, so it must fit in a `usize`.
    pub fn count(self) -> (r: usize)
        requires
            self.spec_width() * self.spec_height() <= usize::MAX,
        ensures
            r == self.spec_width() * self.spec_height(),
    {
        (self.width() as usize) * (self.height() as usize)
    }

    /// Component-wise difference, or `None` when a component would be negative.
    pub fn checked_sub(self, rhs: Size) -> (r: Option<Size>)
        ensures
            r is None <==> self.spec_width() < rhs.spec_width() || self.spec_height()
                < rhs.spec_height(),
            r matches Some(s) ==> s.spec_width() == self.spec_width() - rhs.spec_width()
                && s.spec_height() == self.spec_height() - rhs.spec_height(),
    {
        match self.width().checked_sub(rhs.width()) {
            Some(x) => match self.height().checked_sub(rhs.height()) {
                Some(y) => Some(Self::new(x, y)),
                None => None,
            },
            None => None,
        }
    }

    /// Component-wise difference, with each component floored at zero.
    pub fn saturating_sub(self, rhs: Size) -> (r: Size)
        ensures
            r.spec_width() == (if self.spec_width() >= rhs.spec_width() {
                self.spec_width() - rhs.spec_width()
            } else {
                0
            }),
            r.spec_height() == (if self.spec_height() >= rhs.spec_height() {
                self.spec_height() - rhs.spec_height()
            } else {
                0
            }),
    {
        let x = self.width().saturating_sub(rhs.width());
        let y = self.height().saturating_sub(rhs.height());
        Self::new(x, y)
    }

    pub fn max_field() -> (r: u32)
        ensures
            r == MAX_SIZE_FIELD,
    {
        MAX_SIZE_FIELD
    }

    /// The largest size.
    pub fn max() -> (r: Size)
        ensures
            r.spec_width() == MAX_SIZE_FIELD,
            r.spec_height() == MAX_SIZE_FIELD,
    {
        Size { x: MAX_SIZE_FIELD, y: MAX_SIZE_FIELD }
    }

    pub fn is_zero(self) -> (r: bool)
        ensures
            r == (self.spec_width() == 0 && self.spec_height() == 0),
    {
        self.x == 0 && self.y == 0
    }

    /// Whether `coord` addresses a cell of a grid of this size.
    pub fn is_valid(self, coord: Coord) -> (r: bool)
        ensures
            r == coord.spec_is_valid(self),
    {
        coord.is_valid(self)
    }

    /// The cell of a grid of this size nearest to `coord`, or `None` when the grid has
    /// no cell.
    pub fn constrain(self, coord: Coord) -> (r: Option<Coord>)
        ensures
            r == coord.spec_constrain(self),
    {
        coord.constrain(self)
    }

    /// A walk over every coordinate of a grid of this size, in row-major order.
    pub fn coord_iter_row_major(self) -> (r: CoordIterRowMajor)
        ensures
            r.grid() == self,
            r.position() == 0,
    {
        CoordIterRowMajor::new(self)
    }

    /// Component-wise maximum.
    pub fn pairwise_max(self, other: Size) -> (r: Size)
        ensures
            r.spec_width() == (if self.spec_width() >= other.spec_width() {
                self.spec_width()
            } else {
                other.spec_width()
            }),
            r.spec_height() == (if self.spec_height() >= other.spec_height() {
                self.spec_height()
            } else {
                other.spec_height()
            }),
    {
        proof {
            use_type_invariant(&self);
            use_type_invariant(&other);
        }
        Size {
            x: if self.x >= other.x { self.x } else { other.x },
            y: if self.y >= other.y { self.y } else { other.y },
        }
    }

    /// Component-wise minimum.
    pub fn pairwise_min(self, other: Size) -> (r: Size)
        ensures
            r.spec_width() == (if self.spec_width() <= other.spec_width() {
                self.spec_width()
            } else {
                other.spec_width()
            }),
            r.spec_height() == (if self.spec_height() <= other.spec_height() {
                self.spec_height()
            } else {
                other.spec_height()
            }),
    {
        proof {
            use_type_invariant(&self);
            use_type_invariant(&other);
        }
        Size {
            x: if self.x <= other.x { self.x } else { other.x },
            y: if self.y <= other.y { self.y } else { other.y },
        }
    }
}

/// Every width and height within the bound gives a size, which reports them back.
pub proof fn lemma_try_new_round_trip(width: u32, height: u32)
    requires
        width <= MAX_SIZE_FIELD,
        height <= MAX_SIZE_FIELD,
    ensures
        Size::try_new(width, height) matches Ok(s) && s.width() == width && s.height() == height,
{
}

/// A width or height beyond the bound gives no size.
pub proof fn lemma_try_new_rejects_too_large(width: u32, height: u32)
    requires
        width > MAX_SIZE_FIELD || height > MAX_SIZE_FIELD,
    ensures
        Size::try_new(width, height) is Err,
{
}

impl Default for Size {
    fn default() -> (r: Size)
        ensures
            r.spec_width() == 0,
            r.spec_height() == 0,
    {
        Size { x: 0, y: 0 }
    }
}

} // verus!
