use vstd::prelude::*;

use crate::axis::{Axis, StaticAxis};
use crate::size::{Size, MAX_SIZE_FIELD};

verus! {

/// General purpose coordinate: a signed grid position, possibly outside any size.
#[derive(Debug, Clone, Copy, Hash, PartialEq, Eq, PartialOrd, Ord, Structural)]
pub struct Coord {
    pub x: i32,
    pub y: i32,
}

/// A coordinate with a negative component cannot become a size.
#[derive(Debug)]
pub struct NegativeDimension;

/// A value exceeds the largest width or height that a size may have.
#[derive(Debug)]
pub struct DimensionTooLargeForSize;

/// A size has a dimension that no coordinate component can hold.
#[derive(Debug)]
pub struct DimensionTooLargeForCoord;

/// Whether `v` fits in an `i32`.
pub open spec fn fits_i32(v: int) -> bool {
    i32::MIN <= v <= i32::MAX
}

/// Absolute value.
pub open spec fn abs(v: int) -> int {
    if v < 0 {
        -v
    } else {
        v
    }
}

/// `v` moved into `[lo, hi]`.
pub open spec fn clamp(v: int, lo: int, hi: int) -> int {
    if v < lo {
        lo
    } else if v > hi {
        hi
    } else {
        v
    }
}

/// Division rounding towards zero, as Rust's `/` on signed integers does.
pub open spec fn trunc_div(a: int, b: int) -> int {
    if (a >= 0) == (b > 0) {
        abs(a) / abs(b)
    } else {
        -(abs(a) / abs(b))
    }
}

impl Coord {
    /// The coordinate with `this_axis` on `axis` and `other_axis` on the other axis.
    pub open spec fn spec_new_axis(this_axis: i32, other_axis: i32, axis: Axis) -> Coord {
        match axis {
            Axis::X => Coord { x: this_axis, y: other_axis },
            Axis::Y => Coord { x: other_axis, y: this_axis },
        }
    }

    /// The component on `axis`.
    pub open spec fn spec_get(self, axis: Axis) -> i32 {
        match axis {
            Axis::X => self.x,
            Axis::Y => self.y,
        }
    }

    /// This coordinate with the component on `axis` replaced by `value`.
    pub open spec fn spec_set(self, axis: Axis, value: i32) -> Coord {
        match axis {
            Axis::X => Coord { x: value, y: self.y },
            Axis::Y => Coord { x: self.x, y: value },
        }
    }

    /// Both components are non-negative and below the matching dimension of `size`.
    pub open spec fn spec_is_valid(self, size: Size) -> bool {
        0 <= self.x < size.spec_width() && 0 <= self.y < size.spec_height()
    }

    /// Each component clamped into `[0, dimension - 1]`; nothing for a size without cells.
    pub open spec fn spec_constrain(self, size: Size) -> Option<Coord> {
        if size.spec_width() == 0 || size.spec_height() == 0 {
            None
        } else {
            Some(
                Coord {
                    x: clamp(self.x as int, 0, size.spec_width() - 1) as i32,
                    y: clamp(self.y as int, 0, size.spec_height() - 1) as i32,
                },
            )
        }
    }

    /// `(-x, -y)`.
    pub open spec fn spec_opposite(self) -> Coord {
        Coord { x: (-self.x) as i32, y: (-self.y) as i32 }
    }

    /// `(y, -x)`.
    pub open spec fn spec_left90(self) -> Coord {
        Coord { x: self.y, y: (-self.x) as i32 }
    }

    /// `(-y, x)`.
    pub open spec fn spec_right90(self) -> Coord {
        Coord { x: (-self.y) as i32, y: self.x }
    }

    pub fn new(x: i32, y: i32) -> (r: Coord)
        ensures
            r.x == x,
            r.y == y,
    {
        Coord { x, y }
    }

    pub fn from_size(size: Size) -> (r: Result<Coord, DimensionTooLargeForCoord>)
        ensures
            r is Ok <==> size.spec_width() <= i32::MAX && size.spec_height() <= i32::MAX,
            r matches Ok(c) ==> c.x == size.spec_width() && c.y == size.spec_height(),
    {
        size.to_coord()
    }

    /// The size with this coordinate's components as width and height.
    pub fn to_size(self) -> (r: Result<Size, NegativeDimension>)
        ensures
            r is Ok <==> self.x >= 0 && self.y >= 0,
            r matches Ok(s) ==> s.spec_width() == self.x && s.spec_height() == self.y,
    {
        if self.x < 0 || self.y < 0 {
            Err(NegativeDimension)
        } else {
            Ok(Size::new(self.x as u32, self.y as u32))
        }
    }
    /// `value` wrapped into `[0, size)` by floored modulo.
    fn normalize_part(value: i32, size: u32) -> (r: i32)
        requires
            0 < size <= MAX_SIZE_FIELD,
        ensures
            r == (value as int) % (size as int),
    {
        if value >= 0 {
            ((value as u32) % size) as i32
        } else {
            let neg: u32 = (-(value as i64)) as u32;
            let m: u32 = neg % size;
            proof {
                let q = neg as int / size as int;
                vstd::arithmetic::div_mod::lemma_fundamental_div_mod(neg as int, size as int);
                if m == 0 {
                    assert(value as int == (-q) * size as int + 0) by (nonlinear_arith)
                        requires
                            neg as int == size as int * q + m as int,
                            value as int == -(neg as int),
                            m == 0,
                    ;
                    vstd::arithmetic::div_mod::lemma_fundamental_div_mod_converse(
                        value as int,
                        size as int,
                        -q,
                        0,
                    );
                } else {
                    assert(value as int == (-q - 1) * size as int + (size - m)) by (nonlinear_arith)
                        requires
                            neg as int == size as int * q + m as int,
                            value as int == -(neg as int),
                    ;
                    vstd::arithmetic::div_mod::lemma_fundamental_div_mod_converse(
                        value as int,
                        size as int,
                        -q - 1,
                        (size - m) as int,
                    );
                }
            }
            if m == 0 {
                0
            } else {
                (size - m) as i32
            }
        }
    }

    /// Wraps each component into `[0, dimension)` by floored modulo, so that negative
    /// components land on the non-negative residue.
    pub fn normalize(self, size: Size) -> (r: Coord)
        requires
            size.spec_width() > 0,
            size.spec_height() > 0,
        ensures
            r.x == (self.x as int) % (size.spec_width() as int),
            r.y == (self.y as int) % (size.spec_height() as int),
    {
        Coord {
            x: Self::normalize_part(self.x, size.x()),
            y: Self::normalize_part(self.y, size.y()),
        }
    }

    /// Whether this coordinate addresses a cell of a grid of `size`.
    #[verifier::when_used_as_spec(spec_is_valid)]
    pub fn is_valid(self, size: Size) -> (r: bool)
        ensures
            r == self.spec_is_valid(size),
    {
        if self.x < 0 || self.y < 0 {
            return false;
        }
        let x = self.x as u32;
        let y = self.y as u32;
        x < size.x() && y < size.y()
    }

    /// The nearest cell of a grid of `size`, or `None` when that grid has no cell.
    #[verifier::when_used_as_spec(spec_constrain)]
    pub fn constrain(self, size: Size) -> (r: Option<Coord>)
        ensures
            r == self.spec_constrain(size),
    {
        let mut c = self;
        if c.x < 0 {
            c.x = 0;
        }
        if c.y < 0 {
            c.y = 0;
        }
        let max_x = match size.width().checked_sub(1) {
            Some(m) => m as i32,
            None => return None,
        };
        if c.x > max_x {
            c.x = max_x;
        }
        let max_y = match size.height().checked_sub(1) {
            Some(m) => m as i32,
            None => return None,
        };
        if c.y > max_y {
            c.y = max_y;
        }
        Some(c)
    }

    /// The component on `axis`.
    #[verifier::when_used_as_spec(spec_get)]
    pub fn get(self, axis: Axis) -> (r: i32)
        ensures
            r == self.spec_get(axis),
    {
        match axis {
            Axis::X => self.x,
            Axis::Y => self.y,
        }
    }

    /// A mutable reference to the component on `axis`.
    pub fn get_mut(&mut self, axis: Axis) -> (r: &mut i32)
        ensures
            *r == old(self).spec_get(axis),
            *final(self) == old(self).spec_set(axis, *final(r)),
    {
        match axis {
            Axis::X => &mut self.x,
            Axis::Y => &mut self.y,
        }
    }

    /// This coordinate with `f` applied to the component on `axis`.
    pub fn with_axis<F: FnMut(i32) -> i32>(self, axis: Axis, f: F) -> (r: Coord)
        requires
            call_requires(f, (self.spec_get(axis),)),
        ensures
            call_ensures(f, (self.spec_get(axis),), r.spec_get(axis)),
            r == self.spec_set(axis, r.spec_get(axis)),
    {
        let mut f = f;
        match axis {
            Axis::X => Coord { x: f(self.x), ..self },
            Axis::Y => Coord { y: f(self.y), ..self },
        }
    }
    /// This coordinate with the component on `axis` replaced by `value`.
    pub fn set(self, axis: Axis, value: i32) -> (r: Coord)
        ensures
            r == self.spec_set(axis, value),
    {
        match axis {
            Axis::X => Self::new(value, self.y),
            Axis::Y => Self::new(self.x, value),
        }
    }

    /// Replaces the component on `axis` by `value`.
    pub fn set_in_place(&mut self, axis: Axis, value: i32)
        ensures
            *final(self) == old(self).spec_set(axis, value),
    {
        match axis {
            Axis::X => self.x = value,
            Axis::Y => self.y = value,
        }
    }

    /// The coordinate with `this_axis` on `axis` and `other_axis` on the other axis.
    pub fn new_axis(this_axis: i32, other_axis: i32, axis: Axis) -> (r: Coord)
        ensures
            r == Self::spec_new_axis(this_axis, other_axis, axis),
    {
        axis.new_coord(this_axis, other_axis)
    }

    pub fn get_static<A: StaticAxis>(self) -> (r: i32)
        ensures
            r == self.spec_get(A::spec_axis()),
    {
        A::coord_get(self)
    }

    pub fn get_static_mut<A: StaticAxis>(&mut self) -> (r: &mut i32)
        ensures
            *r == old(self).spec_get(A::spec_axis()),
            *final(self) == old(self).spec_set(A::spec_axis(), *final(r)),
    {
        A::coord_get_mut(self)
    }

    pub fn with_static_axis<A: StaticAxis, F: FnMut(i32) -> i32>(self, f: F) -> (r: Coord)
        requires
            call_requires(f, (self.spec_get(A::spec_axis()),)),
        ensures
            call_ensures(f, (self.spec_get(A::spec_axis()),), r.spec_get(A::spec_axis())),
            r == self.spec_set(A::spec_axis(), r.spec_get(A::spec_axis())),
    {
        A::coord_with_axis(self, f)
    }

    pub fn set_static<A: StaticAxis>(self, value: i32) -> (r: Coord)
        ensures
            r == self.spec_set(A::spec_axis(), value),
    {
        A::coord_set(self, value)
    }

    pub fn set_static_in_place<A: StaticAxis>(&mut self, value: i32)
        ensures
            *final(self) == old(self).spec_set(A::spec_axis(), value),
    {
        A::coord_set_in_place(self, value)
    }

    pub fn new_static_axis<A: StaticAxis>(this_axis: i32, other_axis: i32) -> (r: Coord)
        ensures
            r == Self::spec_new_axis(this_axis, other_axis, A::spec_axis()),
    {
        A::new_coord(this_axis, other_axis)
    }

    pub fn set_x(self, x: i32) -> (r: Coord)
        ensures
            r == (Coord { x, y: self.y }),
    {
        Coord { x, ..self }
    }

    pub fn set_y(self, y: i32) -> (r: Coord)
        ensures
            r == (Coord { x: self.x, y }),
    {
        Coord { y, ..self }
    }

    pub fn set_x_in_place(&mut self, x: i32)
        ensures
            *final(self) == (Coord { x, y: old(self).y }),
    {
        self.x = x;
    }

    pub fn set_y_in_place(&mut self, y: i32)
        ensures
            *final(self) == (Coord { x: old(self).x, y }),
    {
        self.y = y;
    }

    /// Component-wise sum, or `None` when a component overflows.
    pub fn checked_add(self, rhs: Coord) -> (r: Option<Coord>)
        ensures
            r is None <==> !fits_i32(self.x + rhs.x) || !fits_i32(self.y + rhs.y),
            r matches Some(c) ==> c.x == self.x + rhs.x && c.y == self.y + rhs.y,
    {
        match self.x.checked_add(rhs.x) {
            Some(x) => match self.y.checked_add(rhs.y) {
                Some(y) => Some(Self::new(x, y)),
                None => None,
            },
            None => None,
        }
    }

    /// Component-wise difference, or `None` when a component overflows.
    pub fn checked_sub(self, rhs: Coord) -> (r: Option<Coord>)
        ensures
            r is None <==> !fits_i32(self.x - rhs.x) || !fits_i32(self.y - rhs.y),
            r matches Some(c) ==> c.x == self.x - rhs.x && c.y == self.y - rhs.y,
    {
        match self.x.checked_sub(rhs.x) {
            Some(x) => match self.y.checked_sub(rhs.y) {
                Some(y) => Some(Self::new(x, y)),
                None => None,
            },
            None => None,
        }
    }

    /// Both components multiplied by `rhs`, or `None` when a component overflows.
    pub fn checked_mul(self, rhs: i32) -> (r: Option<Coord>)
        ensures
            r is None <==> !fits_i32(self.x * rhs) || !fits_i32(self.y * rhs),
            r matches Some(c) ==> c.x == self.x * rhs && c.y == self.y * rhs,
    {
        match self.x.checked_mul(rhs) {
            Some(x) => match self.y.checked_mul(rhs) {
                Some(y) => Some(Self::new(x, y)),
                None => None,
            },
            None => None,
        }
    }

    /// Both components divided by `rhs`, rounding towards zero, or `None` when `rhs`
    /// is zero or a quotient overflows.
    pub fn checked_div(self, rhs: i32) -> (r: Option<Coord>)
        ensures
            r is None <==> rhs == 0 || !fits_i32(trunc_div(self.x as int, rhs as int))
                || !fits_i32(trunc_div(self.y as int, rhs as int)),
            r matches Some(c) ==> c.x == trunc_div(self.x as int, rhs as int) && c.y == trunc_div(
                self.y as int,
                rhs as int,
            ),
    {
        match self.x.checked_div(rhs) {
            Some(x) => match self.y.checked_div(rhs) {
                Some(y) => Some(Self::new(x, y)),
                None => None,
            },
            None => None,
        }
    }

    /// Squared euclidean length; the result must fit in a `u32`.
    pub fn magnitude2(self) -> (r: u32)
        requires
            self.x * self.x + self.y * self.y <= u32::MAX,
        ensures
            r == self.x * self.x + self.y * self.y,
    {
        let x = self.x as i64;
        let y = self.y as i64;
        assert(0 <= x * x && 0 <= y * y) by (nonlinear_arith);
        (x * x + y * y) as u32
    }

    /// Squared euclidean distance; the result must fit in a `u32`.
    pub fn distance2(self, other: Coord) -> (r: u32)
        requires
            (self.x - other.x) * (self.x - other.x) + (self.y - other.y) * (self.y - other.y)
                <= u32::MAX,
        ensures
            r == (self.x - other.x) * (self.x - other.x) + (self.y - other.y) * (self.y - other.y),
    {
        let dx = self.x as i64 - other.x as i64;
        let dy = self.y as i64 - other.y as i64;
        assert(0 <= dx * dx && 0 <= dy * dy) by (nonlinear_arith);
        (dx * dx + dy * dy) as u32
    }

    /// Sum of the absolute values of the components; the result must fit in a `u32`.
    pub fn manhattan_magnitude(self) -> (r: u32)
        requires
            abs(self.x as int) + abs(self.y as int) <= u32::MAX,
        ensures
            r == abs(self.x as int) + abs(self.y as int),
    {
        let x = self.x as i64;
        let y = self.y as i64;
        let ax = if x < 0 { -x } else { x };
        let ay = if y < 0 { -y } else { y };
        (ax + ay) as u32
    }

    /// Sum of the absolute differences of the components; the result must fit in a `u32`.
    pub fn manhattan_distance(self, other: Coord) -> (r: u32)
        requires
            abs(self.x - other.x) + abs(self.y - other.y) <= u32::MAX,
        ensures
            r == abs(self.x - other.x) + abs(self.y - other.y),
    {
        let dx = self.x as i64 - other.x as i64;
        let dy = self.y as i64 - other.y as i64;
        let ax = if dx < 0 { -dx } else { dx };
        let ay = if dy < 0 { -dy } else { dy };
        (ax + ay) as u32
    }

    /// `(-x, -y)`.
    #[verifier::when_used_as_spec(spec_opposite)]
    pub fn opposite(self) -> (r: Coord)
        requires
            self.x != i32::MIN,
            self.y != i32::MIN,
        ensures
            r == self.spec_opposite(),
            r.x == -self.x,
            r.y == -self.y,
    {
        Coord { x: -self.x, y: -self.y }
    }

    /// `(y, -x)`.
    #[verifier::when_used_as_spec(spec_left90)]
    pub fn left90(self) -> (r: Coord)
        requires
            self.x != i32::MIN,
        ensures
            r == self.spec_left90(),
            r.x == self.y,
            r.y == -self.x,
    {
        Coord { x: self.y, y: -self.x }
    }

    /// `(-y, x)`.
    #[verifier::when_used_as_spec(spec_right90)]
    pub fn right90(self) -> (r: Coord)
        requires
            self.y != i32::MIN,
        ensures
            r == self.spec_right90(),
            r.x == -self.y,
            r.y == self.x,
    {
        Coord { x: -self.y, y: self.x }
    }

    /// `(x + y, y - x)`.
    pub fn cardinal_left45(self) -> (r: Coord)
        requires
            fits_i32(self.y + self.x),
            fits_i32(self.y - self.x),
        ensures
            r.x == self.x + self.y,
            r.y == self.y - self.x,
    {
        Coord { x: self.y + self.x, y: self.y - self.x }
    }

    /// `(x - y, y + x)`.
    pub fn cardinal_right45(self) -> (r: Coord)
        requires
            fits_i32(self.x - self.y),
            fits_i32(self.y + self.x),
        ensures
            r.x == self.x - self.y,
            r.y == self.y + self.x,
    {
        Coord { x: self.x - self.y, y: self.y + self.x }
    }

    /// `(y - x, -x - y)`.
    pub fn cardinal_left135(self) -> (r: Coord)
        requires
            fits_i32(self.y - self.x),
            fits_i32(-self.x - self.y),
        ensures
            r.x == self.y - self.x,
            r.y == -self.x - self.y,
    {
        Coord { x: self.y - self.x, y: -self.x - self.y }
    }

    /// `(-y - x, x - y)`.
    pub fn cardinal_right135(self) -> (r: Coord)
        requires
            fits_i32(-self.y - self.x),
            fits_i32(self.x - self.y),
        ensures
            r.x == -self.y - self.x,
            r.y == self.x - self.y,
    {
        Coord { x: -self.y - self.x, y: self.x - self.y }
    }

    pub fn is_zero(self) -> (r: bool)
        ensures
            r == (self.x == 0 && self.y == 0),
    {
        self.x == 0 && self.y == 0
    }

    /// Component-wise maximum.
    pub fn pairwise_max(self, other: Coord) -> (r: Coord)
        ensures
            r.x == (if self.x >= other.x { self.x } else { other.x }),
            r.y == (if self.y >= other.y { self.y } else { other.y }),
    {
        Coord {
            x: if self.x >= other.x { self.x } else { other.x },
            y: if self.y >= other.y { self.y } else { other.y },
        }
    }

    /// Component-wise minimum.
    pub fn pairwise_min(self, other: Coord) -> (r: Coord)
        ensures
            r.x == (if self.x <= other.x { self.x } else { other.x }),
            r.y == (if self.y <= other.y { self.y } else { other.y }),
    {
        Coord {
            x: if self.x <= other.x { self.x } else { other.x },
            y: if self.y <= other.y { self.y } else { other.y },
        }
    }
}

/// Negating a coordinate twice gives it back.
pub proof fn lemma_opposite_involutive(c: Coord)
    requires
        c.x != i32::MIN,
        c.y != i32::MIN,
    ensures
        c.opposite().opposite() == c,
{
}

/// A quarter turn left undoes a quarter turn right.
pub proof fn lemma_left90_undoes_right90(c: Coord)
    requires
        c.x != i32::MIN,
        c.y != i32::MIN,
    ensures
        c.right90().left90() == c,
{
}

/// Constraining into a size with cells gives a valid coordinate of it; into a size
/// without cells it gives nothing.
pub proof fn lemma_constrain_is_valid(c: Coord, size: Size)
    requires
        size.spec_width() <= MAX_SIZE_FIELD,
        size.spec_height() <= MAX_SIZE_FIELD,
    ensures
        size.spec_width() > 0 && size.spec_height() > 0 ==> (c.constrain(size) matches Some(r)
            && r.is_valid(size)),
        size.spec_width() == 0 || size.spec_height() == 0 ==> c.constrain(size) is None,
{
}

impl From<(i32, i32)> for Coord {
    fn from(t: (i32, i32)) -> (r: Coord) {
        Coord::new(t.0, t.1)
    }
}

impl vstd::std_specs::convert::FromSpecImpl<(i32, i32)> for Coord {
    open spec fn obeys_from_spec() -> bool {
        true
    }

    open spec fn from_spec(t: (i32, i32)) -> Coord {
        Coord { x: t.0, y: t.1 }
    }
}

impl From<[i32; 2]> for Coord {
    fn from(array: [i32; 2]) -> (r: Coord) {
        Coord::new(array[0], array[1])
    }
}

impl vstd::std_specs::convert::FromSpecImpl<[i32; 2]> for Coord {
    open spec fn obeys_from_spec() -> bool {
        true
    }

    open spec fn from_spec(array: [i32; 2]) -> Coord {
        Coord { x: array@[0], y: array@[1] }
    }
}

impl Default for Coord {
    fn default() -> (r: Coord)
        ensures
            r.x == 0,
            r.y == 0,
    {
        Coord { x: 0, y: 0 }
    }
}

} // verus!
