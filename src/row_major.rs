use vstd::prelude::*;

use crate::coord::Coord;
use crate::size::Size;

verus! {

/// The `i`-th coordinate, counting from zero, of a row-major walk over a grid
/// `width` cells wide: `x` advances fastest, then `y`.
pub open spec fn row_major_at(width: u32, i: nat) -> Coord {
    Coord { x: (i % (width as nat)) as i32, y: (i / (width as nat)) as i32 }
}

/// Walks every coordinate of a grid in row-major order. A fresh walk needs a new
/// value; `next` returns `None` once the grid is exhausted.
pub struct CoordIterRowMajor {
    x: u32,
    y: u32,
    size: Size,
}

impl CoordIterRowMajor {
    #[verifier::type_invariant]
    closed spec fn cursor_in_grid(self) -> bool {
        &&& self.y <= self.size.spec_height()
        &&& self.y < self.size.spec_height() ==> self.x < self.size.spec_width()
        &&& self.y == self.size.spec_height() ==> self.x == 0
    }

    /// The grid being walked.
    pub closed spec fn grid(self) -> Size {
        self.size
    }

    /// How many coordinates the walk has yielded so far.
    pub closed spec fn position(self) -> nat {
        (self.y * self.size.spec_width() + self.x) as nat
    }

    /// The number of coordinates of the whole walk.
    pub open spec fn total(self) -> nat {
        (self.grid().spec_width() * self.grid().spec_height()) as nat
    }

    /// A walk over `size` that has yielded nothing yet.
    pub fn new(size: Size) -> (r: CoordIterRowMajor)
        ensures
            r.grid() == size,
            r.position() == 0,
    {
        // a grid without columns has no cell: start past the last row
        let y: u32 = if size.width() == 0 {
            size.height()
        } else {
            0
        };
        CoordIterRowMajor { x: 0, y, size }
    }

    /// The next coordinate of the walk, or `None` when every coordinate has been
    /// yielded.
    pub fn next(&mut self) -> (r: Option<Coord>)
        ensures
            final(self).grid() == old(self).grid(),
            final(self).position() <= final(self).total(),
            old(self).position() < old(self).total() ==> r == Some(
                row_major_at(old(self).grid().spec_width(), old(self).position()),
            ) && final(self).position() == old(self).position() + 1,
            old(self).position() >= old(self).total() ==> r is None && final(self).position()
                == old(self).position(),
    {
        proof {
            use_type_invariant(&*self);
        }
        let width = self.size.width();
        let height = self.size.height();
        let ghost w = width as int;
        let ghost h = height as int;
        let ghost (x0, y0) = (self.x as int, self.y as int);
        if self.y == height {
            assert(y0 * w + x0 == w * h) by (nonlinear_arith)
                requires
                    y0 == h,
                    x0 == 0,
            ;
            return None;
        }
        assert(y0 * w + x0 < w * h) by (nonlinear_arith)
            requires
                0 <= x0 < w,
                0 <= y0 < h,
        ;
        proof {
            vstd::arithmetic::div_mod::lemma_fundamental_div_mod_converse(y0 * w + x0, w, y0, x0);
        }
        let coord = Coord { x: self.x as i32, y: self.y as i32 };
        if self.x + 1 == width {
            assert((y0 + 1) * w + 0 == y0 * w + x0 + 1) by (nonlinear_arith)
                requires
                    x0 + 1 == w,
            ;
            self.x = 0;
            self.y = self.y + 1;
        } else {
            self.x = self.x + 1;
        }
        assert(self.y * w + self.x <= w * h) by (nonlinear_arith)
            requires
                self.y <= h,
                self.y < h ==> self.x < w,
                self.y == h ==> self.x == 0,
                0 <= self.x,
        ;
        Some(coord)
    }
}

} // verus!
