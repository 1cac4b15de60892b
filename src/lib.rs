//! Grid geometry primitives: signed coordinates, bounded sizes, and axis
//! selection either at run time (`Axis`) or at compile time (`StaticAxis`).

mod axis;
mod coord;
mod row_major;
mod sealed;
mod size;
pub mod static_axis;

pub use axis::{lemma_other_involutive, Axis, StaticAxis};
pub use coord::{
    abs, clamp, fits_i32, lemma_constrain_is_valid, lemma_left90_undoes_right90,
    lemma_opposite_involutive, trunc_div, Coord, DimensionTooLargeForCoord, DimensionTooLargeForSize, NegativeDimension};
pub use row_major::{row_major_at, CoordIterRowMajor};
pub use size::{
    lemma_try_new_rejects_too_large, lemma_try_new_round_trip, Size, MAX_SIZE_FIELD,
};
