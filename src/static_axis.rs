//! Compile-time axis markers.

use vstd::prelude::*;

use crate::axis::{Axis, StaticAxis};
use crate::coord::{Coord, DimensionTooLargeForSize};
use crate::sealed::Sealed;
use crate::size::Size;

verus! {

/// The horizontal axis.
pub struct X;

/// The vertical axis.
pub struct Y;

impl Sealed for X {}

impl Sealed for Y {}

impl StaticAxis for X {
    type Other = Y;

    open spec fn spec_axis() -> Axis {
        Axis::X
    }

    fn axis() -> (r: Axis) {
        Axis::X
    }

    fn new_coord(this_axis: i32, other_axis: i32) -> (r: Coord) {
        Coord::new(this_axis, other_axis)
    }

    fn coord_get(coord: Coord) -> (r: i32) {
        coord.x
    }

    fn coord_get_mut(coord: &mut Coord) -> (r: &mut i32) {
        &mut coord.x
    }

    fn coord_with_axis<F: FnMut(i32) -> i32>(coord: Coord, f: F) -> (r: Coord) {
        let mut f = f;
        Coord { x: f(coord.x), ..coord }
    }

    fn coord_set(coord: Coord, value: i32) -> (r: Coord) {
        Coord { x: value, ..coord }
    }

    fn coord_set_in_place(coord: &mut Coord, value: i32) {
        coord.x = value
    }

    fn try_new_size(this_axis: u32, other_axis: u32) -> (r: Result<Size, DimensionTooLargeForSize>) {
        Size::try_new(this_axis, other_axis)
    }

    fn size_get(size: Size) -> (r: u32) {
        size.width()
    }

    fn size_with_axis<F: FnMut(u32) -> u32>(size: Size, f: F) -> (r: Size) {
        size.with_axis(Axis::X, f)
    }

    fn try_size_set(size: Size, value: u32) -> (r: Result<Size, DimensionTooLargeForSize>) {
        size.try_set(Axis::X, value)
    }

    fn try_size_set_in_place(size: &mut Size, value: u32) -> (r: Result<(), DimensionTooLargeForSize>) {
        size.try_set_in_place(Axis::X, value)
    }
}

impl StaticAxis for Y {
    type Other = X;

    open spec fn spec_axis() -> Axis {
        Axis::Y
    }

    fn axis() -> (r: Axis) {
        Axis::Y
    }

    fn new_coord(this_axis: i32, other_axis: i32) -> (r: Coord) {
        Coord::new(other_axis, this_axis)
    }

    fn coord_get(coord: Coord) -> (r: i32) {
        coord.y
    }

    fn coord_get_mut(coord: &mut Coord) -> (r: &mut i32) {
        &mut coord.y
    }

    fn coord_with_axis<F: FnMut(i32) -> i32>(coord: Coord, f: F) -> (r: Coord) {
        let mut f = f;
        Coord { y: f(coord.y), ..coord }
    }

    fn coord_set(coord: Coord, value: i32) -> (r: Coord) {
        Coord { y: value, ..coord }
    }

    fn coord_set_in_place(coord: &mut Coord, value: i32) {
        coord.y = value
    }

    fn try_new_size(this_axis: u32, other_axis: u32) -> (r: Result<Size, DimensionTooLargeForSize>) {
        Size::try_new(other_axis, this_axis)
    }

    fn size_get(size: Size) -> (r: u32) {
        size.height()
    }

    fn size_with_axis<F: FnMut(u32) -> u32>(size: Size, f: F) -> (r: Size) {
        size.with_axis(Axis::Y, f)
    }

    fn try_size_set(size: Size, value: u32) -> (r: Result<Size, DimensionTooLargeForSize>) {
        size.try_set(Axis::Y, value)
    }

    fn try_size_set_in_place(size: &mut Size, value: u32) -> (r: Result<(), DimensionTooLargeForSize>) {
        size.try_set_in_place(Axis::Y, value)
    }
}

} // verus!
