//! The three coordinate spaces and the ways between them: pixels of the
//! source image, millimetres of the mosaic, and pixels of the screen.

use crate::mosaic::PositionOnGrid;
use crate::utils::{lemma_ceil_div, spec_ceil_div, wide_product};
use vstd::arithmetic::div_mod::{
    lemma_div_nonincreasing, lemma_fundamental_div_mod, lemma_mod_bound,
};
use vstd::prelude::*;

verus! {

/// A place on the screen, in whole pixels from the left and from the top.
#[derive(Clone, Copy, Debug, PartialEq, Eq, Structural)]
pub struct ScreenPosition {
    pub x: usize,
    pub y: usize,
}

/// One axis of the way from the mosaic to the image: the place `point` of
/// `mosaic_dimension` millimetres, as one of `image_dimension` pixels.
pub open spec fn spec_axis_to_pixel(point: int, mosaic_dimension: int, image_dimension: int) -> int {
    (image_dimension * point) / mosaic_dimension
}

/// The pixel of the image that a point of the mosaic falls on. There is none
/// where the mosaic has no width or no height, nor where a `usize` cannot
/// hold the pixel's column or row.
pub open spec fn spec_mosaic_point_to_image_pixel(
    point: (int, int),
    mosaic_dimensions: (int, int),
    image_dimensions: (int, int),
) -> Option<(int, int)> {
    let x = spec_axis_to_pixel(point.0, mosaic_dimensions.0, image_dimensions.0);
    let y = spec_axis_to_pixel(point.1, mosaic_dimensions.1, image_dimensions.1);
    if mosaic_dimensions.0 > 0 && mosaic_dimensions.1 > 0 && x <= usize::MAX && y <= usize::MAX {
        Some((x, y))
    } else {
        None
    }
}

/// The distance from one tessera to the next: its size and the gap.
pub open spec fn spec_stride(tessera_size: int, gap: int) -> int {
    tessera_size + gap
}

/// Where on the screen the tessera with the given number begins, along one
/// axis. Tesserae are numbered from one.
pub open spec fn spec_tessera_origin(origin: int, number: int, tessera_size: int, gap: int) -> int {
    origin + (number - 1) * spec_stride(tessera_size, gap)
}

/// The number of the tessera that a place on the screen belongs to, along one
/// axis: the distance from the origin, divided by the stride and rounded up.
/// A place at or before the origin belongs to none, which is number zero.
pub open spec fn spec_tessera_number(clicked: int, origin: int, tessera_size: int, gap: int) -> int {
    if clicked <= origin {
        0
    } else {
        spec_ceil_div(clicked - origin, spec_stride(tessera_size, gap))
    }
}

/// The row and the column, in this order, of the tessera that a place on the
/// screen belongs to.
pub open spec fn spec_tessera_position(
    clicked_position: ScreenPosition,
    start_position: ScreenPosition,
    tessera_size: (int, int),
    gap_between_tesserae: usize,
) -> (int, int) {
    (
        spec_tessera_number(
            clicked_position.y as int,
            start_position.y as int,
            tessera_size.1,
            gap_between_tesserae as int,
        ),
        spec_tessera_number(
            clicked_position.x as int,
            start_position.x as int,
            tessera_size.0,
            gap_between_tesserae as int,
        ),
    )
}

/// How many of the places `first`, `first + stride`, `first + 2 stride` and
/// so on lie below `end`.
pub open spec fn spec_steps(first: int, end: int, stride: int) -> int {
    if end <= first {
        0
    } else {
        (end - first - 1) / stride + 1
    }
}

/// A step has an index below the number of steps exactly if its place lies
/// below the end.
pub proof fn lemma_steps(first: int, end: int, stride: int, index: int)
    requires
        stride > 0,
        index >= 0,
    ensures
        spec_steps(first, end, stride) >= 0,
        index < spec_steps(first, end, stride) <==> first + index * stride < end,
{
    assert(index * stride >= 0) by (nonlinear_arith)
        requires
            index >= 0,
            stride > 0,
    ;
    if end > first {
        let last = (end - first - 1) / stride;
        lemma_fundamental_div_mod(end - first - 1, stride);
        lemma_mod_bound(end - first - 1, stride);
        assert(stride * last == last * stride) by (nonlinear_arith);
        if last < 0 {
            assert(last * stride <= -stride) by (nonlinear_arith)
                requires
                    last <= -1,
                    stride > 0,
            ;
        }
        if index <= last {
            assert(index * stride <= last * stride) by (nonlinear_arith)
                requires
                    index <= last,
                    stride > 0,
            ;
        } else {
            assert(index * stride >= (last + 1) * stride) by (nonlinear_arith)
                requires
                    index >= last + 1,
                    stride > 0,
            ;
            assert((last + 1) * stride == last * stride + stride) by (nonlinear_arith);
        }
    }
}

/// A place behind the beginning of a tessera, by no more than one stride,
/// belongs to that tessera: finding the tessera of a place undoes laying the
/// tesserae out. This holds of every place on the tessera but its first edge,
/// and of the gap behind it.
pub proof fn lemma_tessera_number_inverts_layout(
    origin: int,
    number: int,
    tessera_size: int,
    gap: int,
    offset: int,
)
    requires
        number >= 1,
        spec_stride(tessera_size, gap) > 0,
        0 < offset <= spec_stride(tessera_size, gap),
    ensures
        spec_tessera_number(
            spec_tessera_origin(origin, number, tessera_size, gap) + offset,
            origin,
            tessera_size,
            gap,
        ) == number,
{
    let stride = spec_stride(tessera_size, gap);
    let distance = (number - 1) * stride + offset;
    assert((number - 1) * stride >= 0) by (nonlinear_arith)
        requires
            number >= 1,
            stride > 0,
    ;
    lemma_ceil_div(distance, stride);
    let found = spec_ceil_div(distance, stride);
    assert((number - 1) * stride == number * stride - stride) by (nonlinear_arith);
    assert((found - 1) * stride == found * stride - stride) by (nonlinear_arith);
    if found < number {
        assert(found * stride <= (number - 1) * stride) by (nonlinear_arith)
            requires
                found <= number - 1,
                stride > 0,
        ;
    }
    if found > number {
        assert((found - 1) * stride >= number * stride) by (nonlinear_arith)
            requires
                found - 1 >= number,
                stride > 0,
        ;
    }
}

/// The far edge of a tessera that has a size belongs to that tessera.
pub proof fn lemma_far_edge_belongs_to_tessera(origin: int, number: int, tessera_size: int, gap: int)
    requires
        number >= 1,
        tessera_size >= 1,
        gap >= 0,
    ensures
        spec_tessera_number(
            origin + number * tessera_size + (number - 1) * gap,
            origin,
            tessera_size,
            gap,
        ) == number,
{
    lemma_tessera_number_inverts_layout(origin, number, tessera_size, gap, tessera_size);
    assert(origin + number * tessera_size + (number - 1) * gap == spec_tessera_origin(
        origin,
        number,
        tessera_size,
        gap,
    ) + tessera_size) by (nonlinear_arith);
}

/// One axis of the way from the mosaic to the image, as a wide number.
fn axis_to_pixel(point: usize, mosaic_dimension: usize, image_dimension: usize) -> (pixel: u128)
    requires
        mosaic_dimension > 0,
    ensures
        pixel == spec_axis_to_pixel(point as int, mosaic_dimension as int, image_dimension as int),
{
    wide_product(image_dimension, point) / (mosaic_dimension as u128)
}

/// The pixel of the image that a point of the mosaic falls on: each
/// coordinate is multiplied by the image's dimension, divided by the
/// mosaic's dimension and cut to a whole number. Returns `None` where a
/// dimension of the mosaic is zero, or where a pixel coordinate exceeds
/// `usize::MAX`.
pub fn mosaic_point_to_image_pixel(
    point_position_on_mosaic: [usize; 2],
    mosaic_dimensions: [usize; 2],
    image_dimensions: [usize; 2],
) -> (pixel: Option<[usize; 2]>)
    ensures
        match pixel {
            Some(p) => spec_mosaic_point_to_image_pixel(
                (point_position_on_mosaic[0] as int, point_position_on_mosaic[1] as int),
                (mosaic_dimensions[0] as int, mosaic_dimensions[1] as int),
                (image_dimensions[0] as int, image_dimensions[1] as int),
            ) == Some((p[0] as int, p[1] as int)),
            None => spec_mosaic_point_to_image_pixel(
                (point_position_on_mosaic[0] as int, point_position_on_mosaic[1] as int),
                (mosaic_dimensions[0] as int, mosaic_dimensions[1] as int),
                (image_dimensions[0] as int, image_dimensions[1] as int),
            ) is None,
        },
{
    if mosaic_dimensions[0] == 0 || mosaic_dimensions[1] == 0 {
        return None;
    }
    let x = axis_to_pixel(point_position_on_mosaic[0], mosaic_dimensions[0], image_dimensions[0]);
    let y = axis_to_pixel(point_position_on_mosaic[1], mosaic_dimensions[1], image_dimensions[1]);
    if x <= usize::MAX as u128 && y <= usize::MAX as u128 {
        Some([x as usize, y as usize])
    } else {
        None
    }
}

/// The number of the tessera that a place on the screen belongs to, along
/// one axis.
fn tessera_number(clicked: usize, origin: usize, tessera_size: usize, gap: usize) -> (number: usize)
    requires
        spec_stride(tessera_size as int, gap as int) > 0,
    ensures
        number == spec_tessera_number(
            clicked as int,
            origin as int,
            tessera_size as int,
            gap as int,
        ),
{
    if clicked <= origin {
        return 0;
    }
    let distance: u128 = (clicked - origin) as u128;
    let stride: u128 = tessera_size as u128 + gap as u128;
    let whole = distance / stride;
    proof {
        lemma_ceil_div(distance as int, stride as int);
        lemma_fundamental_div_mod(distance as int, stride as int);
        lemma_mod_bound(distance as int, stride as int);
        assert(stride * whole >= whole) by (nonlinear_arith)
            requires
                stride >= 1,
                whole >= 0,
        ;
    }
    let number: u128 = if distance % stride == 0 {
        whole
    } else {
        whole + 1
    };
    number as usize
}

/// How many of the places `first`, `first + stride` and so on lie below
/// `end`.
pub(crate) fn steps(first: usize, end: usize, stride: u128) -> (count: usize)
    requires
        stride > 0,
    ensures
        count == spec_steps(first as int, end as int, stride as int),
        count <= end - first || count == 0,
{
    if end <= first {
        return 0;
    }
    let last: u128 = (end - first - 1) as u128 / stride;
    proof {
        lemma_div_nonincreasing(end - first - 1, stride as int);
    }
    (last + 1) as usize
}

/// The place one stride behind `place`, which is the step with the given
/// index, where another step follows it.
pub(crate) fn next_step(place: usize, index: usize, first: usize, end: usize, stride: u128) -> (next:
    usize)
    requires
        stride > 0,
        index + 1 < spec_steps(first as int, end as int, stride as int),
        place == first + index * stride,
    ensures
        next == first + (index + 1) * stride,
        next < end,
{
    proof {
        lemma_steps(first as int, end as int, stride as int, index + 1);
        assert((index + 1) * stride == index * stride + stride) by (nonlinear_arith);
    }
    (place as u128 + stride) as usize
}

/// The position on the grid of the tessera that a place on the screen
/// belongs to. Along each axis the distance of the place from the start of
/// the grid is divided by the stride, the size of a tessera and the gap, and
/// rounded up: a place on the far edge of a tessera still belongs to it, and
/// one on its near edge to the one before. A place at or before the start has
/// row or column zero, which is no tessera.
pub fn get_tessera_position(
    clicked_position: ScreenPosition,
    start_position: ScreenPosition,
    tessera_size: [usize; 2],
    gap_between_tesserae: usize,
) -> (position: PositionOnGrid)
    requires
        spec_stride(tessera_size[0] as int, gap_between_tesserae as int) > 0,
        spec_stride(tessera_size[1] as int, gap_between_tesserae as int) > 0,
    ensures
        (position.row as int, position.column as int) == spec_tessera_position(
            clicked_position,
            start_position,
            (tessera_size[0] as int, tessera_size[1] as int),
            gap_between_tesserae,
        ),
{
    PositionOnGrid {
        column: tessera_number(
            clicked_position.x,
            start_position.x,
            tessera_size[0],
            gap_between_tesserae,
        ),
        row: tessera_number(
            clicked_position.y,
            start_position.y,
            tessera_size[1],
            gap_between_tesserae,
        ),
    }
}

} // verus!
