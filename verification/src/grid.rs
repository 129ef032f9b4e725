//! Building the grid of tesserae over the area of a mosaic.

use crate::color::{spec_fallback_color, spec_to_perceptual, to_perceptual, DisplayColor};
use crate::coordinates::{
    lemma_steps, mosaic_point_to_image_pixel, next_step, spec_mosaic_point_to_image_pixel,
    spec_steps, spec_stride, steps,
};
use crate::mosaic::{Mosaic, RectangleInMm, Tessera};
use crate::source_image::{spec_sample, spec_view, SourceImage, SourceImageView};
use vstd::arithmetic::div_mod::{lemma_fundamental_div_mod, lemma_mod_bound};
use vstd::prelude::*;

verus! {

/// Where the tesserae of a mosaic get their colours from.
pub enum ColorSource<'a> {
    /// Every tessera gets this colour.
    Uniform(DisplayColor),
    /// Every tessera gets the colour that the image has under its centre, or
    /// the fallback colour where the image has none there, or is missing.
    Sampled(Option<&'a SourceImage>),
}

/// A source of colours, as what it holds.
pub enum ColorSourceView {
    /// Every tessera gets this colour.
    Uniform(DisplayColor),
    /// Every tessera gets the colour that this image has under its centre.
    Sampled(Option<SourceImageView>),
}

impl<'a> View for ColorSource<'a> {
    type V = ColorSourceView;

    open spec fn view(&self) -> ColorSourceView {
        match *self {
            ColorSource::Uniform(color) => ColorSourceView::Uniform(color),
            ColorSource::Sampled(image) => ColorSourceView::Sampled(spec_image(image)),
        }
    }
}

/// How many tesserae lie along one axis of a mosaic: one begins at each of
/// the places 1, 1 + stride, 1 + 2 stride and so on that are below `extent`.
pub open spec fn spec_tessera_count(extent: int, stride: int) -> int {
    spec_steps(1, extent, stride)
}

/// The place, in millimetres, at which the tessera with the given index
/// begins along one axis. The first tessera has index zero and begins at 1.
pub open spec fn spec_cell_origin(index: int, stride: int) -> int {
    1 + index * stride
}

/// The place, in millimetres, of the centre of a tessera along one axis.
pub open spec fn spec_cell_centre(index: int, tessera_size: int, gap: int) -> int {
    spec_cell_origin(index, spec_stride(tessera_size, gap)) + tessera_size / 2
}

/// The image behind a reference, if there is one.
pub open spec fn spec_image(image: Option<&SourceImage>) -> Option<SourceImageView> {
    match image {
        Some(img) => Some(img@),
        None => None,
    }
}

/// The display colour for a point of the mosaic: that of the pixel which the
/// point falls on, and the fallback colour where there is no image, no such
/// pixel, or no colour for it.
pub open spec fn spec_sampled_color(
    image: Option<SourceImageView>,
    mosaic_size: RectangleInMm,
    point: (int, int),
) -> DisplayColor {
    match image {
        None => spec_fallback_color(),
        Some(img) => match spec_mosaic_point_to_image_pixel(
            point,
            (mosaic_size.horizontal as int, mosaic_size.vertical as int),
            (img.width as int, img.height as int),
        ) {
            None => spec_fallback_color(),
            Some(pixel) => match spec_sample(image, pixel.0, pixel.1) {
                Ok(color) => color,
                Err(_) => spec_fallback_color(),
            },
        },
    }
}

/// The display colour of the tessera in row `row` and column `column`, both
/// counted from zero.
pub open spec fn spec_cell_color(
    source: ColorSourceView,
    mosaic_size: RectangleInMm,
    tessera_size: RectangleInMm,
    gap: usize,
    row: int,
    column: int,
) -> DisplayColor {
    match source {
        ColorSourceView::Uniform(color) => color,
        ColorSourceView::Sampled(image) => spec_sampled_color(
            image,
            mosaic_size,
            (
                spec_cell_centre(column, tessera_size.horizontal as int, gap as int),
                spec_cell_centre(row, tessera_size.vertical as int, gap as int),
            ),
        ),
    }
}

/// The number of rows of the grid.
pub open spec fn spec_grid_rows(
    mosaic_size: RectangleInMm,
    tessera_size: RectangleInMm,
    gap: usize,
) -> int {
    spec_tessera_count(
        mosaic_size.vertical as int,
        spec_stride(tessera_size.vertical as int, gap as int),
    )
}

/// The number of tesserae in each row of the grid.
pub open spec fn spec_grid_columns(
    mosaic_size: RectangleInMm,
    tessera_size: RectangleInMm,
    gap: usize,
) -> int {
    spec_tessera_count(
        mosaic_size.horizontal as int,
        spec_stride(tessera_size.horizontal as int, gap as int),
    )
}

/// One row of the grid.
pub open spec fn spec_grid_row(
    source: ColorSourceView,
    mosaic_size: RectangleInMm,
    tessera_size: RectangleInMm,
    gap: usize,
    row: int,
) -> Seq<Tessera> {
    Seq::new(
        spec_grid_columns(mosaic_size, tessera_size, gap) as nat,
        |column: int|
            Tessera {
                color: spec_to_perceptual(
                    spec_cell_color(source, mosaic_size, tessera_size, gap, row, column),
                ),
            },
    )
}

/// The grid of tesserae over a mosaic: its rows from the top, each from the
/// left, every tessera with the perceptual colour of its display colour.
pub open spec fn spec_grid(
    source: ColorSourceView,
    mosaic_size: RectangleInMm,
    tessera_size: RectangleInMm,
    gap: usize,
) -> Seq<Seq<Tessera>> {
    Seq::new(
        spec_grid_rows(mosaic_size, tessera_size, gap) as nat,
        |row: int| spec_grid_row(source, mosaic_size, tessera_size, gap, row),
    )
}

/// Whether the strides are positive, so that the grid can be walked.
pub open spec fn spec_can_walk(tessera_size: RectangleInMm, gap: usize) -> bool {
    &&& spec_stride(tessera_size.horizontal as int, gap as int) > 0
    &&& spec_stride(tessera_size.vertical as int, gap as int) > 0
}

/// The place of the centre of the last tessera along one axis of a mosaic
/// that has tesserae.
pub open spec fn spec_last_centre(extent: int, tessera_size: int, gap: int) -> int {
    spec_cell_centre(
        spec_tessera_count(extent, spec_stride(tessera_size, gap)) - 1,
        tessera_size,
        gap,
    )
}

/// Whether a `usize` can hold the centre of every tessera of the grid. Only
/// sampling asks for it, and only of a grid that has tesserae.
pub open spec fn spec_centres_fit(
    source: ColorSourceView,
    mosaic_size: RectangleInMm,
    tessera_size: RectangleInMm,
    gap: usize,
) -> bool {
    source is Sampled && spec_grid_rows(mosaic_size, tessera_size, gap) > 0 && spec_grid_columns(
        mosaic_size,
        tessera_size,
        gap,
    ) > 0 ==> {
        &&& spec_last_centre(
            mosaic_size.horizontal as int,
            tessera_size.horizontal as int,
            gap as int,
        ) <= usize::MAX
        &&& spec_last_centre(
            mosaic_size.vertical as int,
            tessera_size.vertical as int,
            gap as int,
        ) <= usize::MAX
    }
}

/// A tessera does not have its centre before one with a smaller index has.
pub proof fn lemma_cell_centre_grows(earlier: int, later: int, tessera_size: int, gap: int)
    requires
        0 <= earlier <= later,
        spec_stride(tessera_size, gap) >= 0,
    ensures
        spec_cell_centre(earlier, tessera_size, gap) <= spec_cell_centre(later, tessera_size, gap),
{
    let stride = spec_stride(tessera_size, gap);
    assert(earlier * stride <= later * stride) by (nonlinear_arith)
        requires
            0 <= earlier <= later,
            stride >= 0,
    ;
}

/// Whether a `usize` can hold the centre of the last tessera along one axis.
fn last_centre_fits(extent: usize, tessera_size: usize, gap: usize) -> (fits: bool)
    requires
        spec_stride(tessera_size as int, gap as int) > 0,
        extent >= 2,
    ensures
        fits == (spec_last_centre(extent as int, tessera_size as int, gap as int) <= usize::MAX),
{
    let stride: u128 = tessera_size as u128 + gap as u128;
    let rest: u128 = (extent - 2) as u128 % stride;
    proof {
        let last = (extent - 2) as int / stride as int;
        lemma_fundamental_div_mod(extent - 2, stride as int);
        lemma_mod_bound(extent - 2, stride as int);
        assert(stride * last == last * stride) by (nonlinear_arith);
    }
    let last_origin: usize = extent - 1 - rest as usize;
    tessera_size / 2 <= usize::MAX - last_origin
}

/// Whether a `usize` can hold the centre of every tessera of the grid, where
/// the source asks for centres at all.
pub fn centres_fit(
    source: &ColorSource,
    mosaic_size: RectangleInMm,
    tessera_size: RectangleInMm,
    gap: usize,
) -> (fits: bool)
    requires
        spec_can_walk(tessera_size, gap),
    ensures
        fits == spec_centres_fit(source@, mosaic_size, tessera_size, gap),
{
    match source {
        ColorSource::Uniform(_) => true,
        ColorSource::Sampled(_) => {
            if mosaic_size.horizontal < 2 || mosaic_size.vertical < 2 {
                true
            } else {
                last_centre_fits(mosaic_size.horizontal, tessera_size.horizontal, gap)
                    && last_centre_fits(mosaic_size.vertical, tessera_size.vertical, gap)
            }
        },
    }
}

/// A tessera has an index below the count exactly if it begins within the
/// extent: the grid covers the places from 1 up to, but not including, the
/// extent, in steps of the stride.
pub proof fn lemma_tessera_count(extent: int, stride: int, index: int)
    requires
        stride > 0,
        index >= 0,
    ensures
        spec_tessera_count(extent, stride) >= 0,
        index < spec_tessera_count(extent, stride) <==> spec_cell_origin(index, stride) < extent,
{
    lemma_steps(1, extent, stride, index);
}

/// How many tesserae lie along one axis.
fn tessera_count(extent: usize, tessera_size: usize, gap: usize) -> (count: usize)
    requires
        spec_stride(tessera_size as int, gap as int) > 0,
    ensures
        count == spec_tessera_count(extent as int, spec_stride(tessera_size as int, gap as int)),
        count <= extent,
{
    steps(1, extent, tessera_size as u128 + gap as u128)
}

/// The display colour for a point of the mosaic.
fn sampled_color(image: Option<&SourceImage>, mosaic_size: RectangleInMm, point: [usize; 2]) -> (color:
    DisplayColor)
    ensures
        color == spec_sampled_color(
            spec_image(image),
            mosaic_size,
            (point[0] as int, point[1] as int),
        ),
{
    match image {
        None => DisplayColor::fallback(),
        Some(img) => {
            let pixel = mosaic_point_to_image_pixel(
                point,
                [mosaic_size.horizontal, mosaic_size.vertical],
                img.size,
            );
            match pixel {
                None => DisplayColor::fallback(),
                Some(position) => match img.pixel_color(position) {
                    Ok(color) => color,
                    Err(_) => DisplayColor::fallback(),
                },
            }
        },
    }
}

/// The place at which the tessera after the one at `origin` begins.
fn next_origin(origin: usize, index: usize, count: usize, extent: usize, tessera_size: usize, gap: usize) -> (next:
    usize)
    requires
        spec_stride(tessera_size as int, gap as int) > 0,
        count == spec_tessera_count(extent as int, spec_stride(tessera_size as int, gap as int)),
        index + 1 < count,
        origin == spec_cell_origin(index as int, spec_stride(tessera_size as int, gap as int)),
    ensures
        next == spec_cell_origin(index + 1, spec_stride(tessera_size as int, gap as int)),
        next < extent,
{
    next_step(origin, index, 1, extent, tessera_size as u128 + gap as u128)
}

/// One row of the grid.
fn build_row(
    source: &ColorSource,
    fill: Option<palette::Oklch>,
    mosaic_size: RectangleInMm,
    tessera_size: RectangleInMm,
    gap: usize,
    row: usize,
    vertical_position: usize,
) -> (tesserae: Vec<Tessera>)
    requires
        spec_can_walk(tessera_size, gap),
        spec_centres_fit(source@, mosaic_size, tessera_size, gap),
        row < spec_grid_rows(mosaic_size, tessera_size, gap),
        vertical_position == spec_cell_origin(
            row as int,
            spec_stride(tessera_size.vertical as int, gap as int),
        ),
        match *source {
            ColorSource::Uniform(color) => fill == Some(spec_to_perceptual(color)),
            ColorSource::Sampled(_) => fill is None,
        },
    ensures
        tesserae@ == spec_grid_row(source@, mosaic_size, tessera_size, gap, row as int),
{
    let ghost stride = spec_stride(tessera_size.horizontal as int, gap as int);
    let columns = tessera_count(mosaic_size.horizontal, tessera_size.horizontal, gap);
    let mut tesserae: Vec<Tessera> = Vec::new();
    let mut column: usize = 0;
    let mut horizontal_position: usize = 1;
    proof {
        lemma_tessera_count(
            mosaic_size.vertical as int,
            spec_stride(tessera_size.vertical as int, gap as int),
            row as int,
        );
    }
    while column < columns
        invariant
            spec_can_walk(tessera_size, gap),
            spec_centres_fit(source@, mosaic_size, tessera_size, gap),
            stride == spec_stride(tessera_size.horizontal as int, gap as int),
            columns == spec_grid_columns(mosaic_size, tessera_size, gap),
            column <= columns,
            column < columns ==> horizontal_position == spec_cell_origin(column as int, stride),
            vertical_position == spec_cell_origin(
                row as int,
                spec_stride(tessera_size.vertical as int, gap as int),
            ),
            vertical_position < mosaic_size.vertical,
            row < spec_grid_rows(mosaic_size, tessera_size, gap),
            match *source {
                ColorSource::Uniform(color) => fill == Some(spec_to_perceptual(color)),
                ColorSource::Sampled(_) => fill is None,
            },
            tesserae@ == spec_grid_row(source@, mosaic_size, tessera_size, gap, row as int).subrange(
                0,
                column as int,
            ),
        decreases columns - column,
    {
        proof {
            lemma_tessera_count(mosaic_size.horizontal as int, stride, column as int);
            lemma_cell_centre_grows(
                column as int,
                columns - 1,
                tessera_size.horizontal as int,
                gap as int,
            );
            lemma_cell_centre_grows(
                row as int,
                spec_grid_rows(mosaic_size, tessera_size, gap) - 1,
                tessera_size.vertical as int,
                gap as int,
            );
        }
        let color = match fill {
            Some(perceptual) => perceptual,
            None => match source {
                ColorSource::Uniform(color) => to_perceptual(*color),
                ColorSource::Sampled(image) => {
                    let sample_point = [
                        horizontal_position + tessera_size.horizontal / 2,
                        vertical_position + tessera_size.vertical / 2,
                    ];
                    to_perceptual(sampled_color(*image, mosaic_size, sample_point))
                },
            },
        };
        tesserae.push(Tessera { color });
        if column + 1 < columns {
            horizontal_position = next_origin(
                horizontal_position,
                column,
                columns,
                mosaic_size.horizontal,
                tessera_size.horizontal,
                gap,
            );
        }
        column += 1;
        assert(tesserae@ =~= spec_grid_row(
            source@,
            mosaic_size,
            tessera_size,
            gap,
            row as int,
        ).subrange(0, column as int));
    }
    assert(tesserae@ =~= spec_grid_row(source@, mosaic_size, tessera_size, gap, row as int));
    tesserae
}

/// Builds a mosaic over an area of `mosaic_size`: a grid of tesserae of
/// `tessera_size`, `gap` apart. Along each axis a tessera begins at 1, and
/// then at every stride from there that is still below the size of the
/// mosaic. With a uniform source every tessera gets the one colour, taken to
/// the perceptual space once. With a sampled source each gets the colour of
/// the pixel under its centre, or the fallback colour where that pixel cannot
/// be had; no tessera makes the building fail.
pub fn build_mosaic(
    base_image: Option<SourceImage>,
    source: &ColorSource,
    mosaic_size: RectangleInMm,
    tessera_size: RectangleInMm,
    gap: usize,
) -> (mosaic: Mosaic)
    requires
        tessera_size.horizontal > 0,
        tessera_size.vertical > 0,
        spec_centres_fit(source@, mosaic_size, tessera_size, gap),
    ensures
        mosaic.well_formed(),
        mosaic@.base_image == spec_view(base_image),
        mosaic@.general_tessera_size == tessera_size,
        mosaic@.contents == spec_grid(source@, mosaic_size, tessera_size, gap),
{
    let ghost stride = spec_stride(tessera_size.vertical as int, gap as int);
    let fill: Option<palette::Oklch> = match source {
        ColorSource::Uniform(color) => Some(to_perceptual(*color)),
        ColorSource::Sampled(_) => None,
    };
    let rows = tessera_count(mosaic_size.vertical, tessera_size.vertical, gap);
    let mut mosaic = Mosaic::new(base_image, tessera_size);
    let mut row: usize = 0;
    let mut vertical_position: usize = 1;
    while row < rows
        invariant
            spec_can_walk(tessera_size, gap),
            spec_centres_fit(source@, mosaic_size, tessera_size, gap),
            stride == spec_stride(tessera_size.vertical as int, gap as int),
            rows == spec_grid_rows(mosaic_size, tessera_size, gap),
            row <= rows,
            row < rows ==> vertical_position == spec_cell_origin(row as int, stride),
            match *source {
                ColorSource::Uniform(color) => fill == Some(spec_to_perceptual(color)),
                ColorSource::Sampled(_) => fill is None,
            },
            mosaic.well_formed(),
            mosaic@.base_image == spec_view(base_image),
            mosaic@.general_tessera_size == tessera_size,
            mosaic@.contents == spec_grid(source@, mosaic_size, tessera_size, gap).subrange(
                0,
                row as int,
            ),
        decreases rows - row,
    {
        let tesserae = build_row(
            source,
            fill,
            mosaic_size,
            tessera_size,
            gap,
            row,
            vertical_position,
        );
        mosaic.add_a_row_of_tesserae(tesserae);
        if row + 1 < rows {
            vertical_position = next_origin(
                vertical_position,
                row,
                rows,
                mosaic_size.vertical,
                tessera_size.vertical,
                gap,
            );
        }
        row += 1;
        assert(mosaic@.contents =~= spec_grid(source@, mosaic_size, tessera_size, gap).subrange(
            0,
            row as int,
        ));
    }
    assert(mosaic@.contents =~= spec_grid(source@, mosaic_size, tessera_size, gap));
    mosaic
}

} // verus!
