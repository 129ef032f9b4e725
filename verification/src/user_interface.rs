//! What is painted: the lines of the grid and the tesserae of the mosaic, as
//! rectangles on the screen.

use crate::color::{
    spec_blank_color, spec_edit_color, spec_grid_color, spec_to_display, spec_to_perceptual,
    spec_transparent, to_display, to_perceptual, DisplayColor,
};
use crate::config::DEFAULT_GAP_BETWEEN_TESSSELAE;
use crate::coordinates::{
    get_tessera_position, lemma_steps, lemma_tessera_number_inverts_layout, next_step,
    spec_steps, spec_stride, spec_tessera_position, steps, ScreenPosition,
};
use crate::grid::{centres_fit, ColorSource, ColorSourceView};
use crate::mosaic::{
    spec_on_grid, spec_out_of_bounds, spec_replaced, spec_rows, Mosaic, OutOfBounds,
    PositionOnGrid, RectangleInMm, Tessera,
};
use crate::source_image::{spec_view, SourceImage};
use crate::user_interface_app::{
    spec_adjusted_dimensions, spec_zoom_factor, MosaicneitorApp,
};
use crate::utils::{narrow, wide_product};
use vstd::arithmetic::div_mod::{lemma_fundamental_div_mod, lemma_mod_bound};
use vstd::prelude::*;

verus! {

/// A rectangle on the screen, by its corner nearest to the origin and the
/// corner opposite to it.
#[derive(Clone, Copy, Debug, PartialEq, Eq, Structural)]
pub struct ScreenRectangle {
    pub min: ScreenPosition,
    pub max: ScreenPosition,
}

/// Something to paint.
#[derive(Clone, Copy, Debug, PartialEq, Eq, Structural)]
pub enum Shape {
    /// The source image, stretched over a rectangle.
    Image(ScreenRectangle),
    /// A rectangle filled with one colour, with an outline one pixel wide in
    /// another.
    Rectangle { rect: ScreenRectangle, fill: DisplayColor, stroke: DisplayColor },
}

/// The rectangle that begins at `(x, y)` and has the given width and height.
pub open spec fn spec_rectangle_at(x: int, y: int, width: int, height: int) -> ScreenRectangle {
    ScreenRectangle {
        min: ScreenPosition { x: x as usize, y: y as usize },
        max: ScreenPosition { x: (x + width) as usize, y: (y + height) as usize },
    }
}

/// Where the tessera with the given index ends along one axis, on a screen on
/// which the first tessera begins at `start`. Indices count from zero.
pub open spec fn spec_far_edge(start: int, index: int, size: int, gap: int) -> int {
    start + index * spec_stride(size, gap) + size
}

/// The outline of the cell of the grid in the given column and row, both
/// counted from zero.
pub open spec fn spec_grid_cell(
    start_position: ScreenPosition,
    tessera_size: (int, int),
    gap: usize,
    column: int,
    row: int,
) -> Shape {
    Shape::Rectangle {
        rect: spec_rectangle_at(
            start_position.x + column * spec_stride(tessera_size.0, gap as int),
            start_position.y + row * spec_stride(tessera_size.1, gap as int),
            tessera_size.0,
            tessera_size.1,
        ),
        fill: spec_transparent(),
        stroke: spec_grid_color(),
    }
}

/// The outlines of one column of the grid, from the top.
pub open spec fn spec_grid_column(
    start_position: ScreenPosition,
    end_position: ScreenPosition,
    tessera_size: (int, int),
    gap: usize,
    column: int,
) -> Seq<Shape> {
    Seq::new(
        spec_steps(
            start_position.y as int,
            end_position.y as int,
            spec_stride(tessera_size.1, gap as int),
        ) as nat,
        |row: int| spec_grid_cell(start_position, tessera_size, gap, column, row),
    )
}

/// The columns of the grid, from the left.
pub open spec fn spec_grid_columns(
    start_position: ScreenPosition,
    end_position: ScreenPosition,
    tessera_size: (int, int),
    gap: usize,
) -> Seq<Seq<Shape>> {
    Seq::new(
        spec_steps(
            start_position.x as int,
            end_position.x as int,
            spec_stride(tessera_size.0, gap as int),
        ) as nat,
        |column: int| spec_grid_column(start_position, end_position, tessera_size, gap, column),
    )
}

/// The outlines of the grid between two corners of the screen: one cell
/// begins at every stride from the start that is still before the end, column
/// after column, each column from the top.
pub open spec fn spec_tesserae_grid(
    start_position: ScreenPosition,
    end_position: ScreenPosition,
    tessera_size: (int, int),
    gap: usize,
) -> Seq<Shape> {
    spec_grid_columns(start_position, end_position, tessera_size, gap).flatten()
}

/// Whether the grid can be laid out: the strides are positive, and the last
/// cell along each axis, where the grid has cells, ends at a place that a
/// `usize` holds.
pub open spec fn spec_grid_fits(
    start_position: ScreenPosition,
    end_position: ScreenPosition,
    tessera_size: (int, int),
    gap: usize,
) -> bool {
    let columns = spec_steps(
        start_position.x as int,
        end_position.x as int,
        spec_stride(tessera_size.0, gap as int),
    );
    let rows = spec_steps(
        start_position.y as int,
        end_position.y as int,
        spec_stride(tessera_size.1, gap as int),
    );
    &&& spec_stride(tessera_size.0, gap as int) > 0
    &&& spec_stride(tessera_size.1, gap as int) > 0
    &&& columns > 0 && rows > 0 ==> {
        &&& spec_far_edge(start_position.x as int, columns - 1, tessera_size.0, gap as int)
            <= usize::MAX
        &&& spec_far_edge(start_position.y as int, rows - 1, tessera_size.1, gap as int)
            <= usize::MAX
    }
}

/// A filled rectangle.
fn rectangle(x: usize, y: usize, width: usize, height: usize, fill: DisplayColor, stroke: DisplayColor) -> (shape:
    Shape)
    requires
        x + width <= usize::MAX,
        y + height <= usize::MAX,
    ensures
        shape == (Shape::Rectangle {
            rect: spec_rectangle_at(x as int, y as int, width as int, height as int),
            fill,
            stroke,
        }),
{
    Shape::Rectangle {
        rect: ScreenRectangle {
            min: ScreenPosition { x, y },
            max: ScreenPosition { x: x + width, y: y + height },
        },
        fill,
        stroke,
    }
}

/// The outlines of the cells of a grid that covers the screen from
/// `start_position` up to, but not including, `end_position`. The cells have
/// the size of a tessera and lie one gap apart. They come column after
/// column, each column from the top.
pub fn generate_shapes_to_paint_tesserae_grid(
    start_position: ScreenPosition,
    end_position: ScreenPosition,
    tessera_size: [usize; 2],
    gap_between_tesserae: usize,
) -> (shapes: Vec<Shape>)
    requires
        spec_grid_fits(
            start_position,
            end_position,
            (tessera_size[0] as int, tessera_size[1] as int),
            gap_between_tesserae,
        ),
    ensures
        shapes@ == spec_tesserae_grid(
            start_position,
            end_position,
            (tessera_size[0] as int, tessera_size[1] as int),
            gap_between_tesserae,
        ),
{
    let ghost size = (tessera_size[0] as int, tessera_size[1] as int);
    let stride_x: u128 = tessera_size[0] as u128 + gap_between_tesserae as u128;
    let stride_y: u128 = tessera_size[1] as u128 + gap_between_tesserae as u128;
    let columns = steps(start_position.x, end_position.x, stride_x);
    let rows = steps(start_position.y, end_position.y, stride_y);
    let ghost all = spec_grid_columns(start_position, end_position, size, gap_between_tesserae);
    let fill = DisplayColor::transparent();
    let stroke = DisplayColor::grid();
    let mut shapes: Vec<Shape> = Vec::new();
    let mut column: usize = 0;
    let mut x: usize = start_position.x;
    assert(all.subrange(0, 0) =~= Seq::<Seq<Shape>>::empty());
    while column < columns
        invariant
            size == (tessera_size[0] as int, tessera_size[1] as int),
            spec_grid_fits(start_position, end_position, size, gap_between_tesserae),
            stride_x == spec_stride(tessera_size[0] as int, gap_between_tesserae as int),
            stride_y == spec_stride(tessera_size[1] as int, gap_between_tesserae as int),
            columns == spec_steps(start_position.x as int, end_position.x as int, stride_x as int),
            rows == spec_steps(start_position.y as int, end_position.y as int, stride_y as int),
            all == spec_grid_columns(start_position, end_position, size, gap_between_tesserae),
            fill == spec_transparent(),
            stroke == spec_grid_color(),
            column <= columns,
            column < columns ==> x == start_position.x + column * stride_x,
            shapes@ == all.subrange(0, column as int).flatten(),
        decreases columns - column,
    {
        let ghost before = shapes@;
        let ghost cells = all[column as int];
        proof {
            lemma_steps(
                start_position.x as int,
                end_position.x as int,
                stride_x as int,
                column as int,
            );
        }
        let mut row: usize = 0;
        let mut y: usize = start_position.y;
        while row < rows
            invariant
                size == (tessera_size[0] as int, tessera_size[1] as int),
                spec_grid_fits(start_position, end_position, size, gap_between_tesserae),
                stride_x == spec_stride(tessera_size[0] as int, gap_between_tesserae as int),
                stride_y == spec_stride(tessera_size[1] as int, gap_between_tesserae as int),
                columns == spec_steps(
                    start_position.x as int,
                    end_position.x as int,
                    stride_x as int,
                ),
                rows == spec_steps(start_position.y as int, end_position.y as int, stride_y as int),
                column < columns,
                cells == spec_grid_column(
                    start_position,
                    end_position,
                    size,
                    gap_between_tesserae,
                    column as int,
                ),
                fill == spec_transparent(),
                stroke == spec_grid_color(),
                x == start_position.x + column * stride_x,
                x < end_position.x,
                row <= rows,
                row < rows ==> y == start_position.y + row * stride_y,
                shapes@ == before + cells.subrange(0, row as int),
            decreases rows - row,
        {
            proof {
                lemma_steps(
                    start_position.y as int,
                    end_position.y as int,
                    stride_y as int,
                    row as int,
                );
                lemma_far_edge_grows(
                    start_position.x as int,
                    column as int,
                    columns - 1,
                    size.0,
                    gap_between_tesserae as int,
                );
                lemma_far_edge_grows(
                    start_position.y as int,
                    row as int,
                    rows - 1,
                    size.1,
                    gap_between_tesserae as int,
                );
            }
            shapes.push(rectangle(x, y, tessera_size[0], tessera_size[1], fill, stroke));
            if row + 1 < rows {
                y = next_step(y, row, start_position.y, end_position.y, stride_y);
            }
            row += 1;
            assert(shapes@ =~= before + cells.subrange(0, row as int));
        }
        assert(cells.subrange(0, rows as int) =~= cells);
        proof {
            all.subrange(0, column as int).lemma_flatten_push(cells);
            assert(all.subrange(0, column as int).push(cells) =~= all.subrange(0, column + 1));
        }
        if column + 1 < columns {
            x = next_step(x, column, start_position.x, end_position.x, stride_x);
        }
        column += 1;
    }
    assert(all.subrange(0, columns as int) =~= all);
    shapes
}

/// Whether the outlines of the grid between two corners of the screen can be
/// laid out, so that every rectangle has corners that a `usize` holds.
pub fn tesserae_grid_fits(
    start_position: ScreenPosition,
    end_position: ScreenPosition,
    tessera_size: [usize; 2],
    gap_between_tesserae: usize,
) -> (fits: bool)
    ensures
        fits == spec_grid_fits(
            start_position,
            end_position,
            (tessera_size[0] as int, tessera_size[1] as int),
            gap_between_tesserae,
        ),
{
    let stride_x: u128 = tessera_size[0] as u128 + gap_between_tesserae as u128;
    let stride_y: u128 = tessera_size[1] as u128 + gap_between_tesserae as u128;
    if stride_x == 0 || stride_y == 0 {
        return false;
    }
    let columns = steps(start_position.x, end_position.x, stride_x);
    let rows = steps(start_position.y, end_position.y, stride_y);
    if columns == 0 || rows == 0 {
        return true;
    }
    far_edge_fits(start_position.x, columns - 1, tessera_size[0] as u128, gap_between_tesserae)
        && far_edge_fits(
        start_position.y,
        rows - 1,
        tessera_size[1] as u128,
        gap_between_tesserae,
    )
}

/// The size of a tessera on the screen: its size in millimetres, multiplied by
/// the zoom factor.
pub open spec fn spec_zoomed_size(size: RectangleInMm, zoom_factor: usize) -> (int, int) {
    (size.horizontal * zoom_factor, size.vertical * zoom_factor)
}

/// The filled rectangle of a tessera in the given row and column, both
/// counted from zero, in its display colour.
pub open spec fn spec_tessera_shape(
    tessera: Tessera,
    start_position: ScreenPosition,
    size: (int, int),
    gap: usize,
    row: int,
    column: int,
) -> Shape {
    Shape::Rectangle {
        rect: spec_rectangle_at(
            start_position.x + column * spec_stride(size.0, gap as int),
            start_position.y + row * spec_stride(size.1, gap as int),
            size.0,
            size.1,
        ),
        fill: spec_to_display(tessera.color),
        stroke: spec_to_display(tessera.color),
    }
}

/// The rectangles of one row of tesserae, from the left.
pub open spec fn spec_row_shapes(
    tesserae: Seq<Tessera>,
    start_position: ScreenPosition,
    size: (int, int),
    gap: usize,
    row: int,
) -> Seq<Shape> {
    Seq::new(
        tesserae.len(),
        |column: int| spec_tessera_shape(tesserae[column], start_position, size, gap, row, column),
    )
}

/// The rectangles of the rows of tesserae, row by row.
pub open spec fn spec_rows_shapes(
    contents: Seq<Seq<Tessera>>,
    start_position: ScreenPosition,
    size: (int, int),
    gap: usize,
) -> Seq<Seq<Shape>> {
    Seq::new(
        contents.len(),
        |row: int| spec_row_shapes(contents[row], start_position, size, gap, row),
    )
}

/// The rectangles of all tesserae: laid out from the start position in
/// strides of the size of a tessera and the gap, row after row from the top,
/// each row from the left.
pub open spec fn spec_mosaic_shapes(
    contents: Seq<Seq<Tessera>>,
    start_position: ScreenPosition,
    size: (int, int),
    gap: usize,
) -> Seq<Shape> {
    spec_rows_shapes(contents, start_position, size, gap).flatten()
}

/// Whether one row can be laid out: a row that has tesserae, and the last
/// tessera in it, end at places that a `usize` holds.
pub open spec fn spec_row_fits(
    tesserae: Seq<Tessera>,
    start_position: ScreenPosition,
    size: (int, int),
    gap: usize,
    row: int,
) -> bool {
    tesserae.len() > 0 ==> {
        &&& spec_far_edge(start_position.y as int, row, size.1, gap as int) <= usize::MAX
        &&& spec_far_edge(start_position.x as int, tesserae.len() - 1, size.0, gap as int)
            <= usize::MAX
    }
}

/// Whether the tesserae can be laid out: every row fits, so that every
/// rectangle has corners that a `usize` holds.
pub open spec fn spec_layout_fits(
    contents: Seq<Seq<Tessera>>,
    start_position: ScreenPosition,
    size: (int, int),
    gap: usize,
) -> bool {
    forall|row: int|
        0 <= row < contents.len() ==> spec_row_fits(
            #[trigger] contents[row],
            start_position,
            size,
            gap,
            row,
        )
}

/// A tessera does not end before one with a smaller index does.
pub proof fn lemma_far_edge_grows(start: int, earlier: int, later: int, size: int, gap: int)
    requires
        0 <= earlier <= later,
        size >= 0,
        gap >= 0,
    ensures
        start + size <= spec_far_edge(start, earlier, size, gap) <= spec_far_edge(
            start,
            later,
            size,
            gap,
        ),
        start + earlier * spec_stride(size, gap) <= spec_far_edge(start, earlier, size, gap),
{
    let stride = spec_stride(size, gap);
    assert(0 <= earlier * stride <= later * stride) by (nonlinear_arith)
        requires
            0 <= earlier <= later,
            stride >= 0,
    ;
}

/// A click on the painted rectangle of a tessera, anywhere but on the two
/// edges where it begins, is found to belong to that tessera: the tesserae
/// are painted in the strides in which clicks are counted. Rows and columns
/// count from zero where tesserae are painted and from one where a click is
/// found.
pub proof fn lemma_click_on_painted_tessera(
    start_position: ScreenPosition,
    clicked_position: ScreenPosition,
    size: (int, int),
    gap: usize,
    row: int,
    column: int,
)
    requires
        row >= 0,
        column >= 0,
        size.0 > 0,
        size.1 > 0,
        start_position.x + column * spec_stride(size.0, gap as int) < clicked_position.x
            <= start_position.x + column * spec_stride(size.0, gap as int) + size.0,
        start_position.y + row * spec_stride(size.1, gap as int) < clicked_position.y
            <= start_position.y + row * spec_stride(size.1, gap as int) + size.1,
    ensures
        spec_tessera_position(clicked_position, start_position, size, gap) == (row + 1, column + 1),
{
    lemma_tessera_number_inverts_layout(
        start_position.x as int,
        column + 1,
        size.0,
        gap as int,
        clicked_position.x - (start_position.x + column * spec_stride(size.0, gap as int)),
    );
    lemma_tessera_number_inverts_layout(
        start_position.y as int,
        row + 1,
        size.1,
        gap as int,
        clicked_position.y - (start_position.y + row * spec_stride(size.1, gap as int)),
    );
}

/// Whether the tessera with the given index ends at a place that a `usize`
/// holds.
fn far_edge_fits(start: usize, index: usize, size: u128, gap: usize) -> (fits: bool)
    requires
        size <= u128::MAX - 0x1_ffff_ffff_ffff_fffe,
    ensures
        fits == (spec_far_edge(start as int, index as int, size as int, gap as int) <= usize::MAX),
{
    let ghost stride_int = spec_stride(size as int, gap as int);
    proof {
        lemma_far_edge_grows(start as int, 0, index as int, size as int, gap as int);
        assert(0 * stride_int == 0);
    }
    if size > (usize::MAX - start) as u128 {
        return false;
    }
    let room: u128 = (usize::MAX - start) as u128 - size;
    let stride: u128 = size + gap as u128;
    if stride == 0 || index == 0 {
        assert(index * stride_int == 0) by (nonlinear_arith)
            requires
                stride_int == 0 || index == 0,
        ;
        return true;
    }
    let most: u128 = room / stride;
    proof {
        lemma_fundamental_div_mod(room as int, stride as int);
        lemma_mod_bound(room as int, stride as int);
        let m = most as int;
        let i = index as int;
        let s = stride as int;
        assert(s * m == m * s) by (nonlinear_arith);
        if i <= m {
            assert(i * s <= m * s) by (nonlinear_arith)
                requires
                    i <= m,
                    s > 0,
            ;
        } else {
            assert(i * s >= (m + 1) * s) by (nonlinear_arith)
                requires
                    i >= m + 1,
                    s > 0,
            ;
            assert((m + 1) * s == m * s + s) by (nonlinear_arith);
        }
    }
    index as u128 <= most
}

/// Whether the tesserae of a mosaic can be laid out on the screen from the
/// start position at the given zoom factor and gap, so that every rectangle
/// has corners that a `usize` holds.
pub fn mosaic_layout_fits(
    mosaic: &Mosaic,
    start_position: ScreenPosition,
    zoom_factor: usize,
    gap_between_tesserae: usize,
) -> (fits: bool)
    ensures
        fits == spec_layout_fits(
            mosaic@.contents,
            start_position,
            spec_zoomed_size(mosaic@.general_tessera_size, zoom_factor),
            gap_between_tesserae,
        ),
{
    let width = wide_product(mosaic.get_general_tessera_size().horizontal, zoom_factor);
    let height = wide_product(mosaic.get_general_tessera_size().vertical, zoom_factor);
    let contents = mosaic.get_contents();
    let ghost size = spec_zoomed_size(mosaic@.general_tessera_size, zoom_factor);
    let mut row: usize = 0;
    while row < contents.len()
        invariant
            row <= contents.len(),
            spec_rows(*contents) == mosaic@.contents,
            size == spec_zoomed_size(mosaic@.general_tessera_size, zoom_factor),
            size == (width as int, height as int),
            width <= u128::MAX - 0x1_ffff_ffff_ffff_fffe,
            height <= u128::MAX - 0x1_ffff_ffff_ffff_fffe,
            forall|r: int|
                0 <= r < row ==> spec_row_fits(
                    #[trigger] mosaic@.contents[r],
                    start_position,
                    size,
                    gap_between_tesserae,
                    r,
                ),
        decreases contents.len() - row,
    {
        let length = contents[row].len();
        assert(mosaic@.contents[row as int] == contents[row as int]@);
        if length > 0 && !(far_edge_fits(start_position.y, row, height, gap_between_tesserae)
            && far_edge_fits(start_position.x, length - 1, width, gap_between_tesserae)) {
            assert(!spec_row_fits(
                mosaic@.contents[row as int],
                start_position,
                size,
                gap_between_tesserae,
                row as int,
            ));
            return false;
        }
        row += 1;
    }
    true
}

/// The rectangles of one row of tesserae, put at the end of the shapes.
fn push_row_shapes(
    shapes: &mut Vec<Shape>,
    tesserae: &Vec<Tessera>,
    start_position: ScreenPosition,
    width: u128,
    height: u128,
    gap: usize,
    row: usize,
    y: usize,
)
    requires
        width <= u128::MAX - 0x1_ffff_ffff_ffff_fffe,
        tesserae@.len() > 0,
        spec_row_fits(tesserae@, start_position, (width as int, height as int), gap, row as int),
        y == start_position.y + row * spec_stride(height as int, gap as int),
    ensures
        final(shapes)@ == old(shapes)@ + spec_row_shapes(
            tesserae@,
            start_position,
            (width as int, height as int),
            gap,
            row as int,
        ),
{
    let ghost size = (width as int, height as int);
    let ghost cells = spec_row_shapes(tesserae@, start_position, size, gap, row as int);
    let ghost stride = spec_stride(width as int, gap as int);
    let length = tesserae.len();
    let mut column: usize = 0;
    let mut x: usize = start_position.x;
    assert(shapes@ =~= old(shapes)@ + cells.subrange(0, 0));
    while column < length
        invariant
            width <= u128::MAX - 0x1_ffff_ffff_ffff_fffe,
            spec_row_fits(tesserae@, start_position, size, gap, row as int),
            size == (width as int, height as int),
            stride == spec_stride(width as int, gap as int),
            cells == spec_row_shapes(tesserae@, start_position, size, gap, row as int),
            y == start_position.y + row * spec_stride(height as int, gap as int),
            length == tesserae@.len(),
            column <= length,
            column < length ==> x == start_position.x + column * stride,
            shapes@ == old(shapes)@ + cells.subrange(0, column as int),
        decreases length - column,
    {
        proof {
            lemma_far_edge_grows(
                start_position.x as int,
                column as int,
                length - 1,
                width as int,
                gap as int,
            );
            lemma_far_edge_grows(start_position.y as int, 0, row as int, height as int, gap as int);
        }
        let fill = to_display(tesserae[column].color);
        shapes.push(rectangle(x, y, width as usize, height as usize, fill, fill));
        if column + 1 < length {
            proof {
                lemma_far_edge_grows(
                    start_position.x as int,
                    column + 1,
                    length - 1,
                    width as int,
                    gap as int,
                );
                assert((column + 1) * stride == column * stride + stride) by (nonlinear_arith);
            }
            x = (x as u128 + (width + gap as u128)) as usize;
        }
        column += 1;
        assert(shapes@ =~= old(shapes)@ + cells.subrange(0, column as int));
    }
    assert(cells.subrange(0, length as int) =~= cells);
}

/// The filled rectangles of the tesserae of a mosaic. On the screen a tessera
/// has its size in millimetres multiplied by the zoom factor. The first one
/// begins at the start position, and each following one a stride further on,
/// which is that size and the gap: the same stride by which
/// `get_tessera_position` finds the tessera of a place. The rectangles come
/// row after row from the top, each row from the left, and have the display
/// colour of their tessera as fill and as outline.
pub fn generate_shapes_to_paint_mosaic(
    mosaic: &Mosaic,
    start_position: ScreenPosition,
    zoom_factor: usize,
    gap_between_tesserae: usize,
) -> (shapes: Vec<Shape>)
    requires
        spec_layout_fits(
            mosaic@.contents,
            start_position,
            spec_zoomed_size(mosaic@.general_tessera_size, zoom_factor),
            gap_between_tesserae,
        ),
    ensures
        shapes@ == spec_mosaic_shapes(
            mosaic@.contents,
            start_position,
            spec_zoomed_size(mosaic@.general_tessera_size, zoom_factor),
            gap_between_tesserae,
        ),
{
    let width = wide_product(mosaic.get_general_tessera_size().horizontal, zoom_factor);
    let height = wide_product(mosaic.get_general_tessera_size().vertical, zoom_factor);
    let contents = mosaic.get_contents();
    let ghost size = spec_zoomed_size(mosaic@.general_tessera_size, zoom_factor);
    let ghost stride = spec_stride(height as int, gap_between_tesserae as int);
    let ghost all = spec_rows_shapes(mosaic@.contents, start_position, size, gap_between_tesserae);
    let rows = contents.len();
    let mut shapes: Vec<Shape> = Vec::new();
    let mut row: usize = 0;
    let mut top: Option<usize> = Some(start_position.y);
    assert(all.subrange(0, 0) =~= Seq::<Seq<Shape>>::empty());
    while row < rows
        invariant
            spec_rows(*contents) == mosaic@.contents,
            rows == contents@.len(),
            size == (width as int, height as int),
            stride == spec_stride(height as int, gap_between_tesserae as int),
            width <= u128::MAX - 0x1_ffff_ffff_ffff_fffe,
            height <= u128::MAX - 0x1_ffff_ffff_ffff_fffe,
            spec_layout_fits(mosaic@.contents, start_position, size, gap_between_tesserae),
            all == spec_rows_shapes(mosaic@.contents, start_position, size, gap_between_tesserae),
            row <= rows,
            match top {
                Some(y) => y == start_position.y + row * stride,
                None => start_position.y + row * stride > usize::MAX,
            },
            shapes@ == all.subrange(0, row as int).flatten(),
        decreases rows - row,
    {
        let ghost cells = all[row as int];
        assert(mosaic@.contents[row as int] == contents[row as int]@);
        proof {
            lemma_far_edge_grows(
                start_position.y as int,
                row as int,
                row as int,
                height as int,
                gap_between_tesserae as int,
            );
            all.subrange(0, row as int).lemma_flatten_push(cells);
            assert(all.subrange(0, row as int).push(cells) =~= all.subrange(0, row + 1));
            assert((row + 1) * stride == row * stride + stride) by (nonlinear_arith);
        }
        match top {
            Some(y) => {
                if contents[row].len() > 0 {
                    push_row_shapes(
                        &mut shapes,
                        &contents[row],
                        start_position,
                        width,
                        height,
                        gap_between_tesserae,
                        row,
                        y,
                    );
                } else {
                    assert(cells =~= Seq::<Shape>::empty());
                }
                top = narrow(y as u128 + (height + gap_between_tesserae as u128));
            },
            None => {
                assert(cells =~= Seq::<Shape>::empty());
            },
        }
        row += 1;
    }
    assert(all.subrange(0, rows as int) =~= all);
    shapes
}

/// The sizes of things on the screen, in pixels: those in the fields,
/// multiplied by the zoom factor.
#[derive(Clone, Copy, Debug, PartialEq, Eq, Structural)]
pub struct DisplayLayout {
    pub mosaic_width: usize,
    pub mosaic_height: usize,
    pub tessera_width: usize,
    pub tessera_height: usize,
    pub gap_between_tesserae: usize,
}

/// Something that the user did.
pub enum UiEvent {
    /// A file was chosen and read: here is its image, or none where it could
    /// not be opened or decoded.
    ImageDecoded(Option<SourceImage>),
    /// The mosaic is to get the proportions of the image.
    AdjustMosaicToImage,
    /// A new mosaic is to be made from the image.
    GenerateFromImage,
    /// A new, blank mosaic is to be made.
    GenerateBlank,
    /// The second button of the mouse was clicked at a place of the screen,
    /// on a mosaic that begins at the start position.
    SecondaryClick { clicked_position: ScreenPosition, start_position: ScreenPosition },
}

/// Why nothing came of what the user did.
#[derive(Clone, Copy, Debug, PartialEq, Eq, Structural)]
pub enum UiError {
    /// A tessera has no width or no height.
    TesseraWithoutSize,
    /// The image has no width or no height, or the adjusted dimensions are
    /// more than a `usize` holds.
    NotAdjustable,
    /// Something is larger than a `usize` holds.
    TooLarge,
    /// The click fell on no tessera.
    OutOfBounds(OutOfBounds),
}

impl MosaicneitorApp {
    /// The sizes on the screen, where a `usize` holds them all.
    pub open spec fn spec_display_layout(&self) -> Option<DisplayLayout> {
        let zoom = spec_zoom_factor(self.zoom_level);
        let dimensions = self.spec_mosaic_dimensions();
        let size = self.spec_tessera_size();
        if dimensions.horizontal * zoom <= usize::MAX && dimensions.vertical * zoom <= usize::MAX
            && size.horizontal * zoom <= usize::MAX && size.vertical * zoom <= usize::MAX {
            Some(
                DisplayLayout {
                    mosaic_width: (dimensions.horizontal * zoom) as usize,
                    mosaic_height: (dimensions.vertical * zoom) as usize,
                    tessera_width: (size.horizontal * zoom) as usize,
                    tessera_height: (size.vertical * zoom) as usize,
                    gap_between_tesserae: (DEFAULT_GAP_BETWEEN_TESSSELAE * zoom) as usize,
                },
            )
        } else {
            None
        }
    }

    /// The position on the grid of the tessera that a click belongs to.
    pub open spec fn spec_clicked_position(
        &self,
        clicked_position: ScreenPosition,
        start_position: ScreenPosition,
    ) -> PositionOnGrid
        recommends
            self.spec_display_layout() is Some,
    {
        let layout = self.spec_display_layout()->0;
        let position = spec_tessera_position(
            clicked_position,
            start_position,
            (layout.tessera_width as int, layout.tessera_height as int),
            layout.gap_between_tesserae,
        );
        PositionOnGrid { row: position.0 as usize, column: position.1 as usize }
    }

    /// Whether `after` is this session once a click was dealt with: the
    /// tessera under the click has the colour of an edit, or, where the click
    /// fell on none, the outcome tells so and the mosaic is as before. All
    /// but the mosaic is as before.
    pub open spec fn spec_after_click(
        &self,
        clicked_position: ScreenPosition,
        start_position: ScreenPosition,
        outcome: Result<(), OutOfBounds>,
        after: MosaicneitorApp,
    ) -> bool {
        let position = self.spec_clicked_position(clicked_position, start_position);
        let tessera = Tessera { color: spec_to_perceptual(spec_edit_color()) };
        &&& outcome is Ok <==> spec_on_grid(self.mosaic@.contents, position)
        &&& outcome is Ok ==> after.mosaic@.contents == spec_replaced(
            self.mosaic@.contents,
            position,
            tessera,
        )
        &&& outcome matches Err(e) ==> e == spec_out_of_bounds(self.mosaic@.contents, position)
            && after.mosaic@.contents == self.mosaic@.contents
        &&& after.mosaic@.base_image == self.mosaic@.base_image
        &&& after.mosaic@.general_tessera_size == self.mosaic@.general_tessera_size
        &&& after == (MosaicneitorApp { mosaic: after.mosaic, ..*self })
    }

    /// The place on the screen where the mosaic ends.
    pub open spec fn spec_end_position(&self, start_position: ScreenPosition) -> (int, int)
        recommends
            self.spec_display_layout() is Some,
    {
        let layout = self.spec_display_layout()->0;
        (start_position.x + layout.mosaic_width, start_position.y + layout.mosaic_height)
    }

    /// Whether a frame can be laid out from the start position: a `usize`
    /// holds the sizes on the screen, the place where the mosaic ends, and
    /// every corner of every shape that is to be shown.
    pub open spec fn spec_frame_fits(&self, start_position: ScreenPosition) -> bool {
        match self.spec_display_layout() {
            None => false,
            Some(layout) => {
                let end = self.spec_end_position(start_position);
                &&& end.0 <= usize::MAX
                &&& end.1 <= usize::MAX
                &&& self.show_tesserae_grid ==> spec_grid_fits(
                    start_position,
                    ScreenPosition { x: end.0 as usize, y: end.1 as usize },
                    (layout.tessera_width as int, layout.tessera_height as int),
                    layout.gap_between_tesserae,
                )
                &&& self.show_actual_tesserae ==> spec_layout_fits(
                    self.mosaic@.contents,
                    start_position,
                    spec_zoomed_size(
                        self.mosaic@.general_tessera_size,
                        spec_zoom_factor(self.zoom_level),
                    ),
                    layout.gap_between_tesserae,
                )
            },
        }
    }

    /// The shapes of a frame: the image, where it is to be shown and there is
    /// one, stretched over the area of the mosaic; upon it the outlines of
    /// the grid, where they are to be shown; and upon them the tesserae of
    /// the mosaic, where they are to be shown.
    pub open spec fn spec_frame_shapes(&self, start_position: ScreenPosition) -> Seq<Shape>
        recommends
            self.spec_frame_fits(start_position),
    {
        let layout = self.spec_display_layout()->0;
        let reach = self.spec_end_position(start_position);
        let end_position = ScreenPosition { x: reach.0 as usize, y: reach.1 as usize };
        let image_shapes = if self.show_image && self.image is Some {
            seq![Shape::Image(ScreenRectangle { min: start_position, max: end_position })]
        } else {
            Seq::<Shape>::empty()
        };
        let grid_shapes = if self.show_tesserae_grid {
            spec_tesserae_grid(
                start_position,
                end_position,
                (layout.tessera_width as int, layout.tessera_height as int),
                layout.gap_between_tesserae,
            )
        } else {
            Seq::<Shape>::empty()
        };
        let tesserae_shapes = if self.show_actual_tesserae {
            spec_mosaic_shapes(
                self.mosaic@.contents,
                start_position,
                spec_zoomed_size(
                    self.mosaic@.general_tessera_size,
                    spec_zoom_factor(self.zoom_level),
                ),
                layout.gap_between_tesserae,
            )
        } else {
            Seq::<Shape>::empty()
        };
        image_shapes + grid_shapes + tesserae_shapes
    }

    /// Whether `after` and the outcome are what an event makes of this
    /// session. An event that cannot be followed leaves the session as it
    /// is, and the outcome tells why.
    pub open spec fn spec_after_event(
        &self,
        event: UiEvent,
        outcome: Result<(), UiError>,
        after: MosaicneitorApp,
    ) -> bool {
        match event {
            UiEvent::ImageDecoded(decoded) => if decoded is Some
                && !self.spec_tesserae_have_a_size() {
                outcome == Err::<(), UiError>(UiError::TesseraWithoutSize) && after == *self
            } else {
                outcome is Ok && self.spec_after_decoding(decoded, after)
            },
            UiEvent::AdjustMosaicToImage => {
                &&& self.spec_after_adjusting(after)
                &&& outcome == if spec_adjusted_dimensions(
                    self.spec_mosaic_dimensions(),
                    self.spec_image_dimensions(),
                ) is Some {
                    Ok::<(), UiError>(())
                } else {
                    Err::<(), UiError>(UiError::NotAdjustable)
                }
            },
            UiEvent::GenerateFromImage => if !self.spec_tesserae_have_a_size() {
                outcome == Err::<(), UiError>(UiError::TesseraWithoutSize) && after == *self
            } else if !self.spec_can_sample() {
                outcome == Err::<(), UiError>(UiError::TooLarge) && after == *self
            } else {
                outcome is Ok && self.spec_after_generating(
                    self.spec_sampling_source(),
                    spec_view(self.loaded_image),
                    after,
                )
            },
            UiEvent::GenerateBlank => if !self.spec_tesserae_have_a_size() {
                outcome == Err::<(), UiError>(UiError::TesseraWithoutSize) && after == *self
            } else {
                outcome is Ok && self.spec_after_generating(
                    ColorSourceView::Uniform(spec_blank_color()),
                    None,
                    after,
                )
            },
            UiEvent::SecondaryClick { clicked_position, start_position } => if self.spec_display_layout() is None {
                outcome == Err::<(), UiError>(UiError::TooLarge) && after == *self
            } else {
                match outcome {
                    Ok(_) => self.spec_after_click(clicked_position, start_position, Ok(()), after),
                    Err(UiError::OutOfBounds(e)) => self.spec_after_click(
                        clicked_position,
                        start_position,
                        Err(e),
                        after,
                    ),
                    Err(_) => false,
                }
            },
        }
    }

    /// The sizes of the mosaic, of a tessera and of the gap on the screen:
    /// those in the fields, multiplied by the zoom factor. Returns `None`
    /// where one of them is more than a `usize` holds.
    pub fn display_layout(&self) -> (layout: Option<DisplayLayout>)
        ensures
            layout == self.spec_display_layout(),
    {
        let zoom = self.get_zoom_factor();
        let dimensions = self.get_mosaic_dimensions();
        let size = self.get_tessera_size();
        let mosaic_width = narrow(wide_product(dimensions[0], zoom));
        let mosaic_height = narrow(wide_product(dimensions[1], zoom));
        let tessera_width = narrow(wide_product(size[0], zoom));
        let tessera_height = narrow(wide_product(size[1], zoom));
        match (mosaic_width, mosaic_height, tessera_width, tessera_height) {
            (Some(mosaic_width), Some(mosaic_height), Some(tessera_width), Some(tessera_height)) => {
                Some(
                    DisplayLayout {
                        mosaic_width,
                        mosaic_height,
                        tessera_width,
                        tessera_height,
                        gap_between_tesserae: DEFAULT_GAP_BETWEEN_TESSSELAE * zoom,
                    },
                )
            },
            _ => None,
        }
    }

    /// Gives the tessera under a click the colour of an edit. The tessera is
    /// found with the sizes in the fields at the present zoom factor. Where
    /// the click fell on no tessera, the mosaic stays as it is and the error
    /// tells which bound was passed.
    pub fn change_clicked_tessera(
        &mut self,
        clicked_position: ScreenPosition,
        start_position: ScreenPosition,
    ) -> (changed: Result<(), OutOfBounds>)
        requires
            old(self).spec_display_layout() is Some,
        ensures
            old(self).spec_after_click(clicked_position, start_position, changed, *final(self)),
    {
        let layout = self.display_layout().unwrap();
        let position = get_tessera_position(
            clicked_position,
            start_position,
            [layout.tessera_width, layout.tessera_height],
            layout.gap_between_tesserae,
        );
        let tessera = Tessera { color: to_perceptual(DisplayColor::edit()) };
        self.mosaic.change_tessera(&position, tessera)
    }

    /// The shapes to paint for a frame whose mosaic begins at the start
    /// position: the image, the outlines of the grid and the tesserae, each
    /// where it is to be shown, in this order. Returns `None` where a corner
    /// of a shape would lie beyond what a `usize` holds. Nothing is changed.
    pub fn shapes_to_paint(&self, start_position: ScreenPosition) -> (shapes: Option<Vec<Shape>>)
        ensures
            shapes is Some <==> self.spec_frame_fits(start_position),
            shapes matches Some(s) ==> s@ == self.spec_frame_shapes(start_position),
    {
        let layout = match self.display_layout() {
            Some(layout) => layout,
            None => {
                return None;
            },
        };
        if layout.mosaic_width > usize::MAX - start_position.x || layout.mosaic_height > usize::MAX
            - start_position.y {
            return None;
        }
        let end_position = ScreenPosition {
            x: start_position.x + layout.mosaic_width,
            y: start_position.y + layout.mosaic_height,
        };
        let mut shapes: Vec<Shape> = Vec::new();
        if self.show_image && self.image.is_some() {
            shapes.push(Shape::Image(ScreenRectangle { min: start_position, max: end_position }));
        }
        let ghost image_shapes = shapes@;
        if self.show_tesserae_grid {
            if !tesserae_grid_fits(
                start_position,
                end_position,
                [layout.tessera_width, layout.tessera_height],
                layout.gap_between_tesserae,
            ) {
                return None;
            }
            let mut grid = generate_shapes_to_paint_tesserae_grid(
                start_position,
                end_position,
                [layout.tessera_width, layout.tessera_height],
                layout.gap_between_tesserae,
            );
            shapes.append(&mut grid);
        }
        let ghost with_grid = shapes@;
        if self.show_actual_tesserae {
            if !mosaic_layout_fits(
                &self.mosaic,
                start_position,
                self.get_zoom_factor(),
                layout.gap_between_tesserae,
            ) {
                return None;
            }
            let mut tesserae = generate_shapes_to_paint_mosaic(
                &self.mosaic,
                start_position,
                self.get_zoom_factor(),
                layout.gap_between_tesserae,
            );
            shapes.append(&mut tesserae);
        }
        assert(shapes@ =~= self.spec_frame_shapes(start_position));
        Some(shapes)
    }

    /// Follows an event: does to the session what the event asks for, where
    /// that can be done, and otherwise leaves the session as it is and tells
    /// why.
    pub fn handle(&mut self, event: UiEvent) -> (outcome: Result<(), UiError>)
        ensures
            old(self).spec_after_event(event, outcome, *final(self)),
    {
        match event {
            UiEvent::ImageDecoded(decoded) => {
                let size = self.get_tessera_size();
                if decoded.is_some() && (size[0] == 0 || size[1] == 0) {
                    return Err(UiError::TesseraWithoutSize);
                }
                self.accept_decoded_image(decoded);
                Ok(())
            },
            UiEvent::AdjustMosaicToImage => {
                if self.adjust_mosaic_dimensions_to_image_aspect_ratio() {
                    Ok(())
                } else {
                    Err(UiError::NotAdjustable)
                }
            },
            UiEvent::GenerateFromImage => {
                let size = self.get_tessera_size();
                let dimensions = self.get_mosaic_dimensions();
                if size[0] == 0 || size[1] == 0 {
                    return Err(UiError::TesseraWithoutSize);
                }
                let fits = centres_fit(
                    &ColorSource::Sampled(self.image.as_ref()),
                    RectangleInMm { horizontal: dimensions[0], vertical: dimensions[1] },
                    RectangleInMm { horizontal: size[0], vertical: size[1] },
                    DEFAULT_GAP_BETWEEN_TESSSELAE,
                );
                if !fits {
                    return Err(UiError::TooLarge);
                }
                self.generate_mosaic_from_image();
                Ok(())
            },
            UiEvent::GenerateBlank => {
                let size = self.get_tessera_size();
                if size[0] == 0 || size[1] == 0 {
                    return Err(UiError::TesseraWithoutSize);
                }
                self.generate_blank_mosaic();
                Ok(())
            },
            UiEvent::SecondaryClick { clicked_position, start_position } => {
                if self.display_layout().is_none() {
                    return Err(UiError::TooLarge);
                }
                match self.change_clicked_tessera(clicked_position, start_position) {
                    Ok(()) => Ok(()),
                    Err(e) => Err(UiError::OutOfBounds(e)),
                }
            },
        }
    }
}

} // verus!
