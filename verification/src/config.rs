//! The values that the application starts with.

use crate::color::{spec_grid_color, DisplayColor};
use vstd::prelude::*;

verus! {

/// The language of the labels.
pub const WORKING_LOCALE: &'static str = "en";

/// The width of a new mosaic, in millimetres.
pub const DEFAULT_OVERAL_MOSAIC_DIMENSIONS_HORIZONTAL_MM: usize = 500;

/// The height of a new mosaic, in millimetres.
pub const DEFAULT_OVERAL_MOSAIC_DIMENSIONS_VERTICAL_MM: usize = 300;

/// The width of a tessera, in millimetres.
pub const DEFAULT_BASE_TESSERA_SIZE_HORIZONTAL_MM: usize = 10;

/// The height of a tessera, in millimetres.
pub const DEFAULT_BASE_TESSERA_SIZE_VERTICAL_MM: usize = 10;

/// The gap between two tesserae, in millimetres.
pub const DEFAULT_GAP_BETWEEN_TESSSELAE: usize = 1;

/// The width and the height of the window, in points.
pub fn default_viewport_dimensions() -> (dimensions: [usize; 2])
    ensures
        dimensions[0] == 1024,
        dimensions[1] == 800,
{
    [1024, 800]
}

/// The colour of the lines of the grid.
pub fn color_for_grid() -> (color: DisplayColor)
    ensures
        color == spec_grid_color(),
{
    DisplayColor::grid()
}

} // verus!
