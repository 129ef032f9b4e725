//! The decoded photograph from which colours are sampled.

use crate::color::DisplayColor;
use vstd::prelude::*;
use vstd::string::StringExecFns;

verus! {

/// Why a colour could not be sampled.
#[derive(Clone, Copy, Debug, PartialEq, Eq, Structural)]
pub enum SamplingError {
    /// No image is loaded.
    NoImage,
    /// The pixel lies at or beyond the end of the image's pixels.
    PixelOutOfRange,
}

impl SamplingError {
    /// The words for the error.
    pub open spec fn spec_message(&self) -> Seq<char> {
        match *self {
            SamplingError::NoImage => seq!['n', 'o', ' ', 'i', 'm', 'a', 'g', 'e'],
            SamplingError::PixelOutOfRange => seq!['n', 'o', ' ', 'p', 'i', 'x', 'e', 'l'],
        }
    }

    /// The words for the error.
    pub fn message(&self) -> (text: String)
        ensures
            text@ == self.spec_message(),
    {
        proof {
            reveal_strlit("no image");
            reveal_strlit("no pixel");
        }
        let text = match self {
            SamplingError::NoImage => String::from_str("no image"),
            SamplingError::PixelOutOfRange => String::from_str("no pixel"),
        };
        assert(text@ =~= self.spec_message());
        text
    }
}

/// A decoded raster image: its width and height in pixels, and its pixels row
/// by row, each row from left to right.
#[derive(Debug)]
pub struct SourceImage {
    pub size: [usize; 2],
    pub pixels: Vec<DisplayColor>,
}

/// What an image holds: its width, its height, and its pixels in order.
pub struct SourceImageView {
    pub width: usize,
    pub height: usize,
    pub pixels: Seq<DisplayColor>,
}

impl View for SourceImage {
    type V = SourceImageView;

    open spec fn view(&self) -> SourceImageView {
        SourceImageView { width: self.size[0], height: self.size[1], pixels: self.pixels@ }
    }
}

/// What an image holds, if there is one.
pub open spec fn spec_view(image: Option<SourceImage>) -> Option<SourceImageView> {
    match image {
        Some(img) => Some(img@),
        None => None,
    }
}

/// The place of the pixel `(x, y)` among the pixels of an image `width` wide.
pub open spec fn spec_pixel_index(width: int, x: int, y: int) -> int {
    y * width + x
}

/// The colour that an image has at a pixel position, or why it has none.
pub open spec fn spec_sample(image: Option<SourceImageView>, x: int, y: int) -> Result<
    DisplayColor,
    SamplingError,
> {
    match image {
        None => Err(SamplingError::NoImage),
        Some(img) => {
            let index = spec_pixel_index(img.width as int, x, y);
            if 0 <= index < img.pixels.len() {
                Ok(img.pixels[index])
            } else {
                Err(SamplingError::PixelOutOfRange)
            }
        },
    }
}

impl SourceImage {
    /// An image of the given size over the given pixels.
    pub fn new(size: [usize; 2], pixels: Vec<DisplayColor>) -> (image: SourceImage)
        ensures
            image.size == size,
            image.pixels == pixels,
            image@.pixels == pixels@,
    {
        SourceImage { size, pixels }
    }

    /// A second image with the same size and the same pixels.
    pub fn duplicate(&self) -> (copy: SourceImage)
        ensures
            copy@ == self@,
    {
        let mut pixels: Vec<DisplayColor> = Vec::new();
        let mut i: usize = 0;
        while i < self.pixels.len()
            invariant
                i <= self.pixels.len(),
                pixels@ == self.pixels@.subrange(0, i as int),
            decreases self.pixels.len() - i,
        {
            pixels.push(self.pixels[i]);
            i += 1;
        }
        assert(pixels@ =~= self.pixels@);
        SourceImage { size: self.size, pixels }
    }

    /// The colour of the pixel at column `pixel_position[0]` and row
    /// `pixel_position[1]`. The pixels are counted row by row, so a column at
    /// or beyond the width runs on into the following rows; only a place at or
    /// beyond the end of the pixels has no colour.
    pub fn pixel_color(&self, pixel_position: [usize; 2]) -> (color: Result<
        DisplayColor,
        SamplingError,
    >)
        ensures
            color == spec_sample(
                Some(self@),
                pixel_position[0] as int,
                pixel_position[1] as int,
            ),
    {
        let rows_before = crate::utils::wide_product(pixel_position[1], self.size[0]);
        let index: u128 = rows_before + pixel_position[0] as u128;
        if index < self.pixels.len() as u128 {
            Ok(self.pixels[index as usize])
        } else {
            Err(SamplingError::PixelOutOfRange)
        }
    }
}

/// The colour of a pixel of the image, if there is an image and it has the
/// pixel.
pub fn sample(image: Option<&SourceImage>, pixel_position: [usize; 2]) -> (color: Result<
    DisplayColor,
    SamplingError,
>)
    ensures
        color == spec_sample(
            match image {
                Some(img) => Some(img@),
                None => None,
            },
            pixel_position[0] as int,
            pixel_position[1] as int,
        ),
{
    match image {
        Some(img) => img.pixel_color(pixel_position),
        None => Err(SamplingError::NoImage),
    }
}

} // verus!
