use mosaicneitor::color::DisplayColor;
use mosaicneitor::source_image::{sample, SamplingError, SourceImage};

fn numbered(width: usize, height: usize) -> SourceImage {
    let mut pixels = Vec::new();
    for index in 0..width * height {
        pixels.push(DisplayColor::from_rgb(index as u8, (index / 256) as u8, 9));
    }
    SourceImage::new([width, height], pixels)
}

#[test]
fn new_keeps_size_and_pixels() {
    let image = numbered(4, 3);
    assert_eq!(image.size, [4, 3]);
    assert_eq!(image.pixels.len(), 12);
    assert_eq!(image.pixels[5], DisplayColor::from_rgb(5, 0, 9));
}

#[test]
fn duplicate_has_the_same_content() {
    let image = numbered(5, 2);
    let copy = image.duplicate();
    assert_eq!(copy.size, image.size);
    assert_eq!(copy.pixels, image.pixels);
}

#[test]
fn pixel_color_counts_row_by_row() {
    let image = numbered(4, 3);
    assert_eq!(image.pixel_color([0, 0]), Ok(DisplayColor::from_rgb(0, 0, 9)));
    assert_eq!(image.pixel_color([3, 0]), Ok(DisplayColor::from_rgb(3, 0, 9)));
    assert_eq!(image.pixel_color([0, 1]), Ok(DisplayColor::from_rgb(4, 0, 9)));
    assert_eq!(image.pixel_color([2, 2]), Ok(DisplayColor::from_rgb(10, 0, 9)));
    assert_eq!(image.pixel_color([3, 2]), Ok(DisplayColor::from_rgb(11, 0, 9)));
}

#[test]
fn pixel_color_runs_on_into_the_next_row() {
    let image = numbered(4, 3);
    assert_eq!(image.pixel_color([4, 0]), Ok(DisplayColor::from_rgb(4, 0, 9)));
    assert_eq!(image.pixel_color([7, 1]), Ok(DisplayColor::from_rgb(11, 0, 9)));
}

#[test]
fn pixel_color_fails_at_and_beyond_the_end_of_the_pixels() {
    let image = numbered(4, 3);
    assert_eq!(image.pixel_color([0, 3]), Err(SamplingError::PixelOutOfRange));
    assert_eq!(image.pixel_color([4, 2]), Err(SamplingError::PixelOutOfRange));
    assert_eq!(image.pixel_color([12, 0]), Err(SamplingError::PixelOutOfRange));
    assert_eq!(image.pixel_color([usize::MAX, usize::MAX]), Err(SamplingError::PixelOutOfRange));
    assert_eq!(image.pixel_color([0, usize::MAX]), Err(SamplingError::PixelOutOfRange));
}

#[test]
fn pixel_color_of_an_image_without_pixels() {
    let image = SourceImage::new([0, 0], Vec::new());
    assert_eq!(image.pixel_color([0, 0]), Err(SamplingError::PixelOutOfRange));
}

#[test]
fn sample_without_an_image_is_an_error() {
    assert_eq!(sample(None, [0, 0]), Err(SamplingError::NoImage));
    assert_eq!(sample(None, [234, 567]), Err(SamplingError::NoImage));
}

#[test]
fn sample_with_an_image_is_its_pixel() {
    let image = numbered(4, 3);
    assert_eq!(sample(Some(&image), [1, 1]), Ok(DisplayColor::from_rgb(5, 0, 9)));
    assert_eq!(sample(Some(&image), [1, 3]), Err(SamplingError::PixelOutOfRange));
}

#[test]
fn sampling_errors_have_their_words() {
    assert_eq!(SamplingError::NoImage.message(), "no image");
    assert_eq!(SamplingError::PixelOutOfRange.message(), "no pixel");
}
