use mosaicneitor::color::{to_perceptual, DisplayColor};
use mosaicneitor::grid::{build_mosaic, centres_fit, ColorSource};
use mosaicneitor::mosaic::{Mosaic, RectangleInMm};
use mosaicneitor::source_image::SourceImage;

fn size(horizontal: usize, vertical: usize) -> RectangleInMm {
    RectangleInMm { horizontal, vertical }
}

fn colour_bits(color: &palette::Oklch) -> (u32, u32, u32) {
    (color.l.to_bits(), color.chroma.to_bits(), color.hue.into_raw_degrees().to_bits())
}

fn expect_colours(mosaic: &Mosaic, expected: &[Vec<DisplayColor>]) {
    let contents = mosaic.get_contents();
    assert_eq!(contents.len(), expected.len());
    for (row, expected_row) in contents.iter().zip(expected) {
        assert_eq!(row.len(), expected_row.len());
        for (tessera, color) in row.iter().zip(expected_row) {
            assert_eq!(colour_bits(&tessera.color), colour_bits(&to_perceptual(*color)));
        }
    }
}

fn quarters() -> SourceImage {
    let red = DisplayColor::from_rgb(200, 0, 0);
    let green = DisplayColor::from_rgb(0, 200, 0);
    let blue = DisplayColor::from_rgb(0, 0, 200);
    let grey = DisplayColor::from_rgb(90, 90, 90);
    SourceImage::new([2, 2], vec![red, green, blue, grey])
}

#[test]
fn grid_over_the_default_area_has_28_rows_of_46_tesserae() {
    let mosaic = build_mosaic(
        None,
        &ColorSource::Uniform(DisplayColor::blank()),
        size(500, 300),
        size(10, 10),
        1,
    );
    assert_eq!(mosaic.get_number_of_rows(), 300 / 11 + 1);
    assert_eq!(mosaic.get_number_of_rows(), 28);
    for row in 0..28 {
        assert_eq!(mosaic.get_number_of_tesserae_in_row(row), 500 / 11 + 1);
        assert_eq!(mosaic.get_number_of_tesserae_in_row(row), 46);
    }
    assert_eq!(mosaic.get_number_of_tesserae_in_row(28), 0);
}

#[test]
fn grid_begins_at_one_and_ends_before_the_size() {
    let cases = [
        (0usize, 0usize),
        (1, 0),
        (2, 1),
        (11, 1),
        (12, 1),
        (13, 2),
        (22, 2),
        (23, 2),
        (24, 3),
        (300, 28),
        (500, 46),
    ];
    for (extent, count) in cases {
        let tall = build_mosaic(
            None,
            &ColorSource::Uniform(DisplayColor::blank()),
            size(2, extent),
            size(10, 10),
            1,
        );
        assert_eq!(tall.get_number_of_rows(), count, "height {}", extent);
        let wide = build_mosaic(
            None,
            &ColorSource::Uniform(DisplayColor::blank()),
            size(extent, 2),
            size(10, 10),
            1,
        );
        assert_eq!(wide.get_number_of_rows(), 1);
        assert_eq!(wide.get_number_of_tesserae_in_row(0), count, "width {}", extent);
    }
}

#[test]
fn grid_counts_the_places_that_a_stepped_range_visits() {
    for extent in 0..60usize {
        for tessera in 1..7usize {
            for gap in 0..4usize {
                let mosaic = build_mosaic(
                    None,
                    &ColorSource::Uniform(DisplayColor::blank()),
                    size(extent, extent),
                    size(tessera, tessera + 1),
                    gap,
                );
                let columns = (1..extent).step_by(tessera + gap).count();
                let rows = (1..extent).step_by(tessera + 1 + gap).count();
                assert_eq!(mosaic.get_number_of_rows(), rows);
                for row in 0..rows {
                    assert_eq!(mosaic.get_number_of_tesserae_in_row(row), columns);
                }
            }
        }
    }
}

#[test]
fn uniform_grid_has_one_colour_and_no_image() {
    let colour = DisplayColor::from_rgb(10, 20, 30);
    let mosaic = build_mosaic(None, &ColorSource::Uniform(colour), size(30, 20), size(10, 10), 1);
    expect_colours(&mosaic, &[vec![colour; 3], vec![colour; 3]]);
    assert!(mosaic.get_base_image().is_none());
    assert_eq!(*mosaic.get_general_tessera_size(), size(10, 10));
}

#[test]
fn sampled_grid_takes_the_pixel_under_the_centre_of_each_tessera() {
    let image = quarters();
    let mosaic = build_mosaic(
        Some(quarters()),
        &ColorSource::Sampled(Some(&image)),
        size(20, 20),
        size(8, 8),
        2,
    );
    let red = DisplayColor::from_rgb(200, 0, 0);
    let green = DisplayColor::from_rgb(0, 200, 0);
    let blue = DisplayColor::from_rgb(0, 0, 200);
    let grey = DisplayColor::from_rgb(90, 90, 90);
    expect_colours(&mosaic, &[vec![red, green], vec![blue, grey]]);
    let kept = mosaic.get_base_image().as_ref().unwrap();
    assert_eq!(kept.size, [2, 2]);
    assert_eq!(kept.pixels, image.pixels);
}

#[test]
fn sampled_grid_uses_the_height_of_the_tessera_for_the_row() {
    let top = DisplayColor::from_rgb(1, 1, 1);
    let bottom = DisplayColor::from_rgb(2, 2, 2);
    let image = SourceImage::new([1, 2], vec![top, bottom]);
    let mosaic = build_mosaic(
        None,
        &ColorSource::Sampled(Some(&image)),
        size(10, 12),
        size(2, 10),
        100,
    );
    expect_colours(&mosaic, &[vec![bottom]]);
    let flat = build_mosaic(
        None,
        &ColorSource::Sampled(Some(&image)),
        size(10, 12),
        size(10, 2),
        100,
    );
    expect_colours(&flat, &[vec![top]]);
}

#[test]
fn sampled_grid_is_yellow_where_the_image_has_no_pixel() {
    let image = quarters();
    let mosaic = build_mosaic(
        None,
        &ColorSource::Sampled(Some(&image)),
        size(12, 12),
        size(10, 10),
        0,
    );
    let grey = DisplayColor::from_rgb(90, 90, 90);
    let yellow = DisplayColor::fallback();
    expect_colours(&mosaic, &[vec![grey, yellow], vec![yellow, yellow]]);
}

#[test]
fn sampled_grid_runs_on_into_the_next_row_of_pixels() {
    let image = quarters();
    let mosaic = build_mosaic(
        None,
        &ColorSource::Sampled(Some(&image)),
        size(12, 12),
        size(10, 2),
        0,
    );
    let green = DisplayColor::from_rgb(0, 200, 0);
    let blue = DisplayColor::from_rgb(0, 0, 200);
    let grey = DisplayColor::from_rgb(90, 90, 90);
    let yellow = DisplayColor::fallback();
    expect_colours(
        &mosaic,
        &[
            vec![green, blue],
            vec![green, blue],
            vec![grey, yellow],
            vec![grey, yellow],
            vec![grey, yellow],
            vec![yellow, yellow],
        ],
    );
}

#[test]
fn sampled_grid_is_yellow_without_an_image() {
    let mosaic = build_mosaic(None, &ColorSource::Sampled(None), size(25, 13), size(10, 10), 1);
    let yellow = DisplayColor::fallback();
    expect_colours(&mosaic, &[vec![yellow; 3], vec![yellow; 3]]);
}

#[test]
fn grid_over_no_area_is_empty() {
    let image = quarters();
    for source in [ColorSource::Uniform(DisplayColor::blank()), ColorSource::Sampled(Some(&image))] {
        let nothing = build_mosaic(None, &source, size(0, 0), size(10, 10), 1);
        assert_eq!(nothing.get_number_of_rows(), 0);
        let line = build_mosaic(None, &source, size(0, 30), size(10, 10), 1);
        assert_eq!(line.get_number_of_rows(), 3);
        assert_eq!(line.get_number_of_tesserae_in_row(0), 0);
    }
}

#[test]
fn grid_of_huge_tesserae_has_one_tessera() {
    let mosaic = build_mosaic(
        None,
        &ColorSource::Uniform(DisplayColor::blank()),
        size(1000, 1000),
        size(usize::MAX, usize::MAX),
        usize::MAX,
    );
    assert_eq!(mosaic.get_number_of_rows(), 1);
    assert_eq!(mosaic.get_number_of_tesserae_in_row(0), 1);
}

fn last_centre(extent: usize, tessera: usize, gap: usize) -> Option<u128> {
    if extent < 2 {
        return None;
    }
    let stride = tessera as u128 + gap as u128;
    let last_index = (extent as u128 - 2) / stride;
    Some(1 + last_index * stride + tessera as u128 / 2)
}

#[test]
fn centres_fit_while_the_last_centre_can_be_held() {
    let image = quarters();
    let sampled = ColorSource::Sampled(Some(&image));
    let top = usize::MAX;
    let cases = [
        (size(500, 300), size(10, 10), 1usize),
        (size(top, top), size(1, 1), 0),
        (size(top, top), size(2, 2), 0),
        (size(top, top), size(3, 3), 0),
        (size(top, top), size(6, 6), 0),
        (size(top, 300), size(10, 10), 0),
        (size(300, top), size(10, 12), 0),
        (size(top, 300), size(4, 10), 7),
        (size(300, top), size(10, 4), 7),
        (size(top - 5, 300), size(11, 10), 1),
        (size(top - 5, 300), size(12, 10), 1),
        (size(top, top), size(top, top), top),
        (size(top, 2), size(top - 1, 1), 3),
        (size(0, top), size(9, top), 0),
        (size(top, 1), size(top, 9), 0),
    ];
    let mut refused = 0;
    for (mosaic_size, tessera_size, gap) in cases {
        let horizontal = last_centre(mosaic_size.horizontal, tessera_size.horizontal, gap);
        let vertical = last_centre(mosaic_size.vertical, tessera_size.vertical, gap);
        let expected = match (horizontal, vertical) {
            (Some(x), Some(y)) => x <= top as u128 && y <= top as u128,
            _ => true,
        };
        if !expected {
            refused += 1;
        }
        assert_eq!(centres_fit(&sampled, mosaic_size, tessera_size, gap), expected);
    }
    assert!(refused >= 3);
}

#[test]
fn centres_always_fit_a_uniform_source() {
    let uniform = ColorSource::Uniform(DisplayColor::blank());
    let top = usize::MAX;
    assert!(centres_fit(&uniform, size(top, top), size(top, top), top));
    assert!(centres_fit(&uniform, size(top, top), size(3, 3), 0));
}

#[test]
fn sampled_grid_reaches_the_largest_number() {
    let image = quarters();
    let top = usize::MAX;
    let source = ColorSource::Sampled(Some(&image));
    assert!(centres_fit(&source, size(top, 3), size(top, 1), top));
    let mosaic = build_mosaic(None, &source, size(top, 3), size(top, 1), top);
    let green = DisplayColor::from_rgb(0, 200, 0);
    expect_colours(&mosaic, &[vec![green]]);
}
