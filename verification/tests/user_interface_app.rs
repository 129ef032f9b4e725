use mosaicneitor::color::{to_perceptual, DisplayColor};
use mosaicneitor::config;
use mosaicneitor::mosaic::RectangleInMm;
use mosaicneitor::source_image::{SamplingError, SourceImage};
use mosaicneitor::user_interface_app::{duplicate_image, parse_dimension, MosaicneitorApp, Zoom};

fn example_image() -> SourceImage {
    let example = egui::ColorImage::example();
    let pixels = example
        .pixels
        .iter()
        .map(|pixel| {
            let [red, green, blue, alpha] = pixel.to_srgba_unmultiplied();
            DisplayColor { red, green, blue, alpha }
        })
        .collect();
    SourceImage::new(example.size, pixels)
}

fn colour_bits(color: &palette::Oklch) -> (u32, u32, u32) {
    (color.l.to_bits(), color.chroma.to_bits(), color.hue.into_raw_degrees().to_bits())
}

#[test]
fn get_mosaic_dimensions_yields_correct_values_or_defaults() {
    let mut app = MosaicneitorApp::default();

    app.mosaic_dimension_h = String::from("500");
    app.mosaic_dimension_v = String::from("300");
    assert_eq!(app.get_mosaic_dimensions(), [500, 300]);

    app.mosaic_dimension_h = String::from("500.8");
    app.mosaic_dimension_v = String::from("300.8");
    assert_eq!(app.get_mosaic_dimensions(), [1, 1]);

    app.mosaic_dimension_h = String::from("werqwe");
    app.mosaic_dimension_v = String::from("asdf");
    assert_eq!(app.get_mosaic_dimensions(), [1, 1]);
}

#[test]
fn get_tessera_size_yields_correct_values_or_defaults() {
    let mut app = MosaicneitorApp::default();

    app.tessera_size_a = String::from("10");
    app.tessera_size_b = String::from("20");
    assert_eq!(app.get_tessera_size(), [10, 20]);

    app.tessera_size_a = String::from("10.8");
    app.tessera_size_b = String::from("20.8");
    assert_eq!(app.get_tessera_size(), [1, 1]);

    app.tessera_size_a = String::from("eqwer");
    app.tessera_size_b = String::from("asdf");
    assert_eq!(app.get_tessera_size(), [1, 1]);
}

#[test]
fn translation_from_mosaic_position_to_pixel_position_yieds_correct_positions() {
    let mut app = MosaicneitorApp::default();
    app.image = Some(example_image());

    let image_dimensions = app.get_image_dimensions();
    app.mosaic_dimension_h = image_dimensions[0].to_string();
    app.mosaic_dimension_v = image_dimensions[1].to_string();
    let point_on_mosaic = [5, 5];
    assert_eq!(app.get_pixel_position_on_image(point_on_mosaic), Some([5, 5]));

    app.mosaic_dimension_h = String::from("500");
    app.mosaic_dimension_v = String::from("300");
    let point_on_mosaic = [10, 10];
    assert_eq!(app.get_pixel_position_on_image(point_on_mosaic), Some([2, 2]));

    app.mosaic_dimension_h = String::from("400");
    app.mosaic_dimension_v = String::from("400");
    let point_on_mosaic = [10, 10];
    assert_eq!(app.get_pixel_position_on_image(point_on_mosaic), Some([3, 1]));
}

#[test]
fn get_pixel_color_yields_error_if_image_is_none() {
    let app = MosaicneitorApp::default();
    assert_eq!(app.get_pixel_color([234, 567]), Err(SamplingError::NoImage));
    assert_eq!(
        app.get_pixel_color([234, 567]).map_err(|error| error.message()),
        Err(String::from("no image"))
    );
}

#[test]
fn get_pixel_color_yields_error_if_you_ask_for_pixels_outside_image_boundaries() {
    let mut app = MosaicneitorApp::default();
    app.image = Some(example_image());
    let pixel_position = [
        egui::ColorImage::example().width() + 5,
        egui::ColorImage::example().height() + 5,
    ];
    assert_eq!(app.get_pixel_color(pixel_position), Err(SamplingError::PixelOutOfRange));
    assert_eq!(
        app.get_pixel_color(pixel_position).map_err(|error| error.message()),
        Err(String::from("no pixel"))
    );
}

#[test]
fn get_mosaic_from_base_image_yields_correct_mosaic_dimensions_for_happy_path_case() {
    let mut app = MosaicneitorApp::default();
    app.mosaic_dimension_h = String::from("500");
    app.mosaic_dimension_v = String::from("300");
    app.tessera_size_a = String::from("10");
    app.tessera_size_b = String::from("10");
    app.image = Some(example_image());
    let mosaic = app.get_mosaic_from_loaded_image();
    assert_eq!(
        mosaic.get_number_of_rows(),
        300 / (10 + config::DEFAULT_GAP_BETWEEN_TESSSELAE) + 1
    );
    assert_eq!(
        mosaic.get_number_of_tesserae_in_row(1),
        500 / (10 + config::DEFAULT_GAP_BETWEEN_TESSSELAE) + 1
    );
}

#[test]
fn a_session_begins_with_the_defaults() {
    let app = MosaicneitorApp::new();
    assert!(app.image.is_none());
    assert!(app.loaded_image.is_none());
    assert_eq!(app.mosaic_dimension_h, "500");
    assert_eq!(app.mosaic_dimension_v, "300");
    assert_eq!(app.tessera_size_a, "10");
    assert_eq!(app.tessera_size_b, "10");
    assert_eq!(app.zoom_level, Zoom::X1);
    assert!(!app.show_image);
    assert!(app.show_tesserae_grid);
    assert!(app.show_actual_tesserae);
    assert_eq!(app.selected_tessera, None);
    assert_eq!(app.mosaic.get_number_of_rows(), 0);
    assert_eq!(
        *app.mosaic.get_general_tessera_size(),
        RectangleInMm { horizontal: 10, vertical: 10 }
    );
    assert!(app.mosaic.get_base_image().is_none());
    assert_eq!(MosaicneitorApp::name(), "Mosaicneitor");
}

#[test]
fn dimension_text_without_a_number_counts_as_one() {
    for text in ["", " ", "abc", "500.8", "-3", "1e3", "12 ", "99999999999999999999999"] {
        assert_eq!(parse_dimension(text), 1, "{:?}", text);
    }
    assert_eq!(parse_dimension("0"), 0);
    assert_eq!(parse_dimension("1"), 1);
    assert_eq!(parse_dimension("+42"), 42);
    assert_eq!(parse_dimension("500"), 500);
}

#[test]
fn image_dimensions_are_those_of_the_image_or_one_by_one() {
    let mut app = MosaicneitorApp::default();
    assert_eq!(app.get_image_dimensions(), [1, 1]);
    app.image = Some(example_image());
    assert_eq!(app.get_image_dimensions(), egui::ColorImage::example().size);
    assert_eq!(app.get_image_dimensions(), [128, 64]);
}

#[test]
fn zoom_factor_is_the_number_of_the_level() {
    let mut app = MosaicneitorApp::default();
    for (level, factor) in
        [(Zoom::X1, 1usize), (Zoom::X2, 2), (Zoom::X3, 3), (Zoom::X4, 4), (Zoom::X5, 5)]
    {
        app.zoom_level = level;
        assert_eq!(app.get_zoom_factor(), factor);
    }
}

#[test]
fn get_pixel_color_reads_the_pixel_of_the_image() {
    let mut app = MosaicneitorApp::default();
    let image = example_image();
    let expected = image.pixels[3 * 128 + 7];
    app.image = Some(image);
    assert_eq!(app.get_pixel_color([7, 3]), Ok(expected));
}

#[test]
fn pixel_position_needs_a_mosaic_with_an_area() {
    let mut app = MosaicneitorApp::default();
    app.mosaic_dimension_h = String::from("0");
    assert_eq!(app.get_pixel_position_on_image([5, 5]), None);
    app.mosaic_dimension_h = String::from("10");
    app.mosaic_dimension_v = String::from("0");
    assert_eq!(app.get_pixel_position_on_image([5, 5]), None);
    app.mosaic_dimension_v = String::from("10");
    assert_eq!(app.get_pixel_position_on_image([5, 5]), Some([0, 0]));
}

#[test]
fn blank_mosaic_has_no_tesserae_and_the_last_decoded_image() {
    let mut app = MosaicneitorApp::default();
    app.tessera_size_a = String::from("7");
    app.tessera_size_b = String::from("9");
    let without = app.get_a_blank_mosaic();
    assert_eq!(without.get_number_of_rows(), 0);
    assert!(without.get_base_image().is_none());
    assert_eq!(*without.get_general_tessera_size(), RectangleInMm { horizontal: 7, vertical: 9 });

    app.loaded_image = Some(example_image());
    let with = app.get_a_blank_mosaic();
    assert_eq!(with.get_number_of_rows(), 0);
    assert_eq!(with.get_base_image().as_ref().unwrap().size, [128, 64]);
    assert_eq!(with.get_base_image().as_ref().unwrap().pixels, example_image().pixels);
}

#[test]
fn mosaic_of_one_colour_covers_the_area_in_the_fields() {
    let mut app = MosaicneitorApp::default();
    app.mosaic_dimension_h = String::from("34");
    app.mosaic_dimension_v = String::from("23");
    let colour = DisplayColor::from_rgb(1, 99, 200);
    let mosaic = app.get_a_blank_mosaic_with_all_tesserae_equal_color(colour);
    assert_eq!(mosaic.get_number_of_rows(), 2);
    assert!(mosaic.get_base_image().is_none());
    for row in mosaic.get_contents() {
        assert_eq!(row.len(), 3);
        for tessera in row {
            assert_eq!(colour_bits(&tessera.color), colour_bits(&to_perceptual(colour)));
        }
    }
}

#[test]
fn mosaic_from_the_image_samples_under_the_centres() {
    let mut app = MosaicneitorApp::default();
    let image = example_image();
    app.mosaic_dimension_h = String::from("128");
    app.mosaic_dimension_v = String::from("64");
    app.tessera_size_a = String::from("20");
    app.tessera_size_b = String::from("30");
    app.image = Some(example_image());
    let mosaic = app.get_mosaic_from_loaded_image();
    assert_eq!(mosaic.get_number_of_rows(), 3);
    for (row, tesserae) in mosaic.get_contents().iter().enumerate() {
        assert_eq!(tesserae.len(), 7);
        for (column, tessera) in tesserae.iter().enumerate() {
            let x = 1 + column * 21 + 10;
            let y = 1 + row * 31 + 15;
            let expected = match image.pixels.get(y * 128 + x) {
                Some(pixel) => *pixel,
                None => DisplayColor::fallback(),
            };
            assert_eq!(colour_bits(&tessera.color), colour_bits(&to_perceptual(expected)));
        }
    }
    let last_row = &mosaic.get_contents()[2];
    assert_eq!(
        colour_bits(&last_row[0].color),
        colour_bits(&to_perceptual(DisplayColor::fallback()))
    );
}

#[test]
fn mosaic_from_no_image_is_yellow() {
    let mut app = MosaicneitorApp::default();
    app.mosaic_dimension_h = String::from("23");
    app.mosaic_dimension_v = String::from("12");
    let mosaic = app.get_mosaic_from_loaded_image();
    assert_eq!(mosaic.get_number_of_rows(), 1);
    assert_eq!(mosaic.get_number_of_tesserae_in_row(0), 2);
    for tessera in &mosaic.get_contents()[0] {
        assert_eq!(
            colour_bits(&tessera.color),
            colour_bits(&to_perceptual(DisplayColor::fallback()))
        );
    }
}

#[test]
fn adjusting_writes_the_proportions_of_the_image_into_the_fields() {
    let mut app = MosaicneitorApp::default();
    app.image = Some(example_image());
    assert!(app.adjust_mosaic_dimensions_to_image_aspect_ratio());
    assert_eq!(app.mosaic_dimension_h, "500");
    assert_eq!(app.mosaic_dimension_v, "250");
    assert_eq!(app.get_mosaic_dimensions(), [500, 250]);

    app.mosaic_dimension_h = String::from("401");
    app.mosaic_dimension_v = String::from("nothing");
    assert!(app.adjust_mosaic_dimensions_to_image_aspect_ratio());
    assert_eq!(app.mosaic_dimension_h, "410");
    assert_eq!(app.mosaic_dimension_v, "200");
}

#[test]
fn adjusting_without_an_image_makes_a_square() {
    let mut app = MosaicneitorApp::default();
    assert!(app.adjust_mosaic_dimensions_to_image_aspect_ratio());
    assert_eq!(app.mosaic_dimension_h, "500");
    assert_eq!(app.mosaic_dimension_v, "500");
}

#[test]
fn adjusting_to_an_image_without_area_leaves_the_fields() {
    let mut app = MosaicneitorApp::default();
    app.image = Some(SourceImage::new([0, 7], Vec::new()));
    app.mosaic_dimension_h = String::from("123");
    app.mosaic_dimension_v = String::from("x");
    assert!(!app.adjust_mosaic_dimensions_to_image_aspect_ratio());
    assert_eq!(app.mosaic_dimension_h, "123");
    assert_eq!(app.mosaic_dimension_v, "x");
}

#[test]
fn adjusting_leaves_the_fields_where_the_result_is_too_large() {
    let mut app = MosaicneitorApp::default();
    app.mosaic_dimension_h = usize::MAX.to_string();
    assert!(!app.adjust_mosaic_dimensions_to_image_aspect_ratio());
    assert_eq!(app.mosaic_dimension_h, usize::MAX.to_string());
    assert_eq!(app.mosaic_dimension_v, "300");
}

#[test]
fn a_decoded_image_is_shown_and_gets_an_empty_mosaic() {
    let mut app = MosaicneitorApp::default();
    app.show_tesserae_grid = false;
    app.show_actual_tesserae = false;
    app.zoom_level = Zoom::X3;
    app.tessera_size_a = String::from("12");
    app.mosaic = app.get_a_blank_mosaic_with_all_tesserae_equal_color(DisplayColor::blank());
    assert!(app.mosaic.get_number_of_rows() > 0);

    app.accept_decoded_image(Some(example_image()));

    assert_eq!(app.image.as_ref().unwrap().pixels, example_image().pixels);
    assert_eq!(app.image.as_ref().unwrap().size, [128, 64]);
    assert_eq!(app.loaded_image.as_ref().unwrap().pixels, example_image().pixels);
    assert_eq!(app.mosaic_dimension_h, "500");
    assert_eq!(app.mosaic_dimension_v, "250");
    assert!(app.show_image);
    assert!(app.show_tesserae_grid);
    assert!(!app.show_actual_tesserae);
    assert_eq!(app.zoom_level, Zoom::X3);
    assert_eq!(app.tessera_size_a, "12");
    assert_eq!(app.mosaic.get_number_of_rows(), 0);
    assert_eq!(
        *app.mosaic.get_general_tessera_size(),
        RectangleInMm { horizontal: 12, vertical: 10 }
    );
    assert_eq!(app.mosaic.get_base_image().as_ref().unwrap().pixels, example_image().pixels);
}

#[test]
fn a_failed_decoding_clears_the_image_and_keeps_the_mosaic() {
    let mut app = MosaicneitorApp::default();
    app.accept_decoded_image(Some(example_image()));
    app.generate_mosaic_from_image();
    let rows = app.mosaic.get_number_of_rows();
    assert!(rows > 0);
    app.show_image = true;

    app.accept_decoded_image(None);

    assert!(app.image.is_none());
    assert!(app.loaded_image.is_some());
    assert_eq!(app.mosaic.get_number_of_rows(), rows);
    assert!(app.show_image);
    assert_eq!(app.mosaic_dimension_v, "250");
}

#[test]
fn generating_replaces_the_mosaic_and_shows_it() {
    let mut app = MosaicneitorApp::default();
    app.show_tesserae_grid = false;
    app.show_actual_tesserae = false;
    app.generate_blank_mosaic();
    assert_eq!(app.mosaic.get_number_of_rows(), 28);
    assert_eq!(app.mosaic.get_number_of_tesserae_in_row(27), 46);
    assert!(app.show_tesserae_grid);
    assert!(app.show_actual_tesserae);
    let white = colour_bits(&to_perceptual(DisplayColor::blank()));
    assert_eq!(colour_bits(&app.mosaic.get_contents()[5][9].color), white);

    app.mosaic_dimension_h = String::from("40");
    app.mosaic_dimension_v = String::from("20");
    app.show_tesserae_grid = false;
    app.generate_mosaic_from_image();
    assert_eq!(app.mosaic.get_number_of_rows(), 2);
    assert_eq!(app.mosaic.get_number_of_tesserae_in_row(0), 4);
    assert!(app.show_tesserae_grid);
    let yellow = colour_bits(&to_perceptual(DisplayColor::fallback()));
    assert_eq!(colour_bits(&app.mosaic.get_contents()[1][3].color), yellow);
}

#[test]
fn duplicate_image_copies_what_is_there() {
    assert!(duplicate_image(&None).is_none());
    let copy = duplicate_image(&Some(example_image())).unwrap();
    assert_eq!(copy.size, [128, 64]);
    assert_eq!(copy.pixels, example_image().pixels);
}
