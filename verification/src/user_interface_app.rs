//! The state of a session: the loaded image, the mosaic, what the user wrote
//! into the fields, and what follows from each thing the user does.

use crate::color::{spec_blank_color, DisplayColor};
use crate::config::{
    DEFAULT_BASE_TESSERA_SIZE_HORIZONTAL_MM, DEFAULT_BASE_TESSERA_SIZE_VERTICAL_MM,
    DEFAULT_GAP_BETWEEN_TESSSELAE, DEFAULT_OVERAL_MOSAIC_DIMENSIONS_HORIZONTAL_MM,
    DEFAULT_OVERAL_MOSAIC_DIMENSIONS_VERTICAL_MM,
};
use crate::coordinates::{mosaic_point_to_image_pixel, spec_mosaic_point_to_image_pixel};
use crate::decimal::{
    lemma_decimal_text_round_trip, parse_usize, spec_decimal_text, spec_parse_usize,
    usize_to_text,
};
use crate::grid::{build_mosaic, spec_centres_fit, spec_grid, ColorSource, ColorSourceView};
use crate::mosaic::{Mosaic, MosaicView, PositionOnGrid, RectangleInMm, Tessera};
use crate::source_image::{
    sample, spec_sample, spec_view, SamplingError, SourceImage, SourceImageView,
};
use crate::utils::{
    checked_round_preserving_aspect_ratio, spec_has_ratio, spec_pair_fits,
    spec_round_preserving_aspect_ratio,
};
use vstd::prelude::*;

verus! {

/// How much larger than a millimetre a pixel of the mosaic is shown.
#[derive(Clone, Copy, Debug, PartialEq, Eq, Structural)]
pub enum Zoom {
    X1,
    X2,
    X3,
    X4,
    X5,
}

/// The factor of a zoom level.
pub open spec fn spec_zoom_factor(zoom_level: Zoom) -> usize {
    match zoom_level {
        Zoom::X1 => 1,
        Zoom::X2 => 2,
        Zoom::X3 => 3,
        Zoom::X4 => 4,
        Zoom::X5 => 5,
    }
}

/// The dimension that a text stands for: the number written in it, and 1
/// where it holds no number that a `usize` can take.
pub open spec fn spec_dimension(text: Seq<char>) -> usize {
    match spec_parse_usize(text) {
        Some(value) => value,
        None => 1,
    }
}

/// The dimension that a text stands for: the number written in it, and 1
/// where the text is none.
pub fn parse_dimension(text: &str) -> (dimension: usize)
    ensures
        dimension == spec_dimension(text@),
{
    match parse_usize(text) {
        Some(value) => value,
        None => 1,
    }
}

/// A second image with the same content, where there is an image.
pub fn duplicate_image(image: &Option<SourceImage>) -> (copy: Option<SourceImage>)
    ensures
        spec_view(copy) == spec_view(*image),
{
    match image {
        Some(img) => Some(img.duplicate()),
        None => None,
    }
}

/// The dimensions of a mosaic after they were adjusted to the proportions of
/// an image, where the image has proportions and `usize` holds the result.
pub open spec fn spec_adjusted_dimensions(
    mosaic_dimensions: RectangleInMm,
    image_dimensions: (usize, usize),
) -> Option<(int, int)> {
    let requested = (mosaic_dimensions.horizontal as int, mosaic_dimensions.vertical as int);
    let reference = (image_dimensions.0 as int, image_dimensions.1 as int);
    let adjusted = spec_round_preserving_aspect_ratio(requested, reference);
    if spec_has_ratio(reference) && spec_pair_fits(adjusted) {
        Some(adjusted)
    } else {
        None
    }
}

/// Whether the two fields hold what the adjustment of the dimensions written
/// in `before` to an image leaves in them: the decimal text of the adjusted
/// dimensions, or, where there are none, what they held before.
pub open spec fn spec_fields_after_adjusting(
    before: (Seq<char>, Seq<char>),
    after: (Seq<char>, Seq<char>),
    image_dimensions: (usize, usize),
) -> bool {
    let written = RectangleInMm {
        horizontal: spec_dimension(before.0),
        vertical: spec_dimension(before.1),
    };
    match spec_adjusted_dimensions(written, image_dimensions) {
        Some(adjusted) => {
            &&& after.0 == spec_decimal_text(adjusted.0 as nat)
            &&& after.1 == spec_decimal_text(adjusted.1 as nat)
            &&& spec_dimension(after.0) == adjusted.0
            &&& spec_dimension(after.1) == adjusted.1
        },
        None => after == before,
    }
}

/// The state of a session.
pub struct MosaicneitorApp {
    /// The image that was decoded last, kept for the mosaics made from it.
    pub loaded_image: Option<SourceImage>,
    /// The image that is shown and sampled.
    pub image: Option<SourceImage>,
    /// The mosaic that is shown and edited.
    pub mosaic: Mosaic,
    /// The width of the mosaic in millimetres, as written by the user.
    pub mosaic_dimension_h: String,
    /// The height of the mosaic in millimetres, as written by the user.
    pub mosaic_dimension_v: String,
    /// The width of a tessera in millimetres, as written by the user.
    pub tessera_size_a: String,
    /// The height of a tessera in millimetres, as written by the user.
    pub tessera_size_b: String,
    pub zoom_level: Zoom,
    pub show_image: bool,
    pub show_tesserae_grid: bool,
    pub show_actual_tesserae: bool,
    pub selected_tessera: Option<PositionOnGrid>,
}

impl MosaicneitorApp {
    /// The size of the mosaic that the fields stand for.
    pub open spec fn spec_mosaic_dimensions(&self) -> RectangleInMm {
        RectangleInMm {
            horizontal: spec_dimension(self.mosaic_dimension_h@),
            vertical: spec_dimension(self.mosaic_dimension_v@),
        }
    }

    /// The size of a tessera that the fields stand for.
    pub open spec fn spec_tessera_size(&self) -> RectangleInMm {
        RectangleInMm {
            horizontal: spec_dimension(self.tessera_size_a@),
            vertical: spec_dimension(self.tessera_size_b@),
        }
    }

    /// The width and the height of the shown image, and one by one where
    /// there is none.
    pub open spec fn spec_image_dimensions(&self) -> (usize, usize) {
        match self.image {
            Some(img) => (img@.width, img@.height),
            None => (1, 1),
        }
    }

    /// Whether a tessera has a size: a positive width and a positive height.
    pub open spec fn spec_tesserae_have_a_size(&self) -> bool {
        self.spec_tessera_size().horizontal > 0 && self.spec_tessera_size().vertical > 0
    }

    /// The source that samples the shown image.
    pub open spec fn spec_sampling_source(&self) -> ColorSourceView {
        ColorSourceView::Sampled(spec_view(self.image))
    }

    /// Whether `after` is this session once the dimensions in its fields were
    /// adjusted to the shown image: the two fields hold the adjusted
    /// dimensions, or what they held where there are none, and all else is
    /// as before.
    pub open spec fn spec_after_adjusting(&self, after: MosaicneitorApp) -> bool {
        &&& spec_fields_after_adjusting(
            (self.mosaic_dimension_h@, self.mosaic_dimension_v@),
            (after.mosaic_dimension_h@, after.mosaic_dimension_v@),
            self.spec_image_dimensions(),
        )
        &&& after == (MosaicneitorApp {
            mosaic_dimension_h: after.mosaic_dimension_h,
            mosaic_dimension_v: after.mosaic_dimension_v,
            ..*self
        })
    }

    /// Whether `after` is this session once it took in what came of decoding
    /// a file.
    pub open spec fn spec_after_decoding(
        &self,
        decoded: Option<SourceImage>,
        after: MosaicneitorApp,
    ) -> bool {
        match decoded {
            None => after == (MosaicneitorApp { image: None, ..*self }),
            Some(img) => {
                &&& spec_view(after.image) == Some(img@)
                &&& spec_view(after.loaded_image) == Some(img@)
                &&& after.mosaic.well_formed()
                &&& after.mosaic@ == (MosaicView {
                    base_image: Some(img@),
                    general_tessera_size: self.spec_tessera_size(),
                    contents: Seq::<Seq<Tessera>>::empty(),
                })
                &&& spec_fields_after_adjusting(
                    (self.mosaic_dimension_h@, self.mosaic_dimension_v@),
                    (after.mosaic_dimension_h@, after.mosaic_dimension_v@),
                    (img@.width, img@.height),
                )
                &&& after.show_image
                &&& after.show_tesserae_grid
                &&& after.tessera_size_a == self.tessera_size_a
                &&& after.tessera_size_b == self.tessera_size_b
                &&& after.zoom_level == self.zoom_level
                &&& after.show_actual_tesserae == self.show_actual_tesserae
                &&& after.selected_tessera == self.selected_tessera
            },
        }
    }

    /// Whether `after` is this session once a new mosaic was made from the
    /// given source for the given image: the mosaic is the grid over the
    /// area in the fields, grid and tesserae are shown, and all else is as
    /// before.
    pub open spec fn spec_after_generating(
        &self,
        source: ColorSourceView,
        base_image: Option<SourceImageView>,
        after: MosaicneitorApp,
    ) -> bool {
        &&& after.mosaic.well_formed()
        &&& after.mosaic@ == (MosaicView {
            base_image,
            general_tessera_size: self.spec_tessera_size(),
            contents: spec_grid(
                source,
                self.spec_mosaic_dimensions(),
                self.spec_tessera_size(),
                DEFAULT_GAP_BETWEEN_TESSSELAE,
            ),
        })
        &&& after == (MosaicneitorApp {
            mosaic: after.mosaic,
            show_tesserae_grid: true,
            show_actual_tesserae: true,
            ..*self
        })
    }

    /// Whether a mosaic can be sampled from the shown image: a tessera has a
    /// size, and `usize` holds the centre of every tessera.
    pub open spec fn spec_can_sample(&self) -> bool {
        &&& self.spec_tesserae_have_a_size()
        &&& spec_centres_fit(
            self.spec_sampling_source(),
            self.spec_mosaic_dimensions(),
            self.spec_tessera_size(),
            DEFAULT_GAP_BETWEEN_TESSSELAE,
        )
    }

    /// The name of the application.
    pub fn name() -> (name: &'static str)
        ensures
            name@ == seq!['M', 'o', 's', 'a', 'i', 'c', 'n', 'e', 'i', 't', 'o', 'r'],
    {
        proof {
            reveal_strlit("Mosaicneitor");
        }
        let name = "Mosaicneitor";
        assert(name@ =~= seq!['M', 'o', 's', 'a', 'i', 'c', 'n', 'e', 'i', 't', 'o', 'r']);
        name
    }

    /// A session as it begins.
    pub fn new() -> (app: Self)
        ensures
            app.is_initial(),
    {
        Default::default()
    }

    /// Whether a session is as it begins: no image, an empty mosaic of
    /// tesserae of 10 by 10 millimetres, a mosaic of 500 by 300 millimetres
    /// in the fields, no zoom, and the grid and the tesserae shown.
    pub open spec fn is_initial(&self) -> bool {
        &&& self.loaded_image is None
        &&& self.image is None
        &&& self.mosaic.well_formed()
        &&& self.mosaic@.base_image is None
        &&& self.mosaic@.general_tessera_size == (RectangleInMm { horizontal: 10, vertical: 10 })
        &&& self.mosaic@.contents == Seq::<Seq<Tessera>>::empty()
        &&& self.mosaic_dimension_h@ == spec_decimal_text(500)
        &&& self.mosaic_dimension_v@ == spec_decimal_text(300)
        &&& self.tessera_size_a@ == spec_decimal_text(10)
        &&& self.tessera_size_b@ == spec_decimal_text(10)
        &&& self.spec_mosaic_dimensions() == (RectangleInMm { horizontal: 500, vertical: 300 })
        &&& self.spec_tessera_size() == (RectangleInMm { horizontal: 10, vertical: 10 })
        &&& self.zoom_level == Zoom::X1
        &&& !self.show_image
        &&& self.show_tesserae_grid
        &&& self.show_actual_tesserae
        &&& self.selected_tessera is None
    }

    /// The width and the height of the shown image in pixels, and one by one
    /// where there is none.
    pub fn get_image_dimensions(&self) -> (dimensions: [usize; 2])
        ensures
            (dimensions[0], dimensions[1]) == self.spec_image_dimensions(),
    {
        match &self.image {
            Some(img) => img.size,
            None => [1, 1],
        }
    }

    /// The width and the height of the mosaic in millimetres. A field that
    /// holds no number counts as 1.
    pub fn get_mosaic_dimensions(&self) -> (dimensions: [usize; 2])
        ensures
            dimensions[0] == self.spec_mosaic_dimensions().horizontal,
            dimensions[1] == self.spec_mosaic_dimensions().vertical,
    {
        [
            parse_dimension(self.mosaic_dimension_h.as_str()),
            parse_dimension(self.mosaic_dimension_v.as_str()),
        ]
    }

    /// The width and the height of a tessera in millimetres. A field that
    /// holds no number counts as 1.
    pub fn get_tessera_size(&self) -> (size: [usize; 2])
        ensures
            size[0] == self.spec_tessera_size().horizontal,
            size[1] == self.spec_tessera_size().vertical,
    {
        [
            parse_dimension(self.tessera_size_a.as_str()),
            parse_dimension(self.tessera_size_b.as_str()),
        ]
    }

    /// The factor by which everything on the screen is enlarged.
    pub fn get_zoom_factor(&self) -> (factor: usize)
        ensures
            factor == spec_zoom_factor(self.zoom_level),
            1 <= factor <= 5,
    {
        match self.zoom_level {
            Zoom::X1 => 1,
            Zoom::X2 => 2,
            Zoom::X3 => 3,
            Zoom::X4 => 4,
            Zoom::X5 => 5,
        }
    }

    /// A mosaic without tesserae, for the image that was decoded last and
    /// the size of tessera in the fields.
    pub fn get_a_blank_mosaic(&self) -> (mosaic: Mosaic)
        requires
            self.spec_tesserae_have_a_size(),
        ensures
            mosaic.well_formed(),
            mosaic@.base_image == spec_view(self.loaded_image),
            mosaic@.general_tessera_size == self.spec_tessera_size(),
            mosaic@.contents == Seq::<Seq<Tessera>>::empty(),
    {
        let size = self.get_tessera_size();
        Mosaic::new(
            duplicate_image(&self.loaded_image),
            RectangleInMm { horizontal: size[0], vertical: size[1] },
        )
    }

    /// A mosaic over the area in the fields, without an image, in which every
    /// tessera has the chosen colour.
    pub fn get_a_blank_mosaic_with_all_tesserae_equal_color(
        &self,
        choosen_color: DisplayColor,
    ) -> (mosaic: Mosaic)
        requires
            self.spec_tesserae_have_a_size(),
        ensures
            mosaic.well_formed(),
            mosaic@.base_image is None,
            mosaic@.general_tessera_size == self.spec_tessera_size(),
            mosaic@.contents == spec_grid(
                ColorSourceView::Uniform(choosen_color),
                self.spec_mosaic_dimensions(),
                self.spec_tessera_size(),
                DEFAULT_GAP_BETWEEN_TESSSELAE,
            ),
    {
        let size = self.get_tessera_size();
        let dimensions = self.get_mosaic_dimensions();
        build_mosaic(
            None,
            &ColorSource::Uniform(choosen_color),
            RectangleInMm { horizontal: dimensions[0], vertical: dimensions[1] },
            RectangleInMm { horizontal: size[0], vertical: size[1] },
            DEFAULT_GAP_BETWEEN_TESSSELAE,
        )
    }

    /// A mosaic over the area in the fields, in which every tessera has the
    /// colour that the shown image has under its centre. A tessera whose
    /// colour cannot be had, for want of an image or of a pixel, is yellow.
    pub fn get_mosaic_from_loaded_image(&self) -> (mosaic: Mosaic)
        requires
            self.spec_can_sample(),
        ensures
            mosaic.well_formed(),
            mosaic@.base_image == spec_view(self.loaded_image),
            mosaic@.general_tessera_size == self.spec_tessera_size(),
            mosaic@.contents == spec_grid(
                self.spec_sampling_source(),
                self.spec_mosaic_dimensions(),
                self.spec_tessera_size(),
                DEFAULT_GAP_BETWEEN_TESSSELAE,
            ),
    {
        let size = self.get_tessera_size();
        let dimensions = self.get_mosaic_dimensions();
        let source = ColorSource::Sampled(self.image.as_ref());
        assert(source@ == self.spec_sampling_source());
        build_mosaic(
            duplicate_image(&self.loaded_image),
            &source,
            RectangleInMm { horizontal: dimensions[0], vertical: dimensions[1] },
            RectangleInMm { horizontal: size[0], vertical: size[1] },
            DEFAULT_GAP_BETWEEN_TESSSELAE,
        )
    }

    /// The pixel of the shown image that a point of the mosaic falls on; for
    /// want of an image, of an image of one pixel. There is none where the
    /// mosaic in the fields has no width or no height.
    pub fn get_pixel_position_on_image(&self, point_position_on_mosaic: [usize; 2]) -> (pixel:
        Option<[usize; 2]>)
        ensures
            match pixel {
                Some(p) => spec_mosaic_point_to_image_pixel(
                    (point_position_on_mosaic[0] as int, point_position_on_mosaic[1] as int),
                    (
                        self.spec_mosaic_dimensions().horizontal as int,
                        self.spec_mosaic_dimensions().vertical as int,
                    ),
                    (self.spec_image_dimensions().0 as int, self.spec_image_dimensions().1 as int),
                ) == Some((p[0] as int, p[1] as int)),
                None => spec_mosaic_point_to_image_pixel(
                    (point_position_on_mosaic[0] as int, point_position_on_mosaic[1] as int),
                    (
                        self.spec_mosaic_dimensions().horizontal as int,
                        self.spec_mosaic_dimensions().vertical as int,
                    ),
                    (self.spec_image_dimensions().0 as int, self.spec_image_dimensions().1 as int),
                ) is None,
            },
    {
        mosaic_point_to_image_pixel(
            point_position_on_mosaic,
            self.get_mosaic_dimensions(),
            self.get_image_dimensions(),
        )
    }

    /// The colour of a pixel of the shown image.
    pub fn get_pixel_color(&self, pixel_position_on_image: [usize; 2]) -> (color: Result<
        DisplayColor,
        SamplingError,
    >)
        ensures
            color == spec_sample(
                spec_view(self.image),
                pixel_position_on_image[0] as int,
                pixel_position_on_image[1] as int,
            ),
    {
        sample(self.image.as_ref(), pixel_position_on_image)
    }

    /// Writes into the fields of the mosaic the dimensions that have the
    /// proportions of the shown image: the width as it stands, the height
    /// that belongs to it, both raised to the next multiple of ten. Where the
    /// image has no width or no height, or where `usize` cannot hold the
    /// result, the fields stay as they are and `false` is returned.
    pub fn adjust_mosaic_dimensions_to_image_aspect_ratio(&mut self) -> (adjusted: bool)
        ensures
            adjusted <==> spec_adjusted_dimensions(
                old(self).spec_mosaic_dimensions(),
                old(self).spec_image_dimensions(),
            ) is Some,
            old(self).spec_after_adjusting(*final(self)),
    {
        let adjusted_dimensions = checked_round_preserving_aspect_ratio(
            self.get_mosaic_dimensions(),
            self.get_image_dimensions(),
        );
        match adjusted_dimensions {
            Some(dimensions) => {
                proof {
                    lemma_decimal_text_round_trip(dimensions[0] as nat);
                    lemma_decimal_text_round_trip(dimensions[1] as nat);
                }
                self.mosaic_dimension_h = usize_to_text(dimensions[0]);
                self.mosaic_dimension_v = usize_to_text(dimensions[1]);
                true
            },
            None => false,
        }
    }

    /// Takes in what came of decoding the chosen file. Without an image, no
    /// image is shown any more and all else stays, the mosaic too. With one,
    /// it becomes the image that is shown and sampled, the dimensions in the
    /// fields are adjusted to its proportions, image and grid are shown, and
    /// an empty mosaic for this image takes the place of the old one.
    pub fn accept_decoded_image(&mut self, decoded: Option<SourceImage>)
        requires
            decoded is Some ==> old(self).spec_tesserae_have_a_size(),
        ensures
            old(self).spec_after_decoding(decoded, *final(self)),
    {
        match decoded {
            None => {
                self.image = None;
            },
            Some(img) => {
                self.loaded_image = Some(img.duplicate());
                self.image = Some(img);
                self.adjust_mosaic_dimensions_to_image_aspect_ratio();
                self.show_image = true;
                self.show_tesserae_grid = true;
                let size = self.get_tessera_size();
                self.mosaic = Mosaic::new(
                    duplicate_image(&self.image),
                    RectangleInMm { horizontal: size[0], vertical: size[1] },
                );
            },
        }
    }

    /// Puts a mosaic sampled from the shown image in the place of the
    /// mosaic, and shows the grid and the tesserae.
    pub fn generate_mosaic_from_image(&mut self)
        requires
            old(self).spec_can_sample(),
        ensures
            old(self).spec_after_generating(
                old(self).spec_sampling_source(),
                spec_view(old(self).loaded_image),
                *final(self),
            ),
    {
        self.mosaic = self.get_mosaic_from_loaded_image();
        self.show_tesserae_grid = true;
        self.show_actual_tesserae = true;
    }

    /// Puts a mosaic of white tesserae in the place of the mosaic, and shows
    /// the grid and the tesserae.
    pub fn generate_blank_mosaic(&mut self)
        requires
            old(self).spec_tesserae_have_a_size(),
        ensures
            old(self).spec_after_generating(
                ColorSourceView::Uniform(spec_blank_color()),
                None,
                *final(self),
            ),
    {
        self.mosaic = self.get_a_blank_mosaic_with_all_tesserae_equal_color(DisplayColor::blank());
        self.show_tesserae_grid = true;
        self.show_actual_tesserae = true;
    }
}

impl Default for MosaicneitorApp {
    fn default() -> (app: Self)
        ensures
            app.is_initial(),
    {
        proof {
            lemma_decimal_text_round_trip(500);
            lemma_decimal_text_round_trip(300);
            lemma_decimal_text_round_trip(10);
        }
        Self {
            loaded_image: None,
            image: None,
            mosaic: Mosaic::new(
                None,
                RectangleInMm {
                    horizontal: DEFAULT_BASE_TESSERA_SIZE_HORIZONTAL_MM,
                    vertical: DEFAULT_BASE_TESSERA_SIZE_VERTICAL_MM,
                },
            ),
            mosaic_dimension_h: usize_to_text(DEFAULT_OVERAL_MOSAIC_DIMENSIONS_HORIZONTAL_MM),
            mosaic_dimension_v: usize_to_text(DEFAULT_OVERAL_MOSAIC_DIMENSIONS_VERTICAL_MM),
            tessera_size_a: usize_to_text(DEFAULT_BASE_TESSERA_SIZE_HORIZONTAL_MM),
            tessera_size_b: usize_to_text(DEFAULT_BASE_TESSERA_SIZE_VERTICAL_MM),
            zoom_level: Zoom::X1,
            show_image: false,
            show_tesserae_grid: true,
            show_actual_tesserae: true,
            selected_tessera: None,
        }
    }
}

} // verus!
