//! The mosaic: rows of tesserae, and the edit of a single tessera by its
//! position on the grid.

use crate::decimal::{append_decimal, spec_decimal_text};
use crate::source_image::{spec_view, SourceImage, SourceImageView};
use vstd::prelude::*;
use vstd::string::StringExecFns;

verus! {

/// One tile of a mosaic. It holds its colour in a perceptual space.
#[derive(Debug)]
pub struct Tessera {
    pub color: palette::Oklch,
}

/// A width and a height in millimetres.
#[derive(Clone, Copy, Debug, PartialEq, Eq, Structural)]
pub struct RectangleInMm {
    pub horizontal: usize,
    pub vertical: usize,
}

/// The place of a tessera on the grid. Rows and columns are counted from one.
#[derive(Clone, Copy, Debug, PartialEq, Eq, Structural)]
pub struct PositionOnGrid {
    pub row: usize,
    pub column: usize,
}

/// Why a tessera could not be changed: the position is not on the grid.
#[derive(Clone, Copy, Debug, PartialEq, Eq, Structural)]
pub enum OutOfBounds {
    /// The mosaic has `rows` rows, and `row` is none of them.
    Row { rows: usize, row: usize },
    /// Row `row` of the mosaic has `columns` tesserae, and `column` is none
    /// of them.
    Column { row: usize, columns: usize, column: usize },
}

impl OutOfBounds {
    /// The words for the error: the bound, and what was asked for.
    pub open spec fn spec_message(&self) -> Seq<char> {
        match *self {
            OutOfBounds::Row { rows, row } => "Out of bounds! The mosaic has only "@
                + spec_decimal_text(rows as nat) + " rows. And you want to change the "@
                + spec_decimal_text(row as nat) + "nt row."@,
            OutOfBounds::Column { row, columns, column } => "Out of bounds! The "@
                + spec_decimal_text(row as nat) + "nt row in the mosaic has only "@
                + spec_decimal_text(columns as nat) + " columns. And you want to change the "@
                + spec_decimal_text(column as nat) + "nt column."@,
        }
    }

    /// The words for the error: the bound, and what was asked for.
    pub fn message(&self) -> (text: String)
        ensures
            text@ == self.spec_message(),
    {
        match *self {
            OutOfBounds::Row { rows, row } => {
                let mut text = String::from_str("Out of bounds! The mosaic has only ");
                append_decimal(&mut text, rows as u64);
                text.append(" rows. And you want to change the ");
                append_decimal(&mut text, row as u64);
                text.append("nt row.");
                text
            },
            OutOfBounds::Column { row, columns, column } => {
                let mut text = String::from_str("Out of bounds! The ");
                append_decimal(&mut text, row as u64);
                text.append("nt row in the mosaic has only ");
                append_decimal(&mut text, columns as u64);
                text.append(" columns. And you want to change the ");
                append_decimal(&mut text, column as u64);
                text.append("nt column.");
                text
            },
        }
    }
}

/// What a mosaic holds.
pub struct MosaicView {
    pub base_image: Option<SourceImageView>,
    pub general_tessera_size: RectangleInMm,
    pub contents: Seq<Seq<Tessera>>,
}

/// A mosaic: the image it was made from, if any, the size of its tesserae,
/// and its tesserae, row by row from the top, each row from the left.
pub struct Mosaic {
    base_image: Option<SourceImage>,
    general_tessera_size: RectangleInMm,
    contents: Vec<Vec<Tessera>>,
}

/// Rows of tesserae as sequences.
pub open spec fn spec_rows(contents: Vec<Vec<Tessera>>) -> Seq<Seq<Tessera>> {
    Seq::new(contents@.len(), |r: int| contents@[r]@)
}

/// Whether a position names a tessera of these rows.
pub open spec fn spec_on_grid(contents: Seq<Seq<Tessera>>, position: PositionOnGrid) -> bool {
    &&& 1 <= position.row <= contents.len()
    &&& 1 <= position.column <= contents[position.row - 1].len()
}

/// Why a position names no tessera of these rows.
pub open spec fn spec_out_of_bounds(
    contents: Seq<Seq<Tessera>>,
    position: PositionOnGrid,
) -> OutOfBounds {
    if 1 <= position.row <= contents.len() {
        OutOfBounds::Column {
            row: position.row,
            columns: contents[position.row - 1].len() as usize,
            column: position.column,
        }
    } else {
        OutOfBounds::Row { rows: contents.len() as usize, row: position.row }
    }
}

/// The rows with the tessera at a position replaced.
pub open spec fn spec_replaced(
    contents: Seq<Seq<Tessera>>,
    position: PositionOnGrid,
    tessera: Tessera,
) -> Seq<Seq<Tessera>> {
    contents.update(
        position.row - 1,
        contents[position.row - 1].update(position.column - 1, tessera),
    )
}

impl View for Mosaic {
    type V = MosaicView;

    closed spec fn view(&self) -> MosaicView {
        MosaicView {
            base_image: spec_view(self.base_image),
            general_tessera_size: self.general_tessera_size,
            contents: spec_rows(self.contents),
        }
    }
}

impl Mosaic {
    /// Whether the tesserae have a size: a positive width and a positive
    /// height. Every mosaic that `new` makes is well formed, and stays so.
    pub open spec fn well_formed(&self) -> bool {
        self@.general_tessera_size.horizontal > 0 && self@.general_tessera_size.vertical > 0
    }

    /// A mosaic without tesserae.
    pub fn new(base_image: Option<SourceImage>, general_tessera_base_size: RectangleInMm) -> (mosaic:
        Self)
        requires
            general_tessera_base_size.horizontal > 0,
            general_tessera_base_size.vertical > 0,
        ensures
            mosaic.well_formed(),
            mosaic@.base_image == spec_view(base_image),
            mosaic@.general_tessera_size == general_tessera_base_size,
            mosaic@.contents == Seq::<Seq<Tessera>>::empty(),
    {
        Self { base_image, general_tessera_size: general_tessera_base_size, contents: Vec::new() }
    }

    /// The size of the tesserae.
    pub fn get_general_tessera_size(&self) -> (size: &RectangleInMm)
        ensures
            *size == self@.general_tessera_size,
    {
        &self.general_tessera_size
    }

    /// The image that the mosaic was made from.
    pub fn get_base_image(&self) -> (image: &Option<SourceImage>)
        ensures
            spec_view(*image) == self@.base_image,
    {
        &self.base_image
    }

    /// The tesserae, row by row.
    pub fn get_contents(&self) -> (contents: &Vec<Vec<Tessera>>)
        ensures
            spec_rows(*contents) == self@.contents,
    {
        &self.contents
    }

    /// Puts a row below the rows that are there.
    pub fn add_a_row_of_tesserae(&mut self, row: Vec<Tessera>)
        ensures
            final(self)@.contents == old(self)@.contents.push(row@),
            final(self)@.base_image == old(self)@.base_image,
            final(self)@.general_tessera_size == old(self)@.general_tessera_size,
    {
        self.contents.push(row);
        assert(spec_rows(self.contents) =~= spec_rows(old(self).contents).push(row@));
    }

    /// Replaces the tessera at a position, where the position is on the grid.
    /// Where it is not, the mosaic stays as it is, and the error tells which
    /// bound was passed: the number of rows, or the length of the row asked
    /// for.
    pub fn change_tessera(&mut self, position: &PositionOnGrid, new_tessera: Tessera) -> (changed:
        Result<(), OutOfBounds>)
        ensures
            changed is Ok <==> spec_on_grid(old(self)@.contents, *position),
            changed is Ok ==> final(self)@.contents == spec_replaced(
                old(self)@.contents,
                *position,
                new_tessera,
            ),
            changed matches Err(e) ==> e == spec_out_of_bounds(old(self)@.contents, *position)
                && final(self)@.contents == old(self)@.contents,
            final(self)@.base_image == old(self)@.base_image,
            final(self)@.general_tessera_size == old(self)@.general_tessera_size,
    {
        let rows = self.contents.len();
        if position.row == 0 || position.row > rows {
            return Err(OutOfBounds::Row { rows, row: position.row });
        }
        let columns = self.contents[position.row - 1].len();
        if position.column == 0 || position.column > columns {
            return Err(OutOfBounds::Column { row: position.row, columns, column: position.column });
        }
        self.contents[position.row - 1][position.column - 1] = new_tessera;
        assert(spec_rows(self.contents) =~= spec_replaced(
            spec_rows(old(self).contents),
            *position,
            new_tessera,
        ));
        Ok(())
    }

    /// The number of rows.
    pub fn get_number_of_rows(&self) -> (rows: usize)
        ensures
            rows == self@.contents.len(),
    {
        self.contents.len()
    }

    /// The number of tesserae in a row, counted from zero; zero for a row
    /// that the mosaic does not have.
    pub fn get_number_of_tesserae_in_row(&self, row_number: usize) -> (tesserae: usize)
        ensures
            row_number < self@.contents.len() ==> tesserae == self@.contents[row_number as int].len(),
            row_number >= self@.contents.len() ==> tesserae == 0,
    {
        if row_number < self.contents.len() {
            self.contents[row_number].len()
        } else {
            0
        }
    }
}

} // verus!
