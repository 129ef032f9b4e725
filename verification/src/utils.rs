//! The text of the version, and the rounding of mosaic dimensions to whole
//! multiples of ten millimetres.

use crate::decimal::{append_decimal, spec_decimal_text};
use vstd::arithmetic::div_mod::{lemma_fundamental_div_mod, lemma_mod_bound};
use vstd::arithmetic::mul::lemma_mul_is_commutative;
use vstd::prelude::*;
use vstd::string::StringExecFns;

verus! {

/// The least multiple of ten that is not below `x`.
pub open spec fn spec_ceil_to_ten(x: int) -> int {
    ((x + 9) / 10) * 10
}

/// The quotient `a / b`, rounded up to a whole number.
pub open spec fn spec_ceil_div(a: int, b: int) -> int {
    (a + b - 1) / b
}

/// The height that gives the width `w` the proportions `rw : rh`, cut down
/// to a whole number.
pub open spec fn spec_proportional_height(w: int, rw: int, rh: int) -> int {
    (w * rh) / rw
}

/// What `round_preserving_aspect_ratio` yields: the width is kept, the height
/// follows from it by the reference proportions, and both are then raised to
/// the next multiple of ten. The requested height has no influence: adding the
/// difference between the proportional height and the requested one to the
/// requested one gives the proportional height again, which is never negative.
pub open spec fn spec_round_preserving_aspect_ratio(
    requested: (int, int),
    reference: (int, int),
) -> (int, int) {
    (
        spec_ceil_to_ten(requested.0),
        spec_ceil_to_ten(spec_proportional_height(requested.0, reference.0, reference.1)),
    )
}

/// One axis of `scale_and_round`: `x` multiplied by `rw / rh` as an exact
/// fraction, raised to the next multiple of ten.
pub open spec fn spec_scale_axis(x: int, rw: int, rh: int) -> int {
    spec_ceil_div(x * rw, 10 * rh) * 10
}

/// What `scale_and_round` yields: each axis on its own is multiplied by the
/// reference ratio and raised to the next multiple of ten.
pub open spec fn spec_scale_and_round(requested: (int, int), reference: (int, int)) -> (int, int) {
    (
        spec_scale_axis(requested.0, reference.0, reference.1),
        spec_scale_axis(requested.1, reference.0, reference.1),
    )
}

/// Whether both reference dimensions are positive, so that they have a ratio.
pub open spec fn spec_has_ratio(reference: (int, int)) -> bool {
    reference.0 > 0 && reference.1 > 0
}

/// Whether both numbers of a pair can be held in a `usize`.
pub open spec fn spec_pair_fits(pair: (int, int)) -> bool {
    0 <= pair.0 <= usize::MAX && 0 <= pair.1 <= usize::MAX
}

/// The pair of numbers that an array of two dimensions holds.
pub open spec fn spec_pair(dimensions: [usize; 2]) -> (int, int) {
    (dimensions[0] as int, dimensions[1] as int)
}

/// A number raised to the next multiple of ten is a multiple of ten, is not
/// below the number and exceeds it by less than ten.
pub proof fn lemma_ceil_to_ten(x: int)
    ensures
        spec_ceil_to_ten(x) % 10 == 0,
        x <= spec_ceil_to_ten(x) < x + 10,
        x % 10 == 0 ==> spec_ceil_to_ten(x) == x,
{
}

/// The rounded-up quotient is the least whole number whose product with the
/// divisor reaches the dividend.
pub proof fn lemma_ceil_div(a: int, b: int)
    requires
        b > 0,
    ensures
        spec_ceil_div(a, b) * b >= a,
        (spec_ceil_div(a, b) - 1) * b < a,
        spec_ceil_div(a, b) == if a % b == 0 {
            a / b
        } else {
            a / b + 1
        },
{
    let c = spec_ceil_div(a, b);
    lemma_fundamental_div_mod(a + b - 1, b);
    lemma_mod_bound(a + b - 1, b);
    lemma_fundamental_div_mod(a, b);
    lemma_mod_bound(a, b);
    lemma_mul_is_commutative(b, c);
    lemma_mul_is_commutative(b, a / b);
    assert((c - 1) * b == c * b - b) by (nonlinear_arith);
    let q = a / b;
    if a % b == 0 {
        if c < q {
            assert(c * b <= (q - 1) * b) by (nonlinear_arith)
                requires
                    c <= q - 1,
                    b > 0,
            ;
            assert((q - 1) * b == q * b - b) by (nonlinear_arith);
        }
        if c > q {
            assert(c * b >= (q + 1) * b) by (nonlinear_arith)
                requires
                    c >= q + 1,
                    b > 0,
            ;
            assert((q + 1) * b == q * b + b) by (nonlinear_arith);
        }
    } else {
        if c < q + 1 {
            assert(c * b <= q * b) by (nonlinear_arith)
                requires
                    c <= q,
                    b > 0,
            ;
        }
        if c > q + 1 {
            assert(c * b >= (q + 2) * b) by (nonlinear_arith)
                requires
                    c >= q + 2,
                    b > 0,
            ;
            assert((q + 2) * b == q * b + 2 * b) by (nonlinear_arith);
        }
    }
}

/// The proportional height, multiplied by the reference width, misses the
/// product of width and reference height by less than one reference width.
pub proof fn lemma_proportional_height(w: int, rw: int, rh: int)
    requires
        w >= 0,
        rw > 0,
        rh >= 0,
    ensures
        0 <= spec_proportional_height(w, rw, rh),
        spec_proportional_height(w, rw, rh) * rw <= w * rh,
        w * rh < (spec_proportional_height(w, rw, rh) + 1) * rw,
{
    let h = spec_proportional_height(w, rw, rh);
    assert(w * rh >= 0) by (nonlinear_arith)
        requires
            w >= 0,
            rh >= 0,
    ;
    lemma_fundamental_div_mod(w * rh, rw);
    lemma_mod_bound(w * rh, rw);
    lemma_mul_is_commutative(rw, h);
    assert((h + 1) * rw == h * rw + rw) by (nonlinear_arith);
    if h < 0 {
        assert(h * rw <= -rw) by (nonlinear_arith)
            requires
                h <= -1,
                rw > 0,
        ;
    }
}

/// Both adjusted dimensions are multiples of ten, the adjusted width exceeds
/// the requested one by less than ten, and the adjusted height, multiplied by
/// the reference width, misses the product of requested width and reference
/// height by less than ten reference widths.
proof fn lemma_adjusted_dimensions(w: int, rw: int, rh: int)
    requires
        w >= 0,
        rw > 0,
        rh >= 0,
    ensures
        ({
            let adjusted = spec_round_preserving_aspect_ratio((w, 0), (rw, rh));
            &&& adjusted.0 % 10 == 0
            &&& adjusted.1 % 10 == 0
            &&& w <= adjusted.0 < w + 10
            &&& adjusted.1 >= 0
            &&& w * rh - 10 * rw < adjusted.1 * rw
            &&& adjusted.1 * rw < w * rh + 10 * rw
        }),
{
    let h = spec_proportional_height(w, rw, rh);
    let top = spec_ceil_to_ten(h);
    lemma_proportional_height(w, rw, rh);
    lemma_ceil_to_ten(w);
    lemma_ceil_to_ten(h);
    let d = top - h;
    assert(top * rw == h * rw + d * rw) by (nonlinear_arith)
        requires
            d == top - h,
    ;
    assert(0 <= d * rw < 10 * rw) by (nonlinear_arith)
        requires
            0 <= d < 10,
            rw > 0,
    ;
    assert((h + 1) * rw == h * rw + rw) by (nonlinear_arith);
}

/// For positive requested and reference dimensions, both adjusted dimensions
/// are multiples of ten, the adjusted width exceeds the requested one by less
/// than ten, and the adjusted height differs by less than ten from the height
/// that has exactly the reference proportions to the requested width: the
/// difference, multiplied by the reference width, is less than ten reference
/// widths.
pub proof fn lemma_rounding_stays_within_one_unit(requested: (int, int), reference: (int, int))
    requires
        requested.0 > 0,
        requested.1 > 0,
        spec_has_ratio(reference),
    ensures
        ({
            let adjusted = spec_round_preserving_aspect_ratio(requested, reference);
            &&& adjusted.0 % 10 == 0
            &&& adjusted.1 % 10 == 0
            &&& requested.0 <= adjusted.0 < requested.0 + 10
            &&& adjusted.1 >= 0
            &&& requested.0 * reference.1 - 10 * reference.0 < adjusted.1 * reference.0
            &&& adjusted.1 * reference.0 < requested.0 * reference.1 + 10 * reference.0
        }),
{
    lemma_adjusted_dimensions(requested.0, reference.0, reference.1);
}

/// The product of two machine words.
pub(crate) fn wide_product(a: usize, b: usize) -> (product: u128)
    ensures
        product == a * b,
        product <= u128::MAX - 0x1_ffff_ffff_ffff_fffe,
{
    assert(a * b <= 0xffff_ffff_ffff_ffff * 0xffff_ffff_ffff_ffff) by (nonlinear_arith)
        requires
            0 <= a <= 0xffff_ffff_ffff_ffff,
            0 <= b <= 0xffff_ffff_ffff_ffff,
    ;
    (a as u128) * (b as u128)
}

/// Raises `x` to the next multiple of ten.
fn ceil_to_ten(x: u128) -> (rounded: u128)
    requires
        x <= u128::MAX - 9,
    ensures
        rounded == spec_ceil_to_ten(x as int),
{
    ((x + 9) / 10) * 10
}

/// Narrows a wide number to a machine word, where it fits.
pub(crate) fn narrow(x: u128) -> (narrowed: Option<usize>)
    ensures
        x <= usize::MAX ==> narrowed == Some(x as usize),
        x > usize::MAX ==> narrowed is None,
{
    if x <= usize::MAX as u128 {
        Some(x as usize)
    } else {
        None
    }
}

/// Adjusts the requested dimensions to the proportions of the reference
/// dimensions and raises both to the next multiple of ten, where the
/// reference dimensions have a ratio and the result can be represented.
///
/// Returns `None` exactly when a reference dimension is zero or an adjusted
/// dimension exceeds `usize::MAX`.
pub fn checked_round_preserving_aspect_ratio(
    dimensions_to_be_adjusted: [usize; 2],
    reference_dimensions: [usize; 2],
) -> (adjusted: Option<[usize; 2]>)
    ensures
        adjusted is Some <==> spec_has_ratio(spec_pair(reference_dimensions)) && spec_pair_fits(
            spec_round_preserving_aspect_ratio(
                spec_pair(dimensions_to_be_adjusted),
                spec_pair(reference_dimensions),
            ),
        ),
        adjusted matches Some(a) ==> spec_pair(a) == spec_round_preserving_aspect_ratio(
            spec_pair(dimensions_to_be_adjusted),
            spec_pair(reference_dimensions),
        ),
{
    let w = dimensions_to_be_adjusted[0];
    let rw = reference_dimensions[0];
    let rh = reference_dimensions[1];
    if rw == 0 || rh == 0 {
        return None;
    }
    proof {
        lemma_proportional_height(w as int, rw as int, rh as int);
        lemma_ceil_to_ten(w as int);
        lemma_ceil_to_ten(spec_proportional_height(w as int, rw as int, rh as int));
    }
    let scaled = wide_product(w, rh);
    let height = scaled / (rw as u128);
    assert(height <= scaled) by (nonlinear_arith)
        requires
            height == scaled / (rw as u128),
            rw > 0,
    ;
    let rounded_width = ceil_to_ten(w as u128);
    let rounded_height = ceil_to_ten(height);
    match (narrow(rounded_width), narrow(rounded_height)) {
        (Some(a), Some(b)) => Some([a, b]),
        _ => None,
    }
}

/// Adjusts the requested dimensions to the proportions of the reference
/// dimensions: the width is kept, the height becomes the width multiplied by
/// the reference height and divided by the reference width (cut to a whole
/// number), and both are raised to the next multiple of ten. A dimension that
/// is a multiple of ten already stays as it is.
pub fn round_preserving_aspect_ratio(
    dimensions_to_be_adjusted: [usize; 2],
    reference_dimensions: [usize; 2],
) -> (adjusted: [usize; 2])
    requires
        spec_has_ratio(spec_pair(reference_dimensions)),
        spec_pair_fits(
            spec_round_preserving_aspect_ratio(
                spec_pair(dimensions_to_be_adjusted),
                spec_pair(reference_dimensions),
            ),
        ),
    ensures
        spec_pair(adjusted) == spec_round_preserving_aspect_ratio(
            spec_pair(dimensions_to_be_adjusted),
            spec_pair(reference_dimensions),
        ),
        adjusted[0] % 10 == 0,
        adjusted[1] % 10 == 0,
        dimensions_to_be_adjusted[0] <= adjusted[0] < dimensions_to_be_adjusted[0] + 10,
        dimensions_to_be_adjusted[0] * reference_dimensions[1] - 10 * reference_dimensions[0]
            < adjusted[1] * reference_dimensions[0],
        adjusted[1] * reference_dimensions[0] < dimensions_to_be_adjusted[0]
            * reference_dimensions[1] + 10 * reference_dimensions[0],
{
    proof {
        lemma_adjusted_dimensions(
            dimensions_to_be_adjusted[0] as int,
            reference_dimensions[0] as int,
            reference_dimensions[1] as int,
        );
    }
    match checked_round_preserving_aspect_ratio(dimensions_to_be_adjusted, reference_dimensions) {
        Some(adjusted) => adjusted,
        None => dimensions_to_be_adjusted,
    }
}

/// One axis of `scale_and_round`, where the result can be represented.
fn scale_axis(x: usize, rw: usize, rh: usize) -> (scaled: Option<usize>)
    requires
        rw > 0,
        rh > 0,
    ensures
        scaled is Some <==> spec_scale_axis(x as int, rw as int, rh as int) <= usize::MAX,
        scaled matches Some(s) ==> s == spec_scale_axis(x as int, rw as int, rh as int),
{
    let numerator = wide_product(x, rw);
    let denominator: u128 = 10 * (rh as u128);
    proof {
        lemma_ceil_div(numerator as int, denominator as int);
        lemma_fundamental_div_mod(numerator as int, denominator as int);
        lemma_mod_bound(numerator as int, denominator as int);
        assert((numerator / denominator) * denominator <= numerator) by (nonlinear_arith)
            requires
                numerator as int == denominator * (numerator as int / denominator as int) + (
                numerator as int % denominator as int),
                numerator as int % denominator as int >= 0,
                (numerator / denominator) as int == numerator as int / denominator as int,
        ;
        assert((numerator / denominator) * 10 <= numerator) by (nonlinear_arith)
            requires
                (numerator / denominator) * denominator <= numerator,
                denominator >= 10,
                numerator / denominator >= 0,
        ;
    }
    let quotient = numerator / denominator;
    let steps: u128 = if numerator % denominator == 0 {
        quotient
    } else {
        quotient + 1
    };
    if steps <= (usize::MAX as u128) / 10 {
        Some((steps * 10) as usize)
    } else {
        None
    }
}

/// Multiplies each requested dimension on its own by the ratio of the
/// reference width to the reference height and raises it to the next multiple
/// of ten, where the reference dimensions have a ratio and the result can be
/// represented.
///
/// Returns `None` exactly when a reference dimension is zero or a scaled
/// dimension exceeds `usize::MAX`.
pub fn checked_scale_and_round(requested: [usize; 2], reference_dimensions: [usize; 2]) -> (scaled:
    Option<[usize; 2]>)
    ensures
        scaled is Some <==> spec_has_ratio(spec_pair(reference_dimensions)) && spec_pair_fits(
            spec_scale_and_round(spec_pair(requested), spec_pair(reference_dimensions)),
        ),
        scaled matches Some(s) ==> spec_pair(s) == spec_scale_and_round(
            spec_pair(requested),
            spec_pair(reference_dimensions),
        ),
{
    let rw = reference_dimensions[0];
    let rh = reference_dimensions[1];
    if rw == 0 || rh == 0 {
        return None;
    }
    proof {
        lemma_scale_axis_is_not_negative(requested[0] as int, rw as int, rh as int);
        lemma_scale_axis_is_not_negative(requested[1] as int, rw as int, rh as int);
    }
    match (scale_axis(requested[0], rw, rh), scale_axis(requested[1], rw, rh)) {
        (Some(a), Some(b)) => Some([a, b]),
        _ => None,
    }
}

/// Multiplies each requested dimension on its own by the ratio of the
/// reference width to the reference height, as an exact fraction, and raises
/// it to the next multiple of ten.
pub fn scale_and_round(requested: [usize; 2], reference_dimensions: [usize; 2]) -> (scaled: [usize; 2])
    requires
        spec_has_ratio(spec_pair(reference_dimensions)),
        spec_pair_fits(
            spec_scale_and_round(spec_pair(requested), spec_pair(reference_dimensions)),
        ),
    ensures
        spec_pair(scaled) == spec_scale_and_round(
            spec_pair(requested),
            spec_pair(reference_dimensions),
        ),
{
    match checked_scale_and_round(requested, reference_dimensions) {
        Some(scaled) => scaled,
        None => requested,
    }
}

/// A scaled axis is a multiple of ten and not negative.
pub proof fn lemma_scale_axis_is_not_negative(x: int, rw: int, rh: int)
    requires
        x >= 0,
        rw > 0,
        rh > 0,
    ensures
        spec_scale_axis(x, rw, rh) >= 0,
        spec_scale_axis(x, rw, rh) % 10 == 0,
{
    assert(x * rw >= 0) by (nonlinear_arith)
        requires
            x >= 0,
            rw > 0,
    ;
    lemma_ceil_div(x * rw, 10 * rh);
    let c = spec_ceil_div(x * rw, 10 * rh);
    if c < 0 {
        assert(c * (10 * rh) < 0) by (nonlinear_arith)
            requires
                c < 0,
                rh > 0,
        ;
    }
}

/// The major, minor and patch numbers that `semver` reads from a text, or
/// `None` where it takes the text for no version.
pub uninterp spec fn spec_semver_numbers(text: Seq<char>) -> Option<(u64, u64, u64)>;

/// The text that shows a version: major and minor number, and the patch
/// number too where it is not zero, which marks a version under test. Where
/// there are no numbers, two dots stand for them.
pub open spec fn spec_version_text(numbers: Option<(u64, u64, u64)>) -> Seq<char> {
    match numbers {
        None => seq!['(', '.', '.', ')'],
        Some((major, minor, patch)) => if patch == 0 {
            seq!['(', 'v'] + spec_decimal_text(major as nat) + seq!['.'] + spec_decimal_text(
                minor as nat,
            ) + seq![')']
        } else {
            seq!['(', 'v'] + spec_decimal_text(major as nat) + seq!['.'] + spec_decimal_text(
                minor as nat,
            ) + seq!['.', 'f', 'o', 'r', 'T', 'e', 's', 't'] + spec_decimal_text(patch as nat)
                + seq![')']
        },
    }
}

/// Calls `semver::Version::parse` and hands out the three numbers of the
/// version it read. The contract claims only that the same text always gives
/// the same outcome.
#[verifier::external_body]
fn semver_numbers(text: &str) -> (numbers: Option<(u64, u64, u64)>)
    ensures
        numbers == spec_semver_numbers(text@),
{
    match semver::Version::parse(text) {
        Ok(version) => Some((version.major, version.minor, version.patch)),
        Err(_) => None,
    }
}

/// The text that shows a version, from the numbers read from it.
pub fn version_text_from_numbers(numbers: Option<(u64, u64, u64)>) -> (text: String)
    ensures
        text@ == spec_version_text(numbers),
{
    proof {
        reveal_strlit("(..)");
        reveal_strlit("(v");
        reveal_strlit(".");
        reveal_strlit(".forTest");
        reveal_strlit(")");
    }
    match numbers {
        None => {
            let text = String::from_str("(..)");
            assert(text@ =~= spec_version_text(numbers));
            text
        },
        Some((major, minor, patch)) => {
            let mut text = String::from_str("(v");
            append_decimal(&mut text, major);
            text.append(".");
            append_decimal(&mut text, minor);
            if patch != 0 {
                text.append(".forTest");
                append_decimal(&mut text, patch);
            }
            text.append(")");
            assert(text@ =~= spec_version_text(numbers));
            text
        },
    }
}

/// The text that shows the version written in `version`, as it stands behind
/// the name of the application in the title of the window.
pub fn get_version_text(version: &str) -> (text: String)
    ensures
        text@ == spec_version_text(spec_semver_numbers(version@)),
{
    version_text_from_numbers(semver_numbers(version))
}

} // verus!
