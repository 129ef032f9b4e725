use mosaicneitor::utils::{
    checked_round_preserving_aspect_ratio, checked_scale_and_round, get_version_text,
    round_preserving_aspect_ratio, scale_and_round, version_text_from_numbers,
};

#[test]
fn rounder_works_for_a_realistic_image() {
    let reference_for_proportionality = [739, 381];

    let initial_dimensions = [200, 100];
    let adjusted_dimensions =
        round_preserving_aspect_ratio(initial_dimensions, reference_for_proportionality);
    assert_eq!(adjusted_dimensions, [200, 110]);

    let initial_dimensions = [100, 200];
    let adjusted_dimensions =
        round_preserving_aspect_ratio(initial_dimensions, reference_for_proportionality);
    assert_eq!(adjusted_dimensions, [100, 60]);

    let initial_dimensions = [401, 400];
    let adjusted_dimensions =
        round_preserving_aspect_ratio(initial_dimensions, reference_for_proportionality);
    assert_eq!(adjusted_dimensions, [410, 210]);
}

#[test]
fn rounder_rounds_to_the_nearest_ten() {
    let reference_for_proportionality = [1, 1];

    let initial_dimensions = [75, 50];
    let adjusted_dimensions =
        round_preserving_aspect_ratio(initial_dimensions, reference_for_proportionality);
    assert_eq!(adjusted_dimensions, [80, 80]);

    let initial_dimensions = [345, 234];
    let adjusted_dimensions =
        round_preserving_aspect_ratio(initial_dimensions, reference_for_proportionality);
    assert_eq!(adjusted_dimensions, [350, 350]);

    let initial_dimensions = [34567, 23456];
    let adjusted_dimensions =
        round_preserving_aspect_ratio(initial_dimensions, reference_for_proportionality);
    assert_eq!(adjusted_dimensions, [34570, 34570]);
}

#[test]
fn rounder_enforces_aspect_ratio() {
    let reference_for_proportionality = [16, 9];

    let initial_dimensions = [75, 50];
    let adjusted_dimensions =
        round_preserving_aspect_ratio(initial_dimensions, reference_for_proportionality);
    assert_eq!(adjusted_dimensions, [80, 50]);

    let initial_dimensions = [345, 234];
    let adjusted_dimensions =
        round_preserving_aspect_ratio(initial_dimensions, reference_for_proportionality);
    assert_eq!(adjusted_dimensions, [350, 200]);

    let initial_dimensions = [34567, 23456];
    let adjusted_dimensions =
        round_preserving_aspect_ratio(initial_dimensions, reference_for_proportionality);
    assert_eq!(adjusted_dimensions, [34570, 19450]);
}

#[test]
fn rounder_keeps_multiples_of_ten() {
    assert_eq!(round_preserving_aspect_ratio([500, 300], [500, 300]), [500, 300]);
    assert_eq!(round_preserving_aspect_ratio([10, 10], [1, 1]), [10, 10]);
    assert_eq!(round_preserving_aspect_ratio([11, 10], [1, 1]), [20, 20]);
}

#[test]
fn rounder_ignores_the_requested_height() {
    assert_eq!(
        round_preserving_aspect_ratio([200, 1], [739, 381]),
        round_preserving_aspect_ratio([200, 100_000], [739, 381])
    );
}

#[test]
fn rounder_stays_within_one_unit_of_the_proportional_height() {
    let references = [[739usize, 381usize], [16, 9], [9, 16], [1, 1], [3, 1000], [1000, 3]];
    for reference in references {
        for width in 1..400usize {
            let adjusted = round_preserving_aspect_ratio([width, 77], reference);
            assert_eq!(adjusted[0] % 10, 0);
            assert_eq!(adjusted[1] % 10, 0);
            assert!(width <= adjusted[0] && adjusted[0] < width + 10);
            let exact_times_width = (width * reference[1]) as i128;
            let got_times_width = (adjusted[1] * reference[0]) as i128;
            assert!((got_times_width - exact_times_width).abs() < 10 * reference[0] as i128);
        }
    }
}

#[test]
fn rounder_yields_zero_height_for_a_flat_reference() {
    assert_eq!(round_preserving_aspect_ratio([1, 50], [10, 1]), [10, 0]);
}

#[test]
fn checked_rounder_rejects_a_reference_without_ratio() {
    assert_eq!(checked_round_preserving_aspect_ratio([200, 100], [0, 381]), None);
    assert_eq!(checked_round_preserving_aspect_ratio([200, 100], [739, 0]), None);
    assert_eq!(checked_round_preserving_aspect_ratio([200, 100], [0, 0]), None);
    assert_eq!(checked_round_preserving_aspect_ratio([200, 100], [739, 381]), Some([200, 110]));
}

#[test]
fn checked_rounder_rejects_what_does_not_fit() {
    assert_eq!(checked_round_preserving_aspect_ratio([usize::MAX, 1], [1, 1]), None);
    assert_eq!(checked_round_preserving_aspect_ratio([usize::MAX / 2, 1], [1, 3]), None);
    let top = usize::MAX / 10 * 10;
    assert_eq!(checked_round_preserving_aspect_ratio([top, 1], [1, 1]), Some([top, top]));
}

#[test]
fn scale_and_round_scales_each_axis_on_its_own() {
    assert_eq!(scale_and_round([75, 50], [1, 1]), [80, 50]);
    assert_eq!(scale_and_round([75, 50], [16, 9]), [140, 90]);
}

#[test]
fn scale_and_round_keeps_exact_multiples() {
    assert_eq!(scale_and_round([90, 45], [16, 9]), [160, 80]);
    assert_eq!(scale_and_round([0, 0], [16, 9]), [0, 0]);
    assert_eq!(scale_and_round([1, 1], [1, 1000]), [10, 10]);
}

#[test]
fn checked_scale_and_round_rejects_bad_references_and_overflow() {
    assert_eq!(checked_scale_and_round([75, 50], [0, 9]), None);
    assert_eq!(checked_scale_and_round([75, 50], [16, 0]), None);
    assert_eq!(checked_scale_and_round([usize::MAX, 50], [2, 1]), None);
    assert_eq!(checked_scale_and_round([75, 50], [16, 9]), Some([140, 90]));
}

#[test]
fn version_text_shows_major_and_minor_of_a_release() {
    assert_eq!(get_version_text("1.2.0"), "(v1.2)");
    assert_eq!(get_version_text("0.10.0"), "(v0.10)");
}

#[test]
fn version_text_marks_a_version_under_test() {
    assert_eq!(get_version_text("1.2.3"), "(v1.2.forTest3)");
    assert_eq!(get_version_text("12.0.45-alpha+build7"), "(v12.0.forTest45)");
}

#[test]
fn version_text_of_what_is_no_version() {
    assert_eq!(get_version_text(""), "(..)");
    assert_eq!(get_version_text("1.2"), "(..)");
    assert_eq!(get_version_text("1.02.3"), "(..)");
    assert_eq!(get_version_text("one.two.three"), "(..)");
}

#[test]
fn version_text_from_numbers_covers_every_case() {
    assert_eq!(version_text_from_numbers(None), "(..)");
    assert_eq!(version_text_from_numbers(Some((3, 4, 0))), "(v3.4)");
    assert_eq!(version_text_from_numbers(Some((3, 4, 5))), "(v3.4.forTest5)");
    assert_eq!(
        version_text_from_numbers(Some((u64::MAX, 0, 1))),
        "(v18446744073709551615.0.forTest1)"
    );
}
