use random_color::color_dictionary::{is_valid_input, ColorDictionary, ColorInformation};
use random_color::options::Gamut;

const GAMUTS: [Gamut; 8] = [
    Gamut::Monochrome,
    Gamut::Red,
    Gamut::Orange,
    Gamut::Yellow,
    Gamut::Green,
    Gamut::Blue,
    Gamut::Purple,
    Gamut::Pink,
];

fn categories_holding(dictionary: &ColorDictionary, hue: i64) -> usize {
    GAMUTS
        .iter()
        .filter(|gamut| dictionary.get_color_from_gamut(gamut).has_between_range(&hue))
        .count()
}

#[test]
fn new_information_derives_its_ranges_from_the_end_points() {
    let info = ColorInformation::new([5, 10], vec![[10, 90], [30, 70], [50, 40]]);

    assert_eq!(info.range, [5, 10]);
    assert_eq!(info.lower_bounds, vec![[10, 90], [30, 70], [50, 40]]);
    assert_eq!(info.saturation_range, [10, 50]);
    assert_eq!(info.value_range, [40, 90]);
    assert!(info.is_well_formed());
}

#[test]
fn value_range_comes_from_the_ends_not_from_the_extremes() {
    let info = ColorInformation::new([0, 0], vec![[0, 50], [40, 95], [80, 10], [100, 60]]);

    assert_eq!(info.value_range, [60, 50]);
}

#[test]
fn has_between_range_includes_both_ends() {
    let info = ColorInformation::new([-26, 18], vec![[20, 100], [100, 50]]);

    assert!(info.has_between_range(&-26));
    assert!(info.has_between_range(&0));
    assert!(info.has_between_range(&18));
    assert!(!info.has_between_range(&-27));
    assert!(!info.has_between_range(&19));
    assert!(!info.has_between_range(&334));
}

#[test]
fn checked_new_accepts_valid_data() {
    let info = ColorInformation::checked_new([19, 46], vec![[20, 100], [100, 70]]);

    assert_eq!(info, Some(ColorInformation::new([19, 46], vec![[20, 100], [100, 70]])));
}

#[test]
fn checked_new_refuses_an_empty_curve() {
    assert_eq!(ColorInformation::checked_new([0, 10], vec![]), None);
}

#[test]
fn checked_new_refuses_a_single_point() {
    assert_eq!(ColorInformation::checked_new([0, 10], vec![[20, 100]]), None);
}

#[test]
fn checked_new_refuses_saturations_that_do_not_increase() {
    assert_eq!(ColorInformation::checked_new([0, 10], vec![[20, 100], [20, 90]]), None);
    assert_eq!(ColorInformation::checked_new([0, 10], vec![[20, 100], [50, 90], [40, 80]]), None);
}

#[test]
fn checked_new_refuses_points_that_are_no_percentages() {
    assert_eq!(ColorInformation::checked_new([0, 10], vec![[-1, 100], [50, 90]]), None);
    assert_eq!(ColorInformation::checked_new([0, 10], vec![[0, 100], [101, 90]]), None);
    assert_eq!(ColorInformation::checked_new([0, 10], vec![[0, 101], [50, 90]]), None);
    assert_eq!(ColorInformation::checked_new([0, 10], vec![[0, 100], [50, -1]]), None);
}

#[test]
fn checked_new_refuses_an_invalid_range() {
    assert_eq!(ColorInformation::checked_new([10, 0], vec![[0, 100], [50, 90]]), None);
    assert_eq!(ColorInformation::checked_new([-361, 0], vec![[0, 100], [50, 90]]), None);
    assert_eq!(ColorInformation::checked_new([0, 361], vec![[0, 100], [50, 90]]), None);
}

#[test]
fn is_valid_input_agrees_with_checked_new() {
    assert!(is_valid_input(&[-360, 360], &vec![[0, 0], [100, 100]]));
    assert!(!is_valid_input(&[0, 0], &vec![[100, 0], [0, 0]]));
}

#[test]
fn information_with_wrong_derived_ranges_is_not_well_formed() {
    let mut info = ColorInformation::new([0, 10], vec![[10, 90], [50, 40]]);
    assert!(info.is_well_formed());

    info.saturation_range = [0, 50];
    assert!(!info.is_well_formed());

    info.saturation_range = [10, 50];
    info.value_range = [90, 40];
    assert!(!info.is_well_formed());

    info.value_range = [40, 90];
    info.lower_bounds = vec![[10, 90]];
    assert!(!info.is_well_formed());
}

#[test]
fn standard_dictionary_holds_the_calibration() {
    let dictionary = ColorDictionary::new();

    assert!(dictionary.is_well_formed());
    assert_eq!(dictionary.monochrome.range, [0, 0]);
    assert_eq!(dictionary.monochrome.lower_bounds, vec![[0, 0], [100, 0]]);
    assert_eq!(dictionary.red.range, [-26, 18]);
    assert_eq!(dictionary.red.lower_bounds.len(), 9);
    assert_eq!(dictionary.orange.range, [19, 46]);
    assert_eq!(dictionary.orange.lower_bounds.len(), 7);
    assert_eq!(dictionary.yellow.range, [47, 62]);
    assert_eq!(dictionary.yellow.saturation_range, [25, 100]);
    assert_eq!(dictionary.yellow.value_range, [75, 100]);
    assert_eq!(dictionary.green.range, [63, 178]);
    assert_eq!(dictionary.green.saturation_range, [30, 100]);
    assert_eq!(dictionary.blue.range, [179, 257]);
    assert_eq!(
        dictionary.blue.lower_bounds,
        vec![
            [20, 100],
            [30, 86],
            [40, 80],
            [50, 74],
            [60, 60],
            [70, 52],
            [80, 44],
            [90, 39],
            [100, 35]
        ]
    );
    assert_eq!(dictionary.blue.value_range, [35, 100]);
    assert_eq!(dictionary.purple.range, [258, 282]);
    assert_eq!(dictionary.pink.range, [283, 334]);
    assert_eq!(dictionary.pink.lower_bounds.len(), 7);
}

#[test]
fn default_dictionary_is_the_standard_one() {
    assert_eq!(ColorDictionary::default(), ColorDictionary::new());
}

#[test]
fn dictionary_with_a_broken_category_is_not_well_formed() {
    let mut dictionary = ColorDictionary::new();
    dictionary.green.lower_bounds = vec![[30, 100]];

    assert!(!dictionary.is_well_formed());
}

#[test]
fn get_color_from_gamut_gives_each_category() {
    let dictionary = ColorDictionary::new();

    assert_eq!(dictionary.get_color_from_gamut(&Gamut::Monochrome), &dictionary.monochrome);
    assert_eq!(dictionary.get_color_from_gamut(&Gamut::Red), &dictionary.red);
    assert_eq!(dictionary.get_color_from_gamut(&Gamut::Orange), &dictionary.orange);
    assert_eq!(dictionary.get_color_from_gamut(&Gamut::Yellow), &dictionary.yellow);
    assert_eq!(dictionary.get_color_from_gamut(&Gamut::Green), &dictionary.green);
    assert_eq!(dictionary.get_color_from_gamut(&Gamut::Blue), &dictionary.blue);
    assert_eq!(dictionary.get_color_from_gamut(&Gamut::Purple), &dictionary.purple);
    assert_eq!(dictionary.get_color_from_gamut(&Gamut::Pink), &dictionary.pink);
}

#[test]
fn every_hue_from_1_to_334_lies_in_exactly_one_range() {
    let dictionary = ColorDictionary::new();

    for hue in 1..=334 {
        assert_eq!(categories_holding(&dictionary, hue), 1, "hue {}", hue);
    }
}

#[test]
fn monochrome_holds_only_the_hue_zero() {
    let dictionary = ColorDictionary::new();

    for hue in -400..=400 {
        assert_eq!(dictionary.monochrome.has_between_range(&hue), hue == 0, "hue {}", hue);
    }
}

#[test]
fn the_hue_zero_lies_in_two_ranges() {
    let dictionary = ColorDictionary::new();

    assert_eq!(categories_holding(&dictionary, 0), 2);
    assert!(dictionary.monochrome.has_between_range(&0));
    assert!(dictionary.red.has_between_range(&0));
}

#[test]
fn hues_above_334_lie_in_red_a_full_turn_lower() {
    let dictionary = ColorDictionary::new();

    for hue in 335..360 {
        assert_eq!(categories_holding(&dictionary, hue), 0, "hue {}", hue);
        assert_eq!(categories_holding(&dictionary, hue - 360), 1, "hue {}", hue);
        assert!(dictionary.red.has_between_range(&(hue - 360)));
    }
}

#[test]
fn get_color_from_hue_finds_the_category() {
    let dictionary = ColorDictionary::new();

    assert_eq!(dictionary.get_color_from_hue(&0), &dictionary.monochrome);
    assert_eq!(dictionary.get_color_from_hue(&1), &dictionary.red);
    assert_eq!(dictionary.get_color_from_hue(&18), &dictionary.red);
    assert_eq!(dictionary.get_color_from_hue(&-26), &dictionary.red);
    assert_eq!(dictionary.get_color_from_hue(&-1), &dictionary.red);
    assert_eq!(dictionary.get_color_from_hue(&19), &dictionary.orange);
    assert_eq!(dictionary.get_color_from_hue(&46), &dictionary.orange);
    assert_eq!(dictionary.get_color_from_hue(&47), &dictionary.yellow);
    assert_eq!(dictionary.get_color_from_hue(&62), &dictionary.yellow);
    assert_eq!(dictionary.get_color_from_hue(&63), &dictionary.green);
    assert_eq!(dictionary.get_color_from_hue(&178), &dictionary.green);
    assert_eq!(dictionary.get_color_from_hue(&179), &dictionary.blue);
    assert_eq!(dictionary.get_color_from_hue(&257), &dictionary.blue);
    assert_eq!(dictionary.get_color_from_hue(&258), &dictionary.purple);
    assert_eq!(dictionary.get_color_from_hue(&282), &dictionary.purple);
    assert_eq!(dictionary.get_color_from_hue(&283), &dictionary.pink);
    assert_eq!(dictionary.get_color_from_hue(&334), &dictionary.pink);
}

#[test]
fn get_color_from_hue_wraps_through_the_top_of_the_circle() {
    let dictionary = ColorDictionary::new();

    assert_eq!(dictionary.get_color_from_hue(&335), &dictionary.red);
    assert_eq!(dictionary.get_color_from_hue(&350), &dictionary.red);
    assert_eq!(dictionary.get_color_from_hue(&359), &dictionary.red);
    assert_eq!(dictionary.get_color_from_hue(&360), &dictionary.monochrome);
    assert_eq!(dictionary.get_color_from_hue(&361), &dictionary.red);
    assert_eq!(dictionary.get_color_from_hue(&400), &dictionary.orange);
}

#[test]
fn get_gamut_from_hue_finds_the_category() {
    let dictionary = ColorDictionary::new();

    assert_eq!(dictionary.get_gamut_from_hue(&0), Some(Gamut::Monochrome));
    assert_eq!(dictionary.get_gamut_from_hue(&-26), Some(Gamut::Red));
    assert_eq!(dictionary.get_gamut_from_hue(&18), Some(Gamut::Red));
    assert_eq!(dictionary.get_gamut_from_hue(&19), Some(Gamut::Orange));
    assert_eq!(dictionary.get_gamut_from_hue(&50), Some(Gamut::Yellow));
    assert_eq!(dictionary.get_gamut_from_hue(&100), Some(Gamut::Green));
    assert_eq!(dictionary.get_gamut_from_hue(&191), Some(Gamut::Blue));
    assert_eq!(dictionary.get_gamut_from_hue(&264), Some(Gamut::Purple));
    assert_eq!(dictionary.get_gamut_from_hue(&334), Some(Gamut::Pink));
    assert_eq!(dictionary.get_gamut_from_hue(&335), Some(Gamut::Red));
    assert_eq!(dictionary.get_gamut_from_hue(&359), Some(Gamut::Red));
    assert_eq!(dictionary.get_gamut_from_hue(&360), Some(Gamut::Monochrome));
    assert_eq!(dictionary.get_gamut_from_hue(&694), Some(Gamut::Pink));
}

#[test]
fn a_hue_that_no_range_holds_has_no_category() {
    let dictionary = ColorDictionary::new();

    assert_eq!(dictionary.get_gamut_from_hue(&-27), None);
    assert_eq!(dictionary.get_gamut_from_hue(&695), None);
    assert_eq!(dictionary.get_gamut_from_hue(&1000), None);
    assert_eq!(dictionary.get_gamut_from_hue(&i64::MIN), None);
    assert_eq!(dictionary.get_gamut_from_hue(&i64::MAX), None);
}

#[test]
fn the_standard_dictionary_covers_the_circle() {
    let dictionary = ColorDictionary::new();

    assert!(dictionary.covers_the_circle());
    for hue in -26..=694 {
        assert!(dictionary.get_gamut_from_hue(&hue).is_some(), "hue {}", hue);
    }
}

#[test]
fn a_dictionary_with_a_gap_does_not_cover_the_circle() {
    let mut dictionary = ColorDictionary::new();
    dictionary.green = ColorInformation::new([63, 170], dictionary.green.lower_bounds.clone());

    assert!(dictionary.is_well_formed());
    assert!(!dictionary.covers_the_circle());
    assert_eq!(dictionary.get_gamut_from_hue(&170), Some(Gamut::Green));
    assert_eq!(dictionary.get_gamut_from_hue(&171), None);
    assert_eq!(dictionary.get_gamut_from_hue(&178), None);
    assert_eq!(dictionary.get_gamut_from_hue(&179), Some(Gamut::Blue));
}

#[test]
fn a_dictionary_without_the_wrapped_part_does_not_cover_the_circle() {
    let mut dictionary = ColorDictionary::new();
    dictionary.red = ColorInformation::new([1, 18], dictionary.red.lower_bounds.clone());

    assert!(!dictionary.covers_the_circle());
    assert_eq!(dictionary.get_gamut_from_hue(&335), None);
    assert_eq!(dictionary.get_gamut_from_hue(&360), Some(Gamut::Monochrome));
}

#[test]
fn get_saturation_range_gives_the_curve_ends() {
    let dictionary = ColorDictionary::new();

    assert_eq!(dictionary.get_saturation_range(&0), (0, 100));
    assert_eq!(dictionary.get_saturation_range(&10), (20, 100));
    assert_eq!(dictionary.get_saturation_range(&50), (25, 100));
    assert_eq!(dictionary.get_saturation_range(&100), (30, 100));
    assert_eq!(dictionary.get_saturation_range(&191), (20, 100));
    assert_eq!(dictionary.get_saturation_range(&350), (20, 100));
}

#[test]
fn get_minimum_value_interpolates_between_the_points() {
    let dictionary = ColorDictionary::new();

    // Blue, between (20, 100) and (30, 86): 100 - 14 * 5 / 10.
    assert_eq!(dictionary.get_minimum_value(&191, &25), 93);
    // Blue, between (50, 74) and (60, 60): 74 - 14 * 3 / 10 = 69.8, rounded down.
    assert_eq!(dictionary.get_minimum_value(&191, &53), 69);
    // Red, between (30, 92) and (40, 89): 92 - 3 * 3 / 10 = 91.1, rounded down.
    assert_eq!(dictionary.get_minimum_value(&10, &33), 91);
    // Purple, between (90, 45) and (100, 42): 45 - 3 * 7 / 10 = 42.9, rounded down.
    assert_eq!(dictionary.get_minimum_value(&264, &97), 42);
    // Orange is level between (70, 70) and (100, 70).
    assert_eq!(dictionary.get_minimum_value(&30, &85), 70);
    // Pink, between (40, 86) and (60, 84): 86 - 2 * 10 / 20.
    assert_eq!(dictionary.get_minimum_value(&300, &50), 85);
    assert_eq!(dictionary.get_minimum_value(&0, &50), 0);
}

#[test]
fn get_minimum_value_rounds_down_on_a_rising_segment() {
    let mut dictionary = ColorDictionary::new();
    dictionary.green = ColorInformation::new([63, 178], vec![[0, 10], [30, 20], [100, 100]]);

    // 10 + 10 * 10 / 30 = 13.33.
    assert_eq!(dictionary.get_minimum_value(&100, &10), 13);
    // 10 + 10 * 20 / 30 = 16.67.
    assert_eq!(dictionary.get_minimum_value(&100, &20), 16);
    // 20 + 80 * 35 / 70 = 60.
    assert_eq!(dictionary.get_minimum_value(&100, &65), 60);
}

#[test]
fn get_minimum_value_passes_through_every_point() {
    let dictionary = ColorDictionary::new();
    let hues = [0, 10, 30, 50, 100, 200, 270, 300];

    for (gamut, hue) in GAMUTS.iter().zip(hues.iter()) {
        let info = dictionary.get_color_from_gamut(gamut);
        assert_eq!(dictionary.get_color_from_hue(hue), info);
        for point in info.lower_bounds.iter() {
            assert_eq!(dictionary.get_minimum_value(hue, &point[0]), point[1]);
            assert_eq!(info.minimum_value_at(point[0]), point[1]);
        }
    }
}

#[test]
fn get_minimum_value_stays_between_neighbouring_points() {
    let dictionary = ColorDictionary::new();

    for gamut in GAMUTS.iter() {
        let info = dictionary.get_color_from_gamut(gamut);
        for pair in info.lower_bounds.windows(2) {
            for saturation in pair[0][0]..=pair[1][0] {
                let value = info.minimum_value_at(saturation);
                assert!(value <= pair[0][1].max(pair[1][1]));
                assert!(value >= pair[0][1].min(pair[1][1]));
            }
        }
    }
}

#[test]
fn get_minimum_value_outside_the_curve_is_the_nearest_end() {
    let dictionary = ColorDictionary::new();

    assert_eq!(dictionary.get_minimum_value(&191, &19), 100);
    assert_eq!(dictionary.get_minimum_value(&191, &0), 100);
    assert_eq!(dictionary.get_minimum_value(&191, &-5), 100);
    assert_eq!(dictionary.get_minimum_value(&191, &i64::MIN), 100);
    assert_eq!(dictionary.get_minimum_value(&191, &20), 100);
    assert_eq!(dictionary.get_minimum_value(&191, &100), 35);
    assert_eq!(dictionary.get_minimum_value(&191, &101), 35);
    assert_eq!(dictionary.get_minimum_value(&191, &i64::MAX), 35);
}
