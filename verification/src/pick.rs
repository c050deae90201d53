//! The three stages in which a color is drawn: first the hue, then the
//! saturation within what the dictionary allows for that hue, then the
//! brightness above what the dictionary asks for that hue and saturation.

use crate::color_dictionary::curve_is_valid;
use crate::color_dictionary::lemma_agreeing_dictionaries_look_up_alike;
use crate::color_dictionary::lemma_interpolate_bounds;
use crate::color_dictionary::lemma_minimum_is_percentage;
use crate::color_dictionary::lemma_minimum_on_segment;
use crate::color_dictionary::lemma_standard_fields;
use crate::color_dictionary::lemma_standard_is_valid;
use crate::color_dictionary::lemma_ranges_are_covered;
use crate::color_dictionary::lemma_standard_lookup;
use crate::color_dictionary::minimum_on_curve;
use crate::color_dictionary::on_segment;
use crate::color_dictionary::standard_curve;
use crate::color_dictionary::standard_gamut_of_hue;
use crate::color_dictionary::standard_range;
use crate::color_dictionary::ColorDictionary;
use crate::options::Gamut;
use crate::options::Luminosity;
use crate::rng::draw;
use crate::rng::drawn_number;
use crate::rng::state_after_draw;
use rand::rngs::SmallRng;
use vstd::prelude::*;

verus! {

/// The interval that is drawn from when the bounds `min` and `max` are asked
/// for, as a pair of its lowest number and the number after its highest.
/// Bounds in the wrong order are swapped, and equal bounds stand for the one
/// number they name.
pub open spec fn sampling_interval(min: int, max: int) -> (int, int) {
    let low = if min > max {
        max
    } else {
        min
    };
    let high = if min > max {
        min
    } else {
        max
    };
    if low == high {
        (low, high + 1)
    } else {
        (low, high)
    }
}

/// The number `drawn` lies in the interval that stands for the bounds.
pub open spec fn within(bounds: (int, int), drawn: int) -> bool {
    sampling_interval(bounds.0, bounds.1).0 <= drawn < sampling_interval(bounds.0, bounds.1).1
}

/// The number that a generator in the state `state` draws when the bounds
/// are asked for: what it gives for the interval that stands for them.
pub open spec fn drawn_within(state: SmallRng, bounds: (int, int)) -> int {
    drawn_number(
        state,
        sampling_interval(bounds.0, bounds.1).0 as i64,
        sampling_interval(bounds.0, bounds.1).1 as i64,
    ) as int
}

/// The state that a generator in the state `state` is left in when it has
/// drawn a number for the bounds.
pub open spec fn state_after_within(state: SmallRng, bounds: (int, int)) -> SmallRng {
    state_after_draw(
        state,
        sampling_interval(bounds.0, bounds.1).0 as i64,
        sampling_interval(bounds.0, bounds.1).1 as i64,
    )
}

/// The bounds between which the hue angle is drawn. Where no gamut is asked
/// for they hold the whole circle, with 360 as a second name for the angle 0.
/// Where one is asked for they hold the gamut's range with both of its ends:
/// the upper bound is the angle after the range's highest.
pub open spec fn hue_bounds(dictionary: ColorDictionary, gamut: Option<Gamut>) -> (int, int) {
    match gamut {
        None => (0, 361),
        Some(gamut) => (
            dictionary.spec_color_from_gamut(gamut)@.range.0,
            dictionary.spec_color_from_gamut(gamut)@.range.1 + 1,
        ),
    }
}

/// The dictionary has a category for every hue angle that is drawn with the
/// hue setting. Where a gamut is asked for that is so of every dictionary,
/// since the angle is drawn from one of its ranges; where none is, the
/// dictionary must cover the whole circle.
pub open spec fn covers_draws(dictionary: ColorDictionary, gamut: Option<Gamut>) -> bool {
    gamut.is_none() ==> dictionary.covers_circle()
}

/// The bounds between which the saturation is drawn for a hue angle.
pub open spec fn saturation_bounds(
    dictionary: ColorDictionary,
    luminosity: Option<Luminosity>,
    hue: int,
) -> (int, int) {
    let range = dictionary.spec_color_from_hue(hue)@.saturation_range;
    match luminosity {
        Some(Luminosity::Random) => (0, 100),
        Some(Luminosity::Bright) => (55, range.1),
        Some(Luminosity::Dark) => (range.1 - 10, range.1),
        Some(Luminosity::Light) => (range.0, 55),
        None => range,
    }
}

/// The bounds between which the brightness is drawn for a hue angle and a
/// saturation.
pub open spec fn value_bounds(
    dictionary: ColorDictionary,
    luminosity: Option<Luminosity>,
    hue: int,
    saturation: int,
) -> (int, int) {
    let b_min = minimum_on_curve(dictionary.spec_color_from_hue(hue)@.lower_bounds, saturation);
    let b_max: int = 100;
    match luminosity {
        Some(Luminosity::Random) => (0, 100),
        Some(Luminosity::Light) => ((b_max + b_min) / 2, b_max),
        Some(Luminosity::Dark) => (b_min, b_min + 20),
        _ => (b_min, b_max),
    }
}

/// The hue of a color whose angle is `angle`: the angle brought into the
/// degrees from 0 to 359 by whole turns.
pub open spec fn hue_of_angle(angle: int) -> int {
    angle % 360
}

/// Computes the interval that is drawn from for the bounds `min` and `max`.
pub fn interval_for(min: i64, max: i64) -> (interval: (i64, i64))
    requires
        min == max ==> max < i64::MAX,
    ensures
        (interval.0 as int, interval.1 as int) == sampling_interval(min as int, max as int),
        interval.0 < interval.1,
{
    let mut low = min;
    let mut high = max;
    if low > high {
        low = max;
        high = min;
    }
    if low == high {
        high += 1;
    }
    (low, high)
}

/// Generates a random number within the given bounds: the number that the
/// generator draws from the interval that `sampling_interval` gives for them.
pub fn random_within(rng: &mut SmallRng, min: i64, max: i64) -> (drawn: i64)
    requires
        min == max ==> max < i64::MAX,
    ensures
        within((min as int, max as int), drawn as int),
        drawn == drawn_within(*old(rng), (min as int, max as int)),
        *final(rng) == state_after_within(*old(rng), (min as int, max as int)),
{
    let (low, high) = interval_for(min, max);
    draw(rng, low, high)
}

/// Computes the bounds between which the hue angle is drawn.
pub fn hue_range(dictionary: &ColorDictionary, gamut: &Option<Gamut>) -> (bounds: (i64, i64))
    requires
        dictionary.wf(),
    ensures
        (bounds.0 as int, bounds.1 as int) == hue_bounds(*dictionary, *gamut),
        -360 <= bounds.0 < bounds.1 <= 361,
{
    match gamut {
        None => (0, 361),
        Some(gamut) => {
            let color = dictionary.get_color_from_gamut(gamut);
            proof {
                dictionary.lemma_categories_are_well_formed(*gamut);
            }
            (color.range[0], color.range[1] + 1)
        },
    }
}

/// Computes the bounds between which the saturation is drawn for a hue angle.
pub fn saturation_range(
    dictionary: &ColorDictionary,
    luminosity: &Option<Luminosity>,
    hue: &i64,
) -> (bounds: (i64, i64))
    requires
        dictionary.wf(),
        dictionary.covers(*hue as int),
    ensures
        (bounds.0 as int, bounds.1 as int) == saturation_bounds(
            *dictionary,
            *luminosity,
            *hue as int,
        ),
        0 <= bounds.1 <= 100,
        -10 <= bounds.0 <= 100,
{
    let s_range: (i64, i64) = dictionary.get_saturation_range(hue);
    proof {
        dictionary.lemma_categories_are_well_formed(dictionary.gamut_of_hue(*hue as int).unwrap());
    }

    let s_min = s_range.0;
    let s_max = s_range.1;

    match luminosity {
        Some(Luminosity::Random) => (0, 100),
        Some(Luminosity::Bright) => (55, s_max),
        Some(Luminosity::Dark) => (s_max - 10, s_max),
        Some(Luminosity::Light) => (s_min, 55),
        _ => (s_min, s_max),
    }
}

/// Computes the bounds between which the brightness is drawn for a hue angle
/// and a saturation.
pub fn value_range(
    dictionary: &ColorDictionary,
    luminosity: &Option<Luminosity>,
    hue: &i64,
    saturation: &i64,
) -> (bounds: (i64, i64))
    requires
        dictionary.wf(),
        dictionary.covers(*hue as int),
    ensures
        (bounds.0 as int, bounds.1 as int) == value_bounds(
            *dictionary,
            *luminosity,
            *hue as int,
            *saturation as int,
        ),
        0 <= bounds.0 <= 100,
        20 <= bounds.1 <= 120,
{
    let b_min = dictionary.get_minimum_value(hue, saturation);
    let b_max: i64 = 100;

    match luminosity {
        Some(Luminosity::Random) => (0, 100),
        Some(Luminosity::Light) => ((b_max + b_min) / 2, b_max),
        Some(Luminosity::Dark) => (b_min, b_min + 20),
        _ => (b_min, b_max),
    }
}

/// Picks a random hue angle based on the hue setting.
pub fn hue(rng: &mut SmallRng, dictionary: &ColorDictionary, gamut: &Option<Gamut>) -> (angle: i64)
    requires
        dictionary.wf(),
    ensures
        within(hue_bounds(*dictionary, *gamut), angle as int),
        angle == drawn_within(*old(rng), hue_bounds(*dictionary, *gamut)),
        *final(rng) == state_after_within(*old(rng), hue_bounds(*dictionary, *gamut)),
        -360 <= angle <= 360,
        covers_draws(*dictionary, *gamut) ==> dictionary.covers(angle as int),
{
    let bounds = hue_range(dictionary, gamut);
    let angle = random_within(rng, bounds.0, bounds.1);
    proof {
        if let Some(gamut) = *gamut {
            dictionary.lemma_categories_are_well_formed(gamut);
            lemma_ranges_are_covered(*dictionary, gamut, angle as int);
        }
    }
    angle
}

/// Picks a random saturation value based on the hue and luminosity setting.
///
/// Parameters:
/// * `hue`: The hue angle of the color.
pub fn saturation(
    rng: &mut SmallRng,
    dictionary: &ColorDictionary,
    luminosity: &Option<Luminosity>,
    hue: &i64,
) -> (drawn: i64)
    requires
        dictionary.wf(),
        dictionary.covers(*hue as int),
    ensures
        within(saturation_bounds(*dictionary, *luminosity, *hue as int), drawn as int),
        drawn == drawn_within(
            *old(rng),
            saturation_bounds(*dictionary, *luminosity, *hue as int),
        ),
        *final(rng) == state_after_within(
            *old(rng),
            saturation_bounds(*dictionary, *luminosity, *hue as int),
        ),
        -10 <= drawn <= 100,
{
    let bounds = saturation_range(dictionary, luminosity, hue);
    random_within(rng, bounds.0, bounds.1)
}

/// Picks a random brightness value based on the hue and saturation, as well
/// as the luminosity setting.
///
/// Parameters:
/// * `hue`: The hue angle of the color.
/// * `saturation`: The saturation of the color.
pub fn value(
    rng: &mut SmallRng,
    dictionary: &ColorDictionary,
    luminosity: &Option<Luminosity>,
    hue: &i64,
    saturation: &i64,
) -> (drawn: i64)
    requires
        dictionary.wf(),
        dictionary.covers(*hue as int),
    ensures
        within(
            value_bounds(*dictionary, *luminosity, *hue as int, *saturation as int),
            drawn as int,
        ),
        drawn == drawn_within(
            *old(rng),
            value_bounds(*dictionary, *luminosity, *hue as int, *saturation as int),
        ),
        *final(rng) == state_after_within(
            *old(rng),
            value_bounds(*dictionary, *luminosity, *hue as int, *saturation as int),
        ),
        0 <= drawn < 120,
{
    let bounds = value_range(dictionary, luminosity, hue, saturation);
    random_within(rng, bounds.0, bounds.1)
}

/// Brings a hue angle into the degrees from 0 to 359 by whole turns: 360
/// becomes 0, and -26 becomes 334.
pub fn normalize_hue(angle: i64) -> (hue: i64)
    ensures
        hue == hue_of_angle(angle as int),
        0 <= hue < 360,
{
    let remainder = angle % 360;
    if remainder < 0 {
        remainder + 360
    } else {
        remainder
    }
}

/// The nearest percentage to a number: the number itself from 0 to 100, 0
/// below that and 100 above.
pub open spec fn percentage(number: int) -> int {
    if number < 0 {
        0
    } else if number > 100 {
        100
    } else {
        number
    }
}

/// The color that the three draws stand for: the hue of the angle, and the
/// saturation and the brightness as percentages.
pub open spec fn sampled_color(angle: int, saturation: int, brightness: int) -> (int, int, int) {
    (hue_of_angle(angle), percentage(saturation), percentage(brightness))
}

/// The hue angle, the saturation and the brightness are draws that the three
/// stages can make, one after the other, with these settings.
pub open spec fn may_draw(
    dictionary: ColorDictionary,
    gamut: Option<Gamut>,
    luminosity: Option<Luminosity>,
    angle: int,
    saturation: int,
    brightness: int,
) -> bool {
    &&& within(hue_bounds(dictionary, gamut), angle)
    &&& within(saturation_bounds(dictionary, luminosity, angle), saturation)
    &&& within(value_bounds(dictionary, luminosity, angle, saturation), brightness)
}

/// The state of a generator after the draw of the hue angle.
pub open spec fn state_after_hue(
    state: SmallRng,
    dictionary: ColorDictionary,
    gamut: Option<Gamut>,
) -> SmallRng {
    state_after_within(state, hue_bounds(dictionary, gamut))
}

/// The hue angle that a generator in the state `state` draws.
pub open spec fn drawn_hue(state: SmallRng, dictionary: ColorDictionary, gamut: Option<Gamut>) -> int {
    drawn_within(state, hue_bounds(dictionary, gamut))
}

/// The saturation that is drawn after the hue angle, by the generator as the
/// draw of the hue angle has left it.
pub open spec fn drawn_saturation(
    state: SmallRng,
    dictionary: ColorDictionary,
    gamut: Option<Gamut>,
    luminosity: Option<Luminosity>,
) -> int {
    drawn_within(
        state_after_hue(state, dictionary, gamut),
        saturation_bounds(dictionary, luminosity, drawn_hue(state, dictionary, gamut)),
    )
}

/// The state of a generator after the draws of the hue angle and of the
/// saturation.
pub open spec fn state_after_saturation(
    state: SmallRng,
    dictionary: ColorDictionary,
    gamut: Option<Gamut>,
    luminosity: Option<Luminosity>,
) -> SmallRng {
    state_after_within(
        state_after_hue(state, dictionary, gamut),
        saturation_bounds(dictionary, luminosity, drawn_hue(state, dictionary, gamut)),
    )
}

/// The bounds between which the brightness is drawn after the hue angle and
/// the saturation.
pub open spec fn bounds_of_drawn_value(
    state: SmallRng,
    dictionary: ColorDictionary,
    gamut: Option<Gamut>,
    luminosity: Option<Luminosity>,
) -> (int, int) {
    value_bounds(
        dictionary,
        luminosity,
        drawn_hue(state, dictionary, gamut),
        drawn_saturation(state, dictionary, gamut, luminosity),
    )
}

/// The brightness that is drawn last, by the generator as the first two
/// draws have left it.
pub open spec fn drawn_value(
    state: SmallRng,
    dictionary: ColorDictionary,
    gamut: Option<Gamut>,
    luminosity: Option<Luminosity>,
) -> int {
    drawn_within(
        state_after_saturation(state, dictionary, gamut, luminosity),
        bounds_of_drawn_value(state, dictionary, gamut, luminosity),
    )
}

/// The color that a generator in the state `state` gives with these
/// settings: the color of the three draws that it makes one after the other.
pub open spec fn drawn_color(
    state: SmallRng,
    dictionary: ColorDictionary,
    gamut: Option<Gamut>,
    luminosity: Option<Luminosity>,
) -> (int, int, int) {
    sampled_color(
        drawn_hue(state, dictionary, gamut),
        drawn_saturation(state, dictionary, gamut, luminosity),
        drawn_value(state, dictionary, gamut, luminosity),
    )
}

/// The state that a generator in the state `state` is left in when it has
/// given a color with these settings.
pub open spec fn state_after_color(
    state: SmallRng,
    dictionary: ColorDictionary,
    gamut: Option<Gamut>,
    luminosity: Option<Luminosity>,
) -> SmallRng {
    state_after_within(
        state_after_saturation(state, dictionary, gamut, luminosity),
        bounds_of_drawn_value(state, dictionary, gamut, luminosity),
    )
}

/// Forms the color that three draws stand for. With the standard calibration
/// the saturation and the brightness that are drawn are percentages already.
/// A dictionary whose curves end below 10 percent saturation, or lie above 80
/// percent brightness at their far end, can push a draw for the dark
/// luminosity out of the percentages: it is brought to the nearest one.
pub fn color_of_draws(angle: i64, saturation: i64, brightness: i64) -> (hsv: (i64, i64, i64))
    ensures
        (hsv.0 as int, hsv.1 as int, hsv.2 as int) == sampled_color(
            angle as int,
            saturation as int,
            brightness as int,
        ),
        0 <= hsv.0 < 360,
        0 <= hsv.1 <= 100,
        0 <= hsv.2 <= 100,
{
    let s = if saturation < 0 {
        0
    } else if saturation > 100 {
        100
    } else {
        saturation
    };
    let b = if brightness < 0 {
        0
    } else if brightness > 100 {
        100
    } else {
        brightness
    };
    (normalize_hue(angle), s, b)
}

/// In the standard calibration every curve asks for a brightness of at most
/// 80 percent at the saturations from 90 percent on, from which the dark
/// luminosity draws.
pub proof fn lemma_standard_curves_end_low(gamut: Gamut, saturation: int)
    requires
        90 <= saturation,
    ensures
        0 <= minimum_on_curve(standard_curve(gamut), saturation) <= 80,
{
    let curve = standard_curve(gamut);
    lemma_standard_is_valid();
    assert(curve_is_valid(standard_curve(gamut)));
    lemma_minimum_is_percentage(curve, saturation);
    if saturation < 100 {
        let i = curve.len() - 2;
        assert(on_segment(curve, saturation, i));
        lemma_minimum_on_segment(curve, saturation, i);
        lemma_interpolate_bounds(curve[i], curve[i + 1], saturation);
    }
}

/// With the standard calibration the three stages draw a hue angle from -26
/// to 360 degrees, which the dictionary looks up in a range that holds it, and
/// a saturation and a brightness that are percentages: the color of the draws
/// is the draws themselves, with the angle brought into the degrees from 0 to
/// 359.
pub proof fn lemma_standard_draws_are_percentages(
    dictionary: ColorDictionary,
    gamut: Option<Gamut>,
    luminosity: Option<Luminosity>,
    angle: int,
    saturation: int,
    brightness: int,
)
    requires
        dictionary.wf(),
        dictionary.is_standard(),
        may_draw(dictionary, gamut, luminosity, angle, saturation, brightness),
    ensures
        -26 <= angle <= 360,
        dictionary.gamut_of_hue(angle) == Some(standard_gamut_of_hue(angle)),
        0 <= saturation < 100,
        0 <= brightness <= 100,
        sampled_color(angle, saturation, brightness) == (
            hue_of_angle(angle),
            saturation,
            brightness,
        ),
{
    lemma_standard_fields(dictionary);
    lemma_standard_is_valid();
    if let Some(asked) = gamut {
        assert(dictionary.spec_color_from_gamut(asked)@.range == standard_range(asked));
    }
    assert(-26 <= angle <= 360);
    lemma_standard_lookup(dictionary, angle);
    let found = dictionary.gamut_of_hue(angle).unwrap();
    let info = dictionary.spec_color_from_gamut(found);
    dictionary.lemma_categories_are_well_formed(found);
    let curve = info@.lower_bounds;
    assert(curve == standard_curve(found));
    assert(curve.last().0 == 100 && 0 <= curve.first().0 <= 30) by {
        lemma_standard_curve_ends(found);
    }
    assert(0 <= saturation < 100);
    lemma_minimum_is_percentage(curve, saturation);
    if luminosity == Some(Luminosity::Dark) {
        lemma_standard_curves_end_low(found, saturation);
    }
}

/// Every curve of the standard calibration starts at a saturation of at most
/// 30 percent and ends at 100 percent.
pub proof fn lemma_standard_curve_ends(gamut: Gamut)
    ensures
        0 <= standard_curve(gamut).first().0 <= 30,
        standard_curve(gamut).last().0 == 100,
{
}

/// With two dictionaries that keep the same information for every gamut, a
/// generator in one state gives the same color with the same settings, and is
/// left in the same state.
pub proof fn lemma_agreeing_dictionaries_draw_alike(
    state: SmallRng,
    first: ColorDictionary,
    second: ColorDictionary,
    gamut: Option<Gamut>,
    luminosity: Option<Luminosity>,
)
    requires
        first.agrees_with(&second),
    ensures
        drawn_color(state, first, gamut, luminosity) == drawn_color(
            state,
            second,
            gamut,
            luminosity,
        ),
        state_after_color(state, first, gamut, luminosity) == state_after_color(
            state,
            second,
            gamut,
            luminosity,
        ),
{
    if let Some(asked) = gamut {
        assert(first.spec_color_from_gamut(asked)@ == second.spec_color_from_gamut(asked)@);
    }
    assert(hue_bounds(first, gamut) == hue_bounds(second, gamut));
    let angle = drawn_hue(state, first, gamut);
    lemma_agreeing_dictionaries_look_up_alike(first, second, angle);
    assert(saturation_bounds(first, luminosity, angle) == saturation_bounds(
        second,
        luminosity,
        angle,
    ));
    let saturation = drawn_saturation(state, first, gamut, luminosity);
    assert(value_bounds(first, luminosity, angle, saturation) == value_bounds(
        second,
        luminosity,
        angle,
        saturation,
    ));
}

} // verus!
