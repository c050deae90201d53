//! The color dictionary: eight hue categories, each an angle range on the hue
//! circle together with a piecewise-linear curve that maps a saturation to the
//! lowest brightness that still looks clean.

use crate::options::Gamut;
use vstd::prelude::*;

verus! {

/// The value at saturation `s` of the straight line through the curve points
/// `left` and `right`, each a pair `(saturation, brightness)`, rounded down to a whole
/// number. The product is taken before the quotient, so the line passes exactly
/// through both points.
pub open spec fn interpolate(left: (int, int), right: (int, int), s: int) -> int {
    left.1 + ((right.1 - left.1) * (s - left.0)) / (right.0 - left.0)
}

/// An angle range is an inclusive pair of degrees within one turn either way.
pub open spec fn range_is_valid(range: (int, int)) -> bool {
    -360 <= range.0 <= range.1 <= 360
}

/// A lower-bound curve has at least two points, each a pair of percentages,
/// with strictly increasing saturations.
pub open spec fn curve_is_valid(curve: Seq<(int, int)>) -> bool {
    &&& curve.len() >= 2
    &&& forall|i: int|
        0 <= i < curve.len() ==> 0 <= (#[trigger] curve[i]).0 <= 100 && 0 <= curve[i].1 <= 100
    &&& forall|i: int, j: int|
        0 <= i < j < curve.len() ==> (#[trigger] curve[i]).0 < (#[trigger] curve[j]).0
}

/// The value of `curve` at `s`, found by walking the segments from segment `i`
/// on: the first segment that ends at or after `s` is interpolated.
pub open spec fn curve_value_from(curve: Seq<(int, int)>, s: int, i: int) -> int
    decreases curve.len() - i,
{
    if i + 1 >= curve.len() {
        curve.last().1
    } else if s <= curve[i + 1].0 {
        interpolate(curve[i], curve[i + 1], s)
    } else {
        curve_value_from(curve, s, i + 1)
    }
}

/// The minimum brightness that `curve` asks for at saturation `s`. Left of the
/// first point and right of the last one the curve continues level, at the
/// brightness of the nearest end point.
pub open spec fn minimum_on_curve(curve: Seq<(int, int)>, s: int) -> int {
    if s <= curve.first().0 {
        curve.first().1
    } else if s >= curve.last().0 {
        curve.last().1
    } else {
        curve_value_from(curve, s, 0)
    }
}

/// Segment `i` of `curve`, which runs from point `i` to point `i + 1`, holds the
/// saturation `s`.
pub open spec fn on_segment(curve: Seq<(int, int)>, s: int, i: int) -> bool {
    0 <= i < curve.len() - 1 && curve[i].0 <= s <= curve[i + 1].0
}

/// The points of a curve as mathematical pairs.
pub open spec fn curve_of(points: Seq<[i64; 2]>) -> Seq<(int, int)> {
    Seq::new(points.len(), |i: int| (points[i][0] as int, points[i][1] as int))
}

/// The pair of integers that a two-element array holds.
pub open spec fn pair_of(a: [i64; 2]) -> (int, int) {
    (a[0] as int, a[1] as int)
}

/// On a segment the line runs from the left point's brightness to the right
/// point's, and stays between the two.
pub proof fn lemma_interpolate_bounds(left: (int, int), right: (int, int), s: int)
    requires
        left.0 < right.0,
        left.0 <= s <= right.0,
    ensures
        s == left.0 ==> interpolate(left, right, s) == left.1,
        s == right.0 ==> interpolate(left, right, s) == right.1,
        left.1 <= right.1 ==> left.1 <= interpolate(left, right, s) <= right.1,
        right.1 <= left.1 ==> right.1 <= interpolate(left, right, s) <= left.1,
{
    let dv = right.1 - left.1;
    let ds = s - left.0;
    let d = right.0 - left.0;
    assert(dv * 0 == 0) by (nonlinear_arith);
    assert(0int / d == 0) by (nonlinear_arith)
        requires
            d > 0,
    ;
    assert((dv * d) / d == dv) by (nonlinear_arith)
        requires
            d > 0,
    ;
    assert(dv >= 0 ==> 0 <= (dv * ds) / d <= dv) by (nonlinear_arith)
        requires
            d > 0,
            0 <= ds <= d,
    ;
    assert(dv <= 0 ==> dv <= (dv * ds) / d <= 0) by (nonlinear_arith)
        requires
            d > 0,
            0 <= ds <= d,
    ;
}

/// The curve is continuous at every inner point: the segment that ends there
/// and the segment that starts there both give that point's own brightness.
pub proof fn lemma_curve_is_continuous(curve: Seq<(int, int)>, i: int)
    requires
        curve_is_valid(curve),
        0 < i < curve.len() - 1,
    ensures
        interpolate(curve[i - 1], curve[i], curve[i].0) == curve[i].1,
        interpolate(curve[i], curve[i + 1], curve[i].0) == curve[i].1,
{
    lemma_interpolate_bounds(curve[i - 1], curve[i], curve[i].0);
    lemma_interpolate_bounds(curve[i], curve[i + 1], curve[i].0);
}

/// Walking the segments from any segment at or before the one that holds `s`
/// ends on the line of a segment that holds `s`.
proof fn lemma_curve_value_from(curve: Seq<(int, int)>, s: int, k: int, i: int)
    requires
        curve_is_valid(curve),
        0 <= k <= i < curve.len() - 1,
        curve[i].0 <= s <= curve[i + 1].0,
        k < i ==> curve[k + 1].0 <= s,
    ensures
        curve_value_from(curve, s, k) == interpolate(curve[i], curve[i + 1], s),
    decreases i - k,
{
    if k == i {
    } else if s <= curve[k + 1].0 {
        // `s` sits on the point shared by segment `k` and its successor.
        assert(s == curve[k + 1].0);
        assert(i == k + 1);
        lemma_curve_is_continuous(curve, i);
    } else {
        lemma_curve_value_from(curve, s, k + 1, i);
    }
}

/// Whichever segment holds `s`, the curve's value at `s` is that segment's
/// line at `s`: on a point shared by two segments the choice makes no
/// difference.
pub proof fn lemma_minimum_on_segment(curve: Seq<(int, int)>, s: int, i: int)
    requires
        curve_is_valid(curve),
        on_segment(curve, s, i),
    ensures
        minimum_on_curve(curve, s) == interpolate(curve[i], curve[i + 1], s),
{
    let n = curve.len() as int;
    if s <= curve.first().0 {
        lemma_interpolate_bounds(curve[0], curve[1], s);
    } else if s >= curve.last().0 {
        lemma_interpolate_bounds(curve[n - 2], curve[n - 1], s);
    } else {
        lemma_curve_value_from(curve, s, 0, i);
    }
}

/// The curve's value is a percentage at every saturation.
pub proof fn lemma_minimum_is_percentage(curve: Seq<(int, int)>, s: int)
    requires
        curve_is_valid(curve),
    ensures
        0 <= minimum_on_curve(curve, s) <= 100,
{
    if curve.first().0 < s < curve.last().0 {
        lemma_segment_exists(curve, s, 0);
        let i = choose|i: int| on_segment(curve, s, i);
        lemma_minimum_on_segment(curve, s, i);
        lemma_interpolate_bounds(curve[i], curve[i + 1], s);
    }
}

/// A saturation between the curve's ends lies on one of its segments.
proof fn lemma_segment_exists(curve: Seq<(int, int)>, s: int, k: int)
    requires
        curve_is_valid(curve),
        0 <= k < curve.len() - 1,
        curve[k].0 <= s <= curve.last().0,
    ensures
        exists|i: int| on_segment(curve, s, i),
    decreases curve.len() - k,
{
    if s <= curve[k + 1].0 {
        assert(on_segment(curve, s, k));
    } else {
        lemma_segment_exists(curve, s, k + 1);
    }
}

/// What a `ColorInformation` holds, as mathematical values.
pub struct ColorInformationView {
    /// The inclusive range of hue angles, in degrees.
    pub range: (int, int),
    /// The lower-bound curve: pairs of saturation and minimum brightness.
    pub lower_bounds: Seq<(int, int)>,
    /// The saturations of the curve's first and last point.
    pub saturation_range: (int, int),
    /// The brightnesses of the curve's last and first point.
    pub value_range: (int, int),
}

impl ColorInformationView {
    /// The hue lies in the angle range, both ends included.
    pub open spec fn holds(self, hue: int) -> bool {
        self.range.0 <= hue <= self.range.1
    }

    /// Range and curve are valid, and the two derived ranges are those of the
    /// curve's end points.
    pub open spec fn wf(self) -> bool {
        &&& range_is_valid(self.range)
        &&& curve_is_valid(self.lower_bounds)
        &&& self.saturation_range == (self.lower_bounds.first().0, self.lower_bounds.last().0)
        &&& self.value_range == (self.lower_bounds.last().1, self.lower_bounds.first().1)
    }
}

/// Color information for a given hue.
#[derive(Debug, Clone, PartialEq, Eq)]
pub struct ColorInformation {
    /// The range of the hue.
    pub range: [i64; 2],
    /// The lower bounds of the hue.
    pub lower_bounds: Vec<[i64; 2]>,
    /// The saturation range of the hue.
    pub saturation_range: [i64; 2],
    /// The value range of the hue.
    pub value_range: [i64; 2],
}

impl View for ColorInformation {
    type V = ColorInformationView;

    open spec fn view(&self) -> ColorInformationView {
        ColorInformationView {
            range: pair_of(self.range),
            lower_bounds: curve_of(self.lower_bounds@),
            saturation_range: pair_of(self.saturation_range),
            value_range: pair_of(self.value_range),
        }
    }
}

/// Tells whether `range` and `lower_bounds` describe a valid hue category.
pub fn is_valid_input(range: &[i64; 2], lower_bounds: &Vec<[i64; 2]>) -> (valid: bool)
    ensures
        valid == (range_is_valid(pair_of(*range)) && curve_is_valid(curve_of(lower_bounds@))),
{
    if !(-360 <= range[0] && range[0] <= range[1] && range[1] <= 360) {
        return false;
    }
    let n = lower_bounds.len();
    if n < 2 {
        return false;
    }
    let ghost curve = curve_of(lower_bounds@);
    let mut i: usize = 0;
    while i < n
        invariant
            n == lower_bounds@.len(),
            n >= 2,
            i <= n,
            curve == curve_of(lower_bounds@),
            forall|k: int|
                0 <= k < i ==> 0 <= (#[trigger] curve[k]).0 <= 100 && 0 <= curve[k].1 <= 100,
            forall|a: int, b: int|
                0 <= a < b < i ==> (#[trigger] curve[a]).0 < (#[trigger] curve[b]).0,
        decreases n - i,
    {
        let point = lower_bounds[i];
        assert(curve[i as int] == pair_of(point));
        if !(0 <= point[0] && point[0] <= 100 && 0 <= point[1] && point[1] <= 100) {
            return false;
        }
        if i > 0 {
            let before = lower_bounds[i - 1];
            assert(curve[i - 1] == pair_of(before));
            if !(before[0] < point[0]) {
                return false;
            }
        }
        i += 1;
    }
    true
}

impl ColorInformation {
    /// The information is well formed when its view is.
    pub open spec fn wf(&self) -> bool {
        self@.wf()
    }

    /// Create a new `ColorInformation` instance. The saturation range is taken
    /// from the saturations of the first and the last curve point, the value
    /// range from the brightnesses of the last and the first.
    pub fn new(range: [i64; 2], lower_bounds: Vec<[i64; 2]>) -> (info: Self)
        requires
            range_is_valid(pair_of(range)),
            curve_is_valid(curve_of(lower_bounds@)),
        ensures
            info.wf(),
            info.range == range,
            info.lower_bounds@ == lower_bounds@,
            info@.range == pair_of(range),
            info@.lower_bounds == curve_of(lower_bounds@),
    {
        let ghost curve = curve_of(lower_bounds@);
        let last = lower_bounds.len() - 1;
        assert(curve.first() == pair_of(lower_bounds@[0]));
        assert(curve.last() == pair_of(lower_bounds@[last as int]));

        let saturation_range_min = lower_bounds[0][0];
        let saturation_range_max = lower_bounds[last][0];

        let saturation_range = [saturation_range_min, saturation_range_max];

        let value_range_min = lower_bounds[last][1];
        let value_range_max = lower_bounds[0][1];

        let value_range = [value_range_min, value_range_max];

        Self { range, lower_bounds, saturation_range, value_range }
    }

    /// Create a `ColorInformation` from data that has not been validated:
    /// `None` unless the range and the curve are valid.
    pub fn checked_new(range: [i64; 2], lower_bounds: Vec<[i64; 2]>) -> (made: Option<Self>)
        ensures
            made.is_some() == (range_is_valid(pair_of(range)) && curve_is_valid(
                curve_of(lower_bounds@),
            )),
            made matches Some(info) ==> info.wf() && info@.range == pair_of(range)
                && info@.lower_bounds == curve_of(lower_bounds@),
    {
        if is_valid_input(&range, &lower_bounds) {
            Some(Self::new(range, lower_bounds))
        } else {
            None
        }
    }

    /// Check if the given hue is within the range.
    pub fn has_between_range(&self, hue: &i64) -> (held: bool)
        ensures
            held == self@.holds(*hue as int),
    {
        *hue >= self.range[0] && *hue <= self.range[1]
    }

    /// The value of the lower-bound curve at `saturation`.
    pub fn minimum_value_at(&self, saturation: i64) -> (minimum_value: i64)
        requires
            self.wf(),
        ensures
            minimum_value == minimum_on_curve(self@.lower_bounds, saturation as int),
            0 <= minimum_value <= 100,
    {
        let lower_bounds = &self.lower_bounds;
        let ghost curve = curve_of(lower_bounds@);
        let s = saturation;
        let n = lower_bounds.len();
        proof {
            lemma_minimum_is_percentage(curve, s as int);
        }
        assert(curve.first() == pair_of(lower_bounds@[0]));
        assert(curve.last() == pair_of(lower_bounds@[n - 1]));
        if s <= lower_bounds[0][0] {
            return lower_bounds[0][1];
        }
        if s >= lower_bounds[n - 1][0] {
            return lower_bounds[n - 1][1];
        }
        let mut i: usize = 0;
        while i + 2 < n && s > lower_bounds[i + 1][0]
            invariant
                n == lower_bounds@.len(),
                curve == curve_of(lower_bounds@),
                curve_is_valid(curve),
                i + 1 < n,
                curve[i as int].0 < s < curve.last().0,
                curve_value_from(curve, s as int, 0) == curve_value_from(curve, s as int, i as int),
            decreases n - i,
        {
            assert(curve[i + 1] == pair_of(lower_bounds@[i + 1]));
            i += 1;
        }
        assert(curve[i as int] == pair_of(lower_bounds@[i as int]));
        assert(curve[i + 1] == pair_of(lower_bounds@[i + 1]));
        line_value_at(lower_bounds[i], lower_bounds[i + 1], s)
    }

    /// Tells whether this information is well formed.
    pub fn is_well_formed(&self) -> (well: bool)
        ensures
            well == self.wf(),
    {
        if !is_valid_input(&self.range, &self.lower_bounds) {
            return false;
        }
        let ghost curve = curve_of(self.lower_bounds@);
        let last = self.lower_bounds.len() - 1;
        assert(curve.first() == pair_of(self.lower_bounds@[0]));
        assert(curve.last() == pair_of(self.lower_bounds@[last as int]));
        self.saturation_range[0] == self.lower_bounds[0][0] && self.saturation_range[1]
            == self.lower_bounds[last][0] && self.value_range[0] == self.lower_bounds[last][1]
            && self.value_range[1] == self.lower_bounds[0][1]
    }
}

/// The angle range of each gamut in the standard calibration. Red reaches
/// below zero so that it wraps through the top of the hue circle.
pub open spec fn standard_range(gamut: Gamut) -> (int, int) {
    match gamut {
        Gamut::Monochrome => (0, 0),
        Gamut::Red => (-26, 18),
        Gamut::Orange => (19, 46),
        Gamut::Yellow => (47, 62),
        Gamut::Green => (63, 178),
        Gamut::Blue => (179, 257),
        Gamut::Purple => (258, 282),
        Gamut::Pink => (283, 334),
    }
}

/// The lower-bound curve of each gamut in the standard calibration.
pub open spec fn standard_curve(gamut: Gamut) -> Seq<(int, int)> {
    match gamut {
        Gamut::Monochrome => seq![(0, 0), (100, 0)],
        Gamut::Red => seq![
            (20, 100),
            (30, 92),
            (40, 89),
            (50, 85),
            (60, 78),
            (70, 70),
            (80, 60),
            (90, 55),
            (100, 50),
        ],
        Gamut::Orange => seq![
            (20, 100),
            (30, 93),
            (40, 88),
            (50, 86),
            (60, 85),
            (70, 70),
            (100, 70),
        ],
        Gamut::Yellow => seq![
            (25, 100),
            (40, 94),
            (50, 89),
            (60, 86),
            (70, 84),
            (80, 82),
            (90, 80),
            (100, 75),
        ],
        Gamut::Green => seq![
            (30, 100),
            (40, 90),
            (50, 85),
            (60, 81),
            (70, 74),
            (80, 64),
            (90, 50),
            (100, 40),
        ],
        Gamut::Blue => seq![
            (20, 100),
            (30, 86),
            (40, 80),
            (50, 74),
            (60, 60),
            (70, 52),
            (80, 44),
            (90, 39),
            (100, 35),
        ],
        Gamut::Purple => seq![
            (20, 100),
            (30, 87),
            (40, 79),
            (50, 70),
            (60, 65),
            (70, 59),
            (80, 52),
            (90, 45),
            (100, 42),
        ],
        Gamut::Pink => seq![
            (20, 100),
            (30, 90),
            (40, 86),
            (60, 84),
            (80, 80),
            (90, 75),
            (100, 73),
        ],
    }
}

/// One if the condition holds, zero if not.
pub open spec fn one_if(condition: bool) -> int {
    if condition {
        1
    } else {
        0
    }
}

/// The color dictionary contains all the color information for the different gamuts.
#[derive(Debug, Clone, PartialEq, Eq)]
pub struct ColorDictionary {
    /// The color information for the monochrome gamut.
    pub monochrome: ColorInformation,
    /// The color information for the red gamut.
    pub red: ColorInformation,
    /// The color information for the orange gamut.
    pub orange: ColorInformation,
    /// The color information for the yellow gamut.
    pub yellow: ColorInformation,
    /// The color information for the green gamut.
    pub green: ColorInformation,
    /// The color information for the blue gamut.
    pub blue: ColorInformation,
    /// The color information for the purple gamut.
    pub purple: ColorInformation,
    /// The color information for the pink gamut.
    pub pink: ColorInformation,
}

impl View for ColorDictionary {
    type V = Map<Gamut, ColorInformationView>;

    /// A dictionary is a total map from the gamuts to their information.
    open spec fn view(&self) -> Map<Gamut, ColorInformationView> {
        Map::new(|gamut: Gamut| true, |gamut: Gamut| self.spec_color_from_gamut(gamut)@)
    }
}

impl ColorDictionary {
    /// The information that the dictionary keeps for `gamut`.
    pub open spec fn spec_color_from_gamut(&self, gamut: Gamut) -> ColorInformation {
        match gamut {
            Gamut::Monochrome => self.monochrome,
            Gamut::Red => self.red,
            Gamut::Orange => self.orange,
            Gamut::Yellow => self.yellow,
            Gamut::Green => self.green,
            Gamut::Blue => self.blue,
            Gamut::Purple => self.purple,
            Gamut::Pink => self.pink,
        }
    }

    /// Every category of the dictionary is well formed.
    pub open spec fn wf(&self) -> bool {
        &&& self.monochrome.wf()
        &&& self.red.wf()
        &&& self.orange.wf()
        &&& self.yellow.wf()
        &&& self.green.wf()
        &&& self.blue.wf()
        &&& self.purple.wf()
        &&& self.pink.wf()
    }

    /// The dictionary holds the standard calibration.
    pub open spec fn is_standard(&self) -> bool {
        forall|gamut: Gamut|
            (#[trigger] self@[gamut]).range == standard_range(gamut) && self@[gamut].lower_bounds
                == standard_curve(gamut)
    }

    /// The first category, in the order monochrome, red, orange, yellow,
    /// green, blue, purple, pink, whose range holds the angle as it is given.
    pub open spec fn plain_gamut(&self, hue: int) -> Option<Gamut> {
        if self.monochrome@.holds(hue) {
            Some(Gamut::Monochrome)
        } else if self.red@.holds(hue) {
            Some(Gamut::Red)
        } else if self.orange@.holds(hue) {
            Some(Gamut::Orange)
        } else if self.yellow@.holds(hue) {
            Some(Gamut::Yellow)
        } else if self.green@.holds(hue) {
            Some(Gamut::Green)
        } else if self.blue@.holds(hue) {
            Some(Gamut::Blue)
        } else if self.purple@.holds(hue) {
            Some(Gamut::Purple)
        } else if self.pink@.holds(hue) {
            Some(Gamut::Pink)
        } else {
            None
        }
    }

    /// The category of a hue. The angle is looked up as it is given; an angle
    /// that no range holds is looked up once more a full turn lower, which is
    /// where the ranges that wrap through the top of the circle keep it. An
    /// angle that is still not found has no category.
    pub open spec fn gamut_of_hue(&self, hue: int) -> Option<Gamut> {
        match self.plain_gamut(hue) {
            Some(gamut) => Some(gamut),
            None => self.plain_gamut(hue - 360),
        }
    }

    /// The two dictionaries keep the same information, seen as mathematical
    /// values, for every gamut.
    pub open spec fn agrees_with(&self, other: &ColorDictionary) -> bool {
        forall|gamut: Gamut|
            (#[trigger] self.spec_color_from_gamut(gamut))@ == other.spec_color_from_gamut(gamut)@
    }

    /// The dictionary has a category for the hue: a range holds the angle as
    /// it is given or a full turn lower.
    pub open spec fn covers(&self, hue: int) -> bool {
        self.gamut_of_hue(hue).is_some()
    }

    /// The dictionary has a category for every angle that is drawn where no
    /// gamut is asked for: for the whole circle, from 0 to 360 degrees.
    pub open spec fn covers_circle(&self) -> bool {
        forall|hue: int| 0 <= hue <= 360 ==> #[trigger] self.covers(hue)
    }

    /// The number of categories, monochrome included, whose range holds the
    /// angle as it is given.
    pub open spec fn categories_holding(&self, hue: int) -> int {
        one_if(self.monochrome@.holds(hue)) + self.chromatic_holding(hue)
    }

    /// The number of chromatic categories whose range holds the angle as it is
    /// given.
    pub open spec fn chromatic_holding(&self, hue: int) -> int {
        one_if(self.red@.holds(hue)) + one_if(self.orange@.holds(hue)) + one_if(
            self.yellow@.holds(hue),
        ) + one_if(self.green@.holds(hue)) + one_if(self.blue@.holds(hue)) + one_if(
            self.purple@.holds(hue),
        ) + one_if(self.pink@.holds(hue))
    }

    /// Creates a new `ColorDictionary` instance, which holds the standard
    /// calibration.
    pub fn new() -> (dictionary: ColorDictionary)
        ensures
            dictionary.wf(),
            dictionary.is_standard(),
            dictionary.covers_circle(),
            forall|hue: int| -26 <= hue <= 694 ==> #[trigger] dictionary.covers(hue),
    {
        let monochrome = vec![[0, 0], [100, 0]];
        let red = vec![
            [20, 100],
            [30, 92],
            [40, 89],
            [50, 85],
            [60, 78],
            [70, 70],
            [80, 60],
            [90, 55],
            [100, 50],
        ];
        let orange = vec![[20, 100], [30, 93], [40, 88], [50, 86], [60, 85], [70, 70], [100, 70]];
        let yellow = vec![
            [25, 100],
            [40, 94],
            [50, 89],
            [60, 86],
            [70, 84],
            [80, 82],
            [90, 80],
            [100, 75],
        ];
        let green = vec![
            [30, 100],
            [40, 90],
            [50, 85],
            [60, 81],
            [70, 74],
            [80, 64],
            [90, 50],
            [100, 40],
        ];
        let blue = vec![
            [20, 100],
            [30, 86],
            [40, 80],
            [50, 74],
            [60, 60],
            [70, 52],
            [80, 44],
            [90, 39],
            [100, 35],
        ];
        let purple = vec![
            [20, 100],
            [30, 87],
            [40, 79],
            [50, 70],
            [60, 65],
            [70, 59],
            [80, 52],
            [90, 45],
            [100, 42],
        ];
        let pink = vec![[20, 100], [30, 90], [40, 86], [60, 84], [80, 80], [90, 75], [100, 73]];
        proof {
            assert(curve_of(monochrome@) =~= standard_curve(Gamut::Monochrome));
            assert(curve_of(red@) =~= standard_curve(Gamut::Red));
            assert(curve_of(orange@) =~= standard_curve(Gamut::Orange));
            assert(curve_of(yellow@) =~= standard_curve(Gamut::Yellow));
            assert(curve_of(green@) =~= standard_curve(Gamut::Green));
            assert(curve_of(blue@) =~= standard_curve(Gamut::Blue));
            assert(curve_of(purple@) =~= standard_curve(Gamut::Purple));
            assert(curve_of(pink@) =~= standard_curve(Gamut::Pink));
            lemma_standard_is_valid();
        }
        let dictionary = ColorDictionary {
            monochrome: ColorInformation::new([0, 0], monochrome),
            red: ColorInformation::new([-26, 18], red),
            orange: ColorInformation::new([19, 46], orange),
            yellow: ColorInformation::new([47, 62], yellow),
            green: ColorInformation::new([63, 178], green),
            blue: ColorInformation::new([179, 257], blue),
            purple: ColorInformation::new([258, 282], purple),
            pink: ColorInformation::new([283, 334], pink),
        };
        assert forall|gamut: Gamut|
            (#[trigger] dictionary@[gamut]).range == standard_range(gamut)
                && dictionary@[gamut].lower_bounds == standard_curve(gamut) by {
            assert(dictionary@[gamut] == dictionary.spec_color_from_gamut(gamut)@);
        }
        assert forall|hue: int| -26 <= hue <= 694 implies #[trigger] dictionary.covers(hue) by {
            lemma_standard_covers(dictionary, hue);
        }
        dictionary
    }

    /// The information of the category that a hue belongs to, for a hue that
    /// the dictionary covers.
    pub open spec fn spec_color_from_hue(&self, hue: int) -> ColorInformation {
        self.spec_color_from_gamut(self.gamut_of_hue(hue).unwrap())
    }

    /// Get the saturation range for the given hue.
    ///
    /// Parameters:
    /// * `hue`: The hue to get the saturation range for.
    pub fn get_saturation_range(&self, hue: &i64) -> (range: (i64, i64))
        requires
            self.covers(*hue as int),
        ensures
            (range.0 as int, range.1 as int) == self.spec_color_from_hue(
                *hue as int,
            )@.saturation_range,
    {
        let color = self.get_color_from_hue(hue);
        (color.saturation_range[0], color.saturation_range[1])
    }

    /// Get the minimum value for the given hue and saturation: the value at
    /// `saturation` of the lower-bound curve of the hue's category.
    ///
    /// Parameters:
    /// * `hue`: The hue to get the minimum value for.
    /// * `saturation`: The saturation to get the minimum value for.
    pub fn get_minimum_value(&self, hue: &i64, saturation: &i64) -> (minimum_value: i64)
        requires
            self.wf(),
            self.covers(*hue as int),
        ensures
            minimum_value == minimum_on_curve(
                self.spec_color_from_hue(*hue as int)@.lower_bounds,
                *saturation as int,
            ),
            0 <= minimum_value <= 100,
    {
        let color = self.get_color_from_hue(hue);
        proof {
            self.lemma_categories_are_well_formed(self.gamut_of_hue(*hue as int).unwrap());
        }
        color.minimum_value_at(*saturation)
    }

    /// In a well-formed dictionary the information of every gamut is well
    /// formed.
    pub proof fn lemma_categories_are_well_formed(&self, gamut: Gamut)
        requires
            self.wf(),
        ensures
            self.spec_color_from_gamut(gamut).wf(),
    {
    }

    /// Get the color information for the given gamut.
    ///
    /// Parameters:
    /// * `gamut`: The gamut to get the color information for.
    pub fn get_color_from_gamut(&self, gamut: &Gamut) -> (info: &ColorInformation)
        ensures
            *info == self.spec_color_from_gamut(*gamut),
    {
        match gamut {
            Gamut::Monochrome => &self.monochrome,
            Gamut::Red => &self.red,
            Gamut::Orange => &self.orange,
            Gamut::Yellow => &self.yellow,
            Gamut::Green => &self.green,
            Gamut::Blue => &self.blue,
            Gamut::Purple => &self.purple,
            Gamut::Pink => &self.pink,
        }
    }

    /// The first category whose range holds the angle as it is given, if
    /// there is one.
    fn find_plain(&self, hue: &i64) -> (found: Option<Gamut>)
        ensures
            found == self.plain_gamut(*hue as int),
    {
        if self.monochrome.has_between_range(hue) {
            Some(Gamut::Monochrome)
        } else if self.red.has_between_range(hue) {
            Some(Gamut::Red)
        } else if self.orange.has_between_range(hue) {
            Some(Gamut::Orange)
        } else if self.yellow.has_between_range(hue) {
            Some(Gamut::Yellow)
        } else if self.green.has_between_range(hue) {
            Some(Gamut::Green)
        } else if self.blue.has_between_range(hue) {
            Some(Gamut::Blue)
        } else if self.purple.has_between_range(hue) {
            Some(Gamut::Purple)
        } else if self.pink.has_between_range(hue) {
            Some(Gamut::Pink)
        } else {
            None
        }
    }

    /// Get the gamut of the given hue: the category that the hue belongs to,
    /// or `None` where the dictionary does not cover the hue.
    ///
    /// Parameters:
    /// * `hue`: The hue to get the gamut for.
    pub fn get_gamut_from_hue(&self, hue: &i64) -> (found: Option<Gamut>)
        ensures
            found == self.gamut_of_hue(*hue as int),
            found.is_some() == self.covers(*hue as int),
    {
        match self.find_plain(hue) {
            Some(gamut) => Some(gamut),
            None => match hue.checked_sub(360) {
                Some(lower) => self.find_plain(&lower),
                None => None,
            },
        }
    }

    /// Get the color information for the given hue, which the dictionary
    /// must cover.
    ///
    /// Parameters:
    /// * `hue`: The hue to get the color information for.
    pub fn get_color_from_hue(&self, hue: &i64) -> (info: &ColorInformation)
        requires
            self.covers(*hue as int),
        ensures
            *info == self.spec_color_from_hue(*hue as int),
    {
        match self.get_gamut_from_hue(hue) {
            Some(gamut) => self.get_color_from_gamut(&gamut),
            None => vstd::pervasive::unreached(),
        }
    }

    /// Tells whether the dictionary covers the whole circle, from 0 to 360
    /// degrees.
    pub fn covers_the_circle(&self) -> (covered: bool)
        ensures
            covered == self.covers_circle(),
    {
        let mut hue: i64 = 0;
        while hue <= 360
            invariant
                0 <= hue <= 361,
                forall|angle: int| 0 <= angle < hue ==> #[trigger] self.covers(angle),
            decreases 361 - hue,
        {
            if self.get_gamut_from_hue(&hue).is_none() {
                return false;
            }
            hue += 1;
        }
        true
    }

    /// Tells whether every category of the dictionary is well formed.
    pub fn is_well_formed(&self) -> (well: bool)
        ensures
            well == self.wf(),
    {
        self.monochrome.is_well_formed() && self.red.is_well_formed()
            && self.orange.is_well_formed() && self.yellow.is_well_formed()
            && self.green.is_well_formed() && self.blue.is_well_formed()
            && self.purple.is_well_formed() && self.pink.is_well_formed()
    }
}

impl Default for ColorDictionary {
    fn default() -> (dictionary: Self)
        ensures
            dictionary.wf(),
            dictionary.is_standard(),
            dictionary.covers_circle(),
            forall|hue: int| -26 <= hue <= 694 ==> #[trigger] dictionary.covers(hue),
    {
        ColorDictionary::new()
    }
}

/// The value at `s` of the line through two neighbouring curve points.
fn line_value_at(left: [i64; 2], right: [i64; 2], s: i64) -> (value: i64)
    requires
        0 <= left[0] < right[0] <= 100,
        0 <= left[1] <= 100,
        0 <= right[1] <= 100,
        left[0] <= s <= right[0],
    ensures
        value == interpolate(pair_of(left), pair_of(right), s as int),
{
    let rise = right[1] - left[1];
    let run = right[0] - left[0];
    let along = s - left[0];
    assert(-10000 <= rise * along <= 10000) by (nonlinear_arith)
        requires
            -100 <= rise <= 100,
            0 <= along <= 100,
    ;
    let product = rise * along;
    let quotient = if product >= 0 {
        product / run
    } else {
        // Round down, not towards zero.
        let up = (-product + (run - 1)) / run;
        assert(up == -(product as int / run as int)) by (nonlinear_arith)
            requires
                product < 0,
                run > 0,
                up == (-product + (run - 1)) / (run as int),
        ;
        -up
    };
    proof {
        lemma_interpolate_bounds(pair_of(left), pair_of(right), s as int);
    }
    left[1] + quotient
}

/// Every range and every curve of the standard calibration is valid.
pub proof fn lemma_standard_is_valid()
    ensures
        forall|gamut: Gamut| #[trigger] range_is_valid(standard_range(gamut)),
        forall|gamut: Gamut| #[trigger] curve_is_valid(standard_curve(gamut)),
{
}

/// The category of each hue from -26 to 360 degrees in the standard
/// calibration. Hues above 334 lie a full turn above the lower part of red's
/// range, and 360 is the same angle as 0.
pub open spec fn standard_gamut_of_hue(hue: int) -> Gamut {
    if hue == 0 || hue == 360 {
        Gamut::Monochrome
    } else if hue <= 18 || hue >= 335 {
        Gamut::Red
    } else if hue <= 46 {
        Gamut::Orange
    } else if hue <= 62 {
        Gamut::Yellow
    } else if hue <= 178 {
        Gamut::Green
    } else if hue <= 257 {
        Gamut::Blue
    } else if hue <= 282 {
        Gamut::Purple
    } else {
        Gamut::Pink
    }
}

/// A dictionary with the standard calibration keeps under each field the
/// range and the curve of that field's gamut.
pub proof fn lemma_standard_fields(dictionary: ColorDictionary)
    requires
        dictionary.is_standard(),
    ensures
        forall|gamut: Gamut|
            (#[trigger] dictionary.spec_color_from_gamut(gamut))@.range == standard_range(gamut),
        forall|gamut: Gamut|
            (#[trigger] dictionary.spec_color_from_gamut(gamut))@.lower_bounds == standard_curve(
                gamut,
            ),
{
    assert forall|gamut: Gamut|
        (#[trigger] dictionary.spec_color_from_gamut(gamut))@.range == standard_range(gamut)
            && dictionary.spec_color_from_gamut(gamut)@.lower_bounds == standard_curve(
            gamut,
        ) by {
        assert(dictionary@[gamut] == dictionary.spec_color_from_gamut(gamut)@);
    }
}

/// A dictionary with the standard calibration keeps under each field the
/// angle range of that field's gamut.
pub proof fn lemma_standard_ranges(dictionary: ColorDictionary)
    requires
        dictionary.is_standard(),
    ensures
        dictionary.monochrome@.range == standard_range(Gamut::Monochrome),
        dictionary.red@.range == standard_range(Gamut::Red),
        dictionary.orange@.range == standard_range(Gamut::Orange),
        dictionary.yellow@.range == standard_range(Gamut::Yellow),
        dictionary.green@.range == standard_range(Gamut::Green),
        dictionary.blue@.range == standard_range(Gamut::Blue),
        dictionary.purple@.range == standard_range(Gamut::Purple),
        dictionary.pink@.range == standard_range(Gamut::Pink),
{
    lemma_standard_fields(dictionary);
    assert(dictionary.spec_color_from_gamut(Gamut::Monochrome) == dictionary.monochrome);
    assert(dictionary.spec_color_from_gamut(Gamut::Red) == dictionary.red);
    assert(dictionary.spec_color_from_gamut(Gamut::Orange) == dictionary.orange);
    assert(dictionary.spec_color_from_gamut(Gamut::Yellow) == dictionary.yellow);
    assert(dictionary.spec_color_from_gamut(Gamut::Green) == dictionary.green);
    assert(dictionary.spec_color_from_gamut(Gamut::Blue) == dictionary.blue);
    assert(dictionary.spec_color_from_gamut(Gamut::Purple) == dictionary.purple);
    assert(dictionary.spec_color_from_gamut(Gamut::Pink) == dictionary.pink);
}

/// In the standard calibration the monochrome category holds the hue 0 and
/// no other.
pub proof fn lemma_monochrome_holds_only_zero(dictionary: ColorDictionary, hue: int)
    requires
        dictionary.is_standard(),
    ensures
        dictionary.monochrome@.holds(hue) <==> hue == 0,
{
    lemma_standard_ranges(dictionary);
}

/// In the standard calibration the seven chromatic categories divide the
/// angles from -26 to 334 among themselves: every such angle lies in the range
/// of exactly one of them.
pub proof fn lemma_chromatic_ranges_partition(dictionary: ColorDictionary, hue: int)
    requires
        dictionary.is_standard(),
        -26 <= hue <= 334,
    ensures
        dictionary.chromatic_holding(hue) == 1,
{
    lemma_standard_ranges(dictionary);
}

/// In the standard calibration every hue from 1 to 334 degrees lies in the
/// range of exactly one of the eight categories.
pub proof fn lemma_hue_has_one_category(dictionary: ColorDictionary, hue: int)
    requires
        dictionary.is_standard(),
        1 <= hue <= 334,
    ensures
        dictionary.categories_holding(hue) == 1,
{
    lemma_standard_ranges(dictionary);
}

/// Where the hue circle closes, the ranges of the standard calibration do not
/// divide the hues one to one: the hue 0 lies in two ranges, monochrome's and
/// red's, and the hues from 335 to 359 lie in none as they are given, but a
/// full turn lower in red's range alone.
pub proof fn lemma_hues_at_the_seam(dictionary: ColorDictionary, hue: int)
    requires
        dictionary.is_standard(),
        hue == 0 || 335 <= hue < 360,
    ensures
        hue == 0 ==> dictionary.categories_holding(hue) == 2,
        hue != 0 ==> dictionary.categories_holding(hue) == 0,
        hue != 0 ==> dictionary.categories_holding(hue - 360) == 1 && dictionary.red@.holds(
            hue - 360,
        ),
{
    lemma_standard_ranges(dictionary);
}

/// With the standard calibration every hue from -26 to 360 degrees is looked
/// up in a range that holds it, as it is given or a full turn lower.
pub proof fn lemma_standard_lookup(dictionary: ColorDictionary, hue: int)
    requires
        dictionary.is_standard(),
        -26 <= hue <= 360,
    ensures
        dictionary.gamut_of_hue(hue) == Some(standard_gamut_of_hue(hue)),
        hue <= 334 ==> dictionary.plain_gamut(hue) == Some(standard_gamut_of_hue(hue)),
        hue >= 335 ==> dictionary.plain_gamut(hue).is_none() && dictionary.plain_gamut(hue - 360)
            == Some(standard_gamut_of_hue(hue)),
{
    lemma_standard_ranges(dictionary);
}

/// The standard calibration covers every hue from -26 to 694 degrees, and so
/// the whole circle, and no other hue.
pub proof fn lemma_standard_covers(dictionary: ColorDictionary, hue: int)
    requires
        dictionary.is_standard(),
    ensures
        dictionary.covers(hue) <==> -26 <= hue <= 694,
{
    lemma_standard_ranges(dictionary);
}

/// A dictionary covers every hue that lies in the range of one of its
/// categories.
pub proof fn lemma_ranges_are_covered(dictionary: ColorDictionary, gamut: Gamut, hue: int)
    requires
        dictionary.spec_color_from_gamut(gamut)@.holds(hue),
    ensures
        dictionary.plain_gamut(hue).is_some(),
        dictionary.covers(hue),
{
}

/// Two well-formed dictionaries with the standard calibration keep the same
/// information for every gamut.
pub proof fn lemma_standard_dictionaries_agree(first: ColorDictionary, second: ColorDictionary)
    requires
        first.wf(),
        first.is_standard(),
        second.wf(),
        second.is_standard(),
    ensures
        first.agrees_with(&second),
{
    lemma_standard_fields(first);
    lemma_standard_fields(second);
    assert forall|gamut: Gamut|
        (#[trigger] first.spec_color_from_gamut(gamut))@ == second.spec_color_from_gamut(
            gamut,
        )@ by {
        first.lemma_categories_are_well_formed(gamut);
        second.lemma_categories_are_well_formed(gamut);
    }
}

/// Two dictionaries that keep the same information for every gamut give
/// every hue the same category.
pub proof fn lemma_agreeing_dictionaries_look_up_alike(
    first: ColorDictionary,
    second: ColorDictionary,
    hue: int,
)
    requires
        first.agrees_with(&second),
    ensures
        first.plain_gamut(hue) == second.plain_gamut(hue),
        first.gamut_of_hue(hue) == second.gamut_of_hue(hue),
        first.spec_color_from_hue(hue)@ == second.spec_color_from_hue(hue)@,
{
    assert(first.spec_color_from_gamut(Gamut::Monochrome)@ == second.spec_color_from_gamut(
        Gamut::Monochrome,
    )@);
    assert(first.spec_color_from_gamut(Gamut::Red)@ == second.spec_color_from_gamut(Gamut::Red)@);
    assert(first.spec_color_from_gamut(Gamut::Orange)@ == second.spec_color_from_gamut(
        Gamut::Orange,
    )@);
    assert(first.spec_color_from_gamut(Gamut::Yellow)@ == second.spec_color_from_gamut(
        Gamut::Yellow,
    )@);
    assert(first.spec_color_from_gamut(Gamut::Green)@ == second.spec_color_from_gamut(
        Gamut::Green,
    )@);
    assert(first.spec_color_from_gamut(Gamut::Blue)@ == second.spec_color_from_gamut(Gamut::Blue)@);
    assert(first.spec_color_from_gamut(Gamut::Purple)@ == second.spec_color_from_gamut(
        Gamut::Purple,
    )@);
    assert(first.spec_color_from_gamut(Gamut::Pink)@ == second.spec_color_from_gamut(Gamut::Pink)@);
    assert(first.plain_gamut(hue) == second.plain_gamut(hue));
    assert(first.plain_gamut(hue - 360) == second.plain_gamut(hue - 360));
}

} // verus!
