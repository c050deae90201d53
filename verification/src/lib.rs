//! A library for generating attractive random colors with a variety of options.
//!
//! A color is drawn in three stages, hue, saturation and brightness, from a
//! random number generator that the `RandomColor` keeps: every draw advances
//! it, so that one instance gives a sequence of colors. The color depends on
//! the settings and on the state of that generator alone: an instance that
//! was given a seed gives the same sequence each time.
//!
//! The library does not read the operating system's entropy itself. A
//! `RandomColor` is made around a generator that the caller hands in.
//!
//! # Examples
//!
//! ```rust
//! use rand::rngs::SmallRng;
//! use rand::SeedableRng;
//! use random_color::RandomColor;
//!
//! let mut random_color = RandomColor::with_generator(SmallRng::from_entropy());
//!
//! let color = random_color.to_hex();
//! println!("{}", color);
//! ```
//!
//! ```rust
//! use rand::rngs::SmallRng;
//! use rand::SeedableRng;
//! use random_color::RandomColor;
//! use random_color::options::{Gamut, Luminosity};
//!
//! let mut random_color = RandomColor {
//!     hue: Some(Gamut::Blue),
//!     luminosity: Some(Luminosity::Dark),
//!     ..RandomColor::with_generator(SmallRng::from_entropy())
//! };
//!
//! let color = random_color.to_hsl_string();
//! println!("{}", color);
//! ```
//!
//! ```rust
//! use rand::rngs::SmallRng;
//! use rand::SeedableRng;
//! use random_color::RandomColor;
//!
//! let mut random_color = RandomColor::with_generator(SmallRng::from_entropy());
//!
//! random_color.seed("A random seed");
//!
//! let color = random_color.to_rgb_string();
//! println!("{}", color);
//! ```

pub mod color_dictionary;
pub mod convert;
pub mod format;
pub mod options;
pub mod pick;
pub mod rng;

use crate::color_dictionary::ColorDictionary;
use crate::convert::hsl_of;
use crate::convert::hsv_to_hsl;
use crate::convert::hsv_to_rgb;
use crate::convert::rgb_of;
use crate::convert::spec_hsv_to_hsl;
use crate::convert::spec_hsv_to_rgb;
use crate::format::hsl_to_string;
use crate::format::rgb_to_hex;
use crate::format::rgb_to_string;
use crate::format::spec_hex;
use crate::format::spec_hsl_string;
use crate::format::spec_rgb_string;
use crate::options::Gamut;
use crate::options::Luminosity;
use crate::options::Seed;
use crate::pick::color_of_draws;
use crate::pick::covers_draws;
use crate::pick::drawn_color;
use crate::pick::lemma_agreeing_dictionaries_draw_alike;
use crate::pick::may_draw;
use crate::pick::sampled_color;
use crate::pick::state_after_color;
use crate::rng::seeded_rng;
use crate::rng::seeded_state;
use rand::rngs::SmallRng;
use vstd::prelude::*;

verus! {

/// A structure for generating random colors with a variety of options.
///
/// The available options are:
/// * `hue`: Specify a specific hue, or a range of hues. You can use the
///   `Gamut` enum to select a hue.
/// * `luminosity`: Specify a specific luminosity, or a range of luminosities.
///   You can use the `Luminosity` enum to select a luminosity.
/// * `seed`: Specify a seed for the random number generator. If you don't
///   specify a seed, the generator that the instance was made with is used.
/// * `color_dictionary`: Specify a custom color dictionary. If you don't
///   specify a color dictionary, the default one will be used.
#[derive(Debug, PartialEq, Clone)]
pub struct RandomColor {
    /// The hue of the color to generate.
    pub hue: Option<Gamut>,
    /// The luminosity of the color to generate.
    pub luminosity: Option<Luminosity>,
    /// The seed for the random number generator.
    pub seed: SmallRng,
    /// The color dictionary to use.
    pub color_dictionary: ColorDictionary,
}

impl RandomColor {
    /// The three numbers are a hue, a saturation and a brightness that these
    /// settings can generate: the color of three draws that the stages can
    /// make.
    pub open spec fn may_generate(&self, hsv: (int, int, int)) -> bool {
        exists|angle: int, saturation: int, brightness: int|
            #[trigger] may_draw(
                self.color_dictionary,
                self.hue,
                self.luminosity,
                angle,
                saturation,
                brightness,
            ) && hsv == sampled_color(angle, saturation, brightness)
    }

    /// The two instances have the same hue and luminosity settings, color
    /// dictionaries that keep the same information, and random number
    /// generators in the same state.
    pub open spec fn alike(&self, other: &RandomColor) -> bool {
        &&& self.hue == other.hue
        &&& self.luminosity == other.luminosity
        &&& self.seed == other.seed
        &&& self.color_dictionary.agrees_with(&other.color_dictionary)
    }

    /// The instance can generate a color: its dictionary is well formed and
    /// has a category for every hue angle that may be drawn.
    pub open spec fn can_generate(&self) -> bool {
        self.color_dictionary.wf() && covers_draws(self.color_dictionary, self.hue)
    }

    /// The color that the next generating call gives: the color that the
    /// random number generator draws, in the state it is in, with the
    /// settings as they are.
    pub open spec fn next_color(&self) -> (int, int, int) {
        drawn_color(self.seed, self.color_dictionary, self.hue, self.luminosity)
    }

    /// The instance as a generating call leaves it: the settings are kept
    /// and the random number generator has made its three draws.
    pub open spec fn after_color(&self) -> RandomColor {
        RandomColor {
            hue: self.hue,
            luminosity: self.luminosity,
            seed: state_after_color(self.seed, self.color_dictionary, self.hue, self.luminosity),
            color_dictionary: self.color_dictionary,
        }
    }

    /// The instance as `calls` generating calls leave it.
    pub open spec fn after_colors(&self, calls: nat) -> RandomColor
        decreases calls,
    {
        if calls == 0 {
            *self
        } else {
            self.after_color().after_colors((calls - 1) as nat)
        }
    }

    /// Creates a new `RandomColor` instance around a random number generator:
    /// without a hue and a luminosity setting, and with the standard color
    /// dictionary.
    pub fn with_generator(seed: SmallRng) -> (made: Self)
        ensures
            made.hue.is_none(),
            made.luminosity.is_none(),
            made.seed == seed,
            made.color_dictionary.wf(),
            made.color_dictionary.is_standard(),
            made.color_dictionary.covers_circle(),
            made.can_generate(),
    {
        RandomColor { hue: None, luminosity: None, seed, color_dictionary: ColorDictionary::new() }
    }

    /// Tells whether the instance can generate a color.
    pub fn is_ready(&self) -> (ready: bool)
        ensures
            ready == self.can_generate(),
    {
        self.color_dictionary.is_well_formed() && (self.hue.is_some()
            || self.color_dictionary.covers_the_circle())
    }

    /// Sets the hue setting.
    pub fn hue(&mut self, hue: Gamut) -> (ret: &mut RandomColor)
        ensures
            *final(self) == *final(ret),
            ret.hue == Some(hue),
            ret.luminosity == old(self).luminosity,
            ret.seed == old(self).seed,
            ret.color_dictionary == old(self).color_dictionary,
    {
        self.hue = Some(hue);

        self
    }

    /// Sets the luminosity setting.
    pub fn luminosity(&mut self, luminosity: Luminosity) -> (ret: &mut RandomColor)
        ensures
            *final(self) == *final(ret),
            ret.hue == old(self).hue,
            ret.luminosity == Some(luminosity),
            ret.seed == old(self).seed,
            ret.color_dictionary == old(self).color_dictionary,
    {
        self.luminosity = Some(luminosity);
        self
    }

    /// Sets the seed: the random number generator is replaced by one in the
    /// state that the seed's value gives.
    pub fn seed<T: Seed>(&mut self, seed: T) -> (ret: &mut RandomColor)
        ensures
            *final(self) == *final(ret),
            ret.hue == old(self).hue,
            ret.luminosity == old(self).luminosity,
            ret.seed == seeded_state(seed.seed_value()),
            ret.color_dictionary == old(self).color_dictionary,
    {
        self.seed = seeded_rng(seed.to_value());

        self
    }

    /// Sets the ColorDictionary.
    pub fn dictionary(&mut self, dictionary: ColorDictionary) -> (ret: &mut RandomColor)
        ensures
            *final(self) == *final(ret),
            ret.hue == old(self).hue,
            ret.luminosity == old(self).luminosity,
            ret.seed == old(self).seed,
            ret.color_dictionary == dictionary,
    {
        self.color_dictionary = dictionary;

        self
    }

    /// Generates a random color based on the settings, as hue, saturation
    /// and brightness.
    pub fn generate_color(&mut self) -> (hsv: (i64, i64, i64))
        requires
            old(self).can_generate(),
        ensures
            (hsv.0 as int, hsv.1 as int, hsv.2 as int) == old(self).next_color(),
            *final(self) == old(self).after_color(),
            old(self).may_generate(old(self).next_color()),
            0 <= hsv.0 < 360,
            0 <= hsv.1 <= 100,
            0 <= hsv.2 <= 100,
    {
        let h = pick::hue(&mut self.seed, &self.color_dictionary, &self.hue);
        let s = pick::saturation(&mut self.seed, &self.color_dictionary, &self.luminosity, &h);
        let b = pick::value(&mut self.seed, &self.color_dictionary, &self.luminosity, &h, &s);
        assert(may_draw(
            self.color_dictionary,
            self.hue,
            self.luminosity,
            h as int,
            s as int,
            b as int,
        ));

        color_of_draws(h, s, b)
    }

    /// Generates a random color and returns it as an HSV array.
    pub fn to_hsv_array(&mut self) -> (hsv: [u32; 3])
        requires
            old(self).can_generate(),
        ensures
            (hsv[0] as int, hsv[1] as int, hsv[2] as int) == old(self).next_color(),
            *final(self) == old(self).after_color(),
            old(self).may_generate(old(self).next_color()),
            hsv[0] < 360,
            hsv[1] <= 100,
            hsv[2] <= 100,
    {
        let (h, s, b) = self.generate_color();

        [h as u32, s as u32, b as u32]
    }

    /// Generates a random color and returns it as an RGB string.
    pub fn to_rgb_string(&mut self) -> (text: String)
        requires
            old(self).can_generate(),
        ensures
            text@ == spec_rgb_string(
                spec_hsv_to_rgb(
                    old(self).next_color().0,
                    old(self).next_color().1,
                    old(self).next_color().2,
                ),
            ),
            *final(self) == old(self).after_color(),
            old(self).may_generate(old(self).next_color()),
    {
        let (h, s, b) = self.generate_color();
        let rgb = hsv_to_rgb(h, s, b);

        rgb_to_string(rgb)
    }

    /// Generates a random color and returns it as an RGB array.
    pub fn to_rgb_array(&mut self) -> (rgb: [u8; 3])
        requires
            old(self).can_generate(),
        ensures
            rgb_of(rgb) == spec_hsv_to_rgb(
                old(self).next_color().0,
                old(self).next_color().1,
                old(self).next_color().2,
            ),
            *final(self) == old(self).after_color(),
            old(self).may_generate(old(self).next_color()),
    {
        let (h, s, b) = self.generate_color();

        hsv_to_rgb(h, s, b)
    }

    /// Generates a random color and returns it as an HSL string.
    pub fn to_hsl_string(&mut self) -> (text: String)
        requires
            old(self).can_generate(),
        ensures
            text@ == spec_hsl_string(
                spec_hsv_to_hsl(
                    old(self).next_color().0,
                    old(self).next_color().1,
                    old(self).next_color().2,
                ),
            ),
            *final(self) == old(self).after_color(),
            old(self).may_generate(old(self).next_color()),
    {
        let (h, s, b) = self.generate_color();
        let hsl = hsv_to_hsl(h, s, b);

        hsl_to_string(hsl)
    }

    /// Generates a random color and returns it as an HSL array.
    pub fn to_hsl_array(&mut self) -> (hsl: [u32; 3])
        requires
            old(self).can_generate(),
        ensures
            hsl_of(hsl) == spec_hsv_to_hsl(
                old(self).next_color().0,
                old(self).next_color().1,
                old(self).next_color().2,
            ),
            *final(self) == old(self).after_color(),
            old(self).may_generate(old(self).next_color()),
    {
        let (h, s, b) = self.generate_color();

        hsv_to_hsl(h, s, b)
    }

    /// Generates a random color and returns it as a hex string.
    pub fn to_hex(&mut self) -> (text: String)
        requires
            old(self).can_generate(),
        ensures
            text@ == spec_hex(
                spec_hsv_to_rgb(
                    old(self).next_color().0,
                    old(self).next_color().1,
                    old(self).next_color().2,
                ),
            ),
            text@.len() == 7,
            *final(self) == old(self).after_color(),
            old(self).may_generate(old(self).next_color()),
    {
        let (h, s, b) = self.generate_color();
        let rgb = hsv_to_rgb(h, s, b);

        rgb_to_hex(rgb)
    }

    /// Transforms the `RandomColor` into a `u8` array with the color's RGB values.
    pub fn into_rgb_array(self) -> (rgb: [u8; 3])
        requires
            self.can_generate(),
        ensures
            rgb_of(rgb) == spec_hsv_to_rgb(
                self.next_color().0,
                self.next_color().1,
                self.next_color().2,
            ),
            self.may_generate(self.next_color()),
    {
        let mut generator = self;
        generator.to_rgb_array()
    }

    /// Two instances with the same settings and random number generators in
    /// the same state give the same color at every call, however many calls
    /// went before: the colors depend on the settings and on that state
    /// alone, and so a seed fixes the whole sequence.
    pub proof fn lemma_alike_instances_give_the_same_colors(
        &self,
        other: &RandomColor,
        calls: nat,
    )
        requires
            self.alike(other),
        ensures
            self.after_colors(calls).next_color() == other.after_colors(calls).next_color(),
            self.after_colors(calls).alike(&other.after_colors(calls)),
        decreases calls,
    {
        lemma_agreeing_dictionaries_draw_alike(
            self.seed,
            self.color_dictionary,
            other.color_dictionary,
            self.hue,
            self.luminosity,
        );
        if calls > 0 {
            self.after_color().lemma_alike_instances_give_the_same_colors(
                &other.after_color(),
                (calls - 1) as nat,
            );
        } else {
            assert(self.after_colors(0) == *self);
            assert(other.after_colors(0) == *other);
        }
    }
}

} // verus!
