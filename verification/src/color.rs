//! Colours, and the generator that gives each hash a colour of its own.

use crate::ansi::{rgb_code, write_rgb};
use vstd::prelude::*;

verus! {

/// A colour by its red, green and blue parts.
#[derive(Clone, Copy, Debug, PartialEq, Eq, Structural)]
pub struct Rgb {
    pub r: u8,
    pub g: u8,
    pub b: u8,
}

impl Rgb {
    /// The colour with the given parts.
    pub fn new(r: u8, g: u8, b: u8) -> (c: Rgb)
        ensures
            c == (Rgb { r, g, b }),
    {
        Rgb { r, g, b }
    }

    /// Appends the command that makes this colour the foreground colour.
    pub fn write_fg(&self, out: &mut String)
        ensures
            final(out)@ == old(out)@ + rgb_code(self.r, self.g, self.b),
    {
        write_rgb(out, self.r, self.g, self.b);
    }
}

/// What a [`ColorGenerator`] is made of: a hue in degrees, and a saturation
/// and a lightness in percent.
pub struct Palette {
    pub base_hue: nat,
    pub saturation: nat,
    pub lightness: nat,
}

/// The distance of `x` from `centre`.
pub open spec fn distance(x: int, centre: int) -> int {
    if x >= centre {
        x - centre
    } else {
        centre - x
    }
}

/// The chroma, in percent, of a colour of the given saturation and lightness.
pub open spec fn chroma(saturation: nat, lightness: nat) -> int {
    (100 - distance(2 * (lightness as int), 100)) * (saturation as int) / 100
}

/// The share of the chroma, in percent, that the second strongest part of a
/// colour of hue `hue` has.
pub open spec fn secondary(hue: nat, chroma: int) -> int {
    chroma * (60 - distance(hue as int % 120, 60)) / 60
}

/// One part of a colour, from its share of the chroma and the lightness
/// that all parts have in common, both in percent.
pub open spec fn channel(share: int, floor: int) -> u8 {
    ((share + floor) * 255 / 100) as u8
}

/// The colour of the given hue in degrees, and saturation and lightness in
/// percent.
pub open spec fn hsl_to_rgb(hue: nat, saturation: nat, lightness: nat) -> Rgb {
    let c = chroma(saturation, lightness);
    let x = secondary(hue, c);
    let m = lightness - c / 2;
    let sector = hue / 60;
    if sector == 0 {
        Rgb { r: channel(c, m), g: channel(x, m), b: channel(0, m) }
    } else if sector == 1 {
        Rgb { r: channel(x, m), g: channel(c, m), b: channel(0, m) }
    } else if sector == 2 {
        Rgb { r: channel(0, m), g: channel(c, m), b: channel(x, m) }
    } else if sector == 3 {
        Rgb { r: channel(0, m), g: channel(x, m), b: channel(c, m) }
    } else if sector == 4 {
        Rgb { r: channel(x, m), g: channel(0, m), b: channel(c, m) }
    } else {
        Rgb { r: channel(c, m), g: channel(0, m), b: channel(x, m) }
    }
}

/// The colour that a generator made of `palette` gives to `hash`: the hash
/// turns the base hue, saturation and lightness stay.
pub open spec fn shade(palette: Palette, hash: u64) -> Rgb {
    hsl_to_rgb(
        ((palette.base_hue + hash % 360) % 360) as nat,
        palette.saturation,
        palette.lightness,
    )
}

/// Gives every hash a colour, the same hash always the same colour.
#[derive(Clone, Copy, Debug)]
pub struct ColorGenerator {
    base_hue: u16,
    saturation: u8,
    lightness: u8,
}

impl View for ColorGenerator {
    type V = Palette;

    closed spec fn view(&self) -> Palette {
        Palette {
            base_hue: self.base_hue as nat,
            saturation: self.saturation as nat,
            lightness: self.lightness as nat,
        }
    }
}

impl Default for ColorGenerator {
    /// The generator with a base hue of 210 degrees, 70 percent saturation
    /// and 60 percent lightness.
    fn default() -> (g: ColorGenerator)
        ensures
            g@ == (Palette { base_hue: 210, saturation: 70, lightness: 60 }),
    {
        ColorGenerator { base_hue: 210, saturation: 70, lightness: 60 }
    }
}

impl ColorGenerator {
    #[verifier::type_invariant]
    spec fn in_range(self) -> bool {
        self.base_hue < 360 && self.saturation <= 100 && self.lightness <= 100
    }

    /// The default generator.
    pub fn new() -> (g: ColorGenerator)
        ensures
            g@ == (Palette { base_hue: 210, saturation: 70, lightness: 60 }),
    {
        ColorGenerator { base_hue: 210, saturation: 70, lightness: 60 }
    }

    /// This generator with another base hue, in degrees; whole turns are
    /// dropped.
    pub fn with_base_hue(self, hue: u16) -> (g: ColorGenerator)
        ensures
            g@ == (Palette { base_hue: (hue % 360) as nat, ..self@ }),
    {
        proof {
            use_type_invariant(&self);
        }
        ColorGenerator { base_hue: hue % 360, saturation: self.saturation, lightness: self.lightness }
    }

    /// This generator with another saturation, in percent; more than 100 is
    /// 100.
    pub fn with_saturation(self, saturation: u8) -> (g: ColorGenerator)
        ensures
            g@ == (Palette {
                saturation: if saturation <= 100 {
                    saturation as nat
                } else {
                    100
                },
                ..self@
            }),
    {
        proof {
            use_type_invariant(&self);
        }
        let saturation: u8 = if saturation <= 100 {
            saturation
        } else {
            100
        };
        ColorGenerator { base_hue: self.base_hue, saturation, lightness: self.lightness }
    }

    /// This generator with another lightness, in percent; more than 100 is
    /// 100.
    pub fn with_lightness(self, lightness: u8) -> (g: ColorGenerator)
        ensures
            g@ == (Palette {
                lightness: if lightness <= 100 {
                    lightness as nat
                } else {
                    100
                },
                ..self@
            }),
    {
        proof {
            use_type_invariant(&self);
        }
        let lightness: u8 = if lightness <= 100 {
            lightness
        } else {
            100
        };
        ColorGenerator { base_hue: self.base_hue, saturation: self.saturation, lightness }
    }

    /// The colour of `hash`.
    pub fn generate_color(&self, hash: u64) -> (c: Rgb)
        ensures
            c == shade(self@, hash),
    {
        proof {
            use_type_invariant(self);
        }
        let turn: u32 = (hash % 360) as u32;
        let hue: u32 = (self.base_hue as u32 + turn) % 360;
        let s: u32 = self.saturation as u32;
        let l: u32 = self.lightness as u32;
        let spread: u32 = if 2 * l >= 100 {
            2 * l - 100
        } else {
            100 - 2 * l
        };
        assert((100 - spread) * s <= 10000) by (nonlinear_arith)
            requires
                0 <= spread <= 100,
                s <= 100,
        ;
        let c: u32 = (100 - spread) * s / 100;
        assert(c <= 100 - spread) by (nonlinear_arith)
            requires
                0 <= spread <= 100,
                s <= 100,
                c == (100 - spread) * s / 100,
        ;
        let place: u32 = hue % 120;
        let slope: u32 = if place >= 60 {
            place - 60
        } else {
            60 - place
        };
        assert(c * (60 - slope) <= c * 60 <= 6000) by (nonlinear_arith)
            requires
                c <= 100,
                0 <= slope <= 60,
        ;
        let x: u32 = c * (60 - slope) / 60;
        assert(x <= c) by (nonlinear_arith)
            requires
                c <= 100,
                0 <= slope <= 60,
                x == c * (60 - slope) / 60,
        ;
        let m: u32 = l - c / 2;
        let sector: u32 = hue / 60;
        let full: u8 = Self::part(c, m);
        let part: u8 = Self::part(x, m);
        let none: u8 = Self::part(0, m);
        if sector == 0 {
            Rgb { r: full, g: part, b: none }
        } else if sector == 1 {
            Rgb { r: part, g: full, b: none }
        } else if sector == 2 {
            Rgb { r: none, g: full, b: part }
        } else if sector == 3 {
            Rgb { r: none, g: part, b: full }
        } else if sector == 4 {
            Rgb { r: part, g: none, b: full }
        } else {
            Rgb { r: full, g: none, b: part }
        }
    }

    /// One part of a colour, from percent to the range of a byte.
    fn part(share: u32, floor: u32) -> (p: u8)
        requires
            share + floor <= 100,
        ensures
            p == channel(share as int, floor as int),
    {
        ((share + floor) * 255 / 100) as u8
    }
}

} // verus!
