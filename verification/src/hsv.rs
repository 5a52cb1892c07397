//! The HSV representation of a color, with exact rational components.
//!
//! An RGB color with integer channels has an exact HSV image: hue, saturation
//! and value are ratios of integers derived from the three channel values.
//! Keeping them as ratios states the conversion exactly; a consumer that
//! wants floating-point components divides numerator by denominator.

use vstd::prelude::*;

verus! {

/// A non-negative rational number `num / den`, with `den >= 1`.
#[derive(Clone, Copy, PartialEq, Eq, Debug)]
pub struct Ratio {
    pub num: u32,
    pub den: u32,
}

impl Ratio {
    /// Constructs the ratio `num / den`.
    pub fn new(num: u32, den: u32) -> (r: Ratio)
        requires
            den >= 1,
        ensures
            r.num == num,
            r.den == den,
    {
        Ratio { num, den }
    }
}

/// An HSV color: hue in degrees within `[0, 360)`, saturation and value
/// within `[0, 1]`, each held as an exact ratio.
#[derive(Clone, Copy, PartialEq, Eq, Debug)]
pub struct Hsv {
    pub hue: Ratio,
    pub sat: Ratio,
    pub val: Ratio,
}

impl Hsv {
    /// Well-formed: denominators are positive, the hue is below 360 degrees,
    /// and saturation and value are at most one.
    pub open spec fn wf(self) -> bool {
        &&& self.hue.den >= 1
        &&& self.sat.den >= 1
        &&& self.val.den >= 1
        &&& (self.hue.num as int) < 360 * (self.hue.den as int)
        &&& self.sat.num <= self.sat.den
        &&& self.val.num <= self.val.den
    }

    /// Constructs an HSV color from its three components.
    pub fn new(hue: Ratio, sat: Ratio, val: Ratio) -> (c: Hsv)
        ensures
            c.hue == hue,
            c.sat == sat,
            c.val == val,
    {
        Hsv { hue, sat, val }
    }
}

/// The largest of three values, ties resolved toward the first arguments.
pub open spec fn max3(a: int, b: int, c: int) -> int {
    if a >= b && a >= c {
        a
    } else if b >= c {
        b
    } else {
        c
    }
}

/// The smallest of three values.
pub open spec fn min3(a: int, b: int, c: int) -> int {
    if a <= b && a <= c {
        a
    } else if b <= c {
        b
    } else {
        c
    }
}

/// The chroma of a color: the spread between its largest and smallest
/// channel; zero exactly for achromatic (gray) colors.
pub open spec fn chroma(r: int, g: int, b: int) -> int {
    max3(r, g, b) - min3(r, g, b)
}

/// The numerator of the hue in degrees over the denominator `chroma(r, g, b)`,
/// for a color with positive chroma. The channel that attains the maximum
/// picks the hue sector, ties resolved in the fixed order red, green, blue;
/// only the red sector can wrap below zero, and it wraps back by a full turn.
pub open spec fn hue_numer(r: int, g: int, b: int) -> int {
    let mx = max3(r, g, b);
    let chr = chroma(r, g, b);
    if r == mx {
        if g >= b {
            60 * (g - b)
        } else {
            360 * chr - 60 * (b - g)
        }
    } else if g == mx {
        120 * chr + 60 * (b - r)
    } else {
        240 * chr + 60 * (r - g)
    }
}

/// The exact HSV image of a color with channel values `r`, `g`, `b` out of a
/// full-intensity value `m`: value is the largest channel over `m`; an
/// achromatic color has hue and saturation zero; any other color has
/// saturation `chroma / max` and hue `hue_numer / chroma` degrees.
pub open spec fn hsv_of(r: int, g: int, b: int, m: int) -> Hsv {
    let mx = max3(r, g, b);
    let chr = chroma(r, g, b);
    if chr == 0 {
        Hsv {
            hue: Ratio { num: 0, den: 1 },
            sat: Ratio { num: 0, den: 1 },
            val: Ratio { num: mx as u32, den: m as u32 },
        }
    } else {
        Hsv {
            hue: Ratio { num: hue_numer(r, g, b) as u32, den: chr as u32 },
            sat: Ratio { num: chr as u32, den: mx as u32 },
            val: Ratio { num: mx as u32, den: m as u32 },
        }
    }
}

/// Law: for every color with positive chroma, the hue lies in `[0, 360)`
/// degrees, that is, its numerator lies below `360 * chroma`.
pub proof fn lemma_hue_range(r: int, g: int, b: int)
    requires
        chroma(r, g, b) > 0,
    ensures
        0 <= hue_numer(r, g, b) < 360 * chroma(r, g, b),
{
}

/// Law: an achromatic color (all three channels equal to `v`) maps to hue
/// zero, saturation zero, and value `v / m`.
pub proof fn lemma_achromatic(v: int, m: int)
    requires
        0 <= v <= m <= 0xffff_ffff,
    ensures
        hsv_of(v, v, v, m) == (Hsv {
            hue: Ratio { num: 0, den: 1 },
            sat: Ratio { num: 0, den: 1 },
            val: Ratio { num: v as u32, den: m as u32 },
        }),
{
}

} // verus!
