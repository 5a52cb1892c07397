//! The RGB color type: three channel values of one representation, with
//! per-channel clamping, inversion and normalization, rescaling to another
//! representation, and the exact conversion to HSV.

use vstd::prelude::*;
use crate::channel::{clamp_val, convert_channel, Channel};
use crate::hsv::{hsv_of, lemma_hue_range, Hsv, Ratio};

verus! {

/// An RGB color over the channel representation `T`. Any combination of
/// channel values is a valid color; every operation returns a new value.
#[derive(Clone, Copy, PartialEq, Eq, Debug)]
pub struct Rgb<T> {
    pub r: T,
    pub g: T,
    pub b: T,
}

impl<T: Channel> Rgb<T> {
    /// Constructs a color from its three channels.
    pub fn new(r: T, g: T, b: T) -> (c: Rgb<T>)
        ensures
            c.r == r,
            c.g == g,
            c.b == b,
    {
        Rgb { r, g, b }
    }

    /// Clamps every channel to the shared interval `[lo, hi]`.
    pub fn clamp_s(self, lo: T, hi: T) -> (c: Rgb<T>)
        requires
            lo.chan_val() <= hi.chan_val(),
        ensures
            c.r.chan_val() == clamp_val(self.r.chan_val(), lo.chan_val(), hi.chan_val()),
            c.g.chan_val() == clamp_val(self.g.chan_val(), lo.chan_val(), hi.chan_val()),
            c.b.chan_val() == clamp_val(self.b.chan_val(), lo.chan_val(), hi.chan_val()),
    {
        Rgb::new(self.r.clamp(lo, hi), self.g.clamp(lo, hi), self.b.clamp(lo, hi))
    }

    /// Clamps every channel between the matching channels of `lo` and `hi`.
    pub fn clamp_c(self, lo: Rgb<T>, hi: Rgb<T>) -> (c: Rgb<T>)
        requires
            lo.r.chan_val() <= hi.r.chan_val(),
            lo.g.chan_val() <= hi.g.chan_val(),
            lo.b.chan_val() <= hi.b.chan_val(),
        ensures
            c.r.chan_val() == clamp_val(self.r.chan_val(), lo.r.chan_val(), hi.r.chan_val()),
            c.g.chan_val() == clamp_val(self.g.chan_val(), lo.g.chan_val(), hi.g.chan_val()),
            c.b.chan_val() == clamp_val(self.b.chan_val(), lo.b.chan_val(), hi.b.chan_val()),
    {
        Rgb::new(self.r.clamp(lo.r, hi.r), self.g.clamp(lo.g, hi.g), self.b.clamp(lo.b, hi.b))
    }

    /// Inverts the color: every channel becomes its complement.
    pub fn inverse(self) -> (c: Rgb<T>)
        ensures
            c.r.chan_val() == T::chan_max() - self.r.chan_val(),
            c.g.chan_val() == T::chan_max() - self.g.chan_val(),
            c.b.chan_val() == T::chan_max() - self.b.chan_val(),
    {
        Rgb::new(self.r.invert_channel(), self.g.invert_channel(), self.b.invert_channel())
    }

    /// Clamps every channel to the representation's natural range, which for
    /// a fixed-width integer representation never changes the color.
    pub fn normalize(self) -> (c: Rgb<T>)
        ensures
            c.r.chan_val() == clamp_val(self.r.chan_val(), 0, T::chan_max()),
            c.g.chan_val() == clamp_val(self.g.chan_val(), 0, T::chan_max()),
            c.b.chan_val() == clamp_val(self.b.chan_val(), 0, T::chan_max()),
    {
        Rgb::new(
            self.r.normalize_channel(),
            self.g.normalize_channel(),
            self.b.normalize_channel(),
        )
    }

    /// Decomposes the color into its channels, in the fixed order r, g, b.
    pub fn into_fixed(self) -> (a: [T; 3])
        ensures
            a@ == seq![self.r, self.g, self.b],
    {
        let a = [self.r, self.g, self.b];
        proof {
            assert(a@ =~= seq![self.r, self.g, self.b]);
        }
        a
    }

    /// Rescales the color into the channel representation `U`: each channel
    /// keeps its relative intensity, with minimum mapping to minimum and
    /// maximum to maximum.
    pub fn convert_to<U: Channel>(&self) -> (c: Rgb<U>)
        ensures
            c.r.chan_val() == U::narrow(T::widen(self.r.chan_val())),
            c.g.chan_val() == U::narrow(T::widen(self.g.chan_val())),
            c.b.chan_val() == U::narrow(T::widen(self.b.chan_val())),
    {
        Rgb::new(convert_channel(self.r), convert_channel(self.g), convert_channel(self.b))
    }

    /// Converts the color to its exact HSV image: value is the largest
    /// channel over full intensity; an achromatic color has hue and
    /// saturation zero; any other color has saturation `chroma / max` and a
    /// hue in `[0, 360)` degrees chosen by the largest channel, ties resolved
    /// in the fixed order red, green, blue.
    pub fn to_hsv(&self) -> (h: Hsv)
        ensures
            h == hsv_of(self.r.chan_val(), self.g.chan_val(), self.b.chan_val(), T::chan_max()),
            h.wf(),
    {
        proof {
            self.r.lemma_chan_bounds();
            self.g.lemma_chan_bounds();
            self.b.lemma_chan_bounds();
        }
        let rv: u32 = self.r.channel_value();
        let gv: u32 = self.g.channel_value();
        let bv: u32 = self.b.channel_value();
        let m: u32 = T::channel_max();
        let mx: u32 = if rv >= gv && rv >= bv {
            rv
        } else if gv >= bv {
            gv
        } else {
            bv
        };
        let mn: u32 = if rv <= gv && rv <= bv {
            rv
        } else if gv <= bv {
            gv
        } else {
            bv
        };
        let chr: u32 = mx - mn;
        if chr == 0 {
            Hsv {
                hue: Ratio { num: 0, den: 1 },
                sat: Ratio { num: 0, den: 1 },
                val: Ratio { num: mx, den: m },
            }
        } else {
            proof {
                lemma_hue_range(rv as int, gv as int, bv as int);
            }
            let num: u32 = if rv == mx {
                if gv >= bv {
                    60 * (gv - bv)
                } else {
                    360 * chr - 60 * (bv - gv)
                }
            } else if gv == mx {
                if bv >= rv {
                    120 * chr + 60 * (bv - rv)
                } else {
                    120 * chr - 60 * (rv - bv)
                }
            } else {
                if rv >= gv {
                    240 * chr + 60 * (rv - gv)
                } else {
                    240 * chr - 60 * (gv - rv)
                }
            };
            Hsv {
                hue: Ratio { num, den: chr },
                sat: Ratio { num: chr, den: mx },
                val: Ratio { num: mx, den: m },
            }
        }
    }
}

/// Capability: a value that can produce an RGB color in any channel
/// representation.
pub trait ToRgb {
    fn to_rgb<U: Channel>(&self) -> Rgb<U>;
}

impl<T: Channel> ToRgb for Rgb<T> {
    fn to_rgb<U: Channel>(&self) -> (c: Rgb<U>)
        ensures
            c.r.chan_val() == U::narrow(T::widen(self.r.chan_val())),
            c.g.chan_val() == U::narrow(T::widen(self.g.chan_val())),
            c.b.chan_val() == U::narrow(T::widen(self.b.chan_val())),
    {
        self.convert_to()
    }
}

/// Law: rescaling a color into its own channel representation is the
/// identity. The premises are exactly what `convert_to` ensures of its result
/// when the target representation is the source representation.
pub proof fn lemma_convert_to_self_identity<T: Channel>(x: Rgb<T>, y: Rgb<T>)
    requires
        y.r.chan_val() == T::narrow(T::widen(x.r.chan_val())),
        y.g.chan_val() == T::narrow(T::widen(x.g.chan_val())),
        y.b.chan_val() == T::narrow(T::widen(x.b.chan_val())),
    ensures
        y == x,
{
    x.r.lemma_chan_bounds();
    x.g.lemma_chan_bounds();
    x.b.lemma_chan_bounds();
    T::lemma_rescale_identity(x.r.chan_val());
    T::lemma_rescale_identity(x.g.chan_val());
    T::lemma_rescale_identity(x.b.chan_val());
    T::lemma_chan_val_injective(y.r, x.r);
    T::lemma_chan_val_injective(y.g, x.g);
    T::lemma_chan_val_injective(y.b, x.b);
}

/// Law: inverting a color twice returns the original color exactly. The
/// premises are exactly what `inverse` ensures of `y` from `x` and of `z`
/// from `y`.
pub proof fn lemma_inverse_involution<T: Channel>(x: Rgb<T>, y: Rgb<T>, z: Rgb<T>)
    requires
        y.r.chan_val() == T::chan_max() - x.r.chan_val(),
        y.g.chan_val() == T::chan_max() - x.g.chan_val(),
        y.b.chan_val() == T::chan_max() - x.b.chan_val(),
        z.r.chan_val() == T::chan_max() - y.r.chan_val(),
        z.g.chan_val() == T::chan_max() - y.g.chan_val(),
        z.b.chan_val() == T::chan_max() - y.b.chan_val(),
    ensures
        z == x,
{
    T::lemma_chan_val_injective(z.r, x.r);
    T::lemma_chan_val_injective(z.g, x.g);
    T::lemma_chan_val_injective(z.b, x.b);
}

} // verus!
