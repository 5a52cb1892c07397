//! The channel abstraction: a single color component, generic over its
//! numeric representation.
//!
//! A channel value of a representation with largest value `chan_max` stands
//! for the intensity `chan_val / chan_max`, so the full range `[0, chan_max]`
//! maps onto `[0, 1]`. Converting between representations rescales a value
//! onto a common wide (16-bit) scale and back, so that the smallest value maps
//! to the smallest and the largest to the largest.

use vstd::prelude::*;
use vstd::arithmetic::div_mod::{lemma_div_is_ordered, lemma_fundamental_div_mod_converse};

verus! {

/// The value `v` restricted to the closed interval `[lo, hi]`.
pub open spec fn clamp_val(v: int, lo: int, hi: int) -> int {
    if v < lo {
        lo
    } else if v > hi {
        hi
    } else {
        v
    }
}

/// A color channel representation: a fixed-width unsigned value whose full
/// range `[0, chan_max]` stands for the intensity range `[0, 1]`.
pub trait Channel: Sized + Copy {
    /// The largest value of this representation (full intensity).
    spec fn chan_max() -> int;

    /// The channel value as a mathematical integer.
    spec fn chan_val(self) -> int;

    /// A value of this representation rescaled onto the wide (16-bit) scale.
    spec fn widen(v: int) -> int;

    /// A value on the wide (16-bit) scale rescaled into this representation.
    spec fn narrow(w: int) -> int;

    /// Every channel value lies in `[0, chan_max]`, and the representation is
    /// at most 16 bits wide.
    proof fn lemma_chan_bounds(self)
        ensures
            0 <= self.chan_val() <= Self::chan_max(),
            1 <= Self::chan_max() <= 0xffff,
    ;

    /// Two channel values with the same integer value are the same value.
    proof fn lemma_chan_val_injective(a: Self, b: Self)
        requires
            a.chan_val() == b.chan_val(),
        ensures
            a == b,
    ;

    /// Rescaling onto the wide scale stays within it, and rescaling back
    /// returns the original value.
    proof fn lemma_rescale_identity(v: int)
        requires
            0 <= v <= Self::chan_max(),
        ensures
            0 <= Self::widen(v) <= 0xffff,
            Self::narrow(Self::widen(v)) == v,
    ;

    /// The rescale onto the wide scale is a linear rescale of the full
    /// range: it is monotone and maps the smallest value to the wide scale's
    /// smallest and the largest to its largest.
    proof fn lemma_widen_linear(a: int, b: int)
        requires
            0 <= a <= b <= Self::chan_max(),
        ensures
            Self::widen(0) == 0,
            Self::widen(Self::chan_max()) == 0xffff,
            Self::widen(a) <= Self::widen(b),
    ;

    /// The rescale back from the wide scale is a linear rescale onto the
    /// full range: it is monotone and maps the wide scale's smallest value
    /// to the smallest and its largest to the largest.
    proof fn lemma_narrow_linear(a: int, b: int)
        requires
            0 <= a <= b <= 0xffff,
        ensures
            Self::narrow(0) == 0,
            Self::narrow(0xffff) == Self::chan_max(),
            Self::narrow(a) <= Self::narrow(b),
    ;

    /// The channel value as a machine integer.
    fn channel_value(self) -> (r: u32)
        ensures
            r as int == self.chan_val(),
    ;

    /// The largest value of this representation as a machine integer.
    fn channel_max() -> (r: u32)
        ensures
            r as int == Self::chan_max(),
    ;

    /// The value restricted to the closed interval `[lo, hi]`.
    fn clamp(self, lo: Self, hi: Self) -> (r: Self)
        requires
            lo.chan_val() <= hi.chan_val(),
        ensures
            r.chan_val() == clamp_val(self.chan_val(), lo.chan_val(), hi.chan_val()),
    ;

    /// The complement of the value: full intensity minus the value.
    fn invert_channel(self) -> (r: Self)
        ensures
            r.chan_val() == Self::chan_max() - self.chan_val(),
    ;

    /// The value restricted to the representation's natural range, which for
    /// a fixed-width integer representation never changes the value.
    fn normalize_channel(self) -> (r: Self)
        ensures
            r.chan_val() == clamp_val(self.chan_val(), 0, Self::chan_max()),
    ;

    /// The value rescaled onto the wide (16-bit) scale.
    fn to_wide(self) -> (w: u16)
        ensures
            w as int == Self::widen(self.chan_val()),
    ;

    /// A value on the wide (16-bit) scale rescaled into this representation.
    fn from_wide(w: u16) -> (r: Self)
        ensures
            r.chan_val() == Self::narrow(w as int),
    ;
}

/// The channel value `v` rescaled into the representation `U`: minimum maps
/// to minimum, maximum to maximum, by way of the common wide scale.
pub fn convert_channel<T: Channel, U: Channel>(v: T) -> (r: U)
    ensures
        r.chan_val() == U::narrow(T::widen(v.chan_val())),
{
    U::from_wide(v.to_wide())
}

impl Channel for u8 {
    open spec fn chan_max() -> int {
        0xff
    }

    open spec fn chan_val(self) -> int {
        self as int
    }

    open spec fn widen(v: int) -> int {
        v * 257
    }

    open spec fn narrow(w: int) -> int {
        w / 256
    }

    proof fn lemma_chan_bounds(self) {
    }

    proof fn lemma_chan_val_injective(a: u8, b: u8) {
    }

    proof fn lemma_rescale_identity(v: int) {
        lemma_fundamental_div_mod_converse(v * 257, 256, v, v);
    }

    proof fn lemma_widen_linear(a: int, b: int) {
    }

    proof fn lemma_narrow_linear(a: int, b: int) {
        lemma_div_is_ordered(a, b, 256);
        lemma_fundamental_div_mod_converse(0xffff, 256, 0xff, 0xff);
    }

    fn channel_value(self) -> u32 {
        self as u32
    }

    fn channel_max() -> u32 {
        0xff
    }

    fn clamp(self, lo: u8, hi: u8) -> u8 {
        if self < lo {
            lo
        } else if self > hi {
            hi
        } else {
            self
        }
    }

    fn invert_channel(self) -> u8 {
        0xff - self
    }

    fn normalize_channel(self) -> u8 {
        self
    }

    fn to_wide(self) -> u16 {
        (self as u16) * 257
    }

    fn from_wide(w: u16) -> u8 {
        (w / 256) as u8
    }
}

impl Channel for u16 {
    open spec fn chan_max() -> int {
        0xffff
    }

    open spec fn chan_val(self) -> int {
        self as int
    }

    open spec fn widen(v: int) -> int {
        v
    }

    open spec fn narrow(w: int) -> int {
        w
    }

    proof fn lemma_chan_bounds(self) {
    }

    proof fn lemma_chan_val_injective(a: u16, b: u16) {
    }

    proof fn lemma_rescale_identity(v: int) {
    }

    proof fn lemma_widen_linear(a: int, b: int) {
    }

    proof fn lemma_narrow_linear(a: int, b: int) {
    }

    fn channel_value(self) -> u32 {
        self as u32
    }

    fn channel_max() -> u32 {
        0xffff
    }

    fn clamp(self, lo: u16, hi: u16) -> u16 {
        if self < lo {
            lo
        } else if self > hi {
            hi
        } else {
            self
        }
    }

    fn invert_channel(self) -> u16 {
        0xffff - self
    }

    fn normalize_channel(self) -> u16 {
        self
    }

    fn to_wide(self) -> u16 {
        self
    }

    fn from_wide(w: u16) -> u16 {
        w
    }
}

/// Law: converting between any two channel representations is a linear
/// rescale of the full ranges: it is monotone, and it maps the source's
/// smallest value to the target's smallest and the source's largest to the
/// target's largest.
pub proof fn lemma_convert_linear<T: Channel, U: Channel>(a: int, b: int)
    requires
        0 <= a <= b <= T::chan_max(),
    ensures
        U::narrow(T::widen(0)) == 0,
        U::narrow(T::widen(T::chan_max())) == U::chan_max(),
        U::narrow(T::widen(a)) <= U::narrow(T::widen(b)),
{
    T::lemma_widen_linear(0, a);
    T::lemma_widen_linear(a, b);
    T::lemma_widen_linear(b, T::chan_max());
    U::lemma_narrow_linear(T::widen(a), T::widen(b));
    U::lemma_narrow_linear(0, 0xffff);
}

/// Law: when `lo <= hi`, the clamped value lies within `[lo, hi]`.
pub proof fn lemma_clamp_containment(v: int, lo: int, hi: int)
    requires
        lo <= hi,
    ensures
        lo <= clamp_val(v, lo, hi) <= hi,
{
}

/// Law: rescaling an 8-bit channel value up to 16 bits replicates its byte
/// (`v` becomes `v * 0x101`), and rescaling that back down returns the
/// original value. So the trip up and back down is the identity for every
/// 8-bit value, and the trip down and back up is the identity for every
/// 16-bit value whose high and low bytes agree.
pub proof fn lemma_u8_u16_rescale_exact(v: int)
    requires
        0 <= v <= 0xff,
    ensures
        <u16 as Channel>::narrow(<u8 as Channel>::widen(v)) == v * 0x101,
        <u8 as Channel>::narrow(<u16 as Channel>::widen(v * 0x101)) == v,
{
    lemma_fundamental_div_mod_converse(v * 257, 256, v, v);
}

} // verus!
