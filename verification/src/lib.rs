//! A small color library: a generic RGB color type over fixed-width integer
//! channel representations, with clamping, inversion, normalization,
//! cross-representation rescaling, and an exact RGB-to-HSV conversion whose
//! hue, saturation and value come out as rational numbers.

pub mod channel;
pub mod hsv;
pub mod rgb;
