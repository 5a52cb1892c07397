use color::channel::Channel;
use color::hsv::{Hsv, Ratio};
use color::rgb::{Rgb, ToRgb};

fn ratio_f32(r: Ratio) -> f32 {
    r.num as f32 / r.den as f32
}

fn hsv_f32(h: Hsv) -> (f32, f32, f32) {
    (ratio_f32(h.hue), ratio_f32(h.sat), ratio_f32(h.val))
}

#[test]
fn test_rgb_to_rgb() {
    assert_eq!(Rgb::<u8>::new(0xA0, 0xA0, 0xA0).to_rgb::<u8>(), Rgb::<u8>::new(0xA0, 0xA0, 0xA0));
    assert_eq!(
        Rgb::<u8>::new(0xA0, 0xA0, 0xA0).to_rgb::<u16>(),
        Rgb::<u16>::new(0xA0A0, 0xA0A0, 0xA0A0)
    );
}

#[test]
fn test_rgb_to_hsv() {
    assert_eq!(hsv_f32(Rgb::<u8>::new(0xFF, 0xFF, 0xFF).to_hsv()), (0.0, 0.0, 1.0));
    assert_eq!(hsv_f32(Rgb::<u8>::new(0x99, 0x00, 0x00).to_hsv()), (0.0, 1.0, 0.6));
    assert_eq!(hsv_f32(Rgb::<u8>::new(0x00, 0x99, 0x00).to_hsv()), (120.0, 1.0, 0.6));
    assert_eq!(hsv_f32(Rgb::<u8>::new(0x00, 0x00, 0x99).to_hsv()), (240.0, 1.0, 0.6));
}

#[test]
fn test_convert_to_same_representation_is_identity() {
    assert_eq!(Rgb::<u8>::new(1, 128, 255).convert_to::<u8>(), Rgb::<u8>::new(1, 128, 255));
    assert_eq!(
        Rgb::<u16>::new(0x0001, 0x8000, 0xFFFF).convert_to::<u16>(),
        Rgb::<u16>::new(0x0001, 0x8000, 0xFFFF)
    );
}

#[test]
fn test_rescale_roundtrip() {
    let up = Rgb::<u8>::new(0xA0, 0x00, 0xFF).convert_to::<u16>();
    assert_eq!(up, Rgb::<u16>::new(0xA0A0, 0x0000, 0xFFFF));
    assert_eq!(up.convert_to::<u8>(), Rgb::<u8>::new(0xA0, 0x00, 0xFF));
    let down = Rgb::<u16>::new(0xA0A0, 0x1234, 0xFFFF).convert_to::<u8>();
    assert_eq!(down, Rgb::<u8>::new(0xA0, 0x12, 0xFF));
}

#[test]
fn test_achromatic_to_hsv() {
    assert_eq!(hsv_f32(Rgb::<u8>::new(0x00, 0x00, 0x00).to_hsv()), (0.0, 0.0, 0.0));
    let gray = Rgb::<u8>::new(0x80, 0x80, 0x80).to_hsv();
    assert_eq!(gray.hue, Ratio::new(0, 1));
    assert_eq!(gray.sat, Ratio::new(0, 1));
    assert_eq!(gray.val, Ratio::new(0x80, 0xFF));
    assert_eq!(hsv_f32(Rgb::<u16>::new(0xFFFF, 0xFFFF, 0xFFFF).to_hsv()), (0.0, 0.0, 1.0));
}

#[test]
fn test_hue_wraps_when_red_is_max_and_blue_exceeds_green() {
    assert_eq!(hsv_f32(Rgb::<u8>::new(0x99, 0x00, 0x99).to_hsv()), (300.0, 1.0, 0.6));
    let h = Rgb::<u8>::new(0xFF, 0x00, 0x80).to_hsv();
    assert_eq!(h.hue, Ratio::new(360 * 255 - 60 * 128, 255));
    let (hue, _, _) = hsv_f32(h);
    assert!(hue >= 300.0 && hue < 360.0);
}

#[test]
fn test_hue_stays_below_full_turn() {
    let samples = [
        Rgb::<u8>::new(0x01, 0x00, 0x00),
        Rgb::<u8>::new(0xFF, 0xFE, 0xFF),
        Rgb::<u8>::new(0x12, 0x34, 0x56),
        Rgb::<u8>::new(0xFF, 0x00, 0x01),
        Rgb::<u8>::new(0x00, 0xFF, 0x01),
    ];
    for c in samples.iter() {
        let (hue, sat, val) = hsv_f32(c.to_hsv());
        assert!((0.0..360.0).contains(&hue));
        assert!((0.0..=1.0).contains(&sat));
        assert!((0.0..=1.0).contains(&val));
    }
}

#[test]
fn test_to_hsv_on_u16_channels() {
    assert_eq!(hsv_f32(Rgb::<u16>::new(0x0000, 0x9999, 0x0000).to_hsv()), (120.0, 1.0, 0.6));
}

#[test]
fn test_clamp_s_contains_channels() {
    let c = Rgb::<u8>::new(0x0A, 0x80, 0xFA).clamp_s(0x14, 0xC8);
    assert_eq!(c, Rgb::<u8>::new(0x14, 0x80, 0xC8));
    let lo = 0x14u8;
    let hi = 0xC8u8;
    for ch in c.into_fixed().iter() {
        assert!(lo <= *ch && *ch <= hi);
    }
}

#[test]
fn test_clamp_c_clamps_componentwise() {
    let lo = Rgb::<u8>::new(0x10, 0x20, 0x30);
    let hi = Rgb::<u8>::new(0x40, 0x50, 0x60);
    let c = Rgb::<u8>::new(0x00, 0x33, 0xFF).clamp_c(lo, hi);
    assert_eq!(c, Rgb::<u8>::new(0x10, 0x33, 0x60));
}

#[test]
fn test_inverse_complements_each_channel() {
    assert_eq!(Rgb::<u8>::new(0x00, 0x99, 0xFF).inverse(), Rgb::<u8>::new(0xFF, 0x66, 0x00));
    assert_eq!(
        Rgb::<u16>::new(0x0000, 0x1234, 0xFFFF).inverse(),
        Rgb::<u16>::new(0xFFFF, 0xEDCB, 0x0000)
    );
}

#[test]
fn test_inverse_is_an_involution() {
    let x = Rgb::<u8>::new(0x12, 0x00, 0xFE);
    assert_eq!(x.inverse().inverse(), x);
    let y = Rgb::<u16>::new(0xABCD, 0xFFFF, 0x0001);
    assert_eq!(y.inverse().inverse(), y);
}

#[test]
fn test_normalize_keeps_integer_channels() {
    let x = Rgb::<u8>::new(0x00, 0x7F, 0xFF);
    assert_eq!(x.normalize(), x);
}

#[test]
fn test_into_fixed_orders_channels() {
    assert_eq!(Rgb::<u8>::new(1, 2, 3).into_fixed(), [1, 2, 3]);
}

#[test]
fn test_channel_operations() {
    assert_eq!(Channel::clamp(0x30u8, 0x40, 0x80), 0x40);
    assert_eq!(Channel::clamp(0x90u8, 0x40, 0x80), 0x80);
    assert_eq!(Channel::clamp(0x50u8, 0x40, 0x80), 0x50);
    assert_eq!(0x0Fu8.invert_channel(), 0xF0);
    assert_eq!(0x0Fu8.normalize_channel(), 0x0F);
    assert_eq!(0xA0u8.to_wide(), 0xA0A0);
    assert_eq!(u8::from_wide(0xA0FF), 0xA0);
    assert_eq!(0xA0A0u16.to_wide(), 0xA0A0);
    assert_eq!(u16::from_wide(0x1234), 0x1234);
}

#[test]
fn test_hsv_constructors() {
    let h = Hsv::new(Ratio::new(300, 1), Ratio::new(1, 2), Ratio::new(3, 4));
    assert_eq!(h.hue.num, 300);
    assert_eq!(h.hue.den, 1);
    assert_eq!(ratio_f32(h.sat), 0.5);
    assert_eq!(ratio_f32(h.val), 0.75);
}
