use colstodian::basic_encodings::{SrgbU8, SrgbaU8};
use colstodian::component_structs::{Lab, Rgb, Rgba};
use colstodian::encodings::{EncodedAdobeRgbU8, EncodedProPhotoRgbU8};
use colstodian::registry::EncodingId;
use colstodian::traits::ComponentStructFor;
use colstodian::{Color, ColorInto};

#[test]
fn byte_constructors_store_lanes_in_order() {
    assert_eq!(Color::encoded_srgb_u8(1, 2, 3).repr, [1, 2, 3]);
    assert_eq!(Color::srgb_u8(102, 54, 220).repr, [102, 54, 220]);
    assert_eq!(Color::encoded_srgba_u8(1, 2, 3, 4).repr, [1, 2, 3, 4]);
    assert_eq!(Color::srgba_u8(255, 128, 64, 200).repr, [255, 128, 64, 200]);
    assert_eq!(Color::encoded_adobe_rgb_u8(9, 8, 7).repr, [9, 8, 7]);
    assert_eq!(Color::adobe_rgb_u8(0, 255, 0).repr, [0, 255, 0]);
    assert_eq!(Color::encoded_prophoto_rgb_u8(10, 20, 30).repr, [10, 20, 30]);
    assert_eq!(Color::prophoto_rgb_u8(255, 255, 255).repr, [255, 255, 255]);
}

#[test]
fn aliases_agree() {
    assert_eq!(Color::srgb_u8(4, 5, 6), Color::encoded_srgb_u8(4, 5, 6));
    assert_eq!(Color::srgba_u8(4, 5, 6, 7), Color::encoded_srgba_u8(4, 5, 6, 7));
    assert_eq!(Color::adobe_rgb_u8(4, 5, 6), Color::encoded_adobe_rgb_u8(4, 5, 6));
    assert_eq!(Color::prophoto_rgb_u8(4, 5, 6), Color::encoded_prophoto_rgb_u8(4, 5, 6));
}

#[test]
fn components_by_name() {
    let c = Color::srgba_u8(255, 128, 64, 200);
    let v = c.components();
    assert_eq!((v.r, v.g, v.b, v.a), (255, 128, 64, 200));
    let c = Color::srgb_u8(0, 0, 255);
    assert_eq!(c.components(), Rgb { r: 0, g: 0, b: 255 });
}

#[test]
fn set_components_writes_back() {
    let mut c = Color::srgb_u8(1, 2, 3);
    c.set_components(Rgb { r: 10, g: 20, b: 30 });
    assert_eq!(c, Color::srgb_u8(10, 20, 30));
    let mut c = Color::srgba_u8(1, 2, 3, 4);
    let mut v = c.components();
    v.a = 0;
    c.set_components(v);
    assert_eq!(c.repr, [1, 2, 3, 0]);
}

#[test]
fn cast_and_store_are_inverse() {
    let repr = [7u8, 8, 9];
    let lab = Lab::<u8>::cast(&repr);
    assert_eq!(lab, Lab { l: 7, a: 8, b: 9 });
    let mut out = [0u8; 3];
    lab.store(&mut out);
    assert_eq!(out, repr);
    let rgba = Rgba { r: 1u8, g: 2, b: 3, a: 4 };
    let mut out4 = [0u8; 4];
    rgba.store(&mut out4);
    assert_eq!(Rgba::<u8>::cast(&out4), rgba);
}

#[test]
fn color_into_same_encoding_is_identity() {
    let c = Color::srgb_u8(12, 34, 56);
    let same: Color<SrgbU8> = c.color_into();
    assert_eq!(same, c);
    let a = Color::srgba_u8(0, 0, 0, 0);
    let same_a: Color<SrgbaU8> = a.color_into();
    assert_eq!(same_a, a);
}

#[test]
fn colors_know_their_encoding() {
    assert_eq!(Color::srgb_u8(0, 0, 0).encoding(), EncodingId::EncodedSrgbU8);
    assert_eq!(Color::srgba_u8(0, 0, 0, 0).encoding(), EncodingId::EncodedSrgbaU8);
    let adobe: Color<EncodedAdobeRgbU8> = Color::adobe_rgb_u8(0, 0, 0);
    assert_eq!(adobe.encoding(), EncodingId::EncodedAdobeRgbU8);
    let pro: Color<EncodedProPhotoRgbU8> = Color::prophoto_rgb_u8(0, 0, 0);
    assert_eq!(pro.encoding(), EncodingId::EncodedProPhotoRgbU8);
}

#[test]
fn from_repr_keeps_value() {
    let c = Color::<SrgbaU8>::from_repr([9, 9, 9, 9]);
    assert_eq!(c, Color::srgba_u8(9, 9, 9, 9));
}
