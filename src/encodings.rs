//! The concrete encodings of the catalogue, as compile-time tags.
use vstd::prelude::*;
use crate::color::Color;
use crate::component_structs::{Rgb, Rgba};
use crate::registry::EncodingId;
use crate::reprs::{U8Repr, U8aRepr};
use crate::traits::{AlphaOver, ByteEncoding, ColorEncoding, ConvertFrom, PerceptualEncoding, WorkingEncoding};

verus! {

/// The fully-encoded sRGB standard, 8 bits per component: the transfer function
/// applied, then quantized to `0..=255`. This is what color pickers and most
/// image files hold.
#[derive(Clone, Copy, Debug, PartialEq, Eq, Hash)]
pub struct EncodedSrgbU8;

impl Color<EncodedSrgbU8> {
    /// Creates a color in the [`EncodedSrgbU8`] encoding.
    /// If you have RGB values from a color picker that vary from `0-255`, this is
    /// the one.
    pub fn encoded_srgb_u8(r: u8, g: u8, b: u8) -> (c: Self)
        ensures
            c.repr == [r, g, b],
    {
        Color::from_repr([r, g, b])
    }

    /// Another name for [`Color::encoded_srgb_u8`].
    pub fn srgb_u8(r: u8, g: u8, b: u8) -> (c: Self)
        ensures
            c.repr == [r, g, b],
    {
        Self::encoded_srgb_u8(r, g, b)
    }
}

impl ColorEncoding for EncodedSrgbU8 {
    open spec fn spec_id() -> EncodingId {
        EncodingId::EncodedSrgbU8
    }

    fn id() -> (r: EncodingId) {
        EncodingId::EncodedSrgbU8
    }
}

impl ByteEncoding for EncodedSrgbU8 {
    type Repr = U8Repr;
    type ComponentStruct = Rgb<u8>;
}

/// The fully-encoded sRGB standard with float components, nominally in
/// `0.0..=1.0`.
#[derive(Clone, Copy, Debug, PartialEq, Eq, Hash)]
pub struct EncodedSrgbF32;

impl ColorEncoding for EncodedSrgbF32 {
    open spec fn spec_id() -> EncodingId {
        EncodingId::EncodedSrgbF32
    }

    fn id() -> (r: EncodingId) {
        EncodingId::EncodedSrgbF32
    }
}

/// The fully-encoded sRGB standard with a separate alpha, 8 bits per component.
/// Alpha is stored linearly.
#[derive(Clone, Copy, Debug, PartialEq, Eq, Hash)]
pub struct EncodedSrgbaU8;

impl Color<EncodedSrgbaU8> {
    /// Creates a color in the [`EncodedSrgbaU8`] encoding.
    /// The same as [`Color::encoded_srgb_u8`] with a separate, linearly stored
    /// alpha.
    pub fn encoded_srgba_u8(r: u8, g: u8, b: u8, a: u8) -> (c: Self)
        ensures
            c.repr == [r, g, b, a],
    {
        Color::from_repr([r, g, b, a])
    }

    /// Another name for [`Color::encoded_srgba_u8`].
    pub fn srgba_u8(r: u8, g: u8, b: u8, a: u8) -> (c: Self)
        ensures
            c.repr == [r, g, b, a],
    {
        Self::encoded_srgba_u8(r, g, b, a)
    }
}

impl ColorEncoding for EncodedSrgbaU8 {
    open spec fn spec_id() -> EncodingId {
        EncodingId::EncodedSrgbaU8
    }

    fn id() -> (r: EncodingId) {
        EncodingId::EncodedSrgbaU8
    }
}

impl ByteEncoding for EncodedSrgbaU8 {
    type Repr = U8aRepr;
    type ComponentStruct = Rgba<u8>;
}

/// The fully-encoded sRGB standard with a separate alpha and float components.
#[derive(Clone, Copy, Debug, PartialEq, Eq, Hash)]
pub struct EncodedSrgbaF32;

impl ColorEncoding for EncodedSrgbaF32 {
    open spec fn spec_id() -> EncodingId {
        EncodingId::EncodedSrgbaF32
    }

    fn id() -> (r: EncodingId) {
        EncodingId::EncodedSrgbaF32
    }
}

/// The fully-encoded sRGB standard with premultiplied alpha, 8 bits per
/// component: the color is multiplied by alpha before the transfer function is
/// applied.
#[derive(Clone, Copy, Debug, PartialEq, Eq, Hash)]
pub struct EncodedSrgbaPremultipliedU8;

impl ColorEncoding for EncodedSrgbaPremultipliedU8 {
    open spec fn spec_id() -> EncodingId {
        EncodingId::EncodedSrgbaPremultipliedU8
    }

    fn id() -> (r: EncodingId) {
        EncodingId::EncodedSrgbaPremultipliedU8
    }
}

impl ByteEncoding for EncodedSrgbaPremultipliedU8 {
    type Repr = U8aRepr;
    type ComponentStruct = Rgba<u8>;
}

/// Linear sRGB: the sRGB primaries and white point with no transfer function. A
/// working encoding.
#[derive(Clone, Copy, Debug, PartialEq, Eq, Hash)]
pub struct Srgb;

impl ColorEncoding for Srgb {
    open spec fn spec_id() -> EncodingId {
        EncodingId::Srgb
    }

    fn id() -> (r: EncodingId) {
        EncodingId::Srgb
    }
}

/// Linear sRGB with a separate alpha component. A working encoding.
#[derive(Clone, Copy, Debug, PartialEq, Eq, Hash)]
pub struct Srgba;

impl ColorEncoding for Srgba {
    open spec fn spec_id() -> EncodingId {
        EncodingId::Srgba
    }

    fn id() -> (r: EncodingId) {
        EncodingId::Srgba
    }
}

/// Linear sRGB with premultiplied alpha, the form in which compositing is
/// computed.
#[derive(Clone, Copy, Debug, PartialEq, Eq, Hash)]
pub struct SrgbaPremultiplied;

impl ColorEncoding for SrgbaPremultiplied {
    open spec fn spec_id() -> EncodingId {
        EncodingId::SrgbaPremultiplied
    }

    fn id() -> (r: EncodingId) {
        EncodingId::SrgbaPremultiplied
    }
}

/// The Oklab perceptually-uniform color space, with float components.
#[derive(Clone, Copy, Debug, PartialEq, Eq, Hash)]
pub struct Oklab;

impl ColorEncoding for Oklab {
    open spec fn spec_id() -> EncodingId {
        EncodingId::Oklab
    }

    fn id() -> (r: EncodingId) {
        EncodingId::Oklab
    }
}

/// Linear Adobe RGB (1998).
#[derive(Clone, Copy, Debug, PartialEq, Eq, Hash)]
pub struct AdobeRgb;

impl ColorEncoding for AdobeRgb {
    open spec fn spec_id() -> EncodingId {
        EncodingId::AdobeRgb
    }

    fn id() -> (r: EncodingId) {
        EncodingId::AdobeRgb
    }
}

/// Linear ProPhoto RGB.
#[derive(Clone, Copy, Debug, PartialEq, Eq, Hash)]
pub struct ProPhotoRgb;

impl ColorEncoding for ProPhotoRgb {
    open spec fn spec_id() -> EncodingId {
        EncodingId::ProPhotoRgb
    }

    fn id() -> (r: EncodingId) {
        EncodingId::ProPhotoRgb
    }
}

/// Adobe RGB (1998) with its gamma applied, 8 bits per component.
#[derive(Clone, Copy, Debug, PartialEq, Eq, Hash)]
pub struct EncodedAdobeRgbU8;

impl Color<EncodedAdobeRgbU8> {
    /// Creates a color in the [`EncodedAdobeRgbU8`] encoding.
    /// Values as an Adobe RGB (1998) image stores them.
    pub fn encoded_adobe_rgb_u8(r: u8, g: u8, b: u8) -> (c: Self)
        ensures
            c.repr == [r, g, b],
    {
        Color::from_repr([r, g, b])
    }

    /// Another name for [`Color::encoded_adobe_rgb_u8`].
    pub fn adobe_rgb_u8(r: u8, g: u8, b: u8) -> (c: Self)
        ensures
            c.repr == [r, g, b],
    {
        Self::encoded_adobe_rgb_u8(r, g, b)
    }
}

impl ColorEncoding for EncodedAdobeRgbU8 {
    open spec fn spec_id() -> EncodingId {
        EncodingId::EncodedAdobeRgbU8
    }

    fn id() -> (r: EncodingId) {
        EncodingId::EncodedAdobeRgbU8
    }
}

impl ByteEncoding for EncodedAdobeRgbU8 {
    type Repr = U8Repr;
    type ComponentStruct = Rgb<u8>;
}

/// ProPhoto RGB with its transfer curve applied, 8 bits per component.
#[derive(Clone, Copy, Debug, PartialEq, Eq, Hash)]
pub struct EncodedProPhotoRgbU8;

impl Color<EncodedProPhotoRgbU8> {
    /// Creates a color in the [`EncodedProPhotoRgbU8`] encoding.
    /// Values as a ProPhoto RGB image stores them.
    pub fn encoded_prophoto_rgb_u8(r: u8, g: u8, b: u8) -> (c: Self)
        ensures
            c.repr == [r, g, b],
    {
        Color::from_repr([r, g, b])
    }

    /// Another name for [`Color::encoded_prophoto_rgb_u8`].
    pub fn prophoto_rgb_u8(r: u8, g: u8, b: u8) -> (c: Self)
        ensures
            c.repr == [r, g, b],
    {
        Self::encoded_prophoto_rgb_u8(r, g, b)
    }
}

impl ColorEncoding for EncodedProPhotoRgbU8 {
    open spec fn spec_id() -> EncodingId {
        EncodingId::EncodedProPhotoRgbU8
    }

    fn id() -> (r: EncodingId) {
        EncodingId::EncodedProPhotoRgbU8
    }
}

impl ByteEncoding for EncodedProPhotoRgbU8 {
    type Repr = U8Repr;
    type ComponentStruct = Rgb<u8>;
}

/// Linear Display P3.
#[derive(Clone, Copy, Debug, PartialEq, Eq, Hash)]
pub struct DisplayP3;

impl ColorEncoding for DisplayP3 {
    open spec fn spec_id() -> EncodingId {
        EncodingId::DisplayP3
    }

    fn id() -> (r: EncodingId) {
        EncodingId::DisplayP3
    }
}

/// Linear ACEScg.
#[derive(Clone, Copy, Debug, PartialEq, Eq, Hash)]
pub struct AcesCg;

impl ColorEncoding for AcesCg {
    open spec fn spec_id() -> EncodingId {
        EncodingId::AcesCg
    }

    fn id() -> (r: EncodingId) {
        EncodingId::AcesCg
    }
}

/// Linear ACES2065-1.
#[derive(Clone, Copy, Debug, PartialEq, Eq, Hash)]
pub struct Aces2065;

impl ColorEncoding for Aces2065 {
    open spec fn spec_id() -> EncodingId {
        EncodingId::Aces2065
    }

    fn id() -> (r: EncodingId) {
        EncodingId::Aces2065
    }
}

/// Linear BT.2020.
#[derive(Clone, Copy, Debug, PartialEq, Eq, Hash)]
pub struct Bt2020;

impl ColorEncoding for Bt2020 {
    open spec fn spec_id() -> EncodingId {
        EncodingId::Bt2020
    }

    fn id() -> (r: EncodingId) {
        EncodingId::Bt2020
    }
}

impl WorkingEncoding for Srgb {
    proof fn lemma_working() {
    }
}

impl WorkingEncoding for Srgba {
    proof fn lemma_working() {
    }
}

impl WorkingEncoding for Oklab {
    proof fn lemma_working() {
    }
}

impl WorkingEncoding for AdobeRgb {
    proof fn lemma_working() {
    }
}

impl WorkingEncoding for ProPhotoRgb {
    proof fn lemma_working() {
    }
}

impl WorkingEncoding for DisplayP3 {
    proof fn lemma_working() {
    }
}

impl WorkingEncoding for AcesCg {
    proof fn lemma_working() {
    }
}

impl WorkingEncoding for Aces2065 {
    proof fn lemma_working() {
    }
}

impl WorkingEncoding for Bt2020 {
    proof fn lemma_working() {
    }
}

impl PerceptualEncoding for Oklab {
    proof fn lemma_perceptual() {
    }
}

impl AlphaOver for EncodedSrgbaPremultipliedU8 {
    proof fn lemma_alpha_over() {
    }
}

impl AlphaOver for Srgba {
    proof fn lemma_alpha_over() {
    }
}

impl AlphaOver for SrgbaPremultiplied {
    proof fn lemma_alpha_over() {
    }
}

// The sRGB-based encodings and Oklab convert directly between each other.

impl ConvertFrom<EncodedSrgbF32> for EncodedSrgbU8 {
    proof fn lemma_declared() {
    }
}

impl ConvertFrom<EncodedSrgbaU8> for EncodedSrgbU8 {
    proof fn lemma_declared() {
    }
}

impl ConvertFrom<EncodedSrgbaF32> for EncodedSrgbU8 {
    proof fn lemma_declared() {
    }
}

impl ConvertFrom<EncodedSrgbaPremultipliedU8> for EncodedSrgbU8 {
    proof fn lemma_declared() {
    }
}

impl ConvertFrom<Srgb> for EncodedSrgbU8 {
    proof fn lemma_declared() {
    }
}

impl ConvertFrom<Srgba> for EncodedSrgbU8 {
    proof fn lemma_declared() {
    }
}

impl ConvertFrom<SrgbaPremultiplied> for EncodedSrgbU8 {
    proof fn lemma_declared() {
    }
}

impl ConvertFrom<Oklab> for EncodedSrgbU8 {
    proof fn lemma_declared() {
    }
}

impl ConvertFrom<EncodedSrgbU8> for EncodedSrgbF32 {
    proof fn lemma_declared() {
    }
}

impl ConvertFrom<EncodedSrgbaU8> for EncodedSrgbF32 {
    proof fn lemma_declared() {
    }
}

impl ConvertFrom<EncodedSrgbaF32> for EncodedSrgbF32 {
    proof fn lemma_declared() {
    }
}

impl ConvertFrom<EncodedSrgbaPremultipliedU8> for EncodedSrgbF32 {
    proof fn lemma_declared() {
    }
}

impl ConvertFrom<Srgb> for EncodedSrgbF32 {
    proof fn lemma_declared() {
    }
}

impl ConvertFrom<Srgba> for EncodedSrgbF32 {
    proof fn lemma_declared() {
    }
}

impl ConvertFrom<SrgbaPremultiplied> for EncodedSrgbF32 {
    proof fn lemma_declared() {
    }
}

impl ConvertFrom<Oklab> for EncodedSrgbF32 {
    proof fn lemma_declared() {
    }
}

impl ConvertFrom<EncodedSrgbU8> for EncodedSrgbaU8 {
    proof fn lemma_declared() {
    }
}

impl ConvertFrom<EncodedSrgbF32> for EncodedSrgbaU8 {
    proof fn lemma_declared() {
    }
}

impl ConvertFrom<EncodedSrgbaF32> for EncodedSrgbaU8 {
    proof fn lemma_declared() {
    }
}

impl ConvertFrom<EncodedSrgbaPremultipliedU8> for EncodedSrgbaU8 {
    proof fn lemma_declared() {
    }
}

impl ConvertFrom<Srgb> for EncodedSrgbaU8 {
    proof fn lemma_declared() {
    }
}

impl ConvertFrom<Srgba> for EncodedSrgbaU8 {
    proof fn lemma_declared() {
    }
}

impl ConvertFrom<SrgbaPremultiplied> for EncodedSrgbaU8 {
    proof fn lemma_declared() {
    }
}

impl ConvertFrom<Oklab> for EncodedSrgbaU8 {
    proof fn lemma_declared() {
    }
}

impl ConvertFrom<EncodedSrgbU8> for EncodedSrgbaF32 {
    proof fn lemma_declared() {
    }
}

impl ConvertFrom<EncodedSrgbF32> for EncodedSrgbaF32 {
    proof fn lemma_declared() {
    }
}

impl ConvertFrom<EncodedSrgbaU8> for EncodedSrgbaF32 {
    proof fn lemma_declared() {
    }
}

impl ConvertFrom<EncodedSrgbaPremultipliedU8> for EncodedSrgbaF32 {
    proof fn lemma_declared() {
    }
}

impl ConvertFrom<Srgb> for EncodedSrgbaF32 {
    proof fn lemma_declared() {
    }
}

impl ConvertFrom<Srgba> for EncodedSrgbaF32 {
    proof fn lemma_declared() {
    }
}

impl ConvertFrom<SrgbaPremultiplied> for EncodedSrgbaF32 {
    proof fn lemma_declared() {
    }
}

impl ConvertFrom<Oklab> for EncodedSrgbaF32 {
    proof fn lemma_declared() {
    }
}

impl ConvertFrom<EncodedSrgbU8> for EncodedSrgbaPremultipliedU8 {
    proof fn lemma_declared() {
    }
}

impl ConvertFrom<EncodedSrgbF32> for EncodedSrgbaPremultipliedU8 {
    proof fn lemma_declared() {
    }
}

impl ConvertFrom<EncodedSrgbaU8> for EncodedSrgbaPremultipliedU8 {
    proof fn lemma_declared() {
    }
}

impl ConvertFrom<EncodedSrgbaF32> for EncodedSrgbaPremultipliedU8 {
    proof fn lemma_declared() {
    }
}

impl ConvertFrom<Srgb> for EncodedSrgbaPremultipliedU8 {
    proof fn lemma_declared() {
    }
}

impl ConvertFrom<Srgba> for EncodedSrgbaPremultipliedU8 {
    proof fn lemma_declared() {
    }
}

impl ConvertFrom<SrgbaPremultiplied> for EncodedSrgbaPremultipliedU8 {
    proof fn lemma_declared() {
    }
}

impl ConvertFrom<Oklab> for EncodedSrgbaPremultipliedU8 {
    proof fn lemma_declared() {
    }
}

impl ConvertFrom<EncodedSrgbU8> for Srgb {
    proof fn lemma_declared() {
    }
}

impl ConvertFrom<EncodedSrgbF32> for Srgb {
    proof fn lemma_declared() {
    }
}

impl ConvertFrom<EncodedSrgbaU8> for Srgb {
    proof fn lemma_declared() {
    }
}

impl ConvertFrom<EncodedSrgbaF32> for Srgb {
    proof fn lemma_declared() {
    }
}

impl ConvertFrom<EncodedSrgbaPremultipliedU8> for Srgb {
    proof fn lemma_declared() {
    }
}

impl ConvertFrom<Srgba> for Srgb {
    proof fn lemma_declared() {
    }
}

impl ConvertFrom<SrgbaPremultiplied> for Srgb {
    proof fn lemma_declared() {
    }
}

impl ConvertFrom<Oklab> for Srgb {
    proof fn lemma_declared() {
    }
}

impl ConvertFrom<EncodedSrgbU8> for Srgba {
    proof fn lemma_declared() {
    }
}

impl ConvertFrom<EncodedSrgbF32> for Srgba {
    proof fn lemma_declared() {
    }
}

impl ConvertFrom<EncodedSrgbaU8> for Srgba {
    proof fn lemma_declared() {
    }
}

impl ConvertFrom<EncodedSrgbaF32> for Srgba {
    proof fn lemma_declared() {
    }
}

impl ConvertFrom<EncodedSrgbaPremultipliedU8> for Srgba {
    proof fn lemma_declared() {
    }
}

impl ConvertFrom<Srgb> for Srgba {
    proof fn lemma_declared() {
    }
}

impl ConvertFrom<SrgbaPremultiplied> for Srgba {
    proof fn lemma_declared() {
    }
}

impl ConvertFrom<Oklab> for Srgba {
    proof fn lemma_declared() {
    }
}

impl ConvertFrom<EncodedSrgbU8> for SrgbaPremultiplied {
    proof fn lemma_declared() {
    }
}

impl ConvertFrom<EncodedSrgbF32> for SrgbaPremultiplied {
    proof fn lemma_declared() {
    }
}

impl ConvertFrom<EncodedSrgbaU8> for SrgbaPremultiplied {
    proof fn lemma_declared() {
    }
}

impl ConvertFrom<EncodedSrgbaF32> for SrgbaPremultiplied {
    proof fn lemma_declared() {
    }
}

impl ConvertFrom<EncodedSrgbaPremultipliedU8> for SrgbaPremultiplied {
    proof fn lemma_declared() {
    }
}

impl ConvertFrom<Srgb> for SrgbaPremultiplied {
    proof fn lemma_declared() {
    }
}

impl ConvertFrom<Srgba> for SrgbaPremultiplied {
    proof fn lemma_declared() {
    }
}

impl ConvertFrom<Oklab> for SrgbaPremultiplied {
    proof fn lemma_declared() {
    }
}

impl ConvertFrom<EncodedSrgbU8> for Oklab {
    proof fn lemma_declared() {
    }
}

impl ConvertFrom<EncodedSrgbF32> for Oklab {
    proof fn lemma_declared() {
    }
}

impl ConvertFrom<EncodedSrgbaU8> for Oklab {
    proof fn lemma_declared() {
    }
}

impl ConvertFrom<EncodedSrgbaF32> for Oklab {
    proof fn lemma_declared() {
    }
}

impl ConvertFrom<EncodedSrgbaPremultipliedU8> for Oklab {
    proof fn lemma_declared() {
    }
}

impl ConvertFrom<Srgb> for Oklab {
    proof fn lemma_declared() {
    }
}

impl ConvertFrom<Srgba> for Oklab {
    proof fn lemma_declared() {
    }
}

impl ConvertFrom<SrgbaPremultiplied> for Oklab {
    proof fn lemma_declared() {
    }
}

} // verus!
