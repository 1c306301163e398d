//! The catalogue of encodings and linear spaces, described as plain data, and
//! the conversion relation and routing that the engine follows between them.
use vstd::prelude::*;
use kolor::details::color::{RGBPrimaries, WhitePoint};

verus! {

/// kolor's `RGBPrimaries`, a field-less enum naming standard sets of
/// primaries; its variants are visible so that spaces can name theirs.
#[verifier::external_type_specification]
pub struct ExRgbPrimaries(RGBPrimaries);

/// kolor's `WhitePoint`, a field-less enum naming standard illuminants; its
/// variants are visible so that spaces can name theirs.
#[verifier::external_type_specification]
pub struct ExWhitePoint(WhitePoint);

/// A canonical linear color space: one 3x3 matrix away from CIE XYZ, defined
/// by a set of RGB primaries and a white point.
#[derive(Clone, Copy, Debug, PartialEq, Eq, Hash, Structural)]
pub enum LinearSpaceId {
    Srgb,
    AdobeRgb,
    ProPhotoRgb,
    DisplayP3,
    AcesCg,
    Aces2065,
    Bt2020,
    CieXyz,
}

pub open spec fn space_primaries(s: LinearSpaceId) -> RGBPrimaries {
    match s {
        LinearSpaceId::Srgb => RGBPrimaries::BT_709,
        LinearSpaceId::AdobeRgb => RGBPrimaries::ADOBE_1998,
        LinearSpaceId::ProPhotoRgb => RGBPrimaries::PRO_PHOTO,
        LinearSpaceId::DisplayP3 => RGBPrimaries::P3,
        LinearSpaceId::AcesCg => RGBPrimaries::AP1,
        LinearSpaceId::Aces2065 => RGBPrimaries::AP0,
        LinearSpaceId::Bt2020 => RGBPrimaries::BT_2020,
        LinearSpaceId::CieXyz => RGBPrimaries::CIE_XYZ,
    }
}

pub open spec fn space_white_point(s: LinearSpaceId) -> WhitePoint {
    match s {
        LinearSpaceId::ProPhotoRgb => WhitePoint::D50,
        LinearSpaceId::AcesCg | LinearSpaceId::Aces2065 => WhitePoint::D60,
        _ => WhitePoint::D65,
    }
}

impl LinearSpaceId {
    /// The RGB primaries of this space.
    pub fn primaries(self) -> (r: RGBPrimaries)
        ensures
            r == space_primaries(self),
    {
        match self {
            LinearSpaceId::Srgb => RGBPrimaries::BT_709,
            LinearSpaceId::AdobeRgb => RGBPrimaries::ADOBE_1998,
            LinearSpaceId::ProPhotoRgb => RGBPrimaries::PRO_PHOTO,
            LinearSpaceId::DisplayP3 => RGBPrimaries::P3,
            LinearSpaceId::AcesCg => RGBPrimaries::AP1,
            LinearSpaceId::Aces2065 => RGBPrimaries::AP0,
            LinearSpaceId::Bt2020 => RGBPrimaries::BT_2020,
            LinearSpaceId::CieXyz => RGBPrimaries::CIE_XYZ,
        }
    }

    /// The reference white of this space.
    pub fn white_point(self) -> (r: WhitePoint)
        ensures
            r == space_white_point(self),
    {
        match self {
            LinearSpaceId::ProPhotoRgb => WhitePoint::D50,
            LinearSpaceId::AcesCg | LinearSpaceId::Aces2065 => WhitePoint::D60,
            _ => WhitePoint::D65,
        }
    }

    /// Whether a conversion from `self` to `dst` has to adapt between two
    /// different reference whites.
    pub fn needs_chromatic_adaptation(self, dst: LinearSpaceId) -> (r: bool)
        ensures
            r == (space_white_point(self) != space_white_point(dst)),
    {
        match (self.white_point(), dst.white_point()) {
            (WhitePoint::D50, WhitePoint::D50) => false,
            (WhitePoint::D60, WhitePoint::D60) => false,
            (WhitePoint::D65, WhitePoint::D65) => false,
            _ => true,
        }
    }
}

/// The lane type of an encoding's raw representation.
#[derive(Clone, Copy, Debug, PartialEq, Eq, Hash, Structural)]
pub enum LaneType {
    /// 8-bit lanes, always meaning `0..=255`.
    U8,
    /// 32-bit float lanes, unconstrained.
    F32,
}

/// How an encoding stores alpha.
#[derive(Clone, Copy, Debug, PartialEq, Eq, Hash, Structural)]
pub enum AlphaMode {
    /// Three components, no alpha; reads as fully opaque.
    NoAlpha,
    /// Four components; the color is independent of alpha.
    Separate,
    /// Four components; the color has been multiplied by alpha.
    Premultiplied,
}

/// The transform between an encoding's stored values and its linear space.
#[derive(Clone, Copy, Debug, PartialEq, Eq, Hash, Structural)]
pub enum TransferCurve {
    /// The stored values are the linear values.
    Linear,
    /// The sRGB transfer function.
    Srgb,
    /// The pure gamma 563/256 of Adobe RGB.
    AdobeGamma,
    /// The ProPhoto RGB curve: linear below 1/512, gamma 1.8 above.
    ProPhoto,
    /// The Oklab transform from CIE XYZ.
    Oklab,
}

/// Every encoding of the catalogue.
#[derive(Clone, Copy, Debug, PartialEq, Eq, Hash, Structural)]
pub enum EncodingId {
    EncodedSrgbU8,
    EncodedSrgbF32,
    EncodedSrgbaU8,
    EncodedSrgbaF32,
    EncodedSrgbaPremultipliedU8,
    Srgb,
    Srgba,
    SrgbaPremultiplied,
    Oklab,
    AdobeRgb,
    ProPhotoRgb,
    EncodedAdobeRgbU8,
    EncodedProPhotoRgbU8,
    DisplayP3,
    AcesCg,
    Aces2065,
    Bt2020,
}

/// What an encoding is: its raw layout, its transform, its linear space and
/// the operations that are legal on it.
#[derive(Clone, Copy, Debug, PartialEq, Eq, Hash, Structural)]
pub struct EncodingInfo {
    pub lane: LaneType,
    pub alpha: AlphaMode,
    pub curve: TransferCurve,
    pub space: LinearSpaceId,
    /// Direct arithmetic on the stored values is meaningful.
    pub working: bool,
    /// The encoding is designed to be perceptually uniform.
    pub perceptual: bool,
    /// The encoding can do alpha compositing.
    pub alpha_over: bool,
}

pub open spec fn info(
    lane: LaneType,
    alpha: AlphaMode,
    curve: TransferCurve,
    space: LinearSpaceId,
    working: bool,
    perceptual: bool,
    alpha_over: bool,
) -> EncodingInfo {
    EncodingInfo { lane, alpha, curve, space, working, perceptual, alpha_over }
}

/// The catalogue, as a table.
pub open spec fn info_of(e: EncodingId) -> EncodingInfo {
    match e {
        EncodingId::EncodedSrgbU8 =>
            info(LaneType::U8, AlphaMode::NoAlpha, TransferCurve::Srgb, LinearSpaceId::Srgb, false, false, false),
        EncodingId::EncodedSrgbF32 =>
            info(LaneType::F32, AlphaMode::NoAlpha, TransferCurve::Srgb, LinearSpaceId::Srgb, false, false, false),
        EncodingId::EncodedSrgbaU8 =>
            info(LaneType::U8, AlphaMode::Separate, TransferCurve::Srgb, LinearSpaceId::Srgb, false, false, false),
        EncodingId::EncodedSrgbaF32 =>
            info(LaneType::F32, AlphaMode::Separate, TransferCurve::Srgb, LinearSpaceId::Srgb, false, false, false),
        EncodingId::EncodedSrgbaPremultipliedU8 =>
            info(LaneType::U8, AlphaMode::Premultiplied, TransferCurve::Srgb, LinearSpaceId::Srgb, false, false, true),
        EncodingId::Srgb =>
            info(LaneType::F32, AlphaMode::NoAlpha, TransferCurve::Linear, LinearSpaceId::Srgb, true, false, false),
        EncodingId::Srgba =>
            info(LaneType::F32, AlphaMode::Separate, TransferCurve::Linear, LinearSpaceId::Srgb, true, false, true),
        EncodingId::SrgbaPremultiplied =>
            info(LaneType::F32, AlphaMode::Premultiplied, TransferCurve::Linear, LinearSpaceId::Srgb, false, false, true),
        EncodingId::Oklab =>
            info(LaneType::F32, AlphaMode::NoAlpha, TransferCurve::Oklab, LinearSpaceId::CieXyz, true, true, false),
        EncodingId::AdobeRgb =>
            info(LaneType::F32, AlphaMode::NoAlpha, TransferCurve::Linear, LinearSpaceId::AdobeRgb, true, false, false),
        EncodingId::ProPhotoRgb =>
            info(LaneType::F32, AlphaMode::NoAlpha, TransferCurve::Linear, LinearSpaceId::ProPhotoRgb, true, false, false),
        EncodingId::EncodedAdobeRgbU8 =>
            info(LaneType::U8, AlphaMode::NoAlpha, TransferCurve::AdobeGamma, LinearSpaceId::AdobeRgb, false, false, false),
        EncodingId::EncodedProPhotoRgbU8 =>
            info(LaneType::U8, AlphaMode::NoAlpha, TransferCurve::ProPhoto, LinearSpaceId::ProPhotoRgb, false, false, false),
        EncodingId::DisplayP3 =>
            info(LaneType::F32, AlphaMode::NoAlpha, TransferCurve::Linear, LinearSpaceId::DisplayP3, true, false, false),
        EncodingId::AcesCg =>
            info(LaneType::F32, AlphaMode::NoAlpha, TransferCurve::Linear, LinearSpaceId::AcesCg, true, false, false),
        EncodingId::Aces2065 =>
            info(LaneType::F32, AlphaMode::NoAlpha, TransferCurve::Linear, LinearSpaceId::Aces2065, true, false, false),
        EncodingId::Bt2020 =>
            info(LaneType::F32, AlphaMode::NoAlpha, TransferCurve::Linear, LinearSpaceId::Bt2020, true, false, false),
    }
}

/// Number of components in the raw representation.
pub open spec fn channel_count(i: EncodingInfo) -> nat {
    if i.alpha == AlphaMode::NoAlpha { 3 } else { 4 }
}

impl EncodingId {
    /// Looks the encoding up in the catalogue.
    pub fn info(self) -> (r: EncodingInfo)
        ensures
            r == info_of(self),
    {
        let (lane, alpha, curve, space, working, perceptual, alpha_over) = match self {
            EncodingId::EncodedSrgbU8 =>
                (LaneType::U8, AlphaMode::NoAlpha, TransferCurve::Srgb, LinearSpaceId::Srgb, false, false, false),
            EncodingId::EncodedSrgbF32 =>
                (LaneType::F32, AlphaMode::NoAlpha, TransferCurve::Srgb, LinearSpaceId::Srgb, false, false, false),
            EncodingId::EncodedSrgbaU8 =>
                (LaneType::U8, AlphaMode::Separate, TransferCurve::Srgb, LinearSpaceId::Srgb, false, false, false),
            EncodingId::EncodedSrgbaF32 =>
                (LaneType::F32, AlphaMode::Separate, TransferCurve::Srgb, LinearSpaceId::Srgb, false, false, false),
            EncodingId::EncodedSrgbaPremultipliedU8 =>
                (LaneType::U8, AlphaMode::Premultiplied, TransferCurve::Srgb, LinearSpaceId::Srgb, false, false, true),
            EncodingId::Srgb =>
                (LaneType::F32, AlphaMode::NoAlpha, TransferCurve::Linear, LinearSpaceId::Srgb, true, false, false),
            EncodingId::Srgba =>
                (LaneType::F32, AlphaMode::Separate, TransferCurve::Linear, LinearSpaceId::Srgb, true, false, true),
            EncodingId::SrgbaPremultiplied =>
                (LaneType::F32, AlphaMode::Premultiplied, TransferCurve::Linear, LinearSpaceId::Srgb, false, false, true),
            EncodingId::Oklab =>
                (LaneType::F32, AlphaMode::NoAlpha, TransferCurve::Oklab, LinearSpaceId::CieXyz, true, true, false),
            EncodingId::AdobeRgb =>
                (LaneType::F32, AlphaMode::NoAlpha, TransferCurve::Linear, LinearSpaceId::AdobeRgb, true, false, false),
            EncodingId::ProPhotoRgb =>
                (LaneType::F32, AlphaMode::NoAlpha, TransferCurve::Linear, LinearSpaceId::ProPhotoRgb, true, false, false),
            EncodingId::EncodedAdobeRgbU8 =>
                (LaneType::U8, AlphaMode::NoAlpha, TransferCurve::AdobeGamma, LinearSpaceId::AdobeRgb, false, false, false),
            EncodingId::EncodedProPhotoRgbU8 =>
                (LaneType::U8, AlphaMode::NoAlpha, TransferCurve::ProPhoto, LinearSpaceId::ProPhotoRgb, false, false, false),
            EncodingId::DisplayP3 =>
                (LaneType::F32, AlphaMode::NoAlpha, TransferCurve::Linear, LinearSpaceId::DisplayP3, true, false, false),
            EncodingId::AcesCg =>
                (LaneType::F32, AlphaMode::NoAlpha, TransferCurve::Linear, LinearSpaceId::AcesCg, true, false, false),
            EncodingId::Aces2065 =>
                (LaneType::F32, AlphaMode::NoAlpha, TransferCurve::Linear, LinearSpaceId::Aces2065, true, false, false),
            EncodingId::Bt2020 =>
                (LaneType::F32, AlphaMode::NoAlpha, TransferCurve::Linear, LinearSpaceId::Bt2020, true, false, false),
        };
        EncodingInfo { lane, alpha, curve, space, working, perceptual, alpha_over }
    }
}

} // verus!
