//! The encodings most people need, under their everyday names.
use vstd::prelude::*;
use crate::encodings::{EncodedSrgbF32, EncodedSrgbU8, EncodedSrgbaF32, EncodedSrgbaU8, Srgb, Srgba};

verus! {

/// 8-bit sRGB, as color pickers and image files give it.
pub type SrgbU8 = EncodedSrgbU8;

/// 8-bit sRGB with a separate alpha.
pub type SrgbaU8 = EncodedSrgbaU8;

/// Float sRGB with the transfer function applied.
pub type SrgbF32 = EncodedSrgbF32;

/// Float sRGB with the transfer function applied and a separate alpha.
pub type SrgbaF32 = EncodedSrgbaF32;

/// Linear sRGB, the common working encoding.
pub type LinearSrgb = Srgb;

/// Linear sRGB with a separate alpha.
pub type LinearSrgba = Srgba;

} // verus!
