//! The conversion relation between encodings and the route a conversion
//! takes: source transform, linear-space change, destination transform.
use vstd::prelude::*;
use crate::registry::{info_of, AlphaMode, EncodingId, EncodingInfo, LaneType, LinearSpaceId, TransferCurve};

verus! {

/// The sRGB-based encodings and Oklab: every ordered pair of distinct members
/// is a declared conversion.
pub open spec fn in_srgb_family(e: EncodingId) -> bool {
    match e {
        EncodingId::EncodedSrgbU8
        | EncodingId::EncodedSrgbF32
        | EncodingId::EncodedSrgbaU8
        | EncodingId::EncodedSrgbaF32
        | EncodingId::EncodedSrgbaPremultipliedU8
        | EncodingId::Srgb
        | EncodingId::Srgba
        | EncodingId::SrgbaPremultiplied
        | EncodingId::Oklab => true,
        _ => false,
    }
}

/// `dst` can be produced directly from `src`: itself, or a declared pair.
pub open spec fn converts_from(dst: EncodingId, src: EncodingId) -> bool {
    dst == src || (in_srgb_family(dst) && in_srgb_family(src))
}

/// Whether `e` belongs to the interoperating sRGB/Oklab group.
pub fn is_srgb_family(e: EncodingId) -> (r: bool)
    ensures
        r == in_srgb_family(e),
{
    match e {
        EncodingId::EncodedSrgbU8
        | EncodingId::EncodedSrgbF32
        | EncodingId::EncodedSrgbaU8
        | EncodingId::EncodedSrgbaF32
        | EncodingId::EncodedSrgbaPremultipliedU8
        | EncodingId::Srgb
        | EncodingId::Srgba
        | EncodingId::SrgbaPremultiplied
        | EncodingId::Oklab => true,
        _ => false,
    }
}

/// Whether a conversion from `src` to `dst` is declared.
pub fn can_convert(src: EncodingId, dst: EncodingId) -> (r: bool)
    ensures
        r == converts_from(dst, src),
{
    src == dst || (is_srgb_family(dst) && is_srgb_family(src))
}

/// The first half of a conversion: from an encoding's stored values to a
/// linear color in its linear space and a separate alpha.
#[derive(Clone, Copy, Debug, PartialEq, Eq, Hash, Structural)]
pub struct DecodeSteps {
    /// `U8`: the stored values are first read as `v / 255`.
    pub lane: LaneType,
    /// The transform from the stored values to the linear space.
    pub curve: TransferCurve,
    /// The color was stored multiplied by alpha: divide by it.
    pub unpremultiply: bool,
    /// The alpha comes from the stored values; otherwise it is 1.
    pub alpha_from_source: bool,
}

/// The second half of a conversion: from a linear color and a separate alpha
/// to an encoding's stored values.
#[derive(Clone, Copy, Debug, PartialEq, Eq, Hash, Structural)]
pub struct EncodeSteps {
    /// The encoding stores its color multiplied by alpha.
    pub premultiply: bool,
    /// The transform from the linear space to the stored values.
    pub curve: TransferCurve,
    /// `U8`: each value is clamped to `[0, 1]`, scaled by 255 and rounded;
    /// `F32`: values pass unclamped.
    pub lane: LaneType,
    /// The encoding stores alpha; otherwise alpha is dropped.
    pub keep_alpha: bool,
}

/// A change of linear space: one 3x3 matrix, which adapts the white point
/// too when the two spaces have different reference whites.
#[derive(Clone, Copy, Debug, PartialEq, Eq, Hash, Structural)]
pub struct SpaceChange {
    pub from: LinearSpaceId,
    pub to: LinearSpaceId,
}

/// The steps of a conversion between two distinct encodings, in order. Alpha
/// goes around the space change untouched.
#[derive(Clone, Copy, Debug, PartialEq, Eq, Hash, Structural)]
pub struct ConversionPlan {
    pub decode: DecodeSteps,
    /// The matrix step; `None` when both encodings share their linear space.
    pub space_change: Option<SpaceChange>,
    pub encode: EncodeSteps,
}

/// How a conversion is carried out.
#[derive(Clone, Copy, Debug, PartialEq, Eq, Hash, Structural)]
pub enum Route {
    /// Source and destination are the same encoding: the value is kept as it is.
    Identity,
    /// A declared pair of distinct encodings.
    Steps(ConversionPlan),
}

pub open spec fn has_alpha(i: EncodingInfo) -> bool {
    i.alpha != AlphaMode::NoAlpha
}

pub open spec fn decode_steps_of(e: EncodingId) -> DecodeSteps {
    let i = info_of(e);
    DecodeSteps {
        lane: i.lane,
        curve: i.curve,
        unpremultiply: i.alpha == AlphaMode::Premultiplied,
        alpha_from_source: has_alpha(i),
    }
}

pub open spec fn encode_steps_of(e: EncodingId) -> EncodeSteps {
    let i = info_of(e);
    EncodeSteps {
        premultiply: i.alpha == AlphaMode::Premultiplied,
        curve: i.curve,
        lane: i.lane,
        keep_alpha: has_alpha(i),
    }
}

pub open spec fn space_change_of(src: EncodingId, dst: EncodingId) -> Option<SpaceChange> {
    let (s, d) = (info_of(src).space, info_of(dst).space);
    if s == d {
        None
    } else {
        Some(SpaceChange { from: s, to: d })
    }
}

pub open spec fn plan_between(src: EncodingId, dst: EncodingId) -> ConversionPlan {
    ConversionPlan {
        decode: decode_steps_of(src),
        space_change: space_change_of(src, dst),
        encode: encode_steps_of(dst),
    }
}

pub open spec fn route_between(src: EncodingId, dst: EncodingId) -> Option<Route> {
    if !converts_from(dst, src) {
        None
    } else if src == dst {
        Some(Route::Identity)
    } else {
        Some(Route::Steps(plan_between(src, dst)))
    }
}

/// How the stored values of `e` become linear color and alpha.
pub fn decode_steps(e: EncodingId) -> (r: DecodeSteps)
    ensures
        r == decode_steps_of(e),
{
    let i = e.info();
    DecodeSteps {
        lane: i.lane,
        curve: i.curve,
        unpremultiply: i.alpha == AlphaMode::Premultiplied,
        alpha_from_source: i.alpha != AlphaMode::NoAlpha,
    }
}

/// How linear color and alpha become the stored values of `e`.
pub fn encode_steps(e: EncodingId) -> (r: EncodeSteps)
    ensures
        r == encode_steps_of(e),
{
    let i = e.info();
    EncodeSteps {
        premultiply: i.alpha == AlphaMode::Premultiplied,
        curve: i.curve,
        lane: i.lane,
        keep_alpha: i.alpha != AlphaMode::NoAlpha,
    }
}

/// The route from `src` to `dst`, or `None` when the pair is not declared.
pub fn plan_conversion(src: EncodingId, dst: EncodingId) -> (r: Option<Route>)
    ensures
        r is None <==> !converts_from(dst, src),
        src == dst ==> r == Some(Route::Identity),
        src != dst && converts_from(dst, src) ==> r == Some(Route::Steps(plan_between(src, dst))),
{
    if !can_convert(src, dst) {
        return None;
    }
    if src == dst {
        return Some(Route::Identity);
    }
    let (s, d) = (src.info().space, dst.info().space);
    let space_change = if s == d {
        None
    } else {
        Some(SpaceChange { from: s, to: d })
    };
    Some(Route::Steps(ConversionPlan { decode: decode_steps(src), space_change, encode: encode_steps(dst) }))
}

/// The premultiplied encoding in which `e` composites, when it can.
pub open spec fn composite_encoding_of(e: EncodingId) -> Option<EncodingId> {
    if info_of(e).alpha_over {
        Some(EncodingId::SrgbaPremultiplied)
    } else {
        None
    }
}

/// Where the "over" operator of `e` is computed: compositing is defined once,
/// on linear premultiplied values, and other alpha encodings go there and back.
pub fn composite_encoding(e: EncodingId) -> (r: Option<EncodingId>)
    ensures
        r == composite_encoding_of(e),
{
    if e.info().alpha_over {
        Some(EncodingId::SrgbaPremultiplied)
    } else {
        None
    }
}

/// Converting an encoding to itself is the identity: no transform runs.
pub proof fn lemma_self_conversion_is_identity(e: EncodingId)
    ensures
        route_between(e, e) == Some(Route::Identity),
        converts_from(e, e),
{
}

/// Every encoding that composites reaches its compositing encoding and comes
/// back by declared conversions, within the same linear space; that encoding
/// is linear, float-valued and premultiplied.
pub proof fn lemma_composite_round_trip(e: EncodingId)
    requires
        info_of(e).alpha_over,
    ensures
        composite_encoding_of(e) matches Some(p) && converts_from(p, e) && converts_from(e, p)
            && info_of(p).space == info_of(e).space && info_of(p).alpha == AlphaMode::Premultiplied
            && info_of(p).lane == LaneType::F32 && info_of(p).curve == TransferCurve::Linear,
{
}

/// Alpha is never lost between two encodings that both store it; between two
/// separate-alpha encodings the color is neither divided nor multiplied by it;
/// and a conversion between encodings that share a linear space has no
/// matrix step.
pub proof fn lemma_plan_shape(src: EncodingId, dst: EncodingId)
    requires
        converts_from(dst, src),
        src != dst,
    ensures
        has_alpha(info_of(src)) && has_alpha(info_of(dst)) ==> plan_between(src, dst).decode.alpha_from_source
            && plan_between(src, dst).encode.keep_alpha,
        info_of(src).alpha == AlphaMode::Separate && info_of(dst).alpha == AlphaMode::Separate
            ==> !plan_between(src, dst).decode.unpremultiply && !plan_between(src, dst).encode.premultiply,
        (plan_between(src, dst).space_change is None) <==> info_of(src).space == info_of(dst).space,
{
}

} // verus!
