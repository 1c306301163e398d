use colstodian::basic_encodings::{LinearSrgb, SrgbU8};
use colstodian::color::{composite_routes, route};
use colstodian::encodings::{
    Aces2065, AcesCg, AdobeRgb, Bt2020, DisplayP3, EncodedAdobeRgbU8, EncodedProPhotoRgbU8,
    EncodedSrgbF32, EncodedSrgbU8, EncodedSrgbaF32, EncodedSrgbaPremultipliedU8, EncodedSrgbaU8,
    Oklab, ProPhotoRgb, Srgb, Srgba, SrgbaPremultiplied,
};
use colstodian::ColorEncoding;
use colstodian::registry::{AlphaMode, EncodingId, LaneType, LinearSpaceId, TransferCurve};
use colstodian::routing::{
    can_convert, composite_encoding, decode_steps, encode_steps, is_srgb_family, plan_conversion,
    ConversionPlan, DecodeSteps, EncodeSteps, Route, SpaceChange,
};
use kolor::details::color::{RGBPrimaries, WhitePoint};

const ALL: [EncodingId; 17] = [
    EncodingId::EncodedSrgbU8,
    EncodingId::EncodedSrgbF32,
    EncodingId::EncodedSrgbaU8,
    EncodingId::EncodedSrgbaF32,
    EncodingId::EncodedSrgbaPremultipliedU8,
    EncodingId::Srgb,
    EncodingId::Srgba,
    EncodingId::SrgbaPremultiplied,
    EncodingId::Oklab,
    EncodingId::AdobeRgb,
    EncodingId::ProPhotoRgb,
    EncodingId::EncodedAdobeRgbU8,
    EncodingId::EncodedProPhotoRgbU8,
    EncodingId::DisplayP3,
    EncodingId::AcesCg,
    EncodingId::Aces2065,
    EncodingId::Bt2020,
];

#[test]
fn self_conversion_is_identity() {
    for e in ALL {
        assert!(can_convert(e, e));
        assert_eq!(plan_conversion(e, e), Some(Route::Identity));
    }
}

#[test]
fn srgb_u8_to_linear_plan() {
    let plan = plan_conversion(EncodingId::EncodedSrgbU8, EncodingId::Srgb);
    let expected = ConversionPlan {
        decode: DecodeSteps {
            lane: LaneType::U8,
            curve: TransferCurve::Srgb,
            unpremultiply: false,
            alpha_from_source: false,
        },
        space_change: None,
        encode: EncodeSteps {
            premultiply: false,
            curve: TransferCurve::Linear,
            lane: LaneType::F32,
            keep_alpha: false,
        },
    };
    assert_eq!(plan, Some(Route::Steps(expected)));
}

#[test]
fn linear_to_oklab_changes_space() {
    let plan = plan_conversion(EncodingId::Srgb, EncodingId::Oklab);
    match plan {
        Some(Route::Steps(p)) => {
            assert_eq!(
                p.space_change,
                Some(SpaceChange { from: LinearSpaceId::Srgb, to: LinearSpaceId::CieXyz })
            );
            assert_eq!(p.decode.curve, TransferCurve::Linear);
            assert_eq!(p.encode.curve, TransferCurve::Oklab);
        }
        other => panic!("unexpected route {:?}", other),
    }
}

#[test]
fn alpha_carried_between_alpha_encodings() {
    let plan = plan_conversion(EncodingId::EncodedSrgbaU8, EncodingId::Srgba);
    match plan {
        Some(Route::Steps(p)) => {
            assert!(p.decode.alpha_from_source);
            assert!(p.encode.keep_alpha);
            assert!(!p.decode.unpremultiply);
            assert!(!p.encode.premultiply);
        }
        other => panic!("unexpected route {:?}", other),
    }
}

#[test]
fn premultiplied_destination_multiplies() {
    let plan = plan_conversion(EncodingId::Srgba, EncodingId::EncodedSrgbaPremultipliedU8);
    match plan {
        Some(Route::Steps(p)) => {
            assert!(p.encode.premultiply);
            assert_eq!(p.encode.lane, LaneType::U8);
            assert_eq!(p.encode.curve, TransferCurve::Srgb);
        }
        other => panic!("unexpected route {:?}", other),
    }
    let back = plan_conversion(EncodingId::EncodedSrgbaPremultipliedU8, EncodingId::Srgba);
    match back {
        Some(Route::Steps(p)) => {
            assert!(p.decode.unpremultiply);
            assert!(!p.encode.premultiply);
        }
        other => panic!("unexpected route {:?}", other),
    }
}

#[test]
fn alpha_dropped_and_filled() {
    match plan_conversion(EncodingId::Srgba, EncodingId::EncodedSrgbU8) {
        Some(Route::Steps(p)) => {
            assert!(p.decode.alpha_from_source);
            assert!(!p.encode.keep_alpha);
        }
        other => panic!("unexpected route {:?}", other),
    }
    match plan_conversion(EncodingId::EncodedSrgbU8, EncodingId::Srgba) {
        Some(Route::Steps(p)) => {
            assert!(!p.decode.alpha_from_source);
            assert!(p.encode.keep_alpha);
        }
        other => panic!("unexpected route {:?}", other),
    }
}

#[test]
fn undeclared_pairs_have_no_route() {
    assert_eq!(plan_conversion(EncodingId::AdobeRgb, EncodingId::Srgb), None);
    assert_eq!(plan_conversion(EncodingId::Srgb, EncodingId::Bt2020), None);
    assert_eq!(plan_conversion(EncodingId::EncodedAdobeRgbU8, EncodingId::AdobeRgb), None);
    assert!(!can_convert(EncodingId::DisplayP3, EncodingId::AcesCg));
}

#[test]
fn srgb_family_is_fully_connected() {
    let family: Vec<EncodingId> = ALL.iter().copied().filter(|e| is_srgb_family(*e)).collect();
    assert_eq!(family.len(), 9);
    for s in &family {
        for d in &family {
            assert!(can_convert(*s, *d));
            assert!(plan_conversion(*s, *d).is_some());
        }
    }
    let mut declared = 0;
    for s in ALL {
        for d in ALL {
            if s != d && can_convert(s, d) {
                declared += 1;
            }
        }
    }
    assert_eq!(declared, 72);
}

#[test]
fn steps_of_each_half() {
    assert_eq!(
        decode_steps(EncodingId::EncodedSrgbaPremultipliedU8),
        DecodeSteps {
            lane: LaneType::U8,
            curve: TransferCurve::Srgb,
            unpremultiply: true,
            alpha_from_source: true,
        }
    );
    assert_eq!(
        encode_steps(EncodingId::EncodedProPhotoRgbU8),
        EncodeSteps {
            premultiply: false,
            curve: TransferCurve::ProPhoto,
            lane: LaneType::U8,
            keep_alpha: false,
        }
    );
}

#[test]
fn compositing_goes_through_linear_premultiplied() {
    assert_eq!(composite_encoding(EncodingId::Srgba), Some(EncodingId::SrgbaPremultiplied));
    assert_eq!(
        composite_encoding(EncodingId::EncodedSrgbaPremultipliedU8),
        Some(EncodingId::SrgbaPremultiplied)
    );
    assert_eq!(
        composite_encoding(EncodingId::SrgbaPremultiplied),
        Some(EncodingId::SrgbaPremultiplied)
    );
    assert_eq!(composite_encoding(EncodingId::EncodedSrgbaU8), None);
    assert_eq!(composite_encoding(EncodingId::Srgb), None);
}

#[test]
fn typed_routes_match_the_catalogue() {
    assert_eq!(route::<SrgbU8, SrgbU8>(), Route::Identity);
    assert_eq!(
        Some(route::<SrgbU8, LinearSrgb>()),
        plan_conversion(EncodingId::EncodedSrgbU8, EncodingId::Srgb)
    );
    assert_eq!(
        Some(route::<Oklab, SrgbU8>()),
        plan_conversion(EncodingId::Oklab, EncodingId::EncodedSrgbU8)
    );
    assert_eq!(
        Some(route::<Srgba, SrgbaPremultiplied>()),
        plan_conversion(EncodingId::Srgba, EncodingId::SrgbaPremultiplied)
    );
    assert_eq!(
        Some(route::<EncodedSrgbaPremultipliedU8, Srgba>()),
        plan_conversion(EncodingId::EncodedSrgbaPremultipliedU8, EncodingId::Srgba)
    );
}

#[test]
fn linear_spaces_primaries_and_white_points() {
    assert_eq!(LinearSpaceId::Srgb.primaries(), RGBPrimaries::BT_709);
    assert_eq!(LinearSpaceId::Srgb.white_point(), WhitePoint::D65);
    assert_eq!(LinearSpaceId::AdobeRgb.primaries(), RGBPrimaries::ADOBE_1998);
    assert_eq!(LinearSpaceId::ProPhotoRgb.primaries(), RGBPrimaries::PRO_PHOTO);
    assert_eq!(LinearSpaceId::ProPhotoRgb.white_point(), WhitePoint::D50);
    assert_eq!(LinearSpaceId::DisplayP3.primaries(), RGBPrimaries::P3);
    assert_eq!(LinearSpaceId::AcesCg.primaries(), RGBPrimaries::AP1);
    assert_eq!(LinearSpaceId::AcesCg.white_point(), WhitePoint::D60);
    assert_eq!(LinearSpaceId::Aces2065.primaries(), RGBPrimaries::AP0);
    assert_eq!(LinearSpaceId::Bt2020.primaries(), RGBPrimaries::BT_2020);
    assert_eq!(LinearSpaceId::CieXyz.primaries(), RGBPrimaries::CIE_XYZ);
    assert!(LinearSpaceId::ProPhotoRgb.needs_chromatic_adaptation(LinearSpaceId::Srgb));
    assert!(LinearSpaceId::AcesCg.needs_chromatic_adaptation(LinearSpaceId::Bt2020));
    assert!(!LinearSpaceId::Srgb.needs_chromatic_adaptation(LinearSpaceId::DisplayP3));
    assert!(!LinearSpaceId::AcesCg.needs_chromatic_adaptation(LinearSpaceId::Aces2065));
}

#[test]
fn catalogue_entries() {
    let oklab = EncodingId::Oklab.info();
    assert!(oklab.working && oklab.perceptual && !oklab.alpha_over);
    assert_eq!(oklab.space, LinearSpaceId::CieXyz);
    let premul = EncodingId::SrgbaPremultiplied.info();
    assert_eq!(premul.alpha, AlphaMode::Premultiplied);
    assert!(!premul.working && premul.alpha_over);
    let u8_srgb = EncodingId::EncodedSrgbU8.info();
    assert_eq!(u8_srgb.lane, LaneType::U8);
    assert!(!u8_srgb.working);
    let adobe = EncodingId::EncodedAdobeRgbU8.info();
    assert_eq!(adobe.curve, TransferCurve::AdobeGamma);
    assert_eq!(adobe.space, LinearSpaceId::AdobeRgb);
}

#[test]
fn encoding_types_carry_their_ids() {
    let ids = [
        EncodedSrgbU8::id(),
        EncodedSrgbF32::id(),
        EncodedSrgbaU8::id(),
        EncodedSrgbaF32::id(),
        EncodedSrgbaPremultipliedU8::id(),
        Srgb::id(),
        Srgba::id(),
        SrgbaPremultiplied::id(),
        Oklab::id(),
        AdobeRgb::id(),
        ProPhotoRgb::id(),
        EncodedAdobeRgbU8::id(),
        EncodedProPhotoRgbU8::id(),
        DisplayP3::id(),
        AcesCg::id(),
        Aces2065::id(),
        Bt2020::id(),
    ];
    assert_eq!(ids, ALL);
}

#[test]
fn composite_routes_go_there_and_back() {
    let (there, back) = composite_routes::<Srgba>();
    assert_eq!(Some(there), plan_conversion(EncodingId::Srgba, EncodingId::SrgbaPremultiplied));
    assert_eq!(Some(back), plan_conversion(EncodingId::SrgbaPremultiplied, EncodingId::Srgba));
    let (there, back) = composite_routes::<SrgbaPremultiplied>();
    assert_eq!(there, Route::Identity);
    assert_eq!(back, Route::Identity);
    let (there, _) = composite_routes::<EncodedSrgbaPremultipliedU8>();
    match there {
        Route::Steps(p) => {
            assert_eq!(p.decode.lane, LaneType::U8);
            assert!(p.decode.unpremultiply);
            assert!(p.encode.premultiply);
            assert_eq!(p.encode.lane, LaneType::F32);
        }
        Route::Identity => panic!("a byte encoding is not its own compositing encoding"),
    }
}
