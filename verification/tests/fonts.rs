use vipdf::fonts::{font_candidates, pick_cjk_font, pick_standard_font, CidFamilyKind, FontRequest, StandardFontKind};

#[test]
fn standard_fonts_map_to_liberation_and_foxit() {
    assert_eq!(pick_standard_font(StandardFontKind::Helvetica), "LiberationSans-Regular.ttf");
    assert_eq!(pick_standard_font(StandardFontKind::CourierBoldOblique), "LiberationMono-BoldItalic.ttf");
    assert_eq!(pick_standard_font(StandardFontKind::TimesItalic), "LiberationSerif-Italic.ttf");
    assert_eq!(pick_standard_font(StandardFontKind::ZapfDingBats), "FoxitDingbats.pfb");
    assert_eq!(pick_standard_font(StandardFontKind::Symbol), "FoxitSymbol.pfb");
}

#[test]
fn cjk_families_map_to_noto() {
    assert_eq!(pick_cjk_font(CidFamilyKind::AdobeGB1, true), Some("NotoSansCJKsc-Bold.otf"));
    assert_eq!(pick_cjk_font(CidFamilyKind::AdobeCNS1, false), Some("NotoSansCJKsc-Regular.otf"));
    assert_eq!(pick_cjk_font(CidFamilyKind::AdobeJapan1, false), Some("NotoSansCJKjp-Regular.otf"));
    assert_eq!(pick_cjk_font(CidFamilyKind::AdobeKorea1, true), Some("NotoSansCJKkr-Bold.otf"));
    assert_eq!(pick_cjk_font(CidFamilyKind::AdobeIdentity, true), None);
    assert_eq!(pick_cjk_font(CidFamilyKind::Custom, false), None);
}

#[test]
fn candidates_in_order() {
    assert_eq!(
        font_candidates(FontRequest::Standard(StandardFontKind::TimesBold)),
        vec!["LiberationSerif-Bold.ttf"]
    );
    assert_eq!(
        font_candidates(FontRequest::Fallback {
            family: Some(CidFamilyKind::AdobeJapan1),
            is_bold: true,
            closest: StandardFontKind::HelveticaBold,
        }),
        vec!["NotoSansCJKjp-Bold.otf", "LiberationSans-Bold.ttf"]
    );
    assert_eq!(
        font_candidates(FontRequest::Fallback {
            family: Some(CidFamilyKind::AdobeIdentity),
            is_bold: false,
            closest: StandardFontKind::Courier,
        }),
        vec!["LiberationMono-Regular.ttf"]
    );
    assert_eq!(
        font_candidates(FontRequest::Fallback { family: None, is_bold: false, closest: StandardFontKind::Symbol }),
        vec!["FoxitSymbol.pfb"]
    );
}

#[test]
fn first_available_takes_the_first_present() {
    assert_eq!(vipdf::fonts::first_available(vec![None, Some(2), Some(3)], 9), 2);
    assert_eq!(vipdf::fonts::first_available(vec![Some(1), None], 9), 1);
    assert_eq!(vipdf::fonts::first_available(vec![None, None], 9), 9);
    assert_eq!(vipdf::fonts::first_available(Vec::<Option<u8>>::new(), 9), 9);
}
