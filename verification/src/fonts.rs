//! Which font files stand in for the fonts that a PDF names but does not
//! embed: the Liberation and Foxit files for the 14 standard fonts, Noto CJK
//! for Chinese, Japanese and Korean character collections.
use vstd::prelude::*;

verus! {

/// The 14 standard fonts of PDF.
#[derive(Clone, Copy, Debug, PartialEq, Eq, Structural)]
pub enum StandardFontKind {
    Helvetica,
    HelveticaBold,
    HelveticaOblique,
    HelveticaBoldOblique,
    Courier,
    CourierBold,
    CourierOblique,
    CourierBoldOblique,
    TimesRoman,
    TimesBold,
    TimesItalic,
    TimesBoldItalic,
    ZapfDingBats,
    Symbol,
}

/// The registry and ordering family of a CID character collection.
#[derive(Clone, Copy, Debug, PartialEq, Eq, Structural)]
pub enum CidFamilyKind {
    AdobeJapan1,
    AdobeGB1,
    AdobeCNS1,
    AdobeKorea1,
    AdobeIdentity,
    Custom,
}

/// A font that a PDF asks for without embedding it.
#[derive(Clone, Copy, Debug, PartialEq, Eq, Structural)]
pub enum FontRequest {
    /// One of the standard fonts.
    Standard(StandardFontKind),
    /// Some other font: the family of its character collection if it is a CID
    /// font, whether it is bold, and the standard font that resembles it most.
    Fallback { family: Option<CidFamilyKind>, is_bold: bool, closest: StandardFontKind },
}

/// The file that stands in for a standard font.
pub open spec fn standard_font_file(font: StandardFontKind) -> Seq<char> {
    match font {
        StandardFontKind::Helvetica => "LiberationSans-Regular.ttf"@,
        StandardFontKind::HelveticaBold => "LiberationSans-Bold.ttf"@,
        StandardFontKind::HelveticaOblique => "LiberationSans-Italic.ttf"@,
        StandardFontKind::HelveticaBoldOblique => "LiberationSans-BoldItalic.ttf"@,
        StandardFontKind::Courier => "LiberationMono-Regular.ttf"@,
        StandardFontKind::CourierBold => "LiberationMono-Bold.ttf"@,
        StandardFontKind::CourierOblique => "LiberationMono-Italic.ttf"@,
        StandardFontKind::CourierBoldOblique => "LiberationMono-BoldItalic.ttf"@,
        StandardFontKind::TimesRoman => "LiberationSerif-Regular.ttf"@,
        StandardFontKind::TimesBold => "LiberationSerif-Bold.ttf"@,
        StandardFontKind::TimesItalic => "LiberationSerif-Italic.ttf"@,
        StandardFontKind::TimesBoldItalic => "LiberationSerif-BoldItalic.ttf"@,
        StandardFontKind::ZapfDingBats => "FoxitDingbats.pfb"@,
        StandardFontKind::Symbol => "FoxitSymbol.pfb"@,
    }
}

/// The Noto CJK file for a character collection family, if it is Chinese,
/// Japanese or Korean.
pub open spec fn cjk_font_file(family: CidFamilyKind, is_bold: bool) -> Option<Seq<char>> {
    match family {
        CidFamilyKind::AdobeGB1 | CidFamilyKind::AdobeCNS1 => Some(
            if is_bold { "NotoSansCJKsc-Bold.otf"@ } else { "NotoSansCJKsc-Regular.otf"@ },
        ),
        CidFamilyKind::AdobeJapan1 => Some(
            if is_bold { "NotoSansCJKjp-Bold.otf"@ } else { "NotoSansCJKjp-Regular.otf"@ },
        ),
        CidFamilyKind::AdobeKorea1 => Some(
            if is_bold { "NotoSansCJKkr-Bold.otf"@ } else { "NotoSansCJKkr-Regular.otf"@ },
        ),
        _ => None,
    }
}

/// The files to try for a request, in order; the font built into the renderer
/// for the (closest) standard font serves when none of them can be read.
pub open spec fn font_candidates_spec(request: FontRequest) -> Seq<Seq<char>> {
    match request {
        FontRequest::Standard(font) => seq![standard_font_file(font)],
        FontRequest::Fallback { family, is_bold, closest } => match family {
            Some(f) => match cjk_font_file(f, is_bold) {
                Some(file) => seq![file, standard_font_file(closest)],
                None => seq![standard_font_file(closest)],
            },
            None => seq![standard_font_file(closest)],
        },
    }
}

/// The file that stands in for a standard font.
pub fn pick_standard_font(font: StandardFontKind) -> (name: &'static str)
    ensures
        name@ == standard_font_file(font),
{
    match font {
        StandardFontKind::Helvetica => "LiberationSans-Regular.ttf",
        StandardFontKind::HelveticaBold => "LiberationSans-Bold.ttf",
        StandardFontKind::HelveticaOblique => "LiberationSans-Italic.ttf",
        StandardFontKind::HelveticaBoldOblique => "LiberationSans-BoldItalic.ttf",
        StandardFontKind::Courier => "LiberationMono-Regular.ttf",
        StandardFontKind::CourierBold => "LiberationMono-Bold.ttf",
        StandardFontKind::CourierOblique => "LiberationMono-Italic.ttf",
        StandardFontKind::CourierBoldOblique => "LiberationMono-BoldItalic.ttf",
        StandardFontKind::TimesRoman => "LiberationSerif-Regular.ttf",
        StandardFontKind::TimesBold => "LiberationSerif-Bold.ttf",
        StandardFontKind::TimesItalic => "LiberationSerif-Italic.ttf",
        StandardFontKind::TimesBoldItalic => "LiberationSerif-BoldItalic.ttf",
        StandardFontKind::ZapfDingBats => "FoxitDingbats.pfb",
        StandardFontKind::Symbol => "FoxitSymbol.pfb",
    }
}

/// The Noto CJK file for a character collection family, if there is one.
pub fn pick_cjk_font(family: CidFamilyKind, is_bold: bool) -> (name: Option<&'static str>)
    ensures
        match name {
            Some(n) => cjk_font_file(family, is_bold) == Some(n@),
            None => cjk_font_file(family, is_bold) is None,
        },
{
    match family {
        CidFamilyKind::AdobeGB1 | CidFamilyKind::AdobeCNS1 => Some(
            if is_bold { "NotoSansCJKsc-Bold.otf" } else { "NotoSansCJKsc-Regular.otf" },
        ),
        CidFamilyKind::AdobeJapan1 => Some(
            if is_bold { "NotoSansCJKjp-Bold.otf" } else { "NotoSansCJKjp-Regular.otf" },
        ),
        CidFamilyKind::AdobeKorea1 => Some(
            if is_bold { "NotoSansCJKkr-Bold.otf" } else { "NotoSansCJKkr-Regular.otf" },
        ),
        _ => None,
    }
}

/// The files to try for a request, in order; see `font_candidates_spec`.
pub fn font_candidates(request: FontRequest) -> (names: Vec<&'static str>)
    ensures
        names@.map_values(|n: &'static str| n@) == font_candidates_spec(request),
{
    let mut names: Vec<&'static str> = Vec::new();
    match request {
        FontRequest::Standard(font) => {
            names.push(pick_standard_font(font));
        },
        FontRequest::Fallback { family, is_bold, closest } => {
            if let Some(f) = family {
                if let Some(file) = pick_cjk_font(f, is_bold) {
                    names.push(file);
                }
            }
            names.push(pick_standard_font(closest));
        },
    }
    proof {
        assert(names@.map_values(|n: &'static str| n@) =~= font_candidates_spec(request));
    }
    names
}

/// The first value present in `options`, or `fallback` when there is none.
pub open spec fn first_some<T>(options: Seq<Option<T>>, fallback: T) -> T
    decreases options.len(),
{
    if options.len() == 0 {
        fallback
    } else {
        match options[0] {
            Some(x) => x,
            None => first_some(options.drop_first(), fallback),
        }
    }
}

/// The font data of the first candidate file that could be read (in the
/// order of `font_candidates`), or the built-in font when none could.
pub fn first_available<T>(options: Vec<Option<T>>, fallback: T) -> (r: T)
    ensures
        r == first_some(options@, fallback),
{
    let ghost all = options@;
    let mut rest = options;
    while rest.len() > 0
        invariant
            first_some(rest@, fallback) == first_some(all, fallback),
            all == options@,
        decreases rest@.len(),
    {
        let ghost before = rest@;
        let option = rest.remove(0);
        assert(rest@ =~= before.drop_first());
        assert(option == before[0]);
        match option {
            Some(x) => {
                return x;
            },
            None => {},
        }
    }
    fallback
}

/// The Liberation family that stands in for a standard font's family:
/// Sans for Helvetica, Mono for Courier, Serif for Times; none for the two
/// symbol fonts.
pub open spec fn liberation_family(font: StandardFontKind) -> Option<Seq<char>> {
    match font {
        StandardFontKind::Helvetica | StandardFontKind::HelveticaBold
        | StandardFontKind::HelveticaOblique | StandardFontKind::HelveticaBoldOblique => Some(
            "Sans"@,
        ),
        StandardFontKind::Courier | StandardFontKind::CourierBold
        | StandardFontKind::CourierOblique | StandardFontKind::CourierBoldOblique => Some("Mono"@),
        StandardFontKind::TimesRoman | StandardFontKind::TimesBold | StandardFontKind::TimesItalic
        | StandardFontKind::TimesBoldItalic => Some("Serif"@),
        _ => None,
    }
}

/// Whether a standard font is bold.
pub open spec fn is_bold_font(font: StandardFontKind) -> bool {
    font == StandardFontKind::HelveticaBold || font == StandardFontKind::HelveticaBoldOblique
        || font == StandardFontKind::CourierBold || font == StandardFontKind::CourierBoldOblique
        || font == StandardFontKind::TimesBold || font == StandardFontKind::TimesBoldItalic
}

/// Whether a standard font is slanted (oblique or italic).
pub open spec fn is_slanted_font(font: StandardFontKind) -> bool {
    font == StandardFontKind::HelveticaOblique || font == StandardFontKind::HelveticaBoldOblique
        || font == StandardFontKind::CourierOblique || font == StandardFontKind::CourierBoldOblique
        || font == StandardFontKind::TimesItalic || font == StandardFontKind::TimesBoldItalic
}

/// The style part of a Liberation file name.
pub open spec fn liberation_style(bold: bool, slanted: bool) -> Seq<char> {
    if bold && slanted {
        "BoldItalic"@
    } else if bold {
        "Bold"@
    } else if slanted {
        "Italic"@
    } else {
        "Regular"@
    }
}

/// A text font stands in by the Liberation file of its family and style
/// (`Liberation<Family>-<Style>.ttf`, an oblique font by the Italic file, a
/// bold oblique one by the BoldItalic file); the two symbol fonts by the
/// Foxit files.
pub proof fn law_standard_font_file_matches_family_and_style(font: StandardFontKind)
    ensures
        liberation_family(font) matches Some(family) ==> standard_font_file(font) == "Liberation"@
            + family + "-"@ + liberation_style(is_bold_font(font), is_slanted_font(font)) + ".ttf"@,
        font == StandardFontKind::ZapfDingBats ==> standard_font_file(font) == "FoxitDingbats.pfb"@,
        font == StandardFontKind::Symbol ==> standard_font_file(font) == "FoxitSymbol.pfb"@,
{
    reveal_strlit("-");
    reveal_strlit(".ttf");
    reveal_strlit("Bold");
    reveal_strlit("BoldItalic");
    reveal_strlit("FoxitDingbats.pfb");
    reveal_strlit("FoxitSymbol.pfb");
    reveal_strlit("Italic");
    reveal_strlit("Liberation");
    reveal_strlit("Mono");
    reveal_strlit("Regular");
    reveal_strlit("Sans");
    reveal_strlit("Serif");
    match font {
        StandardFontKind::Helvetica => {
            reveal_strlit("LiberationSans-Regular.ttf");
            assert(standard_font_file(font) =~= "Liberation"@ + "Sans"@ + "-"@ + "Regular"@ + ".ttf"@);
        },
        StandardFontKind::HelveticaBold => {
            reveal_strlit("LiberationSans-Bold.ttf");
            assert(standard_font_file(font) =~= "Liberation"@ + "Sans"@ + "-"@ + "Bold"@ + ".ttf"@);
        },
        StandardFontKind::HelveticaOblique => {
            reveal_strlit("LiberationSans-Italic.ttf");
            assert(standard_font_file(font) =~= "Liberation"@ + "Sans"@ + "-"@ + "Italic"@ + ".ttf"@);
        },
        StandardFontKind::HelveticaBoldOblique => {
            reveal_strlit("LiberationSans-BoldItalic.ttf");
            assert(standard_font_file(font) =~= "Liberation"@ + "Sans"@ + "-"@ + "BoldItalic"@ + ".ttf"@);
        },
        StandardFontKind::Courier => {
            reveal_strlit("LiberationMono-Regular.ttf");
            assert(standard_font_file(font) =~= "Liberation"@ + "Mono"@ + "-"@ + "Regular"@ + ".ttf"@);
        },
        StandardFontKind::CourierBold => {
            reveal_strlit("LiberationMono-Bold.ttf");
            assert(standard_font_file(font) =~= "Liberation"@ + "Mono"@ + "-"@ + "Bold"@ + ".ttf"@);
        },
        StandardFontKind::CourierOblique => {
            reveal_strlit("LiberationMono-Italic.ttf");
            assert(standard_font_file(font) =~= "Liberation"@ + "Mono"@ + "-"@ + "Italic"@ + ".ttf"@);
        },
        StandardFontKind::CourierBoldOblique => {
            reveal_strlit("LiberationMono-BoldItalic.ttf");
            assert(standard_font_file(font) =~= "Liberation"@ + "Mono"@ + "-"@ + "BoldItalic"@ + ".ttf"@);
        },
        StandardFontKind::TimesRoman => {
            reveal_strlit("LiberationSerif-Regular.ttf");
            assert(standard_font_file(font) =~= "Liberation"@ + "Serif"@ + "-"@ + "Regular"@ + ".ttf"@);
        },
        StandardFontKind::TimesBold => {
            reveal_strlit("LiberationSerif-Bold.ttf");
            assert(standard_font_file(font) =~= "Liberation"@ + "Serif"@ + "-"@ + "Bold"@ + ".ttf"@);
        },
        StandardFontKind::TimesItalic => {
            reveal_strlit("LiberationSerif-Italic.ttf");
            assert(standard_font_file(font) =~= "Liberation"@ + "Serif"@ + "-"@ + "Italic"@ + ".ttf"@);
        },
        StandardFontKind::TimesBoldItalic => {
            reveal_strlit("LiberationSerif-BoldItalic.ttf");
            assert(standard_font_file(font) =~= "Liberation"@ + "Serif"@ + "-"@ + "BoldItalic"@ + ".ttf"@);
        },
        _ => {},
    }
}

/// The Noto CJK file for a character collection is the one of its script
/// (`sc` for both Chinese collections, `jp`, `kr`) in the font's weight
/// (`NotoSansCJK<script>-Bold.otf` or `-Regular.otf`); other collections
/// have none.
pub proof fn law_cjk_font_file_matches_script_and_weight(family: CidFamilyKind, is_bold: bool)
    ensures
        ({
            let script = match family {
                CidFamilyKind::AdobeGB1 | CidFamilyKind::AdobeCNS1 => Some("sc"@),
                CidFamilyKind::AdobeJapan1 => Some("jp"@),
                CidFamilyKind::AdobeKorea1 => Some("kr"@),
                _ => None::<Seq<char>>,
            };
            let weight = if is_bold { "Bold"@ } else { "Regular"@ };
            match script {
                Some(sc) => cjk_font_file(family, is_bold) == Some(
                    "NotoSansCJK"@ + sc + "-"@ + weight + ".otf"@,
                ),
                None => cjk_font_file(family, is_bold) is None,
            }
        }),
{
    reveal_strlit("NotoSansCJK");
    reveal_strlit("sc");
    reveal_strlit("jp");
    reveal_strlit("kr");
    reveal_strlit("-");
    reveal_strlit("Bold");
    reveal_strlit("Regular");
    reveal_strlit(".otf");
    reveal_strlit("NotoSansCJKsc-Bold.otf");
    reveal_strlit("NotoSansCJKsc-Regular.otf");
    reveal_strlit("NotoSansCJKjp-Bold.otf");
    reveal_strlit("NotoSansCJKjp-Regular.otf");
    reveal_strlit("NotoSansCJKkr-Bold.otf");
    reveal_strlit("NotoSansCJKkr-Regular.otf");
    let weight = if is_bold { "Bold"@ } else { "Regular"@ };
    match family {
        CidFamilyKind::AdobeGB1 | CidFamilyKind::AdobeCNS1 => {
            assert(cjk_font_file(family, is_bold)->Some_0 =~= "NotoSansCJK"@ + "sc"@ + "-"@ + weight
                + ".otf"@);
        },
        CidFamilyKind::AdobeJapan1 => {
            assert(cjk_font_file(family, is_bold)->Some_0 =~= "NotoSansCJK"@ + "jp"@ + "-"@ + weight
                + ".otf"@);
        },
        CidFamilyKind::AdobeKorea1 => {
            assert(cjk_font_file(family, is_bold)->Some_0 =~= "NotoSansCJK"@ + "kr"@ + "-"@ + weight
                + ".otf"@);
        },
        _ => {},
    }
}

/// The candidates for a request: a standard font's own file alone; for other
/// fonts, the CJK file of its collection (when there is one) before the file
/// of the closest standard font, which always comes last.
pub proof fn law_font_candidates_order(request: FontRequest)
    ensures
        match request {
            FontRequest::Standard(font) => font_candidates_spec(request) == seq![standard_font_file(font)],
            FontRequest::Fallback { family, is_bold, closest } => {
                let c = font_candidates_spec(request);
                &&& c.len() >= 1
                &&& c.last() == standard_font_file(closest)
                &&& (c.len() == 2 <==> (family matches Some(f) && cjk_font_file(f, is_bold) is Some))
                &&& c.len() == 2 ==> Some(c[0]) == cjk_font_file(family->Some_0, is_bold)
                &&& c.len() <= 2
            },
        },
{
}

/// The length of a file name and its eleventh and twelfth characters, which
/// tell the standard fonts' files apart.
spec fn name_key(name: Seq<char>) -> (nat, char, char) {
    (name.len(), name[10], name[11])
}

/// Different standard fonts stand in by different files.
pub proof fn law_standard_font_files_distinct(f1: StandardFontKind, f2: StandardFontKind)
    ensures
        f1 != f2 ==> standard_font_file(f1) != standard_font_file(f2),
{
    reveal_strlit("LiberationSans-Regular.ttf");
    reveal_strlit("LiberationSans-Bold.ttf");
    reveal_strlit("LiberationSans-Italic.ttf");
    reveal_strlit("LiberationSans-BoldItalic.ttf");
    reveal_strlit("LiberationMono-Regular.ttf");
    reveal_strlit("LiberationMono-Bold.ttf");
    reveal_strlit("LiberationMono-Italic.ttf");
    reveal_strlit("LiberationMono-BoldItalic.ttf");
    reveal_strlit("LiberationSerif-Regular.ttf");
    reveal_strlit("LiberationSerif-Bold.ttf");
    reveal_strlit("LiberationSerif-Italic.ttf");
    reveal_strlit("LiberationSerif-BoldItalic.ttf");
    reveal_strlit("FoxitDingbats.pfb");
    reveal_strlit("FoxitSymbol.pfb");
    if f1 != f2 {
        assert(name_key(standard_font_file(f1)) != name_key(standard_font_file(f2)));
    }
}

} // verus!
