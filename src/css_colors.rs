//! The CSS Level 4 named colors, and lookup by name ignoring ASCII case.

use vstd::prelude::*;

verus! {

/// A CSS named color with its channels.
#[derive(Clone, Copy, Debug)]
pub struct CssColor {
    pub name: &'static str,
    pub r: u8,
    pub g: u8,
    pub b: u8,
}

/// The entry of a CSS color as plain values: name, red, green, blue.
pub open spec fn entry_of(c: CssColor) -> (Seq<char>, u8, u8, u8) {
    (c.name@, c.r, c.g, c.b)
}

/// The 148 CSS named colors, sorted by name.
pub open spec fn css_table() -> Seq<(Seq<char>, u8, u8, u8)> {
    seq![
        ("aliceblue"@, 240u8, 248u8, 255u8),
        ("antiquewhite"@, 250u8, 235u8, 215u8),
        ("aqua"@, 0u8, 255u8, 255u8),
        ("aquamarine"@, 127u8, 255u8, 212u8),
        ("azure"@, 240u8, 255u8, 255u8),
        ("beige"@, 245u8, 245u8, 220u8),
        ("bisque"@, 255u8, 228u8, 196u8),
        ("black"@, 0u8, 0u8, 0u8),
        ("blanchedalmond"@, 255u8, 235u8, 205u8),
        ("blue"@, 0u8, 0u8, 255u8),
        ("blueviolet"@, 138u8, 43u8, 226u8),
        ("brown"@, 165u8, 42u8, 42u8),
        ("burlywood"@, 222u8, 184u8, 135u8),
        ("cadetblue"@, 95u8, 158u8, 160u8),
        ("chartreuse"@, 127u8, 255u8, 0u8),
        ("chocolate"@, 210u8, 105u8, 30u8),
        ("coral"@, 255u8, 127u8, 80u8),
        ("cornflowerblue"@, 100u8, 149u8, 237u8),
        ("cornsilk"@, 255u8, 248u8, 220u8),
        ("crimson"@, 220u8, 20u8, 60u8),
        ("cyan"@, 0u8, 255u8, 255u8),
        ("darkblue"@, 0u8, 0u8, 139u8),
        ("darkcyan"@, 0u8, 139u8, 139u8),
        ("darkgoldenrod"@, 184u8, 134u8, 11u8),
        ("darkgray"@, 169u8, 169u8, 169u8),
        ("darkgreen"@, 0u8, 100u8, 0u8),
        ("darkgrey"@, 169u8, 169u8, 169u8),
        ("darkkhaki"@, 189u8, 183u8, 107u8),
        ("darkmagenta"@, 139u8, 0u8, 139u8),
        ("darkolivegreen"@, 85u8, 107u8, 47u8),
        ("darkorange"@, 255u8, 140u8, 0u8),
        ("darkorchid"@, 153u8, 50u8, 204u8),
        ("darkred"@, 139u8, 0u8, 0u8),
        ("darksalmon"@, 233u8, 150u8, 122u8),
        ("darkseagreen"@, 143u8, 188u8, 143u8),
        ("darkslateblue"@, 72u8, 61u8, 139u8),
        ("darkslategray"@, 47u8, 79u8, 79u8),
        ("darkslategrey"@, 47u8, 79u8, 79u8),
        ("darkturquoise"@, 0u8, 206u8, 209u8),
        ("darkviolet"@, 148u8, 0u8, 211u8),
        ("deeppink"@, 255u8, 20u8, 147u8),
        ("deepskyblue"@, 0u8, 191u8, 255u8),
        ("dimgray"@, 105u8, 105u8, 105u8),
        ("dimgrey"@, 105u8, 105u8, 105u8),
        ("dodgerblue"@, 30u8, 144u8, 255u8),
        ("firebrick"@, 178u8, 34u8, 34u8),
        ("floralwhite"@, 255u8, 250u8, 240u8),
        ("forestgreen"@, 34u8, 139u8, 34u8),
        ("fuchsia"@, 255u8, 0u8, 255u8),
        ("gainsboro"@, 220u8, 220u8, 220u8),
        ("ghostwhite"@, 248u8, 248u8, 255u8),
        ("gold"@, 255u8, 215u8, 0u8),
        ("goldenrod"@, 218u8, 165u8, 32u8),
        ("gray"@, 128u8, 128u8, 128u8),
        ("green"@, 0u8, 128u8, 0u8),
        ("greenyellow"@, 173u8, 255u8, 47u8),
        ("grey"@, 128u8, 128u8, 128u8),
        ("honeydew"@, 240u8, 255u8, 240u8),
        ("hotpink"@, 255u8, 105u8, 180u8),
        ("indianred"@, 205u8, 92u8, 92u8),
        ("indigo"@, 75u8, 0u8, 130u8),
        ("ivory"@, 255u8, 255u8, 240u8),
        ("khaki"@, 240u8, 230u8, 140u8),
        ("lavender"@, 230u8, 230u8, 250u8),
        ("lavenderblush"@, 255u8, 240u8, 245u8),
        ("lawngreen"@, 124u8, 252u8, 0u8),
        ("lemonchiffon"@, 255u8, 250u8, 205u8),
        ("lightblue"@, 173u8, 216u8, 230u8),
        ("lightcoral"@, 240u8, 128u8, 128u8),
        ("lightcyan"@, 224u8, 255u8, 255u8),
        ("lightgoldenrodyellow"@, 250u8, 250u8, 210u8),
        ("lightgray"@, 211u8, 211u8, 211u8),
        ("lightgreen"@, 144u8, 238u8, 144u8),
        ("lightgrey"@, 211u8, 211u8, 211u8),
        ("lightpink"@, 255u8, 182u8, 193u8),
        ("lightsalmon"@, 255u8, 160u8, 122u8),
        ("lightseagreen"@, 32u8, 178u8, 170u8),
        ("lightskyblue"@, 135u8, 206u8, 250u8),
        ("lightslategray"@, 119u8, 136u8, 153u8),
        ("lightslategrey"@, 119u8, 136u8, 153u8),
        ("lightsteelblue"@, 176u8, 196u8, 222u8),
        ("lightyellow"@, 255u8, 255u8, 224u8),
        ("lime"@, 0u8, 255u8, 0u8),
        ("limegreen"@, 50u8, 205u8, 50u8),
        ("linen"@, 250u8, 240u8, 230u8),
        ("magenta"@, 255u8, 0u8, 255u8),
        ("maroon"@, 128u8, 0u8, 0u8),
        ("mediumaquamarine"@, 102u8, 205u8, 170u8),
        ("mediumblue"@, 0u8, 0u8, 205u8),
        ("mediumorchid"@, 186u8, 85u8, 211u8),
        ("mediumpurple"@, 147u8, 112u8, 219u8),
        ("mediumseagreen"@, 60u8, 179u8, 113u8),
        ("mediumslateblue"@, 123u8, 104u8, 238u8),
        ("mediumspringgreen"@, 0u8, 250u8, 154u8),
        ("mediumturquoise"@, 72u8, 209u8, 204u8),
        ("mediumvioletred"@, 199u8, 21u8, 133u8),
        ("midnightblue"@, 25u8, 25u8, 112u8),
        ("mintcream"@, 245u8, 255u8, 250u8),
        ("mistyrose"@, 255u8, 228u8, 225u8),
        ("moccasin"@, 255u8, 228u8, 181u8),
        ("navajowhite"@, 255u8, 222u8, 173u8),
        ("navy"@, 0u8, 0u8, 128u8),
        ("oldlace"@, 253u8, 245u8, 230u8),
        ("olive"@, 128u8, 128u8, 0u8),
        ("olivedrab"@, 107u8, 142u8, 35u8),
        ("orange"@, 255u8, 165u8, 0u8),
        ("orangered"@, 255u8, 69u8, 0u8),
        ("orchid"@, 218u8, 112u8, 214u8),
        ("palegoldenrod"@, 238u8, 232u8, 170u8),
        ("palegreen"@, 152u8, 251u8, 152u8),
        ("paleturquoise"@, 175u8, 238u8, 238u8),
        ("palevioletred"@, 219u8, 112u8, 147u8),
        ("papayawhip"@, 255u8, 239u8, 213u8),
        ("peachpuff"@, 255u8, 218u8, 185u8),
        ("peru"@, 205u8, 133u8, 63u8),
        ("pink"@, 255u8, 192u8, 203u8),
        ("plum"@, 221u8, 160u8, 221u8),
        ("powderblue"@, 176u8, 224u8, 230u8),
        ("purple"@, 128u8, 0u8, 128u8),
        ("rebeccapurple"@, 102u8, 51u8, 153u8),
        ("red"@, 255u8, 0u8, 0u8),
        ("rosybrown"@, 188u8, 143u8, 143u8),
        ("royalblue"@, 65u8, 105u8, 225u8),
        ("saddlebrown"@, 139u8, 69u8, 19u8),
        ("salmon"@, 250u8, 128u8, 114u8),
        ("sandybrown"@, 244u8, 164u8, 96u8),
        ("seagreen"@, 46u8, 139u8, 87u8),
        ("seashell"@, 255u8, 245u8, 238u8),
        ("sienna"@, 160u8, 82u8, 45u8),
        ("silver"@, 192u8, 192u8, 192u8),
        ("skyblue"@, 135u8, 206u8, 235u8),
        ("slateblue"@, 106u8, 90u8, 205u8),
        ("slategray"@, 112u8, 128u8, 144u8),
        ("slategrey"@, 112u8, 128u8, 144u8),
        ("snow"@, 255u8, 250u8, 250u8),
        ("springgreen"@, 0u8, 255u8, 127u8),
        ("steelblue"@, 70u8, 130u8, 180u8),
        ("tan"@, 210u8, 180u8, 140u8),
        ("teal"@, 0u8, 128u8, 128u8),
        ("thistle"@, 216u8, 191u8, 216u8),
        ("tomato"@, 255u8, 99u8, 71u8),
        ("turquoise"@, 64u8, 224u8, 208u8),
        ("violet"@, 238u8, 130u8, 238u8),
        ("wheat"@, 245u8, 222u8, 179u8),
        ("white"@, 255u8, 255u8, 255u8),
        ("whitesmoke"@, 245u8, 245u8, 245u8),
        ("yellow"@, 255u8, 255u8, 0u8),
        ("yellowgreen"@, 154u8, 205u8, 50u8),
    ]
}

/// `t` is `q` with its ASCII capitals made small.
pub open spec fn lowers_to(q: Seq<char>, t: Seq<char>) -> bool {
    &&& q.len() == t.len()
    &&& forall|i: int| 0 <= i < q.len() ==> #[trigger] char_lowers_to(q[i], t[i])
}

/// `t` is `q`, made small if it is an ASCII capital.
pub open spec fn char_lowers_to(q: char, t: char) -> bool {
    if 'A' <= q && q <= 'Z' {
        t as u32 == q as u32 + 32
    } else {
        t == q
    }
}

/// The table of CSS named colors, sorted by name.
pub fn css_colors() -> (r: Vec<CssColor>)
    ensures
        r@.map_values(|c: CssColor| entry_of(c)) == css_table(),
{
    let r = vec![
        CssColor { name: "aliceblue", r: 240, g: 248, b: 255 },
        CssColor { name: "antiquewhite", r: 250, g: 235, b: 215 },
        CssColor { name: "aqua", r: 0, g: 255, b: 255 },
        CssColor { name: "aquamarine", r: 127, g: 255, b: 212 },
        CssColor { name: "azure", r: 240, g: 255, b: 255 },
        CssColor { name: "beige", r: 245, g: 245, b: 220 },
        CssColor { name: "bisque", r: 255, g: 228, b: 196 },
        CssColor { name: "black", r: 0, g: 0, b: 0 },
        CssColor { name: "blanchedalmond", r: 255, g: 235, b: 205 },
        CssColor { name: "blue", r: 0, g: 0, b: 255 },
        CssColor { name: "blueviolet", r: 138, g: 43, b: 226 },
        CssColor { name: "brown", r: 165, g: 42, b: 42 },
        CssColor { name: "burlywood", r: 222, g: 184, b: 135 },
        CssColor { name: "cadetblue", r: 95, g: 158, b: 160 },
        CssColor { name: "chartreuse", r: 127, g: 255, b: 0 },
        CssColor { name: "chocolate", r: 210, g: 105, b: 30 },
        CssColor { name: "coral", r: 255, g: 127, b: 80 },
        CssColor { name: "cornflowerblue", r: 100, g: 149, b: 237 },
        CssColor { name: "cornsilk", r: 255, g: 248, b: 220 },
        CssColor { name: "crimson", r: 220, g: 20, b: 60 },
        CssColor { name: "cyan", r: 0, g: 255, b: 255 },
        CssColor { name: "darkblue", r: 0, g: 0, b: 139 },
        CssColor { name: "darkcyan", r: 0, g: 139, b: 139 },
        CssColor { name: "darkgoldenrod", r: 184, g: 134, b: 11 },
        CssColor { name: "darkgray", r: 169, g: 169, b: 169 },
        CssColor { name: "darkgreen", r: 0, g: 100, b: 0 },
        CssColor { name: "darkgrey", r: 169, g: 169, b: 169 },
        CssColor { name: "darkkhaki", r: 189, g: 183, b: 107 },
        CssColor { name: "darkmagenta", r: 139, g: 0, b: 139 },
        CssColor { name: "darkolivegreen", r: 85, g: 107, b: 47 },
        CssColor { name: "darkorange", r: 255, g: 140, b: 0 },
        CssColor { name: "darkorchid", r: 153, g: 50, b: 204 },
        CssColor { name: "darkred", r: 139, g: 0, b: 0 },
        CssColor { name: "darksalmon", r: 233, g: 150, b: 122 },
        CssColor { name: "darkseagreen", r: 143, g: 188, b: 143 },
        CssColor { name: "darkslateblue", r: 72, g: 61, b: 139 },
        CssColor { name: "darkslategray", r: 47, g: 79, b: 79 },
        CssColor { name: "darkslategrey", r: 47, g: 79, b: 79 },
        CssColor { name: "darkturquoise", r: 0, g: 206, b: 209 },
        CssColor { name: "darkviolet", r: 148, g: 0, b: 211 },
        CssColor { name: "deeppink", r: 255, g: 20, b: 147 },
        CssColor { name: "deepskyblue", r: 0, g: 191, b: 255 },
        CssColor { name: "dimgray", r: 105, g: 105, b: 105 },
        CssColor { name: "dimgrey", r: 105, g: 105, b: 105 },
        CssColor { name: "dodgerblue", r: 30, g: 144, b: 255 },
        CssColor { name: "firebrick", r: 178, g: 34, b: 34 },
        CssColor { name: "floralwhite", r: 255, g: 250, b: 240 },
        CssColor { name: "forestgreen", r: 34, g: 139, b: 34 },
        CssColor { name: "fuchsia", r: 255, g: 0, b: 255 },
        CssColor { name: "gainsboro", r: 220, g: 220, b: 220 },
        CssColor { name: "ghostwhite", r: 248, g: 248, b: 255 },
        CssColor { name: "gold", r: 255, g: 215, b: 0 },
        CssColor { name: "goldenrod", r: 218, g: 165, b: 32 },
        CssColor { name: "gray", r: 128, g: 128, b: 128 },
        CssColor { name: "green", r: 0, g: 128, b: 0 },
        CssColor { name: "greenyellow", r: 173, g: 255, b: 47 },
        CssColor { name: "grey", r: 128, g: 128, b: 128 },
        CssColor { name: "honeydew", r: 240, g: 255, b: 240 },
        CssColor { name: "hotpink", r: 255, g: 105, b: 180 },
        CssColor { name: "indianred", r: 205, g: 92, b: 92 },
        CssColor { name: "indigo", r: 75, g: 0, b: 130 },
        CssColor { name: "ivory", r: 255, g: 255, b: 240 },
        CssColor { name: "khaki", r: 240, g: 230, b: 140 },
        CssColor { name: "lavender", r: 230, g: 230, b: 250 },
        CssColor { name: "lavenderblush", r: 255, g: 240, b: 245 },
        CssColor { name: "lawngreen", r: 124, g: 252, b: 0 },
        CssColor { name: "lemonchiffon", r: 255, g: 250, b: 205 },
        CssColor { name: "lightblue", r: 173, g: 216, b: 230 },
        CssColor { name: "lightcoral", r: 240, g: 128, b: 128 },
        CssColor { name: "lightcyan", r: 224, g: 255, b: 255 },
        CssColor { name: "lightgoldenrodyellow", r: 250, g: 250, b: 210 },
        CssColor { name: "lightgray", r: 211, g: 211, b: 211 },
        CssColor { name: "lightgreen", r: 144, g: 238, b: 144 },
        CssColor { name: "lightgrey", r: 211, g: 211, b: 211 },
        CssColor { name: "lightpink", r: 255, g: 182, b: 193 },
        CssColor { name: "lightsalmon", r: 255, g: 160, b: 122 },
        CssColor { name: "lightseagreen", r: 32, g: 178, b: 170 },
        CssColor { name: "lightskyblue", r: 135, g: 206, b: 250 },
        CssColor { name: "lightslategray", r: 119, g: 136, b: 153 },
        CssColor { name: "lightslategrey", r: 119, g: 136, b: 153 },
        CssColor { name: "lightsteelblue", r: 176, g: 196, b: 222 },
        CssColor { name: "lightyellow", r: 255, g: 255, b: 224 },
        CssColor { name: "lime", r: 0, g: 255, b: 0 },
        CssColor { name: "limegreen", r: 50, g: 205, b: 50 },
        CssColor { name: "linen", r: 250, g: 240, b: 230 },
        CssColor { name: "magenta", r: 255, g: 0, b: 255 },
        CssColor { name: "maroon", r: 128, g: 0, b: 0 },
        CssColor { name: "mediumaquamarine", r: 102, g: 205, b: 170 },
        CssColor { name: "mediumblue", r: 0, g: 0, b: 205 },
        CssColor { name: "mediumorchid", r: 186, g: 85, b: 211 },
        CssColor { name: "mediumpurple", r: 147, g: 112, b: 219 },
        CssColor { name: "mediumseagreen", r: 60, g: 179, b: 113 },
        CssColor { name: "mediumslateblue", r: 123, g: 104, b: 238 },
        CssColor { name: "mediumspringgreen", r: 0, g: 250, b: 154 },
        CssColor { name: "mediumturquoise", r: 72, g: 209, b: 204 },
        CssColor { name: "mediumvioletred", r: 199, g: 21, b: 133 },
        CssColor { name: "midnightblue", r: 25, g: 25, b: 112 },
        CssColor { name: "mintcream", r: 245, g: 255, b: 250 },
        CssColor { name: "mistyrose", r: 255, g: 228, b: 225 },
        CssColor { name: "moccasin", r: 255, g: 228, b: 181 },
        CssColor { name: "navajowhite", r: 255, g: 222, b: 173 },
        CssColor { name: "navy", r: 0, g: 0, b: 128 },
        CssColor { name: "oldlace", r: 253, g: 245, b: 230 },
        CssColor { name: "olive", r: 128, g: 128, b: 0 },
        CssColor { name: "olivedrab", r: 107, g: 142, b: 35 },
        CssColor { name: "orange", r: 255, g: 165, b: 0 },
        CssColor { name: "orangered", r: 255, g: 69, b: 0 },
        CssColor { name: "orchid", r: 218, g: 112, b: 214 },
        CssColor { name: "palegoldenrod", r: 238, g: 232, b: 170 },
        CssColor { name: "palegreen", r: 152, g: 251, b: 152 },
        CssColor { name: "paleturquoise", r: 175, g: 238, b: 238 },
        CssColor { name: "palevioletred", r: 219, g: 112, b: 147 },
        CssColor { name: "papayawhip", r: 255, g: 239, b: 213 },
        CssColor { name: "peachpuff", r: 255, g: 218, b: 185 },
        CssColor { name: "peru", r: 205, g: 133, b: 63 },
        CssColor { name: "pink", r: 255, g: 192, b: 203 },
        CssColor { name: "plum", r: 221, g: 160, b: 221 },
        CssColor { name: "powderblue", r: 176, g: 224, b: 230 },
        CssColor { name: "purple", r: 128, g: 0, b: 128 },
        CssColor { name: "rebeccapurple", r: 102, g: 51, b: 153 },
        CssColor { name: "red", r: 255, g: 0, b: 0 },
        CssColor { name: "rosybrown", r: 188, g: 143, b: 143 },
        CssColor { name: "royalblue", r: 65, g: 105, b: 225 },
        CssColor { name: "saddlebrown", r: 139, g: 69, b: 19 },
        CssColor { name: "salmon", r: 250, g: 128, b: 114 },
        CssColor { name: "sandybrown", r: 244, g: 164, b: 96 },
        CssColor { name: "seagreen", r: 46, g: 139, b: 87 },
        CssColor { name: "seashell", r: 255, g: 245, b: 238 },
        CssColor { name: "sienna", r: 160, g: 82, b: 45 },
        CssColor { name: "silver", r: 192, g: 192, b: 192 },
        CssColor { name: "skyblue", r: 135, g: 206, b: 235 },
        CssColor { name: "slateblue", r: 106, g: 90, b: 205 },
        CssColor { name: "slategray", r: 112, g: 128, b: 144 },
        CssColor { name: "slategrey", r: 112, g: 128, b: 144 },
        CssColor { name: "snow", r: 255, g: 250, b: 250 },
        CssColor { name: "springgreen", r: 0, g: 255, b: 127 },
        CssColor { name: "steelblue", r: 70, g: 130, b: 180 },
        CssColor { name: "tan", r: 210, g: 180, b: 140 },
        CssColor { name: "teal", r: 0, g: 128, b: 128 },
        CssColor { name: "thistle", r: 216, g: 191, b: 216 },
        CssColor { name: "tomato", r: 255, g: 99, b: 71 },
        CssColor { name: "turquoise", r: 64, g: 224, b: 208 },
        CssColor { name: "violet", r: 238, g: 130, b: 238 },
        CssColor { name: "wheat", r: 245, g: 222, b: 179 },
        CssColor { name: "white", r: 255, g: 255, b: 255 },
        CssColor { name: "whitesmoke", r: 245, g: 245, b: 245 },
        CssColor { name: "yellow", r: 255, g: 255, b: 0 },
        CssColor { name: "yellowgreen", r: 154, g: 205, b: 50 },
    ];
    assert(r@.map_values(|c: CssColor| entry_of(c)) =~= css_table());
    r
}

fn char_matches(q: char, t: char) -> (r: bool)
    ensures
        r == char_lowers_to(q, t),
{
    if 'A' <= q && q <= 'Z' {
        (t as u32) == (q as u32) + 32
    } else {
        t == q
    }
}

pub(crate) fn name_matches(q: &str, t: &str) -> (r: bool)
    ensures
        r == lowers_to(q@, t@),
{
    let n = q.unicode_len();
    if n != t.unicode_len() {
        return false;
    }
    let mut i: usize = 0;
    while i < n
        invariant
            i <= n,
            n == q@.len(),
            n == t@.len(),
            forall|j: int| 0 <= j < i ==> #[trigger] char_lowers_to(q@[j], t@[j]),
        decreases n - i,
    {
        if !char_matches(q.get_char(i), t.get_char(i)) {
            return false;
        }
        i += 1;
    }
    true
}

/// The CSS color whose name is `name` with ASCII case ignored.
pub fn css_color_by_name(name: &str) -> (r: Option<CssColor>)
    ensures
        r.is_none() <==> forall|i: int| 0 <= i < css_table().len() ==> !lowers_to(name@, #[trigger] css_table()[i].0),
        r matches Some(c) ==> lowers_to(name@, c.name@) && css_table().contains(entry_of(c)),
{
    let table = css_colors();
    let ghost t = table@.map_values(|c: CssColor| entry_of(c));
    let mut i: usize = 0;
    while i < table.len()
        invariant
            i <= table@.len(),
            t == css_table(),
            t == table@.map_values(|c: CssColor| entry_of(c)),
            forall|j: int| 0 <= j < i ==> !lowers_to(name@, #[trigger] t[j].0),
        decreases table@.len() - i,
    {
        if name_matches(name, table[i].name) {
            assert(t[i as int] == entry_of(table@[i as int]));
            assert(lowers_to(name@, css_table()[i as int].0));
            return Some(table[i]);
        }
        i += 1;
    }
    None
}

/// The names of all CSS colors, in table order.
pub fn css_color_names() -> (r: Vec<&'static str>)
    ensures
        r@.len() == css_table().len(),
        forall|i: int| 0 <= i < r@.len() ==> #[trigger] r@[i]@ == css_table()[i].0,
{
    let table = css_colors();
    let ghost t = table@.map_values(|c: CssColor| entry_of(c));
    let mut r: Vec<&'static str> = Vec::new();
    let mut i: usize = 0;
    while i < table.len()
        invariant
            i <= table@.len(),
            t == css_table(),
            t == table@.map_values(|c: CssColor| entry_of(c)),
            r@.len() == i,
            forall|j: int| 0 <= j < i ==> #[trigger] r@[j]@ == t[j].0,
        decreases table@.len() - i,
    {
        r.push(table[i].name);
        i += 1;
    }
    r
}

} // verus!
