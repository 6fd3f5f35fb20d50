//! Color helpers shared by the spool pages: parsing `#rrggbb` input and the
//! default thresholds of the color search.
use vstd::prelude::*;
use vstd::string::StringSliceAdditionalSpecFns;
use vstd::utf8::encode_utf8;
use crate::models::Rgba;
use crate::text::str_eq;

verus! {

/// Perceptual color difference algorithm.
#[derive(Clone, Copy, PartialEq, Eq, Debug, Structural)]
pub enum ColorAlgorithm {
    Ciede2000,
    OkLab,
    Din99d,
}

/// The value of a hexadecimal digit byte, if it is one.
pub open spec fn hex_value(x: u8) -> Option<u8> {
    if 48 <= x <= 57 {
        Some((x - 48) as u8)
    } else if 97 <= x <= 102 {
        Some((x - 87) as u8)
    } else if 65 <= x <= 70 {
        Some((x - 55) as u8)
    } else {
        None
    }
}

/// The byte that the two hexadecimal digit bytes `x y` denote, if both are
/// hexadecimal digits (either letter case).
pub open spec fn hex_pair(x: u8, y: u8) -> Option<u8> {
    match (hex_value(x), hex_value(y)) {
        (Some(h), Some(l)) => Some((h * 16 + l) as u8),
        _ => None,
    }
}

/// The color that the UTF-8 bytes `b` of a `#rrggbb` string denote, if any.
pub open spec fn spec_hex_to_rgba(b: Seq<u8>) -> Option<Rgba> {
    if b.len() == 7 && b[0] == 35 {
        match (hex_pair(b[1], b[2]), hex_pair(b[3], b[4]), hex_pair(b[5], b[6])) {
            (Some(r), Some(g), Some(bl)) => Some(Rgba { r: r, g: g, b: bl, a: 255 }),
            _ => None,
        }
    } else {
        None
    }
}

/// The value of a hexadecimal digit byte.
fn hex_digit(x: u8) -> (r: Option<u8>)
    ensures
        r == hex_value(x),
{
    if 48 <= x && x <= 57 {
        Some(x - 48)
    } else if 97 <= x && x <= 102 {
        Some(x - 87)
    } else if 65 <= x && x <= 70 {
        Some(x - 55)
    } else {
        None
    }
}

/// Two hexadecimal digit bytes read as a byte.
fn parse_hex_pair(x: u8, y: u8) -> (r: Option<u8>)
    ensures
        r == hex_pair(x, y),
{
    match (hex_digit(x), hex_digit(y)) {
        (Some(h), Some(l)) => Some(h * 16 + l),
        _ => None,
    }
}

/// Parse a `#rrggbb` hex string (as produced by `<input type="color">`)
/// into an `Rgba` with alpha = 255: `#` followed by exactly six hexadecimal
/// digits of either case. Returns `None` for any other format.
pub fn hex_to_rgba(hex: &str) -> (r: Option<Rgba>)
    ensures
        r == spec_hex_to_rgba(hex.spec_bytes()),
{
    let b = hex.as_bytes();
    if b.len() != 7 || b[0] != 35 {
        return None;
    }
    let r = parse_hex_pair(b[1], b[2]);
    let g = parse_hex_pair(b[3], b[4]);
    let bl = parse_hex_pair(b[5], b[6]);
    match (r, g, bl) {
        (Some(r), Some(g), Some(bl)) => Some(Rgba { r, g, b: bl, a: 255 }),
        _ => None,
    }
}

/// The default threshold for a search `level` ("same", "close", "ballpark")
/// and algorithm, in hundredths of the algorithm's unit; `None` for "off" or an
/// unknown level.
pub open spec fn spec_threshold_hundredths(level: Seq<char>, algo: ColorAlgorithm) -> Option<u32> {
    let scale: u32 = if algo == ColorAlgorithm::OkLab {
        1
    } else {
        100
    };
    if level == "same"@ {
        Some((10 * scale) as u32)
    } else if level == "close"@ {
        Some((20 * scale) as u32)
    } else if level == "ballpark"@ {
        Some((35 * scale) as u32)
    } else {
        None
    }
}

/// The default threshold for the given search level and algorithm, in hundredths
/// of the algorithm's unit (ΔE\*00 and ΔE_99d are on a 0–100 scale, ΔE_ok on a
/// 0–1 scale): "same" is 10 / 0.10, "close" 20 / 0.20, "ballpark" 35 / 0.35.
/// Returns `None` for "off" or unknown levels.
pub fn threshold_for_opt(level: &str, algo: ColorAlgorithm) -> (r: Option<u32>)
    ensures
        r == spec_threshold_hundredths(level@, algo),
{
    let scale: u32 = match algo {
        ColorAlgorithm::OkLab => 1,
        _ => 100,
    };
    if str_eq(level, "same") {
        Some(10 * scale)
    } else if str_eq(level, "close") {
        Some(20 * scale)
    } else if str_eq(level, "ballpark") {
        Some(35 * scale)
    } else {
        None
    }
}

} // verus!

verus! {

/// The colors of the spool form's color rows (`#rrggbb` text, opacity), top to
/// bottom: each row whose text parses gives its color with the row's opacity;
/// the others are dropped.
pub open spec fn row_colors(rows: Seq<(String, u8)>) -> Seq<Rgba>
    decreases rows.len(),
{
    if rows.len() == 0 {
        Seq::empty()
    } else {
        let last = rows.last();
        row_colors(rows.drop_last()) + match spec_hex_to_rgba(encode_utf8(last.0@)) {
            Some(c) => seq![Rgba { a: last.1, ..c }],
            None => Seq::empty(),
        }
    }
}

/// Collect the color rows of the spool form into the spool's colors.
pub fn colors_from_rows(rows: &Vec<(String, u8)>) -> (r: Vec<Rgba>)
    ensures
        r@ == row_colors(rows@),
{
    let mut out: Vec<Rgba> = Vec::new();
    let mut i: usize = 0;
    while i < rows.len()
        invariant
            i <= rows.len(),
            out@ == row_colors(rows@.take(i as int)),
        decreases rows.len() - i,
    {
        let ghost before = out@;
        let text = rows[i].0.as_str();
        assert(text.spec_bytes() == encode_utf8(rows@[i as int].0@));
        match hex_to_rgba(text) {
            Some(c) => {
                out.push(Rgba { r: c.r, g: c.g, b: c.b, a: rows[i].1 });
            },
            None => {},
        }
        proof {
            assert(rows@.take(i + 1).drop_last() =~= rows@.take(i as int));
            assert(rows@.take(i + 1).last() == rows@[i as int]);
        }
        i = i + 1;
        assert(out@ =~= row_colors(rows@.take(i as int)));
    }
    assert(rows@.take(rows.len() as int) =~= rows@);
    out
}

} // verus!
