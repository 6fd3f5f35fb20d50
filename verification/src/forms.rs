//! What the filament and spool forms send: empty fields left out, whole
//! numbers parsed, dates read from `YYYY-MM-DD` text, the location check, and
//! which known filament a SpoolmanDB entry stands for.
use vstd::prelude::*;
use crate::clock::Timestamp;
use crate::config::{all_digits, digits_value, is_ascii_digit};
use crate::material::{MaterialType, law_key_identifies_material};
use crate::models::Filament;
use crate::text::{chars_of, str_eq, str_to_lowercase, to_lowercase};

verus! {

/// What chrono's `NaiveDate::parse_from_str(s, "%Y-%m-%d")`, then
/// `and_hms_opt(0, 5, 0)` and `and_utc()`, give for `s`: the instant 00:05 UTC
/// of that day, or `None` when chrono rejects the text.
pub uninterp spec fn chrono_form_date(s: Seq<char>) -> Option<Timestamp>;

/// Calls chrono's `NaiveDate::parse_from_str(s, "%Y-%m-%d")`, sets the time to
/// 00:05:00 with `and_hms_opt(0, 5, 0)`, takes it as UTC with `and_utc()`, and
/// splits the instant into seconds and nanoseconds. The result is named; chrono
/// sets the nanoseconds to zero and the time of day to 300 s past midnight.
#[verifier::external_body]
fn parse_form_date(s: &str) -> (r: Option<Timestamp>)
    ensures
        r == chrono_form_date(s@),
        r matches Some(t) ==> t.nanos == 0 && t.secs % 86400 == 300,
{
    chrono::NaiveDate::parse_from_str(s, "%Y-%m-%d")
        .ok()
        .and_then(|d| d.and_hms_opt(0, 5, 0))
        .map(|ndt| {
            let t = ndt.and_utc();
            Timestamp { secs: t.timestamp(), nanos: t.timestamp_subsec_nanos() }
        })
}

/// The date that a date field of the spool form sends: none for an empty field,
/// none for a field that still shows the "today" default it was filled with
/// because the spool had no date (`was_none`), otherwise the day read by chrono
/// at 00:05 UTC (none when the text is not a `YYYY-MM-DD` date). `today` is the
/// default text, from the caller's clock.
pub fn form_date(text: &str, was_none: bool, today: &str) -> (r: Option<Timestamp>)
    ensures
        r == (if text@.len() == 0 || (was_none && text@ == today@) {
            None
        } else {
            chrono_form_date(text@)
        }),
{
    if text.unicode_len() == 0 || (was_none && str_eq(text, today)) {
        None
    } else {
        parse_form_date(text)
    }
}

/// The message of a spool form submitted without a location.
pub open spec fn location_required_message() -> Seq<char> {
    "Location is required."@
}

/// The location of a submitted spool form, required.
pub fn form_location(id: Option<u32>) -> (r: Result<u32, String>)
    ensures
        match id {
            Some(l) => r == Ok::<u32, String>(l),
            None => r matches Err(m) && m@ == location_required_message(),
        },
{
    match id {
        Some(l) => Ok(l),
        None => Err("Location is required.".to_owned()),
    }
}

/// A text field: an empty field is left out.
pub fn text_or_none(s: String) -> (r: Option<String>)
    ensures
        s@.len() == 0 ==> r is None,
        s@.len() > 0 ==> r == Some(s),
{
    if s.as_str().unicode_len() == 0 {
        None
    } else {
        Some(s)
    }
}

/// The material field: left out when empty, otherwise the material with that
/// abbreviation (kept as `Other` when unknown).
pub fn material_field(s: &str) -> (r: Option<MaterialType>)
    ensures
        s@.len() == 0 ==> r is None,
        s@.len() > 0 ==> (r matches Some(m) && crate::spoolmandb::parsed_material(m, s@)),
{
    if s.unicode_len() == 0 {
        None
    } else {
        Some(MaterialType::from_abbreviation(s))
    }
}

/// The digits of `s` after an optional leading sign.
pub open spec fn magnitude_part(s: Seq<char>) -> Seq<char> {
    if s.len() > 0 && (s[0] == '+' || s[0] == '-') {
        s.drop_first()
    } else {
        s
    }
}

/// What `str::parse::<i32>` accepts: an optional `+` or `-` followed by one or
/// more ASCII digits whose value fits in an `i32`.
pub open spec fn spec_parse_i32(s: Seq<char>) -> Option<i32> {
    let d = magnitude_part(s);
    let negative = s.len() > 0 && s[0] == '-';
    if d.len() > 0 && all_digits(d) {
        if negative && digits_value(d) <= 2147483648 {
            Some((0 - digits_value(d)) as i32)
        } else if !negative && digits_value(d) <= 2147483647 {
            Some(digits_value(d) as i32)
        } else {
            None
        }
    } else {
        None
    }
}

/// A longer digit string denotes at least as much as its prefix.
proof fn lemma_digit_prefix_grows(s: Seq<char>, k: int, j: int)
    requires
        0 <= k <= j <= s.len(),
        all_digits(s),
    ensures
        digits_value(s.take(k)) <= digits_value(s.take(j)),
    decreases j - k,
{
    if k < j {
        lemma_digit_prefix_grows(s, k, j - 1);
        assert(s.take(j).drop_last() =~= s.take(j - 1));
        assert(is_ascii_digit(s[j - 1]));
    }
}

/// The value of the digits `cs[start..]` if they are one or more digits denoting at most `max`.
fn digits_at_most(cs: &Vec<char>, start: usize, max: u64) -> (r: Option<u64>)
    requires
        start <= cs.len(),
        max < 0x1_0000_0000,
    ensures
        ({
            let d = cs@.skip(start as int);
            match r {
                Some(v) => d.len() > 0 && all_digits(d) && digits_value(d) <= max && v
                    == digits_value(d),
                None => !(d.len() > 0 && all_digits(d) && digits_value(d) <= max),
            }
        }),
{
    let ghost d = cs@.skip(start as int);
    if start >= cs.len() {
        return None;
    }
    let mut value: u64 = 0;
    let mut i: usize = start;
    while i < cs.len()
        invariant
            start <= i <= cs.len(),
            d == cs@.skip(start as int),
            max < 0x1_0000_0000,
            forall|j: int| 0 <= j < i - start ==> is_ascii_digit(#[trigger] d[j]),
            value == digits_value(d.take(i - start)),
            value <= max,
        decreases cs.len() - i,
    {
        let c = cs[i];
        assert(d[i - start] == c);
        if !('0' <= c && c <= '9') {
            assert(!is_ascii_digit(d[i - start]));
            return None;
        }
        let digit = (c as u64) - ('0' as u64);
        assert(d.take(i - start + 1).drop_last() =~= d.take(i - start));
        value = value * 10 + digit;
        i = i + 1;
        assert(value == digits_value(d.take(i - start)));
        if value > max {
            proof {
                if all_digits(d) {
                    lemma_digit_prefix_grows(d, i - start, d.len() as int);
                    assert(d.take(d.len() as int) =~= d);
                }
            }
            return None;
        }
    }
    assert(d.take(d.len() as int) =~= d);
    Some(value)
}

/// Parse a whole number the way `str::parse::<i32>` does.
pub fn parse_i32(s: &str) -> (r: Option<i32>)
    ensures
        r == spec_parse_i32(s@),
{
    let cs = chars_of(s);
    let negative = cs.len() > 0 && cs[0] == '-';
    let start: usize = if cs.len() > 0 && (cs[0] == '+' || cs[0] == '-') {
        1
    } else {
        0
    };
    assert(magnitude_part(s@) =~= cs@.skip(start as int));
    if negative {
        match digits_at_most(&cs, start, 2147483648) {
            Some(v) => Some((0 - (v as i64)) as i32),
            None => None,
        }
    } else {
        match digits_at_most(&cs, start, 2147483647) {
            Some(v) => Some(v as i32),
            None => None,
        }
    }
}

/// A whole-number field: what `parse::<i32>().ok()` gives (none for an empty
/// or malformed field).
pub fn int_field(s: &str) -> (r: Option<i32>)
    ensures
        r == spec_parse_i32(s@),
{
    parse_i32(s)
}

/// What `str::parse::<u32>` accepts: an optional `+` followed by one or more
/// ASCII digits denoting at most `u32::MAX`.
pub open spec fn spec_parse_u32(s: Seq<char>) -> Option<u32> {
    let d = crate::config::unsigned_part(s);
    if d.len() > 0 && all_digits(d) && digits_value(d) <= 4294967295 {
        Some(digits_value(d) as u32)
    } else {
        None
    }
}

/// Parse an id the way `str::parse::<u32>` does.
pub fn parse_u32(s: &str) -> (r: Option<u32>)
    ensures
        r == spec_parse_u32(s@),
{
    let cs = chars_of(s);
    let start: usize = if cs.len() > 0 && cs[0] == '+' {
        1
    } else {
        0
    };
    assert(crate::config::unsigned_part(s@) =~= cs@.skip(start as int));
    match digits_at_most(&cs, start, 4294967295) {
        Some(v) => Some(v as u32),
        None => None,
    }
}

/// Two materials are the same: the same known material, or both unknown with
/// the same text.
pub open spec fn spec_same_material(a: MaterialType, b: MaterialType) -> bool {
    match (a, b) {
        (MaterialType::Other(x), MaterialType::Other(y)) => x@ == y@,
        _ => a == b,
    }
}

/// Whether two materials are the same material.
fn same_material(a: &MaterialType, b: &MaterialType) -> (r: bool)
    ensures
        r == spec_same_material(*a, *b),
{
    proof {
        law_key_identifies_material(*a, *b);
        law_key_identifies_material(*b, *a);
    }
    match (a, b) {
        (MaterialType::Other(x), MaterialType::Other(y)) => str_eq(x.as_str(), y.as_str()),
        (MaterialType::Other(_), _) => false,
        (_, MaterialType::Other(_)) => false,
        _ => a.key() == b.key(),
    }
}

/// A known filament stands for a SpoolmanDB entry (as far as the text goes):
/// its manufacturer equals the entry's ignoring case, and its material is the
/// entry's. The diameters are compared by the caller, in floating point.
pub open spec fn spec_filament_matches_entry(f: Filament, manufacturer: Seq<char>, material: MaterialType) -> bool {
    &&& f.manufacturer matches Some(m) && str_to_lowercase(m@) == str_to_lowercase(manufacturer)
    &&& f.material matches Some(k) && spec_same_material(k, material)
}

/// Whether the known filament `f` stands for a SpoolmanDB entry with this
/// manufacturer and material.
pub fn filament_matches_entry(f: &Filament, manufacturer: &str, material: &MaterialType) -> (r: bool)
    ensures
        r == spec_filament_matches_entry(*f, manufacturer@, *material),
{
    let same_maker = match &f.manufacturer {
        Some(m) => {
            let x = to_lowercase(m.as_str());
            let y = to_lowercase(manufacturer);
            str_eq(x.as_str(), y.as_str())
        },
        None => false,
    };
    let same_kind = match &f.material {
        Some(k) => same_material(k, material),
        None => false,
    };
    same_maker && same_kind
}

} // verus!
