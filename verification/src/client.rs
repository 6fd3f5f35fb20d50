//! Request text of the SpoolmanDB search: query encoding and entry matching.
use vstd::prelude::*;
use crate::text::{
    all_ascii, ascii_alphanumeric, is_ascii_char,
    char_is_alphanumeric, chars_contain, chars_of, contains_seq, digit_char, is_alphanumeric,
    push_str, str_to_lowercase, string_from_chars, to_lowercase,
};

verus! {

/// Characters that a query keeps unescaped: alphanumerics and `-`, `_`, `.`, `~`.
pub open spec fn url_kept(c: char) -> bool {
    char_is_alphanumeric(c) || c == '-' || c == '_' || c == '.' || c == '~'
}

/// The uppercase hexadecimal digit for `d` (`d < 16`).
pub open spec fn hex_upper_digit(d: int) -> char {
    if d < 10 {
        digit_char(d)
    } else {
        (('A' as int) + d - 10) as char
    }
}

/// Uppercase hexadecimal representation of `n` without leading zeros.
pub open spec fn hex_upper(n: nat) -> Seq<char>
    decreases n,
{
    if n < 16 {
        seq![hex_upper_digit(n as int)]
    } else {
        hex_upper(n / 16).push(hex_upper_digit((n % 16) as int))
    }
}

/// `n` in uppercase hexadecimal with at least two digits, as `{:02X}` writes it.
pub open spec fn hex_upper_2(n: nat) -> Seq<char> {
    if n < 16 {
        seq!['0', hex_upper_digit(n as int)]
    } else {
        hex_upper(n)
    }
}

/// How one character of a query is written: itself, or `%` and its code point in hex.
pub open spec fn url_encode_char(c: char) -> Seq<char> {
    if url_kept(c) {
        seq![c]
    } else {
        seq!['%'] + hex_upper_2((c as u32) as nat)
    }
}

/// A query string with every character written as `url_encode_char` writes it.
pub open spec fn url_encoded(s: Seq<char>) -> Seq<char>
    decreases s.len(),
{
    if s.len() == 0 {
        Seq::empty()
    } else {
        url_encoded(s.drop_last()) + url_encode_char(s.last())
    }
}

/// `url_kept` on an ASCII character: ASCII letters and digits, `-`, `_`, `.`, `~`.
pub open spec fn url_kept_ascii(c: char) -> bool {
    ascii_alphanumeric(c) || c == '-' || c == '_' || c == '.' || c == '~'
}

/// `url_encode_char` on an ASCII character.
pub open spec fn url_encode_char_ascii(c: char) -> Seq<char> {
    if url_kept_ascii(c) {
        seq![c]
    } else {
        seq!['%'] + hex_upper_2((c as u32) as nat)
    }
}

/// `url_encoded` on ASCII text.
pub open spec fn url_encoded_ascii(s: Seq<char>) -> Seq<char>
    decreases s.len(),
{
    if s.len() == 0 {
        Seq::empty()
    } else {
        url_encoded_ascii(s.drop_last()) + url_encode_char_ascii(s.last())
    }
}

/// The uppercase hex digit for `d`.
fn hex_digit_upper(d: u32) -> (r: char)
    requires
        d < 16,
    ensures
        r == hex_upper_digit(d as int),
{
    if d < 10 {
        if d == 0 { '0' } else if d == 1 { '1' } else if d == 2 { '2' } else if d == 3 { '3' }
        else if d == 4 { '4' } else if d == 5 { '5' } else if d == 6 { '6' } else if d == 7 { '7' }
        else if d == 8 { '8' } else { '9' }
    } else {
        if d == 10 { 'A' } else if d == 11 { 'B' } else if d == 12 { 'C' } else if d == 13 { 'D' }
        else if d == 14 { 'E' } else { 'F' }
    }
}

/// Uppercase hexadecimal digits of `n`.
fn hex_upper_chars(n: u32) -> (r: Vec<char>)
    ensures
        r@ == hex_upper(n as nat),
    decreases n,
{
    if n < 16 {
        let mut v: Vec<char> = Vec::new();
        v.push(hex_digit_upper(n));
        assert(v@ =~= seq![hex_upper_digit(n as int)]);
        v
    } else {
        let mut v = hex_upper_chars(n / 16);
        v.push(hex_digit_upper(n % 16));
        v
    }
}

/// Percent-encode a search query: alphanumeric characters and `-`, `_`, `.`,
/// `~` are kept; any other character is written as `%` followed by its code
/// point in uppercase hexadecimal, at least two digits.
pub fn urlencoding_encode(s: &str) -> (r: String)
    ensures
        r@ == url_encoded(s@),
        all_ascii(s@) ==> r@ == url_encoded_ascii(s@),
{
    let cs = chars_of(s);
    let mut out: Vec<char> = Vec::new();
    let mut i: usize = 0;
    while i < cs.len()
        invariant
            i <= cs.len(),
            cs@ == s@,
            out@ == url_encoded(cs@.take(i as int)),
            all_ascii(cs@.take(i as int)) ==> out@ == url_encoded_ascii(cs@.take(i as int)),
        decreases cs.len() - i,
    {
        let c = cs[i];
        let ghost before = out@;
        proof {
            if all_ascii(cs@.take(i + 1)) {
                assert forall|j: int| 0 <= j < i implies is_ascii_char(#[trigger] cs@.take(i as int)[j]) by {
                    assert(cs@.take(i + 1)[j] == cs@.take(i as int)[j]);
                }
                assert(cs@.take(i + 1)[i as int] == c);
            }
        }
        if is_alphanumeric(c) || c == '-' || c == '_' || c == '.' || c == '~' {
            out.push(c);
        } else {
            out.push('%');
            let code = c as u32;
            if code < 16 {
                out.push('0');
                out.push(hex_digit_upper(code));
            } else {
                let h = hex_upper_chars(code);
                let mut k: usize = 0;
                let ghost mid = out@;
                while k < h.len()
                    invariant
                        k <= h.len(),
                        out@ == mid + h@.take(k as int),
                    decreases h.len() - k,
                {
                    out.push(h[k]);
                    k = k + 1;
                    assert(out@ =~= mid + h@.take(k as int));
                }
                assert(h@.take(h.len() as int) =~= h@);
            }
        }
        assert(cs@.take(i + 1).drop_last() =~= cs@.take(i as int));
        assert(out@ =~= before + url_encode_char(c));
        proof {
            if is_ascii_char(c) {
                assert(url_encode_char(c) == url_encode_char_ascii(c));
            }
        }
        i = i + 1;
    }
    assert(cs@.take(cs.len() as int) =~= cs@);
    string_from_chars(&out)
}

/// Whether a SpoolmanDB entry matches a search: the lowercased query is empty,
/// or occurs in the lowercased text "{manufacturer} {material} {name}".
pub open spec fn spec_entry_matches(
    query: Seq<char>,
    manufacturer: Seq<char>,
    material: Seq<char>,
    name: Seq<char>,
) -> bool {
    let q = str_to_lowercase(query);
    q.len() == 0 || contains_seq(
        str_to_lowercase(manufacturer + seq![' '] + material + seq![' '] + name),
        q,
    )
}

/// Whether a SpoolmanDB entry with these fields (empty when absent) matches the search `query`.
pub fn entry_matches_query(query: &str, manufacturer: &str, material: &str, name: &str) -> (r:
    bool)
    ensures
        r == spec_entry_matches(query@, manufacturer@, material@, name@),
{
    let q = to_lowercase(query);
    let qc = chars_of(q.as_str());
    if qc.len() == 0 {
        return true;
    }
    let mut text: Vec<char> = Vec::new();
    push_str(&mut text, manufacturer);
    text.push(' ');
    push_str(&mut text, material);
    text.push(' ');
    push_str(&mut text, name);
    assert(text@ =~= manufacturer@ + seq![' '] + material@ + seq![' '] + name@);
    let joined = string_from_chars(&text);
    let lowered = to_lowercase(joined.as_str());
    let tc = chars_of(lowered.as_str());
    chars_contain(&tc, &qc)
}

} // verus!

verus! {

/// The characters that mean something in a URL query: `&`, `=`, `+`, `#`, `?`,
/// `/` and the space.
pub open spec fn reserved_in_query(c: char) -> bool {
    c == '&' || c == '=' || c == '+' || c == '#' || c == '?' || c == '/' || c == ' '
}

/// The value of a hexadecimal digit character.
pub open spec fn hex_digit_value(c: char) -> int {
    if '0' <= c <= '9' {
        (c as int) - ('0' as int)
    } else if 'A' <= c <= 'F' {
        (c as int) - ('A' as int) + 10
    } else {
        (c as int) - ('a' as int) + 10
    }
}

/// Percent-decoding: `%` and two hexadecimal digits stand for the character
/// with that code; every other character stands for itself.
pub open spec fn percent_decoded(t: Seq<char>) -> Seq<char>
    decreases t.len(),
{
    if t.len() == 0 {
        Seq::empty()
    } else if t[0] == '%' && t.len() >= 3 {
        seq![(hex_digit_value(t[1]) * 16 + hex_digit_value(t[2])) as char] + percent_decoded(
            t.skip(3),
        )
    } else {
        seq![t[0]] + percent_decoded(t.skip(1))
    }
}

/// ASCII encoding taken from the front: the first character's encoding, then the rest's.
proof fn lemma_url_encoded_ascii_front(s: Seq<char>)
    requires
        s.len() > 0,
    ensures
        url_encoded_ascii(s) == url_encode_char_ascii(s[0]) + url_encoded_ascii(s.drop_first()),
    decreases s.len(),
{
    if s.len() == 1 {
        assert(s.drop_last() =~= Seq::<char>::empty());
        assert(s.drop_first() =~= Seq::<char>::empty());
        assert(url_encoded_ascii(s.drop_first()) == Seq::<char>::empty());
        assert(url_encoded_ascii(s) =~= url_encode_char_ascii(s[0]));
    } else {
        lemma_url_encoded_ascii_front(s.drop_last());
        assert(s.drop_last().drop_first() =~= s.drop_first().drop_last());
        assert(s.drop_first().last() == s.last());
        assert(s.drop_last()[0] == s[0]);
        assert(url_encoded_ascii(s) =~= url_encode_char_ascii(s[0]) + url_encoded_ascii(
            s.drop_first(),
        ));
    }
}

/// The two-digit uppercase hexadecimal code of an ASCII character.
proof fn lemma_ascii_hex_code(c: char)
    requires
        is_ascii_char(c),
    ensures
        hex_upper_2((c as u32) as nat) == seq![
            hex_upper_digit(((c as u32) / 16) as int),
            hex_upper_digit(((c as u32) % 16) as int),
        ],
        hex_digit_value(hex_upper_digit(((c as u32) / 16) as int)) == (c as u32) / 16,
        hex_digit_value(hex_upper_digit(((c as u32) % 16) as int)) == (c as u32) % 16,
        !reserved_in_query(hex_upper_digit(((c as u32) / 16) as int)),
        !reserved_in_query(hex_upper_digit(((c as u32) % 16) as int)),
        hex_upper_digit(((c as u32) / 16) as int) != '%',
{
    let n = (c as u32) as nat;
    if n >= 16 {
        assert(n / 16 < 16);
        assert(hex_upper(n / 16) == seq![hex_upper_digit((n / 16) as int)]);
        assert(hex_upper(n) =~= seq![hex_upper_digit((n / 16) as int), hex_upper_digit((n % 16) as int)]);
    } else {
        assert(n / 16 == 0);
        assert(hex_upper_digit(0) == '0');
    }
}

/// A character's code, read back, is the character.
proof fn lemma_char_code_roundtrip(c: char)
    ensures
        (((c as u32) / 16) * 16 + (c as u32) % 16) as char == c,
{
    assert(((c as u32) / 16) * 16 + (c as u32) % 16 == c as u32);
}

/// Encoding ASCII text escapes every character that means something in a
/// query, and percent-decoding the result gives the text back.
pub proof fn law_ascii_url_encoding_roundtrip(s: Seq<char>)
    requires
        all_ascii(s),
    ensures
        forall|i: int| 0 <= i < url_encoded_ascii(s).len() ==> !reserved_in_query(
            #[trigger] url_encoded_ascii(s)[i],
        ),
        percent_decoded(url_encoded_ascii(s)) == s,
    decreases s.len(),
{
    if s.len() == 0 {
        assert(s =~= Seq::<char>::empty());
    } else {
        let c = s[0];
        let rest = s.drop_first();
        assert(all_ascii(rest)) by {
            assert forall|i: int| 0 <= i < rest.len() implies is_ascii_char(#[trigger] rest[i]) by {
                assert(rest[i] == s[i + 1]);
            }
        }
        assert(is_ascii_char(c));
        law_ascii_url_encoding_roundtrip(rest);
        lemma_url_encoded_ascii_front(s);
        let head = url_encode_char_ascii(c);
        let tail = url_encoded_ascii(rest);
        let t = url_encoded_ascii(s);
        assert(t == head + tail);
        if url_kept_ascii(c) {
            assert(head == seq![c]);
            assert(t[0] == c);
            assert(t.skip(1) =~= tail);
            assert(percent_decoded(t) == seq![c] + percent_decoded(tail));
            assert forall|i: int| 0 <= i < t.len() implies !reserved_in_query(#[trigger] t[i]) by {
                if i > 0 {
                    assert(t[i] == tail[i - 1]);
                }
            }
        } else {
            lemma_ascii_hex_code(c);
            lemma_char_code_roundtrip(c);
            let h1 = hex_upper_digit(((c as u32) / 16) as int);
            let h2 = hex_upper_digit(((c as u32) % 16) as int);
            assert(head =~= seq!['%', h1, h2]);
            assert(t[0] == '%' && t[1] == h1 && t[2] == h2);
            assert(t.skip(3) =~= tail);
            assert(percent_decoded(t) == seq![(hex_digit_value(h1) * 16 + hex_digit_value(h2)) as char]
                + percent_decoded(tail));
            assert forall|i: int| 0 <= i < t.len() implies !reserved_in_query(#[trigger] t[i]) by {
                if i >= 3 {
                    assert(t[i] == tail[i - 3]);
                }
            }
        }
        assert(percent_decoded(t) =~= s);
    }
}

} // verus!
