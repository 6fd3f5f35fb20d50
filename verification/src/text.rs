//! Character-sequence helpers used throughout the crate.
use vstd::prelude::*;

verus! {

/// Collect the characters of `s` into a vector.
pub fn chars_of(s: &str) -> (r: Vec<char>)
    ensures
        r@ == s@,
{
    let mut r: Vec<char> = Vec::new();
    for c in it: s.chars()
        invariant
            r@ == it.seq().take(it.index() as int),
            it.seq() == s@,
    {
        r.push(c);
    }
    r
}

/// Whether two strings hold the same characters.
pub fn str_eq(a: &str, b: &str) -> (r: bool)
    ensures
        r == (a@ == b@),
{
    let x = a.to_owned();
    let y = b.to_owned();
    x == y
}

} // verus!

verus! {

/// `a` comes strictly before `b` in lexicographic order of code points,
/// which is the order Rust gives `String`s.
pub open spec fn seq_lt(a: Seq<char>, b: Seq<char>) -> bool {
    exists|i: int| #[trigger] differs_first_at(a, b, i)
}

/// `a` and `b` agree before position `i`, and at `i` either `a` has ended while
/// `b` goes on, or `a` holds the smaller character.
pub open spec fn differs_first_at(a: Seq<char>, b: Seq<char>, i: int) -> bool {
    &&& 0 <= i <= a.len()
    &&& i <= b.len()
    &&& forall|j: int| 0 <= j < i ==> a[j] == b[j]
    &&& ((i == a.len() && i < b.len()) || (i < a.len() && i < b.len() && (a[i] as int) < (b[i]
        as int)))
}

/// No sequence comes before itself.
pub proof fn lemma_seq_lt_irreflexive(a: Seq<char>)
    ensures
        !seq_lt(a, a),
{
    if seq_lt(a, a) {
        let i = choose|i: int| #[trigger] differs_first_at(a, a, i);
        assert(differs_first_at(a, a, i));
    }
}

/// The order is transitive.
pub proof fn lemma_seq_lt_transitive(a: Seq<char>, b: Seq<char>, c: Seq<char>)
    requires
        seq_lt(a, b),
        seq_lt(b, c),
    ensures
        seq_lt(a, c),
{
    let i = choose|i: int| #[trigger] differs_first_at(a, b, i);
    let j = choose|j: int| #[trigger] differs_first_at(b, c, j);
    if i < j {
        assert(differs_first_at(a, c, i));
    } else if j < i {
        assert(b[j] == a[j]);
        assert(differs_first_at(a, c, j));
    } else {
        assert(differs_first_at(a, c, i));
    }
}

/// The first position below `n` where `a` and `b` disagree, or `n` if none.
proof fn first_difference(a: Seq<char>, b: Seq<char>, n: int) -> (k: int)
    requires
        0 <= n <= a.len(),
        n <= b.len(),
    ensures
        0 <= k <= n,
        forall|j: int| 0 <= j < k ==> a[j] == b[j],
        k < n ==> a[k] != b[k],
    decreases n,
{
    if n == 0 {
        0
    } else {
        let k = first_difference(a, b, n - 1);
        if k < n - 1 {
            k
        } else if a[n - 1] != b[n - 1] {
            n - 1
        } else {
            n
        }
    }
}

/// Two different sequences are ordered one way or the other.
pub proof fn lemma_seq_lt_total(a: Seq<char>, b: Seq<char>)
    ensures
        a == b || seq_lt(a, b) || seq_lt(b, a),
{
    if a != b {
        // the first position where they disagree, or the shorter length
        let n = if a.len() < b.len() { a.len() as int } else { b.len() as int };
        let k = first_difference(a, b, n);
        if k < n {
            if (a[k] as int) < (b[k] as int) {
                assert(differs_first_at(a, b, k));
            } else {
                assert(differs_first_at(b, a, k));
            }
        } else if a.len() < b.len() {
            assert(differs_first_at(a, b, k));
        } else if b.len() < a.len() {
            assert(differs_first_at(b, a, k));
        } else {
            assert(a =~= b);
        }
    }
}

/// Lexicographic comparison of two character vectors.
pub fn chars_lt(a: &Vec<char>, b: &Vec<char>) -> (r: bool)
    ensures
        r == seq_lt(a@, b@),
{
    let mut i: usize = 0;
    while i < a.len() && i < b.len()
        invariant
            i <= a.len(),
            i <= b.len(),
            forall|j: int| 0 <= j < i ==> a@[j] == b@[j],
        decreases a.len() - i,
    {
        if a[i] != b[i] {
            let r = a[i] < b[i];
            proof {
                if r {
                    assert(differs_first_at(a@, b@, i as int));
                } else {
                    if seq_lt(a@, b@) {
                        let k = choose|k: int| #[trigger] differs_first_at(a@, b@, k);
                        assert(k == i) by {
                            if k < i {
                            } else if k > i {
                                assert(a@[i as int] == b@[i as int]);
                            }
                        }
                    }
                }
            }
            return r;
        }
        i = i + 1;
    }
    let r = i == a.len() && i < b.len();
    proof {
        if r {
            assert(differs_first_at(a@, b@, i as int));
        } else if seq_lt(a@, b@) {
            let k = choose|k: int| #[trigger] differs_first_at(a@, b@, k);
            if k < i {
                assert(a@[k] == b@[k]);
            }
        }
    }
    r
}

} // verus!

verus! {

/// An ASCII character.
pub open spec fn is_ascii_char(c: char) -> bool {
    (c as u32) < 128
}

/// Every character of `s` is ASCII.
pub open spec fn all_ascii(s: Seq<char>) -> bool {
    forall|i: int| 0 <= i < s.len() ==> is_ascii_char(#[trigger] s[i])
}

/// ASCII lowercase of one character: `A`–`Z` become `a`–`z`, others stay.
pub open spec fn ascii_lower(c: char) -> char {
    if 'A' <= c <= 'Z' {
        ((c as int) + 32) as char
    } else {
        c
    }
}

/// ASCII uppercase of one character: `a`–`z` become `A`–`Z`, others stay.
pub open spec fn ascii_upper(c: char) -> char {
    if 'a' <= c <= 'z' {
        ((c as int) - 32) as char
    } else {
        c
    }
}

/// The ASCII characters with the `White_Space` property: U+0009 to U+000D and the space.
pub open spec fn ascii_white_space(c: char) -> bool {
    c == ' ' || ('\t' <= c <= '\r')
}

/// The ASCII alphanumeric characters: `0`–`9`, `A`–`Z`, `a`–`z`.
pub open spec fn ascii_alphanumeric(c: char) -> bool {
    ('0' <= c <= '9') || ('A' <= c <= 'Z') || ('a' <= c <= 'z')
}

/// Whether `c` has the Unicode `White_Space` property, which std's
/// `char::is_whitespace` reports: U+0009 to U+000D, U+0020, U+0085, U+00A0,
/// U+1680, U+2000 to U+200A, U+2028, U+2029, U+202F, U+205F and U+3000.
pub open spec fn char_is_white_space(c: char) -> bool {
    ||| ascii_white_space(c)
    ||| c == '\u{85}'
    ||| c == '\u{A0}'
    ||| c == '\u{1680}'
    ||| ('\u{2000}' <= c <= '\u{200A}')
    ||| c == '\u{2028}'
    ||| c == '\u{2029}'
    ||| c == '\u{202F}'
    ||| c == '\u{205F}'
    ||| c == '\u{3000}'
}

/// Calls std's `char::is_whitespace`, which reports the `White_Space` property.
#[verifier::external_body]
pub(crate) fn is_white_space(c: char) -> (r: bool)
    ensures
        r == char_is_white_space(c),
{
    c.is_whitespace()
}

/// Every character of `s` is white space (so `s.trim()` is empty).
pub open spec fn spec_is_blank(s: Seq<char>) -> bool {
    forall|i: int| 0 <= i < s.len() ==> char_is_white_space(#[trigger] s[i])
}

/// Whether `s.trim().is_empty()`: `s` holds white space only.
pub fn is_blank(s: &str) -> (r: bool)
    ensures
        r == spec_is_blank(s@),
{
    let cs = chars_of(s);
    let mut i: usize = 0;
    while i < cs.len()
        invariant
            i <= cs.len(),
            cs@ == s@,
            forall|j: int| 0 <= j < i ==> char_is_white_space(#[trigger] s@[j]),
        decreases cs.len() - i,
    {
        if !is_white_space(cs[i]) {
            return false;
        }
        i = i + 1;
    }
    true
}

/// Calls std's `String::push`, which appends `c` to `s`.
#[verifier::external_body]
fn push_char(s: &mut String, c: char)
    ensures
        final(s)@ == old(s)@.push(c),
{
    s.push(c);
}

/// A `String` holding the characters of `cs`, in order.
pub fn string_from_chars(cs: &Vec<char>) -> (r: String)
    ensures
        r@ == cs@,
{
    let mut s = String::new();
    let mut i: usize = 0;
    while i < cs.len()
        invariant
            i <= cs.len(),
            s@ == cs@.take(i as int),
        decreases cs.len() - i,
    {
        push_char(&mut s, cs[i]);
        i = i + 1;
        assert(s@ =~= cs@.take(i as int));
    }
    assert(cs@.take(cs.len() as int) =~= cs@);
    s
}

/// Appends the characters of `s` to `out`.
pub fn push_str(out: &mut Vec<char>, s: &str)
    ensures
        final(out)@ == old(out)@ + s@,
{
    let cs = chars_of(s);
    let mut i: usize = 0;
    while i < cs.len()
        invariant
            i <= cs.len(),
            out@ == old(out)@ + cs@.take(i as int),
        decreases cs.len() - i,
    {
        out.push(cs[i]);
        i = i + 1;
        assert(out@ =~= old(out)@ + cs@.take(i as int));
    }
    assert(cs@.take(cs.len() as int) =~= cs@);
}

/// The ASCII digit for `d` (`d < 10`).
pub open spec fn digit_char(d: int) -> char {
    (('0' as int) + d) as char
}

/// Decimal representation of `n` without leading zeros ("0" for zero).
pub open spec fn decimal(n: nat) -> Seq<char>
    decreases n,
{
    if n < 10 {
        seq![digit_char(n as int)]
    } else {
        decimal(n / 10).push(digit_char((n % 10) as int))
    }
}

/// Decimal representation of `n` left-padded with zeros to `width` digits
/// (exactly `width` digits: `n` must be below `10^width`).
pub open spec fn zero_padded(n: nat, width: nat) -> Seq<char>
    decreases width,
{
    if width == 0 {
        Seq::empty()
    } else {
        zero_padded(n / 10, (width - 1) as nat).push(digit_char((n % 10) as int))
    }
}

/// The character for digit `d`.
fn digit(d: u32) -> (r: char)
    requires
        d < 10,
    ensures
        r == digit_char(d as int),
{
    if d == 0 { '0' } else if d == 1 { '1' } else if d == 2 { '2' } else if d == 3 { '3' }
    else if d == 4 { '4' } else if d == 5 { '5' } else if d == 6 { '6' } else if d == 7 { '7' }
    else if d == 8 { '8' } else { '9' }
}

/// `n` as exactly ten decimal digits, as `format!("{:010}", n)` writes a `u32`.
pub fn zero_padded_10(n: u32) -> (r: Vec<char>)
    ensures
        r@ == zero_padded(n as nat, 10),
{
    let mut digits: Vec<char> = Vec::new();
    let mut m: u32 = n;
    let mut k: usize = 0;
    // digits are produced least significant first
    while k < 10
        invariant
            k <= 10,
            digits@.len() == k,
            zero_padded(n as nat, 10) == zero_padded(m as nat, (10 - k) as nat) + digits@,
        decreases 10 - k,
    {
        let ghost before = digits@;
        assert(zero_padded(m as nat, (10 - k) as nat) == zero_padded((m / 10) as nat, (10 - k - 1)
            as nat).push(digit_char((m % 10) as int)));
        digits.insert(0, digit(m % 10));
        assert(zero_padded((m / 10) as nat, (10 - k - 1) as nat) + digits@ =~= zero_padded(
            (m / 10) as nat, (10 - k - 1) as nat).push(digit_char((m % 10) as int)) + before);
        m = m / 10;
        k = k + 1;
    }
    assert(zero_padded(m as nat, 0) + digits@ =~= digits@);
    digits
}

/// Decimal representation of `n`, as `format!("{}", n)` writes a `u32`.
pub fn decimal_chars(n: u32) -> (r: Vec<char>)
    ensures
        r@ == decimal(n as nat),
    decreases n,
{
    if n < 10 {
        let mut v: Vec<char> = Vec::new();
        v.push(digit(n));
        assert(v@ =~= seq![digit_char(n as int)]);
        v
    } else {
        let mut v = decimal_chars(n / 10);
        v.push(digit(n % 10));
        v
    }
}

} // verus!

verus! {

/// Whether two character vectors are equal.
pub fn chars_eq(a: &Vec<char>, b: &Vec<char>) -> (r: bool)
    ensures
        r == (a@ == b@),
{
    if a.len() != b.len() {
        return false;
    }
    let mut i: usize = 0;
    while i < a.len()
        invariant
            i <= a.len(),
            a.len() == b.len(),
            forall|j: int| 0 <= j < i ==> a@[j] == b@[j],
        decreases a.len() - i,
    {
        if a[i] != b[i] {
            return false;
        }
        i = i + 1;
    }
    assert(a@ =~= b@);
    true
}

} // verus!

verus! {

/// Whether `c` is alphabetic or numeric, as std's `char::is_alphanumeric` reports.
pub uninterp spec fn char_is_alphanumeric(c: char) -> bool;

/// Calls std's `char::is_alphanumeric`. The result is named; on ASCII it is
/// spelled out: the Alphabetic and Numeric characters of ASCII are the digits and
/// the letters.
#[verifier::external_body]
pub(crate) fn is_alphanumeric(c: char) -> (r: bool)
    ensures
        r == char_is_alphanumeric(c),
        is_ascii_char(c) ==> r == ascii_alphanumeric(c),
{
    c.is_alphanumeric()
}

/// What std's `str::to_uppercase` returns for `s`.
pub uninterp spec fn str_to_uppercase(s: Seq<char>) -> Seq<char>;

/// Calls std's `str::to_uppercase`. The result is named; for ASCII text it is
/// spelled out: only `a`–`z` change, to `A`–`Z`.
#[verifier::external_body]
pub(crate) fn to_uppercase(s: &str) -> (r: String)
    ensures
        r@ == str_to_uppercase(s@),
        all_ascii(s@) ==> r@ == s@.map_values(|c: char| ascii_upper(c)),
{
    s.to_uppercase()
}

/// What std's `str::to_lowercase` returns for `s`.
pub uninterp spec fn str_to_lowercase(s: Seq<char>) -> Seq<char>;

/// Calls std's `str::to_lowercase`. The result is named; for ASCII text it is
/// spelled out: only `A`–`Z` change, to `a`–`z`.
#[verifier::external_body]
pub(crate) fn to_lowercase(s: &str) -> (r: String)
    ensures
        r@ == str_to_lowercase(s@),
        all_ascii(s@) ==> r@ == s@.map_values(|c: char| ascii_lower(c)),
{
    s.to_lowercase()
}

/// `needle` occurs in `hay` starting at position `i`.
pub open spec fn occurs_at(hay: Seq<char>, needle: Seq<char>, i: int) -> bool {
    0 <= i && i + needle.len() <= hay.len() && hay.subrange(i, i + needle.len()) == needle
}

/// `needle` occurs somewhere in `hay` (the empty needle always does).
pub open spec fn contains_seq(hay: Seq<char>, needle: Seq<char>) -> bool {
    exists|i: int| #[trigger] occurs_at(hay, needle, i)
}

/// Whether `needle` occurs in `hay`, as `str::contains` with a `&str` pattern answers.
pub fn chars_contain(hay: &Vec<char>, needle: &Vec<char>) -> (r: bool)
    ensures
        r == contains_seq(hay@, needle@),
{
    if needle.len() > hay.len() {
        proof {
            if contains_seq(hay@, needle@) {
                let i = choose|i: int| #[trigger] occurs_at(hay@, needle@, i);
            }
        }
        return false;
    }
    let last = hay.len() - needle.len();
    let mut i: usize = 0;
    while i <= last
        invariant
            last + needle.len() == hay.len(),
            i <= last + 1,
            forall|j: int| 0 <= j < i ==> !#[trigger] occurs_at(hay@, needle@, j),
        decreases last + 1 - i,
    {
        let mut k: usize = 0;
        let mut same = true;
        while k < needle.len()
            invariant
                k <= needle.len(),
                i <= last,
                last + needle.len() == hay.len(),
                same == forall|j: int| 0 <= j < k ==> hay@[i + j] == needle@[j],
            decreases needle.len() - k,
        {
            if hay[i + k] != needle[k] {
                same = false;
            }
            k = k + 1;
        }
        if same {
            assert(hay@.subrange(i as int, i + needle.len()) =~= needle@);
            assert(occurs_at(hay@, needle@, i as int));
            return true;
        }
        proof {
            let w = choose|j: int| 0 <= j < needle.len() && hay@[i + j] != needle@[j];
            assert(hay@.subrange(i as int, i + needle.len())[w] != needle@[w]);
        }
        if i == last {
            proof {
                assert forall|j: int| 0 <= j <= last implies !#[trigger] occurs_at(hay@, needle@, j) by {}
                if contains_seq(hay@, needle@) {
                    let j = choose|j: int| #[trigger] occurs_at(hay@, needle@, j);
                }
            }
            return false;
        }
        i = i + 1;
    }
    false
}

} // verus!
