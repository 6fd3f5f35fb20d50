//! SpoolmanDB integration: interpreting community filament data.
use vstd::prelude::*;
use crate::material::{MaterialType, known_from_abbreviation};
use crate::text::{chars_of, string_from_chars};

verus! {

/// `s` ends with `suffix`.
pub open spec fn ends_with(s: Seq<char>, suffix: Seq<char>) -> bool {
    suffix.len() <= s.len() && s.subrange(s.len() - suffix.len(), s.len() as int) == suffix
}

/// The dash suffixes that mark composites, in the order they are tried.
pub open spec fn dash_suffixes() -> Seq<Seq<char>> {
    seq![seq!['-', 'E', 'S', 'D'], seq!['-', 'H', 'F'], seq!['-', 'C', 'F'], seq!['-', 'G', 'F']]
}

/// Split a SpoolmanDB material string into its base and its modifier: the first
/// dash suffix that `s` ends with (the modifier is the suffix without its dash),
/// else a trailing `+` (the modifier is "+"), else no modifier.
pub open spec fn split_material(s: Seq<char>) -> (Seq<char>, Option<Seq<char>>) {
    if ends_with(s, dash_suffixes()[0]) {
        (s.subrange(0, s.len() - 4), Some(dash_suffixes()[0].drop_first()))
    } else if ends_with(s, dash_suffixes()[1]) {
        (s.subrange(0, s.len() - 3), Some(dash_suffixes()[1].drop_first()))
    } else if ends_with(s, dash_suffixes()[2]) {
        (s.subrange(0, s.len() - 3), Some(dash_suffixes()[2].drop_first()))
    } else if ends_with(s, dash_suffixes()[3]) {
        (s.subrange(0, s.len() - 3), Some(dash_suffixes()[3].drop_first()))
    } else if ends_with(s, seq!['+']) {
        (s.drop_last(), Some(seq!['+']))
    } else {
        (s, None)
    }
}

/// Whether `cs` ends with `suffix`.
fn chars_end_with(cs: &Vec<char>, suffix: &Vec<char>) -> (r: bool)
    ensures
        r == ends_with(cs@, suffix@),
{
    if suffix.len() > cs.len() {
        return false;
    }
    let start = cs.len() - suffix.len();
    let mut i: usize = 0;
    while i < suffix.len()
        invariant
            i <= suffix.len(),
            start + suffix.len() == cs.len(),
            forall|j: int| 0 <= j < i ==> cs@[start + j] == suffix@[j],
        decreases suffix.len() - i,
    {
        if cs[start + i] != suffix[i] {
            assert(cs@.subrange(start as int, cs.len() as int)[i as int] != suffix@[i as int]);
            return false;
        }
        i = i + 1;
    }
    assert(cs@.subrange(start as int, cs.len() as int) =~= suffix@);
    true
}

/// The first `n` characters of `cs`.
fn prefix(cs: &Vec<char>, n: usize) -> (r: Vec<char>)
    requires
        n <= cs.len(),
    ensures
        r@ == cs@.subrange(0, n as int),
{
    let mut r: Vec<char> = Vec::new();
    let mut i: usize = 0;
    while i < n
        invariant
            i <= n,
            n <= cs.len(),
            r@ == cs@.subrange(0, i as int),
        decreases n - i,
    {
        r.push(cs[i]);
        i = i + 1;
        assert(r@ =~= cs@.subrange(0, i as int));
    }
    r
}

/// The material that `from_abbreviation` makes of `s`.
pub open spec fn parsed_material(m: MaterialType, s: Seq<char>) -> bool {
    match known_from_abbreviation(s) {
        Some(k) => m == k,
        None => m matches MaterialType::Other(o) && o@ == s,
    }
}

/// Split a SpoolmanDB material string into a `(MaterialType, Option<modifier>)` pair.
///
/// Composite suffixes (`+`, `-CF`, `-GF`, `-HF`, `-ESD`) are stripped from the
/// base material before mapping via `MaterialType::from_abbreviation`. The stripped
/// suffix (without the leading `-`) becomes the modifier string.
pub fn parse_material(s: &str) -> (r: (MaterialType, Option<String>))
    ensures
        parsed_material(r.0, split_material(s@).0),
        match r.1 {
            Some(m) => split_material(s@).1 == Some(m@),
            None => split_material(s@).1 is None,
        },
{
    let cs = chars_of(s);
    let suffixes: Vec<Vec<char>> = vec![
        vec!['-', 'E', 'S', 'D'],
        vec!['-', 'H', 'F'],
        vec!['-', 'C', 'F'],
        vec!['-', 'G', 'F'],
    ];
    assert(suffixes@[0]@ =~= dash_suffixes()[0]);
    assert(suffixes@[1]@ =~= dash_suffixes()[1]);
    assert(suffixes@[2]@ =~= dash_suffixes()[2]);
    assert(suffixes@[3]@ =~= dash_suffixes()[3]);
    let mut i: usize = 0;
    while i < suffixes.len()
        invariant
            i <= suffixes.len(),
            suffixes@.len() == 4,
            cs@ == s@,
            forall|j: int| 0 <= j < 4 ==> #[trigger] suffixes@[j]@ == dash_suffixes()[j],
            forall|j: int| 0 <= j < i ==> !ends_with(s@, #[trigger] dash_suffixes()[j]),
        decreases suffixes.len() - i,
    {
        let suffix = &suffixes[i];
        if chars_end_with(&cs, suffix) {
            let base = string_from_chars(&prefix(&cs, cs.len() - suffix.len()));
            let mut modifier: Vec<char> = Vec::new();
            let mut k: usize = 1;
            while k < suffix.len()
                invariant
                    1 <= k <= suffix.len(),
                    modifier@ == suffix@.subrange(1, k as int),
                decreases suffix.len() - k,
            {
                modifier.push(suffix[k]);
                k = k + 1;
                assert(modifier@ =~= suffix@.subrange(1, k as int));
            }
            assert(modifier@ =~= suffix@.drop_first());
            let m = MaterialType::from_abbreviation(base.as_str());
            return (m, Some(string_from_chars(&modifier)));
        }
        i = i + 1;
    }
    let plus: Vec<char> = vec!['+'];
    assert(plus@ =~= seq!['+']);
    if chars_end_with(&cs, &plus) {
        let base = string_from_chars(&prefix(&cs, cs.len() - 1));
        assert(cs@.subrange(0, cs.len() - 1) =~= cs@.drop_last());
        return (MaterialType::from_abbreviation(base.as_str()), Some(string_from_chars(&plus)));
    }
    (MaterialType::from_abbreviation(s), None)
}

} // verus!
