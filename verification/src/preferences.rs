//! The settings page: reading the stored settings with their defaults, the
//! color algorithm chosen by name, and the keys of the threshold settings.
use vstd::prelude::*;
use crate::color::ColorAlgorithm;
use crate::datastore::settings_map;
use crate::text::{push_str, str_eq, string_from_chars};

verus! {

/// The value of setting `key` among `pairs`, a later pair overriding an earlier one.
pub open spec fn spec_setting(pairs: Seq<(String, String)>, key: Seq<char>) -> Option<Seq<char>> {
    if settings_map(pairs).contains_key(key) {
        Some(settings_map(pairs)[key])
    } else {
        None
    }
}

/// The value of setting `key` among `pairs` (as `get_settings` returns them).
pub fn setting_value(pairs: &Vec<(String, String)>, key: &str) -> (r: Option<String>)
    ensures
        match r {
            Some(v) => spec_setting(pairs@, key@) == Some(v@),
            None => spec_setting(pairs@, key@) is None,
        },
{
    let mut i: usize = pairs.len();
    assert(pairs@.take(i as int) =~= pairs@);
    while i > 0
        invariant
            i <= pairs.len(),
            settings_map(pairs@).contains_key(key@) == settings_map(pairs@.take(i as int)).contains_key(
                key@,
            ),
            settings_map(pairs@).contains_key(key@) ==> settings_map(pairs@)[key@] == settings_map(
                pairs@.take(i as int),
            )[key@],
        decreases i,
    {
        let ghost prefix = pairs@.take(i as int);
        assert(prefix.drop_last() =~= pairs@.take(i - 1));
        assert(prefix.last() == pairs@[i - 1]);
        if str_eq(pairs[i - 1].0.as_str(), key) {
            return Some(pairs[i - 1].1.clone());
        }
        i = i - 1;
    }
    assert(settings_map(pairs@.take(0)) =~= Map::empty());
    None
}

/// The color algorithm a setting names: "oklab", "din99d", otherwise CIEDE2000.
pub open spec fn spec_algorithm_from_name(name: Seq<char>) -> ColorAlgorithm {
    if name == "oklab"@ {
        ColorAlgorithm::OkLab
    } else if name == "din99d"@ {
        ColorAlgorithm::Din99d
    } else {
        ColorAlgorithm::Ciede2000
    }
}

/// The color algorithm named by `name`.
pub fn algorithm_from_name(name: &str) -> (r: ColorAlgorithm)
    ensures
        r == spec_algorithm_from_name(name@),
{
    if str_eq(name, "oklab") {
        ColorAlgorithm::OkLab
    } else if str_eq(name, "din99d") {
        ColorAlgorithm::Din99d
    } else {
        ColorAlgorithm::Ciede2000
    }
}

/// The key of the threshold setting for algorithm `algo` and search level `level`.
pub open spec fn spec_threshold_key(algo: Seq<char>, level: Seq<char>) -> Seq<char> {
    "color_threshold_"@ + algo + "_"@ + level
}

/// The key under which the threshold for `algo` (by name) and `level` is stored.
pub fn threshold_setting_key(algo: &str, level: &str) -> (r: String)
    ensures
        r@ == spec_threshold_key(algo@, level@),
{
    let mut out: Vec<char> = Vec::new();
    push_str(&mut out, "color_threshold_");
    push_str(&mut out, algo);
    push_str(&mut out, "_");
    push_str(&mut out, level);
    string_from_chars(&out)
}

/// The settings shown on the settings page.
#[derive(Debug)]
pub struct PagePreferences {
    pub currency_symbol: String,
    pub uniform_diameter: bool,
    pub default_diameter: String,
    pub color_algorithm: String,
}

/// The settings page's values: "currency_symbol" (default "€"),
/// "uniform_diameter" (on unless stored and not "true"), "default_diameter"
/// (default "1.75") and "color_distance_algorithm" (default "ciede2000").
pub open spec fn spec_page_preferences(pairs: Seq<(String, String)>, p: PagePreferences) -> bool {
    &&& p.currency_symbol@ == match spec_setting(pairs, "currency_symbol"@) {
        Some(v) => v,
        None => "€"@,
    }
    &&& p.uniform_diameter == match spec_setting(pairs, "uniform_diameter"@) {
        Some(v) => v == "true"@,
        None => true,
    }
    &&& p.default_diameter@ == match spec_setting(pairs, "default_diameter"@) {
        Some(v) => v,
        None => "1.75"@,
    }
    &&& p.color_algorithm@ == match spec_setting(pairs, "color_distance_algorithm"@) {
        Some(v) => v,
        None => "ciede2000"@,
    }
}

/// The settings page's values read from the stored settings.
pub fn page_preferences(pairs: &Vec<(String, String)>) -> (r: PagePreferences)
    ensures
        spec_page_preferences(pairs@, r),
{
    let currency_symbol = match setting_value(pairs, "currency_symbol") {
        Some(v) => v,
        None => "€".to_owned(),
    };
    let uniform_diameter = match setting_value(pairs, "uniform_diameter") {
        Some(v) => str_eq(v.as_str(), "true"),
        None => true,
    };
    let default_diameter = match setting_value(pairs, "default_diameter") {
        Some(v) => v,
        None => "1.75".to_owned(),
    };
    let color_algorithm = match setting_value(pairs, "color_distance_algorithm") {
        Some(v) => v,
        None => "ciede2000".to_owned(),
    };
    PagePreferences { currency_symbol, uniform_diameter, default_diameter, color_algorithm }
}

} // verus!
