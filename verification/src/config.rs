//! Server configuration, decided from the values of its environment variables.
use vstd::prelude::*;
use crate::text::{
    all_ascii, ascii_lower, ascii_upper, chars_of, str_eq, str_to_lowercase, str_to_uppercase,
    to_lowercase, to_uppercase,
};

verus! {

/// The server's environment variables, each `None` when unset or empty.
#[derive(Debug)]
pub struct EnvValues {
    /// `SPOOLMAN_DATA_FILE`
    pub data_file: Option<String>,
    /// `SPOOLMAN_HOST`
    pub host: Option<String>,
    /// `SPOOLMAN_PORT`
    pub port: Option<String>,
    /// `SPOOLMAN_BASE_PATH`
    pub base_path: Option<String>,
    /// `SPOOLMAN_DEBUG_MODE`
    pub debug_mode: Option<String>,
    /// `SPOOLMAN_LOGGING_LEVEL`
    pub logging_level: Option<String>,
    /// `SPOOLMAN_CORS_ORIGIN`
    pub cors_origin: Option<String>,
    /// `SPOOLMAN_AUTOMATIC_BACKUP`
    pub automatic_backup: Option<String>,
    /// `LEPTOS_SITE_ROOT`
    pub site_root: Option<String>,
}

/// All server configuration, parsed from environment variables at startup.
#[derive(Debug)]
pub struct Config {
    /// Path to the JSON data file.
    pub data_file: String,
    /// Bind host (default: 0.0.0.0).
    pub host: String,
    /// Bind port (default: 8000).
    pub port: u16,
    /// URL base path prefix (default: "").
    pub base_path: String,
    /// Enable debug mode (default: false).
    pub debug_mode: bool,
    /// Log level string passed to the log subscriber (default: "info").
    pub logging_level: String,
    /// CORS allowed origin. `None` disables CORS headers entirely.
    pub cors_origin: Option<String>,
    /// Enable automatic daily backup (default: true).
    pub automatic_backup: bool,
    /// App version string.
    pub version: String,
    /// Path to the compiled frontend assets directory (default: `target/site`).
    pub site_root: String,
}

/// An ASCII decimal digit.
pub open spec fn is_ascii_digit(c: char) -> bool {
    '0' <= c <= '9'
}

/// The number that a string of ASCII decimal digits denotes.
pub open spec fn digits_value(s: Seq<char>) -> nat
    decreases s.len(),
{
    if s.len() == 0 {
        0
    } else {
        digits_value(s.drop_last()) * 10 + ((s.last() as int) - ('0' as int)) as nat
    }
}

/// `s` without a leading `+`.
pub open spec fn unsigned_part(s: Seq<char>) -> Seq<char> {
    if s.len() > 0 && s[0] == '+' {
        s.drop_first()
    } else {
        s
    }
}

/// Every character of `d` is an ASCII digit.
pub open spec fn all_digits(d: Seq<char>) -> bool {
    forall|i: int| 0 <= i < d.len() ==> is_ascii_digit(#[trigger] d[i])
}

/// What `str::parse::<u16>` accepts: an optional `+` followed by one or more
/// ASCII digits denoting at most 65535.
pub open spec fn spec_parse_u16(s: Seq<char>) -> Option<u16> {
    let d = unsigned_part(s);
    if d.len() > 0 && all_digits(d) && digits_value(d) <= 65535 {
        Some(digits_value(d) as u16)
    } else {
        None
    }
}

/// A longer digit string denotes at least as much as its prefix.
proof fn lemma_digits_grow(s: Seq<char>, k: int, j: int)
    requires
        0 <= k <= j <= s.len(),
        forall|i: int| 0 <= i < s.len() ==> is_ascii_digit(#[trigger] s[i]),
    ensures
        digits_value(s.take(k)) <= digits_value(s.take(j)),
    decreases j - k,
{
    if k < j {
        lemma_digits_grow(s, k, j - 1);
        assert(s.take(j).drop_last() =~= s.take(j - 1));
    }
}

/// Parse a port number the way `str::parse::<u16>` does.
pub fn parse_u16(s: &str) -> (r: Option<u16>)
    ensures
        r == spec_parse_u16(s@),
{
    let cs = chars_of(s);
    let start: usize = if cs.len() > 0 && cs[0] == '+' { 1 } else { 0 };
    let ghost d = unsigned_part(s@);
    assert(d =~= cs@.skip(start as int));
    if start >= cs.len() {
        return None;
    }
    let mut value: u32 = 0;
    let mut i: usize = start;
    while i < cs.len()
        invariant
            start <= i <= cs.len(),
            cs@ == s@,
            d == cs@.skip(start as int),
            d == unsigned_part(s@),
            forall|j: int| 0 <= j < i - start ==> is_ascii_digit(#[trigger] d[j]),
            value == digits_value(d.take(i - start)),
            value <= 65535,
        decreases cs.len() - i,
    {
        let c = cs[i];
        assert(d[i - start] == c);
        if !('0' <= c && c <= '9') {
            assert(!is_ascii_digit(d[i - start]));
            assert(!all_digits(d));
            return None;
        }
        let digit = (c as u32) - ('0' as u32);
        assert(d.take(i - start + 1).drop_last() =~= d.take(i - start));
        assert(d[i - start] == c);
        value = value * 10 + digit;
        i = i + 1;
        assert(value == digits_value(d.take(i - start)));
        if value > 65535 {
            proof {
                if all_digits(d) {
                    lemma_digits_grow(d, i - start, d.len() as int);
                    assert(d.take(d.len() as int) =~= d);
                }
            }
            return None;
        }
    }
    assert(d.take(d.len() as int) =~= d);
    Some(value as u16)
}

/// The text of an optional value, or `default` when absent.
pub open spec fn or_default(v: Option<String>, default: Seq<char>) -> Seq<char> {
    match v {
        Some(s) => s@,
        None => default,
    }
}

/// The configuration that `Config::from_values` decides.
pub open spec fn spec_config_matches(env: EnvValues, default_data_file: Seq<char>, version: Seq<char>, c: Config) -> bool {
    &&& c.data_file@ == or_default(env.data_file, default_data_file)
    &&& c.host@ == or_default(env.host, "0.0.0.0"@)
    &&& c.port == (match env.port {
        Some(p) => match spec_parse_u16(p@) {
            Some(v) => v,
            None => 8000u16,
        },
        None => 8000u16,
    })
    &&& c.base_path@ == or_default(env.base_path, ""@)
    &&& c.debug_mode == (match env.debug_mode {
        Some(v) => str_to_uppercase(v@) == "TRUE"@,
        None => false,
    })
    &&& c.logging_level@ == str_to_lowercase(or_default(env.logging_level, "info"@))
    &&& c.cors_origin == (match env.cors_origin {
        Some(v) => if str_to_uppercase(v@) == "FALSE"@ {
            None
        } else {
            Some(v)
        },
        None => None,
    })
    &&& c.automatic_backup == (match env.automatic_backup {
        Some(v) => str_to_uppercase(v@) != "FALSE"@,
        None => true,
    })
    &&& c.version@ == version
    &&& c.site_root@ == or_default(env.site_root, "target/site"@)
}

/// What `spec_config_matches` says of the case-insensitive settings, spelled out
/// for ASCII values: only ASCII letters change case.
pub open spec fn spec_config_matches_ascii(env: EnvValues, c: Config) -> bool {
    &&& match env.debug_mode {
        Some(v) => all_ascii(v@) ==> c.debug_mode == (upper_ascii(v@) == "TRUE"@),
        None => true,
    }
    &&& (all_ascii(or_default(env.logging_level, "info"@)) ==> c.logging_level@ == lower_ascii(
        or_default(env.logging_level, "info"@),
    ))
    &&& match env.cors_origin {
        Some(v) => all_ascii(v@) ==> (c.cors_origin is None <==> upper_ascii(v@) == "FALSE"@),
        None => true,
    }
    &&& match env.automatic_backup {
        Some(v) => all_ascii(v@) ==> c.automatic_backup == (upper_ascii(v@) != "FALSE"@),
        None => true,
    }
}

/// ASCII uppercase of a text.
pub open spec fn upper_ascii(s: Seq<char>) -> Seq<char> {
    s.map_values(|x: char| ascii_upper(x))
}

/// ASCII lowercase of a text.
pub open spec fn lower_ascii(s: Seq<char>) -> Seq<char> {
    s.map_values(|x: char| ascii_lower(x))
}

/// Whether `s` in uppercase is exactly `word`.
fn upper_is(s: &str, word: &str) -> (r: bool)
    ensures
        r == (str_to_uppercase(s@) == word@),
        all_ascii(s@) ==> r == (upper_ascii(s@) == word@),
{
    let u = to_uppercase(s);
    str_eq(u.as_str(), word)
}

/// The value of a variable, or `default` when it is unset.
fn value_or(v: Option<String>, default: &str) -> (r: String)
    ensures
        r@ == or_default(v, default@),
{
    match v {
        Some(s) => s,
        None => default.to_owned(),
    }
}

impl Config {
    /// Decide the configuration from the environment variables' values.
    ///
    /// `FALSE` (in any case) for `SPOOLMAN_CORS_ORIGIN` disables CORS; any other
    /// value is the allowed origin. `TRUE` (in any case) enables debug mode, and
    /// only `FALSE` disables backups. An unparsable port falls back to 8000.
    pub fn from_values(env: EnvValues, default_data_file: String, version: String) -> (r: Config)
        ensures
            spec_config_matches(env, default_data_file@, version@, r),
            spec_config_matches_ascii(env, r),
    {
        let ghost e = env;
        let port = match &env.port {
            Some(p) => match parse_u16(p.as_str()) {
                Some(v) => v,
                None => 8000u16,
            },
            None => 8000u16,
        };
        let debug_mode = match &env.debug_mode {
            Some(v) => upper_is(v.as_str(), "TRUE"),
            None => false,
        };
        let level = value_or(env.logging_level, "info");
        let logging_level = to_lowercase(level.as_str());
        let cors_origin = match env.cors_origin {
            Some(v) => if upper_is(v.as_str(), "FALSE") {
                None
            } else {
                Some(v)
            },
            None => None,
        };
        let automatic_backup = match &env.automatic_backup {
            Some(v) => !upper_is(v.as_str(), "FALSE"),
            None => true,
        };
        let data_file = match env.data_file {
            Some(f) => f,
            None => default_data_file,
        };
        Config {
            data_file,
            host: value_or(env.host, "0.0.0.0"),
            port,
            base_path: value_or(env.base_path, ""),
            debug_mode,
            logging_level,
            cors_origin,
            automatic_backup,
            version,
            site_root: value_or(env.site_root, "target/site"),
        }
    }
}

} // verus!
