use spoolman::api::ApiError;
use spoolman::client::{entry_matches_query, urlencoding_encode};
use spoolman::config::{parse_u16, Config, EnvValues};
use spoolman::sorting::{paginate, sort_by_keys};
use spoolman::store::StoreError;
use spoolman::text::{chars_lt, chars_of, decimal_chars, is_blank, str_eq, zero_padded_10};

fn no_env() -> EnvValues {
    EnvValues {
        data_file: None,
        host: None,
        port: None,
        base_path: None,
        debug_mode: None,
        logging_level: None,
        cors_origin: None,
        automatic_backup: None,
        site_root: None,
    }
}

fn keys(words: &[&str]) -> Vec<Vec<char>> {
    words.iter().map(|w| w.chars().collect()).collect()
}

#[test]
fn api_error_statuses() {
    assert_eq!(ApiError::from(StoreError::NotFound).status_code(), 404);
    assert_eq!(ApiError::from(StoreError::Conflict("x".into())).status_code(), 409);
    assert_eq!(ApiError::from(StoreError::Validation("x".into())).status_code(), 422);
    let io = std::io::Error::new(std::io::ErrorKind::Other, "disk");
    assert_eq!(ApiError::from(StoreError::Io(io)).status_code(), 500);
    let json = serde_json::from_str::<serde_json::Value>("not valid json").unwrap_err();
    assert_eq!(ApiError::from(StoreError::Json(json)).status_code(), 500);
}

#[test]
fn api_error_details() {
    assert_eq!(ApiError::from(StoreError::NotFound).detail(), "not found");
    assert_eq!(
        ApiError::from(StoreError::Conflict("filament is referenced by spools: [3]".into())).detail(),
        "conflict: filament is referenced by spools: [3]"
    );
    assert_eq!(
        ApiError::from(StoreError::Validation("name must not be empty".into())).detail(),
        "validation: name must not be empty"
    );
    let io = std::io::Error::new(std::io::ErrorKind::Other, "secret path");
    assert_eq!(ApiError::from(StoreError::Io(io)).detail(), "internal server error");
}

#[test]
fn config_defaults() {
    let c = Config::from_values(no_env(), "data/spoolman.json".to_string(), "1.2.3".to_string());
    assert_eq!(c.data_file, "data/spoolman.json");
    assert_eq!(c.host, "0.0.0.0");
    assert_eq!(c.port, 8000);
    assert_eq!(c.base_path, "");
    assert!(!c.debug_mode);
    assert_eq!(c.logging_level, "info");
    assert_eq!(c.cors_origin, None);
    assert!(c.automatic_backup);
    assert_eq!(c.version, "1.2.3");
    assert_eq!(c.site_root, "target/site");
}

#[test]
fn config_from_set_variables() {
    let env = EnvValues {
        data_file: Some("/srv/db.json".to_string()),
        host: Some("127.0.0.1".to_string()),
        port: Some("7912".to_string()),
        base_path: Some("/spoolman".to_string()),
        debug_mode: Some("True".to_string()),
        logging_level: Some("DEBUG".to_string()),
        cors_origin: Some("http://localhost:3000".to_string()),
        automatic_backup: Some("false".to_string()),
        site_root: Some("/srv/site".to_string()),
    };
    let c = Config::from_values(env, "unused".to_string(), "v".to_string());
    assert_eq!(c.data_file, "/srv/db.json");
    assert_eq!(c.host, "127.0.0.1");
    assert_eq!(c.port, 7912);
    assert_eq!(c.base_path, "/spoolman");
    assert!(c.debug_mode);
    assert_eq!(c.logging_level, "debug");
    assert_eq!(c.cors_origin.as_deref(), Some("http://localhost:3000"));
    assert!(!c.automatic_backup);
    assert_eq!(c.site_root, "/srv/site");
}

#[test]
fn config_edge_values() {
    let mut env = no_env();
    env.port = Some("70000".to_string());
    env.cors_origin = Some("FALSE".to_string());
    env.debug_mode = Some("yes".to_string());
    env.automatic_backup = Some("no".to_string());
    let c = Config::from_values(env, "d".to_string(), "v".to_string());
    assert_eq!(c.port, 8000);
    assert_eq!(c.cors_origin, None);
    assert!(!c.debug_mode);
    assert!(c.automatic_backup);
}

#[test]
fn parse_u16_like_std() {
    for s in ["0", "8000", "+80", "65535", "65536", "", "+", "-1", "12a", "007", " 80"] {
        assert_eq!(parse_u16(s), s.parse::<u16>().ok(), "input {s:?}");
    }
}

#[test]
fn url_encoding() {
    assert_eq!(urlencoding_encode("Prusament PLA"), "Prusament%20PLA");
    assert_eq!(urlencoding_encode("a-b_c.d~e"), "a-b_c.d~e");
    assert_eq!(urlencoding_encode("50%+"), "50%25%2B");
    assert_eq!(urlencoding_encode("é"), "é");
    assert_eq!(urlencoding_encode("\n"), "%0A");
    assert_eq!(urlencoding_encode("€"), "%20AC");
    assert_eq!(urlencoding_encode(""), "");
}

#[test]
fn entry_matching() {
    assert!(entry_matches_query("", "Prusament", "PLA", "Galaxy Black"));
    assert!(entry_matches_query("prusament pla", "Prusament", "PLA", "Galaxy Black"));
    assert!(entry_matches_query("GALAXY", "Prusament", "PLA", "Galaxy Black"));
    assert!(!entry_matches_query("petg", "Prusament", "PLA", "Galaxy Black"));
    assert!(entry_matches_query("pla galaxy", "Prusament", "PLA", "Galaxy Black"));
}

#[test]
fn stable_sort_by_keys() {
    let items = vec![0, 1, 2, 3, 4];
    let ks = keys(&["b", "a", "b", "", "a"]);
    assert_eq!(sort_by_keys(items.clone(), &ks, false), vec![3, 1, 4, 0, 2]);
    assert_eq!(sort_by_keys(items, &ks, true), vec![0, 2, 1, 4, 3]);
}

#[test]
fn paging() {
    let v: Vec<u32> = (0..10).collect();
    assert_eq!(paginate(v.clone(), 0, None), v);
    assert_eq!(paginate(v.clone(), 3, Some(2)), vec![3, 4]);
    assert_eq!(paginate(v.clone(), 8, Some(5)), vec![8, 9]);
    assert_eq!(paginate(v.clone(), 10, None), Vec::<u32>::new());
    assert_eq!(paginate(v, 11, Some(1)), Vec::<u32>::new());
}

#[test]
fn text_helpers() {
    assert!(is_blank(""));
    assert!(is_blank(" \t\n\u{3000}"));
    assert!(!is_blank(" a "));
    assert!(str_eq("same", "same"));
    assert!(!str_eq("same", "Same"));
    assert!(chars_lt(&chars_of("abc"), &chars_of("abd")));
    assert!(chars_lt(&chars_of("ab"), &chars_of("abc")));
    assert!(!chars_lt(&chars_of("abc"), &chars_of("abc")));
    assert!(!chars_lt(&chars_of("b"), &chars_of("abc")));
    assert_eq!(decimal_chars(0), vec!['0']);
    assert_eq!(decimal_chars(4294967295).into_iter().collect::<String>(), "4294967295");
    assert_eq!(zero_padded_10(42).into_iter().collect::<String>(), "0000000042");
}

#[test]
fn ascii_url_encoding_escapes_reserved_and_decodes_back() {
    let s = "a b&c=d+e#f?g/h%i~";
    let enc = urlencoding_encode(s);
    assert_eq!(enc, "a%20b%26c%3Dd%2Be%23f%3Fg%2Fh%25i~");
    assert!(!enc.chars().any(|c| "&=+#?/ ".contains(c)));
    // Percent-decoding gives the text back.
    let mut out = String::new();
    let b = enc.as_bytes();
    let mut i = 0;
    while i < b.len() {
        if b[i] == b'%' {
            out.push(u8::from_str_radix(&enc[i + 1..i + 3], 16).unwrap() as char);
            i += 3;
        } else {
            out.push(b[i] as char);
            i += 1;
        }
    }
    assert_eq!(out, s);
}
