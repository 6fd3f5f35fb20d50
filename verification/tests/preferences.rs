use spoolman::color::ColorAlgorithm;
use spoolman::datapath::{check_no_parent_dir, PathPart};
use spoolman::preferences::{algorithm_from_name, page_preferences, setting_value, threshold_setting_key};
use spoolman::store::StoreError;

fn pairs(items: &[(&str, &str)]) -> Vec<(String, String)> {
    items.iter().map(|(k, v)| (k.to_string(), v.to_string())).collect()
}

#[test]
fn later_setting_pairs_win() {
    let p = pairs(&[("theme", "light"), ("currency_symbol", "$"), ("theme", "dark")]);
    assert_eq!(setting_value(&p, "theme"), Some("dark".to_string()));
    assert_eq!(setting_value(&p, "currency_symbol"), Some("$".to_string()));
    assert_eq!(setting_value(&p, "missing"), None);
}

#[test]
fn settings_page_defaults_and_values() {
    let d = page_preferences(&vec![]);
    assert_eq!(d.currency_symbol, "€");
    assert!(d.uniform_diameter);
    assert_eq!(d.default_diameter, "1.75");
    assert_eq!(d.color_algorithm, "ciede2000");
    let p = pairs(&[
        ("currency_symbol", "$"),
        ("uniform_diameter", "false"),
        ("default_diameter", "2.85"),
        ("color_distance_algorithm", "oklab"),
    ]);
    let s = page_preferences(&p);
    assert_eq!(s.currency_symbol, "$");
    assert!(!s.uniform_diameter);
    assert_eq!(s.default_diameter, "2.85");
    assert_eq!(s.color_algorithm, "oklab");
    assert!(!page_preferences(&pairs(&[("uniform_diameter", "TRUE")])).uniform_diameter);
}

#[test]
fn algorithm_names_and_threshold_keys() {
    assert_eq!(algorithm_from_name("oklab"), ColorAlgorithm::OkLab);
    assert_eq!(algorithm_from_name("din99d"), ColorAlgorithm::Din99d);
    assert_eq!(algorithm_from_name("ciede2000"), ColorAlgorithm::Ciede2000);
    assert_eq!(algorithm_from_name("OKLAB"), ColorAlgorithm::Ciede2000);
    assert_eq!(threshold_setting_key("oklab", "same"), "color_threshold_oklab_same");
}

#[test]
fn data_path_parent_components_are_refused() {
    assert!(check_no_parent_dir(&vec![PathPart::Other, PathPart::Other]).is_ok());
    assert!(check_no_parent_dir(&vec![]).is_ok());
    match check_no_parent_dir(&vec![PathPart::Other, PathPart::ParentDir, PathPart::Other]) {
        Err(StoreError::Validation(m)) => {
            assert_eq!(m, "data file path must not contain '..' components")
        }
        other => panic!("unexpected {other:?}"),
    }
}
