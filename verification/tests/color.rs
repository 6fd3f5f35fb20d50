use spoolman::color::{colors_from_rows, hex_to_rgba, threshold_for_opt, ColorAlgorithm};
use spoolman::models::Rgba;

/// The default threshold as the color search uses it: 0 for "off" and unknown levels.
fn default_threshold_for(level: &str, algo: ColorAlgorithm) -> f32 {
    threshold_for_opt(level, algo).map(|h| h as f32 / 100.0).unwrap_or(0.0)
}

#[test]
fn threshold_off_returns_zero() {
    assert_eq!(default_threshold_for("off", ColorAlgorithm::Ciede2000), 0.0);
}

#[test]
fn threshold_same_oklab_is_0_10() {
    assert_eq!(default_threshold_for("same", ColorAlgorithm::OkLab), 0.10);
}

#[test]
fn thresholds_in_hundredths() {
    assert_eq!(threshold_for_opt("same", ColorAlgorithm::Ciede2000), Some(1000));
    assert_eq!(threshold_for_opt("close", ColorAlgorithm::Din99d), Some(2000));
    assert_eq!(threshold_for_opt("ballpark", ColorAlgorithm::Ciede2000), Some(3500));
    assert_eq!(threshold_for_opt("close", ColorAlgorithm::OkLab), Some(20));
    assert_eq!(threshold_for_opt("ballpark", ColorAlgorithm::OkLab), Some(35));
    assert_eq!(threshold_for_opt("off", ColorAlgorithm::OkLab), None);
    assert_eq!(threshold_for_opt("SAME", ColorAlgorithm::OkLab), None);
}

#[test]
fn thresholds_widen_with_level() {
    for algo in [ColorAlgorithm::Ciede2000, ColorAlgorithm::OkLab, ColorAlgorithm::Din99d] {
        let same = threshold_for_opt("same", algo).unwrap();
        let close = threshold_for_opt("close", algo).unwrap();
        let ballpark = threshold_for_opt("ballpark", algo).unwrap();
        assert!(same < close && close < ballpark);
    }
}

#[test]
fn hex_to_rgba_parses_lower_and_upper_case() {
    assert_eq!(hex_to_rgba("#ff8000"), Some(Rgba { r: 255, g: 128, b: 0, a: 255 }));
    assert_eq!(hex_to_rgba("#1A2b3C"), Some(Rgba { r: 0x1a, g: 0x2b, b: 0x3c, a: 255 }));
    assert_eq!(hex_to_rgba("#000000"), Some(Rgba { r: 0, g: 0, b: 0, a: 255 }));
}

#[test]
fn hex_to_rgba_rejects_other_formats() {
    assert_eq!(hex_to_rgba("ff8000"), None);
    assert_eq!(hex_to_rgba("#ff800"), None);
    assert_eq!(hex_to_rgba("#ff80000"), None);
    assert_eq!(hex_to_rgba("#gg0000"), None);
    assert_eq!(hex_to_rgba(""), None);
}

#[test]
fn hex_to_rgba_rejects_signs_and_split_characters() {
    assert_eq!(hex_to_rgba("#+f0000"), None);
    assert_eq!(hex_to_rgba("#+f+f+f"), None);
    // Seven bytes, but 'é' takes two of them.
    assert_eq!("#aébcd".len(), 7);
    assert_eq!(hex_to_rgba("#aébcd"), None);
    assert_eq!(hex_to_rgba("#ééé"), None);
}

#[test]
fn color_rows_keep_parsable_rows_with_their_opacity() {
    let rows = vec![
        ("#ff0000".to_string(), 255u8),
        ("#zz0000".to_string(), 10u8),
        ("#00ff00".to_string(), 128u8),
        ("".to_string(), 0u8),
        ("#aébcd".to_string(), 1u8),
    ];
    assert_eq!(
        colors_from_rows(&rows),
        vec![Rgba { r: 255, g: 0, b: 0, a: 255 }, Rgba { r: 0, g: 255, b: 0, a: 128 }]
    );
    assert_eq!(colors_from_rows(&vec![]), Vec::<Rgba>::new());
}
