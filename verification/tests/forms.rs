use spoolman::clock::Timestamp;
use spoolman::forms::{
    filament_matches_entry, form_date, form_location, int_field, material_field, parse_i32,
    parse_u32, text_or_none,
};
use spoolman::material::MaterialType;
use spoolman::models::{Filament, Quantity};

#[test]
fn spool_form_dates() {
    assert_eq!(
        form_date("2024-03-15", false, "2024-06-01"),
        Some(Timestamp { secs: 1_710_461_100, nanos: 0 })
    );
    assert_eq!(form_date("1969-12-31", false, "x"), Some(Timestamp { secs: -86_100, nanos: 0 }));
    assert_eq!(form_date("", false, "2024-06-01"), None);
    // The untouched "today" default of a spool without a date is not sent.
    assert_eq!(form_date("2024-06-01", true, "2024-06-01"), None);
    assert!(form_date("2024-06-01", false, "2024-06-01").is_some());
    assert_eq!(form_date("15.03.2024", false, "2024-06-01"), None);
    assert_eq!(form_date("2024-02-30", false, "2024-06-01"), None);
}

#[test]
fn spool_form_location_is_required() {
    assert_eq!(form_location(Some(4)), Ok(4));
    assert_eq!(form_location(None), Err("Location is required.".to_string()));
}

#[test]
fn filament_form_fields() {
    assert_eq!(text_or_none(String::new()), None);
    assert_eq!(text_or_none("Prusament".to_string()), Some("Prusament".to_string()));
    assert_eq!(material_field(""), None);
    assert_eq!(material_field("PETG"), Some(MaterialType::Petg));
    assert_eq!(material_field("Wood"), Some(MaterialType::Other("Wood".to_string())));
    assert_eq!(int_field(""), None);
    assert_eq!(int_field("215"), Some(215));
    assert_eq!(int_field("abc"), None);
}

#[test]
fn whole_numbers_parse_like_std() {
    for s in [
        "0", "-0", "+7", "-7", "2147483647", "2147483648", "-2147483648", "-2147483649", "", "+",
        "-", "1e3", " 1", "007", "99999999999",
    ] {
        assert_eq!(parse_i32(s), s.parse::<i32>().ok(), "input {s:?}");
    }
    for s in ["0", "4294967295", "4294967296", "+12", "-1", "", "12x"] {
        assert_eq!(parse_u32(s), s.parse::<u32>().ok(), "input {s:?}");
    }
}

fn known(manufacturer: Option<&str>, material: Option<MaterialType>) -> Filament {
    Filament {
        id: 1,
        manufacturer: manufacturer.map(String::from),
        material,
        material_modifier: None,
        diameter: Quantity { bits: 1.75f32.to_bits() },
        net_weight: None,
        density: Quantity { bits: 1.24f32.to_bits() },
        print_temp: None,
        bed_temp: None,
        spool_weight: None,
        min_print_temp: None,
        max_print_temp: None,
        min_bed_temp: None,
        max_bed_temp: None,
        registered: Timestamp { secs: 0, nanos: 0 },
        comment: None,
    }
}

#[test]
fn database_entry_matches_known_filament() {
    let f = known(Some("Prusament"), Some(MaterialType::Pla));
    assert!(filament_matches_entry(&f, "PRUSAMENT", &MaterialType::Pla));
    assert!(!filament_matches_entry(&f, "Prusament", &MaterialType::Petg));
    assert!(!filament_matches_entry(&f, "Polymaker", &MaterialType::Pla));
    assert!(!filament_matches_entry(&known(None, Some(MaterialType::Pla)), "", &MaterialType::Pla));
    let wood = known(Some("X"), Some(MaterialType::Other("WOOD".into())));
    assert!(filament_matches_entry(&wood, "x", &MaterialType::Other("WOOD".into())));
    assert!(!filament_matches_entry(&wood, "x", &MaterialType::Other("wood".into())));
}
