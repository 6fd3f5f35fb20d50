use spoolman::material::MaterialType;
use spoolman::models::{Filament, Quantity};
use spoolman::clock::Timestamp;

#[test]
fn every_known_material_round_trips_through_its_abbreviation() {
    let all = MaterialType::all_known();
    assert_eq!(all.len(), 42);
    for (i, m) in all.iter().enumerate() {
        assert_eq!(MaterialType::from_abbreviation(m.abbreviation()), *m);
        assert_eq!(m.key(), Some(i as u8));
        assert!(m.full_name().is_some());
    }
}

#[test]
fn known_abbreviations_and_names() {
    assert_eq!(MaterialType::Pla.abbreviation(), "PLA");
    assert_eq!(MaterialType::Pa66.abbreviation(), "PA66");
    assert_eq!(MaterialType::Eva.abbreviation(), "EVA");
    assert_eq!(MaterialType::Pla.full_name(), Some("Polylactic Acid"));
    assert_eq!(MaterialType::Eva.key(), Some(41));
    assert_eq!(MaterialType::Petg.key(), Some(1));
}

#[test]
fn unknown_abbreviations_are_kept() {
    let m = MaterialType::from_abbreviation("pla");
    assert_eq!(m, MaterialType::Other("pla".to_string()));
    assert_eq!(m.abbreviation(), "pla");
    assert_eq!(m.key(), None);
    assert_eq!(m.full_name(), None);
    assert_eq!(MaterialType::from_abbreviation("NYLON").abbreviation(), "NYLON");
}

#[test]
fn clone_keeps_material() {
    let m = MaterialType::Other("WOOD".to_string());
    assert_eq!(m.clone(), m);
    assert_eq!(MaterialType::Asa.clone(), MaterialType::Asa);
}

fn bare_filament() -> Filament {
    Filament {
        id: 1,
        manufacturer: None,
        material: None,
        material_modifier: None,
        diameter: Quantity { bits: 1.75f32.to_bits() },
        net_weight: None,
        density: Quantity { bits: 1.24f32.to_bits() },
        print_temp: None,
        bed_temp: None,
        spool_weight: None,
        min_print_temp: None,
        max_print_temp: None,
        min_bed_temp: None,
        max_bed_temp: None,
        registered: Timestamp { secs: 0, nanos: 0 },
        comment: None,
    }
}

#[test]
fn display_name_joins_present_parts() {
    let mut f = bare_filament();
    assert_eq!(f.display_name(), "");
    f.material = Some(MaterialType::Petg);
    assert_eq!(f.display_name(), "PETG");
    f.manufacturer = Some("Prusament".to_string());
    assert_eq!(f.display_name(), "Prusament PETG");
    f.material_modifier = Some("CF".to_string());
    assert_eq!(f.display_name(), "Prusament PETG CF");
    f.material = None;
    assert_eq!(f.display_name(), "Prusament CF");
}
