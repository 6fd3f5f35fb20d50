use spoolman::material::MaterialType;
use spoolman::spoolmandb::parse_material;

#[test]
fn plain_material() {
    let (mat, modi) = parse_material("PLA");
    assert_eq!(mat, MaterialType::Pla);
    assert_eq!(modi, None);
}

#[test]
fn plus_suffix() {
    let (mat, modi) = parse_material("PLA+");
    assert_eq!(mat, MaterialType::Pla);
    assert_eq!(modi, Some("+".to_string()));
}

#[test]
fn cf_suffix() {
    let (mat, modi) = parse_material("PETG-CF");
    assert_eq!(mat, MaterialType::Petg);
    assert_eq!(modi, Some("CF".to_string()));
}

#[test]
fn gf_suffix() {
    let (mat, modi) = parse_material("ABS-GF");
    assert_eq!(mat, MaterialType::Abs);
    assert_eq!(modi, Some("GF".to_string()));
}

#[test]
fn unknown_base() {
    let (mat, modi) = parse_material("NYLON-CF");
    assert_eq!(mat, MaterialType::Other("NYLON".to_string()));
    assert_eq!(modi, Some("CF".to_string()));
}

#[test]
fn fully_unknown() {
    let (mat, modi) = parse_material("WOODFILL");
    assert_eq!(mat, MaterialType::Other("WOODFILL".to_string()));
    assert_eq!(modi, None);
}

#[test]
fn esd_and_hf_suffixes() {
    assert_eq!(parse_material("PETG-ESD"), (MaterialType::Petg, Some("ESD".to_string())));
    assert_eq!(parse_material("PLA-HF"), (MaterialType::Pla, Some("HF".to_string())));
}

#[test]
fn only_the_last_suffix_is_stripped() {
    // "-CF" is tried before "+", so "PLA+-CF" keeps the "+" in its base.
    assert_eq!(
        parse_material("PLA+-CF"),
        (MaterialType::Other("PLA+".to_string()), Some("CF".to_string()))
    );
    assert_eq!(parse_material("+"), (MaterialType::Other(String::new()), Some("+".to_string())));
}

#[test]
fn empty_material_is_other() {
    assert_eq!(parse_material(""), (MaterialType::Other(String::new()), None));
}

#[test]
fn suffix_is_case_sensitive() {
    assert_eq!(parse_material("PLA-cf"), (MaterialType::Other("PLA-cf".to_string()), None));
}

#[test]
fn split_base_and_modifier_reassemble() {
    for s in ["PLA", "PLA+", "PETG-CF", "ABS-GF", "NYLON-HF", "ASA-ESD", "WOOD"] {
        let (mat, modi) = parse_material(s);
        let mut whole = mat.abbreviation().to_string();
        match modi {
            Some(m) if m == "+" => whole.push('+'),
            Some(m) => {
                whole.push('-');
                whole.push_str(&m);
            }
            None => {}
        }
        assert_eq!(whole, s);
    }
}
