use spoolman::clock::Timestamp;
use spoolman::listing::{
    db_search_results, list_location_param, location_filter_from_text, material_filter_from_text,
    sort_rows, spool_table,
    available_materials, filters_active, spool_column_order, ViewMode,
    db_entry_matches, filament_matches_search, filament_selector_disabled,
    first_filament_matching, has_next_page, material_selected, page_items, spool_matches_search,
    toggle_sort, total_pages,
};
use spoolman::material::MaterialType;
use spoolman::models::{Filament, Location, Quantity, Spool, SpoolResponse};

fn filament(manufacturer: Option<&str>, material: Option<MaterialType>) -> Filament {
    Filament {
        id: 7,
        manufacturer: manufacturer.map(String::from),
        material,
        material_modifier: None,
        diameter: Quantity { bits: 1.75f32.to_bits() },
        net_weight: None,
        density: Quantity { bits: 1.24f32.to_bits() },
        print_temp: None,
        bed_temp: None,
        spool_weight: None,
        min_print_temp: None,
        max_print_temp: None,
        min_bed_temp: None,
        max_bed_temp: None,
        registered: Timestamp { secs: 0, nanos: 0 },
        comment: None,
    }
}

fn spool_at(location_id: Option<u32>, color_name: Option<&str>) -> Spool {
    Spool {
        id: 3,
        filament_id: 7,
        location_id,
        colors: vec![],
        color_name: color_name.map(String::from),
        initial_weight: Quantity { bits: 1000f32.to_bits() },
        current_weight: Quantity { bits: 900f32.to_bits() },
        net_weight: None,
        price: None,
        registered: Timestamp { secs: 0, nanos: 0 },
        first_used: None,
        last_used: None,
        comment: None,
        archived: false,
    }
}

#[test]
fn filament_search_is_case_insensitive_on_display_name() {
    let f = filament(Some("Prusament"), Some(MaterialType::Petg));
    assert!(filament_matches_search("", &f));
    assert!(filament_matches_search("prusa", &f));
    assert!(filament_matches_search("MENT PE", &f));
    assert!(!filament_matches_search("pla", &f));
}

#[test]
fn spool_search_looks_at_name_color_material_and_location() {
    let locations = vec![
        Location { id: 1, name: "Dry Box".to_string() },
        Location { id: 2, name: "Shelf".to_string() },
    ];
    let item = SpoolResponse::new(
        spool_at(Some(1), Some("Galaxy Black")),
        filament(Some("Prusament"), Some(MaterialType::Pla)),
    );
    assert!(spool_matches_search("", &item, &locations));
    assert!(spool_matches_search("prusament", &item, &locations));
    assert!(spool_matches_search("galaxy", &item, &locations));
    assert!(spool_matches_search("pla", &item, &locations));
    assert!(spool_matches_search("dry", &item, &locations));
    assert!(!spool_matches_search("shelf", &item, &locations));
    let bare = SpoolResponse::new(spool_at(None, None), filament(None, None));
    assert!(!spool_matches_search("x", &bare, &locations));
    assert!(spool_matches_search("", &bare, &locations));
}

#[test]
fn material_filter() {
    let sel = vec!["PLA".to_string(), "PETG".to_string()];
    assert!(material_selected(&vec![], &None));
    assert!(material_selected(&sel, &Some(MaterialType::Petg)));
    assert!(!material_selected(&sel, &Some(MaterialType::Abs)));
    assert!(!material_selected(&sel, &None));
    assert!(material_selected(&vec!["WOOD".to_string()], &Some(MaterialType::Other("WOOD".into()))));
}

#[test]
fn spoolmandb_search_box() {
    assert!(!db_entry_matches("", "Prusament", "PLA", "Galaxy Black"));
    assert!(db_entry_matches("PRUSA", "Prusament", "PLA", "Galaxy Black"));
    assert!(db_entry_matches("black", "Prusament", "PLA", "Galaxy Black"));
    // The fields are searched one by one, not joined.
    assert!(!db_entry_matches("prusament pla", "Prusament", "PLA", "Galaxy Black"));
}

#[test]
fn sort_header_toggle() {
    assert_eq!(toggle_sort("registered", false, "registered"), ("registered".to_string(), true));
    assert_eq!(toggle_sort("registered", true, "registered"), ("registered".to_string(), false));
    assert_eq!(toggle_sort("registered", false, "filament"), ("filament".to_string(), true));
}

#[test]
fn page_arithmetic() {
    assert_eq!(total_pages(0, 25), 0);
    assert_eq!(total_pages(25, 25), 1);
    assert_eq!(total_pages(26, 25), 2);
    assert_eq!(total_pages(5, 0), 1);
    assert!(has_next_page(0, 26, 25));
    assert!(!has_next_page(1, 26, 25));
    let v: Vec<u32> = (0..30).collect();
    assert_eq!(page_items(v.clone(), 1, 25), (25..30).collect::<Vec<u32>>());
    assert_eq!(page_items(v.clone(), 0, 10), (0..10).collect::<Vec<u32>>());
    assert_eq!(page_items(v, 5, 10), Vec::<u32>::new());
}

#[test]
fn spool_form_filament_lookup() {
    let fs = vec![
        filament(Some("Prusament"), Some(MaterialType::Pla)),
        filament(Some("Polymaker"), Some(MaterialType::Petg)),
        filament(Some("Prusament"), Some(MaterialType::Petg)),
    ];
    assert_eq!(first_filament_matching(&fs, "petg"), Some(1));
    assert_eq!(first_filament_matching(&fs, "PRUSAMENT PETG"), Some(2));
    assert_eq!(first_filament_matching(&fs, ""), Some(0));
    assert_eq!(first_filament_matching(&fs, "abs"), None);
    assert!(!filament_selector_disabled("", false, &fs));
    assert!(!filament_selector_disabled("abs", true, &fs));
    assert!(!filament_selector_disabled("petg", false, &fs));
    assert!(filament_selector_disabled("abs", false, &fs));
}

fn row(id: u32, location_id: Option<u32>, material: Option<MaterialType>, secs: i64) -> SpoolResponse {
    let mut s = spool_at(location_id, None);
    s.id = id;
    s.registered = Timestamp { secs, nanos: 0 };
    SpoolResponse::new(s, filament(Some("Brand"), material))
}

#[test]
fn material_list_is_sorted_and_distinct() {
    let items = vec![
        row(1, None, Some(MaterialType::Petg), 0),
        row(2, None, None, 0),
        row(3, None, Some(MaterialType::Abs), 0),
        row(4, None, Some(MaterialType::Petg), 0),
    ];
    assert_eq!(available_materials(&items), vec!["ABS".to_string(), "PETG".to_string()]);
    assert!(available_materials(&vec![]).is_empty());
}

#[test]
fn clear_filters_button() {
    assert!(!filters_active("", 2, 2, ViewMode::Spool, None, "off", true, false));
    assert!(filters_active("x", 2, 2, ViewMode::Spool, None, "off", false, false));
    assert!(filters_active("", 1, 2, ViewMode::Spool, None, "off", false, false));
    assert!(filters_active("", 2, 2, ViewMode::Spool, Some(3), "off", false, false));
    assert!(!filters_active("", 2, 2, ViewMode::Color, Some(3), "same", false, false));
    assert!(filters_active("", 2, 2, ViewMode::Spool, None, "same", false, false));
    assert!(filters_active("", 2, 2, ViewMode::Color, None, "off", true, false));
    assert!(filters_active("", 2, 2, ViewMode::Color, None, "off", false, true));
}

#[test]
fn spool_table_column_order() {
    let a = row(1, Some(5), Some(MaterialType::Pla), 100);
    let b = row(2, None, Some(MaterialType::Abs), 50);
    assert_eq!(spool_column_order(&a, &b, "id", true), Some(-1));
    assert_eq!(spool_column_order(&a, &b, "id", false), Some(1));
    assert_eq!(spool_column_order(&a, &b, "registered", true), Some(1));
    assert_eq!(spool_column_order(&a, &b, "filament", true), Some(1));
    // Spools without a location come last in either direction.
    assert_eq!(spool_column_order(&a, &b, "location", true), Some(-1));
    assert_eq!(spool_column_order(&a, &b, "location", false), Some(-1));
    assert_eq!(spool_column_order(&b, &a, "location", false), Some(1));
    assert_eq!(spool_column_order(&a, &a, "filament", false), Some(0));
    assert_eq!(spool_column_order(&a, &b, "hue", true), None);
    assert_eq!(spool_column_order(&a, &b, "price_per_kg", true), None);
    assert_eq!(spool_column_order(&a, &b, "unknown", true), Some(0));
}

#[test]
fn database_search_lists_at_most_ten_in_order() {
    let entries: Vec<(String, String, String)> = (0..15)
        .map(|i| {
            let maker = if i % 2 == 0 { "Prusament" } else { "Polymaker" };
            (maker.to_string(), "PLA".to_string(), format!("Color {i}"))
        })
        .collect();
    assert_eq!(db_search_results("prusa", &entries), vec![0, 2, 4, 6, 8, 10, 12, 14]);
    assert_eq!(db_search_results("pla", &entries), (0..10).collect::<Vec<usize>>());
    assert!(db_search_results("", &entries).is_empty());
    assert!(db_search_results("abs", &entries).is_empty());
}

#[test]
fn spool_rows_sort_stably_by_column() {
    let rows = vec![
        row(1, Some(2), Some(MaterialType::Pla), 30),
        row(2, None, Some(MaterialType::Pla), 10),
        row(3, Some(1), Some(MaterialType::Pla), 20),
        row(4, Some(2), Some(MaterialType::Pla), 20),
    ];
    let ids = |v: Vec<SpoolResponse>| v.into_iter().map(|r| r.spool.id).collect::<Vec<u32>>();
    let copy = |v: &Vec<SpoolResponse>| {
        v.iter().map(|r| SpoolResponse::new(r.spool.clone(), r.filament.clone())).collect::<Vec<_>>()
    };
    assert_eq!(ids(sort_rows(copy(&rows), "registered", true)), vec![2, 3, 4, 1]);
    assert_eq!(ids(sort_rows(copy(&rows), "registered", false)), vec![1, 3, 4, 2]);
    assert_eq!(ids(sort_rows(copy(&rows), "location", true)), vec![3, 1, 4, 2]);
    assert_eq!(ids(sort_rows(copy(&rows), "location", false)), vec![1, 4, 3, 2]);
    assert_eq!(ids(sort_rows(copy(&rows), "filament", false)), vec![1, 2, 3, 4]);
    assert_eq!(ids(sort_rows(rows, "id", false)), vec![4, 3, 2, 1]);
}

#[test]
fn spool_table_filters_sorts_and_pages() {
    let rows = vec![
        row(1, None, Some(MaterialType::Pla), 30),
        row(2, None, Some(MaterialType::Petg), 10),
        row(3, None, Some(MaterialType::Pla), 20),
        row(4, None, Some(MaterialType::Pla), 40),
    ];
    let locations: Vec<Location> = vec![];
    let pla = vec!["PLA".to_string()];
    let color_ok = vec![true, true, false, true];
    let (page, total) = spool_table(
        rows, &color_ok, &locations, "", &pla, ViewMode::Spool, false, &vec![], "registered", false, 0, 1,
    )
    .unwrap();
    assert_eq!(total, 2);
    assert_eq!(page.iter().map(|r| r.spool.id).collect::<Vec<_>>(), vec![4]);

    let rows = vec![
        row(1, None, Some(MaterialType::Pla), 30),
        row(2, None, Some(MaterialType::Pla), 10),
        row(3, None, Some(MaterialType::Pla), 20),
    ];
    // In the grid the color verdicts are ignored and "pinned only" applies.
    let (page, total) = spool_table(
        rows, &vec![false, false, false], &locations, "", &vec![], ViewMode::Color, true, &vec![3, 1],
        "id", true, 0, 10,
    )
    .unwrap();
    assert_eq!(total, 2);
    assert_eq!(page.iter().map(|r| r.spool.id).collect::<Vec<_>>(), vec![1, 3]);

    let none = spool_table(
        vec![], &vec![], &locations, "", &vec![], ViewMode::Spool, false, &vec![], "hue", true, 0, 10,
    );
    assert!(none.is_none());
}

#[test]
fn stored_spool_filters() {
    assert_eq!(list_location_param(ViewMode::Spool, Some(3)), Some(3));
    assert_eq!(list_location_param(ViewMode::Color, Some(3)), None);
    assert_eq!(material_filter_from_text("PLA,,PETG,"), vec!["PLA".to_string(), "PETG".to_string()]);
    assert!(material_filter_from_text("").is_empty());
    assert_eq!(material_filter_from_text("ABS"), vec!["ABS".to_string()]);
    assert_eq!(location_filter_from_text("12"), Some(12));
    assert_eq!(location_filter_from_text(""), None);
    assert_eq!(location_filter_from_text("x"), None);
}
