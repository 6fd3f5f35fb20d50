use spoolman::api::ApiError;
use spoolman::clock::Timestamp;
use spoolman::datastore::{DataStore, StoreMeta};
use spoolman::material::MaterialType;
use spoolman::models::{Filament, Quantity, Rgba, Spool};
use spoolman::requests::{
    CreateFilament, CreateLocation, CreateSpool, UpdateFilament, UpdateLocation, UpdateSpool,
};
use spoolman::store::{JsonStore, SpoolFilter, StoreError};

fn q(x: f32) -> Quantity {
    Quantity { bits: x.to_bits() }
}

fn value(x: Quantity) -> f32 {
    f32::from_bits(x.bits)
}

fn empty_store() -> JsonStore {
    let (store, changed) = JsonStore::load("data.json".to_string(), None);
    assert!(!changed);
    store
}

fn filament_request(density: f32) -> CreateFilament {
    CreateFilament {
        manufacturer: None,
        material: None,
        material_modifier: None,
        diameter: q(1.75),
        net_weight: None,
        density: q(density),
        print_temp: None,
        bed_temp: None,
        spool_weight: None,
        min_print_temp: None,
        max_print_temp: None,
        min_bed_temp: None,
        max_bed_temp: None,
        comment: None,
    }
}

fn spool_request(filament_id: u32, initial_weight: f32) -> CreateSpool {
    CreateSpool {
        filament_id,
        colors: vec![],
        color_name: None,
        location_id: None,
        initial_weight: q(initial_weight),
        net_weight: None,
        price: None,
        first_used: None,
        last_used: None,
        comment: None,
    }
}

fn all_spools() -> SpoolFilter<'static> {
    SpoolFilter {
        filament_id: None,
        location_id: None,
        allow_archived: false,
        sort: None,
        order: None,
        offset: 0,
        limit: None,
    }
}

fn status_of(e: StoreError) -> u16 {
    ApiError::from(e).status_code()
}

fn legacy_filament(id: u32, net_weight: Option<f32>) -> Filament {
    Filament {
        id,
        manufacturer: Some("Prusament".to_string()),
        material: Some(MaterialType::Pla),
        material_modifier: None,
        diameter: q(1.75),
        net_weight: net_weight.map(q),
        density: q(1.24),
        print_temp: Some(215),
        bed_temp: Some(60),
        spool_weight: None,
        min_print_temp: None,
        max_print_temp: None,
        min_bed_temp: None,
        max_bed_temp: None,
        registered: Timestamp { secs: 1_700_000_000, nanos: 0 },
        comment: None,
    }
}

fn stored_spool(id: u32, filament_id: u32, net_weight: Option<f32>, secs: i64) -> Spool {
    Spool {
        id,
        filament_id,
        location_id: None,
        colors: vec![Rgba { r: 1, g: 2, b: 3, a: 255 }],
        color_name: None,
        initial_weight: q(1000.0),
        current_weight: q(900.0),
        net_weight: net_weight.map(q),
        price: None,
        registered: Timestamp { secs, nanos: 0 },
        first_used: None,
        last_used: None,
        comment: None,
        archived: false,
    }
}

// ── Filaments ─────────────────────────────────────────────────────────────────

#[test]
fn create_filament_returns_201() {
    let mut store = empty_store();
    let f = store.create_filament(filament_request(1.24)).unwrap();
    assert!(f.id > 0);
    assert!((value(f.density) - 1.24).abs() < 0.01);
    assert_eq!(f.net_weight, None);
}

#[test]
fn get_filament_returns_200() {
    let mut store = empty_store();
    let created = store.create_filament(filament_request(1.24)).unwrap();
    let got = store.get_filament(created.id).unwrap();
    assert_eq!(got.id, created.id);
}

#[test]
fn get_unknown_filament_returns_404() {
    let store = empty_store();
    let err = store.get_filament(999999).unwrap_err();
    assert!(matches!(err, StoreError::NotFound));
    assert_eq!(status_of(err), 404);
}

#[test]
fn list_filaments_returns_all() {
    let mut store = empty_store();
    store.create_filament(filament_request(1.24)).unwrap();
    store.create_filament(filament_request(1.27)).unwrap();
    let (items, total) = store.list_filaments(None, None, None, 0, None).unwrap();
    assert_eq!(items.len(), 2);
    assert_eq!(total, 2);
}

#[test]
fn list_filaments_filters_sorts_and_pages() {
    let mut store = empty_store();
    let mut a = filament_request(1.24);
    a.material = Some(MaterialType::Pla);
    a.manufacturer = Some("Beta".to_string());
    let mut b = filament_request(1.27);
    b.material = Some(MaterialType::Petg);
    b.manufacturer = Some("Alpha".to_string());
    let mut c = filament_request(1.25);
    c.material = Some(MaterialType::Pla);
    c.manufacturer = Some("Alpha".to_string());
    let fa = store.create_filament(a).unwrap();
    store.create_filament(b).unwrap();
    let fc = store.create_filament(c).unwrap();

    let (pla, total) = store
        .list_filaments(Some("PLA"), Some("manufacturer"), Some("asc"), 0, None)
        .unwrap();
    assert_eq!(total, 2);
    assert_eq!(pla.iter().map(|f| f.id).collect::<Vec<_>>(), vec![fc.id, fa.id]);

    let (page, total) = store
        .list_filaments(None, Some("manufacturer"), Some("desc"), 1, Some(1))
        .unwrap();
    assert_eq!(total, 3);
    assert_eq!(page.len(), 1);
    assert_eq!(page[0].manufacturer.as_deref(), Some("Alpha"));
}

#[test]
fn update_filament_returns_200() {
    let mut store = empty_store();
    let created = store.create_filament(filament_request(1.24)).unwrap();
    let req = UpdateFilament { manufacturer: Some("Bambu Lab".to_string()), ..Default::default() };
    let updated = store.update_filament(created.id, req).unwrap();
    assert_eq!(updated.manufacturer.as_deref(), Some("Bambu Lab"));
    assert_eq!(updated.density, created.density);
    assert_eq!(store.get_filament(created.id).unwrap().manufacturer.as_deref(), Some("Bambu Lab"));
}

#[test]
fn update_unknown_filament_is_not_found() {
    let mut store = empty_store();
    let err = store.update_filament(42, UpdateFilament::default()).unwrap_err();
    assert!(matches!(err, StoreError::NotFound));
}

#[test]
fn delete_filament_returns_204_and_subsequent_get_404() {
    let mut store = empty_store();
    let created = store.create_filament(filament_request(1.24)).unwrap();
    store.delete_filament(created.id).unwrap();
    assert!(matches!(store.get_filament(created.id), Err(StoreError::NotFound)));
    assert!(matches!(store.delete_filament(created.id), Err(StoreError::NotFound)));
}

#[test]
fn delete_filament_blocked_by_spool_returns_409() {
    let mut store = empty_store();
    let f = store.create_filament(filament_request(1.24)).unwrap();
    let s = store.create_spool(spool_request(f.id, 1000.0)).unwrap();
    let err = store.delete_filament(f.id).unwrap_err();
    match &err {
        StoreError::Conflict(m) => {
            assert_eq!(m, &format!("filament is referenced by spools: [{}]", s.spool.id))
        }
        other => panic!("unexpected {other:?}"),
    }
    assert_eq!(status_of(err), 409);
    assert!(store.get_filament(f.id).is_ok());
}

#[test]
fn created_filaments_get_distinct_ids() {
    let mut store = empty_store();
    let mut ids = Vec::new();
    for _ in 0..20 {
        ids.push(store.create_filament(filament_request(1.24)).unwrap().id);
    }
    let mut sorted = ids.clone();
    sorted.sort();
    sorted.dedup();
    assert_eq!(sorted.len(), ids.len());
    assert!(ids.iter().all(|&id| id >= 1));
}

// ── Spools ────────────────────────────────────────────────────────────────────

#[test]
fn create_spool_returns_201_with_nested_filament() {
    let mut store = empty_store();
    let f = store.create_filament(filament_request(1.24)).unwrap();
    let resp = store.create_spool(spool_request(f.id, 1000.0)).unwrap();
    assert!(resp.spool.id > 0);
    assert_eq!(resp.spool.filament_id, f.id);
    assert_eq!(resp.filament.id, f.id);
    assert_eq!(resp.spool.current_weight, resp.spool.initial_weight);
    assert!(!resp.spool.archived);
}

#[test]
fn create_spool_with_unknown_filament_returns_404() {
    let mut store = empty_store();
    let err = store.create_spool(spool_request(999999, 1000.0)).unwrap_err();
    assert_eq!(status_of(err), 404);
}

#[test]
fn create_spool_with_unknown_location_is_refused() {
    let mut store = empty_store();
    let f = store.create_filament(filament_request(1.24)).unwrap();
    let mut req = spool_request(f.id, 1000.0);
    req.location_id = Some(7);
    match store.create_spool(req).unwrap_err() {
        StoreError::Validation(m) => assert_eq!(m, "location_id does not exist"),
        other => panic!("unexpected {other:?}"),
    }
}

#[test]
fn create_spool_with_five_colors_is_refused() {
    let mut store = empty_store();
    let f = store.create_filament(filament_request(1.24)).unwrap();
    let mut req = spool_request(f.id, 1000.0);
    req.colors = vec![Rgba { r: 0, g: 0, b: 0, a: 255 }; 5];
    let err = store.create_spool(req).unwrap_err();
    match &err {
        StoreError::Validation(m) => assert_eq!(m, "a spool may have at most 4 colors"),
        other => panic!("unexpected {other:?}"),
    }
    assert_eq!(status_of(err), 422);
    let mut four = spool_request(f.id, 1000.0);
    four.colors = vec![Rgba { r: 0, g: 0, b: 0, a: 255 }; 4];
    assert!(store.create_spool(four).is_ok());
}

#[test]
fn get_spool_returns_200() {
    let mut store = empty_store();
    let f = store.create_filament(filament_request(1.24)).unwrap();
    let created = store.create_spool(spool_request(f.id, 1000.0)).unwrap();
    let got = store.get_spool(created.spool.id).unwrap();
    assert_eq!(got.spool.id, created.spool.id);
}

#[test]
fn get_unknown_spool_returns_404() {
    let store = empty_store();
    assert!(matches!(store.get_spool(999999), Err(StoreError::NotFound)));
}

#[test]
fn list_spools_returns_all() {
    let mut store = empty_store();
    let f = store.create_filament(filament_request(1.24)).unwrap();
    store.create_spool(spool_request(f.id, 1000.0)).unwrap();
    store.create_spool(spool_request(f.id, 1000.0)).unwrap();
    let (items, total) = store.list_spools(all_spools()).unwrap();
    assert_eq!(items.len(), 2);
    assert_eq!(total, 2);
}

#[test]
fn list_spools_hides_archived_unless_asked() {
    let mut store = empty_store();
    let f = store.create_filament(filament_request(1.24)).unwrap();
    let a = store.create_spool(spool_request(f.id, 1000.0)).unwrap();
    store.create_spool(spool_request(f.id, 1000.0)).unwrap();
    let req = UpdateSpool { archived: Some(true), ..Default::default() };
    store.update_spool(a.spool.id, req).unwrap();
    assert_eq!(store.list_spools(all_spools()).unwrap().1, 1);
    let with_archived = SpoolFilter { allow_archived: true, ..all_spools() };
    assert_eq!(store.list_spools(with_archived).unwrap().1, 2);
}

#[test]
fn list_spools_filters_by_filament_and_location() {
    let mut store = empty_store();
    let f1 = store.create_filament(filament_request(1.24)).unwrap();
    let f2 = store.create_filament(filament_request(1.27)).unwrap();
    let loc = store.create_location(CreateLocation { name: "Shelf".to_string() }).unwrap();
    let mut at_shelf = spool_request(f1.id, 1000.0);
    at_shelf.location_id = Some(loc.location.id);
    let s1 = store.create_spool(at_shelf).unwrap();
    store.create_spool(spool_request(f1.id, 1000.0)).unwrap();
    store.create_spool(spool_request(f2.id, 1000.0)).unwrap();

    let by_filament = SpoolFilter { filament_id: Some(f1.id), ..all_spools() };
    assert_eq!(store.list_spools(by_filament).unwrap().1, 2);
    let by_location = SpoolFilter { location_id: Some(loc.location.id), ..all_spools() };
    let (items, total) = store.list_spools(by_location).unwrap();
    assert_eq!(total, 1);
    assert_eq!(items[0].spool.id, s1.spool.id);
}

#[test]
fn list_spools_sorts_by_registered_descending_by_default() {
    let mut data = DataStore::default();
    data.filaments.push(legacy_filament(1, None));
    data.spools.push(stored_spool(10, 1, None, 100));
    data.spools.push(stored_spool(11, 1, None, 300));
    data.spools.push(stored_spool(12, 1, None, 200));
    let (store, _) = JsonStore::load("data.json".to_string(), Some(data));
    let (items, _) = store.list_spools(all_spools()).unwrap();
    assert_eq!(items.iter().map(|s| s.spool.id).collect::<Vec<_>>(), vec![11, 12, 10]);
    let asc = SpoolFilter { order: Some("asc"), ..all_spools() };
    let (items, _) = store.list_spools(asc).unwrap();
    assert_eq!(items.iter().map(|s| s.spool.id).collect::<Vec<_>>(), vec![10, 12, 11]);
    let page = SpoolFilter { offset: 1, limit: Some(1), ..all_spools() };
    let (items, total) = store.list_spools(page).unwrap();
    assert_eq!(total, 3);
    assert_eq!(items.iter().map(|s| s.spool.id).collect::<Vec<_>>(), vec![12]);
}

#[test]
fn update_spool_weight_sets_last_used() {
    let mut store = empty_store();
    let f = store.create_filament(filament_request(1.24)).unwrap();
    let created = store.create_spool(spool_request(f.id, 1000.0)).unwrap();
    assert_eq!(created.spool.last_used, None);
    let req = UpdateSpool { current_weight: Some(q(800.0)), ..Default::default() };
    let updated = store.update_spool(created.spool.id, req).unwrap();
    assert!((value(updated.spool.current_weight) - 800.0).abs() < 0.01);
    assert!(updated.spool.last_used.is_some());
}

#[test]
fn update_spool_keeps_given_last_used() {
    let mut store = empty_store();
    let f = store.create_filament(filament_request(1.24)).unwrap();
    let created = store.create_spool(spool_request(f.id, 1000.0)).unwrap();
    let when = Timestamp { secs: 1_600_000_000, nanos: 5 };
    let req = UpdateSpool {
        current_weight: Some(q(700.0)),
        last_used: Some(when),
        ..Default::default()
    };
    let updated = store.update_spool(created.spool.id, req).unwrap();
    assert_eq!(updated.spool.last_used, Some(when));
}

#[test]
fn update_spool_empty_comment_clears_it() {
    let mut store = empty_store();
    let f = store.create_filament(filament_request(1.24)).unwrap();
    let mut req = spool_request(f.id, 1000.0);
    req.comment = Some("half used".to_string());
    req.color_name = Some("Galaxy Black".to_string());
    let created = store.create_spool(req).unwrap();
    let upd = UpdateSpool { comment: Some(String::new()), ..Default::default() };
    let updated = store.update_spool(created.spool.id, upd).unwrap();
    assert_eq!(updated.spool.comment, None);
    assert_eq!(updated.spool.color_name.as_deref(), Some("Galaxy Black"));
    assert_eq!(updated.spool.last_used, None);
}

#[test]
fn update_spool_refuses_unknown_location_without_change() {
    let mut store = empty_store();
    let f = store.create_filament(filament_request(1.24)).unwrap();
    let created = store.create_spool(spool_request(f.id, 1000.0)).unwrap();
    let req = UpdateSpool {
        location_id: Some(5),
        current_weight: Some(q(1.0)),
        ..Default::default()
    };
    assert!(matches!(store.update_spool(created.spool.id, req), Err(StoreError::Validation(_))));
    let after = store.get_spool(created.spool.id).unwrap();
    assert_eq!(after.spool.current_weight, q(1000.0));
}

#[test]
fn clone_spool_returns_201_with_different_id() {
    let mut store = empty_store();
    let f = store.create_filament(filament_request(1.24)).unwrap();
    let mut req = spool_request(f.id, 1000.0);
    req.colors = vec![Rgba { r: 10, g: 20, b: 30, a: 255 }];
    let created = store.create_spool(req).unwrap();
    let cloned = store.clone_spool(created.spool.id).unwrap();
    assert_ne!(cloned.spool.id, created.spool.id);
    assert_eq!(cloned.spool.filament_id, f.id);
    assert_eq!(cloned.spool.colors, created.spool.colors);
    assert_eq!(store.list_spools(all_spools()).unwrap().1, 2);
}

#[test]
fn clone_unknown_spool_is_not_found() {
    let mut store = empty_store();
    assert!(matches!(store.clone_spool(3), Err(StoreError::NotFound)));
}

#[test]
fn create_spool_with_zero_net_weight_filament_returns_201() {
    let mut store = empty_store();
    let mut req = filament_request(1.24);
    req.net_weight = Some(q(0.0));
    let f = store.create_filament(req).unwrap();
    assert_eq!(f.net_weight, None);
    let resp = store.create_spool(spool_request(f.id, 1000.0)).unwrap();
    assert_eq!(resp.spool.net_weight, None);
}

#[test]
fn spool_price_returns_price_per_gram() {
    let mut store = empty_store();
    let f = store.create_filament(filament_request(1.24)).unwrap();
    let mut priced = spool_request(f.id, 1200.0);
    priced.net_weight = Some(q(1000.0));
    priced.price = Some(q(20.0));
    let resp = store.create_spool(priced).unwrap();
    let price = value(resp.spool.price.unwrap());
    let net = value(resp.spool.net_weight.unwrap());
    assert!((price / net - 0.02).abs() < 0.0001);

    let mut unpriced = spool_request(f.id, 1200.0);
    unpriced.net_weight = Some(q(1000.0));
    let resp2 = store.create_spool(unpriced).unwrap();
    assert_eq!(resp2.spool.price, None);
}

#[test]
fn delete_spool_returns_204_and_subsequent_get_404() {
    let mut store = empty_store();
    let f = store.create_filament(filament_request(1.24)).unwrap();
    let created = store.create_spool(spool_request(f.id, 1000.0)).unwrap();
    store.delete_spool(created.spool.id).unwrap();
    assert!(matches!(store.get_spool(created.spool.id), Err(StoreError::NotFound)));
    assert!(matches!(store.delete_spool(created.spool.id), Err(StoreError::NotFound)));
    // With the spool gone, the filament can go too.
    store.delete_filament(f.id).unwrap();
}

// ── Locations ─────────────────────────────────────────────────────────────────

#[test]
fn create_location_returns_201() {
    let mut store = empty_store();
    let resp = store.create_location(CreateLocation { name: "Shelf A".to_string() }).unwrap();
    assert!(resp.location.id > 0);
    assert_eq!(resp.location.name, "Shelf A");
    assert_eq!(resp.spool_count, 0);
}

#[test]
fn create_location_with_blank_name_is_refused() {
    let mut store = empty_store();
    let err = store.create_location(CreateLocation { name: "  \t".to_string() }).unwrap_err();
    assert_eq!(status_of(err), 422);
    assert_eq!(store.list_locations().unwrap().len(), 0);
}

#[test]
fn get_location_returns_200_with_spool_count() {
    let mut store = empty_store();
    let created = store.create_location(CreateLocation { name: "Shelf B".to_string() }).unwrap();
    let f = store.create_filament(filament_request(1.24)).unwrap();
    let mut req = spool_request(f.id, 1000.0);
    req.location_id = Some(created.location.id);
    store.create_spool(req).unwrap();
    let got = store.get_location(created.location.id).unwrap();
    assert_eq!(got.location.id, created.location.id);
    assert_eq!(got.spool_count, 1);
}

#[test]
fn get_unknown_location_returns_404() {
    let store = empty_store();
    assert!(matches!(store.get_location(999999), Err(StoreError::NotFound)));
}

#[test]
fn list_locations_returns_created() {
    let mut store = empty_store();
    store.create_location(CreateLocation { name: "Drawer 1".to_string() }).unwrap();
    let items = store.list_locations().unwrap();
    assert_eq!(items.len(), 1);
    assert_eq!(items[0].location.name, "Drawer 1");
}

#[test]
fn list_locations_sorted_by_name() {
    let mut store = empty_store();
    for name in ["Shelf", "Attic", "Drawer"] {
        store.create_location(CreateLocation { name: name.to_string() }).unwrap();
    }
    let names: Vec<String> =
        store.list_locations().unwrap().into_iter().map(|l| l.location.name).collect();
    assert_eq!(names, vec!["Attic", "Drawer", "Shelf"]);
}

#[test]
fn update_location_name_returns_200() {
    let mut store = empty_store();
    let created = store.create_location(CreateLocation { name: "Old Name".to_string() }).unwrap();
    let updated = store
        .update_location(created.location.id, UpdateLocation { name: "New Name".to_string() })
        .unwrap();
    assert_eq!(updated.location.name, "New Name");
    assert_eq!(store.get_location(created.location.id).unwrap().location.name, "New Name");
}

#[test]
fn delete_location_returns_204() {
    let mut store = empty_store();
    let created = store.create_location(CreateLocation { name: "Temp".to_string() }).unwrap();
    store.delete_location(created.location.id).unwrap();
    assert!(matches!(store.get_location(created.location.id), Err(StoreError::NotFound)));
}

#[test]
fn delete_location_blocked_by_spool_returns_409() {
    let mut store = empty_store();
    let f = store.create_filament(filament_request(1.24)).unwrap();
    let loc = store.create_location(CreateLocation { name: "In Use".to_string() }).unwrap();
    let mut req = spool_request(f.id, 1000.0);
    req.location_id = Some(loc.location.id);
    let s = store.create_spool(req).unwrap();
    let err = store.delete_location(loc.location.id).unwrap_err();
    match &err {
        StoreError::Conflict(m) => {
            assert_eq!(m, &format!("location is referenced by spools: [{}]", s.spool.id))
        }
        other => panic!("unexpected {other:?}"),
    }
    assert_eq!(status_of(err), 409);
}

// ── Settings, materials, whole-store operations ──────────────────────────────

#[test]
fn put_and_get_setting() {
    let mut store = empty_store();
    store.put_setting("theme".to_string(), "dark".to_string()).unwrap();
    let settings = store.get_settings();
    let theme: Vec<&(String, String)> = settings.iter().filter(|(k, _)| k == "theme").collect();
    assert_eq!(theme.last().unwrap().1, "dark");
}

#[test]
fn put_setting_overwrites() {
    let mut store = empty_store();
    store.put_setting("currency_symbol".to_string(), "EUR".to_string()).unwrap();
    store.put_setting("theme".to_string(), "dark".to_string()).unwrap();
    store.put_setting("currency_symbol".to_string(), "$".to_string()).unwrap();
    let settings = store.get_settings();
    let cur: Vec<&String> =
        settings.iter().filter(|(k, _)| k == "currency_symbol").map(|(_, v)| v).collect();
    assert_eq!(cur, vec!["$"]);
}

#[test]
fn find_materials_distinct_and_sorted() {
    let mut store = empty_store();
    for m in [MaterialType::Petg, MaterialType::Pla, MaterialType::Petg] {
        let mut req = filament_request(1.24);
        req.material = Some(m);
        store.create_filament(req).unwrap();
    }
    store.create_filament(filament_request(1.24)).unwrap();
    assert_eq!(store.find_materials(), vec!["PETG".to_string(), "PLA".to_string()]);
    assert!(store.find_lot_numbers().is_empty());
}

#[test]
fn download_returns_current_store() {
    let mut store = empty_store();
    store.create_location(CreateLocation { name: "Shelf".to_string() }).unwrap();
    let full = store.get_full_store();
    assert_eq!(full.locations.len(), 1);
    assert_eq!(full.meta.schema_version, 2);
}

#[test]
fn upload_replaces_store() {
    let mut store = empty_store();
    store.create_location(CreateLocation { name: "Shelf".to_string() }).unwrap();
    let mut replacement = store.get_full_store();
    replacement.settings.push(("currency_symbol".to_string(), "$".to_string()));
    store.import(replacement).unwrap();
    let settings = store.get_settings();
    assert!(settings.iter().any(|(k, v)| k == "currency_symbol" && v == "$"));
    assert_eq!(store.list_locations().unwrap().len(), 1);
}

#[test]
fn upload_of_newer_schema_is_refused() {
    let mut store = empty_store();
    store.put_setting("currency_symbol".to_string(), "EUR".to_string()).unwrap();
    let mut newer = DataStore::default();
    newer.meta = StoreMeta { schema_version: 3 };
    match store.import(newer).unwrap_err() {
        StoreError::Validation(m) => {
            assert_eq!(m, "unsupported schema_version 3 (server supports up to 2)")
        }
        other => panic!("unexpected {other:?}"),
    }
    assert_eq!(store.get_settings(), vec![("currency_symbol".to_string(), "EUR".to_string())]);
}

#[test]
fn load_migrates_v1_net_weight_to_spools() {
    let mut data = DataStore::default();
    data.meta = StoreMeta { schema_version: 1 };
    data.filaments.push(legacy_filament(1, Some(750.0)));
    data.spools.push(stored_spool(10, 1, None, 100));
    data.spools.push(stored_spool(11, 1, Some(500.0), 200));
    let (store, changed) = JsonStore::load("data.json".to_string(), Some(data));
    assert!(changed);
    let full = store.get_full_store();
    assert_eq!(full.meta.schema_version, 2);
    assert_eq!(full.filaments[0].net_weight, None);
    assert_eq!(full.spools[0].net_weight, Some(q(750.0)));
    assert_eq!(full.spools[1].net_weight, Some(q(500.0)));
}

#[test]
fn migration_is_idempotent() {
    let mut data = DataStore::default();
    data.meta = StoreMeta { schema_version: 1 };
    data.filaments.push(legacy_filament(1, Some(750.0)));
    data.spools.push(stored_spool(10, 1, None, 100));
    assert!(JsonStore::migrate(&mut data));
    let first = data.clone();
    assert!(!JsonStore::migrate(&mut data));
    assert_eq!(data.spools[0].net_weight, first.spools[0].net_weight);
    assert_eq!(data.meta, first.meta);
}

#[test]
fn create_location_with_seeded_data_returns_201() {
    let mut data = DataStore::default();
    data.filaments.push(legacy_filament(1001, None));
    data.spools.push(stored_spool(2001, 1001, Some(1000.0), 100));
    let (mut store, _) = JsonStore::load("data.json".to_string(), Some(data));
    assert!(store.create_location(CreateLocation { name: "New Shelf".to_string() }).is_ok());
}

#[test]
fn create_filament_with_seeded_data_returns_201() {
    let mut data = DataStore::default();
    data.filaments.push(legacy_filament(1001, None));
    let (mut store, _) = JsonStore::load("data.json".to_string(), Some(data));
    let f = store.create_filament(filament_request(1.24)).unwrap();
    assert_ne!(f.id, 1001);
}

#[test]
fn create_spool_with_seeded_data_returns_201() {
    let mut data = DataStore::default();
    data.filaments.push(legacy_filament(1001, None));
    let (mut store, _) = JsonStore::load("data.json".to_string(), Some(data));
    let resp = store.create_spool(spool_request(1001, 1000.0)).unwrap();
    assert_eq!(resp.filament.id, 1001);
}

#[test]
fn reload_and_config_flags() {
    let (store, _) = JsonStore::load("/tmp/spools.json".to_string(), None);
    assert!(store.automatic_backup());
    assert!(!store.debug_mode());
    let mut store = store.with_config(false, true);
    assert!(!store.automatic_backup());
    assert!(store.debug_mode());
    assert_eq!(store.data_file_path(), "/tmp/spools.json");
    assert_eq!(store.get_data_file_path(), "/tmp/spools.json");
    let mut data = DataStore::default();
    data.locations.push(spoolman::models::Location { id: 5, name: "Box".to_string() });
    assert!(!store.reload(Some(data)));
    assert_eq!(store.get_location(5).unwrap().location.name, "Box");
    assert!(!store.reload(None));
    assert!(store.list_locations().unwrap().is_empty());
}

#[test]
fn import_of_export_changes_nothing() {
    let mut store = empty_store();
    let f = store.create_filament(filament_request(1.24)).unwrap();
    store.create_spool(spool_request(f.id, 1000.0)).unwrap();
    store.put_setting("theme".to_string(), "dark".to_string()).unwrap();
    let before = store.get_full_store();
    store.import(store.get_full_store()).unwrap();
    let after = store.get_full_store();
    assert_eq!(after.meta, before.meta);
    assert_eq!(after.filaments.len(), 1);
    assert_eq!(after.spools[0].id, before.spools[0].id);
    assert_eq!(after.settings, before.settings);
}

#[test]
fn load_without_file_is_empty() {
    let (store, changed) = JsonStore::load("none.json".to_string(), None);
    assert!(!changed);
    let full = store.get_full_store();
    assert_eq!(full.meta.schema_version, 2);
    assert!(full.filaments.is_empty() && full.spools.is_empty() && full.locations.is_empty());
    assert!(full.settings.is_empty());
    assert!(store.automatic_backup() && !store.debug_mode());
}
