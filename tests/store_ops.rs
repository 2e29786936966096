use relf::{
    add_inside, add_outside, delete_inside, delete_outside, get_insides, get_outsides,
    reset_to_defaults, save_insides, save_outsides, update_inside, update_outside, ExportInside,
    ExportOutside, Inside, LocalStore, Outside, StorageData, StoreError,
};

fn outside(uuid: &str, name: &str, percentage: i32) -> Outside {
    Outside {
        uuid: uuid.to_string(),
        name: name.to_string(),
        context: format!("about {}", name),
        url: format!("https://example.org/{}", name),
        percentage,
    }
}

fn inside(uuid: &str, date: &str, context: &str) -> Inside {
    Inside { uuid: uuid.to_string(), date: date.to_string(), context: context.to_string() }
}

fn export_outside(name: &str, percentage: i32) -> ExportOutside {
    ExportOutside {
        name: name.to_string(),
        context: "c".to_string(),
        url: "u".to_string(),
        percentage,
    }
}

#[test]
fn first_read_stores_defaults() {
    let mut store = LocalStore::new();
    let outsides = get_outsides(&mut store);
    assert_eq!(outsides.len(), 1);
    assert_eq!(outsides[0].name, "Rust Programming Language");
    assert_eq!(outsides[0].url, "https://www.rust-lang.org/");
    assert_eq!(outsides[0].percentage, 90);
    assert_eq!(outsides[0].uuid.len(), 36);
    assert!(store.outside.is_some());
    assert!(store.inside.is_none());
    let insides = get_insides(&mut store);
    assert_eq!(insides.len(), 1);
    assert_eq!(insides[0].date, "2024-01-01 10:00:00");
    assert!(insides[0].context.starts_with("Finally learned how to use cargo!"));
}

#[test]
fn second_read_returns_same_defaults() {
    let mut store = LocalStore::new();
    let first = get_outsides(&mut store);
    let second = get_outsides(&mut store);
    assert_eq!(first.len(), second.len());
    assert_eq!(first[0].uuid, second[0].uuid);
    assert_eq!(first[0].name, second[0].name);
    let first_in = get_insides(&mut store);
    let second_in = get_insides(&mut store);
    assert_eq!(first_in[0].uuid, second_in[0].uuid);
    assert_eq!(first_in[0].date, second_in[0].date);
}

#[test]
fn default_data_has_fresh_ids() {
    let a = StorageData::default();
    let b = StorageData::default();
    assert_eq!(a.outside.len(), 1);
    assert_eq!(a.inside.len(), 1);
    assert_ne!(a.outside[0].uuid, b.outside[0].uuid);
    assert_ne!(a.inside[0].uuid, b.inside[0].uuid);
}

#[test]
fn stored_collection_is_read_verbatim() {
    let mut store = LocalStore { outside: Some(vec![outside("b", "low", 10), outside("a", "high", 70)]), inside: None };
    let outsides = get_outsides(&mut store);
    assert_eq!(outsides.len(), 2);
    assert_eq!(outsides[0].uuid, "b");
    assert_eq!(outsides[1].uuid, "a");
}

#[test]
fn add_appends_with_distinct_ids() {
    let mut store = LocalStore { outside: Some(vec![]), inside: Some(vec![]) };
    for k in 0..20 {
        assert_eq!(add_outside(&mut store, export_outside(&format!("n{}", k), k)), Ok(()));
    }
    let outsides = get_outsides(&mut store);
    assert_eq!(outsides.len(), 20);
    assert_eq!(outsides[19].name, "n19");
    assert_eq!(outsides[19].percentage, 19);
    for i in 0..outsides.len() {
        assert_eq!(outsides[i].uuid.len(), 36);
        for j in (i + 1)..outsides.len() {
            assert_ne!(outsides[i].uuid, outsides[j].uuid);
        }
    }
}

#[test]
fn add_to_empty_store_keeps_defaults_first() {
    let mut store = LocalStore::new();
    let entry = ExportInside { date: "2025-02-03 04:05:06".to_string(), context: "note".to_string() };
    assert_eq!(add_inside(&mut store, entry), Ok(()));
    let insides = get_insides(&mut store);
    assert_eq!(insides.len(), 2);
    assert_eq!(insides[0].date, "2024-01-01 10:00:00");
    assert_eq!(insides[1].context, "note");
    assert_eq!(insides[1].date, "2025-02-03 04:05:06");
    assert_ne!(insides[0].uuid, insides[1].uuid);
    assert!(store.outside.is_none());
}

#[test]
fn update_inside_keeps_date() {
    let mut store = LocalStore { outside: None, inside: Some(vec![inside("i1", "2023-05-06 07:08:09", "before")]) };
    let changed = ExportInside { date: "whatever".to_string(), context: "x".to_string() };
    assert_eq!(update_inside(&mut store, "i1", changed), Ok(()));
    let insides = get_insides(&mut store);
    assert_eq!(insides.len(), 1);
    assert_eq!(insides[0].uuid, "i1");
    assert_eq!(insides[0].context, "x");
    assert_eq!(insides[0].date, "2023-05-06 07:08:09");
}

#[test]
fn update_outside_replaces_fields_and_keeps_id() {
    let mut store = LocalStore { outside: Some(vec![outside("a", "one", 10), outside("b", "two", 20)]), inside: None };
    assert_eq!(update_outside(&mut store, "b", export_outside("renamed", 99)), Ok(()));
    let outsides = get_outsides(&mut store);
    assert_eq!(outsides.len(), 2);
    assert_eq!(outsides[0].name, "one");
    assert_eq!(outsides[1].uuid, "b");
    assert_eq!(outsides[1].name, "renamed");
    assert_eq!(outsides[1].context, "c");
    assert_eq!(outsides[1].url, "u");
    assert_eq!(outsides[1].percentage, 99);
}

#[test]
fn update_missing_id_is_not_found() {
    let mut store = LocalStore { outside: Some(vec![outside("a", "one", 10)]), inside: Some(vec![inside("i", "d", "c")]) };
    assert_eq!(update_outside(&mut store, "zzz", export_outside("x", 1)), Err(StoreError::NotFound));
    let changed = ExportInside { date: "d".to_string(), context: "new".to_string() };
    assert_eq!(update_inside(&mut store, "zzz", changed), Err(StoreError::NotFound));
    let outsides = get_outsides(&mut store);
    assert_eq!(outsides.len(), 1);
    assert_eq!(outsides[0].name, "one");
    let insides = get_insides(&mut store);
    assert_eq!(insides[0].context, "c");
}

#[test]
fn delete_absent_id_keeps_collection() {
    let mut store = LocalStore { outside: Some(vec![outside("a", "one", 10), outside("b", "two", 20)]), inside: Some(vec![inside("i", "d", "c")]) };
    assert_eq!(delete_outside(&mut store, "missing"), Ok(()));
    assert_eq!(delete_inside(&mut store, "missing"), Ok(()));
    assert_eq!(get_outsides(&mut store).len(), 2);
    assert_eq!(get_insides(&mut store).len(), 1);
}

#[test]
fn delete_removes_every_match() {
    let mut store = LocalStore { outside: Some(vec![outside("a", "one", 10), outside("b", "two", 20), outside("a", "three", 30)]), inside: Some(vec![inside("i", "d", "c"), inside("j", "e", "f")]) };
    assert_eq!(delete_outside(&mut store, "a"), Ok(()));
    let outsides = get_outsides(&mut store);
    assert_eq!(outsides.len(), 1);
    assert_eq!(outsides[0].uuid, "b");
    assert_eq!(delete_inside(&mut store, "i"), Ok(()));
    let insides = get_insides(&mut store);
    assert_eq!(insides.len(), 1);
    assert_eq!(insides[0].uuid, "j");
}

#[test]
fn save_replaces_whole_collection() {
    let mut store = LocalStore::new();
    assert_eq!(save_outsides(&mut store, &vec![outside("x", "only", 5)]), Ok(()));
    assert_eq!(save_insides(&mut store, &vec![]), Ok(()));
    assert_eq!(get_outsides(&mut store).len(), 1);
    assert_eq!(get_insides(&mut store).len(), 0);
}

#[test]
fn reset_writes_samples_over_both() {
    let mut store = LocalStore { outside: Some(vec![outside("a", "one", 10), outside("b", "two", 20)]), inside: Some(vec![]) };
    assert_eq!(reset_to_defaults(&mut store), Ok(()));
    let outsides = get_outsides(&mut store);
    assert_eq!(outsides.len(), 1);
    assert_eq!(outsides[0].name, "Rust Programming Language");
    assert_ne!(outsides[0].uuid, "a");
    let insides = get_insides(&mut store);
    assert_eq!(insides.len(), 1);
    assert_eq!(insides[0].date, "2024-01-01 10:00:00");
}

#[test]
fn update_on_empty_store_stores_defaults_and_fails() {
    let mut store = LocalStore::new();
    assert_eq!(update_outside(&mut store, "nope", export_outside("x", 1)), Err(StoreError::NotFound));
    let outsides = store.outside.as_ref().unwrap();
    assert_eq!(outsides.len(), 1);
    assert_eq!(outsides[0].name, "Rust Programming Language");
    assert!(store.inside.is_none());
}

#[test]
fn update_of_default_record_by_its_id() {
    let mut store = LocalStore::new();
    let id = get_insides(&mut store)[0].uuid.clone();
    let changed = ExportInside { date: "1999-01-01 00:00:00".to_string(), context: "edited".to_string() };
    assert_eq!(update_inside(&mut store, &id, changed), Ok(()));
    let insides = get_insides(&mut store);
    assert_eq!(insides[0].context, "edited");
    assert_eq!(insides[0].date, "2024-01-01 10:00:00");
}

#[test]
fn delete_on_empty_store_keeps_defaults() {
    let mut store = LocalStore::new();
    assert_eq!(delete_inside(&mut store, "nope"), Ok(()));
    assert_eq!(store.inside.as_ref().unwrap().len(), 1);
    assert!(store.outside.is_none());
}

#[test]
fn update_changes_only_first_match() {
    let mut store = LocalStore { outside: Some(vec![outside("a", "one", 10), outside("a", "two", 20)]), inside: None };
    assert_eq!(update_outside(&mut store, "a", export_outside("new", 1)), Ok(()));
    let outsides = get_outsides(&mut store);
    assert_eq!(outsides[0].name, "new");
    assert_eq!(outsides[1].name, "two");
}
