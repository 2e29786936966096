use relf::{
    append_data, append_from_json, append_inside_from_json, append_outside_from_json,
    export_data, export_to_json, get_insides, get_outsides, import_data, import_from_json,
    import_inside_from_json, import_outside_from_json, sort_insides, sort_outsides, text_less,
    ExportData, ExportInside, ExportOutside, Inside, LocalStore, Outside, StoreError,
};

fn outside(uuid: &str, name: &str, percentage: i32) -> Outside {
    Outside {
        uuid: uuid.to_string(),
        name: name.to_string(),
        context: format!("about {}", name),
        url: format!("https://example.org/{}", name),
        percentage,
    }
}

fn inside(uuid: &str, date: &str, context: &str) -> Inside {
    Inside { uuid: uuid.to_string(), date: date.to_string(), context: context.to_string() }
}

fn sample_store() -> LocalStore {
    LocalStore {
        outside: Some(vec![outside("o1", "mid", 50), outside("o2", "top", 90), outside("o3", "low", 10), outside("o4", "mid2", 50)]),
        inside: Some(vec![inside("i1", "2024-01-02 00:00:00", "second"), inside("i2", "2024-03-01 12:00:00", "latest"), inside("i3", "2023-12-31 23:59:59", "first")]),
    }
}

fn is_parse_error(r: &Result<(), StoreError>) -> bool {
    matches!(r, Err(StoreError::Parse(_)))
}

#[test]
fn export_scenario_then_import_outside_only() {
    let mut store = LocalStore { outside: Some(vec![Outside { uuid: "a".to_string(), name: "n".to_string(), context: "c".to_string(), url: "u".to_string(), percentage: 50 }]), inside: Some(vec![]) };
    let text = export_to_json(&mut store);
    assert!(!text.contains("uuid"));
    assert!(text.contains("\"percentage\": 50"));
    assert!(text.contains("\"name\": \"n\""));
    assert!(text.contains("\"inside\": []"));
    let value: serde_json::Value = serde_json::from_str(&text).unwrap();
    assert_eq!(value["outside"].as_array().unwrap().len(), 1);
    assert_eq!(value["outside"][0]["percentage"].as_i64(), Some(50));
    assert_eq!(value["inside"].as_array().unwrap().len(), 0);

    let r = import_outside_from_json(&mut store, r#"{"outside":[{"name":"X","context":"c","url":"u","percentage":80}]}"#);
    assert_eq!(r, Ok(()));
    let outsides = get_outsides(&mut store);
    assert_eq!(outsides.len(), 1);
    assert_eq!(outsides[0].name, "X");
    assert_eq!(outsides[0].percentage, 80);
    assert_ne!(outsides[0].uuid, "a");
    assert_eq!(outsides[0].uuid.len(), 36);
    assert_eq!(store.inside.as_ref().unwrap().len(), 0);
}

#[test]
fn export_orders_by_percentage_and_date() {
    let mut store = sample_store();
    let data = export_data(&mut store);
    let names: Vec<&str> = data.outside.iter().map(|o| o.name.as_str()).collect();
    assert_eq!(names, vec!["top", "mid", "mid2", "low"]);
    let contexts: Vec<&str> = data.inside.iter().map(|i| i.context.as_str()).collect();
    assert_eq!(contexts, vec!["latest", "second", "first"]);
    // the store itself keeps its order
    assert_eq!(store.outside.as_ref().unwrap()[0].uuid, "o1");
}

#[test]
fn export_text_keeps_field_order() {
    let mut store = LocalStore { outside: Some(vec![outside("a", "n", 7)]), inside: Some(vec![inside("b", "2024-05-05 05:05:05", "ctx")]) };
    let text = export_to_json(&mut store);
    let o = text.find("\"outside\"").unwrap();
    let i = text.find("\"inside\"").unwrap();
    assert!(o < i);
    let name = text.find("\"name\"").unwrap();
    let url = text.find("\"url\"").unwrap();
    let pct = text.find("\"percentage\"").unwrap();
    assert!(name < url && url < pct);
    let date = text.find("\"date\"").unwrap();
    let ctx = text.rfind("\"context\"").unwrap();
    assert!(date < ctx);
    assert!(text.contains('\n'));
}

#[test]
fn export_of_empty_store_uses_defaults() {
    let mut store = LocalStore::new();
    let text = export_to_json(&mut store);
    assert!(text.contains("Rust Programming Language"));
    assert!(text.contains("2024-01-01 10:00:00"));
    assert!(store.outside.is_some() && store.inside.is_some());
}

#[test]
fn round_trip_keeps_content() {
    let mut store = sample_store();
    let first = export_data(&mut store);
    let text = export_to_json(&mut store);
    assert_eq!(import_from_json(&mut store, &text), Ok(()));
    let outsides = get_outsides(&mut store);
    let insides = get_insides(&mut store);
    assert_eq!(outsides.len(), 4);
    assert_eq!(insides.len(), 3);
    for (k, o) in outsides.iter().enumerate() {
        assert_eq!(o.name, first.outside[k].name);
        assert_eq!(o.context, first.outside[k].context);
        assert_eq!(o.url, first.outside[k].url);
        assert_eq!(o.percentage, first.outside[k].percentage);
        assert!(!o.uuid.starts_with('o'));
    }
    for (k, i) in insides.iter().enumerate() {
        assert_eq!(i.date, first.inside[k].date);
        assert_eq!(i.context, first.inside[k].context);
    }
    let second_text = export_to_json(&mut store);
    assert_eq!(second_text, text);
    assert_eq!(import_from_json(&mut store, &second_text), Ok(()));
    assert_eq!(export_to_json(&mut store), text);
}

#[test]
fn import_data_replaces_and_reidentifies() {
    let mut store = sample_store();
    let data = ExportData {
        outside: vec![ExportOutside { name: "p".to_string(), context: "q".to_string(), url: "r".to_string(), percentage: -3 }],
        inside: vec![],
    };
    assert_eq!(import_data(&mut store, &data), Ok(()));
    let outsides = get_outsides(&mut store);
    assert_eq!(outsides.len(), 1);
    assert_eq!(outsides[0].percentage, -3);
    assert_eq!(get_insides(&mut store).len(), 0);
}

#[test]
fn import_is_destructive() {
    let mut store = sample_store();
    let doc = r#"{"outside":[{"name":"a","context":"b","url":"c","percentage":1},{"name":"d","context":"e","url":"f","percentage":2}],"inside":[{"date":"2020-01-01 00:00:00","context":"z"}]}"#;
    assert_eq!(import_from_json(&mut store, doc), Ok(()));
    let outsides = get_outsides(&mut store);
    assert_eq!(outsides.len(), 2);
    assert_eq!(outsides[0].name, "a");
    assert_eq!(outsides[1].name, "d");
    let insides = get_insides(&mut store);
    assert_eq!(insides.len(), 1);
    assert_eq!(insides[0].context, "z");
}

#[test]
fn append_is_additive() {
    let mut store = sample_store();
    let doc = r#"{"outside":[{"name":"a","context":"b","url":"c","percentage":1}],"inside":[{"date":"2020-01-01 00:00:00","context":"z"},{"date":"2021-01-01 00:00:00","context":"y"}]}"#;
    assert_eq!(append_from_json(&mut store, doc), Ok(()));
    let outsides = get_outsides(&mut store);
    assert_eq!(outsides.len(), 5);
    assert_eq!(outsides[0].uuid, "o1");
    assert_eq!(outsides[3].uuid, "o4");
    assert_eq!(outsides[4].name, "a");
    let insides = get_insides(&mut store);
    assert_eq!(insides.len(), 5);
    assert_eq!(insides[2].uuid, "i3");
    assert_eq!(insides[3].context, "z");
    assert_eq!(insides[4].context, "y");
}

#[test]
fn append_twice_duplicates_with_new_ids() {
    let mut store = LocalStore { outside: Some(vec![]), inside: Some(vec![]) };
    let data = ExportData { outside: vec![ExportOutside { name: "n".to_string(), context: "c".to_string(), url: "u".to_string(), percentage: 5 }], inside: vec![] };
    assert_eq!(append_data(&mut store, &data), Ok(()));
    assert_eq!(append_data(&mut store, &data), Ok(()));
    let outsides = get_outsides(&mut store);
    assert_eq!(outsides.len(), 2);
    assert_ne!(outsides[0].uuid, outsides[1].uuid);
}

#[test]
fn scoped_append_and_import_leave_other_collection() {
    let mut store = sample_store();
    assert_eq!(append_outside_from_json(&mut store, r#"{"outside":[{"name":"a","context":"b","url":"c","percentage":1}]}"#), Ok(()));
    assert_eq!(get_outsides(&mut store).len(), 5);
    assert_eq!(append_inside_from_json(&mut store, r#"{"inside":[{"date":"x","context":"y"}]}"#), Ok(()));
    assert_eq!(get_insides(&mut store).len(), 4);
    assert_eq!(import_inside_from_json(&mut store, r#"{"inside":[]}"#), Ok(()));
    assert_eq!(get_insides(&mut store).len(), 0);
    assert_eq!(get_outsides(&mut store).len(), 5);
}

#[test]
fn malformed_import_is_parse_error() {
    let mut store = sample_store();
    let r = import_from_json(&mut store, "{not json");
    assert!(is_parse_error(&r));
    assert_eq!(get_outsides(&mut store).len(), 4);
    assert_eq!(get_insides(&mut store).len(), 3);
    assert_eq!(store.outside.as_ref().unwrap()[0].uuid, "o1");
}

#[test]
fn malformed_text_leaves_empty_store_empty() {
    let mut store = LocalStore::new();
    assert!(is_parse_error(&append_from_json(&mut store, "[")));
    assert!(is_parse_error(&import_outside_from_json(&mut store, "")));
    assert!(store.outside.is_none() && store.inside.is_none());
}

#[test]
fn missing_member_is_parse_error() {
    let mut store = sample_store();
    assert!(is_parse_error(&import_from_json(&mut store, r#"{"outside":[]}"#)));
    assert!(is_parse_error(&append_from_json(&mut store, r#"{"inside":[]}"#)));
    assert!(is_parse_error(&import_inside_from_json(&mut store, r#"{"outside":[]}"#)));
    assert!(is_parse_error(&import_from_json(&mut store, r#"[[],[]]"#)));
    assert_eq!(get_outsides(&mut store).len(), 4);
}

#[test]
fn mistyped_fields_are_parse_errors() {
    let mut store = sample_store();
    let cases = [
        r#"{"outside":{},"inside":[]}"#,
        r#"{"outside":[{"name":1,"context":"b","url":"c","percentage":1}],"inside":[]}"#,
        r#"{"outside":[{"name":"a","context":"b","url":"c","percentage":"1"}],"inside":[]}"#,
        r#"{"outside":[{"name":"a","context":"b","url":"c","percentage":1.5}],"inside":[]}"#,
        r#"{"outside":[{"name":"a","context":"b","url":"c","percentage":3000000000}],"inside":[]}"#,
        r#"{"outside":[{"name":"a","context":"b","url":"c"}],"inside":[]}"#,
        r#"{"outside":[],"inside":[{"date":null,"context":"b"}]}"#,
    ];
    for case in cases.iter() {
        assert!(is_parse_error(&import_from_json(&mut store, case)), "{}", case);
    }
    assert_eq!(get_outsides(&mut store).len(), 4);
}

#[test]
fn extra_members_are_ignored() {
    let mut store = sample_store();
    let doc = r#"{"version":3,"outside":[{"id":"zz","name":"a","context":"b","url":"c","percentage":-2147483648,"extra":true}],"inside":[]}"#;
    assert_eq!(import_from_json(&mut store, doc), Ok(()));
    let outsides = get_outsides(&mut store);
    assert_eq!(outsides.len(), 1);
    assert_eq!(outsides[0].percentage, i32::MIN);
    assert_ne!(outsides[0].uuid, "zz");
}

#[test]
fn sorts_are_stable_and_descending() {
    let v = vec![
        ExportOutside { name: "a".to_string(), context: String::new(), url: String::new(), percentage: 5 },
        ExportOutside { name: "b".to_string(), context: String::new(), url: String::new(), percentage: 9 },
        ExportOutside { name: "c".to_string(), context: String::new(), url: String::new(), percentage: 5 },
        ExportOutside { name: "d".to_string(), context: String::new(), url: String::new(), percentage: -1 },
    ];
    let sorted: Vec<String> = sort_outsides(&v).into_iter().map(|o| o.name).collect();
    assert_eq!(sorted, vec!["b", "a", "c", "d"]);
    let w = vec![
        ExportInside { date: "2024-01-01".to_string(), context: "x".to_string() },
        ExportInside { date: "2024-01-01 10".to_string(), context: "y".to_string() },
        ExportInside { date: "2024-01-01".to_string(), context: "z".to_string() },
    ];
    let sorted_in: Vec<String> = sort_insides(&w).into_iter().map(|i| i.context).collect();
    assert_eq!(sorted_in, vec!["y", "x", "z"]);
}

#[test]
fn text_order_is_by_code_point() {
    assert!(text_less("2023-12-31", "2024-01-01"));
    assert!(!text_less("2024-01-01", "2023-12-31"));
    assert!(text_less("abc", "abcd"));
    assert!(!text_less("abc", "abc"));
    assert!(text_less("", "a"));
    assert!(text_less("Z", "a"));
    assert!(text_less("a", "é"));
}

#[test]
fn appended_and_reset_records_get_generated_ids() {
    let mut store = LocalStore { outside: Some(vec![outside("a", "kept", 1)]), inside: Some(vec![]) };
    let doc = r#"{"outside":[{"name":"n","context":"c","url":"u","percentage":2}],"inside":[{"date":"d","context":"c"}]}"#;
    assert_eq!(append_from_json(&mut store, doc), Ok(()));
    let outsides = get_outsides(&mut store);
    assert_eq!(outsides[0].uuid, "a");
    assert_eq!(outsides[1].uuid.len(), 36);
    assert_eq!(get_insides(&mut store)[0].uuid.len(), 36);
    assert_eq!(relf::reset_to_defaults(&mut store), Ok(()));
    assert_eq!(get_outsides(&mut store)[0].uuid.len(), 36);
    assert_eq!(get_insides(&mut store)[0].uuid.len(), 36);
}
