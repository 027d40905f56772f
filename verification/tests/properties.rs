use archivindex::properties::ExtraProperties;

#[test]
fn validation_reports_the_first_reserved_property_present() {
    let mut map = serde_json::Map::new();
    map.insert("second".to_owned(), true.into());
    map.insert("first".to_owned(), false.into());
    let properties = ExtraProperties(map);

    let error = properties
        .validate("test model", &["absent", "first", "second"])
        .unwrap_err();

    assert_eq!(error.model, "test model");
    assert_eq!(error.property, "first");
    assert_eq!(
        error.to_string(),
        "extension property `first` duplicates a modeled property of test model"
    );
    assert_eq!(properties.validate("test model", &["absent"]), Ok(()));
}

#[test]
fn map_conversion_preserves_values_and_insertion_order() {
    let mut map = serde_json::Map::new();
    map.insert("first".to_owned(), 1.into());
    map.insert("second".to_owned(), serde_json::Value::String("two".to_owned()));

    let properties = ExtraProperties(map.clone());
    assert_eq!(properties.0.keys().collect::<Vec<_>>(), ["first", "second"]);
    assert_eq!(properties.0, map);
}

#[test]
fn an_empty_map_reserves_nothing() {
    let properties = ExtraProperties(serde_json::Map::new());

    assert_eq!(properties.validate("model", &["url", "timestamp"]), Ok(()));
    assert_eq!(properties.validate("model", &[]), Ok(()));
}
