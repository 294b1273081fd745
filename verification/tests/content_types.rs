use fdk::coercions::ContentType;

#[test]
fn reads_the_canonical_names() {
    assert_eq!(ContentType::from_str("application/json"), ContentType::JSON);
    assert_eq!(ContentType::from_str("text/yaml"), ContentType::YAML);
    assert_eq!(ContentType::from_str("application/xml"), ContentType::XML);
    assert_eq!(ContentType::from_str("text/plain"), ContentType::Plain);
    assert_eq!(
        ContentType::from_str("application/x-www-form-urlencoded"),
        ContentType::URLEncoded
    );
}

#[test]
fn reads_the_second_names_of_yaml_and_xml() {
    assert_eq!(ContentType::from_str("application/yaml"), ContentType::YAML);
    assert_eq!(ContentType::from_str("text/xml"), ContentType::XML);
}

#[test]
fn unknown_names_mean_json() {
    assert_eq!(ContentType::from_str(""), ContentType::JSON);
    assert_eq!(ContentType::from_str("image/png"), ContentType::JSON);
    assert_eq!(ContentType::from_str("Application/JSON"), ContentType::JSON);
    assert_eq!(ContentType::from_str("text/plain; charset=utf-8"), ContentType::JSON);
    assert_eq!(ContentType::from_str("text/yam"), ContentType::JSON);
}

#[test]
fn writes_the_canonical_names() {
    assert_eq!(ContentType::JSON.as_header_value(), "application/json");
    assert_eq!(ContentType::YAML.as_header_value(), "text/yaml");
    assert_eq!(ContentType::XML.as_header_value(), "application/xml");
    assert_eq!(ContentType::Plain.as_header_value(), "text/plain");
    assert_eq!(
        ContentType::URLEncoded.as_header_value(),
        "application/x-www-form-urlencoded"
    );
}

#[test]
fn canonical_names_read_back() {
    let all = vec![
        ContentType::JSON,
        ContentType::YAML,
        ContentType::XML,
        ContentType::Plain,
        ContentType::URLEncoded,
    ];
    for t in all {
        assert_eq!(ContentType::from_str(&t.as_header_value()), t);
    }
}
