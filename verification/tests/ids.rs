use merix::ids::parse_uuid_or_nil;

#[test]
fn hyphenated_text_parses_back() {
    for _ in 0..16 {
        let id = uuid::Uuid::new_v4();
        assert_eq!(parse_uuid_or_nil(&id.to_string()), id.as_u128());
    }
}

#[test]
fn other_uuid_forms_parse() {
    let expected = uuid::Uuid::parse_str("67e55044-10b1-426f-9247-bb680e5fe0c8").unwrap().as_u128();
    assert_eq!(parse_uuid_or_nil("67e5504410b1426f9247bb680e5fe0c8"), expected);
    assert_eq!(parse_uuid_or_nil("{67e55044-10b1-426f-9247-bb680e5fe0c8}"), expected);
    assert_eq!(parse_uuid_or_nil("67e55044-10b1-426f-9247-bb680e5fe0c"), 0);
}
