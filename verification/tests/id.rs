use hframe::id::Id;

#[test]
fn id_it_works() {
    let id = Id::from("hello");
    assert_eq!(id, Id::from("hello"));
    assert_ne!(id, Id::from("world"));

    let id = Id::from(42);
    assert_eq!(id, Id::from(42));
    assert_ne!(id, Id::from(43));
}

#[test]
fn id_root_is_fixed() {
    assert_eq!(Id::root(), Id::from(42));
}

#[test]
fn id_from_str_matches_fnv1a() {
    // FNV-1a 64-bit reference values
    assert_eq!(Id::from("").0, 0xcbf2_9ce4_8422_2325);
    assert_eq!(Id::from("a").0, 0xaf63_dc4c_8601_ec8c);
}
