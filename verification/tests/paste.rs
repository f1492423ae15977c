use starlight::paste::PasteId;

#[test]
fn new_ids_have_the_size_asked() {
    for size in [0usize, 1, 8, 32] {
        let id = PasteId::new(size);
        assert_eq!(id.as_str().chars().count(), size);
        assert!(id.as_str().chars().all(|c| c.is_ascii_alphanumeric()));
        assert!(PasteId::from_param(id.as_str()).is_ok());
    }
}

#[test]
fn ids_from_draws_use_base62() {
    let id = PasteId::from_draws(&[0, 9, 10, 35, 36, 61, 62, 125]);
    assert_eq!(id.as_str(), "09AZaz01");
}

#[test]
fn params_must_be_letters_and_digits() {
    assert_eq!(PasteId::from_param("abc123").unwrap().as_str(), "abc123");
    assert_eq!(PasteId::from_param("abc-123").unwrap_err(), "abc-123");
    assert_eq!(PasteId::from_param("../etc").unwrap_err(), "../etc");
    assert_eq!(PasteId::from_param("").unwrap().as_str(), "");
}

#[test]
fn server_greets_by_name() {
    assert_eq!(starlight::paste::hello("world"), "Hello, world!");
    assert_eq!(PasteId::new(starlight::paste::ID_LENGTH).as_str().len(), 3);
}
