use starlight::lang::error::{LanguageError, LanguageErrorType};
use starlight::lang::{language_key, LangMap, Language, LanguageEntry};
use starlight::star_error::StarError;

/// The language tables that the `test` directory of language files holds: one
/// file, `en_us.json`, with a message without parameters and one with a
/// parameter.
fn test_map() -> LangMap {
    let mut lang = Language::new();
    lang.insert("ping".to_string(), LanguageEntry::from_parts("Ping...".to_string(), vec![]));
    lang.insert(
        "pong".to_string(),
        LanguageEntry::from_parts(
            "Pong! Took [ms] milliseconds".to_string(),
            vec!["ms".to_string()],
        ),
    );
    let mut map = LangMap::new();
    map.insert(language_key("en_us.json").expect("a json file"), lang);
    map
}

#[test]
fn kind() {
    let err = LanguageError::new(LanguageErrorType::Io, None);
    assert_eq!(err.kind(), LanguageErrorType::Io);
}

#[test]
fn new() {
    let test_map = LangMap::new();
    assert_eq!(test_map.len(), 0);
    let test_lang = Language::new();
    assert_eq!(test_lang.len(), 0);
}

#[test]
fn map_get() {
    let map = test_map();
    let lang = map.get("en_us");
    assert!(lang.is_some());
    let not_a_lang = map.get("not a language");
    assert!(not_a_lang.is_none());
}

#[test]
fn lang_get() {
    let map = test_map();
    let lang = map.get("en_us").expect("something went wrong");
    let ping = lang.get("ping");
    assert!(ping.is_some());
    let nothing = lang.get("nothing");
    assert!(nothing.is_none());
}

#[test]
fn lang_entry_run() {
    let map = test_map();
    let lang = map.get("en_us").expect("something went wrong");
    let ping = lang.get("ping").expect("something else went wrong");
    assert_eq!(ping.run().unwrap(), "Ping...");
}

#[test]
fn lang_entry_run_params() {
    let map = test_map();
    let lang = map.get("en_us").expect("something went wrong");
    let pong = lang.get("pong").expect("something else went wrong");
    assert_eq!(pong.run_params(&["10"]).unwrap(), "Pong! Took 10 milliseconds");
}

#[test]
fn wrong_number_of_params_is_refused() {
    let map = test_map();
    let lang = map.get("en_us").unwrap();
    let pong = lang.get("pong").unwrap();
    let err = pong.run().unwrap_err();
    assert_eq!(err.kind(), LanguageErrorType::InvalidParams { expected: 1, found: 0 });
    assert_eq!(
        err.to_string(),
        "invalid number of params were provided, expected 1 found 0"
    );
    let err = lang.get("ping").unwrap().run_params(&["x"]).unwrap_err();
    assert_eq!(err.kind(), LanguageErrorType::InvalidParams { expected: 0, found: 1 });
}

#[test]
fn error_messages_and_parts() {
    assert_eq!(LanguageError::new(LanguageErrorType::Io, None).to_string(), "an IO error occured");
    assert_eq!(
        LanguageError::new(LanguageErrorType::Deser, None).to_string(),
        "a deserialization error occured"
    );
    assert_eq!(
        LanguageError::new(LanguageErrorType::DirectoryFound, None).to_string(),
        "an invalid file type was found"
    );
    let err = LanguageError::new(LanguageErrorType::Io, Some("disk".to_string()));
    let (kind, source) = err.into_parts();
    assert_eq!(kind, LanguageErrorType::Io);
    assert_eq!(source.as_deref(), Some("disk"));
    let err: LanguageError = (2usize, 3usize).into();
    assert_eq!(err.kind(), LanguageErrorType::InvalidParams { expected: 2, found: 3 });
    assert_eq!(err.into_source(), None);
}

#[test]
fn language_keys_of_files() {
    assert_eq!(language_key("en_us.json"), Some("en_us".to_string()));
    assert_eq!(language_key("notes.txt"), None);
    assert_eq!(language_key("README"), None);
}

#[test]
fn read_after_write() {
    let mut lang = Language::new();
    lang.insert("a".to_string(), LanguageEntry::from_parts("one".to_string(), vec![]));
    lang.insert("a".to_string(), LanguageEntry::from_parts("two".to_string(), vec![]));
    assert_eq!(lang.len(), 1);
    assert_eq!(lang.get("a").unwrap().run().unwrap(), "two");
    assert!(lang.get("b").is_none());
}

#[test]
fn params_fill_in_order() {
    let entry = LanguageEntry::from_parts(
        "[a] then [b] then [a]".to_string(),
        vec!["a".to_string(), "b".to_string()],
    );
    assert_eq!(entry.run_params(&["1", "2"]).unwrap(), "1 then 2 then 1");
    assert_eq!(LanguageEntry::new().run().unwrap(), "");
}

#[test]
fn text_without_placeholders_is_kept() {
    let entry = LanguageEntry::from_parts(
        "no brackets here".to_string(),
        vec!["x".to_string(), "y".to_string()],
    );
    assert_eq!(entry.run_params(&["1", "2"]).unwrap(), "no brackets here");
}
