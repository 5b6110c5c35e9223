use entity_tag::EntityTag;
use entity_tag::EntityTagError;
use entity_tag::ModifiedTime;

#[test]
fn body_and_prefix_formatting() {
    let body = "a!~\u{80}caf\u{e9}";
    let strong = EntityTag::with_str(false, body).unwrap();
    assert_eq!(format!("\"{}\"", body), strong.to_wire_string());
    let weak = EntityTag::with_str(true, body).unwrap();
    assert_eq!(format!("W/\"{}\"", body), weak.to_wire_string());
}

#[test]
fn wire_round_trip() {
    let wires = vec!["\"foobar\"", "\"\"", "W/\"\"", "W/\"weak-etag\"", "\"x!#~+/\""];
    for wire in wires {
        let etag = EntityTag::from_str(wire).unwrap();
        assert_eq!(wire, etag.to_wire_string());
    }
}

#[test]
fn wire_parse_scenarios() {
    let strong = EntityTag::from_str("\"foobar\"").unwrap();
    assert!(!strong.weak);
    assert_eq!("foobar", strong.get_tag());
    assert_eq!("\"foobar\"", strong.to_wire_string());
    let weak = EntityTag::from_str("W/\"weak-etag\"").unwrap();
    assert!(weak.weak);
    assert_eq!("weak-etag", weak.get_tag());
    assert_eq!("W/\"weak-etag\"", weak.to_wire_string());
}

#[test]
fn tolerant_construction_idempotent() {
    let etag1 = EntityTag::with_str(true, "body-77").unwrap();
    let etag2 = EntityTag::with_str(true, "\"body-77\"").unwrap();
    assert_eq!(etag1, etag2);
    let etag3 = EntityTag::with_string(false, String::from("body-77")).unwrap();
    let etag4 = EntityTag::with_string(false, String::from("\"body-77\"")).unwrap();
    assert_eq!(etag3, etag4);
}

#[test]
fn strong_equality_implies_weak_equality() {
    let a = EntityTag::from_data(&vec![9, 9, 9]);
    let b = EntityTag::from_data(&vec![9, 9, 9]);
    assert!(a.strong_eq(&b));
    assert!(a.weak_eq(&b));
}

#[test]
fn comparison_reflexive_and_symmetric() {
    let strong = EntityTag::with_str(false, "same").unwrap();
    let weak = EntityTag::with_str(true, "same").unwrap();
    assert!(strong.weak_eq(&strong));
    assert!(strong.strong_eq(&strong));
    assert!(weak.weak_eq(&weak));
    assert!(!weak.strong_eq(&weak));
    assert_eq!(strong.weak_eq(&weak), weak.weak_eq(&strong));
    assert_eq!(strong.strong_eq(&weak), weak.strong_eq(&strong));
}

#[test]
fn from_data_deterministic() {
    let a = EntityTag::from_data(&vec![102, 111, 111]);
    let b = EntityTag::from_data(&vec![102, 111, 111]);
    assert_eq!(a, b);
    assert!(a.strong_eq(&b));
    assert_eq!("\"j4VF2Hjg0No\"", a.to_wire_string());
    let empty1 = EntityTag::from_data(&vec![]);
    let empty2 = EntityTag::from_data(&vec![]);
    assert_eq!(empty1, empty2);
}

#[test]
fn from_file_meta_always_weak() {
    let since = EntityTag::from_file_meta(7, Some(ModifiedTime::SinceEpoch(123_456_789)));
    assert!(since.weak);
    let before = EntityTag::from_file_meta(7, Some(ModifiedTime::BeforeEpoch(55)));
    assert!(before.weak);
    let unknown = EntityTag::from_file_meta(7, None);
    assert!(unknown.weak);
    assert!(since.weak_ne(&before));
    let again = EntityTag::from_file_meta(7, Some(ModifiedTime::SinceEpoch(123_456_789)));
    assert_eq!(since, again);
}

#[test]
fn generated_tags_are_encoded_hashes() {
    let etag = EntityTag::from_data(&vec![1, 2, 3, 4]);
    assert_eq!(11, etag.get_tag().len());
    assert!(etag.get_tag().bytes().all(|b| b.is_ascii_alphanumeric() || b == b'+' || b == b'/'));
    let meta = EntityTag::from_file_meta(0, None);
    assert_eq!(11, meta.get_tag().len());
    assert_ne!(etag.get_tag(), meta.get_tag());
}

#[test]
fn constructor_failures() {
    assert_eq!(Err(EntityTagError::InvalidTag), EntityTag::with_str(false, "ta\tg"));
    assert_eq!(Err(EntityTagError::InvalidTag), EntityTag::with_str(false, "\"\u{7f}\""));
    assert_eq!(
        Err(EntityTagError::MissingClosingDoubleQuote),
        EntityTag::with_str(true, "\"unclosed")
    );
    assert_eq!(
        Err(EntityTagError::MissingClosingDoubleQuote),
        EntityTag::with_string(true, String::from("\""))
    );
    assert_eq!(Err(EntityTagError::MissingStartingDoubleQuote), EntityTag::from_str("W/"));
    assert_eq!(Err(EntityTagError::MissingClosingDoubleQuote), EntityTag::from_str("\""));
    assert_eq!(Err(EntityTagError::InvalidTag), EntityTag::from_str("\"em\"bedded\""));
    assert_eq!(
        Err(EntityTagError::MissingStartingDoubleQuote),
        EntityTag::from_string(String::from("W/no-quote"))
    );
}

#[test]
fn tag_accessors() {
    let etag = EntityTag::from_str("W/\"payload\"").unwrap();
    assert_eq!("payload", etag.get_tag());
    assert_eq!("payload", etag.get_tag_cow().as_str());
    assert_eq!(String::from("payload"), etag.into_tag());
}

#[test]
fn unchecked_constructors() {
    let a = EntityTag::new_unchecked(false, String::from("abc"));
    assert_eq!("abc", a.get_tag());
    assert!(!a.weak);
    let b = EntityTag::with_string_unchecked(true, String::from("abc"));
    let c = EntityTag::with_str_unchecked(true, "abc");
    assert_eq!(b, c);
    assert!(a.weak_eq(&b));
    assert!(a.strong_ne(&b));
}

#[test]
fn error_messages() {
    assert_eq!(
        "the opaque tag misses the starting double quote",
        EntityTagError::MissingStartingDoubleQuote.message()
    );
    assert_eq!(
        "the opaque tag misses the closing double quote",
        EntityTagError::MissingClosingDoubleQuote.message()
    );
    assert_eq!("invalid tag", EntityTagError::InvalidTag.message());
}
