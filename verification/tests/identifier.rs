use lethe::{Identifier, IdentifierError};

const SAMPLE: &str = "67e55044-10b1-426f-9247-bb680e5fe0c8";

#[test]
fn identifier_text_round_trips() {
    let id = Identifier::from_str(SAMPLE).unwrap();
    assert_eq!(id.to_string(), SAMPLE);
    let again = Identifier::from_str(&id.to_string()).unwrap();
    assert_eq!(again.to_string(), id.to_string());
}

fn random_bits() -> u128 {
    uuid::Uuid::new_v4().as_u128()
}

#[test]
fn fresh_identifiers_round_trip_and_differ() {
    let a = Identifier::new(random_bits());
    let b = Identifier::new(random_bits());
    let parsed = Identifier::from_str(&a.to_string()).unwrap();
    assert_eq!(parsed.to_string(), a.to_string());
    assert_ne!(a.to_string(), b.to_string());
}

#[test]
fn fresh_identifiers_are_random_uuids() {
    let samples = [0u128, u128::MAX, 0x0123_4567_89ab_cdef_0123_4567_89ab_cdef, random_bits()];
    for bits in samples {
        let text = Identifier::new(bits).to_string();
        let chars: Vec<char> = text.chars().collect();
        assert_eq!(chars.len(), 36);
        assert_eq!(chars[8], '-');
        assert_eq!(chars[13], '-');
        assert_eq!(chars[18], '-');
        assert_eq!(chars[23], '-');
        assert_eq!(chars[14], '4');
        assert!(matches!(chars[19], '8' | '9' | 'a' | 'b'));
    }
}

#[test]
fn identifier_text_is_lower_case() {
    let id = Identifier::from_str("67E55044-10B1-426F-9247-BB680E5FE0C8").unwrap();
    assert_eq!(id.to_string(), SAMPLE);
    let simple = Identifier::from_str("67e5504410b1426f9247bb680e5fe0c8").unwrap();
    assert_eq!(simple.to_string(), SAMPLE);
}

#[test]
fn identifier_rejects_invalid_strings() {
    for text in ["", "not a uuid", "67e55044-10b1-426f-9247-bb680e5fe0c", "67e55044x10b1-426f-9247-bb680e5fe0c8"] {
        match Identifier::from_str(text) {
            Err(IdentifierError::UuidParseError { from, .. }) => assert_eq!(from, text),
            Ok(_) => panic!("accepted {text:?}"),
        }
    }
}

#[test]
fn default_identifier_is_nil() {
    assert_eq!(Identifier::default().to_string(), "00000000-0000-0000-0000-000000000000");
}

#[test]
fn random_bits_keep_all_but_the_marks() {
    assert_eq!(Identifier::new(0).to_string(), "00000000-0000-4000-8000-000000000000");
    assert_eq!(Identifier::new(u128::MAX).to_string(), "ffffffff-ffff-4fff-bfff-ffffffffffff");
    assert_eq!(
        Identifier::new(0x0123_4567_89ab_cdef_0123_4567_89ab_cdef).to_string(),
        "01234567-89ab-4def-8123-456789abcdef"
    );
}
