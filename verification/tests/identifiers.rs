use echo_server::id::{generate_id, IdGenerator, RequestId, ID_LENGTH, ID_SPACE};

fn is_identifier(text: &str) -> bool {
    text.len() == ID_LENGTH && text.chars().all(|c| c.is_ascii_alphanumeric())
}

#[test]
fn generated_id_has_four_alphanumeric_symbols() {
    let generator = IdGenerator::random();
    for _ in 0..1000 {
        let id = generate_id(&generator);
        assert!(is_identifier(id.as_str()), "{:?}", id.as_str());
    }
}

#[test]
fn consecutive_generated_ids_differ() {
    let generator = IdGenerator::random();
    let mut last = generate_id(&generator).as_str().to_string();
    for _ in 0..10_000 {
        let next = generate_id(&generator).as_str().to_string();
        assert_ne!(last, next);
        last = next;
    }
}

#[test]
fn id_for_follows_the_scheme_of_the_seed() {
    let generator = IdGenerator::new(1234);
    assert_eq!(generator.id_for(0).as_str(), "In4R");
    assert_eq!(generator.id_for(440).as_str(), "4A7N");
    assert_eq!(generator.id_for(441).as_str(), "tSp9");
    assert_eq!(generator.id_for(442).as_str(), "6z6y");
    assert_eq!(generator.id_for(443).as_str(), "ft0M");
}

#[test]
fn id_for_depends_on_the_seed() {
    let one = IdGenerator::new(1234);
    let same = IdGenerator::new(1234);
    let other = IdGenerator::new(9876);
    assert_eq!(one.id_for(77).as_str(), same.id_for(77).as_str());
    assert_ne!(one.id_for(0).as_str(), other.id_for(0).as_str());
}

#[test]
fn id_for_takes_the_value_modulo_the_id_space() {
    let generator = IdGenerator::new(1234);
    assert_eq!(ID_SPACE, 62 * 62 * 62 * 62);
    assert_eq!(generator.id_for(ID_SPACE).as_str(), "In4R");
    assert_eq!(generator.id_for(ID_SPACE + 440).as_str(), "4A7N");
    assert_eq!(
        generator.id_for(123_456_789).as_str(),
        generator.id_for(123_456_789 % ID_SPACE).as_str()
    );
    for value in [ID_SPACE - 1, ID_SPACE, 123_456_789, 1_234_567_890, u64::MAX] {
        assert!(is_identifier(generator.id_for(value).as_str()));
    }
}

#[test]
fn id_for_gives_distinct_values_distinct_ids() {
    let generator = IdGenerator::new(118);
    let mut seen = std::collections::HashSet::new();
    for value in 0..5000u64 {
        assert!(seen.insert(generator.id_for(value).as_str().to_string()));
    }
}

#[test]
fn from_text_takes_only_identifier_shapes() {
    assert_eq!(RequestId::from_text("aB3z".to_string()).map(|id| id.as_str().to_string()), Some("aB3z".to_string()));
    assert!(RequestId::from_text("0000".to_string()).is_some());
    assert!(RequestId::from_text("".to_string()).is_none());
    assert!(RequestId::from_text("aB3".to_string()).is_none());
    assert!(RequestId::from_text("aB3zz".to_string()).is_none());
    assert!(RequestId::from_text("aB-z".to_string()).is_none());
    assert!(RequestId::from_text("aB z".to_string()).is_none());
    assert!(RequestId::from_text("a\u{e9}3z".to_string()).is_none());
    assert!(RequestId::from_text("\u{e9}\u{e9}".to_string()).is_none());
}
