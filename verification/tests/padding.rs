use echo_server::padding::random_string;

#[test]
fn random_string_fills_up_to_the_target() {
    assert_eq!(random_string(10, 3).len(), 7);
    assert_eq!(random_string(146, 146).len(), 0);
    assert_eq!(random_string(147, 146).len(), 1);
    assert_eq!(random_string(4096, 39).len(), 4057);
    assert_eq!(random_string(25, 0).len(), 25);
}

#[test]
fn random_string_is_empty_below_the_overhead() {
    assert_eq!(random_string(3, 10), "");
    assert_eq!(random_string(0, 1), "");
    assert_eq!(random_string(0, 0), "");
    assert_eq!(random_string(145, 146), "");
    assert_eq!(random_string(0, usize::MAX), "");
}

#[test]
fn random_string_is_alphanumeric() {
    let data = random_string(5000, 0);
    assert_eq!(data.chars().count(), 5000);
    assert!(data.chars().all(|c| c.is_ascii_alphanumeric()));
}

#[test]
fn random_strings_differ() {
    assert_ne!(random_string(64, 0), random_string(64, 0));
}
