use skylinedb::text::{prefixed_message, u64_to_string, usize_to_string};

#[test]
fn decimal_rendering_matches_the_usual_form() {
    assert_eq!(u64_to_string(0), String::from("0"));
    assert_eq!(u64_to_string(7), String::from("7"));
    assert_eq!(u64_to_string(10), String::from("10"));
    assert_eq!(u64_to_string(1234567890), String::from("1234567890"));
    assert_eq!(u64_to_string(u64::MAX), String::from("18446744073709551615"));
    assert_eq!(usize_to_string(999), String::from("999"));
}

#[test]
fn prefixed_messages_concatenate() {
    assert_eq!(
        prefixed_message("Failed to checkpoint WAL: ", "disk I/O error"),
        String::from("Failed to checkpoint WAL: disk I/O error")
    );
    assert_eq!(prefixed_message("", "x"), String::from("x"));
}
