use url_shortener::short_id::{ShortId, ShortIdValidationError};

#[test]
fn url_repo_test_new_valid() {
    let valid_id = "valid123";
    let short_id = ShortId::new(valid_id.to_string()).unwrap();
    assert_eq!(short_id.as_str(), valid_id);
}

#[test]
fn test_new_too_short() {
    let short_id = "short";
    let err = ShortId::new(short_id.to_string()).unwrap_err();
    assert!(matches!(err, ShortIdValidationError::InvalidLength { .. }));
}

#[test]
fn test_new_too_long() {
    let long_id = "thisidiswaytoolongtobevalid";
    let err = ShortId::new(long_id.to_string()).unwrap_err();
    assert!(matches!(err, ShortIdValidationError::InvalidLength { .. }));
}

#[test]
fn test_new_invalid_chars() {
    let invalid_id = "invalid-id!";
    let err = ShortId::new(invalid_id.to_string()).unwrap_err();
    assert!(matches!(
        err,
        ShortIdValidationError::InvalidCharacters { invalid_chars } if invalid_chars == "-!"
    ));
}

#[test]
fn url_repo_test_into_inner() {
    let valid_id = "valid123";
    let short_id = ShortId::new(valid_id.to_string()).unwrap();
    assert_eq!(short_id.into_inner(), valid_id);
}

#[test]
fn short_id_length_bounds_are_inclusive() {
    assert!(ShortId::new("abcdef".to_string()).is_ok());
    assert!(ShortId::new("abcdefghij123456".to_string()).is_ok());
    assert_eq!(
        ShortId::new("abcde".to_string()).unwrap_err(),
        ShortIdValidationError::InvalidLength { min_len: 6, max_len: 16 }
    );
    assert_eq!(
        ShortId::new("abcdefghij1234567".to_string()).unwrap_err(),
        ShortIdValidationError::InvalidLength { min_len: 6, max_len: 16 }
    );
}

#[test]
fn short_id_empty_is_too_short() {
    assert_eq!(
        ShortId::new(String::new()).unwrap_err(),
        ShortIdValidationError::InvalidLength { min_len: 6, max_len: 16 }
    );
}

#[test]
fn short_id_length_counts_utf8_bytes() {
    // Three characters, six bytes: long enough, but not alphanumeric.
    assert_eq!(
        ShortId::new("ééé".to_string()).unwrap_err(),
        ShortIdValidationError::InvalidCharacters { invalid_chars: "ééé".to_string() }
    );
    // Nine characters, eighteen bytes: too long although only nine characters.
    assert_eq!(
        ShortId::new("ééééééééé".to_string()).unwrap_err(),
        ShortIdValidationError::InvalidLength { min_len: 6, max_len: 16 }
    );
}

#[test]
fn short_id_length_checked_before_characters() {
    assert_eq!(
        ShortId::new("a-b".to_string()).unwrap_err(),
        ShortIdValidationError::InvalidLength { min_len: 6, max_len: 16 }
    );
}

#[test]
fn short_id_invalid_chars_keep_order_and_repeats() {
    assert_eq!(
        ShortId::new("a b_c d!e".to_string()).unwrap_err(),
        ShortIdValidationError::InvalidCharacters { invalid_chars: " _ !".to_string() }
    );
}

#[test]
fn short_id_all_alphanumeric_classes_accepted() {
    let id = ShortId::new("AZaz09Mm".to_string()).unwrap();
    assert_eq!(id.clone().into_inner(), "AZaz09Mm");
    assert_eq!(id.as_str(), "AZaz09Mm");
}
