use n4n5::errors::GeneralError;

#[test]
fn error_text_without_source() {
    let e = GeneralError::new("no path");
    assert_eq!(e.to_text(), "GeneralError: no path");
    assert_eq!(e.message(), "no path");
    assert!(e.source().is_none());
}

#[test]
fn error_text_with_source() {
    let e = GeneralError::new_with_source("cannot write".to_string(), "disk full".to_string());
    assert_eq!(e.to_text(), "GeneralError: cannot write from disk full");
    assert_eq!(e.source(), Some("disk full"));
}

#[test]
fn error_from_string_has_no_source() {
    let e = GeneralError::from("plain".to_string());
    assert_eq!(e, GeneralError::new("plain"));
    assert_eq!(e.to_text(), "GeneralError: plain");
}

#[test]
fn error_with_empty_message() {
    assert_eq!(GeneralError::new("").to_text(), "GeneralError: ");
}
