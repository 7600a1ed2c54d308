use senka_panel::senka_error::{SenkaError, SenkaErrorCode};

#[test]
fn error_constructors() {
    let e = SenkaError::new(SenkaErrorCode::Format, String::from("bad input"));
    assert_eq!(e.senka_error_code, SenkaErrorCode::Format);
    assert_eq!(e.error_message, "bad input");
    let m = SenkaError::from_message(String::from("inner failure"));
    assert_eq!(m.senka_error_code, SenkaErrorCode::Inner);
    assert_eq!(m.error_message, "inner failure");
    let f = SenkaError::from_err(SenkaErrorCode::NoImplementation);
    assert_eq!(f.senka_error_code, SenkaErrorCode::NoImplementation);
    assert_eq!(f.error_message, "NoImplementation");
    let n = SenkaError::null();
    assert_eq!(n.senka_error_code, SenkaErrorCode::Unknown);
    assert_eq!(n.error_message, "Unknown");
}

#[test]
fn error_display() {
    let e = SenkaError::new(SenkaErrorCode::OutOfRange, String::from("index 9"));
    assert_eq!(e.to_display_string(), "[OutOfRange]index 9");
    assert_eq!(SenkaError::from_err(SenkaErrorCode::Unexpected).to_display_string(), "[Unexpected]Unexpected");
    assert_eq!(SenkaErrorCode::Arguement.name(), "Arguement");
}
