use dotsync::error::AppError;
use dotsync::text::{to_decimal, to_signed_decimal};

#[test]
fn decimal_of_small_and_large_numbers() {
    assert_eq!(to_decimal(0), "0");
    assert_eq!(to_decimal(7), "7");
    assert_eq!(to_decimal(9), "9");
    assert_eq!(to_decimal(10), "10");
    assert_eq!(to_decimal(101), "101");
    assert_eq!(to_decimal(1234567890), "1234567890");
    assert_eq!(to_decimal(usize::MAX), usize::MAX.to_string());
}

#[test]
fn message_of_config_not_found() {
    assert_eq!(AppError::ConfigNotFound.message(), "[e] Config not found!");
}

#[test]
fn message_of_location_not_found() {
    let error = AppError::LocationNotFound { field_name: "src", table_name: "vim".to_string() };
    assert_eq!(
        error.message(),
        "[e] Path Not found for field: \"src\" for table: \"vim\", skipping!"
    );
}

#[test]
fn message_of_missing_field() {
    let error = AppError::MissingField { field_name: "dest", table_name: "vim".to_string() };
    assert_eq!(error.message(), "[e] Missing field: \"dest\" for table: \"vim\", skipping!");
}

#[test]
fn message_of_field_has_no_name() {
    assert_eq!(
        AppError::FieldHasNoName(12).message(),
        "[e] No name for table at index: 12, skipping!"
    );
}

#[test]
fn message_of_outside_errors_is_their_own_text() {
    assert_eq!(AppError::IOError("File exists (os error 17)".to_string()).message(), "File exists (os error 17)");
    assert_eq!(AppError::FromLua("runtime error: x".to_string()).message(), "runtime error: x");
    assert_eq!(AppError::IOError(String::new()).message(), "");
}

#[test]
fn only_a_missing_config_and_a_failing_script_are_fatal() {
    assert!(AppError::ConfigNotFound.is_fatal());
    assert!(AppError::FromLua("x".to_string()).is_fatal());
    assert!(!AppError::IOError("x".to_string()).is_fatal());
    assert!(!AppError::FieldHasNoName(0).is_fatal());
    assert!(!AppError::CommandFailed { setter: "setFont", status: Some(1) }.is_fatal());
    assert!(!AppError::MissingField { field_name: "src", table_name: "a".to_string() }.is_fatal());
    assert!(!AppError::LocationNotFound { field_name: "src", table_name: "a".to_string() }.is_fatal());
}

#[test]
fn error_clone_keeps_the_variant_and_its_fields() {
    let errors = vec![
        AppError::ConfigNotFound,
        AppError::FieldHasNoName(3),
        AppError::MissingField { field_name: "src", table_name: "a".to_string() },
        AppError::LocationNotFound { field_name: "dest", table_name: "b".to_string() },
        AppError::CommandFailed { setter: "setFont", status: Some(3) },
        AppError::CommandFailed { setter: "setFont", status: None },
        AppError::IOError("io".to_string()),
        AppError::FromLua("lua".to_string()),
    ];
    for error in &errors {
        assert_eq!(&error.clone(), error);
    }
}

#[test]
fn signed_decimal_of_both_signs() {
    assert_eq!(to_signed_decimal(0), "0");
    assert_eq!(to_signed_decimal(1), "1");
    assert_eq!(to_signed_decimal(255), "255");
    assert_eq!(to_signed_decimal(-1), "-1");
    assert_eq!(to_signed_decimal(-120), "-120");
    assert_eq!(to_signed_decimal(i32::MAX), "2147483647");
    assert_eq!(to_signed_decimal(i32::MIN), "-2147483648");
}

#[test]
fn message_of_a_command_that_failed() {
    assert_eq!(
        AppError::CommandFailed { setter: "setGtkTheme", status: Some(1) }.message(),
        "[e] Command failed for setter: \"setGtkTheme\" with status: 1"
    );
    assert_eq!(
        AppError::CommandFailed { setter: "setFont", status: Some(-2) }.message(),
        "[e] Command failed for setter: \"setFont\" with status: -2"
    );
    assert_eq!(
        AppError::CommandFailed { setter: "setGtkIcons", status: None }.message(),
        "[e] Command failed for setter: \"setGtkIcons\", ended by a signal"
    );
}
