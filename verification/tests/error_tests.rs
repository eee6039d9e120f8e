use dp_common::text::{join, same_text};
use dp_common::PlatformError;

#[test]
fn kafka_message() {
    let error = PlatformError::kafka("broker unreachable");
    assert!(matches!(&error, PlatformError::Kafka { message } if message == "broker unreachable"));
    assert_eq!(error.message(), "Kafka error: broker unreachable");
}

#[test]
fn s3_message() {
    let error = PlatformError::s3("bucket gone");
    assert!(matches!(&error, PlatformError::S3 { message } if message == "bucket gone"));
    assert_eq!(error.message(), "S3 error: bucket gone");
}

#[test]
fn internal_message() {
    let error = PlatformError::internal("unexpected state");
    assert!(matches!(&error, PlatformError::Internal(message) if message == "unexpected state"));
    assert_eq!(error.message(), "Internal error: unexpected state");
}

#[test]
fn validation_message_names_the_field() {
    let error = PlatformError::validation("bucket", "must not be empty");
    let message = error.message();
    assert_eq!(message, "Validation error: bucket - must not be empty");
    assert!(message.contains("bucket"));
    assert!(message.contains("must not be empty"));
    assert!(matches!(
        &error,
        PlatformError::Validation { field, message } if field == "bucket" && message == "must not be empty"
    ));
}

#[test]
fn every_message_holds_its_text() {
    for text in ["", "x", "two words", "Kafka error: nested", "ünïcödé ✓"] {
        assert!(PlatformError::kafka(text).message().contains(text));
        assert!(PlatformError::s3(text).message().contains(text));
        assert!(PlatformError::internal(text).message().contains(text));
        let validation = PlatformError::validation(text, "reason").message();
        assert!(validation.contains(text) && validation.contains("reason"));
        let validation = PlatformError::validation("field", text).message();
        assert!(validation.contains(text) && validation.contains("field"));
    }
}

#[test]
fn empty_texts_leave_the_labels() {
    assert_eq!(PlatformError::kafka("").message(), "Kafka error: ");
    assert_eq!(PlatformError::validation("", "").message(), "Validation error:  - ");
}

#[test]
fn configuration_failure_converts_and_renders() {
    let cause = config::ConfigError::Message("no such layer".to_string());
    let shown = cause.to_string();
    let error = PlatformError::from(cause);
    assert!(matches!(error, PlatformError::Config(_)));
    assert_eq!(error.message(), format!("Configuration error: {shown}"));
    assert_eq!(error.message(), "Configuration error: no such layer");
}

#[test]
fn serialization_failure_converts_and_renders() {
    let cause = serde_json::from_str::<serde_json::Value>("{\"open\": ").unwrap_err();
    let shown = cause.to_string();
    let error: PlatformError = cause.into();
    assert!(matches!(error, PlatformError::Serialization(_)));
    assert_eq!(error.message(), format!("Serialization error: {shown}"));
    assert!(error.message().contains("line 1"));
}

#[test]
fn io_failure_converts_and_renders() {
    let cause = std::io::Error::new(std::io::ErrorKind::NotFound, "disk missing");
    let error = PlatformError::from(cause);
    assert!(matches!(error, PlatformError::Io(_)));
    assert_eq!(error.message(), "IO error: disk missing");
}

#[test]
fn render_takes_the_text_of_the_cause() {
    let wrapped = PlatformError::from(std::io::Error::other("real"));
    assert_eq!(wrapped.render("stand-in"), "IO error: stand-in");
    let plain = PlatformError::kafka("mine");
    assert_eq!(plain.render("ignored"), "Kafka error: mine");
}

#[test]
fn errors_can_be_told_apart_by_kind() {
    let errors = vec![
        PlatformError::kafka("a"),
        PlatformError::s3("a"),
        PlatformError::validation("a", "a"),
        PlatformError::internal("a"),
    ];
    let messages: Vec<String> = errors.iter().map(|error| error.message()).collect();
    for (i, left) in messages.iter().enumerate() {
        for right in messages.iter().skip(i + 1) {
            assert_ne!(left, right);
        }
    }
}

#[test]
fn join_puts_head_before_tail() {
    assert_eq!(join("staging", ".yaml"), "staging.yaml");
    assert_eq!(join("", "tail"), "tail");
    assert_eq!(join("head", ""), "head");
}

#[test]
fn same_text_compares_characters() {
    assert!(same_text("prod", "prod"));
    assert!(same_text("", ""));
    assert!(!same_text("prod", "Prod"));
    assert!(!same_text("prod", "production"));
}
