use texel_relay::debug::{
    device_line, message_has_words, message_line, report_message, severity_label,
    subscribed_severities, subscribed_types, type_label,
};
use vulkano::instance::debug::{DebugUtilsMessageSeverity, DebugUtilsMessageType};

#[test]
fn severities_have_words() {
    assert_eq!(severity_label(DebugUtilsMessageSeverity::ERROR), "error");
    assert_eq!(severity_label(DebugUtilsMessageSeverity::WARNING), "warning");
    assert_eq!(severity_label(DebugUtilsMessageSeverity::INFO), "information");
    assert_eq!(severity_label(DebugUtilsMessageSeverity::VERBOSE), "verbose");
}

#[test]
fn gravest_severity_wins() {
    let mixed = DebugUtilsMessageSeverity::VERBOSE | DebugUtilsMessageSeverity::WARNING;
    assert_eq!(severity_label(mixed), "warning");
    assert_eq!(severity_label(mixed | DebugUtilsMessageSeverity::ERROR), "error");
    let mild = DebugUtilsMessageSeverity::VERBOSE | DebugUtilsMessageSeverity::INFO;
    assert_eq!(severity_label(mild), "information");
}

#[test]
fn types_have_words() {
    assert_eq!(type_label(DebugUtilsMessageType::GENERAL), "general");
    assert_eq!(type_label(DebugUtilsMessageType::VALIDATION), "validation");
    assert_eq!(type_label(DebugUtilsMessageType::PERFORMANCE), "performance");
    let mixed = DebugUtilsMessageType::PERFORMANCE | DebugUtilsMessageType::VALIDATION;
    assert_eq!(type_label(mixed), "validation");
    assert_eq!(type_label(mixed | DebugUtilsMessageType::GENERAL), "general");
}

#[test]
fn lines_name_the_message() {
    let line = message_line(
        Some("VUID-1"),
        DebugUtilsMessageType::VALIDATION,
        DebugUtilsMessageSeverity::ERROR,
        "bad image",
    );
    assert_eq!(line, "VUID-1 validation error: bad image");
}

#[test]
fn nameless_messages_are_unknown() {
    let line = report_message(
        None,
        DebugUtilsMessageType::GENERAL,
        DebugUtilsMessageSeverity::INFO,
        "",
    );
    assert_eq!(line.as_deref(), Some("unknown general information: "));
}

#[test]
fn wordless_messages_are_not_reported() {
    let no_severity = report_message(
        Some("x"),
        DebugUtilsMessageType::GENERAL,
        DebugUtilsMessageSeverity::empty(),
        "y",
    );
    assert_eq!(no_severity, None);
    let no_type = report_message(
        Some("x"),
        DebugUtilsMessageType::empty(),
        DebugUtilsMessageSeverity::ERROR,
        "y",
    );
    assert_eq!(no_type, None);
}

#[test]
fn subscription_covers_every_word() {
    assert_eq!(
        subscribed_severities(),
        DebugUtilsMessageSeverity::ERROR
            | DebugUtilsMessageSeverity::WARNING
            | DebugUtilsMessageSeverity::INFO
            | DebugUtilsMessageSeverity::VERBOSE
    );
    assert_eq!(
        subscribed_types(),
        DebugUtilsMessageType::GENERAL
            | DebugUtilsMessageType::VALIDATION
            | DebugUtilsMessageType::PERFORMANCE
    );
}

#[test]
fn subscribed_messages_have_words() {
    assert!(message_has_words(
        DebugUtilsMessageSeverity::VERBOSE,
        DebugUtilsMessageType::PERFORMANCE
    ));
    assert!(!message_has_words(
        DebugUtilsMessageSeverity::empty(),
        DebugUtilsMessageType::PERFORMANCE
    ));
}

#[test]
fn device_line_names_device_and_type() {
    assert_eq!(
        device_line("llvmpipe", "Cpu"),
        "Using device: llvmpipe (type: Cpu)"
    );
}
