use gpu_bootstrap::capability::MissingCapability;
use gpu_bootstrap::device::NoSuitableDevice;
use gpu_bootstrap::error::BootstrapError;
use gpu_bootstrap::messenger::{
    category_label, classify_category, classify_severity, debug_message_line, severity_label,
    MessageCategory, MessageSeverity, CATEGORY_GENERAL, CATEGORY_PERFORMANCE, CATEGORY_VALIDATION,
    SEVERITY_ERROR, SEVERITY_INFO, SEVERITY_VERBOSE, SEVERITY_WARNING,
};

#[test]
fn severity_bits_classify_exactly() {
    assert_eq!(classify_severity(SEVERITY_VERBOSE), MessageSeverity::Verbose);
    assert_eq!(classify_severity(SEVERITY_INFO), MessageSeverity::Info);
    assert_eq!(classify_severity(SEVERITY_WARNING), MessageSeverity::Warning);
    assert_eq!(classify_severity(SEVERITY_ERROR), MessageSeverity::Error);
    assert_eq!(classify_severity(SEVERITY_WARNING | SEVERITY_ERROR), MessageSeverity::Unknown);
    assert_eq!(classify_severity(0), MessageSeverity::Unknown);
}

#[test]
fn category_bits_classify_exactly() {
    assert_eq!(classify_category(CATEGORY_GENERAL), MessageCategory::General);
    assert_eq!(classify_category(CATEGORY_PERFORMANCE), MessageCategory::Performance);
    assert_eq!(classify_category(CATEGORY_VALIDATION), MessageCategory::Validation);
    assert_eq!(classify_category(CATEGORY_GENERAL | CATEGORY_VALIDATION), MessageCategory::Unknown);
}

#[test]
fn labels_match_their_variants() {
    assert_eq!(severity_label(MessageSeverity::Verbose), "[Verbose]");
    assert_eq!(severity_label(MessageSeverity::Warning), "[Warning]");
    assert_eq!(severity_label(MessageSeverity::Error), "[Error]");
    assert_eq!(severity_label(MessageSeverity::Info), "[Info]");
    assert_eq!(severity_label(MessageSeverity::Unknown), "[Unknown]");
    assert_eq!(category_label(MessageCategory::General), "[General]");
    assert_eq!(category_label(MessageCategory::Performance), "[Performance]");
    assert_eq!(category_label(MessageCategory::Validation), "[Validation]");
    assert_eq!(category_label(MessageCategory::Unknown), "[Unknown]");
}

#[test]
fn debug_line_concatenates_tag_labels_and_message() {
    let line = debug_message_line(
        MessageSeverity::Warning,
        MessageCategory::Validation,
        "image count too small",
    );
    assert_eq!(line, "[Debug][Warning][Validation]image count too small");
}

#[test]
fn each_error_variant_has_its_description() {
    let capability = BootstrapError::Capability(MissingCapability {
        name: b"VK_KHR_swapchain".to_vec(),
        index: 0,
    });
    assert_eq!(capability.describe(), "required capability not supported");
    let no_device = BootstrapError::NoDevice(NoSuitableDevice);
    assert_eq!(no_device.describe(), "no suitable physical device");
    assert_eq!(BootstrapError::Backend(-4).describe(), "graphics backend call failed");
    assert_eq!(BootstrapError::HandleConversion.describe(), "invalid display or window handle");
}
