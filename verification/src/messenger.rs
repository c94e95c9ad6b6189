//! Classification and formatting of diagnostic messages from the backend's
//! debug facility. The core only turns the reported severity and category
//! bits into a printable line; the unverified shell forwards that line to
//! its logging sink.

use vstd::prelude::*;
use vstd::string::StringExecFns;

verus! {

/// Severity bit reported for a verbose diagnostic message.
pub const SEVERITY_VERBOSE: u32 = 0x1;

/// Severity bit reported for an informational message.
pub const SEVERITY_INFO: u32 = 0x10;

/// Severity bit reported for a warning.
pub const SEVERITY_WARNING: u32 = 0x100;

/// Severity bit reported for an error.
pub const SEVERITY_ERROR: u32 = 0x1000;

/// Category bit for general messages.
pub const CATEGORY_GENERAL: u32 = 0x1;

/// Category bit for validation messages.
pub const CATEGORY_VALIDATION: u32 = 0x2;

/// Category bit for performance messages.
pub const CATEGORY_PERFORMANCE: u32 = 0x4;

/// The severity of a diagnostic message, as far as the core tells them
/// apart.
#[derive(Clone, Copy, Debug, PartialEq, Eq, Structural)]
pub enum MessageSeverity {
    Verbose,
    Info,
    Warning,
    Error,
    Unknown,
}

/// The category of a diagnostic message, as far as the core tells them
/// apart.
#[derive(Clone, Copy, Debug, PartialEq, Eq, Structural)]
pub enum MessageCategory {
    General,
    Performance,
    Validation,
    Unknown,
}

/// The severity that a given severity bit pattern stands for; anything
/// but the four known exact values is unknown.
pub open spec fn spec_classify_severity(bits: u32) -> MessageSeverity {
    if bits == SEVERITY_VERBOSE {
        MessageSeverity::Verbose
    } else if bits == SEVERITY_INFO {
        MessageSeverity::Info
    } else if bits == SEVERITY_WARNING {
        MessageSeverity::Warning
    } else if bits == SEVERITY_ERROR {
        MessageSeverity::Error
    } else {
        MessageSeverity::Unknown
    }
}

/// The category that a given category bit pattern stands for.
pub open spec fn spec_classify_category(bits: u32) -> MessageCategory {
    if bits == CATEGORY_GENERAL {
        MessageCategory::General
    } else if bits == CATEGORY_PERFORMANCE {
        MessageCategory::Performance
    } else if bits == CATEGORY_VALIDATION {
        MessageCategory::Validation
    } else {
        MessageCategory::Unknown
    }
}

/// The label printed for each severity.
pub open spec fn severity_label_view(s: MessageSeverity) -> Seq<char> {
    match s {
        MessageSeverity::Verbose => "[Verbose]"@,
        MessageSeverity::Info => "[Info]"@,
        MessageSeverity::Warning => "[Warning]"@,
        MessageSeverity::Error => "[Error]"@,
        MessageSeverity::Unknown => "[Unknown]"@,
    }
}

/// The label printed for each category.
pub open spec fn category_label_view(c: MessageCategory) -> Seq<char> {
    match c {
        MessageCategory::General => "[General]"@,
        MessageCategory::Performance => "[Performance]"@,
        MessageCategory::Validation => "[Validation]"@,
        MessageCategory::Unknown => "[Unknown]"@,
    }
}

/// Maps a reported severity bit pattern to the severity it stands for.
pub fn classify_severity(bits: u32) -> (r: MessageSeverity)
    ensures
        r == spec_classify_severity(bits),
{
    if bits == SEVERITY_VERBOSE {
        MessageSeverity::Verbose
    } else if bits == SEVERITY_INFO {
        MessageSeverity::Info
    } else if bits == SEVERITY_WARNING {
        MessageSeverity::Warning
    } else if bits == SEVERITY_ERROR {
        MessageSeverity::Error
    } else {
        MessageSeverity::Unknown
    }
}

/// Maps a reported category bit pattern to the category it stands for.
pub fn classify_category(bits: u32) -> (r: MessageCategory)
    ensures
        r == spec_classify_category(bits),
{
    if bits == CATEGORY_GENERAL {
        MessageCategory::General
    } else if bits == CATEGORY_PERFORMANCE {
        MessageCategory::Performance
    } else if bits == CATEGORY_VALIDATION {
        MessageCategory::Validation
    } else {
        MessageCategory::Unknown
    }
}

/// The printable label of a severity.
pub fn severity_label(s: MessageSeverity) -> (r: &'static str)
    ensures
        r@ == severity_label_view(s),
{
    match s {
        MessageSeverity::Verbose => "[Verbose]",
        MessageSeverity::Info => "[Info]",
        MessageSeverity::Warning => "[Warning]",
        MessageSeverity::Error => "[Error]",
        MessageSeverity::Unknown => "[Unknown]",
    }
}

/// The printable label of a category.
pub fn category_label(c: MessageCategory) -> (r: &'static str)
    ensures
        r@ == category_label_view(c),
{
    match c {
        MessageCategory::General => "[General]",
        MessageCategory::Performance => "[Performance]",
        MessageCategory::Validation => "[Validation]",
        MessageCategory::Unknown => "[Unknown]",
    }
}

/// Builds the one diagnostic line the core produces: the fixed debug tag,
/// the severity and category labels, then the message text unchanged.
pub fn debug_message_line(severity: MessageSeverity, category: MessageCategory, message: &str) -> (r:
    String)
    ensures
        r@ == "[Debug]"@ + severity_label_view(severity) + category_label_view(category)
            + message@,
{
    let mut line = String::from_str("[Debug]");
    line.append(severity_label(severity));
    line.append(category_label(category));
    line.append(message);
    line
}

} // verus!
