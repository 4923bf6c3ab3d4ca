//! Classification and routing of the messages that the diagnostic layers send.

use vstd::prelude::*;

verus! {

/// The category bits set on a diagnostic message.
#[derive(Clone, Copy, Debug, PartialEq, Eq, Structural)]
pub struct MessageTypes {
    pub general: bool,
    pub validation: bool,
    pub performance: bool,
}

/// The severity bits set on a diagnostic message.
#[derive(Clone, Copy, Debug, PartialEq, Eq, Structural)]
pub struct MessageSeverity {
    pub error: bool,
    pub warning: bool,
    pub info: bool,
    pub verbose: bool,
}

#[derive(Clone, Copy, Debug, PartialEq, Eq, Structural)]
pub enum MessageCategory {
    General,
    Validation,
    Performance,
    Unknown,
}

/// The level at which a message is logged.
#[derive(Clone, Copy, Debug, PartialEq, Eq, Structural)]
pub enum LogLevel {
    Error,
    Warn,
    Info,
}

pub open spec fn category_of(t: MessageTypes) -> MessageCategory {
    if t.general {
        MessageCategory::General
    } else if t.validation {
        MessageCategory::Validation
    } else if t.performance {
        MessageCategory::Performance
    } else {
        MessageCategory::Unknown
    }
}

pub open spec fn level_of(s: MessageSeverity) -> Option<LogLevel> {
    if s.error {
        Some(LogLevel::Error)
    } else if s.warning {
        Some(LogLevel::Warn)
    } else if s.info {
        Some(LogLevel::Info)
    } else {
        None
    }
}

pub open spec fn label_of(c: MessageCategory) -> Seq<char> {
    match c {
        MessageCategory::General => "General"@,
        MessageCategory::Validation => "Validation"@,
        MessageCategory::Performance => "Performance"@,
        MessageCategory::Unknown => "Unknown"@,
    }
}

/// The severities that the diagnostic subscription asks for.
pub fn subscribed_severities() -> (r: MessageSeverity)
    ensures
        r == (MessageSeverity { error: true, warning: true, info: true, verbose: false }),
{
    MessageSeverity { error: true, warning: true, info: true, verbose: false }
}

/// The categories that the diagnostic subscription asks for.
pub fn subscribed_types() -> (r: MessageTypes)
    ensures
        r == (MessageTypes { general: true, validation: true, performance: true }),
{
    MessageTypes { general: true, validation: true, performance: true }
}

/// The first category set, in the order general, validation, performance.
pub fn classify_category(t: MessageTypes) -> (r: MessageCategory)
    ensures
        r == category_of(t),
{
    if t.general {
        MessageCategory::General
    } else if t.validation {
        MessageCategory::Validation
    } else if t.performance {
        MessageCategory::Performance
    } else {
        MessageCategory::Unknown
    }
}

/// The level of the highest severity set among error, warning and info;
/// `None` (the message is dropped) when only verbose or nothing is set.
pub fn route_severity(s: MessageSeverity) -> (r: Option<LogLevel>)
    ensures
        r == level_of(s),
{
    if s.error {
        Some(LogLevel::Error)
    } else if s.warning {
        Some(LogLevel::Warn)
    } else if s.info {
        Some(LogLevel::Info)
    } else {
        None
    }
}

/// The name under which a category is logged.
pub fn category_label(c: MessageCategory) -> (r: &'static str)
    ensures
        r@ == label_of(c),
{
    match c {
        MessageCategory::General => "General",
        MessageCategory::Validation => "Validation",
        MessageCategory::Performance => "Performance",
        MessageCategory::Unknown => "Unknown",
    }
}

} // verus!
