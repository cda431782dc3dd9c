//! How messages of the Vulkan validation layers are classified and logged.
use vstd::prelude::*;

verus! {

/// What a debug message is about.
#[derive(Clone, Copy, PartialEq, Eq, Debug, Structural)]
pub enum MessageKind {
    General,
    Validation,
    Performance,
}

/// The log level a debug message is written at.
#[derive(Clone, Copy, PartialEq, Eq, Debug, Structural)]
pub enum LogLevel {
    Error,
    Warning,
    Info,
    Debug,
}

/// The kind of a message from the flags it carries: the first that is set of
/// general, validation and performance. A message carries at least one.
pub fn message_kind(general: bool, validation: bool, performance: bool) -> (kind: MessageKind)
    requires
        general || validation || performance,
    ensures
        kind == (if general {
            MessageKind::General
        } else if validation {
            MessageKind::Validation
        } else {
            MessageKind::Performance
        }),
{
    if general {
        MessageKind::General
    } else if validation {
        MessageKind::Validation
    } else {
        MessageKind::Performance
    }
}

/// The name a kind of message is logged under.
pub open spec fn kind_label(kind: MessageKind) -> Seq<char> {
    match kind {
        MessageKind::General => "general"@,
        MessageKind::Validation => "validation"@,
        MessageKind::Performance => "performance"@,
    }
}

impl MessageKind {
    /// The name this kind of message is logged under.
    pub fn label(&self) -> (name: &'static str)
        ensures
            name@ == kind_label(*self),
    {
        match self {
            MessageKind::General => "general",
            MessageKind::Validation => "validation",
            MessageKind::Performance => "performance",
        }
    }
}

/// The level a message is logged at from its severity flags, the most severe
/// that is set: errors, warnings, information, and verbose messages at debug
/// level. A message carries at least one.
pub fn message_level(error: bool, warning: bool, info: bool, verbose: bool) -> (level: LogLevel)
    requires
        error || warning || info || verbose,
    ensures
        level == (if error {
            LogLevel::Error
        } else if warning {
            LogLevel::Warning
        } else if info {
            LogLevel::Info
        } else {
            LogLevel::Debug
        }),
{
    if error {
        LogLevel::Error
    } else if warning {
        LogLevel::Warning
    } else if info {
        LogLevel::Info
    } else {
        LogLevel::Debug
    }
}

} // verus!
