use vstd::prelude::*;

verus! {

/// Whether the validation layers are wanted, and which.
#[derive(Debug, PartialEq, Eq)]
pub struct ValidationInfo {
    pub is_enabled: bool,
    pub required_validation_layers: Vec<String>,
}

/// The severities of driver messages that are passed on.
#[derive(Clone, Copy, Debug, PartialEq, Eq, Structural)]
pub struct MessageSeverity {
    pub verbose: bool,
    pub info: bool,
    pub warning: bool,
    pub error: bool,
}

/// The kinds of driver messages that are passed on.
#[derive(Clone, Copy, Debug, PartialEq, Eq, Structural)]
pub struct MessageType {
    pub general: bool,
    pub validation: bool,
    pub performance: bool,
}

/// The payload from which the driver creates the debug messenger.
#[derive(Clone, Copy, Debug, PartialEq, Eq, Structural)]
pub struct DebugMessengerCreateInfo {
    pub message_severity: MessageSeverity,
    pub message_type: MessageType,
}

/// Everything but verbose chatter, of every kind.
pub open spec fn debug_info() -> DebugMessengerCreateInfo {
    DebugMessengerCreateInfo {
        message_severity: MessageSeverity { verbose: false, info: true, warning: true, error: true },
        message_type: MessageType { general: true, validation: true, performance: true },
    }
}

/// The messenger payload: [`debug_info`].
pub fn create_debug_info() -> (info: DebugMessengerCreateInfo)
    ensures
        info == debug_info(),
{
    DebugMessengerCreateInfo {
        message_severity: MessageSeverity { verbose: false, info: true, warning: true, error: true },
        message_type: MessageType { general: true, validation: true, performance: true },
    }
}

/// The messenger to create, if any: one is wanted exactly when validation is
/// enabled.
pub fn create_debug_utils(validation_info: &ValidationInfo) -> (messenger: Option<
    DebugMessengerCreateInfo,
>)
    ensures
        messenger == (if validation_info.is_enabled {
            Some(debug_info())
        } else {
            None
        }),
{
    if validation_info.is_enabled {
        Some(create_debug_info())
    } else {
        None
    }
}

} // verus!
