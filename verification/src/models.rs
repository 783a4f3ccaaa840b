//! Shared event and status types exchanged with the host application.

use crate::settings::{
    default_command_uuid, default_data_uuid, default_pairing_max_retries,
    default_pairing_retry_delay_ms, default_service_uuid,
};
use vstd::prelude::*;

verus! {

/// Connection lifecycle of the transport collaborator.  Delivered as a
/// discrete event; it only gates whether readings arrive.
#[derive(Clone, Copy, Debug, PartialEq, Eq, Structural)]
pub enum ConnectionStatus {
    Disconnected,
    Connecting,
    Connected,
    Error,
}

/// Weight of a diagnostic message shown to the user.
#[derive(Clone, Copy, Debug, PartialEq, Eq, Structural)]
pub enum MessageSeverity {
    Info,
    Success,
    Warning,
    Error,
}

/// A diagnostic message with its severity.
#[derive(Clone, Debug)]
pub struct StatusMessage {
    pub message: String,
    pub severity: MessageSeverity,
}

impl StatusMessage {
    pub fn new(message: String, severity: MessageSeverity) -> (r: StatusMessage)
        ensures
            r.message@ == message@,
            r.severity == severity,
    {
        StatusMessage { message, severity }
    }
}

/// Transport parameters the connection collaborator consumes: retry
/// policy and the service/characteristic identifiers.
#[derive(Clone, Debug)]
pub struct ConnectionConfig {
    pub max_pairing_retries: u32,
    pub pairing_retry_delay_ms: u64,
    pub service_uuid: String,
    pub data_char_uuid: String,
    pub command_char_uuid: String,
}

impl Default for ConnectionConfig {
    fn default() -> (r: ConnectionConfig)
        ensures
            r.max_pairing_retries == 3,
            r.pairing_retry_delay_ms == 1000,
            r.service_uuid@ == "4f63756c-7573-2054-6872-65656d6f7465"@,
            r.data_char_uuid@ == "c8c51726-81bc-483b-a052-f7a14ea3d281"@,
            r.command_char_uuid@ == "c8c51726-81bc-483b-a052-f7a14ea3d282"@,
    {
        ConnectionConfig {
            max_pairing_retries: default_pairing_max_retries(),
            pairing_retry_delay_ms: default_pairing_retry_delay_ms(),
            service_uuid: default_service_uuid(),
            data_char_uuid: default_data_uuid(),
            command_char_uuid: default_command_uuid(),
        }
    }
}

} // verus!
