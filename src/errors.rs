//! Error taxonomy of the bridge and its JSON-RPC wire codes.
use vstd::prelude::*;
use crate::text::{concat, concat3, concat4};

verus! {

/// Domain errors; each maps to one JSON-RPC error code on the wire.
#[derive(Debug, Clone, PartialEq, Eq)]
pub enum AmpError {
    /// Command not found in the registry.
    CommandNotFound(String),
    /// Invalid arguments for a command or an operation.
    InvalidArgs { command: String, reason: String },
    /// Malformed JSON text.
    SerdeError(String),
    /// Storage failure.
    DatabaseError(String),
    /// File-system failure.
    IoError(String),
    /// An external command-line tool failed.
    AmpCliError(String),
    /// A thread file could not be parsed.
    ThreadParseError(String),
    /// Configuration problem (lockfile directory, home directory).
    ConfigError(String),
    /// Validation failure.
    ValidationError(String),
    /// Conversion between value representations failed.
    ConversionError(String),
    /// A message shaped like a request that breaks the envelope rules.
    InvalidRequest(String),
    /// A message that is neither dialect.
    UnknownFormat,
    /// `start` while a server is live.
    AlreadyRunning,
    /// Targeted send to a client that is not registered.
    HubError(String),
    /// A notification could not be built.
    NotificationError(String),
    /// Socket-level failure; tears the connection down.
    WebSocketError(String),
    /// Anything else.
    Other(String),
}

impl AmpError {
    /// The JSON-RPC error code of this kind.
    pub open spec fn code_spec(&self) -> int {
        match self {
            AmpError::SerdeError(_) => -32700,
            AmpError::InvalidRequest(_) => -32600,
            AmpError::UnknownFormat => -32600,
            AmpError::CommandNotFound(_) => -32601,
            AmpError::InvalidArgs { .. } => -32602,
            AmpError::ValidationError(_) => -32602,
            AmpError::WebSocketError(_) => -32001,
            AmpError::DatabaseError(_) => -32002,
            AmpError::IoError(_) => -32003,
            AmpError::AmpCliError(_) => -32004,
            AmpError::ConfigError(_) => -32005,
            AmpError::HubError(_) => -32006,
            AmpError::NotificationError(_) => -32007,
            AmpError::ConversionError(_) => -32008,
            AmpError::ThreadParseError(_) => -32603,
            AmpError::AlreadyRunning => -32603,
            AmpError::Other(_) => -32603,
        }
    }

    /// Wire code of the error, per the taxonomy.
    pub fn to_jsonrpc_code(&self) -> (r: i32)
        ensures
            r == self.code_spec(),
    {
        match self {
            AmpError::SerdeError(_) => -32700,
            AmpError::InvalidRequest(_) => -32600,
            AmpError::UnknownFormat => -32600,
            AmpError::CommandNotFound(_) => -32601,
            AmpError::InvalidArgs { .. } => -32602,
            AmpError::ValidationError(_) => -32602,
            AmpError::WebSocketError(_) => -32001,
            AmpError::DatabaseError(_) => -32002,
            AmpError::IoError(_) => -32003,
            AmpError::AmpCliError(_) => -32004,
            AmpError::ConfigError(_) => -32005,
            AmpError::HubError(_) => -32006,
            AmpError::NotificationError(_) => -32007,
            AmpError::ConversionError(_) => -32008,
            AmpError::ThreadParseError(_) => -32603,
            AmpError::AlreadyRunning => -32603,
            AmpError::Other(_) => -32603,
        }
    }

    /// The display text of the error.
    pub open spec fn message_spec(&self) -> Seq<char> {
        match self {
            AmpError::CommandNotFound(c) => "Command not found: "@ + c@,
            AmpError::InvalidArgs { command, reason } =>
                "Invalid arguments for command '"@ + command@ + "': "@ + reason@,
            AmpError::SerdeError(m) => "Serialization error: "@ + m@,
            AmpError::DatabaseError(m) => "Database error: "@ + m@,
            AmpError::IoError(m) => "I/O error: "@ + m@,
            AmpError::AmpCliError(m) => "Amp CLI error: "@ + m@,
            AmpError::ThreadParseError(m) => "Failed to parse thread file: "@ + m@,
            AmpError::ConfigError(m) => "Configuration error: "@ + m@,
            AmpError::ValidationError(m) => "Validation error: "@ + m@,
            AmpError::ConversionError(m) => "Conversion error: "@ + m@,
            AmpError::InvalidRequest(m) => "Invalid request: "@ + m@,
            AmpError::UnknownFormat =>
                "Unknown message format - missing clientRequest or jsonrpc field"@,
            AmpError::AlreadyRunning => "Server already running"@,
            AmpError::HubError(m) => "Hub error: "@ + m@,
            AmpError::NotificationError(m) => "Notification error: "@ + m@,
            AmpError::WebSocketError(m) => "WebSocket error: "@ + m@,
            AmpError::Other(m) => m@,
        }
    }

    /// Display text of the error (what `to_string` gives in an error response).
    pub fn to_message(&self) -> (r: String)
        ensures
            r@ == self.message_spec(),
    {
        match self {
            AmpError::CommandNotFound(c) => concat("Command not found: ", c.as_str()),
            AmpError::InvalidArgs { command, reason } => concat4(
                "Invalid arguments for command '",
                command.as_str(),
                "': ",
                reason.as_str(),
            ),
            AmpError::SerdeError(m) => concat("Serialization error: ", m.as_str()),
            AmpError::DatabaseError(m) => concat("Database error: ", m.as_str()),
            AmpError::IoError(m) => concat("I/O error: ", m.as_str()),
            AmpError::AmpCliError(m) => concat("Amp CLI error: ", m.as_str()),
            AmpError::ThreadParseError(m) => concat("Failed to parse thread file: ", m.as_str()),
            AmpError::ConfigError(m) => concat("Configuration error: ", m.as_str()),
            AmpError::ValidationError(m) => concat("Validation error: ", m.as_str()),
            AmpError::ConversionError(m) => concat("Conversion error: ", m.as_str()),
            AmpError::InvalidRequest(m) => concat("Invalid request: ", m.as_str()),
            AmpError::UnknownFormat => "Unknown message format - missing clientRequest or jsonrpc field".to_owned(),
            AmpError::AlreadyRunning => "Server already running".to_owned(),
            AmpError::HubError(m) => concat("Hub error: ", m.as_str()),
            AmpError::NotificationError(m) => concat("Notification error: ", m.as_str()),
            AmpError::WebSocketError(m) => concat("WebSocket error: ", m.as_str()),
            AmpError::Other(m) => m.clone(),
        }
    }

    /// The text shown to the editor user.
    pub open spec fn user_message_spec(&self) -> Seq<char> {
        match self {
            AmpError::CommandNotFound(c) =>
                "Command '"@ + c@ + "' not found. Run :AmpHelp for available commands."@,
            AmpError::InvalidArgs { command, reason } =>
                "Invalid arguments for '"@ + command@ + "': "@ + reason@,
            _ => self.message_spec(),
        }
    }

    /// User-friendly message for display in the editor.
    pub fn user_message(&self) -> (r: String)
        ensures
            r@ == self.user_message_spec(),
    {
        match self {
            AmpError::CommandNotFound(c) => concat3(
                "Command '",
                c.as_str(),
                "' not found. Run :AmpHelp for available commands.",
            ),
            AmpError::InvalidArgs { command, reason } => concat4(
                "Invalid arguments for '",
                command.as_str(),
                "': ",
                reason.as_str(),
            ),
            _ => self.to_message(),
        }
    }

    /// The category name used for logging.
    pub open spec fn category_spec(&self) -> Seq<char> {
        match self {
            AmpError::CommandNotFound(_) => "command"@,
            AmpError::InvalidArgs { .. } => "arguments"@,
            AmpError::SerdeError(_) => "serialization"@,
            AmpError::DatabaseError(_) => "database"@,
            AmpError::IoError(_) => "io"@,
            AmpError::AmpCliError(_) => "amp_cli"@,
            AmpError::ThreadParseError(_) => "thread_parse"@,
            AmpError::ConfigError(_) => "config"@,
            AmpError::ValidationError(_) => "validation"@,
            AmpError::ConversionError(_) => "conversion"@,
            AmpError::InvalidRequest(_) => "request"@,
            AmpError::UnknownFormat => "request"@,
            AmpError::AlreadyRunning => "lifecycle"@,
            AmpError::HubError(_) => "hub"@,
            AmpError::NotificationError(_) => "notification"@,
            AmpError::WebSocketError(_) => "websocket"@,
            AmpError::Other(_) => "other"@,
        }
    }

    /// Error category for logging.
    pub fn category(&self) -> (r: &'static str)
        ensures
            r@ == self.category_spec(),
    {
        match self {
            AmpError::CommandNotFound(_) => "command",
            AmpError::InvalidArgs { .. } => "arguments",
            AmpError::SerdeError(_) => "serialization",
            AmpError::DatabaseError(_) => "database",
            AmpError::IoError(_) => "io",
            AmpError::AmpCliError(_) => "amp_cli",
            AmpError::ThreadParseError(_) => "thread_parse",
            AmpError::ConfigError(_) => "config",
            AmpError::ValidationError(_) => "validation",
            AmpError::ConversionError(_) => "conversion",
            AmpError::InvalidRequest(_) => "request",
            AmpError::UnknownFormat => "request",
            AmpError::AlreadyRunning => "lifecycle",
            AmpError::HubError(_) => "hub",
            AmpError::NotificationError(_) => "notification",
            AmpError::WebSocketError(_) => "websocket",
            AmpError::Other(_) => "other",
        }
    }
}

} // verus!
