//! The error taxonomy seen at the coordinator's surface.
use vstd::prelude::*;

verus! {

/// What can go wrong while ingesting or processing a message.
#[derive(Debug, Clone)]
pub enum VehicleError {
    /// The submitted byte frame is not valid JSON.
    JsonError(String),
    /// An underlying reader failed.
    IoError(String),
    /// The target priority queue is at capacity.
    QueueFull,
    /// A required field is missing or has the wrong shape.
    InvalidMessage(String),
    /// The transport layer failed.
    NanomsgError(String),
    /// A handler deadline was exceeded.
    Timeout,
    /// No such service is known.
    ServiceNotFound(String),
    /// Lifecycle misuse, such as a double start.
    ConfigError(String),
}

impl VehicleError {
    /// Whether a caller or supervisor may retry without corrupting state:
    /// every kind but lifecycle misuse. The io and service-lookup kinds,
    /// which the taxonomy does not list, count as recoverable too, since
    /// retrying them corrupts no state.
    pub fn is_recoverable(&self) -> (r: bool)
        ensures
            r == !(self is ConfigError),
    {
        !matches!(self, VehicleError::ConfigError(_))
    }

    /// A short tag naming the error kind.
    pub fn kind_name(&self) -> (r: &'static str)
        ensures
            self is JsonError ==> r@ == "json error"@,
            self is IoError ==> r@ == "io error"@,
            self is QueueFull ==> r@ == "queue full"@,
            self is InvalidMessage ==> r@ == "invalid message"@,
            self is NanomsgError ==> r@ == "nanomsg error"@,
            self is Timeout ==> r@ == "timeout"@,
            self is ServiceNotFound ==> r@ == "service not found"@,
            self is ConfigError ==> r@ == "config error"@,
    {
        match self {
            VehicleError::JsonError(_) => "json error",
            VehicleError::IoError(_) => "io error",
            VehicleError::QueueFull => "queue full",
            VehicleError::InvalidMessage(_) => "invalid message",
            VehicleError::NanomsgError(_) => "nanomsg error",
            VehicleError::Timeout => "timeout",
            VehicleError::ServiceNotFound(_) => "service not found",
            VehicleError::ConfigError(_) => "config error",
        }
    }
}

} // verus!
