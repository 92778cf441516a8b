//! Error taxonomy: configuration, connection, send, node lookup and
//! protocol-validation failures, each carrying the offending input.

use vstd::prelude::*;
use vstd::string::StringExecFns;

verus! {

/// Errors reported by the network service layer.
#[derive(Debug)]
pub enum NetworkError {
    /// Service misconfigured or in the wrong lifecycle state.
    ConfigError(String),
    /// Bind, connect or handshake failure.
    ConnectionError(String),
    /// Serialization or transport call failure on the send path.
    SendError(String),
    /// Failure on the receive path.
    ReceiveError(String),
    /// Envelope could not be encoded or decoded.
    SerializationError(String),
    /// Input/output failure outside the transport itself.
    IoError(String),
    /// Operation timed out.
    TimeoutError,
    /// Unicast target is not in the node registry.
    NodeNotFound(String),
    /// Catch-all for handler-reported failures.
    InternalError(String),
    /// Any other failure.
    Other(String),
}

impl NetworkError {
    pub fn config_error(msg: String) -> (r: Self)
        ensures
            r == NetworkError::ConfigError(msg),
    {
        NetworkError::ConfigError(msg)
    }

    pub fn connection_error(msg: String) -> (r: Self)
        ensures
            r == NetworkError::ConnectionError(msg),
    {
        NetworkError::ConnectionError(msg)
    }

    pub fn send_error(msg: String) -> (r: Self)
        ensures
            r == NetworkError::SendError(msg),
    {
        NetworkError::SendError(msg)
    }

    pub fn receive_error(msg: String) -> (r: Self)
        ensures
            r == NetworkError::ReceiveError(msg),
    {
        NetworkError::ReceiveError(msg)
    }

    pub fn node_not_found(node_id: String) -> (r: Self)
        ensures
            r == NetworkError::NodeNotFound(node_id),
    {
        NetworkError::NodeNotFound(node_id)
    }

    pub fn internal_error(msg: String) -> (r: Self)
        ensures
            r == NetworkError::InternalError(msg),
    {
        NetworkError::InternalError(msg)
    }

    pub fn other(msg: String) -> (r: Self)
        ensures
            r == NetworkError::Other(msg),
    {
        NetworkError::Other(msg)
    }

    /// The line reported for this error.
    pub open spec fn spec_describe(&self) -> Seq<char> {
        match *self {
            NetworkError::ConfigError(m) => "configuration error: "@ + m@,
            NetworkError::ConnectionError(m) => "connection error: "@ + m@,
            NetworkError::SendError(m) => "send error: "@ + m@,
            NetworkError::ReceiveError(m) => "receive error: "@ + m@,
            NetworkError::SerializationError(m) => "serialization error: "@ + m@,
            NetworkError::IoError(m) => "io error: "@ + m@,
            NetworkError::TimeoutError => "operation timed out"@,
            NetworkError::NodeNotFound(m) => "node not found: "@ + m@,
            NetworkError::InternalError(m) => "internal error: "@ + m@,
            NetworkError::Other(m) => "error: "@ + m@,
        }
    }

    /// Renders the error as one line of text.
    pub fn describe(&self) -> (r: String)
        ensures
            r@ == self.spec_describe(),
    {
        let mut line = String::new();
        match self {
            NetworkError::ConfigError(m) => {
                line.append("configuration error: ");
                line.append(m.as_str());
            },
            NetworkError::ConnectionError(m) => {
                line.append("connection error: ");
                line.append(m.as_str());
            },
            NetworkError::SendError(m) => {
                line.append("send error: ");
                line.append(m.as_str());
            },
            NetworkError::ReceiveError(m) => {
                line.append("receive error: ");
                line.append(m.as_str());
            },
            NetworkError::SerializationError(m) => {
                line.append("serialization error: ");
                line.append(m.as_str());
            },
            NetworkError::IoError(m) => {
                line.append("io error: ");
                line.append(m.as_str());
            },
            NetworkError::TimeoutError => {
                line.append("operation timed out");
            },
            NetworkError::NodeNotFound(m) => {
                line.append("node not found: ");
                line.append(m.as_str());
            },
            NetworkError::InternalError(m) => {
                line.append("internal error: ");
                line.append(m.as_str());
            },
            NetworkError::Other(m) => {
                line.append("error: ");
                line.append(m.as_str());
            },
        }
        line
    }
}

/// Errors reported by the time-synchronization protocol.
#[derive(Debug)]
pub enum TimeSyncError {
    /// A failure of the underlying network service.
    NetworkError(NetworkError),
    /// An outstanding time query was not answered in time.
    RequestTimeout,
    /// A client timestamp fell outside the accepted tolerance.
    InvalidTimestamp(i64),
    /// Synchronization failed for the given reason.
    SyncFailed(String),
    /// `stop_heartbeat` was called while no heartbeat runs.
    HeartbeatNotStarted,
    /// `start_heartbeat` was called while a heartbeat already runs.
    HeartbeatAlreadyStarted,
    /// A requested sync interval fell outside the accepted range.
    InvalidSyncInterval(u64),
    /// A computed clock offset was too large to apply.
    TimeOffsetTooLarge(i64),
    /// A protocol payload could not be encoded or decoded.
    SerializationError(String),
    /// The system clock could not be read.
    SystemTimeError(String),
    /// Catch-all for internal failures.
    InternalError(String),
    /// Any other failure.
    Other(String),
}

impl TimeSyncError {
    /// The line reported for this error. Variants carrying only numbers
    /// render as their phrase alone.
    pub open spec fn spec_describe(&self) -> Seq<char> {
        match *self {
            TimeSyncError::NetworkError(e) => "network service error: "@ + e.spec_describe(),
            TimeSyncError::RequestTimeout => "time request timed out"@,
            TimeSyncError::InvalidTimestamp(_) => "invalid timestamp"@,
            TimeSyncError::SyncFailed(m) => "synchronization failed: "@ + m@,
            TimeSyncError::HeartbeatNotStarted => "heartbeat not started"@,
            TimeSyncError::HeartbeatAlreadyStarted => "heartbeat already started"@,
            TimeSyncError::InvalidSyncInterval(_) => "invalid sync interval"@,
            TimeSyncError::TimeOffsetTooLarge(_) => "time offset too large"@,
            TimeSyncError::SerializationError(m) => "serialization error: "@ + m@,
            TimeSyncError::SystemTimeError(m) => "system time error: "@ + m@,
            TimeSyncError::InternalError(m) => "internal error: "@ + m@,
            TimeSyncError::Other(m) => "error: "@ + m@,
        }
    }

    /// Renders the error as one line of text.
    pub fn describe(&self) -> (r: String)
        ensures
            r@ == self.spec_describe(),
    {
        let mut line = String::new();
        match self {
            TimeSyncError::NetworkError(e) => {
                line.append("network service error: ");
                let inner = e.describe();
                line.append(inner.as_str());
            },
            TimeSyncError::RequestTimeout => {
                line.append("time request timed out");
            },
            TimeSyncError::InvalidTimestamp(_) => {
                line.append("invalid timestamp");
            },
            TimeSyncError::SyncFailed(m) => {
                line.append("synchronization failed: ");
                line.append(m.as_str());
            },
            TimeSyncError::HeartbeatNotStarted => {
                line.append("heartbeat not started");
            },
            TimeSyncError::HeartbeatAlreadyStarted => {
                line.append("heartbeat already started");
            },
            TimeSyncError::InvalidSyncInterval(_) => {
                line.append("invalid sync interval");
            },
            TimeSyncError::TimeOffsetTooLarge(_) => {
                line.append("time offset too large");
            },
            TimeSyncError::SerializationError(m) => {
                line.append("serialization error: ");
                line.append(m.as_str());
            },
            TimeSyncError::SystemTimeError(m) => {
                line.append("system time error: ");
                line.append(m.as_str());
            },
            TimeSyncError::InternalError(m) => {
                line.append("internal error: ");
                line.append(m.as_str());
            },
            TimeSyncError::Other(m) => {
                line.append("error: ");
                line.append(m.as_str());
            },
        }
        line
    }

    /// Folds a protocol failure into the network-error taxonomy, as the
    /// dispatch path reports it: a wrapped network error passes through,
    /// anything else becomes an internal error carrying the rendered text.
    pub fn into_network_error(self) -> (r: NetworkError)
        ensures
            match self {
                TimeSyncError::NetworkError(e) => r == e,
                _ => (r matches NetworkError::InternalError(m) && m@ == self.spec_describe()),
            },
    {
        match self {
            TimeSyncError::NetworkError(e) => e,
            other => NetworkError::InternalError(other.describe()),
        }
    }
}

} // verus!
