//! Error taxonomy of the client core.

use vstd::prelude::*;

verus! {

/// The kinds of failure a façade operation or the I/O actor can report.
#[derive(Clone, Copy, Debug, PartialEq, Eq, Structural)]
pub enum Error {
    /// The actor has exited, or the state is not Connected when one is
    /// required.
    Disconnected,
    /// An expected response did not arrive within the operation timeout.
    Timeout,
    /// The CONNACK return code was not Accepted; carries that code.
    ProtocolRejected(u8),
    /// A response arrived whose type or PID does not match the expected
    /// response, or an unsupported feature was requested (e.g. QoS 2).
    ProtocolViolation,
    /// The PID pool has no free identifier, or a double-free was detected.
    PidExhausted,
    /// An underlying network, TLS or codec error.
    Io,
    /// The configuration is unusable (e.g. the host string is not a valid
    /// DNS name when TLS is required).
    ConfigInvalid,
    /// `connect` was called while already connected.
    AlreadyConnected,
}

} // verus!
