//! The errors that the protocol engine reports.

use vstd::prelude::*;

verus! {

/// The kind of an I/O failure, as the standard library classifies it. The
/// engine only carries such a value from the transport to the caller.
#[verifier::external_type_specification]
#[verifier::external_body]
pub struct ExIoErrorKind(std::io::ErrorKind);

/// Errors returned from various operations.
#[derive(Clone, Copy, Debug, PartialEq, Eq)]
pub enum Error {
    /// The underlying byte stream failed.
    IoError(std::io::ErrorKind),
    /// A frame was parsed but carried a negative acknowledgement; its bytes
    /// have been consumed.
    NotAcknowledged,
    /// No frame layout matches the bytes.
    Parse,
    /// An operation took too long to complete.
    Timeout,
    /// A reply of the wrong kind was received where a specific one was required.
    UnexpectedResponse,
    /// A textual address is not of the form `xx.xx.xx`.
    InvalidAddress,
    /// The stream ended, or the loop that owns it has exited.
    Disconnected,
}

} // verus!
