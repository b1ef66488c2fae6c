use vstd::prelude::*;

verus! {

/// Errors of the XAP protocol layer.
#[derive(Debug, Clone, Copy, PartialEq, Eq, Structural)]
pub enum XapError {
    /// The report or payload ended before a field could be read completely.
    UnexpectedEndOfInput,
    /// A token field held a value outside of the ranges XAP assigns.
    InvalidToken(u16),
    /// A broadcast header named a broadcast type that XAP does not define.
    InvalidBroadcastType(u8),
    /// A string payload was not valid UTF-8.
    InvalidUtf8,
    /// The device refused a secure route because it is locked.
    SecureLocked,
    /// The response flags were neither plain success nor a secure failure.
    UnknownResponseFlags(u8),
    /// The response flags say that the device did not carry out the request.
    FailedTransaction,
    /// A request needs a newer XAP version than the device speaks.
    UnsupportedRequest { request_version: u32, device_version: u32 },
    /// A frame would not fit into a single HID report.
    ReportOverflow,
    /// The compressed configuration blob could not be inflated.
    Decompression,
    /// A number is not one of the BCD-encoded XAP versions.
    InvalidVersion(u32),
}

pub type XapResult<T> = Result<T, XapError>;

} // verus!
