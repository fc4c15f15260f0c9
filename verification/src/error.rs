//! The ways in which reading a container fails.

use crate::fourcc::Fourcc;
use vstd::prelude::*;

verus! {

/// Why a byte transport refused a read or a seek.
#[derive(Copy, Clone, Debug, PartialEq, Eq, Structural)]
pub enum ErrorKind {
    NotFound,
    PermissionDenied,
    ConnectionRefused,
    ConnectionReset,
    ConnectionAborted,
    NotConnected,
    AddrInUse,
    AddrNotAvailable,
    BrokenPipe,
    AlreadyExists,
    InvalidInput,
    InvalidData,
    TimedOut,
    Interrupted,
    WriteZero,
    UnexpectedEof,
    Other,
}

/// Why an operation on a container stopped. Every error ends the operation that
/// raised it; nothing is retried.
#[derive(Copy, Clone, Debug, PartialEq, Eq, Structural)]
pub enum ParseError {
    /// The transport failed; its kind is handed on unchanged.
    Io(ErrorKind),
    /// The outer magic is not `RIFF`, an outer header stands inside a list, or
    /// a child declares more data than its list holds. `pos` is 0 for the outer
    /// header, and for a header inside a list the offset just behind it.
    Malformed { pos: u64 },
    /// A list ended where a required child had to start; `pos` is that offset.
    UnexpectedEnd { pos: u64 },
    /// A node stands where one tagged `tag` was required; `pos` is the offset at
    /// which the data of the node that was found begins.
    Missing { pos: u64, tag: Fourcc },
    /// A buffer of `actual` bytes was offered for a payload of `expected` bytes
    /// that begins at `pos`.
    SizeMismatch { pos: u64, expected: u32, actual: usize },
    /// The audio format block at `pos` opens with a tag that names no known format.
    UnknownFormat { pos: u64, format: u16 },
}

/// How the result `got` of an operation on a stream relates to `model`, the
/// result that the stream's bytes determine: they are equal, unless the
/// transport is not reliable and failed on its own account.
pub open spec fn settles<T>(
    reliable: bool,
    got: Result<T, ParseError>,
    model: Result<T, ParseError>,
) -> bool {
    got == model || (!reliable && got is Err && got->Err_0 is Io)
}

/// The same relation for one step of a lazy sequence, which may also be at its end.
pub open spec fn settles_next<T>(
    reliable: bool,
    got: Option<Result<T, ParseError>>,
    model: Option<Result<T, ParseError>>,
) -> bool {
    got == model || (!reliable && got matches Some(Err(ParseError::Io(_))))
}

} // verus!
