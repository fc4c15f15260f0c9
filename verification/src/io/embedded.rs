//! The minimal byte stream of an embedded target, and the adapter that makes
//! one a stream that the parsers read.

use crate::error::ErrorKind;
use crate::io::{Reader, SeekFrom, SliceReader};
use vstd::prelude::*;

verus! {

/// Why a minimal embedded transport refused an operation.
#[derive(Copy, Clone, Debug, PartialEq, Eq, Structural)]
pub enum EmbeddedErrorKind {
    Other,
    NotFound,
    PermissionDenied,
    ConnectionRefused,
    ConnectionReset,
    ConnectionAborted,
    NotConnected,
    AddrInUse,
    AddrNotAvailable,
    BrokenPipe,
    AlreadyExists,
    InvalidInput,
    InvalidData,
    TimedOut,
    Interrupted,
    Unsupported,
    OutOfMemory,
    WriteZero,
}

/// The kind under which an embedded transport's error is handed on: the kind of
/// the same name, and `Other` for the two that have none.
pub open spec fn spec_map_kind(kind: EmbeddedErrorKind) -> ErrorKind {
    match kind {
        EmbeddedErrorKind::NotFound => ErrorKind::NotFound,
        EmbeddedErrorKind::PermissionDenied => ErrorKind::PermissionDenied,
        EmbeddedErrorKind::ConnectionRefused => ErrorKind::ConnectionRefused,
        EmbeddedErrorKind::ConnectionReset => ErrorKind::ConnectionReset,
        EmbeddedErrorKind::ConnectionAborted => ErrorKind::ConnectionAborted,
        EmbeddedErrorKind::NotConnected => ErrorKind::NotConnected,
        EmbeddedErrorKind::AddrInUse => ErrorKind::AddrInUse,
        EmbeddedErrorKind::AddrNotAvailable => ErrorKind::AddrNotAvailable,
        EmbeddedErrorKind::BrokenPipe => ErrorKind::BrokenPipe,
        EmbeddedErrorKind::AlreadyExists => ErrorKind::AlreadyExists,
        EmbeddedErrorKind::InvalidInput => ErrorKind::InvalidInput,
        EmbeddedErrorKind::InvalidData => ErrorKind::InvalidData,
        EmbeddedErrorKind::TimedOut => ErrorKind::TimedOut,
        EmbeddedErrorKind::Interrupted => ErrorKind::Interrupted,
        EmbeddedErrorKind::WriteZero => ErrorKind::WriteZero,
        EmbeddedErrorKind::Unsupported | EmbeddedErrorKind::OutOfMemory
        | EmbeddedErrorKind::Other => ErrorKind::Other,
    }
}

/// Maps the error kind of an embedded transport to the kind that the parsers report.
#[verifier::when_used_as_spec(spec_map_kind)]
pub fn map_kind(kind: EmbeddedErrorKind) -> (mapped: ErrorKind)
    ensures
        mapped == spec_map_kind(kind),
{
    match kind {
        EmbeddedErrorKind::NotFound => ErrorKind::NotFound,
        EmbeddedErrorKind::PermissionDenied => ErrorKind::PermissionDenied,
        EmbeddedErrorKind::ConnectionRefused => ErrorKind::ConnectionRefused,
        EmbeddedErrorKind::ConnectionReset => ErrorKind::ConnectionReset,
        EmbeddedErrorKind::ConnectionAborted => ErrorKind::ConnectionAborted,
        EmbeddedErrorKind::NotConnected => ErrorKind::NotConnected,
        EmbeddedErrorKind::AddrInUse => ErrorKind::AddrInUse,
        EmbeddedErrorKind::AddrNotAvailable => ErrorKind::AddrNotAvailable,
        EmbeddedErrorKind::BrokenPipe => ErrorKind::BrokenPipe,
        EmbeddedErrorKind::AlreadyExists => ErrorKind::AlreadyExists,
        EmbeddedErrorKind::InvalidInput => ErrorKind::InvalidInput,
        EmbeddedErrorKind::InvalidData => ErrorKind::InvalidData,
        EmbeddedErrorKind::TimedOut => ErrorKind::TimedOut,
        EmbeddedErrorKind::Interrupted => ErrorKind::Interrupted,
        EmbeddedErrorKind::Unsupported => ErrorKind::Other,
        EmbeddedErrorKind::OutOfMemory => ErrorKind::Other,
        EmbeddedErrorKind::WriteZero => ErrorKind::WriteZero,
        EmbeddedErrorKind::Other => ErrorKind::Other,
    }
}

/// Where a seek of an embedded stream goes.
#[derive(Copy, Clone, Debug, PartialEq, Eq, Structural)]
pub enum EmbeddedSeekFrom {
    Start(u64),
    End(i64),
    Current(i64),
}

/// The embedded stream's name for the place that `pos` names.
pub open spec fn spec_map_seek(pos: SeekFrom) -> EmbeddedSeekFrom {
    match pos {
        SeekFrom::Start(n) => EmbeddedSeekFrom::Start(n),
        SeekFrom::End(n) => EmbeddedSeekFrom::End(n),
        SeekFrom::Current(n) => EmbeddedSeekFrom::Current(n),
    }
}

/// Maps the place of a seek to the embedded stream's name for it.
#[verifier::when_used_as_spec(spec_map_seek)]
pub fn map_seek(pos: SeekFrom) -> (mapped: EmbeddedSeekFrom)
    ensures
        mapped == spec_map_seek(pos),
{
    match pos {
        SeekFrom::Start(n) => EmbeddedSeekFrom::Start(n),
        SeekFrom::End(n) => EmbeddedSeekFrom::End(n),
        SeekFrom::Current(n) => EmbeddedSeekFrom::Current(n),
    }
}

/// The offset that `pos` names in a stream of `len` bytes whose cursor is at `position`.
pub open spec fn embedded_seek_target(len: int, position: int, pos: EmbeddedSeekFrom) -> int {
    match pos {
        EmbeddedSeekFrom::Start(n) => n as int,
        EmbeddedSeekFrom::End(n) => len + n,
        EmbeddedSeekFrom::Current(n) => position + n,
    }
}

/// The byte stream of an embedded target: reads that may be short, and seeks.
/// The model is that of [`Reader`], and so is what is said there of readers
/// that are written outside verified code.
pub trait EmbeddedReader {
    /// The bytes of the stream.
    open spec fn bytes(&self) -> Seq<u8> {
        Seq::empty()
    }

    /// The offset of the cursor.
    open spec fn position(&self) -> u64 {
        0
    }

    /// Whether the stream is reliable.
    open spec fn reliable(&self) -> bool {
        false
    }

    /// Reads bytes at the cursor into `buf` from index `from` on, as many as the
    /// stream has at hand and `buf` has room for, and returns their number. The
    /// number is 0 only where `buf` is full or the stream is at its end.
    fn read(&mut self, buf: &mut Vec<u8>, from: usize) -> (r: Result<usize, EmbeddedErrorKind>)
        ensures
            final(self).bytes() == old(self).bytes(),
            final(self).reliable() == old(self).reliable(),
            final(buf)@.len() == old(buf)@.len(),
            r matches Ok(n) ==> {
                &&& n > 0 ==> from + n <= old(buf)@.len() && old(self).position() + n <= old(
                    self,
                ).bytes().len()
                &&& final(self).position() == old(self).position() + n
                &&& n == 0 ==> from >= old(buf)@.len() || old(self).position() >= old(
                    self,
                ).bytes().len()
                &&& forall|i: int|
                    0 <= i < old(buf)@.len() ==> #[trigger] final(buf)@[i] == if from <= i < from
                        + n {
                        old(self).bytes()[old(self).position() + i - from]
                    } else {
                        old(buf)@[i]
                    }
            },
            old(self).reliable() ==> r is Ok,
    ;

    /// Moves the cursor to the offset that `pos` names and returns it.
    fn seek(&mut self, pos: EmbeddedSeekFrom) -> (r: Result<u64, EmbeddedErrorKind>)
        ensures
            final(self).bytes() == old(self).bytes(),
            final(self).reliable() == old(self).reliable(),
            r matches Ok(p) ==> p == embedded_seek_target(
                old(self).bytes().len() as int,
                old(self).position() as int,
                pos,
            ) && final(self).position() == p,
            old(self).reliable() ==> (r is Ok <==> 0 <= embedded_seek_target(
                old(self).bytes().len() as int,
                old(self).position() as int,
                pos,
            ) <= u64::MAX),
            old(self).reliable() && r is Err ==> r == Err::<u64, EmbeddedErrorKind>(
                EmbeddedErrorKind::InvalidInput,
            ) && final(self).position() == old(self).position(),
    ;
}

/// An embedded stream as a stream that the parsers read. Errors keep their kind
/// as far as [`map_kind`] has one for it.
#[derive(Debug)]
pub struct EmbeddedAdapter<T>(pub T);

impl<T> EmbeddedAdapter<T> {
    /// The adapter of `inner`.
    pub fn new(inner: T) -> (adapter: EmbeddedAdapter<T>)
        ensures
            adapter.0 == inner,
    {
        EmbeddedAdapter(inner)
    }
}

impl<T> From<T> for EmbeddedAdapter<T> {
    fn from(inner: T) -> (adapter: EmbeddedAdapter<T>) {
        EmbeddedAdapter(inner)
    }
}

impl<T> vstd::std_specs::convert::FromSpecImpl<T> for EmbeddedAdapter<T> {
    open spec fn obeys_from_spec() -> bool {
        true
    }

    open spec fn from_spec(inner: T) -> EmbeddedAdapter<T> {
        EmbeddedAdapter(inner)
    }
}

impl<T: EmbeddedReader> Reader for EmbeddedAdapter<T> {
    open spec fn bytes(&self) -> Seq<u8> {
        self.0.bytes()
    }

    open spec fn position(&self) -> u64 {
        self.0.position()
    }

    open spec fn reliable(&self) -> bool {
        self.0.reliable()
    }

    fn seek(&mut self, pos: SeekFrom) -> (r: Result<u64, ErrorKind>) {
        match self.0.seek(map_seek(pos)) {
            Ok(p) => Ok(p),
            Err(e) => Err(map_kind(e)),
        }
    }

    /// Reads until `buf` is full. A read that gives no byte before that is the
    /// end of the stream; an error of the stream ends the reading and is not
    /// retried.
    fn read_exact(&mut self, buf: &mut Vec<u8>) -> (r: Result<(), ErrorKind>) {
        let mut filled: usize = 0;
        while filled < buf.len()
            invariant
                filled <= buf@.len(),
                buf@.len() == old(buf)@.len(),
                self.0.bytes() == old(self).0.bytes(),
                self.0.reliable() == old(self).0.reliable(),
                self.0.position() == old(self).0.position() + filled,
                filled > 0 ==> old(self).0.position() + filled <= self.0.bytes().len(),
                forall|i: int|
                    0 <= i < filled ==> #[trigger] buf@[i] == self.0.bytes()[old(
                        self,
                    ).0.position() + i],
            decreases buf@.len() - filled,
        {
            match self.0.read(buf, filled) {
                Ok(n) => {
                    if n == 0 {
                        return Err(ErrorKind::UnexpectedEof);
                    }
                    filled = filled + n;
                },
                Err(e) => {
                    return Err(map_kind(e));
                },
            }
        }
        Ok(())
    }

    fn stream_position(&mut self) -> (r: Result<u64, ErrorKind>) {
        match self.0.seek(EmbeddedSeekFrom::Current(0)) {
            Ok(p) => Ok(p),
            Err(e) => Err(map_kind(e)),
        }
    }
}

impl<'a> EmbeddedReader for SliceReader<'a> {
    open spec fn bytes(&self) -> Seq<u8> {
        self.data()
    }

    open spec fn position(&self) -> u64 {
        self.cursor()
    }

    open spec fn reliable(&self) -> bool {
        true
    }

    fn read(&mut self, buf: &mut Vec<u8>, from: usize) -> (r: Result<usize, EmbeddedErrorKind>) {
        Ok(self.read_some(buf, from))
    }

    fn seek(&mut self, pos: EmbeddedSeekFrom) -> (r: Result<u64, EmbeddedErrorKind>) {
        let target = match pos {
            EmbeddedSeekFrom::Start(n) => SeekFrom::Start(n),
            EmbeddedSeekFrom::End(n) => SeekFrom::End(n),
            EmbeddedSeekFrom::Current(n) => SeekFrom::Current(n),
        };
        match self.seek_to(target) {
            Some(p) => Ok(p),
            None => Err(EmbeddedErrorKind::InvalidInput),
        }
    }
}

} // verus!
