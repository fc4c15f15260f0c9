//! The seekable byte stream that the parsers read, and a reader over bytes in
//! memory.

use crate::error::ErrorKind;
use vstd::prelude::*;

pub mod embedded;

verus! {

/// Where a seek goes: an absolute offset, or one relative to the end or to the cursor.
#[derive(Copy, Clone, Debug, PartialEq, Eq, Structural)]
pub enum SeekFrom {
    Start(u64),
    End(i64),
    Current(i64),
}

/// The offset that `pos` names in a stream of `len` bytes whose cursor is at `position`.
pub open spec fn seek_target(len: int, position: int, pos: SeekFrom) -> int {
    match pos {
        SeekFrom::Start(n) => n as int,
        SeekFrom::End(n) => len + n,
        SeekFrom::Current(n) => position + n,
    }
}

/// Whether `len` bytes can be read at `position` from a stream of `bytes_len`
/// bytes: they end at or before the stream's end. A read of no bytes takes
/// nothing from the stream and can be made anywhere.
pub open spec fn readable(bytes_len: int, position: int, len: int) -> bool {
    len == 0 || position + len <= bytes_len
}

/// A seekable stream of bytes with a cursor: exact-length reads, seeks, and a query
/// for the cursor. No operation changes the bytes.
///
/// A stream is *reliable* when its operations fail only for what its length and
/// cursor give: a read only where it would run past the end, a seek only where its
/// target is negative or beyond `u64::MAX`. A stream over a device may fail at any
/// time and is not reliable.
///
/// The three spec functions are the model in which the contracts are stated. A
/// reader that is written outside verified code cannot state them and inherits
/// bodies that say nothing of it; what is proved of the parsers then holds of
/// it as far as its reads and seeks behave, for the bytes that it serves, as
/// the contracts below say.
pub trait Reader {
    /// The bytes of the stream.
    open spec fn bytes(&self) -> Seq<u8> {
        Seq::empty()
    }

    /// The offset of the cursor.
    open spec fn position(&self) -> u64 {
        0
    }

    /// Whether the stream is reliable.
    open spec fn reliable(&self) -> bool {
        false
    }

    /// Moves the cursor to the offset that `pos` names and returns it.
    fn seek(&mut self, pos: SeekFrom) -> (r: Result<u64, ErrorKind>)
        ensures
            final(self).bytes() == old(self).bytes(),
            final(self).reliable() == old(self).reliable(),
            r matches Ok(p) ==> p == seek_target(
                old(self).bytes().len() as int,
                old(self).position() as int,
                pos,
            ) && final(self).position() == p,
            old(self).reliable() ==> (r is Ok <==> 0 <= seek_target(
                old(self).bytes().len() as int,
                old(self).position() as int,
                pos,
            ) <= u64::MAX),
            old(self).reliable() && r is Err ==> r == Err::<u64, ErrorKind>(ErrorKind::InvalidInput)
                && final(self).position() == old(self).position(),
    ;

    /// Fills `buf` with the bytes at the cursor and moves the cursor behind them.
    /// `UnexpectedEof` is reported only where the stream ends before `buf` is full.
    /// After a failure the cursor and the contents of `buf` are unspecified.
    fn read_exact(&mut self, buf: &mut Vec<u8>) -> (r: Result<(), ErrorKind>)
        ensures
            final(self).bytes() == old(self).bytes(),
            final(self).reliable() == old(self).reliable(),
            final(buf)@.len() == old(buf)@.len(),
            r is Ok ==> {
                &&& readable(
                    old(self).bytes().len() as int,
                    old(self).position() as int,
                    old(buf)@.len() as int,
                )
                &&& old(buf)@.len() > 0 ==> final(buf)@ == old(self).bytes().subrange(
                    old(self).position() as int,
                    old(self).position() + old(buf)@.len(),
                )
                &&& final(self).position() == old(self).position() + old(buf)@.len()
            },
            r == Err::<(), ErrorKind>(ErrorKind::UnexpectedEof) ==> !readable(
                old(self).bytes().len() as int,
                old(self).position() as int,
                old(buf)@.len() as int,
            ),
            old(self).reliable() ==> r is Ok || r == Err::<(), ErrorKind>(ErrorKind::UnexpectedEof),
            old(self).reliable() && readable(
                old(self).bytes().len() as int,
                old(self).position() as int,
                old(buf)@.len() as int,
            ) ==> r is Ok,
    ;

    /// The offset of the cursor.
    fn stream_position(&mut self) -> (r: Result<u64, ErrorKind>)
        ensures
            final(self).bytes() == old(self).bytes(),
            final(self).reliable() == old(self).reliable(),
            r matches Ok(p) ==> p == old(self).position() && final(self).position() == p,
            old(self).reliable() ==> r is Ok,
    ;
}

/// A reliable stream over bytes held in memory.
#[derive(Debug)]
pub struct SliceReader<'a> {
    data: &'a [u8],
    position: u64,
}

impl<'a> SliceReader<'a> {
    /// The bytes that the reader was made over.
    pub closed spec fn data(&self) -> Seq<u8> {
        self.data@
    }

    /// The reader's cursor.
    pub closed spec fn cursor(&self) -> u64 {
        self.position
    }

    /// A reader over `data` with its cursor at the start.
    pub fn new(data: &'a [u8]) -> (reader: SliceReader<'a>)
        ensures
            reader.data() == data@,
            reader.cursor() == 0,
    {
        SliceReader { data, position: 0 }
    }

    /// The bytes that the reader was made over.
    pub fn get_ref(&self) -> (data: &'a [u8])
        ensures
            data@ == self.data(),
    {
        self.data
    }

    /// Moves the cursor to the offset that `pos` names, if that offset is not
    /// negative and not beyond `u64::MAX`, and returns it. The cursor may stand
    /// behind the end of the bytes.
    pub fn seek_to(&mut self, pos: SeekFrom) -> (r: Option<u64>)
        ensures
            final(self).data() == old(self).data(),
            r is Some <==> 0 <= seek_target(
                old(self).data().len() as int,
                old(self).cursor() as int,
                pos,
            ) <= u64::MAX,
            r matches Some(p) ==> p == seek_target(
                old(self).data().len() as int,
                old(self).cursor() as int,
                pos,
            ) && final(self).cursor() == p,
            r is None ==> final(self).cursor() == old(self).cursor(),
    {
        let target = match pos {
            SeekFrom::Start(n) => Some(n),
            SeekFrom::End(n) => (self.data.len() as u64).checked_add_signed(n),
            SeekFrom::Current(n) => self.position.checked_add_signed(n),
        };
        match target {
            Some(p) => {
                self.position = p;
                Some(p)
            },
            None => None,
        }
    }

    /// Copies the bytes at the cursor into `buf` from index `from` on, as many
    /// as there are and `buf` has room for, moves the cursor behind them and
    /// returns their number.
    pub fn read_some(&mut self, buf: &mut Vec<u8>, from: usize) -> (n: usize)
        ensures
            final(self).data() == old(self).data(),
            final(buf)@.len() == old(buf)@.len(),
            final(self).cursor() == old(self).cursor() + n,
            n == spec_available(
                old(self).data().len() as int,
                old(self).cursor() as int,
                old(buf)@.len() - from,
            ),
            forall|i: int|
                0 <= i < old(buf)@.len() ==> #[trigger] final(buf)@[i] == if from <= i < from + n {
                    old(self).data()[old(self).cursor() + i - from]
                } else {
                    old(buf)@[i]
                },
    {
        let len = self.data.len();
        if from >= buf.len() || self.position >= len as u64 {
            return 0;
        }
        let room = buf.len() - from;
        let start = self.position as usize;
        let n = if room < len - start {
            room
        } else {
            len - start
        };
        let mut i: usize = 0;
        while i < n
            invariant
                i <= n,
                from + n <= buf@.len() <= usize::MAX,
                buf@.len() == old(buf)@.len(),
                start + n <= self.data@.len() <= usize::MAX,
                forall|j: int|
                    0 <= j < buf@.len() ==> #[trigger] buf@[j] == if from <= j < from + i {
                        self.data@[start + j - from]
                    } else {
                        old(buf)@[j]
                    },
            decreases n - i,
        {
            buf[from + i] = self.data[start + i];
            i += 1;
        }
        self.position = self.position + n as u64;
        n
    }
}

/// The number of bytes that a read takes from a stream of `len` bytes with its
/// cursor at `position` into a buffer with room for `room`: as many as are there
/// and fit.
pub open spec fn spec_available(len: int, position: int, room: int) -> int {
    if position >= len || room <= 0 {
        0
    } else if room < len - position {
        room
    } else {
        len - position
    }
}

impl<'a> Reader for SliceReader<'a> {
    open spec fn bytes(&self) -> Seq<u8> {
        self.data()
    }

    open spec fn position(&self) -> u64 {
        self.cursor()
    }

    open spec fn reliable(&self) -> bool {
        true
    }

    fn seek(&mut self, pos: SeekFrom) -> (r: Result<u64, ErrorKind>) {
        match self.seek_to(pos) {
            Some(p) => Ok(p),
            None => Err(ErrorKind::InvalidInput),
        }
    }

    /// Where the bytes end before `buf` is full, nothing is read and the cursor
    /// stays.
    fn read_exact(&mut self, buf: &mut Vec<u8>) -> (r: Result<(), ErrorKind>) {
        let wanted = buf.len();
        let len = self.data.len();
        if wanted == 0 {
            return Ok(());
        }
        if self.position > len as u64 || wanted > len - self.position as usize {
            return Err(ErrorKind::UnexpectedEof);
        }
        self.read_some(buf, 0);
        Ok(())
    }

    fn stream_position(&mut self) -> (r: Result<u64, ErrorKind>) {
        Ok(self.position)
    }
}

} // verus!
