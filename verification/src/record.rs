//! Records of fixed layout that are decoded from the stream at the cursor.

use crate::error::{settles, ErrorKind, ParseError};
use crate::io::Reader;
use vstd::prelude::*;

verus! {

/// A record of `len` bytes at `at`: `value` where the bytes reach that far, else
/// `UnexpectedEof`.
pub open spec fn fixed<T>(bytes: Seq<u8>, at: int, len: int, value: T) -> Result<T, ParseError> {
    if at + len <= bytes.len() {
        Ok(value)
    } else {
        Err(ParseError::Io(ErrorKind::UnexpectedEof))
    }
}

/// A value with a little-endian layout in the stream.
pub trait Record: Sized {
    /// What the bytes of a stream decode to at offset `at`.
    spec fn parse(bytes: Seq<u8>, at: int) -> Result<Self, ParseError>;

    /// Decodes one value at the cursor.
    fn read<R: Reader>(reader: &mut R) -> (r: Result<Self, ParseError>)
        ensures
            final(reader).bytes() == old(reader).bytes(),
            final(reader).reliable() == old(reader).reliable(),
            settles(
                old(reader).reliable(),
                r,
                Self::parse(old(reader).bytes(), old(reader).position() as int),
            ),
    ;
}

/// The `len` bytes of `bytes` that begin at `at`, or `UnexpectedEof` where the
/// bytes end before them. No bytes can be had anywhere.
pub open spec fn block_at(bytes: Seq<u8>, at: int, len: int) -> Result<Seq<u8>, ParseError> {
    if len == 0 {
        Ok(Seq::empty())
    } else if at + len <= bytes.len() {
        Ok(bytes.subrange(at, at + len))
    } else {
        Err(ParseError::Io(ErrorKind::UnexpectedEof))
    }
}

/// Reads the `len` bytes at the cursor and moves the cursor behind them.
pub fn read_block<R: Reader>(reader: &mut R, len: usize) -> (r: Result<Vec<u8>, ParseError>)
    ensures
        final(reader).bytes() == old(reader).bytes(),
        final(reader).reliable() == old(reader).reliable(),
        settles(
            old(reader).reliable(),
            match r {
                Ok(block) => Ok(block@),
                Err(e) => Err(e),
            },
            block_at(old(reader).bytes(), old(reader).position() as int, len as int),
        ),
        r is Ok ==> final(reader).position() == old(reader).position() + len,
        r == Err::<Vec<u8>, ParseError>(ParseError::Io(ErrorKind::UnexpectedEof)) ==> block_at(
            old(reader).bytes(),
            old(reader).position() as int,
            len as int,
        ) is Err,
{
    let mut block: Vec<u8> = vec![0u8; len];
    match reader.read_exact(&mut block) {
        Ok(()) => {
            assert(len == 0 ==> block@ =~= Seq::empty());
            Ok(block)
        },
        Err(e) => Err(ParseError::Io(e)),
    }
}

} // verus!
