use riffparse::error::{ErrorKind, ParseError};
use riffparse::io::embedded::{
    map_kind, map_seek, EmbeddedAdapter, EmbeddedErrorKind, EmbeddedReader, EmbeddedSeekFrom,
};
use riffparse::io::{Reader, SeekFrom, SliceReader};
use riffparse::riff::RiffParser;

#[test]
fn embedded_error_kinds_keep_their_name() {
    assert_eq!(map_kind(EmbeddedErrorKind::NotFound), ErrorKind::NotFound);
    assert_eq!(map_kind(EmbeddedErrorKind::PermissionDenied), ErrorKind::PermissionDenied);
    assert_eq!(map_kind(EmbeddedErrorKind::ConnectionRefused), ErrorKind::ConnectionRefused);
    assert_eq!(map_kind(EmbeddedErrorKind::ConnectionReset), ErrorKind::ConnectionReset);
    assert_eq!(map_kind(EmbeddedErrorKind::ConnectionAborted), ErrorKind::ConnectionAborted);
    assert_eq!(map_kind(EmbeddedErrorKind::NotConnected), ErrorKind::NotConnected);
    assert_eq!(map_kind(EmbeddedErrorKind::AddrInUse), ErrorKind::AddrInUse);
    assert_eq!(map_kind(EmbeddedErrorKind::AddrNotAvailable), ErrorKind::AddrNotAvailable);
    assert_eq!(map_kind(EmbeddedErrorKind::BrokenPipe), ErrorKind::BrokenPipe);
    assert_eq!(map_kind(EmbeddedErrorKind::AlreadyExists), ErrorKind::AlreadyExists);
    assert_eq!(map_kind(EmbeddedErrorKind::InvalidInput), ErrorKind::InvalidInput);
    assert_eq!(map_kind(EmbeddedErrorKind::InvalidData), ErrorKind::InvalidData);
    assert_eq!(map_kind(EmbeddedErrorKind::TimedOut), ErrorKind::TimedOut);
    assert_eq!(map_kind(EmbeddedErrorKind::Interrupted), ErrorKind::Interrupted);
    assert_eq!(map_kind(EmbeddedErrorKind::WriteZero), ErrorKind::WriteZero);
}

#[test]
fn embedded_error_kinds_without_a_counterpart_become_other() {
    assert_eq!(map_kind(EmbeddedErrorKind::Unsupported), ErrorKind::Other);
    assert_eq!(map_kind(EmbeddedErrorKind::OutOfMemory), ErrorKind::Other);
    assert_eq!(map_kind(EmbeddedErrorKind::Other), ErrorKind::Other);
}

#[test]
fn seeks_are_handed_to_the_embedded_stream_as_they_are() {
    assert_eq!(map_seek(SeekFrom::Start(7)), EmbeddedSeekFrom::Start(7));
    assert_eq!(map_seek(SeekFrom::End(-7)), EmbeddedSeekFrom::End(-7));
    assert_eq!(map_seek(SeekFrom::Current(i64::MAX)), EmbeddedSeekFrom::Current(i64::MAX));
}

/// An embedded stream that hands out at most `step` bytes per read and fails
/// with `fail` once `budget` reads were made.
struct Trickle {
    data: Vec<u8>,
    pos: usize,
    step: usize,
    budget: usize,
    fail: EmbeddedErrorKind,
}

impl EmbeddedReader for Trickle {
    fn read(&mut self, buf: &mut Vec<u8>, from: usize) -> Result<usize, EmbeddedErrorKind> {
        if self.budget == 0 {
            return Err(self.fail);
        }
        self.budget -= 1;
        let left = self.data.len().saturating_sub(self.pos);
        let n = left.min(buf.len() - from).min(self.step);
        buf[from..from + n].copy_from_slice(&self.data[self.pos..self.pos + n]);
        self.pos += n;
        Ok(n)
    }

    fn seek(&mut self, pos: EmbeddedSeekFrom) -> Result<u64, EmbeddedErrorKind> {
        let target = match pos {
            EmbeddedSeekFrom::Start(n) => n as i128,
            EmbeddedSeekFrom::End(n) => self.data.len() as i128 + n as i128,
            EmbeddedSeekFrom::Current(n) => self.pos as i128 + n as i128,
        };
        if target < 0 {
            return Err(EmbeddedErrorKind::InvalidInput);
        }
        self.pos = target as usize;
        Ok(target as u64)
    }
}

fn trickle(data: &[u8], step: usize, budget: usize, fail: EmbeddedErrorKind) -> Trickle {
    Trickle { data: data.to_vec(), pos: 0, step, budget, fail }
}

#[test]
fn the_adapter_reads_until_the_buffer_is_full() {
    let data: Vec<u8> = (0u8..20).collect();
    let mut adapter = EmbeddedAdapter::new(trickle(&data, 3, 1000, EmbeddedErrorKind::Other));
    let mut buf = vec![0u8; 8];
    assert_eq!(adapter.read_exact(&mut buf), Ok(()));
    assert_eq!(buf, (0u8..8).collect::<Vec<u8>>());
    assert_eq!(adapter.stream_position(), Ok(8));
    assert_eq!(adapter.seek(SeekFrom::Current(2)), Ok(10));
    assert_eq!(adapter.seek(SeekFrom::End(-9)), Ok(11));
    assert_eq!(adapter.read_exact(&mut buf), Ok(()));
    assert_eq!(buf, (11u8..19).collect::<Vec<u8>>());
    assert_eq!(adapter.read_exact(&mut buf), Err(ErrorKind::UnexpectedEof));
    let mut none: Vec<u8> = Vec::new();
    assert_eq!(adapter.read_exact(&mut none), Ok(()));
    assert_eq!(adapter.seek(SeekFrom::Current(-100)), Err(ErrorKind::InvalidInput));
}

#[test]
fn the_adapter_hands_on_the_kind_of_a_failure() {
    let data: Vec<u8> = (0u8..20).collect();
    let mut adapter = EmbeddedAdapter::from(trickle(&data, 3, 2, EmbeddedErrorKind::TimedOut));
    let mut buf = vec![0u8; 8];
    assert_eq!(adapter.read_exact(&mut buf), Err(ErrorKind::TimedOut));
    let mut adapter = EmbeddedAdapter::from(trickle(&data, 3, 0, EmbeddedErrorKind::OutOfMemory));
    assert_eq!(adapter.read_exact(&mut buf), Err(ErrorKind::Other));
    let mut adapter = EmbeddedAdapter::from(trickle(&data, 3, 1, EmbeddedErrorKind::Interrupted));
    assert_eq!(adapter.read_exact(&mut buf), Err(ErrorKind::Interrupted));
    let mut parser = RiffParser::new(EmbeddedAdapter::new(trickle(
        b"RIFF\x04\0\0\0TEST",
        5,
        1,
        EmbeddedErrorKind::Unsupported,
    )));
    assert_eq!(parser.riff(), Err(ParseError::Io(ErrorKind::Other)));
}

#[test]
fn a_slice_reader_is_an_embedded_stream_too() {
    let data = b"RIFF\x0e\0\0\0TESTabcd\x01\0\0\0\x07\0";
    let mut parser = RiffParser::new(EmbeddedAdapter::new(SliceReader::new(data)));
    let root = parser.riff().unwrap();
    let nodes = root.iter().collect(&mut parser.reader).unwrap();
    assert_eq!(nodes.len(), 1);
    assert_eq!(nodes[0].next_offset(), 22);
    let mut inner = parser.reader.0;
    assert_eq!(EmbeddedReader::seek(&mut inner, EmbeddedSeekFrom::End(-2)), Ok(20));
    let mut buf = vec![0u8; 4];
    assert_eq!(EmbeddedReader::read(&mut inner, &mut buf, 1), Ok(2));
    assert_eq!(buf, vec![0, 7, 0, 0]);
    assert_eq!(EmbeddedReader::read(&mut inner, &mut buf, 1), Ok(0));
    assert_eq!(
        EmbeddedReader::seek(&mut inner, EmbeddedSeekFrom::Current(-23)),
        Err(EmbeddedErrorKind::InvalidInput)
    );
}
