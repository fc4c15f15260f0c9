//! The RIFF tree: headers, nodes, and the lazy walk over a list's children.
//!
//! A node is a header and the offset at which its data begins. The stream is
//! handed to every operation by exclusive reference, and every operation seeks
//! before it reads, so walks at different depths can share one stream.
//!
//! A walk yields a child only where the child's data and pad byte end at or
//! before the end of the list's data. On every stream, a child that declares
//! more than its list holds is the error of a malformed container.

use crate::codec::{read_u32, u32_at};
use crate::error::{settles, settles_next, ErrorKind, ParseError};
use crate::fourcc::tag::{LIST, RIFF};
use crate::fourcc::Fourcc;
use crate::io::{Reader, SeekFrom};
use crate::record::Record;
use crate::riff::walk::{followed_by, lemma_gather_nodes, walk, walk_end};
use vstd::prelude::*;

pub mod walk;

verus! {

/// The header of a leaf: its id and the byte count of its payload.
#[derive(Copy, Clone, Debug, PartialEq, Eq, Structural)]
pub struct ChunkHeader {
    pub chunk_id: Fourcc,
    pub size: u32,
}

/// The header of a group: its byte count, which includes the 4-byte list type,
/// and the list type.
#[derive(Copy, Clone, Debug, PartialEq, Eq, Structural)]
pub struct ListHeader {
    pub size: u32,
    pub list_id: Fourcc,
}

/// One header as it stands in the stream: the outer `RIFF` header, a `LIST`
/// header, or the header of a leaf.
#[derive(Copy, Clone, Debug, PartialEq, Eq, Structural)]
pub enum Header {
    Riff(ListHeader),
    List(ListHeader),
    Chunk(ChunkHeader),
}

/// Where a node's data begins in the stream.
#[derive(Copy, Clone, Debug, PartialEq, Eq, Structural)]
pub struct Metadata {
    pub data_start: u64,
}

/// A leaf node.
#[derive(Copy, Clone, Debug, PartialEq, Eq, Structural)]
pub struct Chunk {
    pub header: ChunkHeader,
    pub metadata: Metadata,
}

/// A group node, whose data is a sequence of child nodes.
#[derive(Copy, Clone, Debug, PartialEq, Eq, Structural)]
pub struct List {
    pub header: ListHeader,
    pub metadata: Metadata,
}

/// A node of either kind.
#[derive(Copy, Clone, Debug, PartialEq, Eq, Structural)]
pub enum ChunkType {
    List(List),
    Chunk(Chunk),
}

/// An offset, held at `u64::MAX` where it would pass it. Where a header declares
/// more data than offsets can address, what is behind the data is out of reach
/// of any walk.
pub open spec fn clip(offset: int) -> u64 {
    if offset > u64::MAX {
        u64::MAX
    } else {
        offset as u64
    }
}

/// The number of pad bytes behind `data_size` bytes of data: one if the count is odd.
pub open spec fn pad_of(data_size: u32) -> u32 {
    (data_size % 2) as u32
}

/// The offset at which `data_size` bytes of data that begin at `data_start` end.
pub open spec fn data_end(data_start: u64, data_size: u32) -> u64 {
    clip(data_start + data_size)
}

/// The offset of the sibling that follows a node with `data_size` bytes of data
/// at `data_start`: behind the data and its pad byte.
pub open spec fn sibling_offset(data_start: u64, data_size: u32) -> u64 {
    clip(data_start + data_size + pad_of(data_size))
}

/// The tag whose four bytes start at `at`.
pub open spec fn tag_at(bytes: Seq<u8>, at: int) -> Fourcc {
    Fourcc(u32_at(bytes, at))
}

impl Header {
    /// The number of bytes that the header takes in the stream.
    pub open spec fn spec_len(self) -> int {
        match self {
            Header::Chunk(_) => 8,
            _ => 12,
        }
    }

    /// The node's id: the list type of a group, the chunk id of a leaf.
    pub open spec fn spec_id(self) -> Fourcc {
        match self {
            Header::Riff(h) => h.list_id,
            Header::List(h) => h.list_id,
            Header::Chunk(h) => h.chunk_id,
        }
    }

    /// The declared size.
    pub open spec fn spec_size(self) -> u32 {
        match self {
            Header::Riff(h) => h.size,
            Header::List(h) => h.size,
            Header::Chunk(h) => h.size,
        }
    }

    /// The node's id: the list type of a group, the chunk id of a leaf.
    pub fn id(&self) -> (id: Fourcc)
        ensures
            id == self.spec_id(),
    {
        match self {
            Header::Riff(h) => h.list_id,
            Header::List(h) => h.list_id,
            Header::Chunk(h) => h.chunk_id,
        }
    }

    /// The declared size.
    pub fn size(&self) -> (size: u32)
        ensures
            size == self.spec_size(),
    {
        match self {
            Header::Riff(h) => h.size,
            Header::List(h) => h.size,
            Header::Chunk(h) => h.size,
        }
    }
}

/// The header that stands at `pos`. Its first four bytes decide its shape: after
/// `RIFF` or `LIST` come a size and a list type, after any other tag a size. A
/// stream that ends inside the header gives `UnexpectedEof`.
pub open spec fn header_at(bytes: Seq<u8>, pos: int) -> Result<Header, ParseError> {
    if pos + 8 > bytes.len() {
        Err(ParseError::Io(ErrorKind::UnexpectedEof))
    } else if tag_at(bytes, pos) == Fourcc(RIFF) || tag_at(bytes, pos) == Fourcc(LIST) {
        if pos + 12 > bytes.len() {
            Err(ParseError::Io(ErrorKind::UnexpectedEof))
        } else {
            let header = ListHeader {
                size: u32_at(bytes, pos + 4),
                list_id: tag_at(bytes, pos + 8),
            };
            if tag_at(bytes, pos) == Fourcc(RIFF) {
                Ok(Header::Riff(header))
            } else {
                Ok(Header::List(header))
            }
        }
    } else {
        Ok(
            Header::Chunk(
                ChunkHeader { chunk_id: tag_at(bytes, pos), size: u32_at(bytes, pos + 4) },
            ),
        )
    }
}

/// Decodes the header with which `bytes` begin.
pub fn decode_header(bytes: &[u8]) -> (r: Result<Header, ParseError>)
    ensures
        r == header_at(bytes@, 0),
{
    let (id, size) = match (read_u32(bytes, 0), read_u32(bytes, 4)) {
        (Some(id), Some(size)) => (Fourcc(id), size),
        _ => {
            return Err(ParseError::Io(ErrorKind::UnexpectedEof));
        },
    };
    if id.0 == RIFF || id.0 == LIST {
        match read_u32(bytes, 8) {
            None => Err(ParseError::Io(ErrorKind::UnexpectedEof)),
            Some(list_type) => {
                let header = ListHeader { size, list_id: Fourcc(list_type) };
                if id.0 == RIFF {
                    Ok(Header::Riff(header))
                } else {
                    Ok(Header::List(header))
                }
            },
        }
    } else {
        Ok(Header::Chunk(ChunkHeader { chunk_id: id, size }))
    }
}

/// Whether the header that begins with the eight bytes `head` goes on with a list type.
pub fn opens_group(head: &[u8]) -> (group: bool)
    ensures
        group == (head@.len() >= 4 && (tag_at(head@, 0) == Fourcc(RIFF) || tag_at(head@, 0)
            == Fourcc(LIST))),
{
    match read_u32(head, 0) {
        Some(id) => id == RIFF || id == LIST,
        None => false,
    }
}

/// Reads the header at `pos`: seeks there, reads eight bytes, and four more where
/// the tag opens a group. On success the cursor stands behind the header.
pub fn read_header<R: Reader>(reader: &mut R, pos: u64) -> (r: Result<Header, ParseError>)
    ensures
        final(reader).bytes() == old(reader).bytes(),
        final(reader).reliable() == old(reader).reliable(),
        settles(old(reader).reliable(), r, header_at(old(reader).bytes(), pos as int)),
        r matches Ok(h) ==> final(reader).position() == pos + h.spec_len(),
{
    match reader.seek(SeekFrom::Start(pos)) {
        Ok(_) => {},
        Err(e) => {
            return Err(ParseError::Io(e));
        },
    }
    let mut head: Vec<u8> = vec![0u8; 8];
    match reader.read_exact(&mut head) {
        Ok(()) => {},
        Err(e) => {
            return Err(ParseError::Io(e));
        },
    }
    if opens_group(head.as_slice()) {
        let mut list_type: Vec<u8> = vec![0u8; 4];
        match reader.read_exact(&mut list_type) {
            Ok(()) => {},
            Err(e) => {
                return Err(ParseError::Io(e));
            },
        }
        head.append(&mut list_type);
    }
    decode_header(head.as_slice())
}

impl Metadata {
    /// The metadata of a node whose data begins at `data_start`.
    pub fn new(data_start: u64) -> (metadata: Metadata)
        ensures
            metadata.data_start == data_start,
    {
        Metadata { data_start }
    }
}

/// What every node has: the place of its data and the size of its data.
pub trait ChunkData {
    /// Where the node's data begins.
    spec fn spec_metadata(&self) -> Metadata;

    /// The number of bytes of the node's data, without the pad byte.
    spec fn spec_data_size(&self) -> u32;

    /// Where the node's data begins.
    fn metadata(&self) -> (metadata: &Metadata)
        ensures
            *metadata == self.spec_metadata(),
    ;

    /// The number of bytes of the node's data, without the pad byte.
    fn data_size(&self) -> (size: u32)
        ensures
            size == self.spec_data_size(),
    ;

    /// The number of pad bytes behind the node's data: one if its size is odd.
    fn data_pad(&self) -> (pad: u32)
        ensures
            pad == pad_of(self.spec_data_size()),
    {
        if self.data_size() % 2 == 0 {
            0
        } else {
            1
        }
    }
}

impl Chunk {
    /// The leaf with the given header, whose payload begins at `data_start`.
    pub fn new(header: ChunkHeader, data_start: u64) -> (chunk: Chunk)
        ensures
            chunk == (Chunk { header, metadata: Metadata { data_start } }),
    {
        Chunk { header, metadata: Metadata::new(data_start) }
    }

    /// The chunk id.
    pub fn id(&self) -> (id: Fourcc)
        ensures
            id == self.header.chunk_id,
    {
        self.header.chunk_id
    }
}

impl ChunkData for Chunk {
    open spec fn spec_metadata(&self) -> Metadata {
        self.metadata
    }

    open spec fn spec_data_size(&self) -> u32 {
        self.header.size
    }

    fn metadata(&self) -> (metadata: &Metadata) {
        &self.metadata
    }

    fn data_size(&self) -> (size: u32) {
        self.header.size
    }
}

impl List {
    /// The group with the given header, whose first child begins at `data_start`.
    pub fn new(header: ListHeader, data_start: u64) -> (list: List)
        ensures
            list == (List { header, metadata: Metadata { data_start } }),
    {
        List { header, metadata: Metadata::new(data_start) }
    }

    /// The list type.
    pub fn id(&self) -> (id: Fourcc)
        ensures
            id == self.header.list_id,
    {
        self.header.list_id
    }

    /// The offset at which the list's children end: behind its data, before any pad byte.
    pub open spec fn spec_end(&self) -> u64 {
        data_end(self.metadata.data_start, self.spec_data_size())
    }

    /// The offset at which the list's children end: behind its data, before any pad byte.
    pub fn end(&self) -> (end: u64)
        ensures
            end == self.spec_end(),
    {
        self.metadata.data_start.saturating_add(self.data_size() as u64)
    }

    /// A walk over the list's children that stands before the first one.
    pub fn iter(&self) -> (iter: ListIter)
        ensures
            iter == (ListIter { list: *self, next_position: self.metadata.data_start }),
    {
        ListIter::new(self)
    }
}

impl ChunkData for List {
    open spec fn spec_metadata(&self) -> Metadata {
        self.metadata
    }

    /// The declared size counts the list type, which the header holds.
    open spec fn spec_data_size(&self) -> u32 {
        if self.header.size >= 4 {
            (self.header.size - 4) as u32
        } else {
            0
        }
    }

    fn metadata(&self) -> (metadata: &Metadata) {
        &self.metadata
    }

    fn data_size(&self) -> (size: u32) {
        self.header.size.saturating_sub(4)
    }
}

impl ChunkType {
    /// The node's id.
    pub open spec fn spec_id(self) -> Fourcc {
        match self {
            ChunkType::List(list) => list.header.list_id,
            ChunkType::Chunk(chunk) => chunk.header.chunk_id,
        }
    }

    /// Where the node's data begins.
    pub open spec fn spec_data_start(self) -> u64 {
        match self {
            ChunkType::List(list) => list.metadata.data_start,
            ChunkType::Chunk(chunk) => chunk.metadata.data_start,
        }
    }

    /// The number of bytes of the node's data.
    pub open spec fn spec_data_size(self) -> u32 {
        match self {
            ChunkType::List(list) => list.spec_data_size(),
            ChunkType::Chunk(chunk) => chunk.spec_data_size(),
        }
    }

    /// The offset of the sibling that follows the node.
    pub open spec fn spec_next_offset(self) -> u64 {
        sibling_offset(self.spec_data_start(), self.spec_data_size())
    }

    /// The node that `header` opens when its data begins at `data_start`. The
    /// outer header opens no node: inside a list it is an error.
    pub fn from_header(header: Header, data_start: u64) -> (r: Result<ChunkType, ParseError>)
        ensures
            r == node_of(header, data_start),
    {
        match header {
            Header::List(list_header) => Ok(ChunkType::List(List::new(list_header, data_start))),
            Header::Chunk(chunk_header) => Ok(
                ChunkType::Chunk(Chunk::new(chunk_header, data_start)),
            ),
            Header::Riff(_) => Err(ParseError::Malformed { pos: data_start }),
        }
    }

    /// The node's id.
    pub fn id(&self) -> (id: Fourcc)
        ensures
            id == self.spec_id(),
    {
        match self {
            ChunkType::List(list) => list.id(),
            ChunkType::Chunk(chunk) => chunk.id(),
        }
    }

    /// Whether the node's data and its pad byte end at or before `end`.
    pub open spec fn spec_ends_by(self, end: u64) -> bool {
        self.spec_data_start() + self.spec_data_size() + pad_of(self.spec_data_size()) <= end
    }

    /// Whether the node's data and its pad byte end at or before `end`.
    pub fn ends_by(&self, end: u64) -> (yes: bool)
        ensures
            yes == self.spec_ends_by(end),
    {
        let (data_start, extent) = match self {
            ChunkType::List(list) => (
                list.metadata.data_start,
                list.data_size() as u64 + list.data_pad() as u64,
            ),
            ChunkType::Chunk(chunk) => (
                chunk.metadata.data_start,
                chunk.data_size() as u64 + chunk.data_pad() as u64,
            ),
        };
        match data_start.checked_add(extent) {
            Some(node_end) => node_end <= end,
            None => false,
        }
    }

    /// The node as a child of a list whose data ends at `end`: the node itself
    /// where it ends by then, and else the error of a child that declares more
    /// than its list holds.
    pub fn contained_in(self, end: u64) -> (r: Result<ChunkType, ParseError>)
        ensures
            r == contained(self, end),
    {
        if self.ends_by(end) {
            Ok(self)
        } else {
            let pos = match self {
                ChunkType::List(list) => list.metadata.data_start,
                ChunkType::Chunk(chunk) => chunk.metadata.data_start,
            };
            Err(ParseError::Malformed { pos })
        }
    }

    /// The offset of the sibling that follows the node.
    pub fn next_offset(&self) -> (offset: u64)
        ensures
            offset == self.spec_next_offset(),
    {
        match self {
            ChunkType::List(list) => list.metadata.data_start.saturating_add(
                list.data_size() as u64 + list.data_pad() as u64,
            ),
            ChunkType::Chunk(chunk) => chunk.metadata.data_start.saturating_add(
                chunk.data_size() as u64 + chunk.data_pad() as u64,
            ),
        }
    }
}

/// The node that `header` opens when its data begins at `data_start`.
pub open spec fn node_of(header: Header, data_start: u64) -> Result<ChunkType, ParseError> {
    match header {
        Header::List(h) => Ok(
            ChunkType::List(List { header: h, metadata: Metadata { data_start } }),
        ),
        Header::Chunk(h) => Ok(
            ChunkType::Chunk(Chunk { header: h, metadata: Metadata { data_start } }),
        ),
        Header::Riff(_) => Err(ParseError::Malformed { pos: data_start }),
    }
}

/// The node whose header stands at `pos`.
pub open spec fn node_at(bytes: Seq<u8>, pos: u64) -> Result<ChunkType, ParseError> {
    match header_at(bytes, pos as int) {
        Err(e) => Err(e),
        Ok(header) => node_of(header, clip(pos + header.spec_len())),
    }
}

/// `node` as a child of a list whose data ends at `end`. No child ends behind
/// its list: a node whose data and pad byte would is not a child, but the error
/// of a malformed container, at the offset at which the node's data begins.
pub open spec fn contained(node: ChunkType, end: u64) -> Result<ChunkType, ParseError> {
    if node.spec_ends_by(end) {
        Ok(node)
    } else {
        Err(ParseError::Malformed { pos: node.spec_data_start() })
    }
}

/// The child whose header stands at `pos` in a list whose data ends at `end`.
pub open spec fn child_at(bytes: Seq<u8>, pos: u64, end: u64) -> Result<ChunkType, ParseError> {
    match node_at(bytes, pos) {
        Err(e) => Err(e),
        Ok(node) => contained(node, end),
    }
}

/// A forward walk over the immediate children of a list. It holds the list and
/// the offset of the header that it reads next, and nothing of the stream.
#[derive(Copy, Clone, Debug, PartialEq, Eq, Structural)]
pub struct ListIter {
    pub list: List,
    pub next_position: u64,
}

impl ListIter {
    /// What the next step gives on a stream of `bytes`: nothing once the walk has
    /// reached the end of the list, else the child at the walk's position.
    pub open spec fn spec_next(self, bytes: Seq<u8>) -> Option<Result<ChunkType, ParseError>> {
        if self.next_position >= self.list.spec_end() {
            None
        } else {
            Some(child_at(bytes, self.next_position, self.list.spec_end()))
        }
    }

    /// A walk over the children of `list` that stands before the first one.
    pub fn new(list: &List) -> (iter: ListIter)
        ensures
            iter == (ListIter { list: *list, next_position: list.metadata.data_start }),
    {
        ListIter { list: *list, next_position: list.metadata.data_start }
    }

    /// The offset of the header that the walk reads next.
    pub fn position(&self) -> (pos: u64)
        ensures
            pos == self.next_position,
    {
        self.next_position
    }

    /// Reads the child at the walk's position and moves the walk forward behind
    /// it, by the size that the child's header declares and its pad byte. The
    /// child's payload is not read. A node that would end behind the list's end
    /// is not yielded: the container is malformed. After an error the walk
    /// stands where it stood.
    pub fn read_next<R: Reader>(&mut self, reader: &mut R) -> (r: Result<ChunkType, ParseError>)
        ensures
            final(reader).bytes() == old(reader).bytes(),
            final(reader).reliable() == old(reader).reliable(),
            final(self).list == old(self).list,
            settles(
                old(reader).reliable(),
                r,
                child_at(old(reader).bytes(), old(self).next_position, old(self).list.spec_end()),
            ),
            r matches Ok(node) ==> node.spec_ends_by(old(self).list.spec_end()),
            r matches Ok(node) ==> final(self).next_position == node.spec_next_offset()
                && final(self).next_position > old(self).next_position
                && final(reader).position() == node.spec_data_start(),
            r is Err ==> final(self).next_position == old(self).next_position,
    {
        let header = match read_header(reader, self.next_position) {
            Ok(header) => header,
            Err(e) => {
                return Err(e);
            },
        };
        let data_start = match reader.stream_position() {
            Ok(data_start) => data_start,
            Err(e) => {
                return Err(ParseError::Io(e));
            },
        };
        let node = match ChunkType::from_header(header, data_start) {
            Ok(node) => node,
            Err(e) => {
                return Err(e);
            },
        };
        let child = match node.contained_in(self.list.end()) {
            Ok(child) => child,
            Err(e) => {
                return Err(e);
            },
        };
        self.next_position = child.next_offset();
        Ok(child)
    }

    /// The next child of the list, or nothing once the walk has reached the end
    /// of the list's data; the stream is not touched then. Behind a child that
    /// was read, the cursor stands at the start of the child's data.
    pub fn next<R: Reader>(&mut self, reader: &mut R) -> (r: Option<Result<ChunkType, ParseError>>)
        ensures
            final(reader).bytes() == old(reader).bytes(),
            final(reader).reliable() == old(reader).reliable(),
            final(self).list == old(self).list,
            settles_next(old(reader).reliable(), r, old(self).spec_next(old(reader).bytes())),
            old(self).next_position >= old(self).list.spec_end() ==> r is None
                && final(reader).position() == old(reader).position(),
            r matches Some(Ok(node)) ==> node.spec_ends_by(old(self).list.spec_end()),
            r matches Some(Ok(node)) ==> final(self).next_position == node.spec_next_offset()
                && final(self).next_position > old(self).next_position
                && final(reader).position() == node.spec_data_start(),
            !(r matches Some(Ok(_))) ==> final(self).next_position == old(self).next_position,
    {
        if self.next_position >= self.list.end() {
            None
        } else {
            Some(self.read_next(reader))
        }
    }

    /// All children of the list that are still to come, read up to the end of
    /// the list's data. The first error ends the reading and is returned alone.
    pub fn collect<R: Reader>(&mut self, reader: &mut R) -> (r: Result<Vec<ChunkType>, ParseError>)
        ensures
            final(reader).bytes() == old(reader).bytes(),
            final(reader).reliable() == old(reader).reliable(),
            final(self).list == old(self).list,
            settles(
                old(reader).reliable(),
                match r {
                    Ok(nodes) => Ok(nodes@),
                    Err(e) => Err(e),
                },
                walk(old(reader).bytes(), old(self).next_position, old(self).list.spec_end()),
            ),
            r is Ok ==> final(self).next_position == walk_end(
                old(reader).bytes(),
                old(self).next_position,
                old(self).list.spec_end(),
            ),
    {
        let ghost all = walk(reader.bytes(), self.next_position, self.list.spec_end());
        let mut found: Vec<ChunkType> = Vec::new();
        loop
            invariant
                reader.bytes() == old(reader).bytes(),
                reader.reliable() == old(reader).reliable(),
                self.list == old(self).list,
                all == walk(
                    old(reader).bytes(),
                    old(self).next_position,
                    old(self).list.spec_end(),
                ),
                all == followed_by(
                    found@,
                    walk(reader.bytes(), self.next_position, self.list.spec_end()),
                ),
                walk_end(reader.bytes(), self.next_position, self.list.spec_end()) == walk_end(
                    old(reader).bytes(),
                    old(self).next_position,
                    old(self).list.spec_end(),
                ),
            decreases u64::MAX - self.next_position,
        {
            let ghost pos = self.next_position;
            let ghost before = found@;
            let got = self.next(reader);
            proof {
                lemma_gather_nodes(
                    reader.reliable(),
                    got,
                    reader.bytes(),
                    pos,
                    self.list.spec_end(),
                    before,
                    all,
                );
            }
            match got {
                None => {
                    return Ok(found);
                },
                Some(Err(e)) => {
                    return Err(e);
                },
                Some(Ok(node)) => {
                    found.push(node);
                },
            }
        }
    }
}

/// The owner of the stream from which a container is read.
#[derive(Debug)]
pub struct RiffParser<R> {
    pub reader: R,
}

/// The root list that `header` opens, given that it was read at offset 0.
pub open spec fn root_of(header: Header, data_start: u64) -> Result<List, ParseError> {
    match header {
        Header::Riff(h) => Ok(List { header: h, metadata: Metadata { data_start } }),
        _ => Err(ParseError::Malformed { pos: 0 }),
    }
}

/// The root list of a container: the outer header at offset 0, whose magic must
/// be `RIFF`, with the first child behind the form type.
pub open spec fn root_at(bytes: Seq<u8>) -> Result<List, ParseError> {
    match header_at(bytes, 0) {
        Err(e) => Err(e),
        Ok(header) => root_of(header, clip(header.spec_len())),
    }
}

/// The root list that `header` opens, given that it was read at offset 0 and
/// that the stream stands at `data_start` behind it.
pub fn root_from_header(header: Header, data_start: u64) -> (r: Result<List, ParseError>)
    ensures
        r == root_of(header, data_start),
{
    match header {
        Header::Riff(list_header) => Ok(List::new(list_header, data_start)),
        _ => Err(ParseError::Malformed { pos: 0 }),
    }
}

impl<R: Reader> RiffParser<R> {
    /// A parser that reads from `reader`.
    pub fn new(reader: R) -> (parser: RiffParser<R>)
        ensures
            parser.reader == reader,
    {
        RiffParser { reader }
    }

    /// Opens the container: reads the outer header at the start of the stream and
    /// returns the root list, which stands before the form type's first child.
    pub fn riff(&mut self) -> (r: Result<List, ParseError>)
        ensures
            final(self).reader.bytes() == old(self).reader.bytes(),
            final(self).reader.reliable() == old(self).reader.reliable(),
            settles(old(self).reader.reliable(), r, root_at(old(self).reader.bytes())),
    {
        let header = match read_header(&mut self.reader, 0) {
            Ok(header) => header,
            Err(e) => {
                return Err(e);
            },
        };
        let data_start = match self.reader.stream_position() {
            Ok(data_start) => data_start,
            Err(e) => {
                return Err(ParseError::Io(e));
            },
        };
        root_from_header(header, data_start)
    }
}

/// The payload of a node with `data_size` bytes of data at `data_start`, or
/// `UnexpectedEof` where the stream ends before the payload and its pad byte do.
/// An empty payload can be had anywhere.
pub open spec fn payload(bytes: Seq<u8>, data_start: u64, data_size: u32) -> Result<
    Seq<u8>,
    ParseError,
> {
    if data_size == 0 {
        Ok(Seq::empty())
    } else if data_start + data_size + pad_of(data_size) <= bytes.len() {
        Ok(bytes.subrange(data_start as int, data_start + data_size))
    } else {
        Err(ParseError::Io(ErrorKind::UnexpectedEof))
    }
}

/// Reading a node's data. Every operation seeks to the start of the data first.
pub trait ChunkRead: ChunkData {
    /// Decodes a record of type `S` at the start of the node's data.
    fn read_data_struct<S: Record, R: Reader>(&self, reader: &mut R) -> (r: Result<S, ParseError>)
        ensures
            final(reader).bytes() == old(reader).bytes(),
            final(reader).reliable() == old(reader).reliable(),
            settles(
                old(reader).reliable(),
                r,
                S::parse(old(reader).bytes(), self.spec_metadata().data_start as int),
            ),
    {
        match reader.seek(SeekFrom::Start(self.metadata().data_start)) {
            Ok(_) => S::read(reader),
            Err(e) => Err(ParseError::Io(e)),
        }
    }

    /// Reads the whole payload into a buffer of exactly its size.
    fn read_data_vec<R: Reader>(&self, reader: &mut R) -> (r: Result<Vec<u8>, ParseError>)
        ensures
            final(reader).bytes() == old(reader).bytes(),
            final(reader).reliable() == old(reader).reliable(),
            settles(
                old(reader).reliable(),
                match r {
                    Ok(data) => Ok(data@),
                    Err(e) => Err(e),
                },
                payload(
                    old(reader).bytes(),
                    self.spec_metadata().data_start,
                    self.spec_data_size(),
                ),
            ),
            r is Ok ==> final(reader).position() == sibling_offset(
                self.spec_metadata().data_start,
                self.spec_data_size(),
            ),
    {
        let mut buffer: Vec<u8> = vec![0u8; self.data_size() as usize];
        match self.read_data(reader, &mut buffer) {
            Ok(()) => Ok(buffer),
            Err(e) => Err(e),
        }
    }

    /// Reads the whole payload into `buffer`, whose length must be the payload's
    /// size, and consumes the pad byte behind an odd-sized payload. A buffer of
    /// another length is refused before the stream is touched.
    fn read_data<R: Reader>(&self, reader: &mut R, buffer: &mut Vec<u8>) -> (r: Result<
        (),
        ParseError,
    >)
        ensures
            final(reader).bytes() == old(reader).bytes(),
            final(reader).reliable() == old(reader).reliable(),
            final(buffer)@.len() == old(buffer)@.len(),
            old(buffer)@.len() != self.spec_data_size() ==> {
                &&& r == Err::<(), ParseError>(
                    ParseError::SizeMismatch {
                        pos: self.spec_metadata().data_start,
                        expected: self.spec_data_size(),
                        actual: old(buffer)@.len() as usize,
                    },
                )
                &&& final(buffer)@ == old(buffer)@
                &&& final(reader).position() == old(reader).position()
            },
            old(buffer)@.len() == self.spec_data_size() ==> settles(
                old(reader).reliable(),
                match r {
                    Ok(()) => Ok(final(buffer)@),
                    Err(e) => Err(e),
                },
                payload(
                    old(reader).bytes(),
                    self.spec_metadata().data_start,
                    self.spec_data_size(),
                ),
            ),
            r is Ok ==> final(reader).position() == sibling_offset(
                self.spec_metadata().data_start,
                self.spec_data_size(),
            ),
    {
        let data_size = self.data_size();
        let data_pad = self.data_pad();
        let data_start = self.metadata().data_start;
        if buffer.len() != data_size as usize {
            return Err(
                ParseError::SizeMismatch {
                    pos: data_start,
                    expected: data_size,
                    actual: buffer.len(),
                },
            );
        }
        match reader.seek(SeekFrom::Start(data_start)) {
            Ok(_) => {},
            Err(e) => {
                return Err(ParseError::Io(e));
            },
        }
        match reader.read_exact(buffer) {
            Ok(()) => {},
            Err(e) => {
                return Err(ParseError::Io(e));
            },
        }
        if data_pad == 1 {
            let mut pad: Vec<u8> = vec![0u8; 1];
            match reader.read_exact(&mut pad) {
                Ok(()) => {},
                Err(e) => {
                    return Err(ParseError::Io(e));
                },
            }
        }
        assert(data_size == 0 ==> buffer@ =~= Seq::empty());
        Ok(())
    }
}

impl ChunkRead for Chunk {

}

impl ChunkRead for List {

}

} // verus!
