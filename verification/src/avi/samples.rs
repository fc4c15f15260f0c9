//! The sample chunks of one stream: the children of the sample list whose id is
//! the stream's sample id, in the order in which they stand.

use crate::error::{settles, settles_next, ParseError};
use crate::fourcc::Fourcc;
use crate::io::Reader;
use crate::riff::walk::{children, walk_error};
use crate::riff::{child_at, Chunk, ChunkType, List, ListIter};
use vstd::prelude::*;

verus! {

/// Whether `node` is a sample of the stream whose sample id is `id`: a chunk,
/// not a list, with that id.
pub open spec fn is_sample(node: ChunkType, id: Fourcc) -> bool {
    node matches ChunkType::Chunk(chunk) && chunk.header.chunk_id == id
}

/// The samples with id `id` among `nodes`, in their order.
pub open spec fn matching(nodes: Seq<ChunkType>, id: Fourcc) -> Seq<Chunk>
    decreases nodes.len(),
{
    if nodes.len() == 0 {
        Seq::empty()
    } else if is_sample(nodes[0], id) {
        seq![nodes[0]->Chunk_0] + matching(nodes.skip(1), id)
    } else {
        matching(nodes.skip(1), id)
    }
}

/// All samples with id `id` that a walk from `pos` up to `end` passes, or the
/// error on which the walk fails.
pub open spec fn samples(bytes: Seq<u8>, pos: u64, end: u64, id: Fourcc) -> Result<
    Seq<Chunk>,
    ParseError,
> {
    match walk_error(bytes, pos, end) {
        Some(e) => Err(e),
        None => Ok(matching(children(bytes, pos, end), id)),
    }
}

/// The first sample with id `id` at or behind `pos`: nothing where the walk
/// reaches `end` before it finds one, an error where a header fails to decode
/// before that.
pub open spec fn first_sample(bytes: Seq<u8>, pos: u64, end: u64, id: Fourcc) -> Option<
    Result<Chunk, ParseError>,
>
    decreases u64::MAX - pos,
{
    if pos >= end {
        None
    } else {
        match child_at(bytes, pos, end) {
            Err(e) => Some(Err(e)),
            Ok(node) => if is_sample(node, id) {
                Some(Ok(node->Chunk_0))
            } else {
                first_sample(bytes, node.spec_next_offset(), end, id)
            },
        }
    }
}

/// `first` put before the samples of `rest`, where `rest` has any.
pub open spec fn joined(first: Seq<Chunk>, rest: Result<Seq<Chunk>, ParseError>) -> Result<
    Seq<Chunk>,
    ParseError,
> {
    match rest {
        Ok(more) => Ok(first + more),
        Err(e) => Err(e),
    }
}

/// The samples of a stream are what taking the first sample again and again
/// gives: none where there is no first one, the error where the search for it
/// fails, and else the first one followed by the samples behind it.
pub proof fn lemma_samples_by_first(bytes: Seq<u8>, pos: u64, end: u64, id: Fourcc)
    ensures
        samples(bytes, pos, end, id) == match first_sample(bytes, pos, end, id) {
            None => Ok(Seq::empty()),
            Some(Err(e)) => Err(e),
            Some(Ok(chunk)) => joined(
                seq![chunk],
                samples(bytes, ChunkType::Chunk(chunk).spec_next_offset(), end, id),
            ),
        },
    decreases u64::MAX - pos,
{
    if pos < end {
        match child_at(bytes, pos, end) {
            Ok(node) => {
                let next = node.spec_next_offset();
                assert(children(bytes, pos, end).skip(1) =~= children(bytes, next, end));
                if !is_sample(node, id) {
                    lemma_samples_by_first(bytes, next, end, id);
                }
            },
            Err(_) => {},
        }
    }
}

/// What one more sample, the end of the list or an error means for the samples
/// that are being gathered: `found` are the ones so far, `got` is the result of
/// the search for the next one from `pos` on, and `all` is what the gathering
/// has to give in the end.
pub proof fn lemma_gather(
    reliable: bool,
    got: Option<Result<Chunk, ParseError>>,
    bytes: Seq<u8>,
    pos: u64,
    end: u64,
    id: Fourcc,
    found: Seq<Chunk>,
    all: Result<Seq<Chunk>, ParseError>,
)
    requires
        settles_next(reliable, got, first_sample(bytes, pos, end, id)),
        all == joined(found, samples(bytes, pos, end, id)),
    ensures
        match got {
            None => all == Ok::<Seq<Chunk>, ParseError>(found),
            Some(Err(e)) => settles(reliable, Err::<Seq<Chunk>, ParseError>(e), all),
            Some(Ok(chunk)) => all == joined(
                found.push(chunk),
                samples(bytes, ChunkType::Chunk(chunk).spec_next_offset(), end, id),
            ),
        },
{
    lemma_samples_by_first(bytes, pos, end, id);
    match got {
        Some(Ok(chunk)) => {
            let rest = samples(bytes, ChunkType::Chunk(chunk).spec_next_offset(), end, id);
            if rest is Ok {
                assert(found + (seq![chunk] + rest->Ok_0) =~= found.push(chunk) + rest->Ok_0);
            }
        },
        _ => {},
    }
}

/// A lazy, forward-only sequence of the samples of one stream. To start over,
/// make a new one.
#[derive(Copy, Clone, Debug, PartialEq, Eq, Structural)]
pub struct StreamChunks {
    pub iter: ListIter,
    pub stream_id: Fourcc,
}

impl StreamChunks {
    /// The sequence of the samples with id `stream_id` among the children of `list`.
    pub fn new(list: &List, stream_id: Fourcc) -> (chunks: StreamChunks)
        ensures
            chunks == (StreamChunks {
                iter: ListIter { list: *list, next_position: list.metadata.data_start },
                stream_id,
            }),
    {
        StreamChunks { iter: list.iter(), stream_id }
    }

    /// One step of the search for the next sample: the end of the search with
    /// its result, or nothing where the walk has passed over another node.
    pub fn step<R: Reader>(&mut self, reader: &mut R) -> (r: Option<
        Option<Result<Chunk, ParseError>>,
    >)
        ensures
            final(reader).bytes() == old(reader).bytes(),
            final(reader).reliable() == old(reader).reliable(),
            final(self).iter.list == old(self).iter.list,
            final(self).stream_id == old(self).stream_id,
            r matches Some(found) ==> settles_next(
                old(reader).reliable(),
                found,
                first_sample(
                    old(reader).bytes(),
                    old(self).iter.next_position,
                    old(self).iter.list.spec_end(),
                    old(self).stream_id,
                ),
            ),
            r matches Some(Some(Ok(chunk))) ==> final(self).iter.next_position == ChunkType::Chunk(
                chunk,
            ).spec_next_offset() && final(self).iter.next_position > old(self).iter.next_position,
            r matches Some(None) ==> final(self).iter.next_position == old(self).iter.next_position
                && old(self).iter.next_position >= old(self).iter.list.spec_end(),
            r matches Some(Some(Err(_))) ==> final(self).iter.next_position == old(
                self,
            ).iter.next_position,
            r is None ==> final(self).iter.next_position > old(self).iter.next_position
                && first_sample(
                old(reader).bytes(),
                old(self).iter.next_position,
                old(self).iter.list.spec_end(),
                old(self).stream_id,
            ) == first_sample(
                old(reader).bytes(),
                final(self).iter.next_position,
                old(self).iter.list.spec_end(),
                old(self).stream_id,
            ),
    {
        match self.iter.next(reader) {
            None => Some(None),
            Some(Err(e)) => Some(Some(Err(e))),
            Some(Ok(ChunkType::Chunk(chunk))) => {
                if chunk.id() == self.stream_id {
                    Some(Some(Ok(chunk)))
                } else {
                    None
                }
            },
            Some(Ok(ChunkType::List(_))) => None,
        }
    }

    /// The next sample of the stream: the next child of the list that is a chunk
    /// with the stream's sample id. Lists among the children are passed over
    /// and not entered. At the end of the list the stream is not touched. After
    /// an error the walk stands before the header that gave it, so that the
    /// same search has the same result.
    pub fn next<R: Reader>(&mut self, reader: &mut R) -> (r: Option<Result<Chunk, ParseError>>)
        ensures
            final(reader).bytes() == old(reader).bytes(),
            final(reader).reliable() == old(reader).reliable(),
            final(self).iter.list == old(self).iter.list,
            final(self).stream_id == old(self).stream_id,
            settles_next(
                old(reader).reliable(),
                r,
                first_sample(
                    old(reader).bytes(),
                    old(self).iter.next_position,
                    old(self).iter.list.spec_end(),
                    old(self).stream_id,
                ),
            ),
            r matches Some(Ok(chunk)) ==> final(self).iter.next_position == ChunkType::Chunk(
                chunk,
            ).spec_next_offset() && final(self).iter.next_position > old(self).iter.next_position,
            r is None ==> final(self).iter.next_position >= old(self).iter.list.spec_end(),
            old(self).iter.next_position >= old(self).iter.list.spec_end() ==> r is None
                && final(reader).position() == old(reader).position(),
            r matches Some(Err(_)) ==> first_sample(
                old(reader).bytes(),
                final(self).iter.next_position,
                old(self).iter.list.spec_end(),
                old(self).stream_id,
            ) == first_sample(
                old(reader).bytes(),
                old(self).iter.next_position,
                old(self).iter.list.spec_end(),
                old(self).stream_id,
            ),
    {
        if self.iter.next_position >= self.iter.list.end() {
            return None;
        }
        loop
            invariant
                reader.bytes() == old(reader).bytes(),
                reader.reliable() == old(reader).reliable(),
                self.iter.list == old(self).iter.list,
                self.stream_id == old(self).stream_id,
                self.iter.next_position >= old(self).iter.next_position,
                old(self).iter.next_position < old(self).iter.list.spec_end(),
                first_sample(
                    reader.bytes(),
                    self.iter.next_position,
                    self.iter.list.spec_end(),
                    self.stream_id,
                ) == first_sample(
                    old(reader).bytes(),
                    old(self).iter.next_position,
                    old(self).iter.list.spec_end(),
                    old(self).stream_id,
                ),
            decreases u64::MAX - self.iter.next_position,
        {
            match self.step(reader) {
                Some(found) => {
                    return found;
                },
                None => {},
            }
        }
    }

    /// All samples of the stream that are still to come, read up to the end of
    /// the list. The first error ends the reading and is returned alone.
    pub fn collect<R: Reader>(&mut self, reader: &mut R) -> (r: Result<Vec<Chunk>, ParseError>)
        ensures
            final(reader).bytes() == old(reader).bytes(),
            final(reader).reliable() == old(reader).reliable(),
            final(self).iter.list == old(self).iter.list,
            final(self).stream_id == old(self).stream_id,
            settles(
                old(reader).reliable(),
                match r {
                    Ok(found) => Ok(found@),
                    Err(e) => Err(e),
                },
                samples(
                    old(reader).bytes(),
                    old(self).iter.next_position,
                    old(self).iter.list.spec_end(),
                    old(self).stream_id,
                ),
            ),
    {
        let ghost all = samples(
            reader.bytes(),
            self.iter.next_position,
            self.iter.list.spec_end(),
            self.stream_id,
        );
        let mut found: Vec<Chunk> = Vec::new();
        loop
            invariant
                reader.bytes() == old(reader).bytes(),
                reader.reliable() == old(reader).reliable(),
                self.iter.list == old(self).iter.list,
                self.stream_id == old(self).stream_id,
                all == samples(
                    old(reader).bytes(),
                    old(self).iter.next_position,
                    old(self).iter.list.spec_end(),
                    old(self).stream_id,
                ),
                all == joined(
                    found@,
                    samples(
                        reader.bytes(),
                        self.iter.next_position,
                        self.iter.list.spec_end(),
                        self.stream_id,
                    ),
                ),
            decreases u64::MAX - self.iter.next_position,
        {
            let ghost pos = self.iter.next_position;
            let ghost before = found@;
            let got = self.next(reader);
            proof {
                lemma_gather(
                    reader.reliable(),
                    got,
                    reader.bytes(),
                    pos,
                    self.iter.list.spec_end(),
                    self.stream_id,
                    before,
                    all,
                );
            }
            match got {
                None => {
                    return Ok(found);
                },
                Some(Err(e)) => {
                    return Err(e);
                },
                Some(Ok(chunk)) => {
                    found.push(chunk);
                },
            }
        }
    }
}

} // verus!
