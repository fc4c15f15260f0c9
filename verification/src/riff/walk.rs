//! What a walk over a list yields, as a function of the stream's bytes, and the
//! laws of well-formed containers.

use crate::error::{settles, settles_next, ParseError};
use crate::riff::{child_at, node_at, pad_of, ChunkType};
use vstd::prelude::*;

verus! {

/// The children that a walk from `pos` yields before it reaches `end` or fails.
pub open spec fn children(bytes: Seq<u8>, pos: u64, end: u64) -> Seq<ChunkType>
    decreases u64::MAX - pos,
{
    if pos >= end {
        Seq::empty()
    } else {
        match child_at(bytes, pos, end) {
            Ok(node) => seq![node] + children(bytes, node.spec_next_offset(), end),
            Err(_) => Seq::empty(),
        }
    }
}

/// The error on which a walk from `pos` towards `end` fails, if it fails.
pub open spec fn walk_error(bytes: Seq<u8>, pos: u64, end: u64) -> Option<ParseError>
    decreases u64::MAX - pos,
{
    if pos >= end {
        None
    } else {
        match child_at(bytes, pos, end) {
            Ok(node) => walk_error(bytes, node.spec_next_offset(), end),
            Err(e) => Some(e),
        }
    }
}

/// The offset at which a walk from `pos` towards `end` stops: the first offset at
/// or behind `end` that it reaches, or the offset of the header that fails.
pub open spec fn walk_end(bytes: Seq<u8>, pos: u64, end: u64) -> u64
    decreases u64::MAX - pos,
{
    if pos >= end {
        pos
    } else {
        match child_at(bytes, pos, end) {
            Ok(node) => walk_end(bytes, node.spec_next_offset(), end),
            Err(_) => pos,
        }
    }
}

/// What a walk from `pos` up to `end` gives as a whole: all the nodes, or the
/// error on which it fails.
pub open spec fn walk(bytes: Seq<u8>, pos: u64, end: u64) -> Result<Seq<ChunkType>, ParseError> {
    match walk_error(bytes, pos, end) {
        Some(e) => Err(e),
        None => Ok(children(bytes, pos, end)),
    }
}

/// `first` put before the nodes of `rest`.
pub open spec fn followed_by(
    first: Seq<ChunkType>,
    rest: Result<Seq<ChunkType>, ParseError>,
) -> Result<Seq<ChunkType>, ParseError> {
    match rest {
        Ok(more) => Ok(first + more),
        Err(e) => Err(e),
    }
}

/// What one more node, the end of the list or an error means for the nodes that
/// are being gathered: `found` are the ones so far, `got` is the result of the
/// step at `pos`, and `all` is what the gathering has to give in the end.
pub proof fn lemma_gather_nodes(
    reliable: bool,
    got: Option<Result<ChunkType, ParseError>>,
    bytes: Seq<u8>,
    pos: u64,
    end: u64,
    found: Seq<ChunkType>,
    all: Result<Seq<ChunkType>, ParseError>,
)
    requires
        settles_next(
            reliable,
            got,
            if pos >= end {
                None
            } else {
                Some(child_at(bytes, pos, end))
            },
        ),
        all == followed_by(found, walk(bytes, pos, end)),
    ensures
        match got {
            None => all == Ok::<Seq<ChunkType>, ParseError>(found) && walk_end(bytes, pos, end)
                == pos,
            Some(Err(e)) => settles(reliable, Err::<Seq<ChunkType>, ParseError>(e), all),
            Some(Ok(node)) => all == followed_by(
                found.push(node),
                walk(bytes, node.spec_next_offset(), end),
            ) && node.spec_next_offset() > pos && walk_end(bytes, pos, end) == walk_end(
                bytes,
                node.spec_next_offset(),
                end,
            ),
        },
{
    match got {
        Some(Ok(node)) => {
            lemma_walk_moves_forward(bytes, pos);
            let rest = walk(bytes, node.spec_next_offset(), end);
            if rest is Ok {
                assert(found + (seq![node] + rest->Ok_0) =~= found.push(node) + rest->Ok_0);
            }
        },
        _ => {},
    }
}

/// The bytes that a node takes in its parent: its header, its data and its pad byte.
pub open spec fn span(node: ChunkType) -> int {
    (match node {
        ChunkType::List(_) => 12int,
        ChunkType::Chunk(_) => 8int,
    }) + node.spec_data_size() + pad_of(node.spec_data_size())
}

/// The bytes that `nodes` take together.
pub open spec fn total_span(nodes: Seq<ChunkType>) -> int
    decreases nodes.len(),
{
    if nodes.len() == 0 {
        0
    } else {
        span(nodes[0]) + total_span(nodes.skip(1))
    }
}

/// Whether the children from `pos` on fill the range up to `end` exactly: each
/// header decodes to a child, and the last child ends at `end` with its pad
/// byte.
pub open spec fn tiled(bytes: Seq<u8>, pos: u64, end: u64) -> bool
    decreases u64::MAX - pos,
{
    if pos >= end {
        pos == end
    } else {
        match child_at(bytes, pos, end) {
            Ok(node) => tiled(bytes, node.spec_next_offset(), end),
            Err(_) => false,
        }
    }
}

/// The data of a node begins behind the offset of its header, and its sibling
/// follows at or behind its data: a walk only moves forward.
pub proof fn lemma_walk_moves_forward(bytes: Seq<u8>, pos: u64)
    requires
        pos < u64::MAX,
        node_at(bytes, pos) is Ok,
    ensures
        pos < node_at(bytes, pos)->Ok_0.spec_data_start() <= node_at(
            bytes,
            pos,
        )->Ok_0.spec_next_offset(),
{
}

/// Containment: whatever the stream holds, every child that a walk yields
/// begins behind the offset at which the walk began, and ends, with its pad
/// byte, at or before the end of the list.
pub proof fn lemma_children_contained(bytes: Seq<u8>, pos: u64, end: u64)
    ensures
        forall|i: int|
            0 <= i < children(bytes, pos, end).len() ==> pos < (#[trigger] children(
                bytes,
                pos,
                end,
            )[i]).spec_data_start() && children(bytes, pos, end)[i].spec_ends_by(end),
    decreases u64::MAX - pos,
{
    if pos < end {
        match child_at(bytes, pos, end) {
            Ok(node) => {
                let next = node.spec_next_offset();
                lemma_walk_moves_forward(bytes, pos);
                lemma_children_contained(bytes, next, end);
                let all = children(bytes, pos, end);
                let rest = children(bytes, next, end);
                assert forall|i: int| 0 < i < all.len() implies all[i] == rest[i - 1] by {}
            },
            Err(_) => {},
        }
    }
}

/// In a stream that offsets can address, and in a list whose children fill it
/// exactly, a walk yields every child without an error and stops at the list's
/// end, and the sizes of the children with their headers and pad bytes add up
/// to the length of the list's data.
pub proof fn lemma_tiled_list(bytes: Seq<u8>, pos: u64, end: u64)
    requires
        bytes.len() <= u64::MAX,
        tiled(bytes, pos, end),
    ensures
        walk_error(bytes, pos, end) is None,
        walk_end(bytes, pos, end) == end,
        pos + total_span(children(bytes, pos, end)) == end,
    decreases u64::MAX - pos,
{
    if pos < end {
        let next = child_at(bytes, pos, end)->Ok_0.spec_next_offset();
        lemma_tiled_list(bytes, next, end);
        assert(children(bytes, pos, end).skip(1) =~= children(bytes, next, end));
    } else {
        assert(children(bytes, pos, end) =~= Seq::empty());
    }
}

} // verus!
