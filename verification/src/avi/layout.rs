//! What the bytes of a stream hold as an AVI file: the model against which the
//! parser is stated.

use crate::avi::header::{AviMainHeader, AviStreamHeader, BitmapInfo};
use crate::avi::stream::{AudioStream, StreamInfo, VideoStream};
use crate::avi::tag::{
    spec_stream, AUDS, AVI, AVIH, DATA_AUDIO, DATA_VIDEO_COMPRESSED, HDRL, MOVI, STRF, STRH, STRL,
    VIDS,
};
use crate::avi::wave::WaveFormat;
use crate::error::ParseError;
use crate::fourcc::Fourcc;
use crate::record::Record;
use crate::riff::{child_at, root_at, Chunk, ChunkData, ChunkType, List};
use vstd::prelude::*;

verus! {

/// What the parser holds of a file.
pub struct AviLayout {
    pub avi_header: AviMainHeader,
    pub stream_info: Seq<StreamInfo>,
    pub movi: List,
}

/// The child that a walk at `pos` must find before `end`: the child there. A
/// walk that has reached `end` finds the end of the data instead.
pub open spec fn required(bytes: Seq<u8>, pos: u64, end: u64) -> Result<ChunkType, ParseError> {
    if pos >= end {
        Err(ParseError::UnexpectedEnd { pos })
    } else {
        child_at(bytes, pos, end)
    }
}

/// `node` as the list tagged `tag` that is required in its place.
pub open spec fn as_list(node: ChunkType, tag: Fourcc) -> Result<List, ParseError> {
    match node {
        ChunkType::List(list) if list.header.list_id == tag => Ok(list),
        _ => Err(ParseError::Missing { pos: node.spec_data_start(), tag }),
    }
}

/// `node` as the chunk tagged `tag` that is required in its place.
pub open spec fn as_chunk(node: ChunkType, tag: Fourcc) -> Result<Chunk, ParseError> {
    match node {
        ChunkType::Chunk(chunk) if chunk.header.chunk_id == tag => Ok(chunk),
        _ => Err(ParseError::Missing { pos: node.spec_data_start(), tag }),
    }
}

/// The list tagged `tag` that a walk at `pos` must find before `end`.
pub open spec fn required_list(bytes: Seq<u8>, pos: u64, end: u64, tag: Fourcc) -> Result<
    List,
    ParseError,
> {
    match required(bytes, pos, end) {
        Ok(node) => as_list(node, tag),
        Err(e) => Err(e),
    }
}

/// The chunk tagged `tag` that a walk at `pos` must find before `end`.
pub open spec fn required_chunk(bytes: Seq<u8>, pos: u64, end: u64, tag: Fourcc) -> Result<
    Chunk,
    ParseError,
> {
    match required(bytes, pos, end) {
        Ok(node) => as_chunk(node, tag),
        Err(e) => Err(e),
    }
}

/// The table's entry for the stream at `index` with the given header, whose
/// format block begins at `format_start`: a video entry for a `vids` stream, an
/// audio entry for an `auds` stream, and none for a stream of any other type.
/// The sample id of a video entry is the one of compressed frames.
pub open spec fn stream_entry(
    bytes: Seq<u8>,
    index: u32,
    header: AviStreamHeader,
    format_start: u64,
) -> Result<Option<StreamInfo>, ParseError> {
    if header.fcc_type == Fourcc(VIDS) {
        match BitmapInfo::parse(bytes, format_start as int) {
            Ok(bitmap_info) => Ok(
                Some(
                    StreamInfo::Video(
                        VideoStream {
                            stream_id: spec_stream(index, DATA_VIDEO_COMPRESSED),
                            stream_header: header,
                            bitmap_info,
                        },
                    ),
                ),
            ),
            Err(e) => Err(e),
        }
    } else if header.fcc_type == Fourcc(AUDS) {
        match WaveFormat::parse(bytes, format_start as int) {
            Ok(wave_format) => Ok(
                Some(
                    StreamInfo::Audio(
                        AudioStream {
                            stream_id: spec_stream(index, DATA_AUDIO),
                            stream_header: header,
                            wave_format,
                        },
                    ),
                ),
            ),
            Err(e) => Err(e),
        }
    } else {
        Ok(None)
    }
}

/// What the `strl` list holds for the stream at `index`: its `strh` chunk
/// first, its `strf` chunk behind that, and the entry that the two give.
pub open spec fn stream_in(bytes: Seq<u8>, strl: List, index: u32) -> Result<
    Option<StreamInfo>,
    ParseError,
> {
    match required_chunk(bytes, strl.metadata.data_start, strl.spec_end(), Fourcc(STRH)) {
        Err(e) => Err(e),
        Ok(strh) => match AviStreamHeader::parse(bytes, strh.metadata.data_start as int) {
            Err(e) => Err(e),
            Ok(header) => match required_chunk(
                bytes,
                ChunkType::Chunk(strh).spec_next_offset(),
                strl.spec_end(),
                Fourcc(STRF),
            ) {
                Err(e) => Err(e),
                Ok(strf) => stream_entry(bytes, index, header, strf.metadata.data_start),
            },
        },
    }
}

/// What a walk of the header list at `pos` finds for the stream at `index`: a
/// `strl` list, the entry that it gives, and the offset of the child behind it.
pub open spec fn stream_at(bytes: Seq<u8>, pos: u64, end: u64, index: u32) -> Result<
    (Option<StreamInfo>, u64),
    ParseError,
> {
    match required_list(bytes, pos, end, Fourcc(STRL)) {
        Err(e) => Err(e),
        Ok(strl) => match stream_in(bytes, strl, index) {
            Err(e) => Err(e),
            Ok(entry) => Ok((entry, ChunkType::List(strl).spec_next_offset())),
        },
    }
}

/// `entry`, if there is one, put before `rest`.
pub open spec fn with_entry(entry: Option<StreamInfo>, rest: Seq<StreamInfo>) -> Seq<StreamInfo> {
    match entry {
        Some(info) => seq![info] + rest,
        None => rest,
    }
}

/// The entries for the streams from `index` up to `count`, each described by
/// the next child of the header list, which a walk reads from `pos` up to `end`.
/// With the entries comes the offset at which the walk stands behind them.
pub open spec fn streams_from(bytes: Seq<u8>, pos: u64, end: u64, index: u32, count: u32) -> Result<
    (Seq<StreamInfo>, u64),
    ParseError,
>
    decreases count - index,
{
    if index >= count {
        Ok((Seq::empty(), pos))
    } else {
        match stream_at(bytes, pos, end, index) {
            Err(e) => Err(e),
            Ok((entry, next)) => match streams_from(bytes, next, end, (index + 1) as u32, count) {
                Err(e) => Err(e),
                Ok((rest, last)) => Ok((with_entry(entry, rest), last)),
            },
        }
    }
}

/// The first list tagged `movi` among the nodes that a walk reads from `pos` up
/// to `end`. Other nodes are passed over; a header that fails to decode, or the
/// end of the data, ends the search with an error.
pub open spec fn movi_from(bytes: Seq<u8>, pos: u64, end: u64) -> Result<List, ParseError>
    decreases u64::MAX - pos,
{
    if pos >= end {
        Err(ParseError::UnexpectedEnd { pos })
    } else {
        match child_at(bytes, pos, end) {
            Err(e) => Err(e),
            Ok(ChunkType::List(list)) if list.header.list_id == Fourcc(MOVI) => Ok(list),
            Ok(node) => movi_from(bytes, node.spec_next_offset(), end),
        }
    }
}

/// What the header list `hdrl` holds: the main header in its first child, and
/// behind it one `strl` list for each stream that the main header declares.
pub open spec fn headers_in(bytes: Seq<u8>, hdrl: List) -> Result<
    (AviMainHeader, Seq<StreamInfo>),
    ParseError,
> {
    match required_chunk(bytes, hdrl.metadata.data_start, hdrl.spec_end(), Fourcc(AVIH)) {
        Err(e) => Err(e),
        Ok(avih) => match AviMainHeader::parse(bytes, avih.metadata.data_start as int) {
            Err(e) => Err(e),
            Ok(avi_header) => match streams_from(
                bytes,
                ChunkType::Chunk(avih).spec_next_offset(),
                hdrl.spec_end(),
                0,
                avi_header.streams,
            ) {
                Err(e) => Err(e),
                Ok((stream_info, _)) => Ok((avi_header, stream_info)),
            },
        },
    }
}

/// The layout of the AVI file that `bytes` hold: a root list of form type
/// `AVI `, whose first child is the header list, and with a `movi` list among
/// the children behind it.
pub open spec fn layout(bytes: Seq<u8>) -> Result<AviLayout, ParseError> {
    match root_at(bytes) {
        Err(e) => Err(e),
        Ok(root) => if root.header.list_id != Fourcc(AVI) {
            Err(ParseError::Missing { pos: root.metadata.data_start, tag: Fourcc(AVI) })
        } else {
            match required_list(bytes, root.metadata.data_start, root.spec_end(), Fourcc(HDRL)) {
                Err(e) => Err(e),
                Ok(hdrl) => match headers_in(bytes, hdrl) {
                    Err(e) => Err(e),
                    Ok((avi_header, stream_info)) => match movi_from(
                        bytes,
                        ChunkType::List(hdrl).spec_next_offset(),
                        root.spec_end(),
                    ) {
                        Err(e) => Err(e),
                        Ok(movi) => Ok(AviLayout { avi_header, stream_info, movi }),
                    },
                },
            }
        },
    }
}

/// A stream whose type is neither `vids` nor `auds` gets no entry, whatever its
/// format chunk holds, and is no error.
pub proof fn lemma_other_stream_has_no_entry(
    bytes: Seq<u8>,
    index: u32,
    header: AviStreamHeader,
    format_start: u64,
)
    requires
        header.fcc_type != Fourcc(VIDS),
        header.fcc_type != Fourcc(AUDS),
    ensures
        stream_entry(bytes, index, header, format_start) == Ok::<Option<StreamInfo>, ParseError>(
            None,
        ),
{
}

/// A stream without an entry leaves the table as the streams behind it make
/// it: where the child at `pos` describes a stream that gets no entry, the
/// table from there on is the table from the next child on, and fails only
/// where that one fails.
pub proof fn lemma_stream_without_entry_is_left_out(
    bytes: Seq<u8>,
    pos: u64,
    end: u64,
    index: u32,
    count: u32,
)
    requires
        index < count,
        stream_at(bytes, pos, end, index) matches Ok((entry, _)) && entry is None,
    ensures
        streams_from(bytes, pos, end, index, count) == streams_from(
            bytes,
            stream_at(bytes, pos, end, index)->Ok_0.1,
            end,
            (index + 1) as u32,
            count,
        ),
{
}

/// Whether `info` is the entry of a stream of its own kind: a video entry with
/// a header of type `vids`, or an audio entry with a header of type `auds`.
pub open spec fn of_its_kind(info: StreamInfo) -> bool {
    match info {
        StreamInfo::Video(video) => video.stream_header.fcc_type == Fourcc(VIDS),
        StreamInfo::Audio(audio) => audio.stream_header.fcc_type == Fourcc(AUDS),
    }
}

/// The entry that a `strl` list gives, if it gives one, is of its own kind.
pub proof fn lemma_entry_is_of_its_kind(bytes: Seq<u8>, pos: u64, end: u64, index: u32)
    requires
        stream_at(bytes, pos, end, index) matches Ok((entry, _)) && entry is Some,
    ensures
        of_its_kind(stream_at(bytes, pos, end, index)->Ok_0.0->Some_0),
{
    let strl = required_list(bytes, pos, end, Fourcc(STRL))->Ok_0;
    let strh = required_chunk(
        bytes,
        strl.metadata.data_start,
        strl.spec_end(),
        Fourcc(STRH),
    )->Ok_0;
    let header = AviStreamHeader::parse(bytes, strh.metadata.data_start as int)->Ok_0;
    let strf = required_chunk(
        bytes,
        ChunkType::Chunk(strh).spec_next_offset(),
        strl.spec_end(),
        Fourcc(STRF),
    )->Ok_0;
    assert(stream_in(bytes, strl, index) == stream_entry(
        bytes,
        index,
        header,
        strf.metadata.data_start,
    ));
}

/// The table holds at most one entry for each declared stream, and every entry
/// is of its own kind: no stream of another type is in the table.
pub proof fn lemma_table_entries(bytes: Seq<u8>, pos: u64, end: u64, index: u32, count: u32)
    requires
        index <= count,
        streams_from(bytes, pos, end, index, count) is Ok,
    ensures
        streams_from(bytes, pos, end, index, count)->Ok_0.0.len() <= count - index,
        forall|i: int|
            0 <= i < streams_from(bytes, pos, end, index, count)->Ok_0.0.len() ==> of_its_kind(
                #[trigger] streams_from(bytes, pos, end, index, count)->Ok_0.0[i],
            ),
    decreases count - index,
{
    if index < count {
        let (entry, next) = stream_at(bytes, pos, end, index)->Ok_0;
        lemma_table_entries(bytes, next, end, (index + 1) as u32, count);
        if entry is Some {
            lemma_entry_is_of_its_kind(bytes, pos, end, index);
        }
    }
}

} // verus!
