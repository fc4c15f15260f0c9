//! The AVI parser: it walks the header list once, keeps the main header, the
//! table of streams and the place of the sample list, and then hands out the
//! sample chunks of one stream at a time.

use crate::avi::header::{AviMainHeader, AviStreamHeader, BitmapInfo};
use crate::avi::layout::{
    as_chunk, as_list, headers_in, layout, movi_from, required, required_chunk, required_list,
    stream_at, stream_entry, stream_in, streams_from, with_entry, AviLayout,
};
use crate::avi::samples::StreamChunks;
use crate::avi::stream::{
    best_stream_index, is_best, AudioStream, StreamInfo, StreamKind, VideoStream,
};
use crate::avi::tag::{
    stream, AUDS, AVI, AVIH, DATA_AUDIO, DATA_VIDEO_COMPRESSED, HDRL, MOVI, STRF, STRH, STRL, VIDS,
};
use crate::avi::wave::WaveFormat;
use crate::error::{settles, ParseError};
use crate::fourcc::Fourcc;
use crate::io::Reader;
use crate::riff::{Chunk, ChunkRead, ChunkType, List, ListIter, RiffParser};
use vstd::prelude::*;

verus! {

/// A parsed AVI file: the stream it was read from, its main header, its table
/// of streams, and the list that holds its samples.
#[derive(Debug)]
pub struct AviParser<R> {
    pub parser: RiffParser<R>,
    pub avi_header: AviMainHeader,
    pub stream_info: Vec<StreamInfo>,
    pub movi: List,
}

/// The error of a walk that ended at `position` where a child was required.
pub fn eof_error(position: u64) -> (e: ParseError)
    ensures
        e == (ParseError::UnexpectedEnd { pos: position }),
{
    ParseError::UnexpectedEnd { pos: position }
}

/// The error of a node whose data begins at `position` and which is not the
/// node tagged `tag` that was required.
pub fn missing_error(position: u64, tag: Fourcc) -> (e: ParseError)
    ensures
        e == (ParseError::Missing { pos: position, tag }),
{
    ParseError::Missing { pos: position, tag }
}

/// Checks that a node with id `id`, whose data begins at `position`, carries `tag`.
pub fn validate_tag(id: Fourcc, position: u64, tag: Fourcc) -> (r: Result<(), ParseError>)
    ensures
        id == tag ==> r is Ok,
        id != tag ==> r == Err::<(), ParseError>(ParseError::Missing { pos: position, tag }),
{
    if id != tag {
        Err(missing_error(position, tag))
    } else {
        Ok(())
    }
}

/// `node` as the list tagged `tag` that is required in its place.
pub fn list_tagged(node: ChunkType, tag: Fourcc) -> (r: Result<List, ParseError>)
    ensures
        r == as_list(node, tag),
{
    match node {
        ChunkType::List(list) => match validate_tag(list.id(), list.metadata.data_start, tag) {
            Ok(()) => Ok(list),
            Err(e) => Err(e),
        },
        ChunkType::Chunk(chunk) => Err(missing_error(chunk.metadata.data_start, tag)),
    }
}

/// `node` as the chunk tagged `tag` that is required in its place.
pub fn chunk_tagged(node: ChunkType, tag: Fourcc) -> (r: Result<Chunk, ParseError>)
    ensures
        r == as_chunk(node, tag),
{
    match node {
        ChunkType::Chunk(chunk) => match validate_tag(chunk.id(), chunk.metadata.data_start, tag) {
            Ok(()) => Ok(chunk),
            Err(e) => Err(e),
        },
        ChunkType::List(list) => Err(missing_error(list.metadata.data_start, tag)),
    }
}

/// The next child of the walk, which must be there.
pub fn next_required<R: Reader>(iter: &mut ListIter, reader: &mut R) -> (r: Result<
    ChunkType,
    ParseError,
>)
    ensures
        final(reader).bytes() == old(reader).bytes(),
        final(reader).reliable() == old(reader).reliable(),
        final(iter).list == old(iter).list,
        settles(
            old(reader).reliable(),
            r,
            required(old(reader).bytes(), old(iter).next_position, old(iter).list.spec_end()),
        ),
        r matches Ok(node) ==> final(iter).next_position == node.spec_next_offset(),
{
    match iter.next(reader) {
        Some(r) => r,
        None => Err(eof_error(iter.position())),
    }
}

/// The next child of the walk, which must be a list tagged `tag`.
pub fn next_list<R: Reader>(iter: &mut ListIter, reader: &mut R, tag: Fourcc) -> (r: Result<
    List,
    ParseError,
>)
    ensures
        final(reader).bytes() == old(reader).bytes(),
        final(reader).reliable() == old(reader).reliable(),
        final(iter).list == old(iter).list,
        settles(
            old(reader).reliable(),
            r,
            required_list(
                old(reader).bytes(),
                old(iter).next_position,
                old(iter).list.spec_end(),
                tag,
            ),
        ),
        r matches Ok(list) ==> final(iter).next_position == ChunkType::List(
            list,
        ).spec_next_offset(),
{
    match next_required(iter, reader) {
        Ok(node) => list_tagged(node, tag),
        Err(e) => Err(e),
    }
}

/// The next child of the walk, which must be a chunk tagged `tag`.
pub fn next_chunk<R: Reader>(iter: &mut ListIter, reader: &mut R, tag: Fourcc) -> (r: Result<
    Chunk,
    ParseError,
>)
    ensures
        final(reader).bytes() == old(reader).bytes(),
        final(reader).reliable() == old(reader).reliable(),
        final(iter).list == old(iter).list,
        settles(
            old(reader).reliable(),
            r,
            required_chunk(
                old(reader).bytes(),
                old(iter).next_position,
                old(iter).list.spec_end(),
                tag,
            ),
        ),
        r matches Ok(chunk) ==> final(iter).next_position == ChunkType::Chunk(
            chunk,
        ).spec_next_offset(),
{
    match next_required(iter, reader) {
        Ok(node) => chunk_tagged(node, tag),
        Err(e) => Err(e),
    }
}

/// Builds the table's entry for the stream at `stream_index` from its header
/// and its format chunk. A stream that is neither video nor audio gets no
/// entry, and its format is not read. A video stream gets the sample id of
/// compressed frames whatever its codec is: uncompressed frames and palette
/// changes of the stream are found under the ids that [`stream`] gives for
/// their kind codes.
pub fn read_stream_entry<R: Reader>(
    reader: &mut R,
    stream_index: u32,
    stream_header: AviStreamHeader,
    strf: &Chunk,
) -> (r: Result<Option<StreamInfo>, ParseError>)
    ensures
        final(reader).bytes() == old(reader).bytes(),
        final(reader).reliable() == old(reader).reliable(),
        settles(
            old(reader).reliable(),
            r,
            stream_entry(
                old(reader).bytes(),
                stream_index,
                stream_header,
                strf.metadata.data_start,
            ),
        ),
{
    if stream_header.fcc_type.0 == VIDS {
        match strf.read_data_struct::<BitmapInfo, R>(reader) {
            Ok(bitmap_info) => Ok(
                Some(
                    StreamInfo::Video(
                        VideoStream {
                            stream_id: stream(stream_index, DATA_VIDEO_COMPRESSED),
                            stream_header,
                            bitmap_info,
                        },
                    ),
                ),
            ),
            Err(e) => Err(e),
        }
    } else if stream_header.fcc_type.0 == AUDS {
        match strf.read_data_struct::<WaveFormat, R>(reader) {
            Ok(wave_format) => Ok(
                Some(
                    StreamInfo::Audio(
                        AudioStream {
                            stream_id: stream(stream_index, DATA_AUDIO),
                            stream_header,
                            wave_format,
                        },
                    ),
                ),
            ),
            Err(e) => Err(e),
        }
    } else {
        Ok(None)
    }
}

/// Reads what the list `strl` holds for the stream at `stream_index`.
pub fn read_stream<R: Reader>(reader: &mut R, strl: &List, stream_index: u32) -> (r: Result<
    Option<StreamInfo>,
    ParseError,
>)
    ensures
        final(reader).bytes() == old(reader).bytes(),
        final(reader).reliable() == old(reader).reliable(),
        settles(old(reader).reliable(), r, stream_in(old(reader).bytes(), *strl, stream_index)),
{
    let mut strl_iter = strl.iter();
    let strh = match next_chunk(&mut strl_iter, reader, Fourcc(STRH)) {
        Ok(strh) => strh,
        Err(e) => {
            return Err(e);
        },
    };
    let stream_header = match strh.read_data_struct::<AviStreamHeader, R>(reader) {
        Ok(stream_header) => stream_header,
        Err(e) => {
            return Err(e);
        },
    };
    let strf = match next_chunk(&mut strl_iter, reader, Fourcc(STRF)) {
        Ok(strf) => strf,
        Err(e) => {
            return Err(e);
        },
    };
    read_stream_entry(reader, stream_index, stream_header, &strf)
}

/// Reads the next child of the header list as the description of the stream at
/// `stream_index`.
pub fn next_stream<R: Reader>(iter: &mut ListIter, reader: &mut R, stream_index: u32) -> (r: Result<
    Option<StreamInfo>,
    ParseError,
>)
    ensures
        final(reader).bytes() == old(reader).bytes(),
        final(reader).reliable() == old(reader).reliable(),
        final(iter).list == old(iter).list,
        settles(
            old(reader).reliable(),
            match r {
                Ok(entry) => Ok((entry, final(iter).next_position)),
                Err(e) => Err(e),
            },
            stream_at(
                old(reader).bytes(),
                old(iter).next_position,
                old(iter).list.spec_end(),
                stream_index,
            ),
        ),
{
    let strl = match next_list(iter, reader, Fourcc(STRL)) {
        Ok(strl) => strl,
        Err(e) => {
            return Err(e);
        },
    };
    read_stream(reader, &strl, stream_index)
}

/// `entries` put before the entries of `rest`.
pub open spec fn after(
    entries: Seq<StreamInfo>,
    rest: Result<(Seq<StreamInfo>, u64), ParseError>,
) -> Result<(Seq<StreamInfo>, u64), ParseError> {
    match rest {
        Ok((more, last)) => Ok((entries + more, last)),
        Err(e) => Err(e),
    }
}

/// Putting entries before a result is the same whether an entry goes to the end
/// of the first or to the front of the second.
pub proof fn lemma_after_entry(
    entries: Seq<StreamInfo>,
    entry: Option<StreamInfo>,
    rest: Result<(Seq<StreamInfo>, u64), ParseError>,
)
    ensures
        after(
            entries,
            match rest {
                Ok((more, last)) => Ok((with_entry(entry, more), last)),
                Err(e) => Err(e),
            },
        ) == after(
            match entry {
                Some(info) => entries.push(info),
                None => entries,
            },
            rest,
        ),
{
    match rest {
        Ok((more, last)) => {
            match entry {
                Some(info) => {
                    assert(entries + (seq![info] + more) =~= entries.push(info) + more);
                },
                None => {},
            }
        },
        Err(_) => {},
    }
}

/// Reads the entries of the `count` streams that a file declares, each from the
/// next child of the header list.
pub fn read_streams<R: Reader>(iter: &mut ListIter, reader: &mut R, count: u32) -> (r: Result<
    Vec<StreamInfo>,
    ParseError,
>)
    ensures
        final(reader).bytes() == old(reader).bytes(),
        final(reader).reliable() == old(reader).reliable(),
        final(iter).list == old(iter).list,
        settles(
            old(reader).reliable(),
            match r {
                Ok(entries) => Ok((entries@, final(iter).next_position)),
                Err(e) => Err(e),
            },
            streams_from(
                old(reader).bytes(),
                old(iter).next_position,
                old(iter).list.spec_end(),
                0,
                count,
            ),
        ),
{
    let mut stream_info: Vec<StreamInfo> = Vec::new();
    let mut stream_index: u32 = 0;
    while stream_index < count
        invariant
            stream_index <= count,
            reader.bytes() == old(reader).bytes(),
            reader.reliable() == old(reader).reliable(),
            iter.list == old(iter).list,
            streams_from(
                old(reader).bytes(),
                old(iter).next_position,
                old(iter).list.spec_end(),
                0,
                count,
            ) == after(
                stream_info@,
                streams_from(
                    reader.bytes(),
                    iter.next_position,
                    iter.list.spec_end(),
                    stream_index,
                    count,
                ),
            ),
        decreases count - stream_index,
    {
        let ghost entries = stream_info@;
        let entry = match next_stream(iter, reader, stream_index) {
            Ok(entry) => entry,
            Err(e) => {
                return Err(e);
            },
        };
        proof {
            lemma_after_entry(
                entries,
                entry,
                streams_from(
                    reader.bytes(),
                    iter.next_position,
                    iter.list.spec_end(),
                    (stream_index + 1) as u32,
                    count,
                ),
            );
        }
        match entry {
            Some(info) => {
                stream_info.push(info);
            },
            None => {},
        }
        stream_index += 1;
    }
    Ok(stream_info)
}

/// Reads the header list: the main header from its first child, then the
/// entries of the streams that the main header declares.
pub fn read_headers<R: Reader>(reader: &mut R, hdrl: &List) -> (r: Result<
    (AviMainHeader, Vec<StreamInfo>),
    ParseError,
>)
    ensures
        final(reader).bytes() == old(reader).bytes(),
        final(reader).reliable() == old(reader).reliable(),
        settles(
            old(reader).reliable(),
            match r {
                Ok((avi_header, stream_info)) => Ok((avi_header, stream_info@)),
                Err(e) => Err(e),
            },
            headers_in(old(reader).bytes(), *hdrl),
        ),
{
    let mut hdrl_iter = hdrl.iter();
    let avih = match next_chunk(&mut hdrl_iter, reader, Fourcc(AVIH)) {
        Ok(avih) => avih,
        Err(e) => {
            return Err(e);
        },
    };
    let main_header = match avih.read_data_struct::<AviMainHeader, R>(reader) {
        Ok(main_header) => main_header,
        Err(e) => {
            return Err(e);
        },
    };
    match read_streams(&mut hdrl_iter, reader, main_header.streams) {
        Ok(stream_info) => Ok((main_header, stream_info)),
        Err(e) => Err(e),
    }
}

/// One step of the search for the `movi` list: the end of the search with its
/// result, or nothing where the walk has passed over another node.
pub fn movi_step<R: Reader>(iter: &mut ListIter, reader: &mut R) -> (r: Option<
    Result<List, ParseError>,
>)
    ensures
        final(reader).bytes() == old(reader).bytes(),
        final(reader).reliable() == old(reader).reliable(),
        final(iter).list == old(iter).list,
        r matches Some(found) ==> settles(
            old(reader).reliable(),
            found,
            movi_from(old(reader).bytes(), old(iter).next_position, old(iter).list.spec_end()),
        ),
        r is None ==> final(iter).next_position > old(iter).next_position && movi_from(
            old(reader).bytes(),
            old(iter).next_position,
            old(iter).list.spec_end(),
        ) == movi_from(old(reader).bytes(), final(iter).next_position, old(iter).list.spec_end()),
{
    match next_required(iter, reader) {
        Err(e) => Some(Err(e)),
        Ok(ChunkType::List(list)) => {
            if list.id().0 == MOVI {
                Some(Ok(list))
            } else {
                None
            }
        },
        Ok(ChunkType::Chunk(_)) => None,
    }
}

/// Walks on until a list tagged `movi` comes, and returns it.
pub fn find_movi<R: Reader>(iter: &mut ListIter, reader: &mut R) -> (r: Result<List, ParseError>)
    ensures
        final(reader).bytes() == old(reader).bytes(),
        final(reader).reliable() == old(reader).reliable(),
        final(iter).list == old(iter).list,
        settles(
            old(reader).reliable(),
            r,
            movi_from(old(reader).bytes(), old(iter).next_position, old(iter).list.spec_end()),
        ),
{
    loop
        invariant
            reader.bytes() == old(reader).bytes(),
            reader.reliable() == old(reader).reliable(),
            iter.list == old(iter).list,
            movi_from(reader.bytes(), iter.next_position, iter.list.spec_end()) == movi_from(
                old(reader).bytes(),
                old(iter).next_position,
                old(iter).list.spec_end(),
            ),
        decreases u64::MAX - iter.next_position,
    {
        match movi_step(iter, reader) {
            Some(found) => {
                return found;
            },
            None => {},
        }
    }
}

impl<R: Reader> AviParser<R> {
    /// What the parser holds, as a value of the model.
    pub open spec fn spec_layout(&self) -> AviLayout {
        AviLayout {
            avi_header: self.avi_header,
            stream_info: self.stream_info@,
            movi: self.movi,
        }
    }

    /// Parses the headers of the AVI file that `parser` reads. The root list
    /// must have the form type `AVI ` and the header list as its first child;
    /// the header list holds the main header and then one `strl` list for each
    /// declared stream. The `movi` list is looked for among the children of the
    /// root behind the header list. Its samples are not read.
    pub fn new(parser: RiffParser<R>) -> (r: Result<AviParser<R>, ParseError>)
        ensures
            settles(
                parser.reader.reliable(),
                match r {
                    Ok(avi) => Ok(avi.spec_layout()),
                    Err(e) => Err(e),
                },
                layout(parser.reader.bytes()),
            ),
            r matches Ok(avi) ==> avi.parser.reader.bytes() == parser.reader.bytes()
                && avi.parser.reader.reliable() == parser.reader.reliable(),
    {
        let mut parser = parser;
        let riff = match parser.riff() {
            Ok(riff) => riff,
            Err(e) => {
                return Err(e);
            },
        };
        match validate_tag(riff.id(), riff.metadata.data_start, Fourcc(AVI)) {
            Ok(()) => {},
            Err(e) => {
                return Err(e);
            },
        }
        let mut avi_iter = riff.iter();
        let hdrl = match next_list(&mut avi_iter, &mut parser.reader, Fourcc(HDRL)) {
            Ok(hdrl) => hdrl,
            Err(e) => {
                return Err(e);
            },
        };
        let (avi_header, stream_info) = match read_headers(&mut parser.reader, &hdrl) {
            Ok(headers) => headers,
            Err(e) => {
                return Err(e);
            },
        };
        let movi = match find_movi(&mut avi_iter, &mut parser.reader) {
            Ok(movi) => movi,
            Err(e) => {
                return Err(e);
            },
        };
        Ok(AviParser { parser, avi_header, stream_info, movi })
    }

    /// The samples of the stream with sample id `stream_id` among the children
    /// of the list `movi`.
    pub fn stream_chunks(&self, stream_id: Fourcc, movi: &List) -> (chunks: StreamChunks)
        ensures
            chunks == (StreamChunks {
                iter: ListIter { list: *movi, next_position: movi.metadata.data_start },
                stream_id,
            }),
    {
        StreamChunks::new(movi, stream_id)
    }

    /// The samples of the stream with sample id `stream_id` in the file's
    /// sample list.
    pub fn movi_chunks(&self, stream_id: Fourcc) -> (chunks: StreamChunks)
        ensures
            chunks == (StreamChunks {
                iter: ListIter { list: self.movi, next_position: self.movi.metadata.data_start },
                stream_id,
            }),
    {
        self.stream_chunks(stream_id, &self.movi)
    }

    /// The best stream of `kind`: the one of the highest priority, and the
    /// first of those where several share it. Nothing is returned exactly when
    /// the table holds no stream of that kind.
    pub fn find_best_stream(&self, kind: StreamKind) -> (best: Option<&StreamInfo>)
        ensures
            best matches Some(info) ==> exists|i: int|
                is_best(self.stream_info@, kind, i) && *info == self.stream_info@[i],
            best is None ==> forall|j: int|
                0 <= j < self.stream_info@.len() ==> (#[trigger] self.stream_info@[j]).spec_kind()
                    != kind,
    {
        match best_stream_index(&self.stream_info, kind) {
            Some(i) => Some(&self.stream_info[i]),
            None => None,
        }
    }
}

} // verus!
