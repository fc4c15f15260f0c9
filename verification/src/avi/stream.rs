//! The table of streams: one entry for each audio or video stream of a file.

use crate::avi::header::{AviStreamHeader, BitmapInfo};
use crate::avi::wave::WaveFormat;
use crate::fourcc::Fourcc;
use vstd::prelude::*;

verus! {

/// The two kinds of stream that the table holds.
#[derive(Copy, Clone, Debug, PartialEq, Eq, Structural)]
pub enum StreamKind {
    Audio,
    Video,
}

/// What every entry of the table has: the id of its sample chunks and its header.
pub trait Stream {
    /// The id that the stream's sample chunks carry.
    spec fn spec_stream_id(&self) -> Fourcc;

    /// The stream's header.
    spec fn spec_stream_header(&self) -> AviStreamHeader;

    /// The id that the stream's sample chunks carry.
    fn stream_id(&self) -> (id: Fourcc)
        ensures
            id == self.spec_stream_id(),
    ;

    /// The stream's header.
    fn stream_header(&self) -> (header: &AviStreamHeader)
        ensures
            *header == self.spec_stream_header(),
    ;
}

/// An audio stream.
#[derive(Copy, Clone, Debug, PartialEq, Eq)]
pub struct AudioStream {
    pub stream_id: Fourcc,
    pub stream_header: AviStreamHeader,
    pub wave_format: WaveFormat,
}

/// A video stream.
#[derive(Copy, Clone, Debug, PartialEq, Eq)]
pub struct VideoStream {
    pub stream_id: Fourcc,
    pub stream_header: AviStreamHeader,
    pub bitmap_info: BitmapInfo,
}

/// One entry of the table of streams.
#[derive(Copy, Clone, Debug, PartialEq, Eq)]
pub enum StreamInfo {
    Audio(AudioStream),
    Video(VideoStream),
}

impl<'a> TryFrom<&'a StreamInfo> for &'a AudioStream {
    type Error = ();

    fn try_from(value: &'a StreamInfo) -> (r: Result<&'a AudioStream, ()>) {
        match value {
            StreamInfo::Audio(audio) => Ok(audio),
            StreamInfo::Video(_) => Err(()),
        }
    }
}

impl<'a> vstd::std_specs::convert::TryFromSpecImpl<&'a StreamInfo> for &'a AudioStream {
    open spec fn obeys_try_from_spec() -> bool {
        true
    }

    open spec fn try_from_spec(value: &'a StreamInfo) -> Result<&'a AudioStream, ()> {
        match *value {
            StreamInfo::Audio(audio) => Ok(&audio),
            StreamInfo::Video(_) => Err(()),
        }
    }
}

impl<'a> TryFrom<&'a StreamInfo> for &'a VideoStream {
    type Error = ();

    fn try_from(value: &'a StreamInfo) -> (r: Result<&'a VideoStream, ()>) {
        match value {
            StreamInfo::Video(video) => Ok(video),
            StreamInfo::Audio(_) => Err(()),
        }
    }
}

impl<'a> vstd::std_specs::convert::TryFromSpecImpl<&'a StreamInfo> for &'a VideoStream {
    open spec fn obeys_try_from_spec() -> bool {
        true
    }

    open spec fn try_from_spec(value: &'a StreamInfo) -> Result<&'a VideoStream, ()> {
        match *value {
            StreamInfo::Video(video) => Ok(&video),
            StreamInfo::Audio(_) => Err(()),
        }
    }
}

impl Stream for AudioStream {
    open spec fn spec_stream_id(&self) -> Fourcc {
        self.stream_id
    }

    open spec fn spec_stream_header(&self) -> AviStreamHeader {
        self.stream_header
    }

    fn stream_id(&self) -> (id: Fourcc) {
        self.stream_id
    }

    fn stream_header(&self) -> (header: &AviStreamHeader) {
        &self.stream_header
    }
}

impl Stream for VideoStream {
    open spec fn spec_stream_id(&self) -> Fourcc {
        self.stream_id
    }

    open spec fn spec_stream_header(&self) -> AviStreamHeader {
        self.stream_header
    }

    fn stream_id(&self) -> (id: Fourcc) {
        self.stream_id
    }

    fn stream_header(&self) -> (header: &AviStreamHeader) {
        &self.stream_header
    }
}

impl Stream for StreamInfo {
    open spec fn spec_stream_id(&self) -> Fourcc {
        match *self {
            StreamInfo::Audio(audio) => audio.stream_id,
            StreamInfo::Video(video) => video.stream_id,
        }
    }

    open spec fn spec_stream_header(&self) -> AviStreamHeader {
        match *self {
            StreamInfo::Audio(audio) => audio.stream_header,
            StreamInfo::Video(video) => video.stream_header,
        }
    }

    fn stream_id(&self) -> (id: Fourcc) {
        match self {
            StreamInfo::Audio(audio) => audio.stream_id,
            StreamInfo::Video(video) => video.stream_id,
        }
    }

    fn stream_header(&self) -> (header: &AviStreamHeader) {
        match self {
            StreamInfo::Audio(audio) => &audio.stream_header,
            StreamInfo::Video(video) => &video.stream_header,
        }
    }
}

impl StreamInfo {
    /// The kind of the entry.
    pub open spec fn spec_kind(&self) -> StreamKind {
        match *self {
            StreamInfo::Audio(_) => StreamKind::Audio,
            StreamInfo::Video(_) => StreamKind::Video,
        }
    }

    /// The kind of the entry.
    pub fn kind(&self) -> (kind: StreamKind)
        ensures
            kind == self.spec_kind(),
    {
        match self {
            StreamInfo::Audio(_) => StreamKind::Audio,
            StreamInfo::Video(_) => StreamKind::Video,
        }
    }
}

/// Whether the entry at `i` is the best stream of `kind`: it is of that kind, no
/// entry of that kind has a higher priority, and every earlier one has a lower.
pub open spec fn is_best(streams: Seq<StreamInfo>, kind: StreamKind, i: int) -> bool {
    &&& 0 <= i < streams.len()
    &&& streams[i].spec_kind() == kind
    &&& forall|j: int|
        0 <= j < streams.len() && (#[trigger] streams[j]).spec_kind() == kind
            ==> streams[j].spec_stream_header().priority
            <= streams[i].spec_stream_header().priority
    &&& forall|j: int|
        0 <= j < i && (#[trigger] streams[j]).spec_kind() == kind
            ==> streams[j].spec_stream_header().priority
            < streams[i].spec_stream_header().priority
}

/// The index of the best stream of `kind`: the first among those of the highest
/// priority. Nothing is returned exactly when no stream is of that kind.
pub fn best_stream_index(streams: &Vec<StreamInfo>, kind: StreamKind) -> (best: Option<usize>)
    ensures
        best matches Some(i) ==> is_best(streams@, kind, i as int),
        best is None ==> forall|j: int|
            0 <= j < streams@.len() ==> (#[trigger] streams@[j]).spec_kind() != kind,
{
    let mut best: Option<usize> = None;
    let mut i: usize = 0;
    while i < streams.len()
        invariant
            i <= streams@.len(),
            best matches Some(b) ==> b < i && is_best(streams@.take(i as int), kind, b as int),
            best is None ==> forall|j: int|
                0 <= j < i ==> (#[trigger] streams@[j]).spec_kind() != kind,
        decreases streams@.len() - i,
    {
        if streams[i].kind() == kind {
            let priority = streams[i].stream_header().priority;
            let better = match best {
                None => true,
                Some(b) => priority > streams[b].stream_header().priority,
            };
            if better {
                best = Some(i);
            }
        }
        i += 1;
    }
    assert(streams@.take(i as int) =~= streams@);
    best
}

/// Two entries that are both the best of their kind are the same entry.
pub proof fn lemma_best_is_unique(streams: Seq<StreamInfo>, kind: StreamKind, i: int, j: int)
    requires
        is_best(streams, kind, i),
        is_best(streams, kind, j),
    ensures
        i == j,
{
}

} // verus!
