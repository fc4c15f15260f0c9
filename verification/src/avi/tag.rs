//! The tags of the AVI layout, as the raw values of their codes, and the ids of
//! the sample chunks of a stream.

use crate::fourcc::Fourcc;
use vstd::prelude::*;

verus! {

/// `AVI `, the form type of the root list.
pub const AVI: u32 = 0x2049_5641;

/// `hdrl`, the list of headers.
pub const HDRL: u32 = 0x6c72_6468;

/// `avih`, the main header.
pub const AVIH: u32 = 0x6869_7661;

/// `strl`, the list that describes one stream.
pub const STRL: u32 = 0x6c72_7473;

/// `strh`, the header of a stream.
pub const STRH: u32 = 0x6872_7473;

/// `strf`, the format of a stream.
pub const STRF: u32 = 0x6672_7473;

/// `vids`, the type of a video stream.
pub const VIDS: u32 = 0x7364_6976;

/// `auds`, the type of an audio stream.
pub const AUDS: u32 = 0x7364_7561;

/// `movi`, the list of sample chunks.
pub const MOVI: u32 = 0x6976_6f6d;

/// `dc`, the kind code of a compressed video frame.
pub const DATA_VIDEO_COMPRESSED: [u8; 2] = [0x64, 0x63];

/// `db`, the kind code of an uncompressed video frame.
pub const DATA_VIDEO_UNCOMPRESSED: [u8; 2] = [0x64, 0x62];

/// `pc`, the kind code of a palette change.
pub const DATA_PALETTE_CHANGED: [u8; 2] = [0x70, 0x63];

/// `wb`, the kind code of audio data.
pub const DATA_AUDIO: [u8; 2] = [0x77, 0x62];

/// The constants are the codes of the ASCII bytes that they are named after.
pub proof fn lemma_avi_tags()
    ensures
        Fourcc(AVI).spec_bytes() == seq![0x41u8, 0x56u8, 0x49u8, 0x20u8],
        Fourcc(HDRL).spec_bytes() == seq![0x68u8, 0x64u8, 0x72u8, 0x6cu8],
        Fourcc(AVIH).spec_bytes() == seq![0x61u8, 0x76u8, 0x69u8, 0x68u8],
        Fourcc(STRL).spec_bytes() == seq![0x73u8, 0x74u8, 0x72u8, 0x6cu8],
        Fourcc(STRH).spec_bytes() == seq![0x73u8, 0x74u8, 0x72u8, 0x68u8],
        Fourcc(STRF).spec_bytes() == seq![0x73u8, 0x74u8, 0x72u8, 0x66u8],
        Fourcc(VIDS).spec_bytes() == seq![0x76u8, 0x69u8, 0x64u8, 0x73u8],
        Fourcc(AUDS).spec_bytes() == seq![0x61u8, 0x75u8, 0x64u8, 0x73u8],
        Fourcc(MOVI).spec_bytes() == seq![0x6du8, 0x6fu8, 0x76u8, 0x69u8],
{
}

/// The ordinal that a sample id shows for the stream at `stream_index`: the
/// index itself, held at 99 so that it fits two decimal digits.
pub open spec fn ordinal(stream_index: u32) -> u32 {
    if stream_index > 99 {
        99
    } else {
        stream_index
    }
}

/// The bytes of the sample id of the stream at `stream_index` for data of kind
/// `datatype`: the two decimal digits of the ordinal, then the kind code.
pub open spec fn stream_bytes(stream_index: u32, datatype: [u8; 2]) -> Seq<u8> {
    seq![
        (0x30 + ordinal(stream_index) / 10) as u8,
        (0x30 + ordinal(stream_index) % 10) as u8,
        datatype[0],
        datatype[1],
    ]
}

/// The sample id of the stream at `stream_index` for data of kind `datatype`.
pub open spec fn spec_stream(stream_index: u32, datatype: [u8; 2]) -> Fourcc {
    Fourcc(
        ((0x30 + ordinal(stream_index) / 10) + 256 * (0x30 + ordinal(stream_index) % 10) + 65536
            * datatype[0] + 16777216 * datatype[1]) as u32,
    )
}

/// The id that the sample chunks of the stream at `stream_index` carry for data
/// of kind `datatype`.
#[verifier::when_used_as_spec(spec_stream)]
pub fn stream(stream_index: u32, datatype: [u8; 2]) -> (id: Fourcc)
    ensures
        id == spec_stream(stream_index, datatype),
        id.spec_bytes() == stream_bytes(stream_index, datatype),
{
    let index: u32 = if stream_index > 99 {
        99
    } else {
        stream_index
    };
    Fourcc::new(
        [0x30u8 + ((index / 10) as u8), 0x30u8 + ((index % 10) as u8), datatype[0], datatype[1]],
    )
}

} // verus!
