//! The formats of an audio stream: a format tag, a common header, and the fields
//! of the format that the tag names.

use crate::codec::{read_u16, read_u32, u16_at, u32_at};
use crate::error::{ErrorKind, ParseError};
use crate::io::Reader;
use crate::record::{fixed, read_block, Record};
use vstd::prelude::*;
use vstd::slice::slice_subrange;

verus! {

/// The format tag of PCM audio.
pub const WAVE_FORMAT_PCM: u16 = 0x0001;

/// The format tag of the extensible format.
pub const WAVE_FORMAT_EXTENSIBLE: u16 = 0xfffe;

/// The format tag of MPEG-1 audio.
pub const WAVE_FORMAT_MPEG: u16 = 0x0050;

/// The format tag of MP3 audio.
pub const WAVE_FORMAT_MPEGLAYER3: u16 = 0x0055;

/// The header that every audio format has behind its format tag.
///
/// The last field, the size of what follows, is optional in the stream: where
/// the stream ends behind `bits_per_sample`, `size` is 0.
#[derive(Copy, Clone, Debug, PartialEq, Eq)]
pub struct WaveFormatEx {
    pub channels: u16,
    pub samples_per_sec: u32,
    pub av_bytes_per_sec: u32,
    pub block_align: u16,
    pub bits_per_sample: u16,
    pub size: u16,
}

/// A 16-byte identifier.
#[derive(Copy, Clone, Debug, PartialEq, Eq)]
pub struct Guid {
    pub data1: u32,
    pub data2: u16,
    pub data3: u16,
    pub data4: [u8; 8],
}

/// The extensible format.
#[derive(Copy, Clone, Debug, PartialEq, Eq)]
pub struct WaveFormatExtensible {
    pub format: WaveFormatEx,
    pub samples: u16,
    pub channel_mask: u32,
    pub sub_format: Guid,
}

/// The format of MPEG-1 audio.
#[derive(Copy, Clone, Debug, PartialEq, Eq)]
pub struct Mpeg1WaveFormat {
    pub format: WaveFormatEx,
    pub head_layer: u16,
    pub head_bitrate: u32,
    pub head_mode: u16,
    pub head_mode_ext: u16,
    pub head_emphasis: u16,
    pub head_flags: u16,
    pub pts_low: u32,
    pub pts_high: u32,
}

/// The format of MP3 audio.
#[derive(Copy, Clone, Debug, PartialEq, Eq)]
pub struct Mp3WaveFormat {
    pub format: WaveFormatEx,
    pub id: u16,
    pub flags: u32,
    pub block_size: u16,
    pub frames_per_block: u16,
    pub codec_delay: u16,
}

/// The format of an audio stream, the payload of its `strf` chunk. The leading
/// 16-bit format tag selects the variant.
#[derive(Copy, Clone, Debug, PartialEq, Eq)]
pub enum WaveFormat {
    Pcm(WaveFormatEx),
    Extensible(WaveFormatExtensible),
    Mpeg1(Mpeg1WaveFormat),
    Mp3(Mp3WaveFormat),
}

impl Guid {
    /// The number of bytes of the record.
    pub const SIZE: usize = 16;

    /// The record whose bytes begin at `at`.
    pub open spec fn decode(bytes: Seq<u8>, at: int) -> Guid {
        Guid {
            data1: u32_at(bytes, at),
            data2: u16_at(bytes, at + 4),
            data3: u16_at(bytes, at + 6),
            data4: [
                bytes[at + 8],
                bytes[at + 9],
                bytes[at + 10],
                bytes[at + 11],
                bytes[at + 12],
                bytes[at + 13],
                bytes[at + 14],
                bytes[at + 15],
            ],
        }
    }

    /// Decodes the record with which `bytes` begin, or nothing where they are
    /// fewer than the record takes.
    pub fn from_bytes(bytes: &[u8]) -> (r: Option<Guid>)
        ensures
            r is Some <==> bytes@.len() >= 16,
            r matches Some(record) ==> record == Guid::decode(bytes@, 0),
    {
        if bytes.len() < 16 {
            return None;
        }
        let data4 = [
            bytes[8],
            bytes[9],
            bytes[10],
            bytes[11],
            bytes[12],
            bytes[13],
            bytes[14],
            bytes[15],
        ];
        Some(
            Guid {
                data1: read_u32(bytes, 0)?,
                data2: read_u16(bytes, 4)?,
                data3: read_u16(bytes, 6)?,
                data4,
            },
        )
    }
}

impl Record for Guid {
    open spec fn parse(bytes: Seq<u8>, at: int) -> Result<Self, ParseError> {
        fixed(bytes, at, 16, Guid::decode(bytes, at))
    }

    fn read<R: Reader>(reader: &mut R) -> (r: Result<Self, ParseError>) {
        let block = match read_block(reader, 16) {
            Ok(block) => block,
            Err(e) => {
                return Err(e);
            },
        };
        match Guid::from_bytes(block.as_slice()) {
            Some(record) => Ok(record),
            None => Err(ParseError::Io(ErrorKind::UnexpectedEof)),
        }
    }
}

impl WaveFormatEx {
    /// The number of bytes of the record with its size field.
    pub const SIZE: usize = 16;

    /// The number of bytes of the record without its size field.
    pub const SHORT_SIZE: usize = 14;

    /// The record whose bytes begin at `at`, with the size field that stands
    /// behind them.
    pub open spec fn decode(bytes: Seq<u8>, at: int) -> WaveFormatEx {
        WaveFormatEx { size: u16_at(bytes, at + 14), ..WaveFormatEx::decode_short(bytes, at) }
    }

    /// The record whose bytes begin at `at`, where no size field follows.
    pub open spec fn decode_short(bytes: Seq<u8>, at: int) -> WaveFormatEx {
        WaveFormatEx {
            channels: u16_at(bytes, at),
            samples_per_sec: u32_at(bytes, at + 2),
            av_bytes_per_sec: u32_at(bytes, at + 6),
            block_align: u16_at(bytes, at + 10),
            bits_per_sample: u16_at(bytes, at + 12),
            size: 0,
        }
    }

    /// What `len` bytes from `at` on decode to: the record with its size field
    /// where 16 bytes are there, without it where 14 are, else nothing.
    pub open spec fn decode_within(bytes: Seq<u8>, at: int, len: int) -> Option<WaveFormatEx> {
        if len >= 16 {
            Some(WaveFormatEx::decode(bytes, at))
        } else if len >= 14 {
            Some(WaveFormatEx::decode_short(bytes, at))
        } else {
            None
        }
    }

    /// Decodes the record with which `bytes` begin; the size field is read where
    /// the bytes hold it.
    pub fn from_bytes(bytes: &[u8]) -> (r: Option<WaveFormatEx>)
        ensures
            r == WaveFormatEx::decode_within(bytes@, 0, bytes@.len() as int),
    {
        if bytes.len() < 14 {
            return None;
        }
        let size = match read_u16(bytes, 14) {
            Some(size) => size,
            None => 0,
        };
        Some(
            WaveFormatEx {
                channels: read_u16(bytes, 0)?,
                samples_per_sec: read_u32(bytes, 2)?,
                av_bytes_per_sec: read_u32(bytes, 6)?,
                block_align: read_u16(bytes, 10)?,
                bits_per_sample: read_u16(bytes, 12)?,
                size,
            },
        )
    }
}

impl Record for WaveFormatEx {
    open spec fn parse(bytes: Seq<u8>, at: int) -> Result<Self, ParseError> {
        match WaveFormatEx::decode_within(bytes, at, bytes.len() - at) {
            Some(record) => Ok(record),
            None => Err(ParseError::Io(ErrorKind::UnexpectedEof)),
        }
    }

    fn read<R: Reader>(reader: &mut R) -> (r: Result<Self, ParseError>) {
        let mut block = match read_block(reader, 14) {
            Ok(block) => block,
            Err(e) => {
                return Err(e);
            },
        };
        match read_block(reader, 2) {
            Ok(mut size) => {
                block.append(&mut size);
            },
            Err(ParseError::Io(ErrorKind::UnexpectedEof)) => {},
            Err(e) => {
                return Err(e);
            },
        }
        match WaveFormatEx::from_bytes(block.as_slice()) {
            Some(record) => Ok(record),
            None => Err(ParseError::Io(ErrorKind::UnexpectedEof)),
        }
    }
}

impl WaveFormatExtensible {
    /// The number of bytes of the record.
    pub const SIZE: usize = 38;

    /// The record whose bytes begin at `at`.
    pub open spec fn decode(bytes: Seq<u8>, at: int) -> WaveFormatExtensible {
        WaveFormatExtensible {
            format: WaveFormatEx::decode(bytes, at),
            samples: u16_at(bytes, at + 16),
            channel_mask: u32_at(bytes, at + 18),
            sub_format: Guid::decode(bytes, at + 22),
        }
    }

    /// Decodes the record with which `bytes` begin, or nothing where they are
    /// fewer than the record takes.
    pub fn from_bytes(bytes: &[u8]) -> (r: Option<WaveFormatExtensible>)
        ensures
            r is Some <==> bytes@.len() >= 38,
            r matches Some(record) ==> record == WaveFormatExtensible::decode(bytes@, 0),
    {
        if bytes.len() < 38 {
            return None;
        }
        let format = WaveFormatEx::from_bytes(slice_subrange(bytes, 0, 16))?;
        let sub_format = Guid::from_bytes(slice_subrange(bytes, 22, 38))?;
        Some(
            WaveFormatExtensible {
                format,
                samples: read_u16(bytes, 16)?,
                channel_mask: read_u32(bytes, 18)?,
                sub_format,
            },
        )
    }
}

impl Record for WaveFormatExtensible {
    open spec fn parse(bytes: Seq<u8>, at: int) -> Result<Self, ParseError> {
        fixed(bytes, at, 38, WaveFormatExtensible::decode(bytes, at))
    }

    fn read<R: Reader>(reader: &mut R) -> (r: Result<Self, ParseError>) {
        let block = match read_block(reader, 38) {
            Ok(block) => block,
            Err(e) => {
                return Err(e);
            },
        };
        match WaveFormatExtensible::from_bytes(block.as_slice()) {
            Some(record) => Ok(record),
            None => Err(ParseError::Io(ErrorKind::UnexpectedEof)),
        }
    }
}

impl Mpeg1WaveFormat {
    /// The number of bytes of the record.
    pub const SIZE: usize = 38;

    /// The record whose bytes begin at `at`.
    pub open spec fn decode(bytes: Seq<u8>, at: int) -> Mpeg1WaveFormat {
        Mpeg1WaveFormat {
            format: WaveFormatEx::decode(bytes, at),
            head_layer: u16_at(bytes, at + 16),
            head_bitrate: u32_at(bytes, at + 18),
            head_mode: u16_at(bytes, at + 22),
            head_mode_ext: u16_at(bytes, at + 24),
            head_emphasis: u16_at(bytes, at + 26),
            head_flags: u16_at(bytes, at + 28),
            pts_low: u32_at(bytes, at + 30),
            pts_high: u32_at(bytes, at + 34),
        }
    }

    /// Decodes the record with which `bytes` begin, or nothing where they are
    /// fewer than the record takes.
    pub fn from_bytes(bytes: &[u8]) -> (r: Option<Mpeg1WaveFormat>)
        ensures
            r is Some <==> bytes@.len() >= 38,
            r matches Some(record) ==> record == Mpeg1WaveFormat::decode(bytes@, 0),
    {
        if bytes.len() < 38 {
            return None;
        }
        let format = WaveFormatEx::from_bytes(slice_subrange(bytes, 0, 16))?;
        Some(
            Mpeg1WaveFormat {
                format,
                head_layer: read_u16(bytes, 16)?,
                head_bitrate: read_u32(bytes, 18)?,
                head_mode: read_u16(bytes, 22)?,
                head_mode_ext: read_u16(bytes, 24)?,
                head_emphasis: read_u16(bytes, 26)?,
                head_flags: read_u16(bytes, 28)?,
                pts_low: read_u32(bytes, 30)?,
                pts_high: read_u32(bytes, 34)?,
            },
        )
    }
}

impl Record for Mpeg1WaveFormat {
    open spec fn parse(bytes: Seq<u8>, at: int) -> Result<Self, ParseError> {
        fixed(bytes, at, 38, Mpeg1WaveFormat::decode(bytes, at))
    }

    fn read<R: Reader>(reader: &mut R) -> (r: Result<Self, ParseError>) {
        let block = match read_block(reader, 38) {
            Ok(block) => block,
            Err(e) => {
                return Err(e);
            },
        };
        match Mpeg1WaveFormat::from_bytes(block.as_slice()) {
            Some(record) => Ok(record),
            None => Err(ParseError::Io(ErrorKind::UnexpectedEof)),
        }
    }
}

impl Mp3WaveFormat {
    /// The number of bytes of the record.
    pub const SIZE: usize = 28;

    /// The record whose bytes begin at `at`.
    pub open spec fn decode(bytes: Seq<u8>, at: int) -> Mp3WaveFormat {
        Mp3WaveFormat {
            format: WaveFormatEx::decode(bytes, at),
            id: u16_at(bytes, at + 16),
            flags: u32_at(bytes, at + 18),
            block_size: u16_at(bytes, at + 22),
            frames_per_block: u16_at(bytes, at + 24),
            codec_delay: u16_at(bytes, at + 26),
        }
    }

    /// Decodes the record with which `bytes` begin, or nothing where they are
    /// fewer than the record takes.
    pub fn from_bytes(bytes: &[u8]) -> (r: Option<Mp3WaveFormat>)
        ensures
            r is Some <==> bytes@.len() >= 28,
            r matches Some(record) ==> record == Mp3WaveFormat::decode(bytes@, 0),
    {
        if bytes.len() < 28 {
            return None;
        }
        let format = WaveFormatEx::from_bytes(slice_subrange(bytes, 0, 16))?;
        Some(
            Mp3WaveFormat {
                format,
                id: read_u16(bytes, 16)?,
                flags: read_u32(bytes, 18)?,
                block_size: read_u16(bytes, 22)?,
                frames_per_block: read_u16(bytes, 24)?,
                codec_delay: read_u16(bytes, 26)?,
            },
        )
    }
}

impl Record for Mp3WaveFormat {
    open spec fn parse(bytes: Seq<u8>, at: int) -> Result<Self, ParseError> {
        fixed(bytes, at, 28, Mp3WaveFormat::decode(bytes, at))
    }

    fn read<R: Reader>(reader: &mut R) -> (r: Result<Self, ParseError>) {
        let block = match read_block(reader, 28) {
            Ok(block) => block,
            Err(e) => {
                return Err(e);
            },
        };
        match Mp3WaveFormat::from_bytes(block.as_slice()) {
            Some(record) => Ok(record),
            None => Err(ParseError::Io(ErrorKind::UnexpectedEof)),
        }
    }
}

impl WaveFormat {
    /// The format that the tag `format` names, decoded from the bytes behind the
    /// tag, which begin at `at`; `pos` is the offset of the tag itself.
    pub open spec fn decode_tagged(bytes: Seq<u8>, pos: int, format: u16, at: int) -> Result<
        WaveFormat,
        ParseError,
    > {
        if format == WAVE_FORMAT_PCM {
            match WaveFormatEx::parse(bytes, at) {
                Ok(f) => Ok(WaveFormat::Pcm(f)),
                Err(e) => Err(e),
            }
        } else if format == WAVE_FORMAT_EXTENSIBLE {
            match WaveFormatExtensible::parse(bytes, at) {
                Ok(f) => Ok(WaveFormat::Extensible(f)),
                Err(e) => Err(e),
            }
        } else if format == WAVE_FORMAT_MPEG {
            match Mpeg1WaveFormat::parse(bytes, at) {
                Ok(f) => Ok(WaveFormat::Mpeg1(f)),
                Err(e) => Err(e),
            }
        } else if format == WAVE_FORMAT_MPEGLAYER3 {
            match Mp3WaveFormat::parse(bytes, at) {
                Ok(f) => Ok(WaveFormat::Mp3(f)),
                Err(e) => Err(e),
            }
        } else {
            Err(ParseError::UnknownFormat { pos: pos as u64, format })
        }
    }

    /// The format tag that selects the variant.
    pub open spec fn spec_format_tag(self) -> u16 {
        match self {
            WaveFormat::Pcm(_) => WAVE_FORMAT_PCM,
            WaveFormat::Extensible(_) => WAVE_FORMAT_EXTENSIBLE,
            WaveFormat::Mpeg1(_) => WAVE_FORMAT_MPEG,
            WaveFormat::Mp3(_) => WAVE_FORMAT_MPEGLAYER3,
        }
    }

    /// The format tag that selects the variant.
    pub fn format_tag(&self) -> (format: u16)
        ensures
            format == self.spec_format_tag(),
    {
        match self {
            WaveFormat::Pcm(_) => WAVE_FORMAT_PCM,
            WaveFormat::Extensible(_) => WAVE_FORMAT_EXTENSIBLE,
            WaveFormat::Mpeg1(_) => WAVE_FORMAT_MPEG,
            WaveFormat::Mp3(_) => WAVE_FORMAT_MPEGLAYER3,
        }
    }

    /// The common header of the format.
    pub fn format(&self) -> (format: &WaveFormatEx)
        ensures
            *format == match *self {
                WaveFormat::Pcm(f) => f,
                WaveFormat::Extensible(f) => f.format,
                WaveFormat::Mpeg1(f) => f.format,
                WaveFormat::Mp3(f) => f.format,
            },
    {
        match self {
            WaveFormat::Pcm(f) => f,
            WaveFormat::Extensible(f) => &f.format,
            WaveFormat::Mpeg1(f) => &f.format,
            WaveFormat::Mp3(f) => &f.format,
        }
    }
}

impl Record for WaveFormat {
    open spec fn parse(bytes: Seq<u8>, at: int) -> Result<Self, ParseError> {
        if at + 2 > bytes.len() {
            Err(ParseError::Io(ErrorKind::UnexpectedEof))
        } else {
            WaveFormat::decode_tagged(bytes, at, u16_at(bytes, at), at + 2)
        }
    }

    fn read<R: Reader>(reader: &mut R) -> (r: Result<Self, ParseError>) {
        let pos = match reader.stream_position() {
            Ok(pos) => pos,
            Err(e) => {
                return Err(ParseError::Io(e));
            },
        };
        let tag = match read_block(reader, 2) {
            Ok(tag) => tag,
            Err(e) => {
                return Err(e);
            },
        };
        let format = match read_u16(tag.as_slice(), 0) {
            Some(format) => format,
            None => {
                return Err(ParseError::Io(ErrorKind::UnexpectedEof));
            },
        };
        if format == WAVE_FORMAT_PCM {
            match WaveFormatEx::read(reader) {
                Ok(f) => Ok(WaveFormat::Pcm(f)),
                Err(e) => Err(e),
            }
        } else if format == WAVE_FORMAT_EXTENSIBLE {
            match WaveFormatExtensible::read(reader) {
                Ok(f) => Ok(WaveFormat::Extensible(f)),
                Err(e) => Err(e),
            }
        } else if format == WAVE_FORMAT_MPEG {
            match Mpeg1WaveFormat::read(reader) {
                Ok(f) => Ok(WaveFormat::Mpeg1(f)),
                Err(e) => Err(e),
            }
        } else if format == WAVE_FORMAT_MPEGLAYER3 {
            match Mp3WaveFormat::read(reader) {
                Ok(f) => Ok(WaveFormat::Mp3(f)),
                Err(e) => Err(e),
            }
        } else {
            Err(ParseError::UnknownFormat { pos, format })
        }
    }
}

} // verus!
