//! The fixed records of the header list: the main header, the stream header and
//! the video format.

use crate::codec::{i16_at, i32_at, read_i16, read_i32, read_u16, read_u32, u16_at, u32_at};
use crate::error::{ErrorKind, ParseError};
use crate::fourcc::Fourcc;
use crate::io::Reader;
use crate::record::{fixed, read_block, Record};
use vstd::slice::slice_subrange;
use vstd::prelude::*;

verus! {

/// The main header of a file, the payload of the `avih` chunk.
#[derive(Copy, Clone, Debug, PartialEq, Eq)]
pub struct AviMainHeader {
    pub micro_sec_per_frame: u32,
    pub max_bytes_per_sec: u32,
    pub padding_granularity: u32,
    pub flags: u32,
    pub total_frames: u32,
    pub initial_frames: u32,
    pub streams: u32,
    pub suggested_buffer_size: u32,
    pub width: u32,
    pub height: u32,
    pub reserved: [u32; 4],
}

/// The rectangle of a stream within the canvas.
#[derive(Copy, Clone, Debug, PartialEq, Eq)]
pub struct Frame {
    pub left: i16,
    pub top: i16,
    pub right: i16,
    pub bottom: i16,
}

/// The header of one stream, the payload of a `strh` chunk.
#[derive(Copy, Clone, Debug, PartialEq, Eq)]
pub struct AviStreamHeader {
    pub fcc_type: Fourcc,
    pub fcc_handler: Fourcc,
    pub flags: u32,
    pub priority: u16,
    pub language: u16,
    pub initial_frames: u32,
    pub scale: u32,
    pub rate: u32,
    pub start: u32,
    pub length: u32,
    pub suggested_buffer_size: u32,
    pub quality: u32,
    pub sample_size: u32,
    pub frame: Frame,
}

/// The format of a video stream, the payload of its `strf` chunk. A colour
/// table behind it is not read.
#[derive(Copy, Clone, Debug, PartialEq, Eq)]
pub struct BitmapInfo {
    pub size: u32,
    pub width: i32,
    pub height: i32,
    pub planes: u16,
    pub bit_count: u16,
    pub compression: u32,
    pub size_image: u32,
    pub x_pels_per_meter: i32,
    pub y_pels_per_meter: i32,
    pub clr_used: u32,
    pub clr_important: u32,
}

impl AviMainHeader {
    /// The number of bytes of the record.
    pub const SIZE: usize = 56;

    /// The record whose bytes begin at `at`.
    pub open spec fn decode(bytes: Seq<u8>, at: int) -> AviMainHeader {
        AviMainHeader {
            micro_sec_per_frame: u32_at(bytes, at),
            max_bytes_per_sec: u32_at(bytes, at + 4),
            padding_granularity: u32_at(bytes, at + 8),
            flags: u32_at(bytes, at + 12),
            total_frames: u32_at(bytes, at + 16),
            initial_frames: u32_at(bytes, at + 20),
            streams: u32_at(bytes, at + 24),
            suggested_buffer_size: u32_at(bytes, at + 28),
            width: u32_at(bytes, at + 32),
            height: u32_at(bytes, at + 36),
            reserved: [
                u32_at(bytes, at + 40),
                u32_at(bytes, at + 44),
                u32_at(bytes, at + 48),
                u32_at(bytes, at + 52),
            ],
        }
    }

    /// Decodes the record with which `bytes` begin, or nothing where they are
    /// fewer than the record takes.
    pub fn from_bytes(bytes: &[u8]) -> (r: Option<AviMainHeader>)
        ensures
            r is Some <==> bytes@.len() >= 56,
            r matches Some(header) ==> header == AviMainHeader::decode(bytes@, 0),
    {
        if bytes.len() < 56 {
            return None;
        }
        let reserved = [
            read_u32(bytes, 40)?,
            read_u32(bytes, 44)?,
            read_u32(bytes, 48)?,
            read_u32(bytes, 52)?,
        ];
        assert(reserved =~= AviMainHeader::decode(bytes@, 0).reserved);
        Some(
            AviMainHeader {
                micro_sec_per_frame: read_u32(bytes, 0)?,
                max_bytes_per_sec: read_u32(bytes, 4)?,
                padding_granularity: read_u32(bytes, 8)?,
                flags: read_u32(bytes, 12)?,
                total_frames: read_u32(bytes, 16)?,
                initial_frames: read_u32(bytes, 20)?,
                streams: read_u32(bytes, 24)?,
                suggested_buffer_size: read_u32(bytes, 28)?,
                width: read_u32(bytes, 32)?,
                height: read_u32(bytes, 36)?,
                reserved,
            },
        )
    }
}

impl Record for AviMainHeader {
    open spec fn parse(bytes: Seq<u8>, at: int) -> Result<Self, ParseError> {
        fixed(bytes, at, 56, AviMainHeader::decode(bytes, at))
    }

    fn read<R: Reader>(reader: &mut R) -> (r: Result<Self, ParseError>) {
        let block = match read_block(reader, 56) {
            Ok(block) => block,
            Err(e) => {
                return Err(e);
            },
        };
        match AviMainHeader::from_bytes(block.as_slice()) {
            Some(header) => Ok(header),
            None => Err(ParseError::Io(ErrorKind::UnexpectedEof)),
        }
    }
}

impl Frame {
    /// The number of bytes of the record.
    pub const SIZE: usize = 8;

    /// The record whose bytes begin at `at`.
    pub open spec fn decode(bytes: Seq<u8>, at: int) -> Frame {
        Frame {
            left: i16_at(bytes, at),
            top: i16_at(bytes, at + 2),
            right: i16_at(bytes, at + 4),
            bottom: i16_at(bytes, at + 6),
        }
    }

    /// Decodes the record with which `bytes` begin, or nothing where they are
    /// fewer than the record takes.
    pub fn from_bytes(bytes: &[u8]) -> (r: Option<Frame>)
        ensures
            r is Some <==> bytes@.len() >= 8,
            r matches Some(record) ==> record == Frame::decode(bytes@, 0),
    {
        if bytes.len() < 8 {
            return None;
        }
        Some(
            Frame {
                left: read_i16(bytes, 0)?,
                top: read_i16(bytes, 2)?,
                right: read_i16(bytes, 4)?,
                bottom: read_i16(bytes, 6)?,
            },
        )
    }
}

impl Record for Frame {
    open spec fn parse(bytes: Seq<u8>, at: int) -> Result<Self, ParseError> {
        fixed(bytes, at, 8, Frame::decode(bytes, at))
    }

    fn read<R: Reader>(reader: &mut R) -> (r: Result<Self, ParseError>) {
        let block = match read_block(reader, 8) {
            Ok(block) => block,
            Err(e) => {
                return Err(e);
            },
        };
        match Frame::from_bytes(block.as_slice()) {
            Some(record) => Ok(record),
            None => Err(ParseError::Io(ErrorKind::UnexpectedEof)),
        }
    }
}

impl AviStreamHeader {
    /// The number of bytes of the record.
    pub const SIZE: usize = 56;

    /// The record whose bytes begin at `at`.
    pub open spec fn decode(bytes: Seq<u8>, at: int) -> AviStreamHeader {
        AviStreamHeader {
            fcc_type: Fourcc(u32_at(bytes, at)),
            fcc_handler: Fourcc(u32_at(bytes, at + 4)),
            flags: u32_at(bytes, at + 8),
            priority: u16_at(bytes, at + 12),
            language: u16_at(bytes, at + 14),
            initial_frames: u32_at(bytes, at + 16),
            scale: u32_at(bytes, at + 20),
            rate: u32_at(bytes, at + 24),
            start: u32_at(bytes, at + 28),
            length: u32_at(bytes, at + 32),
            suggested_buffer_size: u32_at(bytes, at + 36),
            quality: u32_at(bytes, at + 40),
            sample_size: u32_at(bytes, at + 44),
            frame: Frame::decode(bytes, at + 48),
        }
    }

    /// Decodes the record with which `bytes` begin, or nothing where they are
    /// fewer than the record takes.
    pub fn from_bytes(bytes: &[u8]) -> (r: Option<AviStreamHeader>)
        ensures
            r is Some <==> bytes@.len() >= 56,
            r matches Some(record) ==> record == AviStreamHeader::decode(bytes@, 0),
    {
        if bytes.len() < 56 {
            return None;
        }
        let frame = Frame::from_bytes(slice_subrange(bytes, 48, 56))?;
        Some(
            AviStreamHeader {
                fcc_type: Fourcc(read_u32(bytes, 0)?),
                fcc_handler: Fourcc(read_u32(bytes, 4)?),
                flags: read_u32(bytes, 8)?,
                priority: read_u16(bytes, 12)?,
                language: read_u16(bytes, 14)?,
                initial_frames: read_u32(bytes, 16)?,
                scale: read_u32(bytes, 20)?,
                rate: read_u32(bytes, 24)?,
                start: read_u32(bytes, 28)?,
                length: read_u32(bytes, 32)?,
                suggested_buffer_size: read_u32(bytes, 36)?,
                quality: read_u32(bytes, 40)?,
                sample_size: read_u32(bytes, 44)?,
                frame,
            },
        )
    }
}

impl Record for AviStreamHeader {
    open spec fn parse(bytes: Seq<u8>, at: int) -> Result<Self, ParseError> {
        fixed(bytes, at, 56, AviStreamHeader::decode(bytes, at))
    }

    fn read<R: Reader>(reader: &mut R) -> (r: Result<Self, ParseError>) {
        let block = match read_block(reader, 56) {
            Ok(block) => block,
            Err(e) => {
                return Err(e);
            },
        };
        match AviStreamHeader::from_bytes(block.as_slice()) {
            Some(record) => Ok(record),
            None => Err(ParseError::Io(ErrorKind::UnexpectedEof)),
        }
    }
}

impl BitmapInfo {
    /// The number of bytes of the record.
    pub const SIZE: usize = 40;

    /// The record whose bytes begin at `at`.
    pub open spec fn decode(bytes: Seq<u8>, at: int) -> BitmapInfo {
        BitmapInfo {
            size: u32_at(bytes, at),
            width: i32_at(bytes, at + 4),
            height: i32_at(bytes, at + 8),
            planes: u16_at(bytes, at + 12),
            bit_count: u16_at(bytes, at + 14),
            compression: u32_at(bytes, at + 16),
            size_image: u32_at(bytes, at + 20),
            x_pels_per_meter: i32_at(bytes, at + 24),
            y_pels_per_meter: i32_at(bytes, at + 28),
            clr_used: u32_at(bytes, at + 32),
            clr_important: u32_at(bytes, at + 36),
        }
    }

    /// Decodes the record with which `bytes` begin, or nothing where they are
    /// fewer than the record takes.
    pub fn from_bytes(bytes: &[u8]) -> (r: Option<BitmapInfo>)
        ensures
            r is Some <==> bytes@.len() >= 40,
            r matches Some(record) ==> record == BitmapInfo::decode(bytes@, 0),
    {
        if bytes.len() < 40 {
            return None;
        }
        Some(
            BitmapInfo {
                size: read_u32(bytes, 0)?,
                width: read_i32(bytes, 4)?,
                height: read_i32(bytes, 8)?,
                planes: read_u16(bytes, 12)?,
                bit_count: read_u16(bytes, 14)?,
                compression: read_u32(bytes, 16)?,
                size_image: read_u32(bytes, 20)?,
                x_pels_per_meter: read_i32(bytes, 24)?,
                y_pels_per_meter: read_i32(bytes, 28)?,
                clr_used: read_u32(bytes, 32)?,
                clr_important: read_u32(bytes, 36)?,
            },
        )
    }
}

impl Record for BitmapInfo {
    open spec fn parse(bytes: Seq<u8>, at: int) -> Result<Self, ParseError> {
        fixed(bytes, at, 40, BitmapInfo::decode(bytes, at))
    }

    fn read<R: Reader>(reader: &mut R) -> (r: Result<Self, ParseError>) {
        let block = match read_block(reader, 40) {
            Ok(block) => block,
            Err(e) => {
                return Err(e);
            },
        };
        match BitmapInfo::from_bytes(block.as_slice()) {
            Some(record) => Ok(record),
            None => Err(ParseError::Io(ErrorKind::UnexpectedEof)),
        }
    }
}

} // verus!
