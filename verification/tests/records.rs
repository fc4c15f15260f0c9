use riffparse::avi::{
    AviMainHeader, AviStreamHeader, BitmapInfo, Frame, Guid, Mp3WaveFormat, Mpeg1WaveFormat,
    WaveFormat, WaveFormatEx, WaveFormatExtensible,
};
use riffparse::error::{ErrorKind, ParseError};
use riffparse::fourcc::Fourcc;
use riffparse::io::{Reader, SeekFrom, SliceReader};
use riffparse::record::{read_block, Record};
use riffparse::riff::{Chunk, ChunkHeader, ChunkRead};

/// The bytes 0, 1, 2, ... up to `len`.
fn counting(len: usize) -> Vec<u8> {
    (0..len).map(|i| i as u8).collect()
}

/// The little-endian value of the `width` bytes of `counting` that begin at `at`.
fn value_at(at: u32, width: u32) -> u32 {
    let mut value = 0;
    for i in 0..width {
        value += (at + i) << (8 * i);
    }
    value
}

fn read_at<S: Record>(data: &[u8], at: u64) -> Result<S, ParseError> {
    let mut reader = SliceReader::new(data);
    reader.seek(SeekFrom::Start(at)).unwrap();
    S::read(&mut reader)
}

fn common() -> WaveFormatEx {
    WaveFormatEx {
        channels: 2,
        samples_per_sec: 44_100,
        av_bytes_per_sec: 16_000,
        block_align: 1,
        bits_per_sample: 0,
        size: 12,
    }
}

fn common_bytes(format: &WaveFormatEx) -> Vec<u8> {
    let mut out = Vec::new();
    out.extend_from_slice(&format.channels.to_le_bytes());
    out.extend_from_slice(&format.samples_per_sec.to_le_bytes());
    out.extend_from_slice(&format.av_bytes_per_sec.to_le_bytes());
    out.extend_from_slice(&format.block_align.to_le_bytes());
    out.extend_from_slice(&format.bits_per_sample.to_le_bytes());
    out.extend_from_slice(&format.size.to_le_bytes());
    out
}

#[test]
fn the_main_header_has_fourteen_fields() {
    let data = counting(60);
    let header = AviMainHeader::from_bytes(&data).unwrap();
    assert_eq!(
        header,
        AviMainHeader {
            micro_sec_per_frame: 0x0302_0100,
            max_bytes_per_sec: 0x0706_0504,
            padding_granularity: value_at(8, 4),
            flags: value_at(12, 4),
            total_frames: value_at(16, 4),
            initial_frames: value_at(20, 4),
            streams: value_at(24, 4),
            suggested_buffer_size: value_at(28, 4),
            width: value_at(32, 4),
            height: value_at(36, 4),
            reserved: [value_at(40, 4), value_at(44, 4), value_at(48, 4), 0x3736_3534],
        }
    );
    assert_eq!(AviMainHeader::SIZE, 56);
    assert_eq!(AviMainHeader::from_bytes(&data[..56]), Some(header));
    assert_eq!(AviMainHeader::from_bytes(&data[..55]), None);
    assert_eq!(read_at::<AviMainHeader>(&data, 0), Ok(header));
    assert_eq!(read_at::<AviMainHeader>(&data, 4).unwrap().micro_sec_per_frame, 0x0706_0504);
    assert_eq!(
        read_at::<AviMainHeader>(&data, 5),
        Err(ParseError::Io(ErrorKind::UnexpectedEof))
    );
}

#[test]
fn the_stream_header_ends_with_its_frame() {
    let mut data = counting(56);
    data[48..56].copy_from_slice(&[0xff, 0xff, 0x00, 0x80, 0xff, 0x7f, 0x10, 0x00]);
    let header = AviStreamHeader::from_bytes(&data).unwrap();
    assert_eq!(
        header,
        AviStreamHeader {
            fcc_type: Fourcc::new([0, 1, 2, 3]),
            fcc_handler: Fourcc::new([4, 5, 6, 7]),
            flags: value_at(8, 4),
            priority: 0x0d0c,
            language: 0x0f0e,
            initial_frames: value_at(16, 4),
            scale: value_at(20, 4),
            rate: value_at(24, 4),
            start: value_at(28, 4),
            length: value_at(32, 4),
            suggested_buffer_size: value_at(36, 4),
            quality: value_at(40, 4),
            sample_size: value_at(44, 4),
            frame: Frame { left: -1, top: i16::MIN, right: i16::MAX, bottom: 16 },
        }
    );
    assert_eq!(AviStreamHeader::SIZE, 56);
    assert_eq!(AviStreamHeader::from_bytes(&data[..55]), None);
    assert_eq!(read_at::<AviStreamHeader>(&data, 0), Ok(header));
    assert_eq!(read_at::<AviStreamHeader>(&data, 1), Err(ParseError::Io(ErrorKind::UnexpectedEof)));
    assert_eq!(Frame::SIZE, 8);
    assert_eq!(Frame::from_bytes(&data[48..]), Some(header.frame));
    assert_eq!(Frame::from_bytes(&data[49..]), None);
    assert_eq!(read_at::<Frame>(&data, 48), Ok(header.frame));
}

#[test]
fn the_video_format_has_signed_sizes() {
    let mut data = counting(44);
    data[4..12].copy_from_slice(&[0x20, 0, 0, 0, 0xe8, 0xff, 0xff, 0xff]);
    data[24..28].copy_from_slice(&[0, 0, 0, 0x80]);
    let info = BitmapInfo::from_bytes(&data).unwrap();
    assert_eq!(
        info,
        BitmapInfo {
            size: 0x0302_0100,
            width: 32,
            height: -24,
            planes: 0x0d0c,
            bit_count: 0x0f0e,
            compression: value_at(16, 4),
            size_image: value_at(20, 4),
            x_pels_per_meter: i32::MIN,
            y_pels_per_meter: value_at(28, 4) as i32,
            clr_used: value_at(32, 4),
            clr_important: value_at(36, 4),
        }
    );
    assert_eq!(BitmapInfo::SIZE, 40);
    assert_eq!(BitmapInfo::from_bytes(&data[..39]), None);
    assert_eq!(read_at::<BitmapInfo>(&data, 0), Ok(info));
    assert_eq!(read_at::<BitmapInfo>(&data, 5), Err(ParseError::Io(ErrorKind::UnexpectedEof)));
}

#[test]
fn the_common_audio_header_may_lack_its_size() {
    let data = common_bytes(&common());
    assert_eq!(WaveFormatEx::from_bytes(&data), Some(common()));
    assert_eq!(WaveFormatEx::from_bytes(&data[..15]), Some(WaveFormatEx { size: 0, ..common() }));
    assert_eq!(WaveFormatEx::from_bytes(&data[..14]), Some(WaveFormatEx { size: 0, ..common() }));
    assert_eq!(WaveFormatEx::from_bytes(&data[..13]), None);
    assert_eq!(read_at::<WaveFormatEx>(&data, 0), Ok(common()));
    assert_eq!(read_at::<WaveFormatEx>(&data[..15], 0), Ok(WaveFormatEx { size: 0, ..common() }));
    assert_eq!(read_at::<WaveFormatEx>(&data[..14], 0), Ok(WaveFormatEx { size: 0, ..common() }));
    assert_eq!(
        read_at::<WaveFormatEx>(&data[..13], 0),
        Err(ParseError::Io(ErrorKind::UnexpectedEof))
    );
    assert_eq!(WaveFormatEx::SIZE, 16);
    assert_eq!(WaveFormatEx::SHORT_SIZE, 14);
    let counted = WaveFormatEx::from_bytes(&counting(16)).unwrap();
    assert_eq!(
        counted,
        WaveFormatEx {
            channels: 0x0100,
            samples_per_sec: 0x0504_0302,
            av_bytes_per_sec: 0x0908_0706,
            block_align: 0x0b0a,
            bits_per_sample: 0x0d0c,
            size: 0x0f0e,
        }
    );
}

#[test]
fn the_format_tag_0x0055_is_mp3() {
    let mut data = vec![0x55, 0x00];
    data.extend_from_slice(&common_bytes(&common()));
    data.extend_from_slice(&[1, 0, 2, 0, 0, 0, 0x80, 0x01, 1, 0, 0x71, 0x05]);
    let expected = Mp3WaveFormat {
        format: common(),
        id: 1,
        flags: 2,
        block_size: 384,
        frames_per_block: 1,
        codec_delay: 1393,
    };
    assert_eq!(read_at::<WaveFormat>(&data, 0), Ok(WaveFormat::Mp3(expected)));
    assert_eq!(Mp3WaveFormat::from_bytes(&data[2..]), Some(expected));
    assert_eq!(Mp3WaveFormat::SIZE, 28);
    assert_eq!(Mp3WaveFormat::from_bytes(&data[3..]), None);
    assert_eq!(read_at::<Mp3WaveFormat>(&data, 2), Ok(expected));
    let format = read_at::<WaveFormat>(&data, 0).unwrap();
    assert_eq!(format.format_tag(), 0x0055);
    assert_eq!(format.format(), &common());
    match format {
        WaveFormat::Mp3(mp3) => assert_eq!(mp3.codec_delay, 1393),
        _ => panic!("not the MP3 variant"),
    }
    assert_eq!(
        read_at::<WaveFormat>(&data[..data.len() - 1], 0),
        Err(ParseError::Io(ErrorKind::UnexpectedEof))
    );
}

#[test]
fn the_format_tag_0x0001_is_pcm() {
    let mut data = vec![0x01, 0x00];
    data.extend_from_slice(&common_bytes(&common()));
    assert_eq!(read_at::<WaveFormat>(&data, 0), Ok(WaveFormat::Pcm(common())));
    // the size field is read where the stream holds it, whatever follows
    data.extend_from_slice(&[1, 2, 3, 4, 5, 6, 7, 8, 9, 10, 11, 12, 13]);
    let format = read_at::<WaveFormat>(&data, 0).unwrap();
    assert_eq!(format, WaveFormat::Pcm(common()));
    assert_eq!(format.format_tag(), 1);
    assert!(matches!(format, WaveFormat::Pcm(_)));
    assert!(!matches!(format, WaveFormat::Mp3(_)));
    // and is 0 where the stream ends before it
    assert_eq!(
        read_at::<WaveFormat>(&data[..16], 0),
        Ok(WaveFormat::Pcm(WaveFormatEx { size: 0, ..common() }))
    );
    assert_eq!(
        read_at::<WaveFormat>(&data[..17], 0),
        Ok(WaveFormat::Pcm(WaveFormatEx { size: 0, ..common() }))
    );
    assert_eq!(
        read_at::<WaveFormat>(&data[..15], 0),
        Err(ParseError::Io(ErrorKind::UnexpectedEof))
    );
}

#[test]
fn the_format_tag_0xfffe_is_extensible() {
    let mut data = vec![0xee; 3];
    data.extend_from_slice(&[0xfe, 0xff]);
    data.extend_from_slice(&common_bytes(&common()));
    data.extend_from_slice(&[16, 0, 3, 0, 0, 0]);
    data.extend_from_slice(&[1, 0, 0, 0, 0, 0, 0x10, 0, 0x80, 0, 0, 0xaa, 0, 0x38, 0x9b, 0x71]);
    let expected = WaveFormatExtensible {
        format: common(),
        samples: 16,
        channel_mask: 3,
        sub_format: Guid {
            data1: 1,
            data2: 0,
            data3: 0x10,
            data4: [0x80, 0, 0, 0xaa, 0, 0x38, 0x9b, 0x71],
        },
    };
    assert_eq!(read_at::<WaveFormat>(&data, 3), Ok(WaveFormat::Extensible(expected)));
    assert_eq!(WaveFormatExtensible::SIZE, 38);
    assert_eq!(WaveFormatExtensible::from_bytes(&data[5..]), Some(expected));
    assert_eq!(WaveFormatExtensible::from_bytes(&data[6..]), None);
    assert_eq!(Guid::SIZE, 16);
    assert_eq!(Guid::from_bytes(&data[27..]), Some(expected.sub_format));
    assert_eq!(Guid::from_bytes(&data[28..]), None);
    assert_eq!(read_at::<Guid>(&data, 27), Ok(expected.sub_format));
    assert_eq!(read_at::<WaveFormatExtensible>(&data, 5), Ok(expected));
    assert_eq!(
        read_at::<WaveFormat>(&data[..data.len() - 1], 3),
        Err(ParseError::Io(ErrorKind::UnexpectedEof))
    );
    // the common header alone does not make an extensible format
    assert_eq!(
        read_at::<WaveFormat>(&data[..3 + 2 + 14], 3),
        Err(ParseError::Io(ErrorKind::UnexpectedEof))
    );
}

#[test]
fn the_format_tag_0x0050_is_mpeg1() {
    let mut data = vec![0x50, 0x00];
    data.extend_from_slice(&common_bytes(&common()));
    data.extend_from_slice(&[2, 0, 0, 0xf4, 1, 0, 1, 0, 0, 0, 1, 0, 0x1c, 0]);
    data.extend_from_slice(&[0x78, 0x56, 0x34, 0x12, 1, 0, 0, 0]);
    let expected = Mpeg1WaveFormat {
        format: common(),
        head_layer: 2,
        head_bitrate: 128_000,
        head_mode: 1,
        head_mode_ext: 0,
        head_emphasis: 1,
        head_flags: 0x1c,
        pts_low: 0x1234_5678,
        pts_high: 1,
    };
    assert_eq!(read_at::<WaveFormat>(&data, 0), Ok(WaveFormat::Mpeg1(expected)));
    assert_eq!(Mpeg1WaveFormat::SIZE, 38);
    assert_eq!(Mpeg1WaveFormat::from_bytes(&data[2..]), Some(expected));
    assert_eq!(Mpeg1WaveFormat::from_bytes(&data[2..39]), None);
    assert_eq!(read_at::<Mpeg1WaveFormat>(&data, 2), Ok(expected));
    assert_eq!(read_at::<WaveFormat>(&data, 0).unwrap().format_tag(), 0x50);
}

#[test]
fn an_unknown_format_tag_is_reported_with_its_place() {
    let mut data = vec![0u8; 6];
    data.extend_from_slice(&[0x11, 0x00]);
    data.extend_from_slice(&common_bytes(&common()));
    assert_eq!(
        read_at::<WaveFormat>(&data, 6),
        Err(ParseError::UnknownFormat { pos: 6, format: 0x11 })
    );
    assert_eq!(
        read_at::<WaveFormat>(&data, 0),
        Err(ParseError::UnknownFormat { pos: 0, format: 0 })
    );
    assert_eq!(
        read_at::<WaveFormat>(&[0x00, 0x55], 0),
        Err(ParseError::UnknownFormat { pos: 0, format: 0x5500 })
    );
    assert_eq!(read_at::<WaveFormat>(&[0x55], 0), Err(ParseError::Io(ErrorKind::UnexpectedEof)));
    assert_eq!(read_at::<WaveFormat>(&[], 0), Err(ParseError::Io(ErrorKind::UnexpectedEof)));
}

#[test]
fn a_record_is_read_at_the_start_of_the_data_of_a_node() {
    let mut data = vec![0xee; 10];
    data.extend_from_slice(&[0x55, 0x00]);
    data.extend_from_slice(&common_bytes(&common()));
    data.extend_from_slice(&[1, 0, 2, 0, 0, 0, 0x80, 0x01, 1, 0, 0x71, 0x05]);
    let chunk = Chunk::new(ChunkHeader { chunk_id: Fourcc::new(*b"strf"), size: 30 }, 10);
    let mut reader = SliceReader::new(&data);
    let format = chunk.read_data_struct::<WaveFormat, _>(&mut reader).unwrap();
    assert_eq!(format.format_tag(), 0x55);
    assert_eq!(chunk.read_data_struct::<WaveFormatEx, _>(&mut reader).unwrap().channels, 0x55);
    let frame = chunk.read_data_struct::<Frame, _>(&mut reader).unwrap();
    assert_eq!(frame, Frame { left: 0x55, top: 2, right: -21436, bottom: 0 });
    let far = Chunk::new(ChunkHeader { chunk_id: Fourcc::new(*b"strf"), size: 30 }, 35);
    assert_eq!(
        far.read_data_struct::<Frame, _>(&mut reader),
        Err(ParseError::Io(ErrorKind::UnexpectedEof))
    );
}

#[test]
fn a_block_is_read_at_the_cursor() {
    let data = counting(10);
    let mut reader = SliceReader::new(&data);
    assert_eq!(read_block(&mut reader, 3), Ok(vec![0, 1, 2]));
    assert_eq!(read_block(&mut reader, 0), Ok(vec![]));
    assert_eq!(read_block(&mut reader, 7), Ok(vec![3, 4, 5, 6, 7, 8, 9]));
    assert_eq!(read_block(&mut reader, 1), Err(ParseError::Io(ErrorKind::UnexpectedEof)));
    assert_eq!(read_block(&mut reader, 0), Ok(vec![]));
    assert_eq!(reader.stream_position(), Ok(10));
}
