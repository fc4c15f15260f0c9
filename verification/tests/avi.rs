use riffparse::avi::parser::{
    chunk_tagged, eof_error, list_tagged, missing_error, next_chunk, next_list, next_required,
    validate_tag,
};
use riffparse::avi::stream::best_stream_index;
use riffparse::avi::tag::{stream, DATA_AUDIO, DATA_VIDEO_COMPRESSED};
use riffparse::avi::{
    AudioStream, AviMainHeader, AviParser, AviStreamHeader, BitmapInfo, Frame, Stream, StreamChunks,
    StreamInfo, StreamKind, VideoStream, WaveFormat, WaveFormatEx,
};
use riffparse::error::{ErrorKind, ParseError};
use riffparse::fourcc::Fourcc;
use riffparse::io::{Reader, SeekFrom, SliceReader};
use riffparse::riff::{Chunk, ChunkData, ChunkHeader, ChunkRead, ChunkType, List, ListHeader, RiffParser};

fn chunk(id: &[u8; 4], payload: &[u8]) -> Vec<u8> {
    let mut out = Vec::new();
    out.extend_from_slice(id);
    out.extend_from_slice(&(payload.len() as u32).to_le_bytes());
    out.extend_from_slice(payload);
    if payload.len() % 2 == 1 {
        out.push(0);
    }
    out
}

fn list(magic: &[u8; 4], kind: &[u8; 4], children: &[Vec<u8>]) -> Vec<u8> {
    let mut body = Vec::new();
    body.extend_from_slice(kind);
    for child in children {
        body.extend_from_slice(child);
    }
    let mut out = Vec::new();
    out.extend_from_slice(magic);
    out.extend_from_slice(&(body.len() as u32).to_le_bytes());
    out.extend_from_slice(&body);
    out
}

fn tag(text: &[u8; 4]) -> Fourcc {
    Fourcc::new(*text)
}

fn avih(streams: u32) -> Vec<u8> {
    let fields: [u32; 14] = [50_000, 25_000, 0, 0x910, 20, 0, streams, 0x10_0000, 32, 24, 0, 0, 0, 0];
    let mut out = Vec::new();
    for field in fields {
        out.extend_from_slice(&field.to_le_bytes());
    }
    chunk(b"avih", &out)
}

fn stream_header(kind: &[u8; 4], handler: &[u8; 4], priority: u16) -> AviStreamHeader {
    AviStreamHeader {
        fcc_type: tag(kind),
        fcc_handler: tag(handler),
        flags: 0,
        priority,
        language: 0,
        initial_frames: 0,
        scale: 1,
        rate: 20,
        start: 0,
        length: 20,
        suggested_buffer_size: 4096,
        quality: u32::MAX,
        sample_size: 0,
        frame: Frame { left: 0, top: 0, right: 32, bottom: 24 },
    }
}

fn strh(header: &AviStreamHeader) -> Vec<u8> {
    let mut out = Vec::new();
    out.extend_from_slice(&header.fcc_type.bytes());
    out.extend_from_slice(&header.fcc_handler.bytes());
    out.extend_from_slice(&header.flags.to_le_bytes());
    out.extend_from_slice(&header.priority.to_le_bytes());
    out.extend_from_slice(&header.language.to_le_bytes());
    for field in [
        header.initial_frames,
        header.scale,
        header.rate,
        header.start,
        header.length,
        header.suggested_buffer_size,
        header.quality,
        header.sample_size,
    ] {
        out.extend_from_slice(&field.to_le_bytes());
    }
    for side in [header.frame.left, header.frame.top, header.frame.right, header.frame.bottom] {
        out.extend_from_slice(&side.to_le_bytes());
    }
    chunk(b"strh", &out)
}

fn bitmap() -> BitmapInfo {
    BitmapInfo {
        size: 40,
        width: 32,
        height: 24,
        planes: 1,
        bit_count: 24,
        compression: tag(b"MJPG").0,
        size_image: 2304,
        x_pels_per_meter: 0,
        y_pels_per_meter: 0,
        clr_used: 0,
        clr_important: 0,
    }
}

fn bitmap_bytes(info: &BitmapInfo) -> Vec<u8> {
    let mut out = Vec::new();
    out.extend_from_slice(&info.size.to_le_bytes());
    out.extend_from_slice(&info.width.to_le_bytes());
    out.extend_from_slice(&info.height.to_le_bytes());
    out.extend_from_slice(&info.planes.to_le_bytes());
    out.extend_from_slice(&info.bit_count.to_le_bytes());
    out.extend_from_slice(&info.compression.to_le_bytes());
    out.extend_from_slice(&info.size_image.to_le_bytes());
    out.extend_from_slice(&info.x_pels_per_meter.to_le_bytes());
    out.extend_from_slice(&info.y_pels_per_meter.to_le_bytes());
    out.extend_from_slice(&info.clr_used.to_le_bytes());
    out.extend_from_slice(&info.clr_important.to_le_bytes());
    out
}

fn pcm() -> WaveFormatEx {
    WaveFormatEx {
        channels: 1,
        samples_per_sec: 16_000,
        av_bytes_per_sec: 32_000,
        block_align: 2,
        bits_per_sample: 16,
        size: 0,
    }
}

fn wave_bytes(format_tag: u16, format: &WaveFormatEx) -> Vec<u8> {
    let mut out = Vec::new();
    out.extend_from_slice(&format_tag.to_le_bytes());
    out.extend_from_slice(&format.channels.to_le_bytes());
    out.extend_from_slice(&format.samples_per_sec.to_le_bytes());
    out.extend_from_slice(&format.av_bytes_per_sec.to_le_bytes());
    out.extend_from_slice(&format.block_align.to_le_bytes());
    out.extend_from_slice(&format.bits_per_sample.to_le_bytes());
    out.extend_from_slice(&format.size.to_le_bytes());
    out
}

fn video_strl(priority: u16) -> Vec<u8> {
    list(
        b"LIST",
        b"strl",
        &[strh(&stream_header(b"vids", b"MJPG", priority)), chunk(b"strf", &bitmap_bytes(&bitmap()))],
    )
}

fn audio_strl(priority: u16) -> Vec<u8> {
    list(
        b"LIST",
        b"strl",
        &[strh(&stream_header(b"auds", &[1, 0, 0, 0], priority)), chunk(b"strf", &wave_bytes(1, &pcm()))],
    )
}

fn other_strl(kind: &[u8; 4]) -> Vec<u8> {
    list(
        b"LIST",
        b"strl",
        &[strh(&stream_header(kind, b"    ", 9)), chunk(b"strf", &[1, 2, 3])],
    )
}

fn file(streams: u32, strls: &[Vec<u8>], movi: &[Vec<u8>]) -> Vec<u8> {
    let mut headers = vec![avih(streams)];
    headers.extend_from_slice(strls);
    list(
        b"RIFF",
        b"AVI ",
        &[
            list(b"LIST", b"hdrl", &headers),
            chunk(b"JUNK", &[0; 7]),
            list(b"LIST", b"INFO", &[chunk(b"ISFT", b"test")]),
            list(b"LIST", b"movi", movi),
            chunk(b"idx1", &[0; 16]),
        ],
    )
}

fn parse(data: &[u8]) -> Result<AviParser<SliceReader<'_>>, ParseError> {
    AviParser::new(RiffParser::new(SliceReader::new(data)))
}

fn error_of(data: &[u8]) -> ParseError {
    match parse(data) {
        Ok(_) => panic!("the file was parsed"),
        Err(e) => e,
    }
}

#[test]
fn the_headers_of_a_file_are_read() {
    let movi = [chunk(b"00dc", &[1, 2, 3]), chunk(b"01wb", &[4, 5])];
    let data = file(2, &[video_strl(1), audio_strl(5)], &movi);
    let avi = parse(&data).unwrap();
    assert_eq!(
        avi.avi_header,
        AviMainHeader {
            micro_sec_per_frame: 50_000,
            max_bytes_per_sec: 25_000,
            padding_granularity: 0,
            flags: 0x910,
            total_frames: 20,
            initial_frames: 0,
            streams: 2,
            suggested_buffer_size: 0x10_0000,
            width: 32,
            height: 24,
            reserved: [0; 4],
        }
    );
    assert_eq!(
        avi.stream_info,
        vec![
            StreamInfo::Video(VideoStream {
                stream_id: tag(b"00dc"),
                stream_header: stream_header(b"vids", b"MJPG", 1),
                bitmap_info: bitmap(),
            }),
            StreamInfo::Audio(AudioStream {
                stream_id: tag(b"01wb"),
                stream_header: stream_header(b"auds", &[1, 0, 0, 0], 5),
                wave_format: WaveFormat::Pcm(pcm()),
            }),
        ]
    );
    assert_eq!(avi.movi.id(), tag(b"movi"));
    assert_eq!(avi.movi.data_size(), 8 + 4 + 8 + 2);
    // the header list, a chunk of 7 bytes with its pad byte, and a list with one chunk
    let hdrl_len = 12 + 64 + (12 + 64 + 48) + (12 + 64 + 26);
    assert_eq!(avi.movi.metadata().data_start, 12 + hdrl_len + 16 + 24 + 12);
    assert_eq!(avi.movi.metadata().data_start, 366);
}

#[test]
fn the_best_stream_of_a_kind_has_the_highest_priority() {
    let data = file(2, &[video_strl(1), audio_strl(5)], &[]);
    let avi = parse(&data).unwrap();
    let video = avi.find_best_stream(StreamKind::Video).unwrap();
    assert_eq!(video.kind(), StreamKind::Video);
    assert_eq!(video.stream_id(), tag(b"00dc"));
    assert_eq!(video.stream_header().priority, 1);
    assert_eq!(video, &avi.stream_info[0]);
    assert!(<&VideoStream>::try_from(video).is_ok());
    assert_eq!(<&AudioStream>::try_from(video), Err(()));
    let audio = avi.find_best_stream(StreamKind::Audio).unwrap();
    assert_eq!(audio.kind(), StreamKind::Audio);
    assert_eq!(audio.stream_id(), tag(b"01wb"));
    assert_eq!(audio.stream_header().priority, 5);
    assert_eq!(audio, &avi.stream_info[1]);
    assert_eq!(<&VideoStream>::try_from(audio), Err(()));
    let audio = <&AudioStream>::try_from(audio).unwrap();
    assert_eq!(audio.stream_id(), tag(b"01wb"));
    assert_eq!(audio.stream_header().priority, 5);
    assert_eq!(audio.wave_format.format_tag(), 1);
    assert_eq!(audio.wave_format.format(), &pcm());
}

#[test]
fn among_equal_priorities_the_first_stream_is_the_best() {
    let strls = [
        audio_strl(2),
        video_strl(7),
        audio_strl(9),
        video_strl(3),
        audio_strl(9),
        video_strl(7),
        audio_strl(1),
    ];
    let data = file(7, &strls, &[]);
    let avi = parse(&data).unwrap();
    assert_eq!(avi.stream_info.len(), 7);
    assert_eq!(best_stream_index(&avi.stream_info, StreamKind::Audio), Some(2));
    assert_eq!(best_stream_index(&avi.stream_info, StreamKind::Video), Some(1));
    assert_eq!(avi.find_best_stream(StreamKind::Audio).unwrap().stream_id(), tag(b"02wb"));
    assert_eq!(avi.find_best_stream(StreamKind::Video).unwrap().stream_id(), tag(b"01dc"));
}

#[test]
fn there_is_no_best_stream_of_a_kind_that_is_absent() {
    let data = file(1, &[audio_strl(5)], &[]);
    let avi = parse(&data).unwrap();
    assert!(avi.find_best_stream(StreamKind::Video).is_none());
    assert!(avi.find_best_stream(StreamKind::Audio).is_some());
    let data = avi_without_streams();
    let avi = parse(&data).unwrap();
    assert!(avi.stream_info.is_empty());
    assert!(avi.find_best_stream(StreamKind::Video).is_none());
    assert!(avi.find_best_stream(StreamKind::Audio).is_none());
    assert_eq!(best_stream_index(&Vec::new(), StreamKind::Audio), None);
}

fn avi_without_streams() -> Vec<u8> {
    file(0, &[], &[])
}

#[test]
fn a_declared_stream_that_is_absent_is_an_unexpected_end() {
    let data = file(3, &[video_strl(1), audio_strl(5)], &[chunk(b"00dc", &[1])]);
    let hdrl_end = 24 + 64 + (12 + 64 + 48) + (12 + 64 + 26);
    assert_eq!(error_of(&data), ParseError::UnexpectedEnd { pos: hdrl_end });
    // with the third stream declared and there, the file is parsed
    let data = file(3, &[video_strl(1), audio_strl(5), audio_strl(6)], &[]);
    assert_eq!(parse(&data).unwrap().stream_info.len(), 3);
    // and so it is where only two are declared
    let data = file(2, &[video_strl(1), audio_strl(5)], &[]);
    assert_eq!(parse(&data).unwrap().stream_info.len(), 2);
}

#[test]
fn streams_behind_the_declared_ones_are_not_read() {
    let data = file(1, &[video_strl(1), audio_strl(5)], &[]);
    let avi = parse(&data).unwrap();
    assert_eq!(avi.stream_info.len(), 1);
    assert_eq!(avi.stream_info[0].stream_id(), tag(b"00dc"));
}

#[test]
fn a_node_that_is_not_a_stream_list_is_missing_strl() {
    let data = file(2, &[video_strl(1), chunk(b"JUNK", &[0; 4])], &[]);
    let junk_data = 24 + 64 + (12 + 64 + 48) + 8;
    assert_eq!(error_of(&data), ParseError::Missing { pos: junk_data, tag: tag(b"strl") });
    let data = file(2, &[video_strl(1), list(b"LIST", b"odml", &[])], &[]);
    let odml_data = 24 + 64 + (12 + 64 + 48) + 12;
    assert_eq!(error_of(&data), ParseError::Missing { pos: odml_data, tag: tag(b"strl") });
}

#[test]
fn the_samples_of_a_stream_come_in_their_order() {
    let movi = [chunk(b"00dc", &[1, 2, 3]), chunk(b"01wb", &[4, 5]), chunk(b"00dc", &[6])];
    let data = file(2, &[video_strl(1), audio_strl(5)], &movi);
    let mut avi = parse(&data).unwrap();
    let start = avi.movi.metadata().data_start;

    let video = avi.movi_chunks(tag(b"00dc")).collect(&mut avi.parser.reader).unwrap();
    assert_eq!(video.len(), 2);
    assert_eq!(video[0].metadata().data_start, start + 8);
    assert_eq!(video[1].metadata().data_start, start + 12 + 10 + 8);
    assert_eq!(video[0].read_data_vec(&mut avi.parser.reader), Ok(vec![1, 2, 3]));
    assert_eq!(video[1].read_data_vec(&mut avi.parser.reader), Ok(vec![6]));

    let audio = avi.movi_chunks(tag(b"01wb")).collect(&mut avi.parser.reader).unwrap();
    assert_eq!(audio.len(), 1);
    assert_eq!(audio[0].id(), tag(b"01wb"));
    assert_eq!(audio[0].read_data_vec(&mut avi.parser.reader), Ok(vec![4, 5]));

    let none = avi.movi_chunks(tag(b"02wb")).collect(&mut avi.parser.reader).unwrap();
    assert!(none.is_empty());
}

#[test]
fn samples_are_handed_out_one_at_a_time() {
    let movi = [chunk(b"01wb", &[4, 5]), chunk(b"00dc", &[1, 2, 3]), chunk(b"00dc", &[6])];
    let data = file(2, &[video_strl(1), audio_strl(5)], &movi);
    let mut avi = parse(&data).unwrap();
    let movi = avi.movi;
    let mut chunks = avi.stream_chunks(tag(b"00dc"), &movi);
    assert_eq!(chunks, StreamChunks::new(&movi, tag(b"00dc")));
    let first = chunks.next(&mut avi.parser.reader).unwrap().unwrap();
    assert_eq!(first.data_size(), 3);
    // a walk for another stream in between does not disturb this one
    let mut audio = avi.movi_chunks(tag(b"01wb"));
    assert_eq!(audio.next(&mut avi.parser.reader).unwrap().unwrap().data_size(), 2);
    let second = chunks.next(&mut avi.parser.reader).unwrap().unwrap();
    assert_eq!(second.data_size(), 1);
    assert!(chunks.next(&mut avi.parser.reader).is_none());
    assert!(chunks.next(&mut avi.parser.reader).is_none());
    assert!(audio.next(&mut avi.parser.reader).is_none());
    assert_eq!(chunks.iter.position(), movi.end());
}

#[test]
fn lists_among_the_samples_are_not_entered() {
    let movi = [
        list(b"LIST", b"rec ", &[chunk(b"00dc", &[9, 9]), chunk(b"01wb", &[9])]),
        list(b"LIST", b"00dc", &[]),
        chunk(b"00dc", &[1]),
    ];
    let data = file(2, &[video_strl(1), audio_strl(5)], &movi);
    let mut avi = parse(&data).unwrap();
    let video = avi.movi_chunks(tag(b"00dc")).collect(&mut avi.parser.reader).unwrap();
    assert_eq!(video.len(), 1);
    assert_eq!(video[0].read_data_vec(&mut avi.parser.reader), Ok(vec![1]));
    let audio = avi.movi_chunks(tag(b"01wb")).collect(&mut avi.parser.reader).unwrap();
    assert!(audio.is_empty());
}

#[test]
fn a_broken_header_among_the_samples_is_reported() {
    let movi = [chunk(b"00dc", &[1]), chunk(b"01wb", &[2])];
    let mut data = file(2, &[video_strl(1), audio_strl(5)], &movi);
    let avi_ok = parse(&data).unwrap();
    let start = avi_ok.movi.metadata().data_start as usize;
    // the second sample becomes an outer header
    data[start + 10..start + 14].copy_from_slice(b"RIFF");
    let mut avi = parse(&data).unwrap();
    let mut video = avi.movi_chunks(tag(b"00dc"));
    assert!(video.next(&mut avi.parser.reader).unwrap().is_ok());
    let at = start as u64 + 10 + 12;
    assert_eq!(video.next(&mut avi.parser.reader), Some(Err(ParseError::Malformed { pos: at })));
    assert_eq!(
        avi.movi_chunks(tag(b"00dc")).collect(&mut avi.parser.reader),
        Err(ParseError::Malformed { pos: at })
    );
    assert_eq!(
        avi.movi_chunks(tag(b"01wb")).collect(&mut avi.parser.reader),
        Err(ParseError::Malformed { pos: at })
    );
}

#[test]
fn a_stream_of_another_type_is_left_out_of_the_table() {
    let data = file(3, &[video_strl(1), other_strl(b"txts"), audio_strl(5)], &[]);
    let avi = parse(&data).unwrap();
    assert_eq!(avi.avi_header.streams, 3);
    assert_eq!(avi.stream_info.len(), 2);
    assert_eq!(avi.stream_info[0].kind(), StreamKind::Video);
    assert_eq!(avi.stream_info[0].stream_id(), tag(b"00dc"));
    assert_eq!(avi.stream_info[1].kind(), StreamKind::Audio);
    // the sample id keeps the index that the stream has in the file
    assert_eq!(avi.stream_info[1].stream_id(), tag(b"02wb"));

    let data = file(2, &[other_strl(b"mids"), other_strl(b"VIDS")], &[]);
    let avi = parse(&data).unwrap();
    assert!(avi.stream_info.is_empty());
}

#[test]
fn the_root_must_be_an_avi_file() {
    let data = list(b"RIFF", b"WAVE", &[list(b"LIST", b"hdrl", &[avih(0)])]);
    assert_eq!(error_of(&data), ParseError::Missing { pos: 12, tag: tag(b"AVI ") });
    let data = list(b"RIFX", b"AVI ", &[]);
    assert_eq!(error_of(&data), ParseError::Malformed { pos: 0 });
    assert_eq!(error_of(&[]), ParseError::Io(ErrorKind::UnexpectedEof));
}

#[test]
fn the_header_list_must_come_first() {
    let data = list(b"RIFF", b"AVI ", &[]);
    assert_eq!(error_of(&data), ParseError::UnexpectedEnd { pos: 12 });
    let data = list(b"RIFF", b"AVI ", &[chunk(b"JUNK", &[]), list(b"LIST", b"hdrl", &[avih(0)])]);
    assert_eq!(error_of(&data), ParseError::Missing { pos: 20, tag: tag(b"hdrl") });
    let data = list(b"RIFF", b"AVI ", &[list(b"LIST", b"movi", &[])]);
    assert_eq!(error_of(&data), ParseError::Missing { pos: 24, tag: tag(b"hdrl") });
}

#[test]
fn the_main_header_must_come_first_in_the_header_list() {
    let movi = list(b"LIST", b"movi", &[]);
    let data = list(b"RIFF", b"AVI ", &[list(b"LIST", b"hdrl", &[]), movi.clone()]);
    assert_eq!(error_of(&data), ParseError::UnexpectedEnd { pos: 24 });
    let data = list(b"RIFF", b"AVI ", &[list(b"LIST", b"hdrl", &[video_strl(1)]), movi.clone()]);
    assert_eq!(error_of(&data), ParseError::Missing { pos: 36, tag: tag(b"avih") });
    let data =
        list(b"RIFF", b"AVI ", &[list(b"LIST", b"hdrl", &[chunk(b"JUNK", &[0; 56])]), movi.clone()]);
    assert_eq!(error_of(&data), ParseError::Missing { pos: 32, tag: tag(b"avih") });
    // a main header that the stream cuts short
    let data = list(b"RIFF", b"AVI ", &[list(b"LIST", b"hdrl", &[avih(0)])]);
    assert_eq!(error_of(&data[..data.len() - 1]), ParseError::Io(ErrorKind::UnexpectedEof));
}

#[test]
fn a_stream_list_holds_a_header_and_then_a_format() {
    let header = strh(&stream_header(b"vids", b"MJPG", 1));
    let format = chunk(b"strf", &bitmap_bytes(&bitmap()));
    let inner = 24 + 64 + 12;

    let data = file(1, &[list(b"LIST", b"strl", &[])], &[]);
    assert_eq!(error_of(&data), ParseError::UnexpectedEnd { pos: inner });

    let data = file(1, &[list(b"LIST", b"strl", &[format.clone(), header.clone()])], &[]);
    assert_eq!(error_of(&data), ParseError::Missing { pos: inner + 8, tag: tag(b"strh") });

    let data = file(1, &[list(b"LIST", b"strl", &[header.clone()])], &[]);
    assert_eq!(error_of(&data), ParseError::UnexpectedEnd { pos: inner + 64 });

    let data = file(1, &[list(b"LIST", b"strl", &[header.clone(), header.clone()])], &[]);
    assert_eq!(error_of(&data), ParseError::Missing { pos: inner + 64 + 8, tag: tag(b"strf") });

    let data =
        file(1, &[list(b"LIST", b"strl", &[header.clone(), list(b"LIST", b"strf", &[])])], &[]);
    assert_eq!(error_of(&data), ParseError::Missing { pos: inner + 64 + 12, tag: tag(b"strf") });

    let data = file(1, &[list(b"LIST", b"strl", &[header, format, chunk(b"strn", b"name")])], &[]);
    assert_eq!(parse(&data).unwrap().stream_info.len(), 1);
}

#[test]
fn the_sample_list_is_found_behind_other_nodes() {
    let hdrl = list(b"LIST", b"hdrl", &[avih(0)]);
    let data = list(b"RIFF", b"AVI ", &[hdrl.clone(), chunk(b"JUNK", &[0; 3])]);
    assert_eq!(error_of(&data), ParseError::UnexpectedEnd { pos: data.len() as u64 });
    let data = list(b"RIFF", b"AVI ", &[hdrl.clone(), chunk(b"movi", &[0; 4])]);
    assert_eq!(error_of(&data), ParseError::UnexpectedEnd { pos: data.len() as u64 });
    let data = list(
        b"RIFF",
        b"AVI ",
        &[
            hdrl.clone(),
            list(b"LIST", b"movi", &[chunk(b"00dc", &[1])]),
            list(b"LIST", b"movi", &[chunk(b"00dc", &[2]), chunk(b"00dc", &[3])]),
        ],
    );
    let mut avi = parse(&data).unwrap();
    // the first one is taken
    assert_eq!(avi.movi.metadata().data_start, 12 + hdrl.len() as u64 + 12);
    let found = avi.movi_chunks(tag(b"00dc")).collect(&mut avi.parser.reader).unwrap();
    assert_eq!(found.len(), 1);
    // a broken node before the sample list ends the search
    let data = list(b"RIFF", b"AVI ", &[hdrl, list(b"RIFF", b"AVI ", &[]), list(b"LIST", b"movi", &[])]);
    assert_eq!(error_of(&data), ParseError::Malformed { pos: 12 + 76 + 12 });
}

#[test]
fn required_children_are_checked_by_kind_and_tag() {
    let chunk_node = Chunk::new(ChunkHeader { chunk_id: tag(b"avih"), size: 56 }, 100);
    let list_node = List::new(ListHeader { size: 56, list_id: tag(b"hdrl") }, 200);
    assert_eq!(chunk_tagged(ChunkType::Chunk(chunk_node), tag(b"avih")), Ok(chunk_node));
    assert_eq!(
        chunk_tagged(ChunkType::Chunk(chunk_node), tag(b"strh")),
        Err(ParseError::Missing { pos: 100, tag: tag(b"strh") })
    );
    assert_eq!(
        chunk_tagged(ChunkType::List(list_node), tag(b"hdrl")),
        Err(ParseError::Missing { pos: 200, tag: tag(b"hdrl") })
    );
    assert_eq!(list_tagged(ChunkType::List(list_node), tag(b"hdrl")), Ok(list_node));
    assert_eq!(
        list_tagged(ChunkType::List(list_node), tag(b"movi")),
        Err(ParseError::Missing { pos: 200, tag: tag(b"movi") })
    );
    assert_eq!(
        list_tagged(ChunkType::Chunk(chunk_node), tag(b"avih")),
        Err(ParseError::Missing { pos: 100, tag: tag(b"avih") })
    );
    assert_eq!(validate_tag(tag(b"abcd"), 5, tag(b"abcd")), Ok(()));
    assert_eq!(
        validate_tag(tag(b"abcd"), 5, tag(b"abce")),
        Err(ParseError::Missing { pos: 5, tag: tag(b"abce") })
    );
    assert_eq!(eof_error(77), ParseError::UnexpectedEnd { pos: 77 });
    assert_eq!(missing_error(78, tag(b"strf")), ParseError::Missing { pos: 78, tag: tag(b"strf") });
}

#[test]
fn a_walk_hands_out_required_children() {
    let data = list(b"RIFF", b"TEST", &[chunk(b"one ", &[1]), list(b"LIST", b"two ", &[])]);
    let mut parser = RiffParser::new(SliceReader::new(&data));
    let root = parser.riff().unwrap();
    let mut iter = root.iter();
    assert_eq!(next_chunk(&mut iter, &mut parser.reader, tag(b"one ")).unwrap().data_size(), 1);
    assert_eq!(next_list(&mut iter, &mut parser.reader, tag(b"two ")).unwrap().data_size(), 0);
    assert_eq!(
        next_required(&mut iter, &mut parser.reader),
        Err(ParseError::UnexpectedEnd { pos: data.len() as u64 })
    );
    let mut iter = root.iter();
    assert_eq!(
        next_list(&mut iter, &mut parser.reader, tag(b"one ")),
        Err(ParseError::Missing { pos: 20, tag: tag(b"one ") })
    );
}

#[test]
fn sample_ids_follow_the_index_of_the_stream() {
    assert_eq!(stream(0, DATA_VIDEO_COMPRESSED), tag(b"00dc"));
    let mut strls = Vec::new();
    for _ in 0..101 {
        strls.push(audio_strl(0));
    }
    strls.push(video_strl(0));
    let data = file(102, &strls, &[]);
    let avi = parse(&data).unwrap();
    assert_eq!(avi.stream_info.len(), 102);
    assert_eq!(avi.stream_info[9].stream_id(), tag(b"09wb"));
    assert_eq!(avi.stream_info[10].stream_id(), stream(10, DATA_AUDIO));
    assert_eq!(avi.stream_info[99].stream_id(), tag(b"99wb"));
    assert_eq!(avi.stream_info[100].stream_id(), tag(b"99wb"));
    assert_eq!(avi.stream_info[101].stream_id(), tag(b"99dc"));
}

#[test]
fn a_sample_that_overruns_the_sample_list_is_malformed() {
    let movi = [chunk(b"00dc", &[1, 2]), chunk(b"01wb", &[3, 4]), chunk(b"00dc", &[5, 6])];
    let mut data = file(2, &[video_strl(1), audio_strl(5)], &movi);
    let start = parse(&data).unwrap().movi.metadata().data_start as usize;
    // the last sample declares 8 bytes where its list leaves it 2; the index
    // chunk behind the list holds them
    let last = start + 20;
    assert_eq!(&data[last..last + 4], b"00dc");
    data[last + 4] = 8;
    let mut avi = parse(&data).unwrap();
    let at = last as u64 + 8;
    let mut video = avi.movi_chunks(tag(b"00dc"));
    assert_eq!(video.next(&mut avi.parser.reader).unwrap().unwrap().data_size(), 2);
    assert_eq!(video.next(&mut avi.parser.reader), Some(Err(ParseError::Malformed { pos: at })));
    assert_eq!(video.next(&mut avi.parser.reader), Some(Err(ParseError::Malformed { pos: at })));
    assert_eq!(
        avi.movi_chunks(tag(b"00dc")).collect(&mut avi.parser.reader),
        Err(ParseError::Malformed { pos: at })
    );
    let mut audio = avi.movi_chunks(tag(b"01wb"));
    assert!(audio.next(&mut avi.parser.reader).unwrap().is_ok());
    assert_eq!(audio.next(&mut avi.parser.reader), Some(Err(ParseError::Malformed { pos: at })));
}

#[test]
fn a_header_child_that_overruns_its_list_is_malformed() {
    // the format chunk of the only stream declares more than its stream list holds
    let mut data = file(1, &[audio_strl(5)], &[]);
    let strf = 24 + 64 + 12 + 64;
    assert_eq!(&data[strf..strf + 4], b"strf");
    data[strf + 4] = 20;
    assert_eq!(error_of(&data), ParseError::Malformed { pos: strf as u64 + 8 });
    // the sample list declares more than the root holds
    let mut data = file(0, &[], &[chunk(b"00dc", &[1, 2])]);
    let movi = 12 + 76 + 16 + 24;
    assert_eq!(&data[movi..movi + 4], b"LIST");
    data[movi + 4] = 200;
    assert_eq!(error_of(&data), ParseError::Malformed { pos: movi as u64 + 12 });
    // a node before the sample list that overruns the root ends the search
    let mut data = file(0, &[], &[]);
    let junk = 12 + 76;
    assert_eq!(&data[junk..junk + 4], b"JUNK");
    data[junk + 4] = 250;
    assert_eq!(error_of(&data), ParseError::Malformed { pos: junk as u64 + 8 });
}

#[test]
fn at_the_end_of_the_samples_the_stream_is_left_alone() {
    let data = file(1, &[video_strl(1)], &[chunk(b"00dc", &[1, 2])]);
    let mut avi = parse(&data).unwrap();
    let mut video = avi.movi_chunks(tag(b"00dc"));
    assert!(video.next(&mut avi.parser.reader).unwrap().is_ok());
    assert!(video.next(&mut avi.parser.reader).is_none());
    assert_eq!(avi.parser.reader.seek(SeekFrom::Start(7)), Ok(7));
    assert!(video.next(&mut avi.parser.reader).is_none());
    assert_eq!(avi.parser.reader.stream_position(), Ok(7));
}
