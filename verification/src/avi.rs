//! The AVI layout on top of the RIFF tree.

pub mod header;
pub mod layout;
pub mod parser;
pub mod samples;
pub mod stream;
pub mod tag;
pub mod wave;

pub use header::{AviMainHeader, AviStreamHeader, BitmapInfo, Frame};
pub use parser::AviParser;
pub use samples::StreamChunks;
pub use stream::{AudioStream, Stream, StreamInfo, StreamKind, VideoStream};
pub use wave::{
    Guid, Mp3WaveFormat, Mpeg1WaveFormat, WaveFormat, WaveFormatEx, WaveFormatExtensible,
};
