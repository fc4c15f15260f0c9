//! Read-only decoding of RIFF containers and of the AVI layout built on them.

pub mod avi;
pub mod codec;
pub mod error;
pub mod fourcc;
pub mod io;
pub mod record;
pub mod riff;

pub use error::{ErrorKind, ParseError};
pub use fourcc::Fourcc;
pub use io::embedded::EmbeddedAdapter;
pub use io::{Reader, SeekFrom, SliceReader};
pub use riff::{Chunk, ChunkData, ChunkRead, ChunkType, List, ListIter, RiffParser};
