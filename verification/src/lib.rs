//! Codec for the MIDI 2.0 clip file container: an eight byte marker, a
//! configuration header of Universal MIDI Packet words, and the words of the
//! clip itself, every word stored most significant byte first.

pub mod clip;
pub mod error;
pub mod header;
pub mod source;
pub mod ump;
pub mod word;

pub use clip::{read_clip_configuration_header, Clip};
pub use error::{Error, IoFailure};
pub use header::{read_clip_header, write_clip_header, CLIP_FILE_HEADER};
pub use source::ByteSource;
pub use word::{read_u32, word_from_be_bytes, write_u32};
