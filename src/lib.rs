//! Demuxing of elementary media bitstreams (Annex-B H.264/H.265, AAC, Opus) into
//! timestamped frames, with the decoder lifecycle that publishes them as tracks.
//!
//! The transport is not driven from here: a decoder hands back the audio track to create
//! (with its catalog entry), each frame to write into a group of its own, and, at teardown,
//! the track to remove.
pub mod aac;
pub mod annexb;
pub mod buffer;
pub mod decoder;
pub mod error;
pub mod media;
pub mod opus;

pub use aac::{channel_config_defaulted, channel_count_from_config, Aac, AacAudioConfig};
pub use annexb::{after_start_code, find_start_code, NalIterator};
pub use decoder::{Decoder, DecoderFormat, ParsedFormat};
pub use error::Error;
pub use media::{AudioCodec, AudioConfig, AudioTrack, Container, Frame, Timestamp};
pub use opus::{Opus, OpusHeader};
