//! Opus: the `OpusHead` of RFC 7845 (section 5.1), then raw frames. Ogg is not read.
use crate::buffer::{bytes_advance, bytes_as_slice, bytes_contents};
use crate::error::Error;
use crate::media::{
    audio_config, audio_config_of, decoded, is_audio_track, AudioCodec, AudioConfig, AudioOutput,
    AudioTrack, Frame, Timestamp,
};
use bytes::Bytes;
use vstd::prelude::*;

verus! {

/// What an `OpusHead` says of the stream.
#[derive(Clone, Copy, Debug, PartialEq, Eq, Structural)]
pub struct OpusHeader {
    pub channel_count: u32,
    pub sample_rate: u32,
}

/// The ASCII magic `OpusHead`.
pub open spec fn opus_magic() -> Seq<u8> {
    seq![0x4fu8, 0x70u8, 0x75u8, 0x73u8, 0x48u8, 0x65u8, 0x61u8, 0x64u8]
}

/// The unsigned little-endian number in the 4 bytes at offset `pos` of `b`.
pub open spec fn le_u32_at(b: Seq<u8>, pos: int) -> int {
    b[pos] + b[pos + 1] * 256 + b[pos + 2] * 65536 + b[pos + 3] * 16777216
}

/// The decoding of an `OpusHead`: the 8-byte magic, a version byte, the channel count
/// byte, 2 bytes of pre-skip, then the input sample rate in 4 little-endian bytes. The
/// output gain and channel mapping after it are ignored.
pub open spec fn opus_header(b: Seq<u8>) -> Result<OpusHeader, Error> {
    if b.len() < 19 {
        Err(Error::OpusHeadTooShort)
    } else if b.take(8) != opus_magic() {
        Err(Error::InvalidOpusSignature)
    } else {
        Ok(OpusHeader { channel_count: b[9] as u32, sample_rate: le_u32_at(b, 12) as u32 })
    }
}

/// A buffer long enough for a header but without the `OpusHead` magic is refused for its
/// signature, not for its length.
pub proof fn lemma_opus_signature_checked(b: Seq<u8>)
    requires
        b.len() >= 19,
        b.take(8) != opus_magic(),
    ensures
        opus_header(b) == Err::<OpusHeader, Error>(Error::InvalidOpusSignature),
{
}

impl OpusHeader {
    /// Decodes an `OpusHead`.
    pub fn parse(b: &[u8]) -> (r: Result<OpusHeader, Error>)
        ensures
            r == opus_header(b@),
    {
        if b.len() < 19 {
            return Err(Error::OpusHeadTooShort);
        }
        if !(b[0] == 0x4f && b[1] == 0x70 && b[2] == 0x75 && b[3] == 0x73 && b[4] == 0x48 && b[5]
            == 0x65 && b[6] == 0x61 && b[7] == 0x64) {
            return Err(Error::InvalidOpusSignature);
        }
        assert(b@.take(8) =~= opus_magic());
        let channel_count = b[9] as u32;
        let sample_rate = (b[12] as u32) + (b[13] as u32) * 256 + (b[14] as u32) * 65536
            + (b[15] as u32) * 16777216;
        Ok(OpusHeader { channel_count, sample_rate })
    }
}

/// The catalog entry of an Opus track.
pub open spec fn opus_audio_config(h: OpusHeader) -> AudioConfig {
    audio_config_of(AudioCodec::Opus, h.sample_rate, h.channel_count)
}

/// Opus decoder: initialized with an `OpusHead`, then fed one raw frame per call.
pub struct Opus {
    output: AudioOutput,
}

impl Opus {
    pub closed spec fn output(&self) -> AudioOutput {
        self.output
    }

    pub fn new() -> (r: Opus)
        ensures
            r.output().track() is None,
            r.output().clock().zero() is None,
    {
        Opus { output: AudioOutput::new() }
    }

    /// Decodes the `OpusHead` in `buf`, which it consumes whole, and publishes the track.
    /// On an error, or when a track was already published, nothing changes.
    pub fn initialize(&mut self, buf: &mut Bytes) -> (r: Result<(), Error>)
        ensures
            old(self).output().track() is Some ==> r == Err::<(), Error>(Error::AlreadyInitialized)
                && *final(self) == *old(self) && *final(buf) == *old(buf),
            old(self).output().track() is None ==> match opus_header(bytes_contents(*old(buf))) {
                Ok(h) => {
                    &&& r is Ok
                    &&& final(self).output().track() matches Some(t) && is_audio_track(
                        t,
                        opus_audio_config(h),
                    )
                    &&& final(self).output().clock() == old(self).output().clock()
                    &&& bytes_contents(*final(buf)) == Seq::<u8>::empty()
                },
                Err(e) => r == Err::<(), Error>(e) && *final(self) == *old(self) && *final(buf)
                    == *old(buf),
            },
    {
        if self.output.is_initialized() {
            return Err(Error::AlreadyInitialized);
        }
        let header = OpusHeader::parse(bytes_as_slice(buf))?;
        let len = bytes_as_slice(buf).len();
        bytes_advance(buf, len);
        proof {
            assert(bytes_contents(*buf) =~= Seq::<u8>::empty());
        }
        self.output.publish(audio_config(AudioCodec::Opus, header.sample_rate, header.channel_count));
        Ok(())
    }

    /// Turns the whole of `buf` into one keyframe, stamped with `pts` or else the wall clock.
    pub fn decode(&mut self, buf: &mut Bytes, pts: Option<Timestamp>) -> (r: Result<Frame, Error>)
        ensures
            decoded(old(self).output(), final(self).output(), *old(buf), *final(buf), pts, r),
    {
        self.output.decode(buf, pts)
    }

    pub fn is_initialized(&self) -> (r: bool)
        ensures
            r == self.output().track() is Some,
    {
        self.output.is_initialized()
    }

    /// The track published, if any.
    pub fn audio_track(&self) -> (r: Option<&AudioTrack>)
        ensures
            r == match self.output().track() {
                Some(t) => Some(&t),
                None => None::<&AudioTrack>,
            },
    {
        self.output.audio_track()
    }

    /// Withdraws the track, handing back what the broadcast must remove with its catalog
    /// entry; nothing when no track was published.
    pub fn teardown(&mut self) -> (r: Option<AudioTrack>)
        ensures
            r == old(self).output().track(),
            final(self).output().track() is None,
            final(self).output().clock() == old(self).output().clock(),
    {
        self.output.teardown()
    }
}

} // verus!
