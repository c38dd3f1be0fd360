//! AAC: the `AudioSpecificConfig` of ISO/IEC 14496-3, then raw frames.
use crate::buffer::{bytes_advance, bytes_as_slice, bytes_contents};
use crate::error::Error;
use crate::media::{
    audio_config, audio_config_of, decoded, is_audio_track, AudioCodec, AudioConfig, AudioOutput,
    AudioTrack, Frame, Timestamp,
};
use bytes::Bytes;
use vstd::prelude::*;

verus! {

/// What an `AudioSpecificConfig` says of the stream.
#[derive(Clone, Copy, Debug, PartialEq, Eq, Structural)]
pub struct AacAudioConfig {
    /// The audio object type, which the catalog calls the profile.
    pub object_type: u8,
    pub sample_rate: u32,
    pub channel_count: u32,
}

/// The sample rates of the frequency indices 0 to 12.
pub open spec fn standard_sample_rate(index: u8) -> u32 {
    match index {
        0 => 96000,
        1 => 88200,
        2 => 64000,
        3 => 48000,
        4 => 44100,
        5 => 32000,
        6 => 24000,
        7 => 22050,
        8 => 16000,
        9 => 12000,
        10 => 11025,
        11 => 8000,
        _ => 7350,
    }
}

/// The sample rate of frequency index `index`, where the explicit rate (index 15) is the
/// 24-bit big-endian number at offset `pos` of `b`.
pub open spec fn sample_rate_of(index: u8, b: Seq<u8>, pos: int) -> Result<u32, Error> {
    if index == 15 {
        if b.len() < pos + 3 {
            Err(Error::AacExplicitRateTooShort)
        } else {
            Ok((b[pos] * 65536 + b[pos + 1] * 256 + b[pos + 2]) as u32)
        }
    } else if index <= 12 {
        Ok(standard_sample_rate(index))
    } else {
        Err(Error::UnsupportedSampleRate)
    }
}

/// The channel count of a channel configuration: 1 to 7 as given, anything else stereo.
pub open spec fn channel_count_of(channel_config: u8) -> u32 {
    if 1 <= channel_config <= 7 {
        channel_config as u32
    } else {
        2
    }
}

/// The config built from the fields once they are read.
pub open spec fn aac_fields(object_type: u8, rate: Result<u32, Error>, channel_config: u8) -> Result<
    AacAudioConfig,
    Error,
> {
    match rate {
        Ok(sample_rate) => Ok(
            AacAudioConfig {
                object_type,
                sample_rate,
                channel_count: channel_count_of(channel_config),
            },
        ),
        Err(e) => Err(e),
    }
}

/// The decoding of an `AudioSpecificConfig`. Its first 5 bits are the object type. Where
/// they are 31, the next 6 bits extend it (32 to 95), then come 4 bits of frequency index
/// and 4 of channel configuration, and the fixed fields take 3 bytes. Otherwise the
/// frequency index and channel configuration follow directly, within 2 bytes. An explicit
/// sample rate follows those fixed bytes; all bytes after it are extension data.
pub open spec fn aac_config(b: Seq<u8>) -> Result<AacAudioConfig, Error> {
    if b.len() < 2 {
        Err(Error::AacConfigTooShort)
    } else if b[0] >> 3u8 == 31 {
        if b.len() < 3 {
            Err(Error::AacExtendedTooShort)
        } else {
            let ext = ((b[0] & 7u8) << 3u8) | ((b[1] >> 5u8) & 7u8);
            let index = (b[1] >> 1u8) & 15u8;
            let channel_config = ((b[1] & 1u8) << 3u8) | ((b[2] >> 5u8) & 7u8);
            aac_fields((32 + ext) as u8, sample_rate_of(index, b, 3), channel_config)
        }
    } else {
        let index = ((b[0] & 7u8) << 1u8) | ((b[1] >> 7u8) & 1u8);
        let channel_config = (b[1] >> 3u8) & 15u8;
        aac_fields(b[0] >> 3u8, sample_rate_of(index, b, 2), channel_config)
    }
}

/// With the explicit-rate escape (frequency index 15) in the two-byte layout, the sample
/// rate is read from exactly the three bytes after the fixed fields, big-endian, whatever
/// follows them.
pub proof fn lemma_aac_explicit_rate(b: Seq<u8>, extension: Seq<u8>)
    requires
        b.len() == 5,
        b[0] >> 3u8 != 31,
        ((b[0] & 7u8) << 1u8) | ((b[1] >> 7u8) & 1u8) == 15,
    ensures
        aac_config(b + extension) is Ok,
        aac_config(b + extension) == aac_config(b),
        aac_config(b)->Ok_0.sample_rate == b[2] * 65536 + b[3] * 256 + b[4],
{
    let full = b + extension;
    assert(full[0] == b[0] && full[1] == b[1] && full[2] == b[2] && full[3] == b[3] && full[4]
        == b[4]);
}

/// The same in the extended layout (object type escape 31), where the three rate bytes
/// follow the three fixed bytes.
pub proof fn lemma_aac_explicit_rate_extended(b: Seq<u8>, extension: Seq<u8>)
    requires
        b.len() == 6,
        b[0] >> 3u8 == 31,
        (b[1] >> 1u8) & 15u8 == 15,
    ensures
        aac_config(b + extension) is Ok,
        aac_config(b + extension) == aac_config(b),
        aac_config(b)->Ok_0.sample_rate == b[3] * 65536 + b[4] * 256 + b[5],
{
    let full = b + extension;
    assert(full[0] == b[0] && full[1] == b[1] && full[2] == b[2] && full[3] == b[3] && full[4]
        == b[4] && full[5] == b[5]);
}

fn sample_rate_from_index(index: u8, b: &[u8], pos: usize) -> (r: Result<u32, Error>)
    requires
        pos <= b@.len(),
    ensures
        r == sample_rate_of(index, b@, pos as int),
{
    if index == 15 {
        if b.len() - pos < 3 {
            return Err(Error::AacExplicitRateTooShort);
        }
        return Ok((b[pos] as u32) * 65536 + (b[pos + 1] as u32) * 256 + (b[pos + 2] as u32));
    }
    match index {
        0 => Ok(96000),
        1 => Ok(88200),
        2 => Ok(64000),
        3 => Ok(48000),
        4 => Ok(44100),
        5 => Ok(32000),
        6 => Ok(24000),
        7 => Ok(22050),
        8 => Ok(16000),
        9 => Ok(12000),
        10 => Ok(11025),
        11 => Ok(8000),
        12 => Ok(7350),
        _ => Err(Error::UnsupportedSampleRate),
    }
}

/// The channel count of a channel configuration. Configurations 8 to 15 are not
/// supported and count as stereo, as 0 (defined elsewhere in the stream) does.
pub fn channel_count_from_config(channel_config: u8) -> (r: u32)
    ensures
        r == channel_count_of(channel_config),
{
    if channel_config == 0 {
        2
    } else if channel_config <= 7 {
        channel_config as u32
    } else {
        2
    }
}

/// Whether a channel configuration is one of the unsupported ones (8 to 15) that count as
/// stereo: a parse that meets one goes on, and the caller may warn of it.
pub fn channel_config_defaulted(channel_config: u8) -> (r: bool)
    ensures
        r == (channel_config >= 8),
        r ==> channel_count_of(channel_config) == 2,
{
    channel_config >= 8
}

impl AacAudioConfig {
    /// Decodes an `AudioSpecificConfig`. Bytes after the fields it reads (SBR and PS
    /// extensions) are accepted and ignored.
    pub fn parse(b: &[u8]) -> (r: Result<AacAudioConfig, Error>)
        ensures
            r == aac_config(b@),
    {
        if b.len() < 2 {
            return Err(Error::AacConfigTooShort);
        }
        let b0 = b[0];
        let object_type = b0 >> 3;
        if object_type == 31 {
            if b.len() < 3 {
                return Err(Error::AacExtendedTooShort);
            }
            let b_ext = b[1];
            let ext = ((b0 & 7) << 3) | ((b_ext >> 5) & 7);
            assert(((b0 & 7u8) << 3u8) | ((b_ext >> 5u8) & 7u8) <= 63u8) by (bit_vector);
            let index = (b_ext >> 1) & 15;
            let b1 = b[2];
            let channel_config = ((b_ext & 1) << 3) | ((b1 >> 5) & 7);
            let sample_rate = sample_rate_from_index(index, b, 3)?;
            Ok(
                AacAudioConfig {
                    object_type: 32 + ext,
                    sample_rate,
                    channel_count: channel_count_from_config(channel_config),
                },
            )
        } else {
            let b1 = b[1];
            let index = ((b0 & 7) << 1) | ((b1 >> 7) & 1);
            let channel_config = (b1 >> 3) & 15;
            let sample_rate = sample_rate_from_index(index, b, 2)?;
            Ok(
                AacAudioConfig {
                    object_type,
                    sample_rate,
                    channel_count: channel_count_from_config(channel_config),
                },
            )
        }
    }
}

/// The catalog entry of an AAC track.
pub open spec fn aac_audio_config(c: AacAudioConfig) -> AudioConfig {
    audio_config_of(AudioCodec::Aac { profile: c.object_type }, c.sample_rate, c.channel_count)
}

/// AAC decoder: initialized with an `AudioSpecificConfig` (for example from an ESDS box),
/// then fed one raw frame per call.
pub struct Aac {
    output: AudioOutput,
}

impl Aac {
    pub closed spec fn output(&self) -> AudioOutput {
        self.output
    }

    pub fn new() -> (r: Aac)
        ensures
            r.output().track() is None,
            r.output().clock().zero() is None,
    {
        Aac { output: AudioOutput::new() }
    }

    /// Decodes the `AudioSpecificConfig` in `buf`, which it consumes whole, and publishes
    /// the track. On an error, or when a track was already published, nothing changes.
    pub fn initialize(&mut self, buf: &mut Bytes) -> (r: Result<(), Error>)
        ensures
            old(self).output().track() is Some ==> r == Err::<(), Error>(Error::AlreadyInitialized)
                && *final(self) == *old(self) && *final(buf) == *old(buf),
            old(self).output().track() is None ==> match aac_config(bytes_contents(*old(buf))) {
                Ok(c) => {
                    &&& r is Ok
                    &&& final(self).output().track() matches Some(t) && is_audio_track(
                        t,
                        aac_audio_config(c),
                    )
                    &&& final(self).output().clock() == old(self).output().clock()
                    &&& bytes_contents(*final(buf)) == Seq::<u8>::empty()
                },
                Err(e) => r == Err::<(), Error>(e) && *final(self) == *old(self) && *final(buf)
                    == *old(buf),
            },
    {
        if self.output.is_initialized() {
            return Err(Error::AlreadyInitialized);
        }
        let config = AacAudioConfig::parse(bytes_as_slice(buf))?;
        let len = bytes_as_slice(buf).len();
        bytes_advance(buf, len);
        proof {
            assert(bytes_contents(*buf) =~= Seq::<u8>::empty());
        }
        let codec = AudioCodec::Aac { profile: config.object_type };
        self.output.publish(audio_config(codec, config.sample_rate, config.channel_count));
        Ok(())
    }

    /// Turns the whole of `buf` into one keyframe, stamped with `pts` or else the wall clock.
    pub fn decode(&mut self, buf: &mut Bytes, pts: Option<Timestamp>) -> (r: Result<Frame, Error>)
        ensures
            decoded(old(self).output(), final(self).output(), *old(buf), *final(buf), pts, r),
    {
        self.output.decode(buf, pts)
    }

    pub fn is_initialized(&self) -> (r: bool)
        ensures
            r == self.output().track() is Some,
    {
        self.output.is_initialized()
    }

    /// The track published, if any.
    pub fn audio_track(&self) -> (r: Option<&AudioTrack>)
        ensures
            r == match self.output().track() {
                Some(t) => Some(&t),
                None => None::<&AudioTrack>,
            },
    {
        self.output.audio_track()
    }

    /// Withdraws the track, handing back what the broadcast must remove with its catalog
    /// entry; nothing when no track was published.
    pub fn teardown(&mut self) -> (r: Option<AudioTrack>)
        ensures
            r == old(self).output().track(),
            final(self).output().track() is None,
            final(self).output().clock() == old(self).output().clock(),
    {
        self.output.teardown()
    }
}

} // verus!
