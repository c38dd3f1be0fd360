//! Timestamps, frames, and the catalog description of an audio track.
use crate::buffer::{bytes_as_slice, bytes_contents, bytes_take_front};
use crate::error::Error;
use bytes::Bytes;
use vstd::prelude::*;

verus! {

/// Declares `tokio::time::Instant` to Verus as an opaque type: an instant is only carried.
#[verifier::external_type_specification]
#[verifier::external_body]
pub struct ExInstant(tokio::time::Instant);

/// Relies on `tokio::time::Instant::now`: the current instant of the monotonic clock.
/// Nothing is known of its value.
pub assume_specification[ tokio::time::Instant::now ]() -> tokio::time::Instant;

/// Relies on `tokio::time::Instant::elapsed`: the time since `zero`, in whole microseconds.
/// It depends on the clock, so nothing is known of its value.
#[verifier::external_body]
fn elapsed_micros(zero: &tokio::time::Instant) -> u64 {
    zero.elapsed().as_micros() as u64
}

/// A presentation time in microseconds.
#[derive(Clone, Copy, Debug, PartialEq, Eq, Structural, PartialOrd, Ord, Hash)]
pub struct Timestamp {
    micros: u64,
}

impl View for Timestamp {
    type V = nat;

    closed spec fn view(&self) -> nat {
        self.micros as nat
    }
}

impl Timestamp {
    pub fn from_micros(micros: u64) -> (r: Timestamp)
        ensures
            r@ == micros,
    {
        Timestamp { micros }
    }

    pub fn as_micros(&self) -> (r: u64)
        ensures
            r == self@,
    {
        self.micros
    }
}

/// One encoded frame: written once into its own group of the track, then dropped.
#[derive(Debug)]
pub struct Frame {
    pub timestamp: Timestamp,
    /// The frame can be decoded without any frame before it.
    pub keyframe: bool,
    pub payload: Bytes,
}

/// The wall clock of one decoder: the instant of its first frame without a timestamp,
/// latched on first use and read from then on.
pub struct FrameClock {
    zero: Option<tokio::time::Instant>,
}

impl FrameClock {
    /// The instant that frame times count from, once latched.
    pub closed spec fn zero(&self) -> Option<tokio::time::Instant> {
        self.zero
    }

    pub fn new() -> (r: FrameClock)
        ensures
            r.zero() is None,
    {
        FrameClock { zero: None }
    }

    /// The hint where one is given; otherwise the time elapsed since the latched instant,
    /// which the first such call latches.
    pub fn timestamp(&mut self, hint: Option<Timestamp>) -> (r: Timestamp)
        ensures
            hint matches Some(t) ==> r == t && final(self).zero() == old(self).zero(),
            hint is None ==> final(self).zero() is Some,
            old(self).zero() is Some ==> final(self).zero() == old(self).zero(),
    {
        match hint {
            Some(t) => t,
            None => {
                if self.zero.is_none() {
                    self.zero = Some(tokio::time::Instant::now());
                }
                match &self.zero {
                    Some(zero) => Timestamp::from_micros(elapsed_micros(zero)),
                    None => Timestamp::from_micros(0),
                }
            },
        }
    }
}

/// The audio codec of a track, as the catalog names it.
#[derive(Clone, Copy, Debug, PartialEq, Eq, Structural)]
pub enum AudioCodec {
    /// AAC, with the audio object type as its profile.
    Aac { profile: u8 },
    Opus,
}

/// How the frames of a track are framed on the wire.
#[derive(Clone, Copy, Debug, PartialEq, Eq, Structural)]
pub enum Container {
    /// One timestamped frame per group.
    Legacy,
}

/// The catalog entry of an audio track.
#[derive(Clone, Debug, PartialEq, Eq)]
pub struct AudioConfig {
    pub codec: AudioCodec,
    pub sample_rate: u32,
    pub channel_count: u32,
    pub bitrate: Option<u64>,
    pub description: Option<Vec<u8>>,
    pub container: Container,
    pub min_buffer: Option<u64>,
}

/// The catalog entry that a decoder publishes for its parameters.
pub open spec fn audio_config_of(codec: AudioCodec, sample_rate: u32, channel_count: u32) -> AudioConfig {
    AudioConfig {
        codec,
        sample_rate,
        channel_count,
        bitrate: None,
        description: None,
        container: Container::Legacy,
        min_buffer: None,
    }
}

pub fn audio_config(codec: AudioCodec, sample_rate: u32, channel_count: u32) -> (r: AudioConfig)
    ensures
        r == audio_config_of(codec, sample_rate, channel_count),
{
    AudioConfig {
        codec,
        sample_rate,
        channel_count,
        bitrate: None,
        description: None,
        container: Container::Legacy,
        min_buffer: None,
    }
}

/// An audio track to create, with its catalog entry: both exist together or not at all.
#[derive(Clone, Debug, PartialEq, Eq)]
pub struct AudioTrack {
    /// The base name; the broadcast derives the track's unique name from it.
    pub name: String,
    pub priority: u8,
    pub config: AudioConfig,
}

/// The priority of audio tracks, for the track and its catalog entry alike.
pub const AUDIO_PRIORITY: u8 = 2;

/// `t` is the audio track published for `config`.
pub open spec fn is_audio_track(t: AudioTrack, config: AudioConfig) -> bool {
    &&& t.name@ == "audio"@
    &&& t.priority == AUDIO_PRIORITY
    &&& t.config == config
}

/// The output side shared by the frame-only audio decoders: the track, once published,
/// and the clock that stamps frames given without a timestamp.
pub struct AudioOutput {
    track: Option<AudioTrack>,
    clock: FrameClock,
}

impl AudioOutput {
    pub closed spec fn track(&self) -> Option<AudioTrack> {
        self.track
    }

    pub closed spec fn clock(&self) -> FrameClock {
        self.clock
    }

    pub fn new() -> (r: AudioOutput)
        ensures
            r.track() is None,
            r.clock().zero() is None,
    {
        AudioOutput { track: None, clock: FrameClock::new() }
    }

    pub fn is_initialized(&self) -> (r: bool)
        ensures
            r == self.track() is Some,
    {
        self.track.is_some()
    }

    /// The track published, if any.
    pub fn audio_track(&self) -> (r: Option<&AudioTrack>)
        ensures
            r == match self.track() {
                Some(t) => Some(&t),
                None => None::<&AudioTrack>,
            },
    {
        self.track.as_ref()
    }

    /// Publishes the track for `config`.
    pub fn publish(&mut self, config: AudioConfig)
        requires
            old(self).track() is None,
        ensures
            final(self).track() matches Some(t) && is_audio_track(t, config),
            final(self).clock() == old(self).clock(),
    {
        let name = String::from_str("audio");
        self.track = Some(AudioTrack { name, priority: AUDIO_PRIORITY, config });
    }

    /// Turns the whole of `buf` into one keyframe.
    pub fn decode(&mut self, buf: &mut Bytes, pts: Option<Timestamp>) -> (r: Result<Frame, Error>)
        ensures
            decoded(*old(self), *final(self), *old(buf), *final(buf), pts, r),
    {
        if self.track.is_none() {
            return Err(Error::NotInitialized);
        }
        let timestamp = self.clock.timestamp(pts);
        let len = bytes_as_slice(buf).len();
        let payload = bytes_take_front(buf, len);
        proof {
            assert(bytes_contents(payload) =~= bytes_contents(*old(buf)));
            assert(bytes_contents(*buf) =~= Seq::<u8>::empty());
        }
        Ok(Frame { timestamp, keyframe: true, payload })
    }

    /// Withdraws the track, handing back what the broadcast must remove; nothing when no
    /// track was published.
    pub fn teardown(&mut self) -> (r: Option<AudioTrack>)
        ensures
            r == old(self).track(),
            final(self).track() is None,
            final(self).clock() == old(self).clock(),
    {
        self.track.take()
    }
}

/// The outcome of decoding the whole of a buffer as one frame: refused before a track is
/// published; afterwards a keyframe of all its bytes, stamped with the hint where one is
/// given, else by the clock, which is latched then if it was not already.
pub open spec fn decoded(
    before: AudioOutput,
    after: AudioOutput,
    buf_before: Bytes,
    buf_after: Bytes,
    pts: Option<Timestamp>,
    r: Result<Frame, Error>,
) -> bool {
    &&& before.track() is None ==> r == Err::<Frame, Error>(Error::NotInitialized) && after
        == before && buf_after == buf_before
    &&& before.track() is Some ==> {
        &&& r is Ok
        &&& frame_of(r->Ok_0, bytes_contents(buf_before), pts)
        &&& bytes_contents(buf_after) == Seq::<u8>::empty()
        &&& after.track() == before.track()
        &&& pts is None ==> after.clock().zero() is Some
    }
    &&& before.clock().zero() is Some ==> after.clock() == before.clock()
}

/// `f` is the keyframe that carries `payload`, stamped with `pts` where one is given.
pub open spec fn frame_of(f: Frame, payload: Seq<u8>, pts: Option<Timestamp>) -> bool {
    &&& f.keyframe
    &&& bytes_contents(f.payload) == payload
    &&& (pts matches Some(t) ==> f.timestamp == t)
}

} // verus!
