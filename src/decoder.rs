//! The format-dispatching decoder: one variant per input format, chosen at construction.
use crate::aac::{aac_audio_config, aac_config, Aac};
use crate::buffer::{bytes_as_slice, bytes_contents};
use crate::error::Error;
use crate::media::{decoded, is_audio_track, AudioConfig, AudioOutput, AudioTrack, Frame, Timestamp};
use crate::opus::{opus_audio_config, opus_header, Opus};
use bytes::Bytes;
use vstd::prelude::*;

verus! {

/// The input formats that the importer recognizes.
#[derive(Clone, Copy, Debug, PartialEq, Eq, Structural)]
#[non_exhaustive]
pub enum DecoderFormat {
    /// H.264 in Annex-B, with SPS and PPS inline.
    Avc3,
    /// A fragmented MP4 (CMAF) container.
    Fmp4,
    /// H.265 in Annex-B, with VPS, SPS and PPS inline.
    Hev1,
    /// Raw AAC frames (not ADTS).
    Aac,
    /// Raw Opus frames (not Ogg).
    Opus,
}

/// The canonical token of each format.
pub open spec fn format_token(f: DecoderFormat) -> Seq<char> {
    match f {
        DecoderFormat::Avc3 => "avc3"@,
        DecoderFormat::Fmp4 => "fmp4"@,
        DecoderFormat::Hev1 => "hev1"@,
        DecoderFormat::Aac => "aac"@,
        DecoderFormat::Opus => "opus"@,
    }
}

/// The tokens that are still read as `avc3`, with a warning.
pub open spec fn is_deprecated_token(t: Seq<char>) -> bool {
    t == "h264"@ || t == "annex-b"@
}

/// The format that a token names, case-sensitively; `cmaf` is another name of `fmp4`.
pub open spec fn format_of_token(t: Seq<char>) -> Option<DecoderFormat> {
    if t == "avc3"@ || is_deprecated_token(t) {
        Some(DecoderFormat::Avc3)
    } else if t == "hev1"@ {
        Some(DecoderFormat::Hev1)
    } else if t == "fmp4"@ || t == "cmaf"@ {
        Some(DecoderFormat::Fmp4)
    } else if t == "aac"@ {
        Some(DecoderFormat::Aac)
    } else if t == "opus"@ {
        Some(DecoderFormat::Opus)
    } else {
        None
    }
}

/// Each canonical token reads back as its own format, with no warning; both deprecated
/// aliases read as `avc3`, with a warning; and `avc3` is written back as `avc3`, never as
/// the alias it was read from.
pub proof fn lemma_format_token_round_trip(f: DecoderFormat)
    ensures
        format_of_token(format_token(f)) == Some(f),
        !is_deprecated_token(format_token(f)),
        format_of_token("h264"@) == Some(DecoderFormat::Avc3),
        is_deprecated_token("h264"@),
        format_of_token("annex-b"@) == Some(DecoderFormat::Avc3),
        is_deprecated_token("annex-b"@),
        format_token(DecoderFormat::Avc3) == "avc3"@,
{
    reveal_strlit("avc3");
    reveal_strlit("h264");
    reveal_strlit("annex-b");
    reveal_strlit("hev1");
    reveal_strlit("fmp4");
    reveal_strlit("cmaf");
    reveal_strlit("aac");
    reveal_strlit("opus");
    assert("avc3"@.len() == 4 && "avc3"@[0] == 'a' && "avc3"@[1] == 'v');
    assert("h264"@.len() == 4 && "h264"@[0] == 'h' && "h264"@[1] == '2');
    assert("annex-b"@.len() == 7 && "annex-b"@[0] == 'a' && "annex-b"@[1] == 'n');
    assert("hev1"@.len() == 4 && "hev1"@[0] == 'h' && "hev1"@[1] == 'e');
    assert("fmp4"@.len() == 4 && "fmp4"@[0] == 'f' && "fmp4"@[1] == 'm');
    assert("cmaf"@.len() == 4 && "cmaf"@[0] == 'c' && "cmaf"@[1] == 'm');
    assert("aac"@.len() == 3 && "aac"@[0] == 'a' && "aac"@[1] == 'a');
    assert("opus"@.len() == 4 && "opus"@[0] == 'o' && "opus"@[1] == 'p');
}

/// A format read from its token, and whether the token was a deprecated one (which
/// deserves a warning).
#[derive(Clone, Copy, Debug, PartialEq, Eq, Structural)]
pub struct ParsedFormat {
    pub format: DecoderFormat,
    pub deprecated: bool,
}

fn same_text(a: &str, b: &str) -> (r: bool)
    ensures
        r == (a@ == b@),
{
    a.to_owned() == b.to_owned()
}

impl DecoderFormat {
    /// Reads a format token, saying whether it was a deprecated alias.
    pub fn parse(s: &str) -> (r: Result<ParsedFormat, Error>)
        ensures
            match format_of_token(s@) {
                Some(f) => r == Ok::<ParsedFormat, Error>(
                    ParsedFormat { format: f, deprecated: is_deprecated_token(s@) },
                ),
                None => r matches Err(Error::UnknownFormat(t)) && t@ == s@,
            },
    {
        let format = if same_text(s, "avc3") || same_text(s, "h264") || same_text(s, "annex-b") {
            DecoderFormat::Avc3
        } else if same_text(s, "hev1") {
            DecoderFormat::Hev1
        } else if same_text(s, "fmp4") || same_text(s, "cmaf") {
            DecoderFormat::Fmp4
        } else if same_text(s, "aac") {
            DecoderFormat::Aac
        } else if same_text(s, "opus") {
            DecoderFormat::Opus
        } else {
            return Err(Error::UnknownFormat(s.to_owned()));
        };
        let deprecated = same_text(s, "h264") || same_text(s, "annex-b");
        Ok(ParsedFormat { format, deprecated })
    }

    /// The canonical token of the format.
    pub fn as_str(&self) -> (r: &'static str)
        ensures
            r@ == format_token(*self),
    {
        match self {
            DecoderFormat::Avc3 => "avc3",
            DecoderFormat::Fmp4 => "fmp4",
            DecoderFormat::Hev1 => "hev1",
            DecoderFormat::Aac => "aac",
            DecoderFormat::Opus => "opus",
        }
    }

    /// The canonical token of the format, owned.
    pub fn to_string(&self) -> (r: String)
        ensures
            r@ == format_token(*self),
    {
        self.as_str().to_owned()
    }
}

impl core::str::FromStr for DecoderFormat {
    type Err = Error;

    /// Reads a format token; a deprecated alias reads as its format (`parse` also tells
    /// whether the token was one).
    fn from_str(s: &str) -> (r: Result<DecoderFormat, Error>)
        ensures
            match format_of_token(s@) {
                Some(f) => r == Ok::<DecoderFormat, Error>(f),
                None => r matches Err(Error::UnknownFormat(t)) && t@ == s@,
            },
    {
        match DecoderFormat::parse(s) {
            Ok(parsed) => Ok(parsed.format),
            Err(e) => Err(e),
        }
    }
}

/// The formats whose decoders this library holds: each frame is handed over whole.
pub open spec fn is_frame_format(f: DecoderFormat) -> bool {
    f == DecoderFormat::Aac || f == DecoderFormat::Opus
}

/// The catalog entry that initialization data `b` yields for format `f`.
pub open spec fn initial_config(f: DecoderFormat, b: Seq<u8>) -> Result<AudioConfig, Error> {
    match f {
        DecoderFormat::Aac => match aac_config(b) {
            Ok(c) => Ok(aac_audio_config(c)),
            Err(e) => Err(e),
        },
        DecoderFormat::Opus => match opus_header(b) {
            Ok(h) => Ok(opus_audio_config(h)),
            Err(e) => Err(e),
        },
        _ => Err(Error::FormatUnavailable(f)),
    }
}

enum DecoderKind {
    Aac(Aac),
    Opus(Opus),
    /// A recognized format whose decoder is not part of this library.
    Unavailable(DecoderFormat),
}

/// Imports a stream of media in a format chosen at construction, which never changes.
pub struct Decoder {
    format: DecoderFormat,
    decoder: DecoderKind,
}

impl Decoder {
    pub closed spec fn spec_format(&self) -> DecoderFormat {
        self.format
    }

    /// The track and clock of the decoder, for the formats decoded here.
    pub closed spec fn output(&self) -> Option<AudioOutput> {
        match self.decoder {
            DecoderKind::Aac(d) => Some(d.output()),
            DecoderKind::Opus(d) => Some(d.output()),
            DecoderKind::Unavailable(_) => None,
        }
    }

    /// The track published, if any.
    pub open spec fn track(&self) -> Option<AudioTrack> {
        match self.output() {
            Some(o) => o.track(),
            None => None,
        }
    }

    pub closed spec fn wf(&self) -> bool {
        match self.decoder {
            DecoderKind::Aac(_) => self.format == DecoderFormat::Aac,
            DecoderKind::Opus(_) => self.format == DecoderFormat::Opus,
            DecoderKind::Unavailable(f) => f == self.format && !is_frame_format(f),
        }
    }

    /// Creates a decoder for `format`.
    pub fn new(format: DecoderFormat) -> (r: Decoder)
        ensures
            r.wf(),
            r.spec_format() == format,
            is_frame_format(format) ==> (r.output() matches Some(o) && o.track() is None
                && o.clock().zero() is None),
            !is_frame_format(format) ==> r.output() is None,
    {
        let decoder = match format {
            DecoderFormat::Aac => DecoderKind::Aac(Aac::new()),
            DecoderFormat::Opus => DecoderKind::Opus(Opus::new()),
            _ => DecoderKind::Unavailable(format),
        };
        Decoder { format, decoder }
    }

    pub fn format(&self) -> (r: DecoderFormat)
        ensures
            r == self.spec_format(),
    {
        self.format
    }

    /// Initializes the decoder with `buf`, which must be consumed whole, and publishes the
    /// track. On an error, or when a track was already published, nothing changes.
    pub fn initialize(&mut self, buf: &mut Bytes) -> (r: Result<(), Error>)
        requires
            old(self).wf(),
        ensures
            final(self).wf(),
            final(self).spec_format() == old(self).spec_format(),
            old(self).track() is Some ==> r == Err::<(), Error>(Error::AlreadyInitialized)
                && *final(self) == *old(self) && *final(buf) == *old(buf),
            old(self).track() is None ==> match initial_config(
                old(self).spec_format(),
                bytes_contents(*old(buf)),
            ) {
                Ok(config) => {
                    &&& r is Ok
                    &&& final(self).track() matches Some(t) && is_audio_track(t, config)
                    &&& final(self).output()->0.clock() == old(self).output()->0.clock()
                    &&& bytes_contents(*final(buf)) == Seq::<u8>::empty()
                },
                Err(e) => r == Err::<(), Error>(e) && *final(self) == *old(self) && *final(buf)
                    == *old(buf),
            },
    {
        match &mut self.decoder {
            DecoderKind::Aac(d) => d.initialize(buf)?,
            DecoderKind::Opus(d) => d.initialize(buf)?,
            DecoderKind::Unavailable(f) => return Err(Error::FormatUnavailable(*f)),
        }
        if bytes_as_slice(buf).len() != 0 {
            return Err(Error::NotFullyConsumed);
        }
        Ok(())
    }

    /// Decodes as many whole frames as `buf` holds, when the frame boundaries are not
    /// known. The frame-only formats refuse this; nothing changes either way.
    pub fn decode_stream(&mut self, buf: &mut Bytes) -> (r: Result<(), Error>)
        requires
            old(self).wf(),
        ensures
            is_frame_format(old(self).spec_format()) ==> r == Err::<(), Error>(
                Error::StreamDecodingUnsupported(old(self).spec_format()),
            ),
            !is_frame_format(old(self).spec_format()) ==> r == Err::<(), Error>(
                Error::FormatUnavailable(old(self).spec_format()),
            ),
            *final(self) == *old(self),
            *final(buf) == *old(buf),
    {
        match &self.decoder {
            DecoderKind::Aac(_) => Err(Error::StreamDecodingUnsupported(DecoderFormat::Aac)),
            DecoderKind::Opus(_) => Err(Error::StreamDecodingUnsupported(DecoderFormat::Opus)),
            DecoderKind::Unavailable(f) => Err(Error::FormatUnavailable(*f)),
        }
    }

    /// Decodes `buf` as exactly one frame, stamped with `pts` or else the wall clock.
    pub fn decode_frame(&mut self, buf: &mut Bytes, pts: Option<Timestamp>) -> (r: Result<
        Frame,
        Error,
    >)
        requires
            old(self).wf(),
        ensures
            final(self).wf(),
            final(self).spec_format() == old(self).spec_format(),
            match old(self).output() {
                Some(o) => final(self).output() matches Some(o2) && decoded(
                    o,
                    o2,
                    *old(buf),
                    *final(buf),
                    pts,
                    r,
                ),
                None => r == Err::<Frame, Error>(Error::FormatUnavailable(old(self).spec_format()))
                    && *final(self) == *old(self) && *final(buf) == *old(buf),
            },
    {
        match &mut self.decoder {
            DecoderKind::Aac(d) => d.decode(buf, pts),
            DecoderKind::Opus(d) => d.decode(buf, pts),
            DecoderKind::Unavailable(f) => Err(Error::FormatUnavailable(*f)),
        }
    }

    /// Whether the decoder has published its track.
    pub fn is_initialized(&self) -> (r: bool)
        ensures
            r == self.track() is Some,
    {
        match &self.decoder {
            DecoderKind::Aac(d) => d.is_initialized(),
            DecoderKind::Opus(d) => d.is_initialized(),
            DecoderKind::Unavailable(_) => false,
        }
    }

    /// The track published, if any.
    pub fn audio_track(&self) -> (r: Option<&AudioTrack>)
        ensures
            r == match self.track() {
                Some(t) => Some(&t),
                None => None::<&AudioTrack>,
            },
    {
        match &self.decoder {
            DecoderKind::Aac(d) => d.audio_track(),
            DecoderKind::Opus(d) => d.audio_track(),
            DecoderKind::Unavailable(_) => None,
        }
    }

    /// Withdraws the track, handing back what the broadcast must remove with its catalog
    /// entry; nothing when no track was published.
    pub fn teardown(&mut self) -> (r: Option<AudioTrack>)
        requires
            old(self).wf(),
        ensures
            final(self).wf(),
            final(self).spec_format() == old(self).spec_format(),
            r == old(self).track(),
            final(self).track() is None,
    {
        match &mut self.decoder {
            DecoderKind::Aac(d) => d.teardown(),
            DecoderKind::Opus(d) => d.teardown(),
            DecoderKind::Unavailable(_) => None,
        }
    }
}

} // verus!
