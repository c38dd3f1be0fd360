use crate::decoder::DecoderFormat;
use vstd::prelude::*;

verus! {

/// Everything that can go wrong while importing a media bitstream.
#[derive(Clone, Debug, PartialEq, Eq)]
pub enum Error {
    /// The buffer does not begin with an Annex-B start code (a leading zero byte is missing,
    /// or `00 00 00` is not followed by `01`).
    MissingStartCode,
    /// The buffer begins with `00 00` followed by a byte that is neither `00` nor `01`.
    InvalidStartCode,
    /// An `AudioSpecificConfig` must be at least 2 bytes long.
    AacConfigTooShort,
    /// An extended audio object type needs 2 more bytes after the first one.
    AacExtendedTooShort,
    /// An explicit sample rate (frequency index 15) needs 3 more bytes.
    AacExplicitRateTooShort,
    /// The frequency index is neither in the standard table nor the explicit escape.
    UnsupportedSampleRate,
    /// An `OpusHead` must be at least 19 bytes long.
    OpusHeadTooShort,
    /// The first 8 bytes are not the ASCII magic `OpusHead`.
    InvalidOpusSignature,
    /// A frame was decoded before the decoder was initialized.
    NotInitialized,
    /// The decoder was already initialized; a second track is never created.
    AlreadyInitialized,
    /// Initialization left bytes of its buffer unread.
    NotFullyConsumed,
    /// The format only decodes whole frames, never an unframed stream.
    StreamDecodingUnsupported(DecoderFormat),
    /// The format is recognized, but no decoder for it is part of this library.
    FormatUnavailable(DecoderFormat),
    /// The text token names no known format; it carries the token.
    UnknownFormat(String),
}

} // verus!
