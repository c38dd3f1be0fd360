use bytes::Bytes;
use hang_import::{AudioCodec, Decoder, DecoderFormat, Error, ParsedFormat, Timestamp};

fn opus_head() -> Vec<u8> {
    let mut b = b"OpusHead".to_vec();
    b.extend_from_slice(&[1, 2, 0x38, 0x01, 0x80, 0x3e, 0, 0, 0, 0, 0]);
    b
}

#[test]
fn canonical_tokens_round_trip() {
    let all = [
        DecoderFormat::Avc3,
        DecoderFormat::Fmp4,
        DecoderFormat::Hev1,
        DecoderFormat::Aac,
        DecoderFormat::Opus,
    ];
    for f in all {
        let token = f.to_string();
        let parsed = DecoderFormat::parse(&token).unwrap();
        assert_eq!(parsed, ParsedFormat { format: f, deprecated: false });
        assert_eq!(parsed.format.to_string(), token);
        assert_eq!(token.parse::<DecoderFormat>(), Ok(f));
    }
    assert_eq!(DecoderFormat::Opus.as_str(), "opus");
}

#[test]
fn deprecated_aliases_read_as_avc3() {
    for alias in ["h264", "annex-b"] {
        let parsed = DecoderFormat::parse(alias).unwrap();
        assert_eq!(parsed, ParsedFormat { format: DecoderFormat::Avc3, deprecated: true });
        assert_eq!(parsed.format.to_string(), "avc3");
    }
    let cmaf = DecoderFormat::parse("cmaf").unwrap();
    assert_eq!(cmaf, ParsedFormat { format: DecoderFormat::Fmp4, deprecated: false });
    assert_eq!(cmaf.format.to_string(), "fmp4");
}

#[test]
fn unknown_tokens_carry_the_text() {
    assert_eq!(DecoderFormat::parse("mp3"), Err(Error::UnknownFormat("mp3".to_string())));
    assert_eq!(DecoderFormat::parse("AVC3"), Err(Error::UnknownFormat("AVC3".to_string())));
    assert_eq!("".parse::<DecoderFormat>(), Err(Error::UnknownFormat(String::new())));
    assert_eq!("AAC".parse::<DecoderFormat>(), Err(Error::UnknownFormat("AAC".to_string())));
    assert_eq!("h264".parse::<DecoderFormat>(), Ok(DecoderFormat::Avc3));
    assert_eq!("annex-b".parse::<DecoderFormat>(), Ok(DecoderFormat::Avc3));
    assert_eq!("cmaf".parse::<DecoderFormat>(), Ok(DecoderFormat::Fmp4));
}

#[test]
fn opus_decoder_refuses_streams_and_takes_frames() {
    let mut decoder = Decoder::new(DecoderFormat::Opus);
    assert_eq!(decoder.format(), DecoderFormat::Opus);
    let mut stream = Bytes::from(vec![1, 2, 3]);
    assert_eq!(
        decoder.decode_stream(&mut stream),
        Err(Error::StreamDecodingUnsupported(DecoderFormat::Opus))
    );
    assert_eq!(stream.as_ref(), &[1, 2, 3]);

    let mut head = Bytes::from(opus_head());
    decoder.initialize(&mut head).unwrap();
    assert!(decoder.is_initialized());
    assert!(head.is_empty());
    assert_eq!(decoder.audio_track().unwrap().config.codec, AudioCodec::Opus);

    let frame = decoder.decode_frame(&mut stream, Some(Timestamp::from_micros(20_000))).unwrap();
    assert!(frame.keyframe);
    assert_eq!(frame.timestamp, Timestamp::from_micros(20_000));
    assert_eq!(frame.payload.as_ref(), &[1, 2, 3]);
    assert!(stream.is_empty());

    assert!(decoder.teardown().is_some());
    assert!(!decoder.is_initialized());
}

#[test]
fn aac_decoder_through_facade() {
    let mut decoder = Decoder::new(DecoderFormat::Aac);
    let mut frame = Bytes::from(vec![7]);
    assert_eq!(decoder.decode_frame(&mut frame, None).unwrap_err(), Error::NotInitialized);
    assert_eq!(
        decoder.decode_stream(&mut frame),
        Err(Error::StreamDecodingUnsupported(DecoderFormat::Aac))
    );
    let mut config = Bytes::from(vec![0x12, 0x10]);
    decoder.initialize(&mut config).unwrap();
    assert_eq!(decoder.audio_track().unwrap().config.codec, AudioCodec::Aac { profile: 2 });
    let f = decoder.decode_frame(&mut frame, None).unwrap();
    assert_eq!(f.payload.as_ref(), &[7]);
    let mut twice = Bytes::from(vec![0x12, 0x10]);
    assert_eq!(decoder.initialize(&mut twice), Err(Error::AlreadyInitialized));
}

#[test]
fn initialization_errors_pass_through() {
    let mut decoder = Decoder::new(DecoderFormat::Opus);
    let mut short = Bytes::from(b"OpusHead".to_vec());
    assert_eq!(decoder.initialize(&mut short), Err(Error::OpusHeadTooShort));
    assert!(!decoder.is_initialized());
    assert_eq!(short.len(), 8);
}

#[test]
fn video_formats_have_no_decoder_here() {
    for f in [DecoderFormat::Avc3, DecoderFormat::Hev1, DecoderFormat::Fmp4] {
        let mut decoder = Decoder::new(f);
        let mut buf = Bytes::from(vec![0, 0, 0, 1, 0x67]);
        assert_eq!(decoder.initialize(&mut buf), Err(Error::FormatUnavailable(f)));
        assert_eq!(decoder.decode_stream(&mut buf), Err(Error::FormatUnavailable(f)));
        assert_eq!(decoder.decode_frame(&mut buf, None).unwrap_err(), Error::FormatUnavailable(f));
        assert!(!decoder.is_initialized());
        assert!(decoder.teardown().is_none());
        assert_eq!(buf.len(), 5);
    }
}
