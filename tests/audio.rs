use bytes::Bytes;
use hang_import::{
    channel_config_defaulted, channel_count_from_config, Aac, AacAudioConfig, AudioCodec, Container, Error, Opus,
    OpusHeader, Timestamp,
};

fn opus_head(channels: u8, rate: [u8; 4]) -> Vec<u8> {
    let mut b = b"OpusHead".to_vec();
    b.push(1);
    b.push(channels);
    b.extend_from_slice(&[0x38, 0x01]);
    b.extend_from_slice(&rate);
    b.extend_from_slice(&[0, 0, 0]);
    b
}

#[test]
fn aac_two_byte_config() {
    let c = AacAudioConfig::parse(&[0x12, 0x10]).unwrap();
    assert_eq!(c, AacAudioConfig { object_type: 2, sample_rate: 44100, channel_count: 2 });
}

#[test]
fn aac_explicit_rate_reads_three_bytes_big_endian() {
    // object type 2, frequency index 15, channel configuration 2, rate 0x00ac44, then an
    // extension byte that is ignored.
    let c = AacAudioConfig::parse(&[0x17, 0x90, 0x00, 0xac, 0x44, 0x56]).unwrap();
    assert_eq!(c, AacAudioConfig { object_type: 2, sample_rate: 44100, channel_count: 2 });
    let c = AacAudioConfig::parse(&[0x17, 0x88, 0x01, 0x02, 0x03]).unwrap();
    assert_eq!(c.sample_rate, 0x010203);
    assert_eq!(c.channel_count, 1);
}

#[test]
fn aac_extended_object_type() {
    // 31 escape, extension 10 (object type 42), frequency index 3, channel configuration 2.
    let c = AacAudioConfig::parse(&[0xf9, 0x46, 0x40]).unwrap();
    assert_eq!(c, AacAudioConfig { object_type: 42, sample_rate: 48000, channel_count: 2 });
}

#[test]
fn aac_errors() {
    assert_eq!(AacAudioConfig::parse(&[0x12]), Err(Error::AacConfigTooShort));
    assert_eq!(AacAudioConfig::parse(&[]), Err(Error::AacConfigTooShort));
    assert_eq!(AacAudioConfig::parse(&[0xf9, 0x46]), Err(Error::AacExtendedTooShort));
    assert_eq!(AacAudioConfig::parse(&[0x17, 0x90, 0x00, 0xac]), Err(Error::AacExplicitRateTooShort));
    // frequency index 13
    assert_eq!(AacAudioConfig::parse(&[0x16, 0x90]), Err(Error::UnsupportedSampleRate));
}

#[test]
fn aac_channel_configurations() {
    assert_eq!(channel_count_from_config(0), 2);
    assert_eq!(channel_count_from_config(1), 1);
    assert_eq!(channel_count_from_config(7), 7);
    assert_eq!(channel_count_from_config(8), 2);
    assert_eq!(channel_count_from_config(15), 2);
}

#[test]
fn opus_header_fields() {
    let h = OpusHeader::parse(&opus_head(2, [0x80, 0x3e, 0, 0])).unwrap();
    assert_eq!(h, OpusHeader { channel_count: 2, sample_rate: 16000 });
    let h = OpusHeader::parse(&opus_head(6, [0x80, 0xbb, 0, 0])).unwrap();
    assert_eq!(h, OpusHeader { channel_count: 6, sample_rate: 48000 });
}

#[test]
fn opus_signature_refused_at_full_length() {
    let mut b = opus_head(2, [0x80, 0x3e, 0, 0]);
    b[0] = b'o';
    assert_eq!(b.len(), 19);
    assert_eq!(OpusHeader::parse(&b), Err(Error::InvalidOpusSignature));
    let b = opus_head(2, [0x80, 0x3e, 0, 0]);
    assert_eq!(OpusHeader::parse(&b[..18]), Err(Error::OpusHeadTooShort));
}

#[test]
fn aac_decoder_lifecycle() {
    let mut aac = Aac::new();
    let mut frame = Bytes::from(vec![1, 2, 3]);
    assert_eq!(aac.decode(&mut frame, None).unwrap_err(), Error::NotInitialized);
    assert_eq!(frame.as_ref(), &[1, 2, 3]);

    let mut config = Bytes::from(vec![0x12, 0x10, 0x56, 0xe5]);
    aac.initialize(&mut config).unwrap();
    assert!(config.is_empty());
    assert!(aac.is_initialized());
    let track = aac.audio_track().unwrap();
    assert_eq!(track.name, "audio");
    assert_eq!(track.priority, 2);
    assert_eq!(track.config.codec, AudioCodec::Aac { profile: 2 });
    assert_eq!(track.config.sample_rate, 44100);
    assert_eq!(track.config.channel_count, 2);
    assert_eq!(track.config.container, Container::Legacy);
    assert_eq!(track.config.bitrate, None);

    let f = aac.decode(&mut frame, Some(Timestamp::from_micros(1234))).unwrap();
    assert!(f.keyframe);
    assert_eq!(f.timestamp.as_micros(), 1234);
    assert_eq!(f.payload.as_ref(), &[1, 2, 3]);
    assert!(frame.is_empty());

    let mut again = Bytes::from(vec![0x12, 0x10]);
    assert_eq!(aac.initialize(&mut again), Err(Error::AlreadyInitialized));
    assert_eq!(again.as_ref(), &[0x12, 0x10]);

    let removed = aac.teardown().unwrap();
    assert_eq!(removed.name, "audio");
    assert!(!aac.is_initialized());
    assert!(aac.teardown().is_none());
}

#[test]
fn aac_bad_config_changes_nothing() {
    let mut aac = Aac::new();
    let mut config = Bytes::from(vec![0x16, 0x90]);
    assert_eq!(aac.initialize(&mut config), Err(Error::UnsupportedSampleRate));
    assert_eq!(config.as_ref(), &[0x16, 0x90]);
    assert!(!aac.is_initialized());
}

#[test]
fn opus_decoder_wall_clock_frames() {
    let mut opus = Opus::new();
    let mut head = Bytes::from(opus_head(2, [0x80, 0x3e, 0, 0]));
    opus.initialize(&mut head).unwrap();
    assert!(head.is_empty());
    let track = opus.audio_track().unwrap();
    assert_eq!(track.config.codec, AudioCodec::Opus);
    assert_eq!(track.config.sample_rate, 16000);
    assert_eq!(track.config.channel_count, 2);

    let mut a = Bytes::from(vec![9, 9]);
    let first = opus.decode(&mut a, None).unwrap();
    let mut b = Bytes::from(vec![8]);
    let second = opus.decode(&mut b, None).unwrap();
    assert!(first.timestamp <= second.timestamp);
    assert_eq!(second.payload.as_ref(), &[8]);
}

#[test]
fn timestamp_micros() {
    assert_eq!(Timestamp::from_micros(5).as_micros(), 5);
}

#[test]
fn aac_defaulted_channel_configurations_are_flagged() {
    assert!(!channel_config_defaulted(0));
    assert!(!channel_config_defaulted(7));
    assert!(channel_config_defaulted(8));
    assert!(channel_config_defaulted(15));
}

#[test]
fn aac_extended_explicit_rate() {
    // 31 escape, extension 10 (object type 42), frequency index 15, channel configuration 1,
    // then the rate 0x00bb80 (48000) and an ignored extension byte.
    let c = AacAudioConfig::parse(&[0xf9, 0x5e, 0x20, 0x00, 0xbb, 0x80, 0x11]).unwrap();
    assert_eq!(c, AacAudioConfig { object_type: 42, sample_rate: 48000, channel_count: 1 });
}
