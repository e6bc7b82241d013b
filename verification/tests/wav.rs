use handy_asr::wav::{check_sample_count, encode_pcm16_wav, encode_pcm16_with_spec, standard_wav_spec, SampleFormat, WavError, WavSpec};

fn le32(v: u32) -> Vec<u8> {
    v.to_le_bytes().to_vec()
}

fn expected_header(channels: u16, rate: u32, n: u32) -> Vec<u8> {
    let mut h = Vec::new();
    h.extend_from_slice(b"RIFF");
    h.extend(le32(36 + 2 * n));
    h.extend_from_slice(b"WAVE");
    h.extend_from_slice(b"fmt ");
    h.extend(le32(16));
    h.extend_from_slice(&1u16.to_le_bytes());
    h.extend_from_slice(&channels.to_le_bytes());
    h.extend(le32(rate));
    h.extend(le32(rate * 2 * channels as u32));
    h.extend_from_slice(&(2 * channels).to_le_bytes());
    h.extend_from_slice(&16u16.to_le_bytes());
    h.extend_from_slice(b"data");
    h.extend(le32(2 * n));
    h
}

#[test]
fn standard_spec_is_mono_16k_16bit() {
    let s = standard_wav_spec();
    assert_eq!(s.channels, 1);
    assert_eq!(s.sample_rate, 16000);
    assert_eq!(s.bits_per_sample, 16);
    assert_eq!(s.sample_format, SampleFormat::Int);
}

#[test]
fn empty_audio_is_a_bare_header() {
    let bytes = encode_pcm16_wav(&[]).unwrap();
    assert_eq!(bytes.len(), 44);
    assert_eq!(bytes, expected_header(1, 16000, 0));
}

#[test]
fn encodes_exact_bytes() {
    let samples = [0i16, 1, -1, i16::MAX, i16::MIN, 0x1234];
    let bytes = encode_pcm16_wav(&samples).unwrap();
    let mut expected = expected_header(1, 16000, samples.len() as u32);
    for s in samples {
        expected.extend_from_slice(&s.to_le_bytes());
    }
    assert_eq!(bytes, expected);
    assert_eq!(bytes.len(), 44 + 2 * samples.len());
}

#[test]
fn samples_read_back_from_encoding() {
    let samples: Vec<i16> = (0..100).map(|i| (i * 613 - 30000) as i16).collect();
    let bytes = encode_pcm16_wav(&samples).unwrap();
    let data_len = u32::from_le_bytes([bytes[40], bytes[41], bytes[42], bytes[43]]);
    assert_eq!(data_len as usize / 2, samples.len());
    for (i, s) in samples.iter().enumerate() {
        assert_eq!(i16::from_le_bytes([bytes[44 + 2 * i], bytes[45 + 2 * i]]), *s);
    }
    assert!(check_sample_count(samples.len(), data_len / 2).is_ok());
}

#[test]
fn stereo_spec_header() {
    let spec = WavSpec { channels: 2, sample_rate: 44100, bits_per_sample: 16, sample_format: SampleFormat::Int };
    let bytes = encode_pcm16_with_spec(spec, &[1, 2, 3, 4]).unwrap();
    let mut expected = expected_header(2, 44100, 4);
    for s in [1i16, 2, 3, 4] {
        expected.extend_from_slice(&s.to_le_bytes());
    }
    assert_eq!(bytes, expected);
}

#[test]
fn sample_count_check() {
    assert!(check_sample_count(10, 10).is_ok());
    match check_sample_count(10, 9) {
        Err(WavError::SampleCountMismatch { expected, actual }) => {
            assert_eq!(expected, 10);
            assert_eq!(actual, 9);
        }
        other => panic!("unexpected {:?}", other),
    }
}

#[test]
fn decodes_what_was_encoded() {
    let samples: Vec<i16> = vec![0, 5, -5, i16::MAX, i16::MIN, 1234];
    let bytes = encode_pcm16_wav(&samples).unwrap();
    assert_eq!(handy_asr::wav::decode_pcm16(&bytes).unwrap(), samples);
    let stereo = WavSpec { channels: 2, sample_rate: 8000, bits_per_sample: 16, sample_format: SampleFormat::Int };
    let bytes = encode_pcm16_with_spec(stereo, &[1, -2, 3, -4]).unwrap();
    assert_eq!(handy_asr::wav::decode_pcm16(&bytes).unwrap(), vec![1, -2, 3, -4]);
}

#[test]
fn verify_counts_written_samples() {
    let bytes = encode_pcm16_wav(&[1, 2, 3]).unwrap();
    assert!(handy_asr::wav::verify_wav_bytes(&bytes, 3).is_ok());
    match handy_asr::wav::verify_wav_bytes(&bytes, 4) {
        Err(WavError::SampleCountMismatch { expected, actual }) => {
            assert_eq!(expected, 4);
            assert_eq!(actual, 3);
        }
        other => panic!("unexpected {:?}", other),
    }
}

#[test]
fn rejects_non_wav_bytes() {
    assert!(matches!(handy_asr::wav::decode_pcm16(b"not a wav file at all"), Err(WavError::Decoder(_))));
    assert!(matches!(handy_asr::wav::verify_wav_bytes(b"", 0), Err(WavError::Decoder(_))));
}

#[test]
fn truncated_data_fails_to_decode_but_header_counts() {
    let bytes = encode_pcm16_wav(&[1, 2, 3, 4]).unwrap();
    let cut = &bytes[..bytes.len() - 2];
    assert!(handy_asr::wav::verify_wav_bytes(cut, 4).is_ok());
    assert!(matches!(handy_asr::wav::decode_pcm16(cut), Err(WavError::Decoder(_))));
}

#[test]
fn wav_error_messages() {
    assert_eq!(
        check_sample_count(10, 9).unwrap_err().message(),
        "WAV sample count mismatch: expected 10, got 9"
    );
    assert_eq!(
        WavError::TooManySamples { samples: 3000000000 }.message(),
        "3000000000 samples do not fit the size fields of a WAV file"
    );
    let err = handy_asr::wav::decode_pcm16(b"nope").unwrap_err();
    assert!(!err.message().is_empty());
}
