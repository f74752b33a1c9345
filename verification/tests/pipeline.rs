use std::io::Cursor;

use wavdelta::format::AudioHeader;
use wavdelta::format::CodecError;
use wavdelta::format::FormatIssue;
use wavdelta::format::SampleFormat;
use wavdelta::pipeline::DEFAULT_DELTA_ORDER;
use wavdelta::pipeline::decode;
use wavdelta::pipeline::encode;
use wavdelta::pipeline::read_compressed;
use wavdelta::pipeline::read_wav;
use wavdelta::pipeline::write_compressed;
use wavdelta::pipeline::write_wav;

/// Builds a conformant container with hound, the container codec the
/// library itself relies on.
fn wav_bytes(spec: hound::WavSpec, samples: &[i16]) -> Vec<u8> {
    let mut bytes: Vec<u8> = Vec::new();
    {
        let mut writer = hound::WavWriter::new(Cursor::new(&mut bytes), spec).unwrap();
        for s in samples {
            writer.write_sample(*s).unwrap();
        }
        writer.finalize().unwrap();
    }
    bytes
}

fn mono16_spec(sample_rate: u32) -> hound::WavSpec {
    hound::WavSpec {
        channels: 1,
        sample_rate,
        bits_per_sample: 16,
        sample_format: hound::SampleFormat::Int,
    }
}

/// Reads a container back with hound, independently of the library.
fn read_back(bytes: &[u8]) -> (hound::WavSpec, Vec<i16>) {
    let mut reader = hound::WavReader::new(Cursor::new(bytes)).unwrap();
    let spec = reader.spec();
    let samples = reader
        .samples::<i16>()
        .collect::<Result<Vec<i16>, _>>()
        .unwrap();
    (spec, samples)
}

#[test]
fn round_trip_identity() {
    let samples: Vec<i16> = vec![0, 1, -1, 100, -32768, 32767, 12345, -12345, 7, 7, 7];
    let input = wav_bytes(mono16_spec(44100), &samples);
    let enc = encode(&input, DEFAULT_DELTA_ORDER).unwrap();
    assert_eq!(enc.sample_count, samples.len());
    let dec = decode(&enc.bytes).unwrap();
    assert_eq!(dec.sample_count, samples.len());
    let (spec, recovered) = read_back(&dec.bytes);
    assert_eq!(recovered, samples);
    assert_eq!(spec, mono16_spec(44100));
    // Bit-exact: the decoded container equals a freshly written one.
    assert_eq!(dec.bytes, wav_bytes(mono16_spec(44100), &samples));
}

#[test]
fn round_trip_identity_every_order() {
    let samples: Vec<i16> = (0..500i32)
        .map(|i| ((i * i * 3 - 700 * i + 11) % 30000) as i16)
        .collect();
    for order in 0..=7usize {
        let input = wav_bytes(mono16_spec(22050), &samples);
        let enc = encode(&input, order).unwrap();
        let dec = decode(&enc.bytes).unwrap();
        let (_, recovered) = read_back(&dec.bytes);
        assert_eq!(recovered, samples, "order {}", order);
    }
}

#[test]
fn sample_rate_preserved() {
    let samples: Vec<i16> = vec![5, -6, 7, -8];
    for rate in [8000u32, 44100, 48000, 96000] {
        let input = wav_bytes(mono16_spec(rate), &samples);
        let enc = encode(&input, DEFAULT_DELTA_ORDER).unwrap();
        let dec = decode(&enc.bytes).unwrap();
        let (spec, _) = read_back(&dec.bytes);
        assert_eq!(spec.sample_rate, rate);
    }
}

#[test]
fn stereo_input_rejected() {
    let spec = hound::WavSpec { channels: 2, ..mono16_spec(44100) };
    let input = wav_bytes(spec, &[1, 2, 3, 4]);
    assert_eq!(
        encode(&input, DEFAULT_DELTA_ORDER),
        Err(CodecError::UnsupportedFormat(FormatIssue::NotMono))
    );
}

#[test]
fn eight_bit_input_rejected() {
    let spec = hound::WavSpec { bits_per_sample: 8, ..mono16_spec(44100) };
    let mut bytes: Vec<u8> = Vec::new();
    {
        let mut writer = hound::WavWriter::new(Cursor::new(&mut bytes), spec).unwrap();
        for s in [1i8, -2, 3] {
            writer.write_sample(s).unwrap();
        }
        writer.finalize().unwrap();
    }
    assert_eq!(
        encode(&bytes, DEFAULT_DELTA_ORDER),
        Err(CodecError::UnsupportedFormat(FormatIssue::NotSixteenBit))
    );
}

#[test]
fn float_input_rejected() {
    let spec = hound::WavSpec {
        channels: 1,
        sample_rate: 44100,
        bits_per_sample: 32,
        sample_format: hound::SampleFormat::Float,
    };
    let mut bytes: Vec<u8> = Vec::new();
    {
        let mut writer = hound::WavWriter::new(Cursor::new(&mut bytes), spec).unwrap();
        for s in [0.5f32, -0.25, 0.0] {
            writer.write_sample(s).unwrap();
        }
        writer.finalize().unwrap();
    }
    assert_eq!(
        encode(&bytes, DEFAULT_DELTA_ORDER),
        Err(CodecError::UnsupportedFormat(FormatIssue::NotInt))
    );
}

#[test]
fn silence_compresses_well() {
    let samples: Vec<i16> = vec![0; 10_000];
    let input = wav_bytes(mono16_spec(44100), &samples);
    let enc = encode(&input, DEFAULT_DELTA_ORDER).unwrap();
    let ratio = enc.payload_len as f64 / (2.0 * enc.sample_count as f64);
    assert!(ratio < 0.1, "ratio {} not substantially below 1.0", ratio);
}

#[test]
fn empty_container_round_trips() {
    let input = wav_bytes(mono16_spec(44100), &[]);
    let enc = encode(&input, DEFAULT_DELTA_ORDER).unwrap();
    assert_eq!(enc.sample_count, 0);
    let dec = decode(&enc.bytes).unwrap();
    assert_eq!(dec.sample_count, 0);
    let (spec, recovered) = read_back(&dec.bytes);
    assert_eq!(recovered, Vec::<i16>::new());
    assert_eq!(spec.sample_rate, 44100);
}

#[test]
fn read_wav_recovers_header_and_samples() {
    let samples: Vec<i16> = vec![9, -9, 81, -81];
    let input = wav_bytes(mono16_spec(32000), &samples);
    let (h, s) = read_wav(&input).unwrap();
    assert_eq!(
        h,
        AudioHeader {
            channels: 1,
            sample_rate: 32000,
            bits_per_sample: 16,
            sample_format: SampleFormat::Int,
        }
    );
    assert_eq!(s, samples);
}

#[test]
fn read_wav_rejects_garbage() {
    let garbage: Vec<u8> = (0..64u8).collect();
    assert_eq!(read_wav(&garbage), Err(CodecError::Decode));
}

#[test]
fn compressed_layout_is_header_then_payload() {
    let h = AudioHeader {
        channels: 1,
        sample_rate: 44100,
        bits_per_sample: 16,
        sample_format: SampleFormat::Int,
    };
    let payload: Vec<u8> = vec![0xde, 0xad, 0xbe, 0xef];
    let out = write_compressed(&h, &payload);
    // The framing is hound's own zero-sample container for the same header.
    let header_only = wav_bytes(mono16_spec(44100), &[]);
    assert_eq!(&out[..header_only.len()], &header_only[..]);
    assert_eq!(&out[header_only.len()..], &payload[..]);
}

#[test]
fn read_compressed_inverts_write_compressed() {
    let h = AudioHeader {
        channels: 1,
        sample_rate: 8000,
        bits_per_sample: 16,
        sample_format: SampleFormat::Int,
    };
    let payload: Vec<u8> = (0..200u8).collect();
    let out = write_compressed(&h, &payload);
    let (h2, payload2) = read_compressed(&out).unwrap();
    assert_eq!(h2, h);
    assert_eq!(payload2, payload);
}

#[test]
fn encode_output_starts_with_container_header() {
    let samples: Vec<i16> = vec![3, 1, 4, 1, 5, 9, 2, 6];
    let input = wav_bytes(mono16_spec(44100), &samples);
    let enc = encode(&input, DEFAULT_DELTA_ORDER).unwrap();
    assert_eq!(enc.bytes.len(), 44 + enc.payload_len);
    let (h, payload) = read_compressed(&enc.bytes).unwrap();
    assert_eq!(h.sample_rate, 44100);
    assert_eq!(payload.len(), enc.payload_len);
}

#[test]
fn write_wav_emits_conformant_container() {
    let h = AudioHeader {
        channels: 1,
        sample_rate: 12000,
        bits_per_sample: 16,
        sample_format: SampleFormat::Int,
    };
    let samples: Vec<i16> = vec![-1, 0, 1, 32767];
    let out = write_wav(&h, &samples);
    let (spec, recovered) = read_back(&out);
    assert_eq!(spec, mono16_spec(12000));
    assert_eq!(recovered, samples);
}

#[test]
fn zero_rate_container_rejected() {
    // A conformant zero-sample container whose format chunk declares a zero
    // sample rate; the byte-rate consistency check passes (0 == 2 * 0), so
    // the reader accepts it, but the container writer could not frame it.
    let mut bytes: Vec<u8> = Vec::new();
    bytes.extend_from_slice(b"RIFF");
    bytes.extend_from_slice(&36u32.to_le_bytes());
    bytes.extend_from_slice(b"WAVE");
    bytes.extend_from_slice(b"fmt ");
    bytes.extend_from_slice(&16u32.to_le_bytes());
    bytes.extend_from_slice(&1u16.to_le_bytes()); // PCM
    bytes.extend_from_slice(&1u16.to_le_bytes()); // channels
    bytes.extend_from_slice(&0u32.to_le_bytes()); // sample rate
    bytes.extend_from_slice(&0u32.to_le_bytes()); // byte rate
    bytes.extend_from_slice(&2u16.to_le_bytes()); // block align
    bytes.extend_from_slice(&16u16.to_le_bytes()); // bits per sample
    bytes.extend_from_slice(b"data");
    bytes.extend_from_slice(&0u32.to_le_bytes());
    let (h, _) = read_wav(&bytes).unwrap();
    assert_eq!(h.sample_rate, 0);
    assert_eq!(encode(&bytes, DEFAULT_DELTA_ORDER), Err(CodecError::Decode));
    assert_eq!(decode(&bytes), Err(CodecError::Decode));
}

#[test]
fn oversized_rate_container_rejected() {
    // An extensible format chunk declaring 8 raw bits in a 1-byte block but
    // 16 valid bits: the reader's byte-rate consistency check then only
    // needs 1 * rate to fit in 32 bits, so it accepts a mono 16-bit header
    // whose doubled rate overflows the writer's byte-rate arithmetic.
    let rate: u32 = 3_000_000_000;
    let pcm_guid: [u8; 16] = [
        0x01, 0x00, 0x00, 0x00, 0x00, 0x00, 0x10, 0x00, 0x80, 0x00, 0x00, 0xaa, 0x00, 0x38,
        0x9b, 0x71,
    ];
    let mut bytes: Vec<u8> = Vec::new();
    bytes.extend_from_slice(b"RIFF");
    bytes.extend_from_slice(&60u32.to_le_bytes());
    bytes.extend_from_slice(b"WAVE");
    bytes.extend_from_slice(b"fmt ");
    bytes.extend_from_slice(&40u32.to_le_bytes());
    bytes.extend_from_slice(&0xfffeu16.to_le_bytes()); // extensible
    bytes.extend_from_slice(&1u16.to_le_bytes()); // channels
    bytes.extend_from_slice(&rate.to_le_bytes()); // sample rate
    bytes.extend_from_slice(&rate.to_le_bytes()); // byte rate
    bytes.extend_from_slice(&1u16.to_le_bytes()); // block align
    bytes.extend_from_slice(&8u16.to_le_bytes()); // raw bits per sample
    bytes.extend_from_slice(&22u16.to_le_bytes()); // cbSize
    bytes.extend_from_slice(&16u16.to_le_bytes()); // valid bits per sample
    bytes.extend_from_slice(&1u32.to_le_bytes()); // channel mask
    bytes.extend_from_slice(&pcm_guid);
    bytes.extend_from_slice(b"data");
    bytes.extend_from_slice(&0u32.to_le_bytes());
    let (h, _) = read_wav(&bytes).unwrap();
    assert_eq!(h.sample_rate, rate);
    assert_eq!(h.bits_per_sample, 16);
    assert_eq!(h.channels, 1);
    assert_eq!(encode(&bytes, DEFAULT_DELTA_ORDER), Err(CodecError::Decode));
    assert_eq!(decode(&bytes), Err(CodecError::Decode));
}

#[test]
fn decode_rejects_garbage() {
    let garbage: Vec<u8> = vec![0x52, 0x49, 0x46, 0x46, 1, 2, 3, 4];
    assert_eq!(decode(&garbage), Err(CodecError::Decode));
}

#[test]
fn decode_rejects_truncated_payload() {
    let samples: Vec<i16> = (0..100i16).collect();
    let input = wav_bytes(mono16_spec(44100), &samples);
    let enc = encode(&input, DEFAULT_DELTA_ORDER).unwrap();
    let truncated: Vec<u8> = enc.bytes[..enc.bytes.len() - 1].to_vec();
    assert_eq!(decode(&truncated), Err(CodecError::Decode));
}

#[test]
fn decode_rejects_plain_container() {
    // A conformant container with samples is not the header+payload layout.
    let input = wav_bytes(mono16_spec(44100), &[1, 2, 3, 4]);
    assert_eq!(decode(&input), Err(CodecError::Decode));
}
