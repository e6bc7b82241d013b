use vstd::prelude::*;
use std::io::Cursor;

use crate::text::{decimal, decimal_text};

verus! {

/// Encoding of the samples in a WAV file.
#[derive(Debug, Clone, Copy, PartialEq, Eq)]
pub enum SampleFormat {
    /// IEEE floating point samples.
    Float,
    /// Signed integer samples.
    Int,
}

/// Properties of the audio data in a WAV file.
#[derive(Debug, Clone, Copy, PartialEq, Eq)]
pub struct WavSpec {
    pub channels: u16,
    pub sample_rate: u32,
    pub bits_per_sample: u16,
    pub sample_format: SampleFormat,
}

/// Mono, 16 kHz, 16-bit signed PCM: the shape written to disk and uploaded.
pub open spec fn spec_standard_wav_spec() -> WavSpec {
    WavSpec { channels: 1, sample_rate: 16000, bits_per_sample: 16, sample_format: SampleFormat::Int }
}

/// Mono, 16 kHz, 16-bit signed PCM.
#[verifier::when_used_as_spec(spec_standard_wav_spec)]
pub fn standard_wav_spec() -> (s: WavSpec)
    ensures
        s == spec_standard_wav_spec(),
{
    WavSpec { channels: 1, sample_rate: 16000, bits_per_sample: 16, sample_format: SampleFormat::Int }
}

/// A spec that 16-bit samples can be written with: 16-bit integer PCM,
/// one or two channels, a rate whose byte rate fits the header.
pub open spec fn pcm16_writable(spec: WavSpec) -> bool {
    &&& spec.bits_per_sample == 16
    &&& spec.sample_format == SampleFormat::Int
    &&& 1 <= spec.channels <= 2
    &&& 0 < spec.sample_rate
    &&& spec.sample_rate * 2 * spec.channels <= u32::MAX
}

/// Most samples whose byte sizes fit the 32-bit size fields of a WAV header.
pub const MAX_WAV_SAMPLES: usize = 2147483629;

/// The little-endian bytes of a 16-bit field.
pub open spec fn le16(v: int) -> Seq<u8> {
    seq![(v % 256) as u8, ((v / 256) % 256) as u8]
}

/// The little-endian bytes of a 32-bit field.
pub open spec fn le32(v: int) -> Seq<u8> {
    seq![(v % 256) as u8, ((v / 256) % 256) as u8, ((v / 65536) % 256) as u8, ((v / 16777216) % 256) as u8]
}

/// The value of the little-endian 32-bit field at `at`.
pub open spec fn read_le32(b: Seq<u8>, at: int) -> int {
    b[at] + 256 * b[at + 1] + 65536 * b[at + 2] + 16777216 * b[at + 3]
}

/// The 16-bit sample stored little-endian at `at`.
pub open spec fn read_i16(b: Seq<u8>, at: int) -> int {
    let u = b[at] + 256 * b[at + 1];
    if u >= 32768 { u - 65536 } else { u }
}

/// Byte `k` (0 or 1) of sample `v` in little-endian two's complement.
pub open spec fn sample_byte(v: i16, k: int) -> u8 {
    let u = (v as int) % 65536;
    if k == 0 { (u % 256) as u8 } else { (u / 256) as u8 }
}

/// The PCM data: each sample as two little-endian bytes.
pub open spec fn pcm16_data(samples: Seq<i16>) -> Seq<u8> {
    Seq::new(2 * samples.len(), |i: int| sample_byte(samples[i / 2], i % 2))
}

/// The ASCII bytes of a four-letter chunk id.
pub open spec fn tag(a: u8, b: u8, c: u8, d: u8) -> Seq<u8> {
    seq![a, b, c, d]
}

/// The 44-byte header of a PCM WAV file holding `n` 16-bit samples:
/// the RIFF chunk, the 16-byte PCM `fmt ` chunk and the `data` chunk header.
pub open spec fn pcm16_header(spec: WavSpec, n: int) -> Seq<u8> {
    tag(0x52, 0x49, 0x46, 0x46)
        + le32(36 + 2 * n)
        + tag(0x57, 0x41, 0x56, 0x45)
        + tag(0x66, 0x6d, 0x74, 0x20)
        + le32(16)
        + le16(1)
        + le16(spec.channels as int)
        + le32(spec.sample_rate as int)
        + le32(spec.sample_rate * 2 * spec.channels)
        + le16(2 * spec.channels)
        + le16(16)
        + tag(0x64, 0x61, 0x74, 0x61)
        + le32(2 * n)
}

/// A complete PCM WAV file holding `samples`: header, then the PCM data.
pub open spec fn pcm16_wav(spec: WavSpec, samples: Seq<i16>) -> Seq<u8> {
    pcm16_header(spec, samples.len() as int) + pcm16_data(samples)
}

/// The number of 16-bit samples a WAV reader finds in a PCM file: the
/// `data` chunk length (at byte 40 of a 44-byte header) over two bytes.
pub open spec fn header_sample_count(b: Seq<u8>) -> int {
    read_le32(b, 40) / 2
}

proof fn lemma_le32_read_back(v: int)
    requires
        0 <= v <= u32::MAX,
    ensures
        le32(v)[0] + 256 * le32(v)[1] + 65536 * le32(v)[2] + 16777216 * le32(v)[3] == v,
{
    let b0 = v % 256;
    let b1 = (v / 256) % 256;
    let b2 = (v / 65536) % 256;
    let b3 = (v / 16777216) % 256;
    assert(b0 + 256 * b1 + 65536 * b2 + 16777216 * b3 == v) by (nonlinear_arith)
        requires
            0 <= v <= u32::MAX,
            b0 == v % 256,
            b1 == (v / 256) % 256,
            b2 == (v / 65536) % 256,
            b3 == (v / 16777216) % 256,
    ;
}

proof fn lemma_sample_read_back(v: i16)
    ensures
        ({
            let u = sample_byte(v, 0) + 256 * sample_byte(v, 1);
            (if u >= 32768 { u - 65536 } else { u }) == v as int
        }),
{
    let x = v as int;
    let u = x % 65536;
    assert(u % 256 + 256 * (u / 256) == u) by (nonlinear_arith)
        requires
            0 <= u < 65536,
    ;
    assert(x >= 0 ==> u == x);
    assert(x < 0 ==> u == x + 65536);
}

/// A file written from `samples` is a complete PCM WAV file: 44 bytes of
/// header then two bytes per sample; its size fields give the sample count
/// back, and each sample reads back from its two bytes unchanged.
pub proof fn lemma_pcm16_wav_reads_back(spec: WavSpec, samples: Seq<i16>)
    requires
        samples.len() <= MAX_WAV_SAMPLES,
    ensures
        pcm16_wav(spec, samples).len() == 44 + 2 * samples.len(),
        pcm16_wav(spec, samples).subrange(0, 4) == tag(0x52, 0x49, 0x46, 0x46),
        read_le32(pcm16_wav(spec, samples), 4) == 36 + 2 * samples.len(),
        pcm16_wav(spec, samples).subrange(36, 40) == tag(0x64, 0x61, 0x74, 0x61),
        header_sample_count(pcm16_wav(spec, samples)) == samples.len(),
        forall|i: int| 0 <= i < samples.len()
            ==> #[trigger] read_i16(pcm16_wav(spec, samples), 44 + 2 * i) == samples[i],
{
    let n = samples.len() as int;
    let b = pcm16_wav(spec, samples);
    let h = pcm16_header(spec, n);
    assert(h.len() == 44);
    assert(b.subrange(0, 4) =~= tag(0x52, 0x49, 0x46, 0x46));
    assert(b.subrange(36, 40) =~= tag(0x64, 0x61, 0x74, 0x61));
    lemma_le32_read_back(36 + 2 * n);
    lemma_le32_read_back(2 * n);
    assert(b[4] == le32(36 + 2 * n)[0] && b[5] == le32(36 + 2 * n)[1]
        && b[6] == le32(36 + 2 * n)[2] && b[7] == le32(36 + 2 * n)[3]);
    assert(b[40] == le32(2 * n)[0] && b[41] == le32(2 * n)[1]
        && b[42] == le32(2 * n)[2] && b[43] == le32(2 * n)[3]);
    assert forall|i: int| 0 <= i < samples.len()
        implies #[trigger] read_i16(b, 44 + 2 * i) == samples[i] by {
        assert(b[44 + 2 * i] == pcm16_data(samples)[2 * i]);
        assert(b[44 + 2 * i + 1] == pcm16_data(samples)[2 * i + 1]);
        assert((2 * i) / 2 == i && (2 * i) % 2 == 0);
        assert((2 * i + 1) / 2 == i && (2 * i + 1) % 2 == 1);
        lemma_sample_read_back(samples[i]);
    }
}

#[verifier::external_type_specification]
#[verifier::external_body]
#[verifier::reject_recursive_types(T)]
pub struct ExCursor<T>(Cursor<T>);

/// A hound `WavWriter` that writes 16-bit samples into an in-memory cursor,
/// described by `writer_samples`, `writer_spec` and `writer_target`.
#[verifier::external_body]
pub struct PcmWavWriter<'a> {
    inner: hound::WavWriter<&'a mut Cursor<Vec<u8>>>,
}

#[verifier::external_type_specification]
#[verifier::external_body]
pub struct ExHoundError(hound::Error);

/// The bytes held by an in-memory cursor.
pub uninterp spec fn cursor_bytes(c: Cursor<Vec<u8>>) -> Seq<u8>;

/// The position of an in-memory cursor.
pub uninterp spec fn cursor_position(c: Cursor<Vec<u8>>) -> int;

/// The samples a WAV writer has been given so far.
pub uninterp spec fn writer_samples(w: PcmWavWriter<'_>) -> Seq<i16>;

/// The spec a WAV writer was made with.
pub uninterp spec fn writer_spec(w: PcmWavWriter<'_>) -> WavSpec;

/// The cursor a WAV writer writes into, as it is once the writer is gone.
pub uninterp spec fn writer_target(w: PcmWavWriter<'_>) -> Cursor<Vec<u8>>;

/// `Cursor::new`: an in-memory cursor over `buf`, at position 0.
#[verifier::external_body]
fn cursor_over(buf: Vec<u8>) -> (c: Cursor<Vec<u8>>)
    ensures
        cursor_bytes(c) == buf@,
        cursor_position(c) == 0,
{
    Cursor::new(buf)
}

/// `Cursor::into_inner`: the bytes the cursor holds.
#[verifier::external_body]
fn cursor_into_inner(c: Cursor<Vec<u8>>) -> (buf: Vec<u8>)
    ensures
        buf@ == cursor_bytes(c),
{
    c.into_inner()
}

/// hound's `WavWriter::new` over an empty in-memory cursor. For a 16-bit
/// integer spec with one or two channels it writes the PCMWAVEFORMAT header
/// into the cursor and cannot fail: writes to a `Cursor<Vec<u8>>` always
/// succeed. The writer starts with no samples; what the cursor finally holds
/// is what the writer leaves in it.
#[verifier::external_body]
fn wav_writer_new<'a>(target: &'a mut Cursor<Vec<u8>>, spec: WavSpec) -> (r: Result<PcmWavWriter<'a>, hound::Error>)
    requires
        cursor_bytes(*old(target)).len() == 0,
        cursor_position(*old(target)) == 0,
        pcm16_writable(spec),
    ensures
        r is Ok,
        r is Ok ==> writer_samples(r->Ok_0) == Seq::<i16>::empty(),
        r is Ok ==> writer_spec(r->Ok_0) == spec,
        r is Ok ==> writer_target(r->Ok_0) == *final(target),
{
    let sample_format = match spec.sample_format {
        SampleFormat::Float => hound::SampleFormat::Float,
        SampleFormat::Int => hound::SampleFormat::Int,
    };
    let hound_spec = hound::WavSpec {
        channels: spec.channels,
        sample_rate: spec.sample_rate,
        bits_per_sample: spec.bits_per_sample,
        sample_format,
    };
    hound::WavWriter::new(target, hound_spec).map(|inner| PcmWavWriter { inner })
}

/// hound's `WavWriter::write_sample` for a 16-bit sample under a 16-bit
/// spec: appends the sample's two little-endian bytes; writing into a
/// `Cursor<Vec<u8>>` cannot fail.
#[verifier::external_body]
fn wav_writer_write_sample(w: &mut PcmWavWriter<'_>, sample: i16) -> (r: Result<(), hound::Error>)
    requires
        pcm16_writable(writer_spec(*old(w))),
        writer_samples(*old(w)).len() < MAX_WAV_SAMPLES,
    ensures
        r is Ok,
        writer_samples(*final(w)) == writer_samples(*old(w)).push(sample),
        writer_spec(*final(w)) == writer_spec(*old(w)),
        writer_target(*final(w)) == writer_target(*old(w)),
{
    w.inner.write_sample(sample)
}

/// hound's `WavWriter::finalize`: patches the RIFF and data chunk sizes into
/// the header. With a whole number of frames it cannot fail, and the cursor
/// then holds the complete WAV file of the written samples.
#[verifier::external_body]
fn wav_writer_finalize(w: PcmWavWriter<'_>) -> (r: Result<(), hound::Error>)
    requires
        pcm16_writable(writer_spec(w)),
        writer_samples(w).len() <= MAX_WAV_SAMPLES,
        (writer_samples(w).len() as int) % (writer_spec(w).channels as int) == 0,
    ensures
        r is Ok,
        r is Ok ==> cursor_bytes(writer_target(w)) == pcm16_wav(writer_spec(w), writer_samples(w)),
{
    w.inner.finalize()
}

/// Why WAV data could not be produced or checked.
#[derive(Debug)]
pub enum WavError {
    /// More samples than the 32-bit size fields of a WAV header can describe.
    TooManySamples { samples: usize },
    /// The WAV encoder failed.
    Encoder(hound::Error),
    /// The bytes are not a WAV file hound can read as 16-bit samples.
    Decoder(hound::Error),
    /// A WAV file holds another number of samples than expected.
    SampleCountMismatch { expected: usize, actual: u32 },
}

/// Encodes 16-bit samples as a complete in-memory WAV file of the given
/// spec (RIFF header, then PCM data), with hound's `WavWriter`. Refused with
/// `TooManySamples` when the sizes would not fit the header.
pub fn encode_pcm16_with_spec(spec: WavSpec, samples: &[i16]) -> (r: Result<Vec<u8>, WavError>)
    requires
        pcm16_writable(spec),
        (samples@.len() as int) % (spec.channels as int) == 0,
    ensures
        match r {
            Ok(bytes) => samples@.len() <= MAX_WAV_SAMPLES && bytes@ == pcm16_wav(spec, samples@),
            Err(e) => samples@.len() > MAX_WAV_SAMPLES
                && e == (WavError::TooManySamples { samples: samples@.len() as usize }),
        },
{
    let n = samples.len();
    if n > MAX_WAV_SAMPLES {
        return Err(WavError::TooManySamples { samples: n });
    }
    let mut cursor = cursor_over(Vec::new());
    {
        let mut writer = match wav_writer_new(&mut cursor, spec) {
            Ok(w) => w,
            Err(e) => {
                return Err(WavError::Encoder(e));
            },
        };
        let mut i: usize = 0;
        while i < n
            invariant
                n == samples@.len(),
                n <= MAX_WAV_SAMPLES,
                i <= n,
                writer_samples(writer) == samples@.take(i as int),
                writer_spec(writer) == spec,
                pcm16_writable(spec),
                writer_target(writer) == after_borrow(cursor),
            decreases n - i,
        {
            match wav_writer_write_sample(&mut writer, samples[i]) {
                Ok(()) => {},
                Err(e) => {
                    return Err(WavError::Encoder(e));
                },
            }
            assert(samples@.take(i + 1) =~= samples@.take(i as int).push(samples@[i as int]));
            i = i + 1;
        }
        assert(samples@.take(n as int) =~= samples@);
        match wav_writer_finalize(writer) {
            Ok(()) => {},
            Err(e) => {
                return Err(WavError::Encoder(e));
            },
        }
    }
    Ok(cursor_into_inner(cursor))
}

/// Encodes 16-bit samples as an in-memory mono/16 kHz/16-bit WAV file, the
/// format written to disk and uploaded for cloud transcription.
pub fn encode_pcm16_wav(samples: &[i16]) -> (r: Result<Vec<u8>, WavError>)
    ensures
        match r {
            Ok(bytes) => samples@.len() <= MAX_WAV_SAMPLES
                && bytes@ == pcm16_wav(standard_wav_spec(), samples@),
            Err(e) => samples@.len() > MAX_WAV_SAMPLES
                && e == (WavError::TooManySamples { samples: samples@.len() as usize }),
        },
{
    encode_pcm16_with_spec(standard_wav_spec(), samples)
}

/// Checks that a WAV file holds the expected number of samples.
pub fn check_sample_count(expected: usize, actual: u32) -> (r: Result<(), WavError>)
    ensures
        match r {
            Ok(()) => actual == expected,
            Err(e) => actual != expected
                && e == (WavError::SampleCountMismatch { expected, actual }),
        },
{
    if actual as usize != expected {
        return Err(WavError::SampleCountMismatch { expected, actual });
    }
    Ok(())
}

/// Samples that the encoder takes under `spec`: a writable 16-bit spec, a
/// count that fits the header, and a whole number of frames.
pub open spec fn encodable(spec: WavSpec, samples: Seq<i16>) -> bool {
    &&& pcm16_writable(spec)
    &&& samples.len() <= MAX_WAV_SAMPLES
    &&& (samples.len() as int) % (spec.channels as int) == 0
}

/// The number of samples hound's `WavReader` finds declared in the header
/// of `bytes` (`WavReader::len`), or `None` when it cannot read the header.
pub uninterp spec fn wav_sample_len(bytes: Seq<u8>) -> Option<u32>;

/// All samples hound's `WavReader` decodes from `bytes` as `i16`, or `None`
/// when the header or any sample cannot be read.
pub uninterp spec fn wav_samples(bytes: Seq<u8>) -> Option<Seq<i16>>;

/// A hound `WavReader` over an in-memory byte slice, described by
/// `reader_source`.
#[verifier::external_body]
pub struct PcmWavReader<'a> {
    inner: hound::WavReader<Cursor<&'a [u8]>>,
}

/// The bytes a WAV reader reads.
pub uninterp spec fn reader_source(r: PcmWavReader<'_>) -> Seq<u8>;

/// hound's `WavReader::new` over a cursor on `bytes`: reads the RIFF/WAVE
/// header up to the data chunk. It succeeds exactly when the header can be
/// read, and on a file the encoder above wrote (PCMWAVEFORMAT, 16 bits,
/// whole frames) it succeeds.
#[verifier::external_body]
fn wav_reader_open<'a>(bytes: &'a [u8]) -> (r: Result<PcmWavReader<'a>, hound::Error>)
    ensures
        r is Ok <==> wav_sample_len(bytes@) is Some,
        r is Err ==> wav_samples(bytes@) is None,
        r is Ok ==> reader_source(r->Ok_0) == bytes@,
        forall|spec: WavSpec, s: Seq<i16>|
            #![trigger pcm16_wav(spec, s)]
            encodable(spec, s) && bytes@ == pcm16_wav(spec, s) ==> r is Ok,
{
    hound::WavReader::new(Cursor::new(bytes)).map(|inner| PcmWavReader { inner })
}

/// hound's `WavReader::len`: the number of samples the header declares (the
/// data chunk length over the bytes per sample); for a file the encoder
/// wrote, the number of samples written.
#[verifier::external_body]
fn wav_reader_len(r: &PcmWavReader<'_>) -> (n: u32)
    ensures
        wav_sample_len(reader_source(*r)) == Some(n),
        forall|spec: WavSpec, s: Seq<i16>|
            #![trigger pcm16_wav(spec, s)]
            encodable(spec, s) && reader_source(*r) == pcm16_wav(spec, s) ==> n == s.len(),
{
    r.inner.len()
}

/// hound's `WavReader::into_samples::<i16>`, collected: every declared
/// sample decoded as `i16`, or the first error. For a file the encoder
/// wrote, the samples written.
#[verifier::external_body]
fn wav_reader_samples(r: PcmWavReader<'_>) -> (res: Result<Vec<i16>, hound::Error>)
    ensures
        res is Ok <==> wav_samples(reader_source(r)) is Some,
        res is Ok ==> wav_samples(reader_source(r)) == Some(res->Ok_0@),
        res is Ok ==> wav_sample_len(reader_source(r)) == Some(res->Ok_0@.len() as u32),
        forall|spec: WavSpec, s: Seq<i16>|
            #![trigger pcm16_wav(spec, s)]
            encodable(spec, s) && reader_source(r) == pcm16_wav(spec, s)
                ==> res is Ok && res->Ok_0@ == s,
{
    r.inner.into_samples::<i16>().collect()
}

/// Checks that WAV bytes declare the expected number of samples: refused
/// with the decoder's error when hound cannot read the header, else with
/// `SampleCountMismatch` (both counts) when the counts differ. A file the
/// encoder wrote from `s` passes exactly for `s.len()`.
pub fn verify_wav_bytes(bytes: &[u8], expected: usize) -> (r: Result<(), WavError>)
    ensures
        match wav_sample_len(bytes@) {
            None => r matches Err(WavError::Decoder(_)),
            Some(actual) => match r {
                Ok(()) => actual == expected,
                Err(e) => actual != expected
                    && e == (WavError::SampleCountMismatch { expected, actual }),
            },
        },
        forall|spec: WavSpec, s: Seq<i16>|
            #![trigger pcm16_wav(spec, s)]
            encodable(spec, s) && bytes@ == pcm16_wav(spec, s)
                ==> (r is Ok <==> expected == s.len()),
{
    let reader = match wav_reader_open(bytes) {
        Ok(reader) => reader,
        Err(e) => {
            return Err(WavError::Decoder(e));
        },
    };
    let actual = wav_reader_len(&reader);
    check_sample_count(expected, actual)
}

/// Decodes the 16-bit samples of WAV bytes: refused with the decoder's error
/// exactly when hound cannot read them all. A file the encoder wrote from
/// `s` decodes to `s`.
pub fn decode_pcm16(bytes: &[u8]) -> (r: Result<Vec<i16>, WavError>)
    ensures
        match r {
            Ok(s) => wav_samples(bytes@) == Some(s@),
            Err(e) => wav_samples(bytes@) is None && e is Decoder,
        },
        forall|spec: WavSpec, s: Seq<i16>|
            #![trigger pcm16_wav(spec, s)]
            encodable(spec, s) && bytes@ == pcm16_wav(spec, s)
                ==> (r matches Ok(v) && v@ == s),
{
    let reader = match wav_reader_open(bytes) {
        Ok(reader) => reader,
        Err(e) => {
            return Err(WavError::Decoder(e));
        },
    };
    match wav_reader_samples(reader) {
        Ok(samples) => Ok(samples),
        Err(e) => Err(WavError::Decoder(e)),
    }
}

/// hound's description of its error (`Display`).
#[verifier::external_body]
fn hound_error_text(e: &hound::Error) -> String {
    e.to_string()
}

/// The message that describes a WAV error whose text is the library's own
/// (not one of hound's).
pub open spec fn wav_message(e: WavError) -> Seq<char> {
    match e {
        WavError::TooManySamples { samples } =>
            decimal(samples as nat) + " samples do not fit the size fields of a WAV file"@,
        WavError::SampleCountMismatch { expected, actual } =>
            "WAV sample count mismatch: expected "@ + decimal(expected as nat) + ", got "@ + decimal(actual as nat),
        _ => Seq::empty(),
    }
}

impl WavError {
    /// The message that describes this error; for an encoder or decoder
    /// error it is hound's own description.
    pub fn message(&self) -> (r: String)
        ensures
            !(self is Encoder || self is Decoder) ==> r@ == wav_message(*self),
    {
        match self {
            WavError::TooManySamples { samples } => {
                let mut r = decimal_text(*samples as u64);
                r.append(" samples do not fit the size fields of a WAV file");
                r
            },
            WavError::Encoder(e) => hound_error_text(e),
            WavError::Decoder(e) => hound_error_text(e),
            WavError::SampleCountMismatch { expected, actual } => {
                let mut r = String::from_str("WAV sample count mismatch: expected ");
                let e = decimal_text(*expected as u64);
                r.append(e.as_str());
                r.append(", got ");
                let a = decimal_text(*actual as u64);
                r.append(a.as_str());
                r
            },
        }
    }
}

} // verus!
