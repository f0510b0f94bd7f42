//! The WAV container that a recording is sent in: 16-bit signed PCM, mono or
//! stereo, at the device's own sample rate.

use vstd::prelude::*;

verus! {

#[verifier::external_type_specification]
#[verifier::external_body]
pub struct ExHoundError(hound::Error);

/// The little-endian bytes of `v`, for `0 <= v < 2^16`.
pub open spec fn le16(v: int) -> Seq<u8> {
    seq![(v % 256) as u8, ((v / 256) % 256) as u8]
}

/// The little-endian bytes of `v`, for `0 <= v < 2^32`.
pub open spec fn le32(v: int) -> Seq<u8> {
    le16(v % 65536) + le16(v / 65536)
}

/// The two's-complement bit pattern of a sample, as an unsigned value.
pub open spec fn unsigned16(s: i16) -> int {
    if s < 0 {
        s + 65536
    } else {
        s as int
    }
}

/// The sample whose two's-complement bit pattern is `u`, for `0 <= u < 2^16`.
pub open spec fn signed16(u: int) -> i16 {
    if u >= 32768 {
        (u - 65536) as i16
    } else {
        u as i16
    }
}

pub open spec fn riff_tag() -> Seq<u8> {
    seq![0x52u8, 0x49u8, 0x46u8, 0x46u8]
}

pub open spec fn wave_tag() -> Seq<u8> {
    seq![0x57u8, 0x41u8, 0x56u8, 0x45u8]
}

pub open spec fn fmt_tag() -> Seq<u8> {
    seq![0x66u8, 0x6du8, 0x74u8, 0x20u8]
}

pub open spec fn data_tag() -> Seq<u8> {
    seq![0x64u8, 0x61u8, 0x74u8, 0x61u8]
}

/// Length of the header that precedes the sample data.
pub const HEADER_LEN: usize = 44;

/// The header of a 16-bit integer PCM file with `n` samples in all: the RIFF
/// chunk, a 16-byte `fmt ` chunk (format tag 1), and the head of the `data`
/// chunk.
pub open spec fn wav_header(channels: u16, sample_rate: u32, n: nat) -> Seq<u8> {
    riff_tag() + le32(36 + 2 * n as int) + wave_tag() + fmt_tag() + le32(16) + le16(1) + le16(
        channels as int,
    ) + le32(sample_rate as int) + le32(sample_rate * 2 * channels) + le16(2 * channels) + le16(
        16,
    ) + data_tag() + le32(2 * n as int)
}

/// The samples, two little-endian bytes each, in order.
pub open spec fn pcm16(samples: Seq<i16>) -> Seq<u8> {
    Seq::new(2 * samples.len(), |j: int| le16(unsigned16(samples[j / 2]))[j % 2])
}

/// The whole file for interleaved `samples`.
pub open spec fn wav_bytes(channels: u16, sample_rate: u32, samples: Seq<i16>) -> Seq<u8> {
    wav_header(channels, sample_rate, samples.len()) + pcm16(samples)
}

/// The inputs for which the header's fields fit their widths.
pub open spec fn encodable(channels: u16, sample_rate: u32, n: nat) -> bool {
    valid_format(channels, sample_rate) && n <= MAX_SAMPLES
}

/// Relies on hound's `WavWriter` (`new`, `write_sample`, `finalize`) over an
/// in-memory cursor: for 16-bit integer samples and at most two channels it
/// writes the 44-byte PCMWAVEFORMAT header and then each sample in
/// little-endian order; `finalize` fails when the samples do not fill whole
/// frames. Writes into a `Vec` do not fail.
#[verifier::external_body]
fn write_wav(samples: &Vec<i16>, sample_rate: u32, channels: u16) -> (r: Result<
    Vec<u8>,
    hound::Error,
>)
    requires
        encodable(channels, sample_rate, samples@.len()),
    ensures
        r.is_ok() <==> samples@.len() % (channels as nat) == 0,
        r matches Ok(b) ==> b@ == wav_bytes(channels, sample_rate, samples@),
{
    let spec = hound::WavSpec {
        channels,
        sample_rate,
        bits_per_sample: 16,
        sample_format: hound::SampleFormat::Int,
    };
    let mut cursor = std::io::Cursor::new(Vec::new());
    let mut writer = hound::WavWriter::new(&mut cursor, spec)?;
    for s in samples.iter() {
        writer.write_sample(*s)?;
    }
    writer.finalize()?;
    Ok(cursor.into_inner())
}

/// Why a recording could not be encoded.
#[derive(Debug, Clone, Copy, PartialEq, Eq, Structural)]
pub enum EncodeError {
    /// The sample count is not a multiple of the channel count.
    UnfinishedFrame,
    /// The data does not fit the 32-bit chunk sizes of the format.
    TooLong,
}

/// A channel count and sample rate that the header can describe.
pub open spec fn valid_format(channels: u16, sample_rate: u32) -> bool {
    &&& 1 <= channels <= 2
    &&& 0 < sample_rate
    &&& sample_rate * 2 * channels <= u32::MAX
}

/// Largest sample count whose file sizes fit in 32 bits.
pub const MAX_SAMPLES: usize = 0x7fff_ffed;

/// Serializes interleaved 16-bit samples into a WAV file. No samples give no
/// bytes at all (not a valid file): there is nothing to transcribe.
pub fn encode(samples: &Vec<i16>, sample_rate: u32, channels: u16) -> (r: Result<
    Vec<u8>,
    EncodeError,
>)
    requires
        valid_format(channels, sample_rate),
    ensures
        samples@.len() == 0 ==> (r matches Ok(b) && b@.len() == 0),
        samples@.len() > 0 ==> match r {
            Ok(b) => samples@.len() <= MAX_SAMPLES && samples@.len() % (channels as nat) == 0
                && b@ == wav_bytes(channels, sample_rate, samples@),
            Err(EncodeError::TooLong) => samples@.len() > MAX_SAMPLES,
            Err(EncodeError::UnfinishedFrame) => samples@.len() <= MAX_SAMPLES && samples@.len()
                % (channels as nat) != 0,
        },
{
    if samples.len() == 0 {
        return Ok(Vec::new());
    }
    if samples.len() > MAX_SAMPLES {
        return Err(EncodeError::TooLong);
    }
    match write_wav(samples, sample_rate, channels) {
        Ok(b) => Ok(b),
        Err(_) => Err(EncodeError::UnfinishedFrame),
    }
}

/// The value of two little-endian bytes.
pub open spec fn read16(s: Seq<u8>) -> int {
    s[0] as int + 256 * s[1] as int
}

/// The value of four little-endian bytes.
pub open spec fn read32(s: Seq<u8>) -> int {
    read16(s.subrange(0, 2)) + 65536 * read16(s.subrange(2, 4))
}

pub open spec fn field16(b: Seq<u8>, at: int) -> int {
    read16(b.subrange(at, at + 2))
}

pub open spec fn field32(b: Seq<u8>, at: int) -> int {
    read32(b.subrange(at, at + 4))
}

/// `b` is a complete 16-bit integer PCM file, mono or stereo, whose header
/// fields agree with each other and with its length.
pub open spec fn well_formed_wav(b: Seq<u8>) -> bool {
    &&& b.len() >= 44
    &&& b.subrange(0, 4) == riff_tag()
    &&& field32(b, 4) == b.len() - 8
    &&& b.subrange(8, 12) == wave_tag()
    &&& b.subrange(12, 16) == fmt_tag()
    &&& field32(b, 16) == 16
    &&& field16(b, 20) == 1
    &&& 1 <= field16(b, 22) <= 2
    &&& 0 < field32(b, 24)
    &&& field32(b, 28) == field32(b, 24) * 2 * field16(b, 22)
    &&& field16(b, 32) == 2 * field16(b, 22)
    &&& field16(b, 34) == 16
    &&& b.subrange(36, 40) == data_tag()
    &&& field32(b, 40) == b.len() - 44
    &&& (b.len() - 44) % 2 == 0
}

/// The samples that follow the header.
pub open spec fn wav_samples(b: Seq<u8>) -> Seq<i16> {
    Seq::new(((b.len() - 44) / 2) as nat, |i: int| signed16(field16(b, 44 + 2 * i)))
}

/// What a reader finds in `b`: channel count, sample rate and samples.
pub open spec fn parse_wav(b: Seq<u8>) -> Option<(u16, u32, Seq<i16>)> {
    if well_formed_wav(b) {
        Some((field16(b, 22) as u16, field32(b, 24) as u32, wav_samples(b)))
    } else {
        None
    }
}

proof fn lemma_le16(v: int)
    requires
        0 <= v < 65536,
    ensures
        le16(v).len() == 2,
        read16(le16(v)) == v,
{
    vstd::arithmetic::div_mod::lemma_fundamental_div_mod(v, 256);
}

proof fn lemma_le32(v: int)
    requires
        0 <= v < 0x1_0000_0000,
    ensures
        le32(v).len() == 4,
        read32(le32(v)) == v,
{
    vstd::arithmetic::div_mod::lemma_fundamental_div_mod(v, 65536);
    lemma_le16(v % 65536);
    lemma_le16(v / 65536);
    assert(le32(v).subrange(0, 2) =~= le16(v % 65536));
    assert(le32(v).subrange(2, 4) =~= le16(v / 65536));
}

/// Reading back the file that `wav_bytes` describes gives the channel count,
/// the sample rate and every sample that went in.
pub proof fn lemma_wav_round_trip(channels: u16, sample_rate: u32, samples: Seq<i16>)
    requires
        encodable(channels, sample_rate, samples.len()),
    ensures
        parse_wav(wav_bytes(channels, sample_rate, samples)) == Some(
            (channels, sample_rate, samples),
        ),
{
    let n = samples.len() as int;
    let b = wav_bytes(channels, sample_rate, samples);
    let rate = sample_rate as int;
    let ch = channels as int;
    assert(rate * 2 * ch <= u32::MAX);
    assert(b.len() == 44 + 2 * n);
    assert(b.subrange(0, 4) =~= riff_tag());
    assert(b.subrange(4, 8) =~= le32(36 + 2 * n));
    assert(b.subrange(8, 12) =~= wave_tag());
    assert(b.subrange(12, 16) =~= fmt_tag());
    assert(b.subrange(16, 20) =~= le32(16));
    assert(b.subrange(20, 22) =~= le16(1));
    assert(b.subrange(22, 24) =~= le16(ch));
    assert(b.subrange(24, 28) =~= le32(rate));
    assert(b.subrange(28, 32) =~= le32(rate * 2 * ch));
    assert(b.subrange(32, 34) =~= le16(2 * ch));
    assert(b.subrange(34, 36) =~= le16(16));
    assert(b.subrange(36, 40) =~= data_tag());
    assert(b.subrange(40, 44) =~= le32(2 * n));
    lemma_le32(36 + 2 * n);
    lemma_le32(16);
    lemma_le16(1);
    lemma_le16(ch);
    lemma_le32(rate);
    lemma_le32(rate * 2 * ch);
    lemma_le16(2 * ch);
    lemma_le16(16);
    lemma_le32(2 * n);
    assert forall|i: int| 0 <= i < n implies signed16(field16(b, 44 + 2 * i)) == samples[i] by {
        let u = unsigned16(samples[i]);
        assert(b.subrange(44 + 2 * i, 44 + 2 * i + 2) =~= le16(u));
        lemma_le16(u);
    }
    assert(wav_samples(b) =~= samples);
}

/// A decoded file.
pub struct Clip {
    pub channels: u16,
    pub sample_rate: u32,
    pub samples: Vec<i16>,
}

fn get16(b: &Vec<u8>, at: usize) -> (r: u32)
    requires
        at + 2 <= b@.len(),
    ensures
        r == field16(b@, at as int),
        r < 65536,
{
    let _len = b.len();
    (b[at] as u32) + 256 * (b[at + 1] as u32)
}

fn get32(b: &Vec<u8>, at: usize) -> (r: u64)
    requires
        at + 4 <= b@.len(),
    ensures
        r == field32(b@, at as int),
        r < 0x1_0000_0000,
{
    let _len = b.len();
    let lo = get16(b, at) as u64;
    let hi = get16(b, at + 2) as u64;
    assert(b@.subrange(at as int, at + 4).subrange(0, 2) =~= b@.subrange(at as int, at + 2));
    assert(b@.subrange(at as int, at + 4).subrange(2, 4) =~= b@.subrange(at + 2, at + 4));
    lo + 65536 * hi
}

fn has_tag(b: &Vec<u8>, at: usize, tag: [u8; 4]) -> (r: bool)
    requires
        at + 4 <= b@.len(),
    ensures
        r == (b@.subrange(at as int, at + 4) == tag@),
{
    let _len = b.len();
    let r = b[at] == tag[0] && b[at + 1] == tag[1] && b[at + 2] == tag[2] && b[at + 3] == tag[3];
    if r {
        assert(b@.subrange(at as int, at + 4) =~= tag@);
    } else {
        assert(b@.subrange(at as int, at + 4) != tag@) by {
            if b@.subrange(at as int, at + 4) == tag@ {
                assert(b@.subrange(at as int, at + 4)[0] == tag@[0]);
                assert(b@.subrange(at as int, at + 4)[1] == tag@[1]);
                assert(b@.subrange(at as int, at + 4)[2] == tag@[2]);
                assert(b@.subrange(at as int, at + 4)[3] == tag@[3]);
            }
        }
    }
    r
}

/// Reads a WAV file of the kind that `encode` writes; `None` for anything
/// else.
pub fn decode(bytes: &Vec<u8>) -> (r: Option<Clip>)
    ensures
        match r {
            Some(c) => parse_wav(bytes@) == Some((c.channels, c.sample_rate, c.samples@)),
            None => parse_wav(bytes@) is None,
        },
{
    let len = bytes.len();
    if len < HEADER_LEN {
        return None;
    }
    let riff = [0x52u8, 0x49u8, 0x46u8, 0x46u8];
    let wave = [0x57u8, 0x41u8, 0x56u8, 0x45u8];
    let fmt = [0x66u8, 0x6du8, 0x74u8, 0x20u8];
    let data = [0x64u8, 0x61u8, 0x74u8, 0x61u8];
    assert(riff@ =~= riff_tag());
    assert(wave@ =~= wave_tag());
    assert(fmt@ =~= fmt_tag());
    assert(data@ =~= data_tag());
    let channels = get16(bytes, 22);
    let rate = get32(bytes, 24);
    if !(1 <= channels && channels <= 2 && 0 < rate) {
        return None;
    }
    let tags_ok = has_tag(bytes, 0, riff) && has_tag(bytes, 8, wave) && has_tag(bytes, 12, fmt)
        && has_tag(bytes, 36, data);
    let sizes_ok = get32(bytes, 4) == (len - 8) as u64 && get32(bytes, 16) == 16 && get32(
        bytes,
        40,
    ) == (len - HEADER_LEN) as u64 && (len - HEADER_LEN) % 2 == 0;
    let byte_rate: u64 = if channels == 1 {
        rate * 2
    } else {
        rate * 4
    };
    let format_ok = get16(bytes, 20) == 1 && get32(bytes, 28) == byte_rate
        && get16(bytes, 32) == 2 * channels && get16(bytes, 34) == 16;
    if !(tags_ok && sizes_ok && format_ok) {
        return None;
    }
    let n = (len - HEADER_LEN) / 2;
    let mut samples: Vec<i16> = Vec::new();
    let mut i: usize = 0;
    while i < n
        invariant
            n == (len - 44) / 2,
            len == bytes@.len(),
            len >= 44,
            (len - 44) % 2 == 0,
            i <= n,
            samples@ == Seq::new(i as nat, |k: int| signed16(field16(bytes@, 44 + 2 * k))),
        decreases n - i,
    {
        let u = get16(bytes, HEADER_LEN + 2 * i);
        let s: i16 = if u >= 32768 {
            (u as i32 - 65536) as i16
        } else {
            u as i16
        };
        samples.push(s);
        i = i + 1;
        assert(samples@ =~= Seq::new(i as nat, |k: int| signed16(field16(bytes@, 44 + 2 * k))));
    }
    assert(samples@ =~= wav_samples(bytes@));
    Some(Clip { channels: channels as u16, sample_rate: rate as u32, samples })
}

} // verus!
