use vstd::prelude::*;

use crate::error::AppError;
use crate::text::{decimal, decimal_string};
use crate::types::{AudioConfig, SampleFormat};

verus! {

/// The largest upload that the Groq API accepts: 25 MiB.
pub const MAX_AUDIO_SIZE_BYTES: usize = 26214400;

/// Length of the RIFF/WAVE header that precedes the samples.
pub const WAV_HEADER_LEN: usize = 44;

/// Samples ready to be written, one code per sample in the stream's format.
///
/// `F32` holds the IEEE-754 bit pattern of each sample, already clamped to
/// `[-1.0, 1.0]`; `I16` holds each sample already scaled to the 16-bit range.
pub enum PcmSamples {
    F32(Vec<u32>),
    I16(Vec<i16>),
}

impl PcmSamples {
    /// The format whose codes these samples are.
    pub open spec fn format(&self) -> SampleFormat {
        match self {
            PcmSamples::F32(_) => SampleFormat::F32,
            PcmSamples::I16(_) => SampleFormat::I16,
        }
    }

    /// The number of samples.
    pub open spec fn count(&self) -> nat {
        match self {
            PcmSamples::F32(v) => v@.len(),
            PcmSamples::I16(v) => v@.len(),
        }
    }

    /// The number of samples.
    pub fn len(&self) -> (n: usize)
        ensures
            n == self.count(),
    {
        match self {
            PcmSamples::F32(v) => v.len(),
            PcmSamples::I16(v) => v.len(),
        }
    }
}

/// Bytes that one sample takes in the data chunk.
pub open spec fn bytes_per_sample(f: SampleFormat) -> nat {
    match f {
        SampleFormat::F32 => 4,
        SampleFormat::I16 => 2,
    }
}

/// The `wFormatTag` of the format chunk: 3 is IEEE float, 1 is PCM.
pub open spec fn format_code(f: SampleFormat) -> nat {
    match f {
        SampleFormat::F32 => 3,
        SampleFormat::I16 => 1,
    }
}

/// Bytes per second of audio.
pub open spec fn byte_rate(c: AudioConfig) -> nat {
    (c.sample_rate * c.channels * bytes_per_sample(c.sample_format)) as nat
}

/// Bytes per frame (one sample of every channel).
pub open spec fn block_align(c: AudioConfig) -> nat {
    (c.channels * bytes_per_sample(c.sample_format)) as nat
}

/// Whether the header's rate fields fit their widths.
pub open spec fn header_fits(c: AudioConfig) -> bool {
    &&& byte_rate(c) <= u32::MAX
    &&& block_align(c) <= u16::MAX
}

/// Little-endian encoding of a 16-bit field.
pub open spec fn le16(x: nat) -> Seq<u8> {
    seq![(x % 256) as u8, ((x / 256) % 256) as u8]
}

/// Little-endian encoding of a 32-bit field.
pub open spec fn le32(x: nat) -> Seq<u8> {
    seq![
        (x % 256) as u8,
        ((x / 256) % 256) as u8,
        ((x / 65536) % 256) as u8,
        ((x / 16777216) % 256) as u8,
    ]
}

/// The two's-complement code of a 16-bit sample.
pub open spec fn i16_code(x: i16) -> nat {
    if x < 0 {
        (x + 65536) as nat
    } else {
        x as nat
    }
}

/// The data chunk of float samples: each bit pattern, little-endian.
pub open spec fn f32_data(s: Seq<u32>) -> Seq<u8>
    decreases s.len(),
{
    if s.len() == 0 {
        seq![]
    } else {
        f32_data(s.drop_last()) + le32(s.last() as nat)
    }
}

/// The data chunk of 16-bit samples: each code, little-endian.
pub open spec fn i16_data(s: Seq<i16>) -> Seq<u8>
    decreases s.len(),
{
    if s.len() == 0 {
        seq![]
    } else {
        i16_data(s.drop_last()) + le16(i16_code(s.last()))
    }
}

/// The bytes of the data chunk.
pub open spec fn sample_data(samples: PcmSamples) -> Seq<u8> {
    match samples {
        PcmSamples::F32(v) => f32_data(v@),
        PcmSamples::I16(v) => i16_data(v@),
    }
}

/// The ASCII tags of the header.
pub open spec fn tag_riff() -> Seq<u8> {
    seq![0x52u8, 0x49u8, 0x46u8, 0x46u8]
}

pub open spec fn tag_wave() -> Seq<u8> {
    seq![0x57u8, 0x41u8, 0x56u8, 0x45u8]
}

pub open spec fn tag_fmt() -> Seq<u8> {
    seq![0x66u8, 0x6du8, 0x74u8, 0x20u8]
}

pub open spec fn tag_data() -> Seq<u8> {
    seq![0x64u8, 0x61u8, 0x74u8, 0x61u8]
}

/// The 44-byte RIFF/WAVE header for `data_size` bytes of samples.
#[verifier::opaque]
pub open spec fn wav_header(c: AudioConfig, data_size: nat) -> Seq<u8> {
    tag_riff() + le32(36 + data_size) + tag_wave() + tag_fmt() + le32(16) + le16(
        format_code(c.sample_format),
    ) + le16(c.channels as nat) + le32(c.sample_rate as nat) + le32(byte_rate(c)) + le16(
        block_align(c),
    ) + le16(8 * bytes_per_sample(c.sample_format)) + tag_data() + le32(data_size)
}

/// The length of the encoded file.
pub open spec fn wav_len(samples: PcmSamples) -> nat {
    44 + samples.count() * bytes_per_sample(samples.format())
}

/// The encoded file: header, then samples.
pub open spec fn wav_bytes(samples: PcmSamples, c: AudioConfig) -> Seq<u8> {
    wav_header(c, samples.count() * bytes_per_sample(samples.format())) + sample_data(samples)
}

/// The message of the error for a file that is too large.
pub open spec fn too_large_message(len: nat) -> Seq<char> {
    "Encoded audio size "@ + decimal(len) + " bytes exceeds Groq API limit of "@ + decimal(
        MAX_AUDIO_SIZE_BYTES as nat,
    ) + " bytes"@
}

fn push_le16(out: &mut Vec<u8>, x: u16)
    ensures
        final(out)@ == old(out)@ + le16(x as nat),
{
    out.push((x % 256) as u8);
    out.push(((x / 256) % 256) as u8);
    assert(final(out)@ =~= old(out)@ + le16(x as nat));
}

fn push_le32(out: &mut Vec<u8>, x: u32)
    ensures
        final(out)@ == old(out)@ + le32(x as nat),
{
    out.push((x % 256) as u8);
    out.push(((x / 256) % 256) as u8);
    out.push(((x / 65536) % 256) as u8);
    out.push(((x / 16777216) % 256) as u8);
    assert(final(out)@ =~= old(out)@ + le32(x as nat));
}

fn push_tag(out: &mut Vec<u8>, a: u8, b: u8, c: u8, d: u8)
    ensures
        final(out)@ == old(out)@ + seq![a, b, c, d],
{
    out.push(a);
    out.push(b);
    out.push(c);
    out.push(d);
    assert(final(out)@ =~= old(out)@ + seq![a, b, c, d]);
}

fn i16_to_code(x: i16) -> (r: u16)
    ensures
        r as nat == i16_code(x),
{
    if x < 0 {
        (x as i32 + 65536) as u16
    } else {
        x as u16
    }
}

fn write_header(out: &mut Vec<u8>, config: &AudioConfig, data_size: u32)
    requires
        header_fits(*config),
        36 + data_size <= u32::MAX,
    ensures
        final(out)@ == old(out)@ + wav_header(*config, data_size as nat),
{
    let (bps, code): (u32, u16) = match config.sample_format {
        SampleFormat::F32 => (4, 3),
        SampleFormat::I16 => (2, 1),
    };
    let channels = config.channels;
    assert(config.sample_rate * channels * bps <= u32::MAX);
    assert(channels * bps <= u16::MAX);
    assert(config.sample_rate * channels <= u32::MAX) by (nonlinear_arith)
        requires
            config.sample_rate * channels * bps <= u32::MAX,
            bps >= 1,
    ;
    let byte_rate_value: u32 = config.sample_rate * channels as u32 * bps;
    let block_align_value: u16 = channels * bps as u16;
    push_tag(out, 0x52, 0x49, 0x46, 0x46);
    push_le32(out, 36 + data_size);
    push_tag(out, 0x57, 0x41, 0x56, 0x45);
    push_tag(out, 0x66, 0x6d, 0x74, 0x20);
    push_le32(out, 16);
    push_le16(out, code);
    push_le16(out, channels);
    push_le32(out, config.sample_rate);
    push_le32(out, byte_rate_value);
    push_le16(out, block_align_value);
    push_le16(out, (8 * bps) as u16);
    push_tag(out, 0x64, 0x61, 0x74, 0x61);
    push_le32(out, data_size);
    reveal(wav_header);
    assert(final(out)@ =~= old(out)@ + wav_header(*config, data_size as nat));
}

fn write_f32_data(out: &mut Vec<u8>, samples: &Vec<u32>)
    ensures
        final(out)@ == old(out)@ + f32_data(samples@),
{
    let n = samples.len();
    let ghost start = old(out)@;
    assert(samples@.take(0) =~= Seq::<u32>::empty());
    for i in 0..n
        invariant
            n == samples@.len(),
            out@ == start + f32_data(samples@.take(i as int)),
    {
        push_le32(out, samples[i]);
        proof {
            let t = samples@.take(i + 1);
            assert(t.drop_last() =~= samples@.take(i as int));
            assert(t.last() == samples@[i as int]);
            assert(out@ =~= start + f32_data(t));
        }
    }
    assert(samples@.take(n as int) =~= samples@);
}

fn write_i16_data(out: &mut Vec<u8>, samples: &Vec<i16>)
    ensures
        final(out)@ == old(out)@ + i16_data(samples@),
{
    let n = samples.len();
    let ghost start = old(out)@;
    assert(samples@.take(0) =~= Seq::<i16>::empty());
    for i in 0..n
        invariant
            n == samples@.len(),
            out@ == start + i16_data(samples@.take(i as int)),
    {
        push_le16(out, i16_to_code(samples[i]));
        proof {
            let t = samples@.take(i + 1);
            assert(t.drop_last() =~= samples@.take(i as int));
            assert(t.last() == samples@[i as int]);
            assert(out@ =~= start + i16_data(t));
        }
    }
    assert(samples@.take(n as int) =~= samples@);
}

/// Encodes samples as a WAV file for upload.
///
/// The file is the 44-byte header followed by the samples, little-endian.
/// A file larger than [`MAX_AUDIO_SIZE_BYTES`] is refused with an
/// `AudioError` that gives its size.
pub fn encode_to_wav(samples: &PcmSamples, config: &AudioConfig) -> (r: Result<Vec<u8>, AppError>)
    requires
        samples.format() == config.sample_format,
        header_fits(*config),
    ensures
        match r {
            Ok(bytes) => {
                &&& wav_len(*samples) <= MAX_AUDIO_SIZE_BYTES
                &&& bytes@ == wav_bytes(*samples, *config)
            },
            Err(e) => {
                &&& wav_len(*samples) > MAX_AUDIO_SIZE_BYTES
                &&& e matches AppError::AudioError(m) && m@ == too_large_message(wav_len(*samples))
            },
        },
{
    let n = samples.len();
    let bps: usize = match config.sample_format {
        SampleFormat::F32 => 4,
        SampleFormat::I16 => 2,
    };
    if n > (MAX_AUDIO_SIZE_BYTES - WAV_HEADER_LEN) / bps {
        let total: u128 = 44 + n as u128 * bps as u128;
        assert(n * bps > 26214356) by (nonlinear_arith)
            requires
                n > 26214356int / (bps as int),
                bps == 2 || bps == 4,
        ;
        let msg = String::from_str("Encoded audio size ").concat(decimal_string(total).as_str())
            .concat(" bytes exceeds Groq API limit of ").concat(
            decimal_string(MAX_AUDIO_SIZE_BYTES as u128).as_str(),
        ).concat(" bytes");
        return Err(AppError::AudioError(msg));
    }
    assert(n * bps <= 26214356) by (nonlinear_arith)
        requires
            n <= 26214356int / (bps as int),
            bps == 2 || bps == 4,
    ;
    let data_size = (n * bps) as u32;
    let mut out: Vec<u8> = Vec::with_capacity(44 + n * bps);
    write_header(&mut out, config, data_size);
    match samples {
        PcmSamples::F32(v) => write_f32_data(&mut out, v),
        PcmSamples::I16(v) => write_i16_data(&mut out, v),
    }
    Ok(out)
}

} // verus!

verus! {

/// The number that little-endian bytes spell.
pub open spec fn le_value(b: Seq<u8>) -> nat
    decreases b.len(),
{
    if b.len() == 0 {
        0
    } else {
        b[0] as nat + 256 * le_value(b.drop_first())
    }
}

proof fn lemma_le32_value(x: nat)
    requires
        x <= u32::MAX,
    ensures
        le_value(le32(x)) == x,
        le32(x).len() == 4,
{
    let y = x as u32;
    assert((y % 256) + 256 * ((y / 256) % 256) + 65536 * ((y / 65536) % 256) + 16777216 * ((y
        / 16777216) % 256) == y) by (bit_vector);
    reveal_with_fuel(le_value, 5);
    let b = le32(x);
    assert(b.drop_first().drop_first().drop_first().drop_first() =~= Seq::<u8>::empty());
    assert(b.drop_first().drop_first().drop_first() =~= seq![b[3]]);
    assert(b.drop_first().drop_first() =~= seq![b[2], b[3]]);
    assert(b.drop_first() =~= seq![b[1], b[2], b[3]]);
}

proof fn lemma_le16_value(x: nat)
    requires
        x <= u16::MAX,
    ensures
        le_value(le16(x)) == x,
        le16(x).len() == 2,
{
    let y = x as u16;
    assert((y % 256) + 256 * ((y / 256) % 256) == y) by (bit_vector);
    reveal_with_fuel(le_value, 3);
    let b = le16(x);
    assert(b.drop_first().drop_first() =~= Seq::<u8>::empty());
    assert(b.drop_first() =~= seq![b[1]]);
}

proof fn lemma_f32_data_len(s: Seq<u32>)
    ensures
        f32_data(s).len() == 4 * s.len(),
    decreases s.len(),
{
    if s.len() > 0 {
        lemma_f32_data_len(s.drop_last());
    }
}

proof fn lemma_i16_data_len(s: Seq<i16>)
    ensures
        i16_data(s).len() == 2 * s.len(),
    decreases s.len(),
{
    if s.len() > 0 {
        lemma_i16_data_len(s.drop_last());
    }
}

/// The fields of the header, each at its offset.
#[verifier::rlimit(40)]
proof fn lemma_header_fields(c: AudioConfig, d: nat)
    requires
        header_fits(c),
        d + 36 <= u32::MAX,
    ensures
        ({
            let h = wav_header(c, d);
            &&& h.len() == 44
            &&& h.subrange(0, 4) == tag_riff()
            &&& h.subrange(4, 8) == le32(36 + d)
            &&& h.subrange(8, 12) == tag_wave()
            &&& h.subrange(12, 16) == tag_fmt()
            &&& h.subrange(16, 20) == le32(16)
            &&& h.subrange(20, 22) == le16(format_code(c.sample_format))
            &&& h.subrange(22, 24) == le16(c.channels as nat)
            &&& h.subrange(24, 28) == le32(c.sample_rate as nat)
            &&& h.subrange(28, 32) == le32(byte_rate(c))
            &&& h.subrange(32, 34) == le16(block_align(c))
            &&& h.subrange(34, 36) == le16(8 * bytes_per_sample(c.sample_format))
            &&& h.subrange(36, 40) == tag_data()
            &&& h.subrange(40, 44) == le32(d)
        }),
{
    let h = wav_header(c, d);
    reveal(wav_header);
    assert(h.subrange(0, 4) =~= tag_riff());
    assert(h.subrange(4, 8) =~= le32(36 + d));
    assert(h.subrange(8, 12) =~= tag_wave());
    assert(h.subrange(12, 16) =~= tag_fmt());
    assert(h.subrange(16, 20) =~= le32(16));
    assert(h.subrange(20, 22) =~= le16(format_code(c.sample_format)));
    assert(h.subrange(22, 24) =~= le16(c.channels as nat));
    assert(h.subrange(24, 28) =~= le32(c.sample_rate as nat));
    assert(h.subrange(28, 32) =~= le32(byte_rate(c)));
    assert(h.subrange(32, 34) =~= le16(block_align(c)));
    assert(h.subrange(34, 36) =~= le16(8 * bytes_per_sample(c.sample_format)));
    assert(h.subrange(36, 40) =~= tag_data());
    assert(h.subrange(40, 44) =~= le32(d));
}

/// The values that the header's fields spell.
#[verifier::rlimit(40)]
proof fn lemma_header_values(c: AudioConfig, d: nat)
    requires
        header_fits(c),
        d + 36 <= u32::MAX,
    ensures
        ({
            let h = wav_header(c, d);
            &&& h.len() == 44
            &&& h.subrange(0, 4) == tag_riff()
            &&& le_value(h.subrange(4, 8)) == 36 + d
            &&& h.subrange(8, 12) == tag_wave()
            &&& h.subrange(12, 16) == tag_fmt()
            &&& le_value(h.subrange(16, 20)) == 16
            &&& le_value(h.subrange(20, 22)) == format_code(c.sample_format)
            &&& le_value(h.subrange(22, 24)) == c.channels
            &&& le_value(h.subrange(24, 28)) == c.sample_rate
            &&& le_value(h.subrange(28, 32)) == byte_rate(c)
            &&& le_value(h.subrange(32, 34)) == block_align(c)
            &&& le_value(h.subrange(34, 36)) == 8 * bytes_per_sample(c.sample_format)
            &&& h.subrange(36, 40) == tag_data()
            &&& le_value(h.subrange(40, 44)) == d
        }),
{
    lemma_header_fields(c, d);
    lemma_le32_value(36 + d);
    lemma_le32_value(16);
    lemma_le16_value(format_code(c.sample_format));
    lemma_le16_value(c.channels as nat);
    lemma_le32_value(c.sample_rate as nat);
    lemma_le32_value(byte_rate(c));
    lemma_le16_value(block_align(c));
    lemma_le16_value(8 * bytes_per_sample(c.sample_format));
    lemma_le32_value(d);
}

/// The encoded file is exactly `44 + samples * bytes_per_sample` long, and
/// its header describes it: the `RIFF` tag, the RIFF size (the file length
/// less 8), the `WAVE` and `fmt ` tags, the format code, the channel count,
/// the sample rate, the byte rate, the block alignment, the bits per sample,
/// the `data` tag and the data size (the file length less 44), each at its
/// offset; the samples follow the header.
#[verifier::rlimit(40)]
pub proof fn lemma_wav_layout(samples: PcmSamples, c: AudioConfig)
    requires
        samples.format() == c.sample_format,
        header_fits(c),
        wav_len(samples) <= MAX_AUDIO_SIZE_BYTES,
    ensures
        ({
            let w = wav_bytes(samples, c);
            let len = wav_len(samples);
            &&& w.len() == len
            &&& w.subrange(0, 4) == tag_riff()
            &&& le_value(w.subrange(4, 8)) == len - 8
            &&& w.subrange(8, 12) == tag_wave()
            &&& w.subrange(12, 16) == tag_fmt()
            &&& le_value(w.subrange(16, 20)) == 16
            &&& le_value(w.subrange(20, 22)) == format_code(c.sample_format)
            &&& le_value(w.subrange(22, 24)) == c.channels
            &&& le_value(w.subrange(24, 28)) == c.sample_rate
            &&& le_value(w.subrange(28, 32)) == byte_rate(c)
            &&& le_value(w.subrange(32, 34)) == block_align(c)
            &&& le_value(w.subrange(34, 36)) == 8 * bytes_per_sample(c.sample_format)
            &&& w.subrange(36, 40) == tag_data()
            &&& le_value(w.subrange(40, 44)) == len - 44
            &&& w.subrange(44, len as int) == sample_data(samples)
        }),
{
    let d = samples.count() * bytes_per_sample(samples.format());
    let h = wav_header(c, d);
    let t = sample_data(samples);
    match samples {
        PcmSamples::F32(v) => {
            lemma_f32_data_len(v@);
            let n = samples.count();
            let k = bytes_per_sample(samples.format());
            assert(k == 4 && n == v@.len());
            assert(d == 4 * v@.len()) by (nonlinear_arith)
                requires
                    d == n * k,
                    k == 4,
                    n == v@.len(),
            ;
        },
        PcmSamples::I16(v) => {
            lemma_i16_data_len(v@);
            let n = samples.count();
            let k = bytes_per_sample(samples.format());
            assert(k == 2 && n == v@.len());
            assert(d == 2 * v@.len()) by (nonlinear_arith)
                requires
                    d == n * k,
                    k == 2,
                    n == v@.len(),
            ;
        },
    }
    lemma_header_values(c, d);
    lemma_prefix_subrange(h, t, 0, 4);
    lemma_prefix_subrange(h, t, 4, 8);
    lemma_prefix_subrange(h, t, 8, 12);
    lemma_prefix_subrange(h, t, 12, 16);
    lemma_prefix_subrange(h, t, 16, 20);
    lemma_prefix_subrange(h, t, 20, 22);
    lemma_prefix_subrange(h, t, 22, 24);
    lemma_prefix_subrange(h, t, 24, 28);
    lemma_prefix_subrange(h, t, 28, 32);
    lemma_prefix_subrange(h, t, 32, 34);
    lemma_prefix_subrange(h, t, 34, 36);
    lemma_prefix_subrange(h, t, 36, 40);
    lemma_prefix_subrange(h, t, 40, 44);
    assert((h + t).subrange(44, (h + t).len() as int) =~= t);
}

proof fn lemma_prefix_subrange(h: Seq<u8>, t: Seq<u8>, a: int, b: int)
    requires
        0 <= a <= b <= h.len(),
    ensures
        (h + t).subrange(a, b) == h.subrange(a, b),
{
    assert((h + t).subrange(a, b) =~= h.subrange(a, b));
}

/// In the data chunk of float samples, sample `i` stands at bytes
/// `4 * i .. 4 * i + 4`, as its bit pattern in little-endian order.
pub proof fn lemma_f32_sample_at(s: Seq<u32>, i: int)
    requires
        0 <= i < s.len(),
    ensures
        f32_data(s).len() == 4 * s.len(),
        f32_data(s).subrange(4 * i, 4 * i + 4) == le32(s[i] as nat),
    decreases s.len(),
{
    lemma_f32_data_len(s);
    let p = s.drop_last();
    lemma_f32_data_len(p);
    if i == s.len() - 1 {
        assert(f32_data(s).subrange(4 * i, 4 * i + 4) =~= le32(s.last() as nat));
    } else {
        lemma_f32_sample_at(p, i);
        lemma_prefix_subrange(f32_data(p), le32(s.last() as nat), 4 * i, 4 * i + 4);
    }
}

/// In the data chunk of 16-bit samples, sample `i` stands at bytes
/// `2 * i .. 2 * i + 2`, as its two's-complement code in little-endian order.
pub proof fn lemma_i16_sample_at(s: Seq<i16>, i: int)
    requires
        0 <= i < s.len(),
    ensures
        i16_data(s).len() == 2 * s.len(),
        i16_data(s).subrange(2 * i, 2 * i + 2) == le16(i16_code(s[i])),
    decreases s.len(),
{
    lemma_i16_data_len(s);
    let p = s.drop_last();
    lemma_i16_data_len(p);
    if i == s.len() - 1 {
        assert(i16_data(s).subrange(2 * i, 2 * i + 2) =~= le16(i16_code(s.last())));
    } else {
        lemma_i16_sample_at(p, i);
        lemma_prefix_subrange(i16_data(p), le16(i16_code(s.last())), 2 * i, 2 * i + 2);
    }
}

} // verus!
