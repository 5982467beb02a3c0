//! Encoding a recording as a WAV file: mono, 16-bit PCM, written by hound.

use vstd::prelude::*;

verus! {

/// The two little-endian bytes of `v`, `0 <= v < 2^16`.
pub open spec fn le16(v: int) -> Seq<u8> {
    seq![(v % 256) as u8, ((v / 256) % 256) as u8]
}

/// The four little-endian bytes of `v`, `0 <= v < 2^32`.
pub open spec fn le32(v: int) -> Seq<u8> {
    le16(v % 65536) + le16(v / 65536)
}

/// The bytes of 16-bit samples, each in two's complement, little-endian.
pub open spec fn sample_bytes(samples: Seq<i16>) -> Seq<u8>
    decreases samples.len(),
{
    if samples.len() == 0 {
        seq![]
    } else {
        let s = samples.last() as int;
        sample_bytes(samples.drop_last()) + le16(if s < 0 { s + 65536 } else { s })
    }
}

/// The WAV file of mono 16-bit PCM `samples` at `sample_rate`: the RIFF
/// header, a 16-byte `fmt ` chunk (PCM, one channel, the rate, two bytes a
/// sample) and the `data` chunk.
pub open spec fn spec_wav_mono16(sample_rate: u32, samples: Seq<i16>) -> Seq<u8> {
    let data_len = 2 * samples.len();
    seq![0x52u8, 0x49, 0x46, 0x46] + le32((36 + data_len) as int) + seq![0x57u8, 0x41, 0x56, 0x45]
        + seq![0x66u8, 0x6d, 0x74, 0x20] + le32(16) + le16(1) + le16(1) + le32(sample_rate as int)
        + le32(2 * sample_rate) + le16(2) + le16(16) + seq![0x64u8, 0x61, 0x74, 0x61] + le32(
        data_len as int,
    ) + sample_bytes(samples)
}

/// A sample rate and length that a WAV file of 16-bit mono samples can hold.
pub open spec fn wav_encodable(sample_rate: u32, len: nat) -> bool {
    sample_rate > 0 && 2 * sample_rate <= u32::MAX && 36 + 2 * len <= u32::MAX
}

/// Writes `samples` with hound's `WavWriter` (`new`, `write_sample` for each
/// sample, `finalize`) into an in-memory buffer.  The contract claims what
/// hound's source shows for one channel of 16-bit integers: the writer uses
/// the 16-byte PCM format chunk, and writing to memory does not fail.
#[verifier::external_body]
fn hound_write_mono16(sample_rate: u32, samples: &[i16]) -> (r: Result<Vec<u8>, String>)
    requires
        wav_encodable(sample_rate, samples@.len()),
    ensures
        r is Ok,
        match r {
            Ok(b) => b@ == spec_wav_mono16(sample_rate, samples@),
            Err(_) => true,
        },
{
    let mut buf = std::io::Cursor::new(Vec::new());
    let spec = hound::WavSpec { channels: 1, sample_rate, bits_per_sample: 16, sample_format: hound::SampleFormat::Int };
    let mut writer = hound::WavWriter::new(&mut buf, spec).map_err(|e| format!("WAV 写入错误：{e}"))?;
    for &s in samples {
        writer.write_sample(s).map_err(|e| format!("WAV 样本错误：{e}"))?;
    }
    writer.finalize().map_err(|e| format!("WAV 完成错误：{e}"))?;
    Ok(buf.into_inner())
}

/// The message for a recording without audio.
pub open spec fn no_audio_message() -> Seq<char> {
    "未录制到音频"@
}

/// The WAV file of a mono recording; a recording without samples is an
/// error, whatever the rate.
pub fn encode_wav(sample_rate: u32, samples: &Vec<i16>) -> (r: Result<Vec<u8>, String>)
    requires
        samples@.len() > 0 ==> wav_encodable(sample_rate, samples@.len()),
    ensures
        match r {
            Ok(b) => samples@.len() > 0 && b@ == spec_wav_mono16(sample_rate, samples@),
            Err(e) => samples@.len() == 0 && e@ == no_audio_message(),
        },
{
    if samples.len() == 0 {
        return Err(String::from_str("未录制到音频"));
    }
    hound_write_mono16(sample_rate, samples.as_slice())
}

} // verus!
