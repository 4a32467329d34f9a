//! Audio clips: raw samples, silence, concatenation and the WAV encoding.
//!
//! A sample counts millionths of full scale, so `ONE` is the loudest positive
//! sample and `-ONE` the loudest negative one. Durations count microseconds.
use crate::text::{decimal, decimal_digits};
use crate::units::{lemma_mul_bound, ONE, SECOND};
use vstd::string::StringExecFns;
use vstd::prelude::*;

verus! {

/// The sample rate of a video production: 48 kHz.
pub const DEFAULT_SAMPLE_RATE: u32 = 48000;

/// The largest 16-bit sample.
pub const PCM_MAX: i64 = 32767;

/// Why two clips could not be combined.
#[derive(Debug, Clone, Copy, PartialEq, Eq, Structural)]
pub enum AudioError {
    /// The clips have different sample rates.
    SampleRateMismatch { expected: u32, got: u32 },
    /// The clips have different numbers of channels.
    ChannelCountMismatch { expected: u16, got: u16 },
}

impl AudioError {
    /// The message of the error, which names both values.
    pub open spec fn spec_message(&self) -> Seq<char> {
        match self {
            AudioError::SampleRateMismatch { expected, got } => "sample rate mismatch: expected "@
                + decimal_digits(*expected as nat) + ", got "@ + decimal_digits(*got as nat),
            AudioError::ChannelCountMismatch { expected, got } => "channel count mismatch: expected "@
                + decimal_digits(*expected as nat) + ", got "@ + decimal_digits(*got as nat),
        }
    }

    /// The message of the error.
    pub fn message(&self) -> (s: String)
        ensures
            s@ == self.spec_message(),
    {
        match self {
            AudioError::SampleRateMismatch { expected, got } => {
                let mut s = String::from_str("sample rate mismatch: expected ");
                s.append(decimal(*expected as u64).as_str());
                s.append(", got ");
                s.append(decimal(*got as u64).as_str());
                s
            },
            AudioError::ChannelCountMismatch { expected, got } => {
                let mut s = String::from_str("channel count mismatch: expected ");
                s.append(decimal(*expected as u64).as_str());
                s.append(", got ");
                s.append(decimal(*got as u64).as_str());
                s
            },
        }
    }
}

/// A clip of raw audio.
#[derive(Debug, Clone)]
pub struct AudioClip {
    /// The interleaved samples, in millionths of full scale.
    pub data: Vec<i32>,
    /// The duration in microseconds.
    pub duration: u64,
    /// The sample rate in Hz.
    pub sample_rate: u32,
    /// The number of channels.
    pub channels: u16,
}

/// The number of samples of one channel that last `duration` microseconds at
/// `rate` samples per second, rounded down.
pub open spec fn samples_in(duration: int, rate: int) -> int {
    duration * rate / (SECOND as int)
}

/// The time that `samples` interleaved samples last at `rate` frames per
/// second with `channels` channels, rounded down to microseconds.
pub open spec fn duration_of(samples: int, rate: int, channels: int) -> int {
    samples * SECOND / (rate * channels)
}

/// A sample clamped to full scale.
pub open spec fn clamp_sample(sample: int) -> int {
    if sample > ONE {
        ONE as int
    } else if sample < -(ONE as int) {
        -(ONE as int)
    } else {
        sample
    }
}

/// The 16-bit value of a sample: the sample clamped to full scale, times
/// 32767, rounded toward zero.
pub open spec fn pcm16(sample: int) -> int {
    let s = clamp_sample(sample);
    if s >= 0 {
        s * PCM_MAX / (ONE as int)
    } else {
        -((-s) * PCM_MAX / (ONE as int))
    }
}

/// The two bytes of a 16-bit value in two's complement, low byte first.
pub open spec fn le16(value: int) -> Seq<u8> {
    let unsigned = if value < 0 {
        value + 0x1_0000
    } else {
        value
    };
    seq![(unsigned % 256) as u8, (unsigned / 256) as u8]
}

/// The four bytes of an unsigned 32-bit value, low byte first.
pub open spec fn le32(value: int) -> Seq<u8> {
    seq![
        (value % 256) as u8,
        (value / 256 % 256) as u8,
        (value / 0x1_0000 % 256) as u8,
        (value / 0x100_0000) as u8,
    ]
}

/// The bytes of the first `k` samples as 16-bit values, low byte first.
pub open spec fn pcm_bytes(data: Seq<i32>, k: int) -> Seq<u8>
    decreases k,
{
    if k <= 0 {
        Seq::empty()
    } else {
        pcm_bytes(data, k - 1) + le16(pcm16(data[k - 1] as int))
    }
}

/// The 44 bytes of the header of a WAV file of 16-bit samples.
pub open spec fn wav_header(rate: int, channels: int, data_size: int) -> Seq<u8> {
    seq![0x52u8, 0x49, 0x46, 0x46] + le32(36 + data_size) + seq![0x57u8, 0x41, 0x56, 0x45]
        + seq![0x66u8, 0x6d, 0x74, 0x20] + le32(16) + le16(1) + le16(channels) + le32(rate)
        + le32(rate * channels * 2) + le16(channels * 2) + le16(16) + seq![
        0x64u8,
        0x61,
        0x74,
        0x61,
    ] + le32(data_size)
}

/// Converts a sample to its 16-bit value. A sample beyond full scale is
/// clamped first.
pub fn sample_to_i16(sample: i32) -> (v: i16)
    ensures
        v == pcm16(sample as int),
        -PCM_MAX <= v <= PCM_MAX,
{
    let s: i64 = if sample as i64 > ONE as i64 {
        ONE as i64
    } else if (sample as i64) < -(ONE as i64) {
        -(ONE as i64)
    } else {
        sample as i64
    };
    if s >= 0 {
        proof {
            lemma_mul_bound(s as int, PCM_MAX as int, ONE as int, PCM_MAX as int);
            crate::units::lemma_div_monotone(s * PCM_MAX, ONE * PCM_MAX, ONE as int);
            assert(ONE * PCM_MAX / (ONE as int) == PCM_MAX) by (nonlinear_arith);
        }
        (s * PCM_MAX / (ONE as i64)) as i16
    } else {
        let m: i64 = -s;
        proof {
            lemma_mul_bound(m as int, PCM_MAX as int, ONE as int, PCM_MAX as int);
            crate::units::lemma_div_monotone(m * PCM_MAX, ONE * PCM_MAX, ONE as int);
            assert(ONE * PCM_MAX / (ONE as int) == PCM_MAX) by (nonlinear_arith);
        }
        (-(m * PCM_MAX / (ONE as i64))) as i16
    }
}

/// Appends the two bytes of `value`, low byte first.
fn push_le16(buf: &mut Vec<u8>, value: i32)
    requires
        -0x8000 <= value < 0x1_0000,
    ensures
        final(buf)@ == old(buf)@ + le16(value as int),
{
    let unsigned: u32 = if value < 0 {
        (value + 0x1_0000) as u32
    } else {
        value as u32
    };
    buf.push((unsigned % 256) as u8);
    buf.push((unsigned / 256) as u8);
    assert(buf@ =~= old(buf)@ + le16(value as int));
}

/// Appends the four bytes of `value`, low byte first.
fn push_le32(buf: &mut Vec<u8>, value: u32)
    ensures
        final(buf)@ == old(buf)@ + le32(value as int),
{
    buf.push((value % 256) as u8);
    buf.push((value / 256 % 256) as u8);
    buf.push((value / 0x1_0000 % 256) as u8);
    buf.push((value / 0x100_0000) as u8);
    assert(buf@ =~= old(buf)@ + le32(value as int));
}

/// Appends the four characters of a chunk tag.
fn push_tag(buf: &mut Vec<u8>, a: u8, b: u8, c: u8, d: u8)
    ensures
        final(buf)@ == old(buf)@ + seq![a, b, c, d],
{
    buf.push(a);
    buf.push(b);
    buf.push(c);
    buf.push(d);
    assert(buf@ =~= old(buf)@ + seq![a, b, c, d]);
}

impl AudioClip {
    /// The clip can be measured: it has a sample rate and channels, and its
    /// duration in microseconds fits 64 bits.
    pub open spec fn wf(&self) -> bool {
        &&& self.sample_rate > 0
        &&& self.channels > 0
        &&& duration_of(self.data@.len() as int, self.sample_rate as int, self.channels as int)
            <= u64::MAX
    }

    /// A silent clip with one channel: as many zero samples as `duration`
    /// microseconds take at `sample_rate`, rounded down.
    pub fn silence(duration: u64, sample_rate: u32) -> (clip: AudioClip)
        requires
            samples_in(duration as int, sample_rate as int) <= usize::MAX,
        ensures
            clip.data@ == Seq::new(
                samples_in(duration as int, sample_rate as int) as nat,
                |i: int| 0i32,
            ),
            clip.duration == duration,
            clip.sample_rate == sample_rate,
            clip.channels == 1,
    {
        proof {
            lemma_mul_bound(
                duration as int,
                sample_rate as int,
                u64::MAX as int,
                u32::MAX as int,
            );
        }
        let count: u128 = (duration as u128) * (sample_rate as u128) / (SECOND as u128);
        let data: Vec<i32> = vec![0i32; count as usize];
        assert(data@ =~= Seq::new(count as nat, |i: int| 0i32));
        AudioClip { data, duration, sample_rate, channels: 1 }
    }

    /// The duration of the clip in microseconds.
    pub fn duration(&self) -> (d: u64)
        ensures
            d == self.duration,
    {
        self.duration
    }

    /// Appends the samples of `other`. The duration becomes that of all the
    /// samples together. Where the sample rates or the numbers of channels
    /// differ, nothing changes and the error names both values.
    pub fn append(&mut self, other: &AudioClip) -> (outcome: Result<(), AudioError>)
        requires
            old(self).sample_rate > 0,
            old(self).channels > 0,
            duration_of(
                (old(self).data@.len() + other.data@.len()) as int,
                old(self).sample_rate as int,
                old(self).channels as int,
            ) <= u64::MAX,
        ensures
            final(self).sample_rate == old(self).sample_rate,
            final(self).channels == old(self).channels,
            match outcome {
                Ok(()) => {
                    &&& old(self).sample_rate == other.sample_rate
                    &&& old(self).channels == other.channels
                    &&& final(self).data@ == old(self).data@ + other.data@
                    &&& final(self).duration == duration_of(
                        final(self).data@.len() as int,
                        final(self).sample_rate as int,
                        final(self).channels as int,
                    )
                    &&& final(self).wf()
                },
                Err(e) => {
                    &&& *final(self) == *old(self)
                    &&& if old(self).sample_rate != other.sample_rate {
                        e == (AudioError::SampleRateMismatch {
                            expected: old(self).sample_rate,
                            got: other.sample_rate,
                        })
                    } else {
                        old(self).channels != other.channels && e
                            == (AudioError::ChannelCountMismatch {
                            expected: old(self).channels,
                            got: other.channels,
                        })
                    }
                },
            },
    {
        if self.sample_rate != other.sample_rate {
            return Err(
                AudioError::SampleRateMismatch {
                    expected: self.sample_rate,
                    got: other.sample_rate,
                },
            );
        }
        if self.channels != other.channels {
            return Err(
                AudioError::ChannelCountMismatch { expected: self.channels, got: other.channels },
            );
        }
        self.data.extend_from_slice(other.data.as_slice());
        let count = self.data.len();
        proof {
            lemma_mul_bound(count as int, SECOND as int, usize::MAX as int, SECOND as int);
            lemma_mul_bound(
                self.sample_rate as int,
                self.channels as int,
                u32::MAX as int,
                u16::MAX as int,
            );
            assert(self.sample_rate * self.channels > 0) by (nonlinear_arith)
                requires
                    self.sample_rate > 0,
                    self.channels > 0,
            ;
        }
        let frames: u128 = (self.sample_rate as u128) * (self.channels as u128);
        self.duration = ((count as u128) * (SECOND as u128) / frames) as u64;
        Ok(())
    }

    /// The samples of the first `k` clips, one after the other.
    pub open spec fn concat_data(clips: Seq<AudioClip>, k: int) -> Seq<i32>
        decreases k,
    {
        if k <= 0 {
            Seq::empty()
        } else {
            AudioClip::concat_data(clips, k - 1) + clips[k - 1].data@
        }
    }

    /// The position of the first clip whose sample rate or number of channels
    /// differs from the given ones, or the number of clips where none does.
    pub open spec fn first_mismatch(clips: Seq<AudioClip>, sample_rate: u32, channels: u16, from: int) -> int
        decreases clips.len() - from,
    {
        if from < 0 || from >= clips.len() {
            clips.len() as int
        } else if clips[from].sample_rate != sample_rate || clips[from].channels != channels {
            from
        } else {
            AudioClip::first_mismatch(clips, sample_rate, channels, from + 1)
        }
    }

    /// Joins the clips into one with the given sample rate and number of
    /// channels. Without clips the result is empty. The first clip whose
    /// sample rate or number of channels differs gives the error.
    pub fn concat(clips: &[AudioClip], sample_rate: u32, channels: u16) -> (outcome: Result<
        AudioClip,
        AudioError,
    >)
        requires
            sample_rate > 0,
            channels > 0,
            duration_of(
                AudioClip::concat_data(clips@, clips@.len() as int).len() as int,
                sample_rate as int,
                channels as int,
            ) <= u64::MAX,
        ensures
            match outcome {
                Ok(clip) => {
                    &&& AudioClip::first_mismatch(clips@, sample_rate, channels, 0) == clips@.len()
                    &&& clip.data@ == AudioClip::concat_data(clips@, clips@.len() as int)
                    &&& clip.sample_rate == sample_rate
                    &&& clip.channels == channels
                    &&& clip.duration == (if clips@.len() == 0 {
                        0
                    } else {
                        duration_of(clip.data@.len() as int, sample_rate as int, channels as int)
                    })
                },
                Err(e) => {
                    let at = AudioClip::first_mismatch(clips@, sample_rate, channels, 0);
                    &&& at < clips@.len()
                    &&& if clips@[at].sample_rate != sample_rate {
                        e == (AudioError::SampleRateMismatch {
                            expected: sample_rate,
                            got: clips@[at].sample_rate,
                        })
                    } else {
                        e == (AudioError::ChannelCountMismatch {
                            expected: channels,
                            got: clips@[at].channels,
                        })
                    }
                },
            },
    {
        let mut result = AudioClip { data: Vec::new(), duration: 0, sample_rate, channels };
        let mut i: usize = 0;
        while i < clips.len()
            invariant
                i <= clips@.len(),
                sample_rate > 0,
                channels > 0,
                result.sample_rate == sample_rate,
                result.channels == channels,
                result.data@ == AudioClip::concat_data(clips@, i as int),
                AudioClip::first_mismatch(clips@, sample_rate, channels, 0)
                    == AudioClip::first_mismatch(clips@, sample_rate, channels, i as int),
                result.duration == (if i == 0 {
                    0
                } else {
                    duration_of(result.data@.len() as int, sample_rate as int, channels as int)
                }),
                duration_of(
                    AudioClip::concat_data(clips@, clips@.len() as int).len() as int,
                    sample_rate as int,
                    channels as int,
                ) <= u64::MAX,
            decreases clips@.len() - i,
        {
            proof {
                AudioClip::lemma_concat_len(clips@, i as int + 1, clips@.len() as int);
                let part = AudioClip::concat_data(clips@, i as int + 1).len() as int;
                let whole = AudioClip::concat_data(clips@, clips@.len() as int).len() as int;
                lemma_mul_bound(part, SECOND as int, whole, SECOND as int);
                assert(sample_rate * channels > 0) by (nonlinear_arith)
                    requires
                        sample_rate > 0,
                        channels > 0,
                ;
                assert(part * SECOND / (sample_rate * channels) <= whole * SECOND / (sample_rate
                    * channels)) by (nonlinear_arith)
                    requires
                        0 <= part * SECOND <= whole * SECOND,
                        sample_rate * channels > 0,
                ;
            }
            match result.append(&clips[i]) {
                Ok(()) => {},
                Err(e) => {
                    return Err(e);
                },
            }
            i = i + 1;
        }
        Ok(result)
    }

    /// The samples of more clips are no fewer.
    pub proof fn lemma_concat_len(clips: Seq<AudioClip>, k: int, n: int)
        requires
            0 <= k <= n,
        ensures
            AudioClip::concat_data(clips, k).len() <= AudioClip::concat_data(clips, n).len(),
        decreases n,
    {
        if k < n {
            AudioClip::lemma_concat_len(clips, k, n - 1);
        }
    }

    /// The bytes of the clip as a WAV file: the header and the samples as
    /// 16-bit values, low byte first.
    pub open spec fn spec_wav_bytes(&self) -> Seq<u8> {
        wav_header(self.sample_rate as int, self.channels as int, (self.data@.len() * 2) as int) + pcm_bytes(
            self.data@,
            self.data@.len() as int,
        )
    }

    /// Whether the clip fits a WAV file of 16-bit samples: whether the sizes
    /// and rates of the header fit their fields.
    pub open spec fn wav_fits(&self) -> bool {
        &&& self.channels <= 0x7fff
        &&& self.sample_rate * self.channels * 2 <= u32::MAX
        &&& 36 + self.data@.len() * 2 <= u32::MAX
    }

    /// Encodes the clip as a WAV file, where it fits one.
    pub fn try_to_wav_bytes(&self) -> (bytes: Option<Vec<u8>>)
        ensures
            match bytes {
                Some(b) => self.wav_fits() && b@ == self.spec_wav_bytes(),
                None => !self.wav_fits(),
            },
    {
        if self.channels > 0x7fff {
            return None;
        }
        proof {
            lemma_mul_bound(
                self.sample_rate as int,
                self.channels as int,
                u32::MAX as int,
                0x7fff,
            );
        }
        let byte_rate: u64 = (self.sample_rate as u64) * (self.channels as u64) * 2;
        if byte_rate > u32::MAX as u64 {
            return None;
        }
        if self.data.len() > (u32::MAX as usize - 36) / 2 {
            return None;
        }
        Some(self.to_wav_bytes())
    }

    /// Encodes the clip as a WAV file of 16-bit samples: a header of 44 bytes,
    /// then each sample in two bytes, low byte first.
    pub fn to_wav_bytes(&self) -> (bytes: Vec<u8>)
        requires
            self.wav_fits(),
        ensures
            bytes@ == self.spec_wav_bytes(),
    {
        let block_align: u16 = self.channels * 2;
        assert(self.sample_rate * block_align == self.sample_rate * self.channels * 2)
            by (nonlinear_arith)
            requires
                block_align == self.channels * 2,
        ;
        let byte_rate: u32 = self.sample_rate * (block_align as u32);
        let data_size: u32 = (self.data.len() as u32) * 2;
        let chunk_size: u32 = 36 + data_size;
        let mut buf: Vec<u8> = Vec::new();
        push_tag(&mut buf, 0x52, 0x49, 0x46, 0x46);
        push_le32(&mut buf, chunk_size);
        push_tag(&mut buf, 0x57, 0x41, 0x56, 0x45);
        push_tag(&mut buf, 0x66, 0x6d, 0x74, 0x20);
        push_le32(&mut buf, 16);
        push_le16(&mut buf, 1);
        push_le16(&mut buf, self.channels as i32);
        push_le32(&mut buf, self.sample_rate);
        push_le32(&mut buf, byte_rate);
        push_le16(&mut buf, block_align as i32);
        push_le16(&mut buf, 16);
        push_tag(&mut buf, 0x64, 0x61, 0x74, 0x61);
        push_le32(&mut buf, data_size);
        let ghost header = wav_header(
            self.sample_rate as int,
            self.channels as int,
            (self.data@.len() * 2) as int,
        );
        assert(buf@ =~= header);
        let mut i: usize = 0;
        while i < self.data.len()
            invariant
                i <= self.data@.len(),
                buf@ == header + pcm_bytes(self.data@, i as int),
            decreases self.data@.len() - i,
        {
            let value = sample_to_i16(self.data[i]);
            push_le16(&mut buf, value as i32);
            assert(buf@ =~= header + pcm_bytes(self.data@, i as int + 1));
            i = i + 1;
        }
        buf
    }
}

} // verus!
