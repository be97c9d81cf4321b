//! The session's audio: 16-bit mono samples, sent and received as base64.

use vstd::prelude::*;

use crate::clock::{ClockTime, NS_PER_MS};
use crate::media::BufferView;

verus! {

/// Samples per second.
pub const SAMPLE_RATE: u32 = 24_000;

/// Channels per sample.
pub const CHANNELS: u32 = 1;

/// Bytes of one channel of a sample.
pub const BYTES_PER_SAMPLE: u32 = 2;

/// The step in which the output is driven, in milliseconds.
pub const GRANULARITY_MS: u32 = 100;

/// Bytes of the pieces that received audio is cut into: 200 milliseconds.
pub const CHUNK_SIZE: usize = 9_600;

/// How one channel of a sample is laid out in bytes.
#[derive(Debug, Clone, Copy, PartialEq, Eq, Structural)]
pub enum SampleFormat {
    /// A signed 16-bit number, least significant byte first.
    S16le,
}

/// How the channels of a sample lie to each other.
#[derive(Debug, Clone, Copy, PartialEq, Eq, Structural)]
pub enum SampleLayout {
    /// One after the other, sample by sample.
    Interleaved,
}

/// What kind of audio a pad deals in.
#[derive(Debug, Clone, Copy, PartialEq, Eq, Structural)]
pub struct AudioCaps {
    pub format: SampleFormat,
    pub rate: u32,
    pub channels: u32,
    pub layout: SampleLayout,
}

/// The session's kind of audio.
pub open spec fn session_audio() -> AudioCaps {
    AudioCaps {
        format: SampleFormat::S16le,
        rate: SAMPLE_RATE,
        channels: CHANNELS,
        layout: SampleLayout::Interleaved,
    }
}

/// The session's kind of audio: the only one that its pads take and give.
pub fn audio_caps() -> (r: AudioCaps)
    ensures
        r == session_audio(),
{
    AudioCaps {
        format: SampleFormat::S16le,
        rate: SAMPLE_RATE,
        channels: CHANNELS,
        layout: SampleLayout::Interleaved,
    }
}

/// The whole milliseconds that `size` bytes of audio last.
pub open spec fn audio_length_ms(size: nat) -> nat {
    (size * 1000) / (SAMPLE_RATE as nat * CHANNELS as nat * BYTES_PER_SAMPLE as nat)
}

/// One millisecond of audio takes 48 bytes.
pub proof fn lemma_audio_length_ms(size: nat)
    ensures
        audio_length_ms(size) == size / 48,
{
    assert(SAMPLE_RATE as nat * CHANNELS as nat * BYTES_PER_SAMPLE as nat == 48_000)
        by (nonlinear_arith);
    assert((size * 1000) / 48_000 == size / 48);
}

/// The whole milliseconds that `data_size` bytes of audio last.
pub fn calculate_audio_length_ms(data_size: usize) -> (r: u64)
    ensures
        r == audio_length_ms(data_size as nat),
{
    proof {
        lemma_audio_length_ms(data_size as nat);
    }
    let bytes_per_ms: u64 = (SAMPLE_RATE / 1000 * CHANNELS * BYTES_PER_SAMPLE) as u64;
    data_size as u64 / bytes_per_ms
}

/// The nanoseconds that `size` bytes of audio last, counted by the
/// millisecond.
pub open spec fn audio_length_ns(size: nat) -> nat {
    audio_length_ms(size) * NS_PER_MS as nat
}

/// The bytes in pieces of [`CHUNK_SIZE`], one after the other from `start`.
pub open spec fn audio_buffers(data: Seq<u8>, start: int) -> Seq<BufferView>
    decreases data.len(),
{
    if data.len() == 0 {
        Seq::empty()
    } else {
        let n = if data.len() < CHUNK_SIZE {
            data.len() as int
        } else {
            CHUNK_SIZE as int
        };
        let lasts = audio_length_ns(n as nat);
        seq![
            BufferView {
                pts: Some(ClockTime { ns: start as u64 }),
                duration: Some(ClockTime { ns: lasts as u64 }),
                data: data.take(n),
            },
        ] + audio_buffers(data.skip(n), start + lasts)
    }
}

/// The bytes of the buffers, one after the other.
pub open spec fn all_bytes(buffers: Seq<BufferView>) -> Seq<u8>
    decreases buffers.len(),
{
    if buffers.len() == 0 {
        Seq::empty()
    } else {
        buffers[0].data + all_bytes(buffers.drop_first())
    }
}

/// Whether each buffer ends where the next one starts.
pub open spec fn gapless(buffers: Seq<BufferView>) -> bool {
    forall|i: int|
        0 <= i < buffers.len() - 1 ==> (#[trigger] buffers[i]).end() == buffers[i + 1].pts->0
}

/// Audio that was cut into buffers is all there, in order and without a gap:
/// the first buffer starts at `start`, each ends where the next one starts,
/// none is longer than [`CHUNK_SIZE`], and together they hold the bytes and
/// last as long as these do.
pub proof fn law_audio_buffers(data: Seq<u8>, start: int)
    requires
        0 <= start,
        start + audio_length_ns(data.len()) <= u64::MAX,
    ensures
        all_bytes(audio_buffers(data, start)) == data,
        gapless(audio_buffers(data, start)),
        forall|i: int|
            0 <= i < audio_buffers(data, start).len() ==> {
                &&& (#[trigger] audio_buffers(data, start)[i]).stamped()
                &&& 0 < audio_buffers(data, start)[i].data.len() <= CHUNK_SIZE
                &&& audio_buffers(data, start)[i].duration->0.ns == audio_length_ns(
                    audio_buffers(data, start)[i].data.len(),
                )
            },
        data.len() > 0 ==> {
            &&& audio_buffers(data, start).len() > 0
            &&& audio_buffers(data, start)[0].pts->0.ns == start
            &&& audio_buffers(data, start).last().end().ns == start + audio_length_ns(data.len())
        },
    decreases data.len(),
{
    if data.len() > 0 {
        let n = if data.len() < CHUNK_SIZE {
            data.len() as int
        } else {
            CHUNK_SIZE as int
        };
        let lasts = audio_length_ns(n as nat) as int;
        let rest = data.skip(n);
        let tail = audio_buffers(rest, start + lasts);
        let all = audio_buffers(data, start);
        lemma_audio_length_ms(data.len());
        lemma_audio_length_ms(n as nat);
        lemma_audio_length_ms(rest.len());
        assert(audio_length_ns(data.len()) == lasts + audio_length_ns(rest.len()));
        law_audio_buffers(rest, start + lasts);
        assert(all.drop_first() =~= tail);
        assert(data.take(n) + rest =~= data);
        assert forall|i: int| 0 <= i < all.len() - 1 implies (#[trigger] all[i]).end() == all[i
            + 1].pts->0 by {
            if i > 0 {
                assert(all[i] == tail[i - 1]);
                assert(all[i + 1] == tail[i]);
            }
        }
        assert forall|i: int| 0 <= i < all.len() implies {
            &&& (#[trigger] all[i]).stamped()
            &&& 0 < all[i].data.len() <= CHUNK_SIZE
            &&& all[i].duration->0.ns == audio_length_ns(all[i].data.len())
        } by {
            if i > 0 {
                assert(all[i] == tail[i - 1]);
            }
        }
        if rest.len() > 0 {
            assert(all.last() == tail.last());
        }
    }
}

// Base64.

#[verifier::external_type_specification]
#[verifier::external_body]
pub struct ExDecodeError(base64::DecodeError);

/// The base64 text of some bytes, standard alphabet, padded.
pub uninterp spec fn base64_encoded(data: Seq<u8>) -> Seq<char>;

/// The bytes that a base64 text stands for, if it is one.
pub uninterp spec fn base64_decoded(text: Seq<char>) -> Option<Seq<u8>>;

/// Calls `base64::Engine::encode` on the standard engine. The result is taken
/// to be a function of the bytes, and to decode to them again. More bytes than
/// the text of which fits in memory are left out.
#[verifier::external_body]
pub(crate) fn base64_encode(data: &[u8]) -> (r: String)
    requires
        data@.len() <= isize::MAX / 4 * 3 - 3,
    ensures
        r@ == base64_encoded(data@),
        base64_decoded(r@) == Some(data@),
{
    base64::Engine::encode(&base64::prelude::BASE64_STANDARD, data)
}

/// Calls `base64::Engine::decode` on the standard engine. The result is taken
/// to be a function of the text. The engine asks for canonical padding and no
/// stray bits, so the bytes encode to the same text again.
#[verifier::external_body]
pub(crate) fn base64_decode(text: &str) -> (r: Result<Vec<u8>, base64::DecodeError>)
    ensures
        match r {
            Ok(data) => base64_decoded(text@) == Some(data@) && base64_encoded(data@) == text@,
            Err(_) => base64_decoded(text@) is None,
        },
{
    base64::Engine::decode(&base64::prelude::BASE64_STANDARD, text)
}

/// A millisecond of audio is 24 samples of two bytes each: every 48 bytes more
/// last a millisecond longer, and fewer bytes do not count.
pub proof fn law_audio_lasts(ms: nat, odd: nat)
    requires
        odd < 48,
    ensures
        audio_length_ms(24 * 2 * ms + odd) == ms,
        audio_length_ns(24 * 2 * ms + odd) == 1_000_000 * ms,
{
    lemma_audio_length_ms(48 * ms + odd);
}

/// Audio is cut into pieces of 9600 bytes, the last of which may be shorter.
/// The pieces start 200 milliseconds after each other, and each lasts as many
/// whole milliseconds as it holds 48 bytes.
pub proof fn law_audio_pieces(data: Seq<u8>, start: int)
    requires
        0 <= start,
        start + (data.len() / 48) * 1_000_000 <= u64::MAX,
    ensures
        audio_buffers(data, start).len() == (data.len() + 9599) / 9600,
        forall|i: int|
            0 <= i < audio_buffers(data, start).len() ==> {
                let from = 9600 * i;
                let to = if from + 9600 <= data.len() {
                    from + 9600
                } else {
                    data.len() as int
                };
                let piece = #[trigger] audio_buffers(data, start)[i];
                &&& piece.data == data.subrange(from, to)
                &&& piece.pts is Some && piece.pts->0.ns == start + 200_000_000 * i
                &&& piece.duration is Some && piece.duration->0.ns == ((to - from) / 48)
                    * 1_000_000
            },
    decreases data.len(),
{
    if data.len() > 0 {
        let n = if data.len() < CHUNK_SIZE {
            data.len() as int
        } else {
            CHUNK_SIZE as int
        };
        let rest = data.skip(n);
        let lasts = audio_length_ns(n as nat) as int;
        lemma_audio_length_ms(n as nat);
        let all = audio_buffers(data, start);
        let tail = audio_buffers(rest, start + lasts);
        law_audio_pieces(rest, start + lasts);
        assert(all =~= seq![all[0]] + tail);
        assert forall|i: int| 0 <= i < all.len() implies {
            let from = 9600 * i;
            let to = if from + 9600 <= data.len() {
                from + 9600
            } else {
                data.len() as int
            };
            let piece = #[trigger] all[i];
            &&& piece.data == data.subrange(from, to)
            &&& piece.pts is Some && piece.pts->0.ns == start + 200_000_000 * i
            &&& piece.duration is Some && piece.duration->0.ns == ((to - from) / 48) * 1_000_000
        } by {
            let from = 9600 * i;
            let to = if from + 9600 <= data.len() {
                from + 9600
            } else {
                data.len() as int
            };
            if i == 0 {
                assert(data.take(n) =~= data.subrange(0, to));
            } else {
                assert(all[i] == tail[i - 1]);
                assert(rest.subrange(from - 9600, to - 9600) =~= data.subrange(from, to));
            }
        }
    }
}

/// The session's audio is 16-bit little-endian mono at 24000 samples a second.
pub proof fn law_session_audio()
    ensures
        session_audio().format == SampleFormat::S16le,
        session_audio().rate == 24000,
        session_audio().channels == 1,
        session_audio().layout == SampleLayout::Interleaved,
{
}

/// Audio lasts a millisecond for every 48 bytes.
pub proof fn law_calculated_length(data_size: usize, ms: u64)
    requires
        call_ensures(calculate_audio_length_ms, (data_size,), ms),
    ensures
        48 * ms <= data_size < 48 * (ms + 1),
{
    lemma_audio_length_ms(data_size as nat);
}

} // verus!
