//! The voice gate: audio is heard only while a face is seen.

use vstd::prelude::*;

use crate::bytes::number_in;
use crate::clock::{ClockTime, NS_PER_MS};
use crate::media::{Buffer, BufferView, FlowError};
use crate::tracks::{
    decode_tracks, law_tracks_round_trip, number_at, starts_with_tracks, tracks_bytes,
};

verus! {

/// How long after a face was last seen audio is still heard, in milliseconds.
pub const DEFAULT_THRESHOLD_MS: u32 = 100;

/// The settings of the element.
#[derive(Debug, Clone, Copy)]
pub struct Settings {
    /// How long after a face was last seen audio is still heard.
    pub threshold: ClockTime,
}

impl Default for Settings {
    fn default() -> (r: Settings)
        ensures
            r.threshold.ns == DEFAULT_THRESHOLD_MS * NS_PER_MS,
    {
        Settings { threshold: ClockTime::from_mseconds(DEFAULT_THRESHOLD_MS as u64) }
    }
}

/// What the element remembers.
#[derive(Debug, Clone, Copy)]
pub struct State {
    /// When a face was last seen.
    pub last_seen: ClockTime,
}

impl Default for State {
    fn default() -> (r: State)
        ensures
            r.last_seen.ns == 0,
    {
        State { last_seen: ClockTime::zero() }
    }
}

/// Silence of the same size: no time, no duration, and zeros.
pub open spec fn silence(size: nat) -> BufferView {
    BufferView { pts: None, duration: None, data: Seq::new(size, |i: int| 0u8) }
}

/// The element.
#[derive(Debug, Clone, Copy)]
pub struct VisualVoice {
    pub settings: Settings,
    pub state: State,
}

impl VisualVoice {
    /// Whether audio that is for the time is heard: a face was seen then, or
    /// not too long before.
    pub open spec fn hears(self, pts: ClockTime) -> bool {
        pts.ns <= self.state.last_seen.ns + self.settings.threshold.ns
    }

    /// What is heard of a buffer.
    pub open spec fn gated(self, buffer: BufferView) -> BufferView {
        if self.hears(buffer.pts->0) {
            buffer
        } else {
            silence(buffer.data.len())
        }
    }

    /// A new element.
    pub fn new() -> (r: VisualVoice)
        ensures
            r.settings.threshold.ns == DEFAULT_THRESHOLD_MS * NS_PER_MS,
            r.state.last_seen.ns == 0,
    {
        VisualVoice { settings: Settings::default(), state: State::default() }
    }

    /// What is passed on for a buffer of audio: the buffer, or silence of the
    /// same size if no face was seen. A buffer has to say what time it is for.
    pub fn audio_sink_chain(&self, buffer: Buffer) -> (r: Result<Buffer, FlowError>)
        ensures
            match r {
                Ok(out) => buffer.pts is Some && out@ == self.gated(buffer@),
                Err(e) => buffer.pts is None && e == FlowError::Error,
            },
    {
        let pts: ClockTime = match buffer.pts {
            Some(pts) => pts,
            None => return Err(FlowError::Error),
        };
        if pts.saturating_sub(self.state.last_seen).ns > self.settings.threshold.ns {
            let size: usize = buffer.data.len();
            let mut data: Vec<u8> = Vec::new();
            let mut i: usize = 0;
            while i < size
                invariant
                    i <= size,
                    data@ == Seq::new(i as nat, |j: int| 0u8),
                decreases size - i,
            {
                data.push(0);
                i = i + 1;
                assert(data@ =~= Seq::new(i as nat, |j: int| 0u8));
            }
            let out = Buffer { pts: None, duration: None, data };
            assert(out@ =~= silence(buffer@.data.len()));
            Ok(out)
        } else {
            Ok(buffer)
        }
    }

    /// Takes in a list of the faces in sight. If there is one, it was seen
    /// just now.
    pub fn face_sink_chain(&mut self, data: &[u8], now: Option<ClockTime>)
        requires
            starts_with_tracks(data@),
            number_at(data@, 0) > 0 ==> now is Some,
        ensures
            final(self).settings == old(self).settings,
            final(self).state.last_seen == if number_at(data@, 0) > 0 {
                now->0
            } else {
                old(self).state.last_seen
            },
    {
        if let Ok(tracks) = decode_tracks(data) {
            if tracks.len() > 0 {
                if let Some(now) = now {
                    self.state.last_seen = now;
                }
            }
        }
    }
}

/// Silence tells nothing of what it stands for but its size: two buffers of
/// one size that are not heard cannot be told apart.
pub proof fn law_silence_tells_nothing(voice: VisualVoice, a: BufferView, b: BufferView)
    requires
        a.pts is Some,
        b.pts is Some,
        !voice.hears(a.pts->0),
        !voice.hears(b.pts->0),
        a.data.len() == b.data.len(),
    ensures
        voice.gated(a) == voice.gated(b),
        forall|i: int| 0 <= i < a.data.len() ==> (#[trigger] voice.gated(a).data[i]) == 0,
{
}

/// Audio that is for the time at which a face was last seen, or for any time
/// before, is heard as it is.
pub proof fn law_seen_is_heard(voice: VisualVoice, buffer: BufferView)
    requires
        buffer.pts is Some,
        buffer.pts->0.ns <= voice.state.last_seen.ns,
    ensures
        voice.gated(buffer) == buffer,
{
}

/// What the tracker sends is understood: it is a list of faces, and there is
/// one in sight exactly if a track was sent.
pub proof fn law_tracks_are_faces(ids: Seq<u64>)
    requires
        ids.len() <= u64::MAX,
    ensures
        starts_with_tracks(tracks_bytes(ids)),
        number_at(tracks_bytes(ids), 0) == ids.len(),
{
    law_tracks_round_trip(ids, Seq::empty());
    assert(tracks_bytes(ids) + Seq::<u8>::empty() =~= tracks_bytes(ids));
}

/// Audio that is for a time later than the threshold after a face was last
/// seen is not heard, whenever that was: zeros of the same number are passed
/// on in its place, without a time. Any other is passed on as it is.
pub proof fn law_unseen_is_not_heard(voice: VisualVoice, buffer: BufferView)
    requires
        buffer.pts is Some,
    ensures
        buffer.pts->0.ns > voice.state.last_seen.ns + voice.settings.threshold.ns ==> {
            &&& voice.gated(buffer).data.len() == buffer.data.len()
            &&& forall|i: int|
                0 <= i < buffer.data.len() ==> (#[trigger] voice.gated(buffer).data[i]) == 0
            &&& voice.gated(buffer).pts is None
            &&& voice.gated(buffer).duration is None
        },
        buffer.pts->0.ns <= voice.state.last_seen.ns + voice.settings.threshold.ns
            ==> voice.gated(buffer) == buffer,
{
}

/// A face that is seen later never silences audio that was heard without it,
/// and a higher threshold silences nothing either.
pub proof fn law_more_faces_more_audio(voice: VisualVoice, later: VisualVoice, pts: ClockTime)
    requires
        voice.state.last_seen.ns <= later.state.last_seen.ns,
        voice.settings.threshold.ns <= later.settings.threshold.ns,
        voice.hears(pts),
    ensures
        later.hears(pts),
{
}

/// What is passed on for audio: itself up to the threshold after a face was
/// last seen, and as many zeros after that.
pub proof fn law_audio_sink_chain(
    voice: &VisualVoice,
    buffer: Buffer,
    result: Result<Buffer, FlowError>,
)
    requires
        call_ensures(VisualVoice::audio_sink_chain, (voice, buffer), result),
    ensures
        result is Ok <==> buffer.pts is Some,
        result is Err ==> result->Err_0 == FlowError::Error,
        result is Ok ==> {
            let out = result->Ok_0;
            let end = voice.state.last_seen.ns + voice.settings.threshold.ns;
            &&& out.data@.len() == buffer.data@.len()
            &&& buffer.pts->0.ns <= end ==> out.pts == buffer.pts && out.duration == buffer.duration
                && out.data@ == buffer.data@
            &&& buffer.pts->0.ns > end ==> out.pts is None && out.duration is None && forall|i: int|
                0 <= i < out.data@.len() ==> (#[trigger] out.data@[i]) == 0
        },
{
    if result is Ok {
        law_unseen_is_not_heard(*voice, buffer@);
        let out = result->Ok_0;
        assert(out@ == voice.gated(buffer@));
        assert forall|i: int| 0 <= i < out.data@.len() && buffer.pts->0.ns
            > voice.state.last_seen.ns + voice.settings.threshold.ns implies (
        #[trigger] out.data@[i]) == 0 by {
            assert(voice.gated(buffer@).data[i] == 0);
        }
    }
}

/// A list with a face in it is a face seen now; one without leaves it at when
/// one was seen before.
pub proof fn law_face_sink_chain(voice: &mut VisualVoice, data: &[u8], now: Option<ClockTime>)
    requires
        starts_with_tracks(data@),
        number_at(data@, 0) > 0 ==> now is Some,
        call_ensures(VisualVoice::face_sink_chain, (voice, data, now), ()),
    ensures
        number_in(data@.subrange(0, 8)) > 0 ==> final(voice).state.last_seen == now->0,
        number_in(data@.subrange(0, 8)) == 0 ==> final(voice).state.last_seen == old(
            voice).state.last_seen,
        final(voice).settings.threshold == old(voice).settings.threshold,
{
}

} // verus!
