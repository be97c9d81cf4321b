//! The output side of a session: received audio waits here until it is due.

use std::collections::VecDeque;
use vstd::prelude::*;
use vstd::slice::{slice_subrange, slice_to_vec};

use crate::clock::{later, ClockTime, NS_PER_MS};
use crate::media::{buffer_views, Buffer, BufferView, ErrorMessage};
use crate::realtime::audio::{
    all_bytes, audio_buffers, audio_caps, audio_length_ns, base64_decode, base64_decoded,
    calculate_audio_length_ms, law_audio_buffers, law_audio_pieces, lemma_audio_length_ms,
    session_audio, AudioCaps,
    CHUNK_SIZE, GRANULARITY_MS,
};
use crate::realtime::executor::{object_members, Executor, FunctionCall};
use crate::realtime::server_event::{ResponseOutputItem, ServerEvent};
use crate::text::{opt_text, same_text};

verus! {

/// The segment that the output is in: its time, and how far it has come.
#[derive(Debug, Clone, Copy)]
pub struct OutSegment {
    pub time: Option<ClockTime>,
    pub position: Option<ClockTime>,
}

/// What an output pad remembers.
#[derive(Debug)]
pub struct RealtimeSrcPadState {
    pub buffers: VecDeque<Buffer>,
    pub send_eos: bool,
    pub out_segment: OutSegment,
    pub seqnum: u32,
    pub last_buffer_rtime: Option<ClockTime>,
    pub current_item_id: Option<String>,
    pub executor: Executor,
}

impl RealtimeSrcPadState {
    /// What the waiting buffers hold, first to go first.
    pub open spec fn queue(self) -> Seq<BufferView> {
        buffer_views(self.buffers@)
    }

    /// Whether every waiting buffer has a start, a duration and an end.
    pub open spec fn wf(self) -> bool {
        forall|i: int| 0 <= i < self.queue().len() ==> (#[trigger] self.queue()[i]).stamped()
    }

    /// Whether two states agree in all but the waiting buffers and the time
    /// the last of them ends.
    pub open spec fn same_but_queue(self, other: RealtimeSrcPadState) -> bool {
        &&& self.send_eos == other.send_eos
        &&& self.out_segment == other.out_segment
        &&& self.seqnum == other.seqnum
        &&& self.current_item_id == other.current_item_id
        &&& self.executor == other.executor
    }

    /// Whether two states agree in all but the output segment.
    pub open spec fn same_but_segment(self, other: RealtimeSrcPadState) -> bool {
        &&& self.queue() == other.queue()
        &&& self.send_eos == other.send_eos
        &&& self.seqnum == other.seqnum
        &&& self.last_buffer_rtime == other.last_buffer_rtime
        &&& self.current_item_id == other.current_item_id
        &&& self.executor == other.executor
    }

    /// The state of a new pad, whose events carry `seqnum`.
    pub fn new(seqnum: u32) -> (r: RealtimeSrcPadState)
        ensures
            r.wf(),
            r.queue() == Seq::<BufferView>::empty(),
            !r.send_eos,
            r.out_segment.time == Some(ClockTime { ns: 0 }),
            r.out_segment.position == Some(ClockTime { ns: 0 }),
            r.seqnum == seqnum,
            r.last_buffer_rtime is None,
            r.current_item_id is None,
            !r.executor.connected,
    {
        let r = RealtimeSrcPadState {
            buffers: VecDeque::new(),
            send_eos: false,
            out_segment: OutSegment {
                time: Some(ClockTime::zero()),
                position: Some(ClockTime::zero()),
            },
            seqnum,
            last_buffer_rtime: None,
            current_item_id: None,
            executor: Executor::default(),
        };
        assert(r.queue() =~= Seq::<BufferView>::empty());
        r
    }

    /// Puts a buffer behind those that wait, and takes note of when it ends.
    pub fn push_buffer(&mut self, buf: Buffer)
        requires
            buf.pts is Some && buf.duration is Some ==> buf@.stamped(),
        ensures
            final(self).queue() == old(self).queue().push(buf@),
            final(self).last_buffer_rtime == if buf.pts is Some && buf.duration is Some {
                Some(buf@.end())
            } else {
                None
            },
            final(self).same_but_queue(*old(self)),
            old(self).wf() && buf@.stamped() ==> final(self).wf(),
    {
        self.last_buffer_rtime = match (buf.pts, buf.duration) {
            (Some(a), Some(b)) => Some(a.plus(b)),
            _ => None,
        };
        self.buffers.push_back(buf);
        assert(self.queue() =~= old(self).queue().push(buf@));
    }

    /// Drops all waiting buffers and the response that they belong to.
    pub fn reset_buffers(&mut self)
        ensures
            final(self).queue() == Seq::<BufferView>::empty(),
            final(self).wf(),
            final(self).current_item_id is None,
            final(self).last_buffer_rtime is None,
            final(self).send_eos == old(self).send_eos,
            final(self).out_segment == old(self).out_segment,
            final(self).seqnum == old(self).seqnum,
            final(self).executor == old(self).executor,
    {
        self.buffers.clear();
        self.current_item_id = None;
        self.last_buffer_rtime = None;
        assert(self.queue() =~= Seq::<BufferView>::empty());
    }

    /// Starts the output over in a new segment: at position zero, under a new
    /// sequence number.
    pub fn start_segment(&mut self, time: Option<ClockTime>, seqnum: u32)
        ensures
            final(self).out_segment.time == time,
            final(self).out_segment.position == Some(ClockTime { ns: 0 }),
            final(self).seqnum == seqnum,
            final(self).queue() == old(self).queue(),
            final(self).send_eos == old(self).send_eos,
            final(self).last_buffer_rtime == old(self).last_buffer_rtime,
            final(self).current_item_id == old(self).current_item_id,
            final(self).executor == old(self).executor,
    {
        self.out_segment = OutSegment { time, position: Some(ClockTime::zero()) };
        self.seqnum = seqnum;
    }
}

/// An event that a pad sends ahead of its buffers.
#[derive(Debug)]
pub enum PadEvent {
    StreamStart { stream_id: String, seqnum: u32 },
    Caps { caps: AudioCaps, seqnum: u32 },
    Segment { segment: OutSegment, seqnum: u32 },
}

/// What a [`PadEvent`] holds.
pub enum PadEventView {
    StreamStart { stream_id: Seq<char>, seqnum: u32 },
    Caps { caps: AudioCaps, seqnum: u32 },
    Segment { segment: OutSegment, seqnum: u32 },
}

impl View for PadEvent {
    type V = PadEventView;

    open spec fn view(&self) -> PadEventView {
        match *self {
            PadEvent::StreamStart { stream_id, seqnum } => PadEventView::StreamStart {
                stream_id: stream_id@,
                seqnum,
            },
            PadEvent::Caps { caps, seqnum } => PadEventView::Caps { caps, seqnum },
            PadEvent::Segment { segment, seqnum } => PadEventView::Segment { segment, seqnum },
        }
    }
}

/// The item in a row of its own if it is wanted, and an empty row otherwise.
pub open spec fn only_if<T>(wanted: bool, item: T) -> Seq<T> {
    if wanted {
        seq![item]
    } else {
        Seq::empty()
    }
}

/// How far ahead of the clock a buffer is handed on, in nanoseconds.
pub open spec fn horizon(buffer_time_ms: u32) -> int {
    (GRANULARITY_MS + buffer_time_ms) * NS_PER_MS
}

/// Whether a buffer is due: it starts less than the horizon after `now`.
pub open spec fn due(buffer: BufferView, now: ClockTime, buffer_time_ms: u32) -> bool {
    buffer.pts->0.ns < now.ns + horizon(buffer_time_ms)
}

/// How many buffers at the head of the queue are due.
pub open spec fn due_count(queue: Seq<BufferView>, now: ClockTime, buffer_time_ms: u32) -> nat
    decreases queue.len(),
{
    if queue.len() > 0 && due(queue[0], now, buffer_time_ms) {
        1 + due_count(queue.drop_first(), now, buffer_time_ms)
    } else {
        0
    }
}

/// A buffer without the part that lies before the position: it starts there
/// instead, and lasts as much less.
pub open spec fn fitted(buffer: BufferView, position: Option<ClockTime>) -> BufferView {
    match position {
        Some(position) if buffer.pts->0.ns < position.ns => BufferView {
            pts: Some(position),
            duration: Some(
                ClockTime {
                    ns: if buffer.end().ns > position.ns {
                        (buffer.end().ns - position.ns) as u64
                    } else {
                        0
                    },
                },
            ),
            data: buffer.data,
        },
        _ => buffer,
    }
}

/// The buffers, each without the part that lies before the position.
pub open spec fn all_fitted(buffers: Seq<BufferView>, position: Option<ClockTime>) -> Seq<
    BufferView,
> {
    buffers.map_values(|b: BufferView| fitted(b, position))
}

/// The position after the buffers were handed on: the end of the last one.
pub open spec fn position_after(items: Seq<BufferView>, position: Option<ClockTime>) -> Option<
    ClockTime,
> {
    if items.len() > 0 {
        Some(items.last().end())
    } else {
        position
    }
}

/// The position that the output moves to when it has come to `reached`: one
/// step past the clock where it is too far behind, and `reached` otherwise.
pub open spec fn caught_up(reached: ClockTime, now: ClockTime, buffer_time_ms: u32) -> ClockTime {
    let step = GRANULARITY_MS * NS_PER_MS;
    if now.ns >= reached.ns && now.ns - reached.ns + step > buffer_time_ms * NS_PER_MS {
        ClockTime { ns: (now.ns + step) as u64 }
    } else {
        reached
    }
}

/// Whether the position that the output moves to can be told at all.
pub open spec fn can_catch_up(reached: ClockTime, now: ClockTime, buffer_time_ms: u32) -> bool {
    let step = GRANULARITY_MS * NS_PER_MS;
    now.ns >= reached.ns ==> {
        &&& now.ns - reached.ns + step <= u64::MAX
        &&& now.ns - reached.ns + step > buffer_time_ms * NS_PER_MS ==> now.ns + step <= u64::MAX
    }
}

/// Whether the position that the output moves to can be told at all.
pub fn is_in_reach(reached: ClockTime, now: ClockTime, buffer_time_ms: u32) -> (r: bool)
    ensures
        r == can_catch_up(reached, now, buffer_time_ms),
{
    let step: u64 = GRANULARITY_MS as u64 * NS_PER_MS;
    if now.ns < reached.ns {
        return true;
    }
    let behind: u64 = now.ns - reached.ns;
    if behind > u64::MAX - step {
        return false;
    }
    behind + step <= buffer_time_ms as u64 * NS_PER_MS || now.ns <= u64::MAX - step
}

/// What is to be handed on in one turn.
#[derive(Debug)]
pub struct Turn {
    /// Whether the stream has ended: then nothing but its end is sent.
    pub send_eos: bool,
    /// The sequence number of the end of the stream.
    pub seqnum: u32,
    /// The buffers to hand on, in order.
    pub items: Vec<Buffer>,
    /// The position once they were all handed on.
    pub last_position: Option<ClockTime>,
}

/// What became of received audio.
#[derive(Debug, Clone, Copy, PartialEq, Eq, Structural)]
pub enum Enqueued {
    /// It waits to be handed on.
    Queued,
    /// There is no clock to place it by; it is dropped.
    NoClock,
    /// The text is not base64; it is dropped.
    NotBase64,
    /// It would end after the end of time; nothing was done.
    OutOfRange,
}

/// An output pad.
#[derive(Debug)]
pub struct RealtimeSrcPad {
    pub state: RealtimeSrcPadState,
}

impl RealtimeSrcPad {
    /// The time that audio received at `now` starts at: behind what waits
    /// already, and not in the past.
    pub open spec fn audio_start(self, now: ClockTime) -> ClockTime {
        match self.state.last_buffer_rtime {
            Some(last) => later(now, last),
            None => now,
        }
    }

    /// Whether `size` bytes received at `now` end before the end of time.
    pub open spec fn in_range(self, now: ClockTime, size: nat) -> bool {
        self.audio_start(now).ns + audio_length_ns(size) <= u64::MAX
    }

    /// Whether `after` is what `before` becomes when audio is received as
    /// base64, and `outcome` what became of the audio.
    pub open spec fn audio_taken(
        before: RealtimeSrcPad,
        after: RealtimeSrcPad,
        now: Option<ClockTime>,
        text: Seq<char>,
        outcome: Enqueued,
    ) -> bool {
        match (now, base64_decoded(text)) {
            (None, _) => outcome == Enqueued::NoClock && after == before,
            (Some(_), None) => outcome == Enqueued::NotBase64 && after == before,
            (Some(now), Some(data)) => if before.in_range(now, data.len()) {
                &&& outcome == Enqueued::Queued
                &&& after.state.queue() == before.state.queue() + audio_buffers(
                    data,
                    before.audio_start(now).ns as int,
                )
                &&& after.state.last_buffer_rtime == if data.len() == 0 {
                    before.state.last_buffer_rtime
                } else {
                    Some(
                        ClockTime {
                            ns: (before.audio_start(now).ns + audio_length_ns(data.len())) as u64,
                        },
                    )
                }
                &&& after.state.same_but_queue(before.state)
            } else {
                outcome == Enqueued::OutOfRange && after == before
            },
        }
    }

    /// The events that have to precede the next buffer, in order: each of
    /// the three that was not sent yet.
    pub open spec fn events_due(
        self,
        name: Seq<char>,
        has_stream_start: bool,
        has_caps: bool,
        has_segment: bool,
    ) -> Seq<PadEventView> {
        let seqnum = self.state.seqnum;
        only_if(
            !has_stream_start,
            PadEventView::StreamStart { stream_id: "audio_"@ + name, seqnum },
        ) + only_if(
            !has_caps,
            PadEventView::Caps { caps: session_audio(), seqnum },
        ) + only_if(
            !has_segment,
            PadEventView::Segment { segment: self.state.out_segment, seqnum },
        )
    }

    /// A new pad, whose events carry `seqnum`.
    pub fn new(seqnum: u32) -> (r: RealtimeSrcPad)
        ensures
            r.state.wf(),
            r.state.queue() == Seq::<BufferView>::empty(),
            !r.state.send_eos,
            r.state.out_segment.time == Some(ClockTime { ns: 0 }),
            r.state.out_segment.position == Some(ClockTime { ns: 0 }),
            r.state.seqnum == seqnum,
            r.state.last_buffer_rtime is None,
            r.state.current_item_id is None,
            !r.state.executor.connected,
    {
        RealtimeSrcPad { state: RealtimeSrcPadState::new(seqnum) }
    }

    /// The start of a turn of the output: the events to send ahead of the
    /// buffers, given the pad's name and which events it has sent already.
    /// Without a clock there is nothing to do.
    pub fn dequeue_events(
        &self,
        now: Option<ClockTime>,
        name: &str,
        has_stream_start: bool,
        has_caps: bool,
        has_segment: bool,
    ) -> (r: Option<Vec<PadEvent>>)
        ensures
            match r {
                Some(events) => {
                    &&& now is Some
                    &&& events@.map_values(|e: PadEvent| e@) == self.events_due(
                        name@,
                        has_stream_start,
                        has_caps,
                        has_segment,
                    )
                },
                None => now is None,
            },
    {
        if now.is_none() {
            return None;
        }
        let mut events: Vec<PadEvent> = Vec::new();
        let seqnum: u32 = self.state.seqnum;
        if !has_stream_start {
            let mut stream_id: String = "audio_".to_string();
            stream_id.append(name);
            events.push(PadEvent::StreamStart { stream_id, seqnum });
        }
        if !has_caps {
            events.push(PadEvent::Caps { caps: audio_caps(), seqnum });
        }
        if !has_segment {
            events.push(PadEvent::Segment { segment: self.state.out_segment, seqnum });
        }
        assert(events@.map_values(|e: PadEvent| e@) =~= self.events_due(
            name@,
            has_stream_start,
            has_caps,
            has_segment,
        ));
        Some(events)
    }

    /// Takes the buffers that are due off the queue. Each starts at the
    /// output's position at the earliest.
    pub fn dequeue(&mut self, now: ClockTime, buffer_time_ms: u32) -> (r: Turn)
        requires
            old(self).state.wf(),
        ensures
            ({
                let queue = old(self).state.queue();
                let position = old(self).state.out_segment.position;
                let n = due_count(queue, now, buffer_time_ms) as int;
                &&& 0 <= n <= queue.len()
                &&& r.send_eos == (old(self).state.send_eos && queue.len() == 0)
                &&& r.seqnum == old(self).state.seqnum
                &&& buffer_views(r.items@) == all_fitted(queue.take(n), position)
                &&& r.last_position == position_after(buffer_views(r.items@), position)
                &&& final(self).state.queue() == queue.skip(n)
            }),
            final(self).state.wf(),
            final(self).state.same_but_queue(old(self).state),
            final(self).state.last_buffer_rtime == old(self).state.last_buffer_rtime,
    {
        let ghost queue = self.state.queue();
        let position: Option<ClockTime> = self.state.out_segment.position;
        let send_eos: bool = self.state.send_eos && self.state.buffers.len() == 0;
        let ahead: ClockTime = ClockTime::from_mseconds(
            GRANULARITY_MS as u64 + buffer_time_ms as u64,
        );
        let mut items: Vec<Buffer> = Vec::new();
        let mut last_position: Option<ClockTime> = position;
        let ghost mut n: int = 0;
        proof {
            assert(queue.skip(0) =~= queue);
            assert(buffer_views(items@) =~= all_fitted(queue.take(0), position));
        }
        while self.state.buffers.len() > 0 && self.state.buffers[0].pts.unwrap().saturating_sub(
            now,
        ).ns < ahead.ns
            invariant
                old(self).state.wf(),
                queue == old(self).state.queue(),
                position == old(self).state.out_segment.position,
                ahead.ns == horizon(buffer_time_ms),
                0 <= n <= queue.len(),
                self.state.queue() == queue.skip(n),
                self.state.wf(),
                self.state.same_but_queue(old(self).state),
                self.state.last_buffer_rtime == old(self).state.last_buffer_rtime,
                due_count(queue, now, buffer_time_ms) == n + due_count(
                    queue.skip(n),
                    now,
                    buffer_time_ms,
                ),
                buffer_views(items@) == all_fitted(queue.take(n), position),
                last_position == position_after(buffer_views(items@), position),
            decreases queue.len() - n,
        {
            let ghost before = self.state.queue();
            let ghost taken = items@;
            let buf = self.state.buffers.pop_front().unwrap();
            proof {
                assert(before[0] == buf@);
                assert(before[0].stamped());
                assert(self.state.queue() =~= before.drop_first());
                assert(queue.skip(n).drop_first() =~= queue.skip(n + 1));
                assert(queue.take(n + 1) =~= queue.take(n).push(buf@));
                assert forall|i: int| 0 <= i < self.state.queue().len() implies (
                #[trigger] self.state.queue()[i]).stamped() by {
                    assert(self.state.queue()[i] == before[i + 1]);
                }
            }
            let mut pts: ClockTime = buf.pts.unwrap();
            let mut duration: ClockTime = buf.duration.unwrap();
            if let Some(position) = position {
                if pts.ns < position.ns {
                    duration = duration.saturating_sub(position.saturating_sub(pts));
                    pts = position;
                }
            }
            let item = Buffer { pts: Some(pts), duration: Some(duration), data: buf.data };
            assert(item@ =~= fitted(before[0], position));
            last_position = Some(pts.plus(duration));
            items.push(item);
            proof {
                n = n + 1;
                assert(buffer_views(items@) =~= buffer_views(taken).push(item@));
                assert(all_fitted(queue.take(n), position) =~= all_fitted(
                    queue.take(n - 1),
                    position,
                ).push(item@));
            }
        }
        proof {
            if self.state.queue().len() > 0 {
                assert(self.state.queue()[0] == self.state.buffers@[0]@);
            }
            assert(due_count(queue.skip(n), now, buffer_time_ms) == 0);
        }
        Turn { send_eos, seqnum: self.state.seqnum, items, last_position }
    }

    /// The end of a turn in which all buffers were handed on: the output's
    /// position moves to where they end, or past the clock if that is too far
    /// behind. A turn in which a buffer was refused leaves the position as it
    /// is, and stops the output.
    pub fn finish_dequeue(
        &mut self,
        all_pushed: bool,
        last_position: Option<ClockTime>,
        now: ClockTime,
        buffer_time_ms: u32,
    ) -> (r: bool)
        requires
            match last_position {
                Some(reached) if all_pushed => can_catch_up(reached, now, buffer_time_ms),
                _ => true,
            },
        ensures
            r == all_pushed,
            final(self).state.same_but_segment(old(self).state),
            final(self).state.out_segment.time == old(self).state.out_segment.time,
            final(self).state.out_segment.position == match last_position {
                Some(reached) if all_pushed => Some(caught_up(reached, now, buffer_time_ms)),
                _ => old(self).state.out_segment.position,
            },
            old(self).state.wf() ==> final(self).state.wf(),
    {
        if !all_pushed {
            return false;
        }
        if let Some(reached) = last_position {
            let step: ClockTime = ClockTime::from_mseconds(GRANULARITY_MS as u64);
            let buffer_time: ClockTime = ClockTime::from_mseconds(buffer_time_ms as u64);
            let mut position: ClockTime = reached;
            if now.ns >= reached.ns {
                let behind: ClockTime = now.saturating_sub(reached).plus(step);
                if behind.ns > buffer_time.ns {
                    position = reached.plus(behind);
                }
            }
            self.state.out_segment = OutSegment {
                time: self.state.out_segment.time,
                position: Some(position),
            };
        }
        true
    }

    /// Queues audio received at `now`, in pieces, behind what waits already.
    pub fn queue_audio(&mut self, now: ClockTime, decoded: &Vec<u8>)
        requires
            old(self).state.wf(),
            old(self).in_range(now, decoded@.len()),
        ensures
            final(self).state.wf(),
            final(self).state.queue() == old(self).state.queue() + audio_buffers(
                decoded@,
                old(self).audio_start(now).ns as int,
            ),
            final(self).state.last_buffer_rtime == if decoded@.len() == 0 {
                old(self).state.last_buffer_rtime
            } else {
                Some(
                    ClockTime {
                        ns: (old(self).audio_start(now).ns + audio_length_ns(
                            decoded@.len(),
                        )) as u64,
                    },
                )
            },
            final(self).state.same_but_queue(old(self).state),
    {
        let mut start: ClockTime = match self.state.last_buffer_rtime {
            Some(last) => now.max(last),
            None => now,
        };
        let ghost first = start.ns as int;
        let ghost queue = self.state.queue();
        let ghost planned = queue + audio_buffers(decoded@, first);
        let mut at: usize = 0;
        proof {
            assert(decoded@.skip(0) =~= decoded@);
        }
        while at < decoded.len()
            invariant
                at <= decoded@.len(),
                self.state.wf(),
                self.state.same_but_queue(old(self).state),
                start.ns + audio_length_ns((decoded@.len() - at) as nat) == first
                    + audio_length_ns(decoded@.len()),
                first + audio_length_ns(decoded@.len()) <= u64::MAX,
                planned == self.state.queue() + audio_buffers(
                    decoded@.skip(at as int),
                    start.ns as int,
                ),
                self.state.last_buffer_rtime == if at == 0 {
                    old(self).state.last_buffer_rtime
                } else {
                    Some(start)
                },
            decreases decoded@.len() - at,
        {
            let left: usize = decoded.len() - at;
            let n: usize = if left < CHUNK_SIZE {
                left
            } else {
                CHUNK_SIZE
            };
            let ghost rest = decoded@.skip(at as int);
            let ghost before = self.state.queue();
            proof {
                lemma_audio_length_ms(left as nat);
                lemma_audio_length_ms(n as nat);
                lemma_audio_length_ms((left - n) as nat);
            }
            let duration: ClockTime = ClockTime::from_mseconds(calculate_audio_length_ms(n));
            let data: Vec<u8> = slice_to_vec(slice_subrange(decoded.as_slice(), at, at + n));
            let buf = Buffer { pts: Some(start), duration: Some(duration), data };
            proof {
                assert(rest.take(n as int) =~= data@);
                assert(rest.skip(n as int) =~= decoded@.skip(at + n));
                assert(buf@.stamped());
            }
            self.state.push_buffer(buf);
            start = start.plus(duration);
            at = at + n;
            proof {
                assert(before.push(buf@) + audio_buffers(decoded@.skip(at as int), start.ns as int)
                    =~= before + audio_buffers(rest, start.ns - duration.ns));
            }
        }
        proof {
            assert(decoded@.skip(at as int) =~= Seq::<u8>::empty());
            assert(self.state.queue() =~= planned);
        }
    }

    /// Queues audio received as base64. It is placed by the clock; without
    /// one, and where the text is not base64, it is dropped.
    pub fn enqueue_audio(&mut self, now: Option<ClockTime>, audio_delta: &str) -> (r: Enqueued)
        requires
            old(self).state.wf(),
        ensures
            final(self).state.wf(),
            Self::audio_taken(*old(self), *final(self), now, audio_delta@, r),
    {
        let now = match now {
            Some(now) => now,
            None => return Enqueued::NoClock,
        };
        match base64_decode(audio_delta) {
            Ok(decoded) => {
                let start: ClockTime = match self.state.last_buffer_rtime {
                    Some(last) => now.max(last),
                    None => now,
                };
                let lasts_ms: u64 = calculate_audio_length_ms(decoded.len());
                if lasts_ms > (u64::MAX - start.ns) / NS_PER_MS {
                    return Enqueued::OutOfRange;
                }
                self.queue_audio(now, &decoded);
                Enqueued::Queued
            },
            Err(_) => Enqueued::NotBase64,
        }
    }
}

/// What is left to do once an event of the server was taken in.
#[derive(Debug)]
pub enum PadAction {
    /// Nothing.
    Done,
    /// Audio came at a time that cannot be told.
    AudioOutOfRange,
    /// The executor has to be connected, at the address.
    ConnectExecutor(String),
    /// The executor has to be handed a function call.
    Execute(FunctionCall),
    /// The audio that was heard so far no longer counts.
    ForgetHeardAudio,
}

/// Whether an event can be taken in at all: the first item of a new response
/// comes by name, and the arguments of a function call can be searched.
pub open spec fn admissible(event: ServerEvent) -> bool {
    match event {
        ServerEvent::ResponseCreated { output } => output@.len() == 0 || output@[0] is ItemId,
        ServerEvent::ResponseFunctionCallArgumentsDone { name, arguments } =>
            FunctionCall::searchable(arguments@),
        _ => true,
    }
}

/// Whether an event can be taken in at all.
pub fn is_admissible(event: &ServerEvent) -> (r: bool)
    ensures
        r == admissible(*event),
{
    match event {
        ServerEvent::ResponseCreated { output } => {
            if output.len() == 0 {
                true
            } else {
                match &output[0] {
                    ResponseOutputItem::ItemId(_) => true,
                    ResponseOutputItem::Item => false,
                }
            }
        },
        ServerEvent::ResponseFunctionCallArgumentsDone { name: _, arguments } => {
            FunctionCall::is_searchable(arguments.as_str())
        },
        _ => true,
    }
}

impl RealtimeSrcPad {
    /// Whether `after` is what `before` becomes on an event of the server, and
    /// `action` what is left to do.
    pub open spec fn event_taken(
        before: RealtimeSrcPad,
        after: RealtimeSrcPad,
        event: ServerEvent,
        now: Option<ClockTime>,
        executor_addr: Option<String>,
        action: PadAction,
    ) -> bool {
        match event {
            ServerEvent::ResponseAudioDelta { item_id, delta } => if delta@.len() > 0 && opt_text(
                before.state.current_item_id,
            ) == Some(item_id@) {
                exists|outcome: Enqueued|
                    #![trigger Self::audio_taken(before, after, now, delta@, outcome)]
                    {
                        &&& Self::audio_taken(before, after, now, delta@, outcome)
                        &&& action == if outcome == Enqueued::OutOfRange {
                            PadAction::AudioOutOfRange
                        } else {
                            PadAction::Done
                        }
                    }
            } else {
                action == PadAction::Done && after == before
            },
            ServerEvent::ResponseCreated { output } => {
                &&& action == PadAction::Done
                &&& opt_text(after.state.current_item_id) == if output@.len() == 0 {
                    None
                } else {
                    Some(output@[0]->ItemId_0@)
                }
                &&& after.state == RealtimeSrcPadState {
                    current_item_id: after.state.current_item_id,
                    ..before.state
                }
            },
            ServerEvent::InputAudioBufferSpeechStopped => {
                action == PadAction::Done && Self::silenced(before, after)
            },
            ServerEvent::InputAudioBufferCommited => {
                action == PadAction::ForgetHeardAudio && Self::silenced(before, after)
            },
            ServerEvent::ResponseOutputItemAdded => {
                &&& after == before
                &&& match executor_addr {
                    Some(addr) if !before.state.executor.connected => {
                        action is ConnectExecutor && action->ConnectExecutor_0@ == addr@
                    },
                    _ => action == PadAction::Done,
                }
            },
            ServerEvent::ResponseFunctionCallArgumentsDone { name, arguments } => {
                &&& after == before
                &&& match FunctionCall::arguments_in(arguments@) {
                    Some(members) => {
                        &&& action is Execute
                        &&& action->Execute_0.name@ == name@
                        &&& object_members(action->Execute_0.arguments) == members
                    },
                    None => action == PadAction::Done,
                }
            },
            _ => action == PadAction::Done && after == before,
        }
    }

    /// Whether `after` is `before` without its waiting buffers and without the
    /// response they belong to.
    pub open spec fn silenced(before: RealtimeSrcPad, after: RealtimeSrcPad) -> bool {
        &&& after.state.queue() == Seq::<BufferView>::empty()
        &&& after.state.current_item_id is None
        &&& after.state.last_buffer_rtime is None
        &&& after.state.send_eos == before.state.send_eos
        &&& after.state.out_segment == before.state.out_segment
        &&& after.state.seqnum == before.state.seqnum
        &&& after.state.executor == before.state.executor
    }

    /// Takes in an event of the server. Audio counts only while its item is
    /// the current one; silence, and the end of what was said, drop what still
    /// waits to be heard.
    pub fn handle_event(
        &mut self,
        event: ServerEvent,
        now: Option<ClockTime>,
        executor_addr: &Option<String>,
    ) -> (r: PadAction)
        requires
            old(self).state.wf(),
            admissible(event),
        ensures
            final(self).state.wf(),
            Self::event_taken(*old(self), *final(self), event, now, *executor_addr, r),
    {
        match event {
            ServerEvent::ResponseAudioDelta { item_id, delta } => {
                let current: bool = match &self.state.current_item_id {
                    Some(id) => same_text(id.as_str(), item_id.as_str()),
                    None => false,
                };
                if !delta.as_str().is_empty() && current {
                    match self.enqueue_audio(now, delta.as_str()) {
                        Enqueued::OutOfRange => PadAction::AudioOutOfRange,
                        _ => PadAction::Done,
                    }
                } else {
                    PadAction::Done
                }
            },
            ServerEvent::ResponseCreated { output } => {
                let mut output = output;
                self.state.current_item_id = if output.len() == 0 {
                    None
                } else {
                    match output.swap_remove(0) {
                        ResponseOutputItem::ItemId(id) => Some(id),
                        ResponseOutputItem::Item => None,
                    }
                };
                assert(self.state.queue() == old(self).state.queue());
                PadAction::Done
            },
            ServerEvent::InputAudioBufferSpeechStopped => {
                self.state.reset_buffers();
                PadAction::Done
            },
            ServerEvent::InputAudioBufferCommited => {
                self.state.reset_buffers();
                PadAction::ForgetHeardAudio
            },
            ServerEvent::ResponseOutputItemAdded => {
                match self.state.executor.ensure_connection(executor_addr) {
                    Ok(Some(addr)) => PadAction::ConnectExecutor(addr),
                    _ => PadAction::Done,
                }
            },
            ServerEvent::ResponseFunctionCallArgumentsDone { name, arguments } => {
                match FunctionCall::from(name.as_str(), arguments.as_str()) {
                    Some(call) => PadAction::Execute(call),
                    None => PadAction::Done,
                }
            },
            _ => PadAction::Done,
        }
    }

    /// What follows when handing over a function call failed: the connection
    /// is forgotten, and has to be made again at the address returned. Without
    /// an address that fails.
    pub fn execute_failed(&mut self, executor_addr: &Option<String>) -> (r: Result<
        String,
        ErrorMessage,
    >)
        ensures
            final(self).state == (RealtimeSrcPadState {
                executor: Executor { connected: false },
                ..old(self).state
            }),
            match r {
                Ok(addr) => opt_text(*executor_addr) == Some(addr@),
                Err(e) => *executor_addr is None && e@ == "Addr is not set"@,
            },
    {
        self.state.executor.reset_connection();
        match self.state.executor.ensure_connection(executor_addr) {
            Ok(Some(addr)) => Ok(addr),
            Ok(None) => Err(ErrorMessage::new("Addr is not set")),
            Err(e) => Err(e),
        }
    }
}

/// A question about an output pad.
#[derive(Debug, Clone, Copy, PartialEq, Eq, Structural)]
pub enum Query {
    /// How far the output has come, in time or in another format.
    Position { in_time: bool },
    Other,
}

/// The answer to a [`Query`].
#[derive(Debug, Clone, Copy, PartialEq, Eq, Structural)]
pub enum QueryAnswer {
    /// The position in the segment, to be told as running time.
    Position(Option<ClockTime>),
    Refused,
    /// As any pad answers it.
    Default,
}

/// How long the tone that greets a new connection is said to last, in
/// milliseconds.
pub const TONE_MS: u64 = 100;

impl RealtimeSrcPad {
    /// Answers a question.
    pub fn src_query(&self, query: Query) -> (r: QueryAnswer)
        ensures
            r == match query {
                Query::Position { in_time: true } => QueryAnswer::Position(
                    self.state.out_segment.position,
                ),
                Query::Position { in_time: false } => QueryAnswer::Refused,
                Query::Other => QueryAnswer::Default,
            },
    {
        match query {
            Query::Position { in_time: true } => QueryAnswer::Position(
                self.state.out_segment.position,
            ),
            Query::Position { in_time: false } => QueryAnswer::Refused,
            Query::Other => QueryAnswer::Default,
        }
    }

    /// Queues the tone that greets a new connection. It starts at time zero,
    /// so it is due at once.
    pub fn greet(&mut self, tone: Vec<u8>)
        requires
            old(self).state.wf(),
        ensures
            final(self).state.wf(),
            final(self).state.queue() == old(self).state.queue().push(
                BufferView {
                    pts: Some(ClockTime { ns: 0 }),
                    duration: Some(ClockTime { ns: (TONE_MS * NS_PER_MS) as u64 }),
                    data: tone@,
                },
            ),
            final(self).state.last_buffer_rtime == Some(
                ClockTime { ns: (TONE_MS * NS_PER_MS) as u64 },
            ),
            final(self).state.same_but_queue(old(self).state),
    {
        let buf = Buffer {
            pts: Some(ClockTime::zero()),
            duration: Some(ClockTime::from_mseconds(TONE_MS)),
            data: tone,
        };
        self.state.push_buffer(buf);
    }
}

/// Once the speaker has fallen silent, no audio that was received before is
/// handed on, and none that comes for the response it belongs to is queued.
pub proof fn law_silence_drops_the_response(
    before: RealtimeSrcPad,
    silent: RealtimeSrcPad,
    after: RealtimeSrcPad,
    item_id: String,
    delta: String,
    now: Option<ClockTime>,
    executor_addr: Option<String>,
    action: PadAction,
)
    requires
        RealtimeSrcPad::silenced(before, silent),
        RealtimeSrcPad::event_taken(
            silent,
            after,
            ServerEvent::ResponseAudioDelta { item_id, delta },
            now,
            executor_addr,
            action,
        ),
    ensures
        after.state.queue() == Seq::<BufferView>::empty(),
{
}

/// The output's position never moves backwards in a turn: no buffer is handed
/// on that starts before it, and where the turn ends is no earlier.
pub proof fn law_position_is_monotone(
    queue: Seq<BufferView>,
    position: ClockTime,
    now: ClockTime,
    buffer_time_ms: u32,
)
    requires
        forall|i: int| 0 <= i < queue.len() ==> (#[trigger] queue[i]).stamped(),
    ensures
        ({
            let n = due_count(queue, now, buffer_time_ms) as int;
            let items = all_fitted(queue.take(n), Some(position));
            let reached = position_after(items, Some(position))->0;
            &&& forall|i: int|
                0 <= i < items.len() ==> position.ns <= (#[trigger] items[i]).pts->0.ns
                    && items[i].stamped()
            &&& position.ns <= reached.ns
            &&& can_catch_up(reached, now, buffer_time_ms) ==> reached.ns <= caught_up(
                reached,
                now,
                buffer_time_ms,
            ).ns
        }),
{
    law_due_prefix(queue, now, buffer_time_ms);
    let n = due_count(queue, now, buffer_time_ms) as int;
    let items = all_fitted(queue.take(n), Some(position));
    assert forall|i: int| 0 <= i < items.len() implies {
        &&& position.ns <= (#[trigger] items[i]).pts->0.ns
        &&& items[i].stamped()
    } by {
        assert(queue[i].stamped());
        assert(items[i] == fitted(queue[i], Some(position)));
    }
    if items.len() > 0 {
        assert(items.last() == items[items.len() - 1]);
    }
}

/// No audio is lost, made up or put out of order in a turn: the bytes that are
/// handed on, followed by those that still wait, are the bytes that waited
/// before.
pub proof fn law_turn_keeps_audio(
    queue: Seq<BufferView>,
    position: Option<ClockTime>,
    now: ClockTime,
    buffer_time_ms: u32,
)
    ensures
        ({
            let n = due_count(queue, now, buffer_time_ms) as int;
            all_bytes(all_fitted(queue.take(n), position)) + all_bytes(queue.skip(n)) == all_bytes(
                queue,
            )
        }),
{
    law_due_prefix(queue, now, buffer_time_ms);
    let n = due_count(queue, now, buffer_time_ms) as int;
    lemma_fitted_bytes(queue.take(n), position);
    lemma_all_bytes_append(queue.take(n), queue.skip(n));
    assert(queue.take(n) + queue.skip(n) =~= queue);
}

/// Audio that is queued goes, all of it, behind what waits already.
pub proof fn law_queued_audio_is_kept(queue: Seq<BufferView>, data: Seq<u8>, start: int)
    requires
        0 <= start,
        start + audio_length_ns(data.len()) <= u64::MAX,
    ensures
        all_bytes(queue + audio_buffers(data, start)) == all_bytes(queue) + data,
{
    law_audio_buffers(data, start);
    lemma_all_bytes_append(queue, audio_buffers(data, start));
}

proof fn lemma_all_bytes_append(a: Seq<BufferView>, b: Seq<BufferView>)
    ensures
        all_bytes(a + b) == all_bytes(a) + all_bytes(b),
    decreases a.len(),
{
    if a.len() == 0 {
        assert(a + b =~= b);
        assert(all_bytes(a) + all_bytes(b) =~= all_bytes(b));
    } else {
        lemma_all_bytes_append(a.drop_first(), b);
        assert((a + b).drop_first() =~= a.drop_first() + b);
        assert(all_bytes(a + b) =~= all_bytes(a) + all_bytes(b));
    }
}

proof fn lemma_fitted_bytes(buffers: Seq<BufferView>, position: Option<ClockTime>)
    ensures
        all_bytes(all_fitted(buffers, position)) == all_bytes(buffers),
    decreases buffers.len(),
{
    if buffers.len() > 0 {
        lemma_fitted_bytes(buffers.drop_first(), position);
        assert(all_fitted(buffers, position).drop_first() =~= all_fitted(
            buffers.drop_first(),
            position,
        ));
    }
}

/// A turn takes exactly the due buffers at the head of the queue: all that it
/// takes are due, and the one after them is not.
pub proof fn law_due_prefix(queue: Seq<BufferView>, now: ClockTime, buffer_time_ms: u32)
    ensures
        ({
            let n = due_count(queue, now, buffer_time_ms) as int;
            &&& 0 <= n <= queue.len()
            &&& forall|i: int| 0 <= i < n ==> due(#[trigger] queue[i], now, buffer_time_ms)
            &&& n < queue.len() ==> !due(queue[n], now, buffer_time_ms)
        }),
    decreases queue.len(),
{
    if queue.len() > 0 && due(queue[0], now, buffer_time_ms) {
        let rest = queue.drop_first();
        law_due_prefix(rest, now, buffer_time_ms);
        let n = due_count(queue, now, buffer_time_ms) as int;
        assert forall|i: int| 0 <= i < n implies due(#[trigger] queue[i], now, buffer_time_ms) by {
            if i > 0 {
                assert(queue[i] == rest[i - 1]);
            }
        }
        if n < queue.len() {
            assert(queue[n] == rest[n - 1]);
        }
    }
}

/// A turn takes what starts less than 100 milliseconds and the buffer time
/// after now, up to the first that starts later: in particular whatever the
/// clock has passed.
pub proof fn law_turn_takes_what_is_in_time(
    queue: Seq<BufferView>,
    now: ClockTime,
    buffer_time_ms: u32,
)
    ensures
        ({
            let n = due_count(queue, now, buffer_time_ms) as int;
            let end = now.ns + (100 + buffer_time_ms) * 1_000_000;
            &&& 0 <= n <= queue.len()
            &&& forall|i: int| 0 <= i < n ==> (#[trigger] queue[i]).pts->0.ns < end
            &&& n < queue.len() ==> queue[n].pts->0.ns >= end
            &&& queue.len() > 0 && queue[0].pts->0.ns < end ==> n >= 1
            &&& queue.len() > 0 && queue[0].pts->0.ns <= now.ns ==> n >= 1
        }),
    decreases queue.len(),
{
    if queue.len() > 0 && due(queue[0], now, buffer_time_ms) {
        let rest = queue.drop_first();
        law_turn_takes_what_is_in_time(rest, now, buffer_time_ms);
        let n = due_count(queue, now, buffer_time_ms) as int;
        let end = now.ns + (100 + buffer_time_ms) * 1_000_000;
        assert forall|i: int| 0 <= i < n implies (#[trigger] queue[i]).pts->0.ns < end by {
            if i > 0 {
                assert(queue[i] == rest[i - 1]);
            }
        }
        if n < queue.len() {
            assert(queue[n] == rest[n - 1]);
        }
    }
}

/// What is due stays due as the clock advances, and with more time to buffer.
pub proof fn law_due_stays_due(
    queue: Seq<BufferView>,
    now: ClockTime,
    later: ClockTime,
    buffer_time_ms: u32,
    longer_ms: u32,
)
    requires
        now.ns <= later.ns,
        buffer_time_ms <= longer_ms,
    ensures
        due_count(queue, now, buffer_time_ms) <= due_count(queue, later, longer_ms),
        forall|b: BufferView| #[trigger]
            due(b, now, buffer_time_ms) ==> due(b, later, longer_ms),
    decreases queue.len(),
{
    if queue.len() > 0 && due(queue[0], now, buffer_time_ms) {
        law_due_stays_due(queue.drop_first(), now, later, buffer_time_ms, longer_ms);
    }
}

/// A buffer that is handed on keeps its bytes and its end, starts no earlier
/// than the position, and no later than it has to; what lies before the
/// position altogether is left with no duration.
pub proof fn law_fitted_buffers(buffer: BufferView, position: ClockTime)
    requires
        buffer.pts is Some,
        buffer.duration is Some,
        buffer.pts->0.ns + buffer.duration->0.ns <= u64::MAX,
    ensures
        ({
            let out = fitted(buffer, Some(position));
            let start = buffer.pts->0.ns;
            let end = start + buffer.duration->0.ns;
            &&& out.data == buffer.data
            &&& out.pts is Some
            &&& out.duration is Some
            &&& out.pts->0.ns == if position.ns > start {
                position.ns
            } else {
                start
            }
            &&& out.pts->0.ns + out.duration->0.ns == if position.ns > end {
                position.ns as int
            } else {
                end
            }
        }),
        fitted(buffer, None) == buffer,
{
}

/// The buffers of a turn are handed on one for one and in order, and the turn
/// comes to where the last of them ends; without any it stays where it was.
pub proof fn law_turn_hands_on_in_order(
    buffers: Seq<BufferView>,
    position: Option<ClockTime>,
    i: int,
)
    ensures
        all_fitted(buffers, position).len() == buffers.len(),
        0 <= i < buffers.len() ==> all_fitted(buffers, position)[i] == fitted(buffers[i], position),
        buffers.len() == 0 ==> position_after(buffers, position) == position,
        buffers.len() > 0 && buffers[buffers.len() - 1].duration is Some
            && buffers[buffers.len() - 1].pts->0.ns + buffers[buffers.len() - 1].duration->0.ns
            <= u64::MAX ==> {
            &&& position_after(buffers, position) is Some
            &&& position_after(buffers, position)->0.ns == buffers[buffers.len() - 1].pts->0.ns
                + buffers[buffers.len() - 1].duration->0.ns
        },
{
}

/// The position is left where it was reached while it is ahead of the clock, or
/// behind by no more than the buffer time less 100 milliseconds; further
/// behind, it moves to 100 milliseconds past the clock.
pub proof fn law_position_catches_up(reached: ClockTime, now: ClockTime, buffer_time_ms: u32)
    requires
        now.ns + 100_000_000 <= u64::MAX,
    ensures
        can_catch_up(reached, now, buffer_time_ms),
        caught_up(reached, now, buffer_time_ms).ns == if now.ns < reached.ns || now.ns + 100_000_000
            <= reached.ns + 1_000_000 * buffer_time_ms {
            reached.ns as int
        } else {
            now.ns + 100_000_000
        },
{
}

/// The events that precede a pad's buffers are those of stream start, caps and
/// segment that it has not sent, in this order, under its sequence number.
pub proof fn law_events_ahead_of_buffers(
    pad: RealtimeSrcPad,
    name: Seq<char>,
    has_stream_start: bool,
    has_caps: bool,
    has_segment: bool,
)
    ensures
        ({
            let events = pad.events_due(name, has_stream_start, has_caps, has_segment);
            let starts: int = if has_stream_start {
                0
            } else {
                1
            };
            let caps: int = if has_caps {
                0
            } else {
                1
            };
            let segments: int = if has_segment {
                0
            } else {
                1
            };
            &&& events.len() == starts + caps + segments
            &&& !has_stream_start ==> events[0] is StreamStart && events[0]->StreamStart_stream_id
                == "audio_"@ + name && events[0]->StreamStart_seqnum == pad.state.seqnum
            &&& !has_caps ==> events[starts] is Caps && events[starts]->caps.rate == 24000
                && events[starts]->caps.channels == 1 && events[starts]->Caps_seqnum
                == pad.state.seqnum
            &&& !has_segment ==> events[starts + caps] is Segment && events[starts + caps]->segment
                == pad.state.out_segment && events[starts + caps]->Segment_seqnum
                == pad.state.seqnum
        }),
{
}

/// Whether two states of a pad agree in all but the output segment, or in all
/// but the queue, is told by their parts.
pub proof fn law_what_stays_the_same(a: RealtimeSrcPadState, b: RealtimeSrcPadState)
    ensures
        a.same_but_queue(b) <==> {
            &&& a.send_eos == b.send_eos
            &&& a.out_segment.time == b.out_segment.time
            &&& a.out_segment.position == b.out_segment.position
            &&& a.seqnum == b.seqnum
            &&& a.current_item_id == b.current_item_id
            &&& a.executor.connected == b.executor.connected
        },
        a.same_but_segment(b) <==> {
            &&& buffer_views(a.buffers@) == buffer_views(b.buffers@)
            &&& a.send_eos == b.send_eos
            &&& a.seqnum == b.seqnum
            &&& a.last_buffer_rtime == b.last_buffer_rtime
            &&& a.current_item_id == b.current_item_id
            &&& a.executor.connected == b.executor.connected
        },
        a.wf() <==> forall|i: int|
            0 <= i < a.buffers@.len() ==> {
                &&& (#[trigger] a.buffers@[i]).pts is Some
                &&& a.buffers@[i].duration is Some
                &&& a.buffers@[i].pts->0.ns + a.buffers@[i].duration->0.ns <= u64::MAX
            },
{
    if a.wf() {
        assert forall|i: int| 0 <= i < a.buffers@.len() implies {
            &&& (#[trigger] a.buffers@[i]).pts is Some
            &&& a.buffers@[i].duration is Some
            &&& a.buffers@[i].pts->0.ns + a.buffers@[i].duration->0.ns <= u64::MAX
        } by {
            assert(a.queue()[i].stamped());
        }
    }
}

/// When received audio starts: at the clock, or where what was queued before
/// ends if that is later.
pub open spec fn follows(pad: RealtimeSrcPad, now: ClockTime) -> int {
    match pad.state.last_buffer_rtime {
        Some(last) if last.ns > now.ns => last.ns as int,
        _ => now.ns as int,
    }
}

/// Audio that is received with a clock is queued, all of it and in order,
/// behind what waits already: in pieces of 9600 bytes that start 200
/// milliseconds after each other, the first at the clock or where what was
/// queued before ends.
pub proof fn law_received_audio_is_queued(
    before: RealtimeSrcPad,
    after: RealtimeSrcPad,
    now: ClockTime,
    text: Seq<char>,
    data: Seq<u8>,
    outcome: Enqueued,
)
    requires
        RealtimeSrcPad::audio_taken(before, after, Some(now), text, outcome),
        base64_decoded(text) == Some(data),
        follows(before, now) + (data.len() / 48) * 1_000_000 <= u64::MAX,
    ensures
        outcome == Enqueued::Queued,
        after.state.queue().len() == before.state.queue().len() + (data.len() + 9599) / 9600,
        forall|i: int|
            0 <= i < before.state.queue().len() ==> #[trigger] after.state.queue()[i]
                == before.state.queue()[i],
        forall|k: int|
            before.state.queue().len() <= k < after.state.queue().len() ==> {
                let i = k - before.state.queue().len();
                let from = 9600 * i;
                let to = if from + 9600 <= data.len() {
                    from + 9600
                } else {
                    data.len() as int
                };
                let piece = #[trigger] after.state.queue()[k];
                &&& piece.data == data.subrange(from, to)
                &&& piece.pts is Some && piece.pts->0.ns == follows(before, now) + 200_000_000 * i
                &&& piece.duration is Some && piece.duration->0.ns == ((to - from) / 48)
                    * 1_000_000
            },
        data.len() > 0 ==> after.state.last_buffer_rtime is Some
            && after.state.last_buffer_rtime->0.ns == follows(before, now) + (data.len() / 48)
            * 1_000_000,
        after.state.current_item_id == before.state.current_item_id,
        after.state.out_segment == before.state.out_segment,
        after.state.executor == before.state.executor,
{
    let start = follows(before, now);
    lemma_audio_length_ms(data.len());
    assert(before.audio_start(now).ns == start);
    law_audio_pieces(data, start);
    let old_len = before.state.queue().len() as int;
    let new = audio_buffers(data, start);
    assert forall|k: int| old_len <= k < after.state.queue().len() implies {
        let i = k - old_len;
        let from = 9600 * i;
        let to = if from + 9600 <= data.len() {
            from + 9600
        } else {
            data.len() as int
        };
        let piece = #[trigger] after.state.queue()[k];
        &&& piece.data == data.subrange(from, to)
        &&& piece.pts is Some && piece.pts->0.ns == start + 200_000_000 * i
        &&& piece.duration is Some && piece.duration->0.ns == ((to - from) / 48) * 1_000_000
    } by {
        assert(after.state.queue()[k] == new[k - old_len]);
    }
}

/// Audio that cannot be placed or read is dropped, and nothing else happens.
pub proof fn law_unusable_audio_is_dropped(
    before: RealtimeSrcPad,
    after: RealtimeSrcPad,
    now: Option<ClockTime>,
    text: Seq<char>,
    outcome: Enqueued,
)
    requires
        RealtimeSrcPad::audio_taken(before, after, now, text, outcome),
        now is None || base64_decoded(text) is None,
    ensures
        after == before,
        outcome == if now is None {
            Enqueued::NoClock
        } else {
            Enqueued::NotBase64
        },
{
}

/// The latest response is the one that is followed, whatever was followed
/// before: once it was created, its name is the current one, and its audio is
/// queued when it comes.
pub proof fn law_new_response_is_followed(
    before: RealtimeSrcPad,
    created: RealtimeSrcPad,
    after: RealtimeSrcPad,
    output: Vec<ResponseOutputItem>,
    item_id: String,
    delta: String,
    data: Seq<u8>,
    then: Option<ClockTime>,
    now: ClockTime,
    executor_addr: Option<String>,
    first: PadAction,
    second: PadAction,
)
    requires
        output@.len() > 0,
        output@[0] is ItemId,
        output@[0]->ItemId_0@ == item_id@,
        RealtimeSrcPad::event_taken(
            before,
            created,
            ServerEvent::ResponseCreated { output },
            then,
            executor_addr,
            first,
        ),
        RealtimeSrcPad::event_taken(
            created,
            after,
            ServerEvent::ResponseAudioDelta { item_id, delta },
            Some(now),
            executor_addr,
            second,
        ),
        delta@.len() > 0,
        base64_decoded(delta@) == Some(data),
        follows(before, now) + (data.len() / 48) * 1_000_000 <= u64::MAX,
    ensures
        created.state.current_item_id is Some,
        created.state.current_item_id->0@ == item_id@,
        created.state.queue() == before.state.queue(),
        created.state.last_buffer_rtime == before.state.last_buffer_rtime,
        created.state.out_segment == before.state.out_segment,
        created.state.send_eos == before.state.send_eos,
        created.state.executor == before.state.executor,
        first == PadAction::Done,
        second == PadAction::Done,
        after.state.queue().len() == before.state.queue().len() + (data.len() + 9599) / 9600,
        all_bytes(after.state.queue()) == all_bytes(before.state.queue()) + data,
        after.state.current_item_id == created.state.current_item_id,
{
    let outcome = choose|outcome: Enqueued|
        #![trigger RealtimeSrcPad::audio_taken(created, after, Some(now), delta@, outcome)]
        {
            &&& RealtimeSrcPad::audio_taken(created, after, Some(now), delta@, outcome)
            &&& second == if outcome == Enqueued::OutOfRange {
                PadAction::AudioOutOfRange
            } else {
                PadAction::Done
            }
        };
    law_received_audio_is_queued(created, after, now, delta@, data, outcome);
    lemma_audio_length_ms(data.len());
    law_queued_audio_is_kept(created.state.queue(), data, follows(before, now));
}

/// A response without items leaves none to be followed, and audio counts only
/// for the response that is followed: any other, and audio without content,
/// changes nothing.
pub proof fn law_other_audio_is_ignored(
    before: RealtimeSrcPad,
    after: RealtimeSrcPad,
    event: ServerEvent,
    now: Option<ClockTime>,
    executor_addr: Option<String>,
    action: PadAction,
)
    requires
        RealtimeSrcPad::event_taken(before, after, event, now, executor_addr, action),
    ensures
        event is ResponseCreated && event->output@.len() == 0
            ==> after.state.current_item_id is None && after.state.queue()
            == before.state.queue() && action == PadAction::Done,
        event is ResponseAudioDelta && (event->delta@.len() == 0
            || before.state.current_item_id is None || before.state.current_item_id->0@
            != event->item_id@) ==> after == before && action == PadAction::Done,
{
}

/// When the speaker falls silent, and when what was said is committed, all
/// waiting audio is dropped with the response that it belongs to; when it is
/// committed, the audio that was heard no longer counts either. The position,
/// the sequence number and the executor stay.
pub proof fn law_interruption_empties_the_queue(
    before: RealtimeSrcPad,
    after: RealtimeSrcPad,
    event: ServerEvent,
    now: Option<ClockTime>,
    executor_addr: Option<String>,
    action: PadAction,
)
    requires
        RealtimeSrcPad::event_taken(before, after, event, now, executor_addr, action),
        event is InputAudioBufferSpeechStopped || event is InputAudioBufferCommited,
    ensures
        after.state.buffers@.len() == 0,
        after.state.current_item_id is None,
        after.state.last_buffer_rtime is None,
        after.state.send_eos == before.state.send_eos,
        after.state.out_segment == before.state.out_segment,
        after.state.seqnum == before.state.seqnum,
        after.state.executor == before.state.executor,
        action is ForgetHeardAudio <==> event is InputAudioBufferCommited,
        action is Done <==> event is InputAudioBufferSpeechStopped,
{
    assert(after.state.queue().len() == after.state.buffers@.len());
}

/// A new item has the executor connected, at its address, if it has one and is
/// not connected; arguments that hold an object have its function called under
/// its name. Neither touches the pad, nor does any event that is about
/// something else.
pub proof fn law_executor_is_asked(
    before: RealtimeSrcPad,
    after: RealtimeSrcPad,
    event: ServerEvent,
    now: Option<ClockTime>,
    executor_addr: Option<String>,
    action: PadAction,
)
    requires
        RealtimeSrcPad::event_taken(before, after, event, now, executor_addr, action),
        !(event is ResponseAudioDelta),
        !(event is ResponseCreated),
        !(event is InputAudioBufferSpeechStopped),
        !(event is InputAudioBufferCommited),
    ensures
        after == before,
        action is ConnectExecutor <==> event is ResponseOutputItemAdded && executor_addr is Some
            && !before.state.executor.connected,
        action is ConnectExecutor ==> action->ConnectExecutor_0@ == executor_addr->0@,
        action is Execute <==> event is ResponseFunctionCallArgumentsDone
            && FunctionCall::arguments_in(event->arguments@) is Some,
        action is Execute ==> action->Execute_0.name@ == event->name@ && Some(
            object_members(action->Execute_0.arguments),
        ) == FunctionCall::arguments_in(event->arguments@),
        !(action is ConnectExecutor) && !(action is Execute) ==> action == PadAction::Done,
{
}

/// Only two events cannot be taken in: a new response whose first item does not
/// come by name, and arguments that cannot be searched.
pub proof fn law_admissible_events(event: ServerEvent)
    ensures
        !admissible(event) <==> {
            ||| event is ResponseCreated && event->output@.len() > 0 && !(event->output@[0]
                is ItemId)
            ||| event is ResponseFunctionCallArgumentsDone && !FunctionCall::searchable(
                event->arguments@,
            )
        },
{
}

/// A turn hands on exactly what starts less than 100 milliseconds and the
/// buffer time after now, up to the first that does not, bytes unchanged and
/// none before the position; the rest waits on as it was, and the turn comes to
/// where the last buffer ends. The stream ends when it was to and nothing
/// waits.
pub proof fn law_dequeue(
    pad: &mut RealtimeSrcPad,
    now: ClockTime,
    buffer_time_ms: u32,
    turn: Turn,
)
    requires
        old(pad).state.wf(),
        call_ensures(RealtimeSrcPad::dequeue, (pad, now, buffer_time_ms), turn),
    ensures
        ({
            let queue = old(pad).state.buffers@;
            let left = final(pad).state.buffers@;
            let items = turn.items@;
            let position = old(pad).state.out_segment.position;
            let end = now.ns + (100 + buffer_time_ms) * 1_000_000;
            &&& items.len() + left.len() == queue.len()
            &&& queue.len() > 0 && queue[0].pts->0.ns < end ==> items.len() >= 1
            &&& left.len() > 0 ==> left[0].pts->0.ns >= end
            &&& forall|i: int|
                0 <= i < items.len() ==> {
                    let out = #[trigger] items[i];
                    let start = queue[i].pts->0.ns;
                    let stop = start + queue[i].duration->0.ns;
                    &&& start < end
                    &&& out.data@ == queue[i].data@
                    &&& out.pts is Some && out.duration is Some
                    &&& out.pts->0.ns == if position is Some && position->0.ns > start {
                        position->0.ns
                    } else {
                        start
                    }
                    &&& out.pts->0.ns + out.duration->0.ns == if position is Some && position->0.ns
                        > stop {
                        position->0.ns as int
                    } else {
                        stop
                    }
                }
            &&& forall|j: int|
                0 <= j < left.len() ==> (#[trigger] left[j])@ == queue[items.len() + j]@
            &&& items.len() == 0 ==> turn.last_position == position
            &&& items.len() > 0 ==> turn.last_position is Some && turn.last_position->0.ns
                == items.last().pts->0.ns + items.last().duration->0.ns
            &&& turn.send_eos <==> old(pad).state.send_eos && queue.len() == 0
            &&& turn.seqnum == old(pad).state.seqnum
        }),
        final(pad).state.out_segment == old(pad).state.out_segment,
        final(pad).state.current_item_id == old(pad).state.current_item_id,
        final(pad).state.last_buffer_rtime == old(pad).state.last_buffer_rtime,
        final(pad).state.executor == old(pad).state.executor,
{
    let queue = old(pad).state.buffers@;
    let views = old(pad).state.queue();
    let left = final(pad).state.buffers@;
    let items = turn.items@;
    let position = old(pad).state.out_segment.position;
    let n = due_count(views, now, buffer_time_ms) as int;
    let end = now.ns + (100 + buffer_time_ms) * 1_000_000;
    law_turn_takes_what_is_in_time(views, now, buffer_time_ms);
    let out_views = buffer_views(items);
    assert(out_views == all_fitted(views.take(n), position));
    assert(views.len() == queue.len());
    assert(out_views.len() == n && items.len() == n);
    assert(final(pad).state.queue() == views.skip(n));
    assert(final(pad).state.queue().len() == left.len());
    assert forall|i: int| 0 <= i < items.len() implies {
        let out = #[trigger] items[i];
        let start = queue[i].pts->0.ns;
        let stop = start + queue[i].duration->0.ns;
        &&& start < end
        &&& out.data@ == queue[i].data@
        &&& out.pts is Some && out.duration is Some
        &&& out.pts->0.ns == if position is Some && position->0.ns > start {
            position->0.ns
        } else {
            start
        }
        &&& out.pts->0.ns + out.duration->0.ns == if position is Some && position->0.ns > stop {
            position->0.ns as int
        } else {
            stop
        }
    } by {
        assert(views[i] == queue[i]@);
        assert(views[i].stamped());
        assert(out_views[i] == items[i]@);
        assert(out_views[i] == fitted(views[i], position));
        if position is Some {
            law_fitted_buffers(views[i], position->0);
        } else {
            law_fitted_buffers(views[i], now);
        }
    }
    assert forall|j: int| 0 <= j < left.len() implies (#[trigger] left[j])@ == queue[items.len()
        + j]@ by {
        assert(final(pad).state.queue()[j] == left[j]@);
        assert(views.skip(n)[j] == views[n + j]);
        assert(views[n + j] == queue[n + j]@);
    }
    if left.len() > 0 {
        assert(left[0]@ == queue[n]@);
        assert(views[n] == queue[n]@);
    }
    if queue.len() > 0 {
        assert(views[0] == queue[0]@);
    }
    if items.len() > 0 {
        assert(out_views[n - 1] == items[n - 1]@);
        assert(items[n - 1].pts->0.ns + items[n - 1].duration->0.ns <= u64::MAX) by {
            assert(views[n - 1] == queue[n - 1]@);
            assert(views[n - 1].stamped());
        }
    }
}

/// A turn in which everything was handed on moves the position: to where it
/// came, or to 100 milliseconds past the clock if that is further behind than
/// the buffer time allows. Any other leaves it, and fails.
pub proof fn law_finish_dequeue(
    pad: &mut RealtimeSrcPad,
    all_pushed: bool,
    last_position: Option<ClockTime>,
    now: ClockTime,
    buffer_time_ms: u32,
    worked: bool,
)
    requires
        now.ns + 100_000_000 <= u64::MAX,
        call_ensures(
            RealtimeSrcPad::finish_dequeue,
            (pad, all_pushed, last_position, now, buffer_time_ms),
            worked,
        ),
    ensures
        worked == all_pushed,
        !all_pushed || last_position is None ==> final(pad).state.out_segment.position == old(
            pad).state.out_segment.position,
        all_pushed && last_position is Some ==> {
            let reached = last_position->0.ns;
            &&& final(pad).state.out_segment.position is Some
            &&& final(pad).state.out_segment.position->0.ns == if now.ns < reached || now.ns
                + 100_000_000 <= reached + 1_000_000 * buffer_time_ms {
                reached as int
            } else {
                now.ns + 100_000_000
            }
        },
        final(pad).state.out_segment.time == old(pad).state.out_segment.time,
        final(pad).state.queue() == old(pad).state.queue(),
        final(pad).state.current_item_id == old(pad).state.current_item_id,
        final(pad).state.last_buffer_rtime == old(pad).state.last_buffer_rtime,
{
    if last_position is Some {
        law_position_catches_up(last_position->0, now, buffer_time_ms);
    }
}

/// A buffer that is queued waits behind all others, and what is received next
/// follows its end.
pub proof fn law_push_buffer(state: &mut RealtimeSrcPadState, buffer: Buffer)
    requires
        buffer.pts is Some,
        buffer.duration is Some,
        buffer.pts->0.ns + buffer.duration->0.ns <= u64::MAX,
        call_ensures(RealtimeSrcPadState::push_buffer, (state, buffer), ()),
    ensures
        final(state).buffers@.len() == old(state).buffers@.len() + 1,
        final(state).buffers@.last()@ == buffer@,
        forall|i: int|
            0 <= i < old(state).buffers@.len() ==> (#[trigger] final(state).buffers@[i])@ == old(
                state).buffers@[i]@,
        final(state).last_buffer_rtime is Some,
        final(state).last_buffer_rtime->0.ns == buffer.pts->0.ns + buffer.duration->0.ns,
        final(state).current_item_id == old(state).current_item_id,
        final(state).out_segment == old(state).out_segment,
{
    let before = old(state).queue();
    let after = final(state).queue();
    assert(after == before.push(buffer@));
    assert(after.len() == final(state).buffers@.len());
    assert(before.len() == old(state).buffers@.len());
    assert(after[before.len() as int] == final(state).buffers@[before.len() as int]@);
    assert forall|i: int| 0 <= i < old(state).buffers@.len() implies (#[trigger] final(
        state).buffers@[i])@ == old(state).buffers@[i]@ by {
        assert(after[i] == final(state).buffers@[i]@);
        assert(before[i] == old(state).buffers@[i]@);
    }
}

/// Dropping what waits leaves no buffer and no response to follow, and what is
/// received next follows the clock alone.
pub proof fn law_reset_buffers(state: &mut RealtimeSrcPadState)
    requires
        call_ensures(RealtimeSrcPadState::reset_buffers, (state,), ()),
    ensures
        final(state).buffers@.len() == 0,
        final(state).current_item_id is None,
        final(state).last_buffer_rtime is None,
        final(state).out_segment == old(state).out_segment,
        final(state).seqnum == old(state).seqnum,
        final(state).send_eos == old(state).send_eos,
        final(state).executor == old(state).executor,
{
    assert(final(state).queue().len() == final(state).buffers@.len());
}

/// A segment starts at its time and at position zero, under its number; what
/// waits still waits.
pub proof fn law_start_segment(
    state: &mut RealtimeSrcPadState,
    time: Option<ClockTime>,
    seqnum: u32,
)
    requires
        call_ensures(RealtimeSrcPadState::start_segment, (state, time, seqnum), ()),
    ensures
        final(state).out_segment.time == time,
        final(state).out_segment.position is Some,
        final(state).out_segment.position->0.ns == 0,
        final(state).seqnum == seqnum,
        final(state).queue() == old(state).queue(),
        final(state).current_item_id == old(state).current_item_id,
        final(state).last_buffer_rtime == old(state).last_buffer_rtime,
{
}

/// The tone is queued behind what waits, at time zero, for 100 milliseconds.
pub proof fn law_greeting(pad: &mut RealtimeSrcPad, tone: Vec<u8>)
    requires
        old(pad).state.wf(),
        call_ensures(RealtimeSrcPad::greet, (pad, tone), ()),
    ensures
        final(pad).state.queue().len() == old(pad).state.queue().len() + 1,
        final(pad).state.queue().drop_last() == old(pad).state.queue(),
        final(pad).state.queue().last().data == tone@,
        final(pad).state.queue().last().pts is Some,
        final(pad).state.queue().last().pts->0.ns == 0,
        final(pad).state.queue().last().duration is Some,
        final(pad).state.queue().last().duration->0.ns == 100_000_000,
        final(pad).state.last_buffer_rtime is Some,
        final(pad).state.last_buffer_rtime->0.ns == 100_000_000,
        final(pad).state.current_item_id == old(pad).state.current_item_id,
{
    assert(final(pad).state.queue().drop_last() =~= old(pad).state.queue());
}

/// What is taken in of the server's events, for the response that is followed:
/// a new one is followed from then on, whatever was before; its audio, and no
/// other, is queued; silence and a commit drop it.
pub proof fn law_handle_event(
    pad: &mut RealtimeSrcPad,
    event: ServerEvent,
    now: Option<ClockTime>,
    executor_addr: &Option<String>,
    action: PadAction,
)
    requires
        old(pad).state.wf(),
        admissible(event),
        call_ensures(RealtimeSrcPad::handle_event, (pad, event, now, executor_addr), action),
    ensures
        event is ResponseCreated ==> {
            &&& final(pad).state.current_item_id is Some <==> event->output@.len() > 0
            &&& event->output@.len() > 0 ==> final(pad).state.current_item_id->0@
                == event->output@[0]->ItemId_0@
            &&& final(pad).state.queue() == old(pad).state.queue()
            &&& action == PadAction::Done
        },
        event is ResponseAudioDelta ==> {
            let followed = event->delta@.len() > 0 && old(pad).state.current_item_id is Some && old(
                pad).state.current_item_id->0@ == event->item_id@;
            let data = base64_decoded(event->delta@);
            &&& !followed || now is None || data is None ==> *final(pad) == *old(pad)
            &&& followed && now is Some && data is Some && follows(*old(pad), now->0) + (
            data->0.len() / 48) * 1_000_000 <= u64::MAX ==> final(pad).state.queue().len() == old(
                pad).state.queue().len() + (data->0.len() + 9599) / 9600 && all_bytes(
                final(pad).state.queue(),
            ) == all_bytes(old(pad).state.queue()) + data->0 && action == PadAction::Done
            &&& final(pad).state.current_item_id == old(pad).state.current_item_id
        },
        event is InputAudioBufferSpeechStopped || event is InputAudioBufferCommited ==> {
            &&& final(pad).state.buffers@.len() == 0
            &&& final(pad).state.current_item_id is None
            &&& final(pad).state.last_buffer_rtime is None
            &&& action is ForgetHeardAudio <==> event is InputAudioBufferCommited
        },
        event is ResponseOutputItemAdded ==> *final(pad) == *old(pad) && (action is ConnectExecutor
            <==> *executor_addr is Some && !old(pad).state.executor.connected),
        event is ResponseFunctionCallArgumentsDone ==> *final(pad) == *old(pad)
            && (action is Execute
            <==> FunctionCall::arguments_in(event->arguments@) is Some),
        event is SessionCreated || event is SessionUpdated || event is Error || event is Other
            ==> *final(pad) == *old(pad) && action == PadAction::Done,
        final(pad).state.out_segment == old(pad).state.out_segment,
        final(pad).state.executor == old(pad).state.executor,
        final(pad).state.seqnum == old(pad).state.seqnum,
{
    let before = *old(pad);
    let after = *final(pad);
    assert(RealtimeSrcPad::event_taken(before, after, event, now, *executor_addr, action));
    if event is ResponseAudioDelta {
        let delta = event->delta;
        let data = base64_decoded(delta@);
        if delta@.len() > 0 && opt_text(before.state.current_item_id) == Some(event->item_id@) {
            let outcome = choose|outcome: Enqueued|
                #![trigger RealtimeSrcPad::audio_taken(before, after, now, delta@, outcome)]
                {
                    &&& RealtimeSrcPad::audio_taken(before, after, now, delta@, outcome)
                    &&& action == if outcome == Enqueued::OutOfRange {
                        PadAction::AudioOutOfRange
                    } else {
                        PadAction::Done
                    }
                };
            if now is Some && data is Some && follows(before, now->0) + (data->0.len() / 48)
                * 1_000_000 <= u64::MAX {
                law_received_audio_is_queued(before, after, now->0, delta@, data->0, outcome);
                lemma_audio_length_ms(data->0.len());
                law_queued_audio_is_kept(
                    before.state.queue(),
                    data->0,
                    follows(before, now->0),
                );
            }
        }
    }
    if event is InputAudioBufferSpeechStopped || event is InputAudioBufferCommited {
        law_interruption_empties_the_queue(before, after, event, now, *executor_addr, action);
    }
}

/// A question about the position is answered with it if it is asked in time,
/// and refused otherwise; any other is left to others.
pub proof fn law_queries(pad: &RealtimeSrcPad, query: Query, answer: QueryAnswer)
    requires
        call_ensures(RealtimeSrcPad::src_query, (pad, query), answer),
    ensures
        answer is Position <==> query is Position && query->in_time,
        answer is Position ==> answer->Position_0 == pad.state.out_segment.position,
        answer is Refused <==> query is Position && !query->in_time,
{
}

/// A call that could not be handed over costs the connection to the executor,
/// and has it made again where there is an address.
pub proof fn law_failed_calls(
    pad: &mut RealtimeSrcPad,
    executor_addr: &Option<String>,
    result: Result<String, ErrorMessage>,
)
    requires
        call_ensures(RealtimeSrcPad::execute_failed, (pad, executor_addr), result),
    ensures
        !final(pad).state.executor.connected,
        result is Ok <==> *executor_addr is Some,
        result is Ok ==> result->Ok_0@ == executor_addr->0@,
        final(pad).state.buffers == old(pad).state.buffers,
        final(pad).state.current_item_id == old(pad).state.current_item_id,
{
}

/// Received audio is queued where it can be placed and read, and told what
/// became of otherwise.
pub proof fn law_enqueue_audio(
    pad: &mut RealtimeSrcPad,
    now: Option<ClockTime>,
    audio_delta: &str,
    data: Seq<u8>,
    outcome: Enqueued,
)
    requires
        old(pad).state.wf(),
        call_ensures(RealtimeSrcPad::enqueue_audio, (pad, now, audio_delta), outcome),
    ensures
        outcome is NoClock <==> now is None,
        outcome is NotBase64 <==> now is Some && base64_decoded(audio_delta@) is None,
        !(outcome is Queued) ==> *final(pad) == *old(pad),
        now is Some && base64_decoded(audio_delta@) == Some(data) ==> (outcome is Queued
            <==> follows(
            *old(pad),
            now->0,
        ) + (data.len() / 48) * 1_000_000 <= u64::MAX),
        outcome is Queued && base64_decoded(audio_delta@) == Some(data) ==> all_bytes(
            final(pad).state.queue(),
        ) == all_bytes(old(pad).state.queue()) + data && final(pad).state.queue().len() == old(
            pad).state.queue().len() + (data.len() + 9599) / 9600,
{
    if now is Some && base64_decoded(audio_delta@) == Some(data) {
        lemma_audio_length_ms(data.len());
        if outcome is Queued {
            law_received_audio_is_queued(*old(pad), *final(pad), now->0, audio_delta@, data,
            outcome);
            law_queued_audio_is_kept(old(pad).state.queue(), data, follows(*old(pad), now->0));
        }
    }
}

/// The position can always be told while it is ahead of the clock, and as long
/// as 100 milliseconds past the clock can be told.
pub proof fn law_positions_in_reach(
    reached: ClockTime,
    now: ClockTime,
    buffer_time_ms: u32,
    in_reach: bool,
)
    requires
        call_ensures(is_in_reach, (reached, now, buffer_time_ms), in_reach),
    ensures
        in_reach == can_catch_up(reached, now, buffer_time_ms),
        now.ns < reached.ns || now.ns + 100_000_000 <= u64::MAX ==> in_reach,
        now.ns >= reached.ns && now.ns + 100_000_000 > u64::MAX && now.ns - reached.ns + 100_000_000
            > 1_000_000 * buffer_time_ms ==> !in_reach,
{
}

} // verus!
