//! Buffers, and what the elements answer to the pipeline.

use vstd::prelude::*;

use crate::clock::ClockTime;

verus! {

/// A piece of a stream, with the time it starts at and how long it lasts
/// where they are known.
#[derive(Debug)]
pub struct Buffer {
    pub pts: Option<ClockTime>,
    pub duration: Option<ClockTime>,
    pub data: Vec<u8>,
}

/// What a [`Buffer`] holds.
#[verifier::ext_equal]
pub struct BufferView {
    pub pts: Option<ClockTime>,
    pub duration: Option<ClockTime>,
    pub data: Seq<u8>,
}

impl View for Buffer {
    type V = BufferView;

    open spec fn view(&self) -> BufferView {
        BufferView { pts: self.pts, duration: self.duration, data: self.data@ }
    }
}

/// What each buffer of a row holds.
pub open spec fn buffer_views(buffers: Seq<Buffer>) -> Seq<BufferView> {
    buffers.map_values(|b: Buffer| b@)
}

impl BufferView {
    /// Whether the buffer has a start, a duration, and an end that can be
    /// told.
    pub open spec fn stamped(self) -> bool {
        &&& self.pts is Some
        &&& self.duration is Some
        &&& self.pts->0.ns + self.duration->0.ns <= u64::MAX
    }

    /// The time the buffer ends at; its start where the duration is unknown.
    pub open spec fn end(self) -> ClockTime {
        match self.duration {
            Some(d) => ClockTime { ns: (self.pts->0.ns + d.ns) as u64 },
            None => self.pts->0,
        }
    }
}

/// Why a buffer was refused.
#[derive(Debug, Clone, Copy, PartialEq, Eq, Structural)]
pub enum FlowError {
    Error,
    Eos,
}

/// A change of an element's state.
#[derive(Debug, Clone, Copy, PartialEq, Eq, Structural)]
pub enum StateChange {
    NullToReady,
    ReadyToPaused,
    PausedToPlaying,
    PlayingToPaused,
    PausedToReady,
    ReadyToNull,
    Other,
}

/// How a change of state succeeded.
#[derive(Debug, Clone, Copy, PartialEq, Eq, Structural)]
pub enum StateChangeSuccess {
    Success,
    Async,
    NoPreroll,
}

/// How a change of state succeeds for an element that is live, where it
/// succeeded with `parent` for any element: what it holds when it is paused is
/// no preview.
pub fn live_success(transition: StateChange, parent: StateChangeSuccess) -> (r: StateChangeSuccess)
    ensures
        r == if transition == StateChange::ReadyToPaused || transition
            == StateChange::PlayingToPaused {
            StateChangeSuccess::NoPreroll
        } else {
            parent
        },
{
    match transition {
        StateChange::ReadyToPaused => StateChangeSuccess::NoPreroll,
        StateChange::PlayingToPaused => StateChangeSuccess::NoPreroll,
        _ => parent,
    }
}

/// A failure, in words.
#[derive(Debug)]
pub struct ErrorMessage {
    pub text: String,
}

impl View for ErrorMessage {
    type V = Seq<char>;

    open spec fn view(&self) -> Seq<char> {
        self.text@
    }
}

impl ErrorMessage {
    /// A failure with the given words.
    pub fn new(text: &str) -> (r: ErrorMessage)
        ensures
            r@ == text@,
    {
        ErrorMessage { text: text.to_string() }
    }

    /// A failure with the given words, and what caused it.
    pub fn because(text: &str, cause: &str) -> (r: ErrorMessage)
        ensures
            r@ == text@ + cause@,
    {
        let mut words: String = text.to_string();
        words.append(cause);
        ErrorMessage { text: words }
    }
}

/// A buffer is seen with its start, its duration and its bytes as they are,
/// and it ends its duration after its start.
pub proof fn law_buffer_is_seen_whole(buffers: Seq<Buffer>, i: int)
    requires
        0 <= i < buffers.len(),
    ensures
        buffer_views(buffers).len() == buffers.len(),
        buffer_views(buffers)[i].pts == buffers[i].pts,
        buffer_views(buffers)[i].duration == buffers[i].duration,
        buffer_views(buffers)[i].data == buffers[i].data@,
        buffers[i]@.stamped() <==> {
            &&& buffers[i].pts is Some
            &&& buffers[i].duration is Some
            &&& buffers[i].pts->0.ns + buffers[i].duration->0.ns <= 18446744073709551615
        },
        buffers[i]@.stamped() ==> buffers[i]@.end().ns == buffers[i].pts->0.ns
            + buffers[i].duration->0.ns,
        buffers[i].pts is Some && buffers[i].duration is None ==> buffers[i]@.end().ns
            == buffers[i].pts->0.ns,
{
}

/// A live element has no preview whenever it comes to be paused, and otherwise
/// changes state as any element does.
pub proof fn law_live_elements(
    transition: StateChange,
    parent: StateChangeSuccess,
    success: StateChangeSuccess,
)
    requires
        call_ensures(live_success, (transition, parent), success),
    ensures
        transition is ReadyToPaused || transition is PlayingToPaused ==> success is NoPreroll,
        !(transition is ReadyToPaused) && !(transition is PlayingToPaused) ==> success == parent,
{
}

/// A failure is seen as its words, and a cause stands behind them.
pub proof fn law_error_messages(
    e: ErrorMessage,
    text: &str,
    cause: &str,
    plain: ErrorMessage,
    caused: ErrorMessage,
)
    requires
        call_ensures(ErrorMessage::new, (text,), plain),
        call_ensures(ErrorMessage::because, (text, cause), caused),
    ensures
        e@ == e.text@,
        plain.text@ == text@,
        caused.text@ == text@ + cause@,
{
}

} // verus!
