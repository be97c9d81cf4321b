//! The way to a connection: attempts, the first message, and the wait for the
//! server to agree.

use vstd::prelude::*;

use crate::realtime::server_event::ServerEvent;
use crate::request::AttemptFailure;
use crate::retry::{Retry, RetryStep};
use crate::text::{decimal, decimal_text};

verus! {

/// The first step towards a connection. Where no attempt may be made, it
/// fails at once.
pub fn first_attempt(retry: &Retry) -> (r: RetryStep)
    ensures
        if retry.may_try() {
            r == RetryStep::Attempt
        } else {
            r is GiveUp && r->GiveUp_0@ == "Failed to connect after "@ + decimal_text(
                retry.max_attempts as nat,
            ) + " attempts"@
        },
{
    let mut text: String = "Failed to connect after ".to_string();
    text.append(decimal(retry.max_attempts as u64).as_str());
    text.append(" attempts");
    retry.begin(text)
}

/// The step after an attempt has failed: another one after a pause, or, if it
/// was the last, giving up for the reason that it failed.
pub fn next_attempt(retry: &mut Retry, failure: AttemptFailure) -> (r: RetryStep)
    requires
        old(retry).may_try(),
    ensures
        *final(retry) == old(retry).after_failure(),
        final(retry).wf(),
        if final(retry).may_try() {
            r == RetryStep::WaitAndAttempt(old(retry).delay_ms)
        } else {
            r is GiveUp && r->GiveUp_0@ == failure.words()
        },
{
    retry.again(failure.text())
}

// Waiting for the server to agree.

/// What happens while the server is waited for.
#[derive(Debug)]
pub enum HandshakeEvent {
    /// A message came, with the event that it holds if it holds one.
    Message(Option<ServerEvent>),
    /// No message could be received.
    ReceiveFailed(String),
    /// The server closed the connection.
    Closed,
    /// The server did not agree in time.
    TimedOut,
}

/// How the wait for the server goes on.
#[derive(Debug)]
pub enum HandshakeStep {
    Wait,
    Ready,
    Failed(String),
}

/// Whether the server agrees with an event to the configuration.
pub open spec fn agrees(event: ServerEvent) -> bool {
    event is SessionCreated || event is SessionUpdated
}

/// Whether `step` is how the wait goes on after `event`.
pub open spec fn handshake_follows(event: HandshakeEvent, step: HandshakeStep) -> bool {
    match event {
        HandshakeEvent::Message(Some(ServerEvent::Error { kind, message })) => {
            step is Failed && step->Failed_0@ == "Session update failed: "@ + kind@ + " ("@
                + message@ + ")"@
        },
        HandshakeEvent::Message(Some(event)) => if agrees(event) {
            step == HandshakeStep::Ready
        } else {
            step == HandshakeStep::Wait
        },
        HandshakeEvent::Message(None) => step == HandshakeStep::Wait,
        HandshakeEvent::ReceiveFailed(cause) => {
            step is Failed && step->Failed_0@ == "Failed to receive message: "@ + cause@
        },
        HandshakeEvent::Closed => {
            step is Failed && step->Failed_0@ == "No session created confirmation received"@
        },
        HandshakeEvent::TimedOut => {
            step is Failed && step->Failed_0@
                == "Timeout waiting for session creation confirmation"@
        },
    }
}

fn words(text: &str, cause: &str) -> (r: String)
    ensures
        r@ == text@ + cause@,
{
    let mut all: String = text.to_string();
    all.append(cause);
    all
}

/// How the wait for the server goes on: it ends well when the server agrees,
/// and badly when the server or the connection fails. Messages that hold
/// anything else do not count.
pub fn handshake(event: HandshakeEvent) -> (r: HandshakeStep)
    ensures
        handshake_follows(event, r),
{
    match event {
        HandshakeEvent::Message(Some(ServerEvent::SessionCreated)) => HandshakeStep::Ready,
        HandshakeEvent::Message(Some(ServerEvent::SessionUpdated)) => HandshakeStep::Ready,
        HandshakeEvent::Message(Some(ServerEvent::Error { kind, message })) => {
            let mut text: String = words("Session update failed: ", kind.as_str());
            text.append(" (");
            text.append(message.as_str());
            text.append(")");
            HandshakeStep::Failed(text)
        },
        HandshakeEvent::Message(_) => HandshakeStep::Wait,
        HandshakeEvent::ReceiveFailed(cause) => HandshakeStep::Failed(
            words("Failed to receive message: ", cause.as_str()),
        ),
        HandshakeEvent::Closed => HandshakeStep::Failed(
            "No session created confirmation received".to_string(),
        ),
        HandshakeEvent::TimedOut => HandshakeStep::Failed(
            "Timeout waiting for session creation confirmation".to_string(),
        ),
    }
}

// The whole way.

/// How far the way to a connection has come.
#[derive(Debug, Clone, Copy, PartialEq, Eq, Structural)]
pub enum Phase {
    /// An attempt to connect is being made.
    Connecting,
    /// The configuration is being sent.
    Configuring,
    /// The server has not agreed yet.
    Waiting,
    /// The server has agreed; the two halves of the connection are being put
    /// together again.
    Reuniting,
    /// There is a connection.
    Connected,
    /// There is none, and no more will be done about it.
    Failed,
}

/// What happens on the way to a connection.
#[derive(Debug)]
pub enum ConnectEvent {
    /// An attempt ended: with a connection, or with the reason why not.
    Attempted(Option<AttemptFailure>),
    /// The configuration was sent, or the reason why not.
    UpdateSent(Option<String>),
    /// Something happened while the server was waited for.
    Received(HandshakeEvent),
    /// The two halves of the connection were put together again, or not.
    Reunited(bool),
}

/// What to do next on the way to a connection.
#[derive(Debug)]
pub enum ConnectAction {
    /// Try to connect, now.
    Attempt,
    /// Wait so many milliseconds, and try to connect.
    WaitAndAttempt(u64),
    /// Send the configuration.
    SendUpdate,
    /// Wait for a message.
    Receive,
    /// Put the two halves of the connection together again.
    Reunite,
    /// There is a connection.
    Connected,
    /// There is none, for the reason given.
    Failed(String),
    /// Nothing: the event is not about what was being done.
    Ignore,
}

/// The way to a connection.
#[derive(Debug, Clone, Copy, PartialEq, Eq, Structural)]
pub struct Connector {
    pub retry: Retry,
    pub phase: Phase,
}

/// How far the way has come once an event was taken in while the server was
/// waited for.
pub open spec fn handshake_phase(event: HandshakeEvent) -> Phase {
    match event {
        HandshakeEvent::Message(Some(event)) => if agrees(event) {
            Phase::Reuniting
        } else if event is Error {
            Phase::Failed
        } else {
            Phase::Waiting
        },
        HandshakeEvent::Message(None) => Phase::Waiting,
        _ => Phase::Failed,
    }
}

impl Connector {
    /// How far the way has come after an event.
    pub open spec fn next(self, event: ConnectEvent) -> Connector {
        match (self.phase, event) {
            (Phase::Connecting, ConnectEvent::Attempted(None)) => Connector {
                phase: Phase::Configuring,
                ..self
            },
            (Phase::Connecting, ConnectEvent::Attempted(Some(_))) => Connector {
                retry: self.retry.after_failure(),
                phase: if self.retry.after_failure().may_try() {
                    Phase::Connecting
                } else {
                    Phase::Failed
                },
            },
            (Phase::Configuring, ConnectEvent::UpdateSent(None)) => Connector {
                phase: Phase::Waiting,
                ..self
            },
            (Phase::Configuring, ConnectEvent::UpdateSent(Some(_))) => Connector {
                phase: Phase::Failed,
                ..self
            },
            (Phase::Waiting, ConnectEvent::Received(event)) => Connector {
                phase: handshake_phase(event),
                ..self
            },
            (Phase::Reuniting, ConnectEvent::Reunited(whole)) => Connector {
                phase: if whole {
                    Phase::Connected
                } else {
                    Phase::Failed
                },
                ..self
            },
            _ => self,
        }
    }

    /// Whether `action` is what to do next after an event.
    pub open spec fn answers(self, event: ConnectEvent, action: ConnectAction) -> bool {
        match (self.phase, event) {
            (Phase::Connecting, ConnectEvent::Attempted(None)) => action
                == ConnectAction::SendUpdate,
            (Phase::Connecting, ConnectEvent::Attempted(Some(failure))) => if self.next(
                event,
            ).phase == Phase::Connecting {
                action == ConnectAction::WaitAndAttempt(self.retry.delay_ms)
            } else {
                action is Failed && action->Failed_0@ == failure.words()
            },
            (Phase::Configuring, ConnectEvent::UpdateSent(None)) => action
                == ConnectAction::Receive,
            (Phase::Configuring, ConnectEvent::UpdateSent(Some(cause))) => {
                &&& action is Failed
                &&& action->Failed_0@ == "Failed to send initial message: "@ + cause@
            },
            (Phase::Waiting, ConnectEvent::Received(event)) => {
                match handshake_phase(event) {
                    Phase::Reuniting => action == ConnectAction::Reunite,
                    Phase::Waiting => action == ConnectAction::Receive,
                    _ => action is Failed && handshake_follows(
                        event,
                        HandshakeStep::Failed(action->Failed_0),
                    ),
                }
            },
            (Phase::Reuniting, ConnectEvent::Reunited(true)) => action == ConnectAction::Connected,
            (Phase::Reuniting, ConnectEvent::Reunited(false)) => {
                &&& action is Failed
                &&& action->Failed_0@ == "Failed to reunite WebSocket stream"@
            },
            _ => action == ConnectAction::Ignore,
        }
    }

    /// Whether another attempt may be made while one is being made.
    pub open spec fn wf(self) -> bool {
        &&& self.retry.wf()
        &&& self.phase == Phase::Connecting ==> self.retry.may_try()
    }

    /// Sets out for a connection. Where no attempt may be made, that fails at
    /// once.
    pub fn begin(retry: Retry) -> (r: (Connector, ConnectAction))
        requires
            retry.wf(),
        ensures
            r.0.wf(),
            r.0.retry == retry,
            if retry.may_try() {
                r.0.phase == Phase::Connecting && r.1 == ConnectAction::Attempt
            } else {
                &&& r.0.phase == Phase::Failed
                &&& r.1 is Failed
                &&& r.1->Failed_0@ == "Failed to connect after "@ + decimal_text(
                    retry.max_attempts as nat,
                ) + " attempts"@
            },
    {
        match first_attempt(&retry) {
            RetryStep::GiveUp(text) => (
                Connector { retry, phase: Phase::Failed },
                ConnectAction::Failed(text),
            ),
            _ => (Connector { retry, phase: Phase::Connecting }, ConnectAction::Attempt),
        }
    }

    /// Goes on after an event: connect, configure the session, wait for the
    /// server to agree, and put the connection together again.
    pub fn step(&mut self, event: ConnectEvent) -> (r: ConnectAction)
        requires
            old(self).wf(),
        ensures
            *final(self) == old(self).next(event),
            old(self).answers(event, r),
            final(self).wf(),
    {
        match (self.phase, event) {
            (Phase::Connecting, ConnectEvent::Attempted(None)) => {
                self.phase = Phase::Configuring;
                ConnectAction::SendUpdate
            },
            (Phase::Connecting, ConnectEvent::Attempted(Some(failure))) => {
                match next_attempt(&mut self.retry, failure) {
                    RetryStep::WaitAndAttempt(delay_ms) => ConnectAction::WaitAndAttempt(delay_ms),
                    RetryStep::GiveUp(text) => {
                        self.phase = Phase::Failed;
                        ConnectAction::Failed(text)
                    },
                    RetryStep::Attempt => ConnectAction::Attempt,
                }
            },
            (Phase::Configuring, ConnectEvent::UpdateSent(None)) => {
                self.phase = Phase::Waiting;
                ConnectAction::Receive
            },
            (Phase::Configuring, ConnectEvent::UpdateSent(Some(cause))) => {
                self.phase = Phase::Failed;
                ConnectAction::Failed(words("Failed to send initial message: ", cause.as_str()))
            },
            (Phase::Waiting, ConnectEvent::Received(event)) => {
                match handshake(event) {
                    HandshakeStep::Wait => ConnectAction::Receive,
                    HandshakeStep::Ready => {
                        self.phase = Phase::Reuniting;
                        ConnectAction::Reunite
                    },
                    HandshakeStep::Failed(text) => {
                        self.phase = Phase::Failed;
                        ConnectAction::Failed(text)
                    },
                }
            },
            (Phase::Reuniting, ConnectEvent::Reunited(true)) => {
                self.phase = Phase::Connected;
                ConnectAction::Connected
            },
            (Phase::Reuniting, ConnectEvent::Reunited(false)) => {
                self.phase = Phase::Failed;
                ConnectAction::Failed("Failed to reunite WebSocket stream".to_string())
            },
            _ => ConnectAction::Ignore,
        }
    }
}

/// How far the way has come after all of the events.
pub open spec fn after_events(start: Connector, events: Seq<ConnectEvent>) -> Connector
    decreases events.len(),
{
    if events.len() == 0 {
        start
    } else {
        after_events(start, events.drop_last()).next(events.last())
    }
}

/// Whether the server agrees with an event.
pub open spec fn is_agreement(event: ConnectEvent) -> bool {
    event is Received && handshake_phase(event->Received_0) == Phase::Reuniting
}

/// There is no connection before one was opened, the configuration was sent
/// and the server has agreed to it.
pub proof fn law_connected_needs_agreement(retry: Retry, events: Seq<ConnectEvent>)
    ensures
        ({
            let phase = after_events(
                Connector { retry, phase: Phase::Connecting },
                events,
            ).phase;
            &&& phase != Phase::Connecting && phase != Phase::Failed ==> exists|i: int|
                0 <= i < events.len() && #[trigger] events[i]
                    == ConnectEvent::Attempted(None)
            &&& phase == Phase::Waiting || phase == Phase::Reuniting || phase == Phase::Connected
                ==> exists|i: int|
                0 <= i < events.len() && #[trigger] events[i] == ConnectEvent::UpdateSent(None)
            &&& phase == Phase::Reuniting || phase == Phase::Connected ==> exists|i: int|
                0 <= i < events.len() && is_agreement(#[trigger] events[i])
        }),
    decreases events.len(),
{
    if events.len() > 0 {
        let before = events.drop_last();
        law_connected_needs_agreement(retry, before);
        assert(events.last() == events[events.len() - 1]);
        assert(forall|i: int| 0 <= i < before.len() ==> #[trigger] before[i] == events[i]);
    }
}

/// The events of attempts that all fail.
pub open spec fn all_failed(failures: Seq<AttemptFailure>) -> Seq<ConnectEvent> {
    failures.map_values(|failure: AttemptFailure| ConnectEvent::Attempted(Some(failure)))
}

/// Where every attempt fails, exactly as many are made as are allowed: after
/// each but the last there is a pause and another attempt, and after the last
/// the way ends, for the reason that the last one failed.
pub proof fn law_failing_attempts(
    max_attempts: u32,
    delay_ms: u64,
    failures: Seq<AttemptFailure>,
    action: ConnectAction,
)
    requires
        0 < failures.len() <= max_attempts,
        after_events(
            Connector {
                retry: Retry { attempts: 0, max_attempts, delay_ms },
                phase: Phase::Connecting,
            },
            all_failed(failures.drop_last()),
        ).answers(ConnectEvent::Attempted(Some(failures.last())), action),
    ensures
        ({
            let reached = after_events(
                Connector {
                    retry: Retry { attempts: 0, max_attempts, delay_ms },
                    phase: Phase::Connecting,
                },
                all_failed(failures),
            );
            &&& reached.retry.attempts == failures.len()
            &&& if failures.len() < max_attempts {
                reached.phase == Phase::Connecting && action == ConnectAction::WaitAndAttempt(
                    delay_ms,
                )
            } else {
                &&& reached.phase == Phase::Failed
                &&& action is Failed
                &&& action->Failed_0@ == failures.last().words()
            }
        }),
{
    let start = Connector {
        retry: Retry { attempts: 0, max_attempts, delay_ms },
        phase: Phase::Connecting,
    };
    lemma_failing_attempts(start, failures.drop_last());
    let events = all_failed(failures);
    assert(events.drop_last() =~= all_failed(failures.drop_last()));
    assert(events.last() == ConnectEvent::Attempted(Some(failures.last())));
}

proof fn lemma_failing_attempts(start: Connector, failures: Seq<AttemptFailure>)
    requires
        start.phase == Phase::Connecting,
        start.retry.attempts == 0,
        failures.len() < start.retry.max_attempts,
    ensures
        after_events(start, all_failed(failures)) == (Connector {
            retry: Retry { attempts: failures.len() as u32, ..start.retry },
            phase: Phase::Connecting,
        }),
    decreases failures.len(),
{
    if failures.len() > 0 {
        lemma_failing_attempts(start, failures.drop_last());
        let events = all_failed(failures);
        assert(events.drop_last() =~= all_failed(failures.drop_last()));
        assert(events.last() == ConnectEvent::Attempted(Some(failures.last())));
    }
}

/// How many of the events are failed attempts.
pub open spec fn failed_attempts(events: Seq<ConnectEvent>) -> nat
    decreases events.len(),
{
    if events.len() == 0 {
        0
    } else {
        failed_attempts(events.drop_last()) + if events.last() matches ConnectEvent::Attempted(
            Some(_),
        ) {
            1nat
        } else {
            0
        }
    }
}

/// While attempts are made, as many have failed as were counted, and fewer
/// than are allowed; a way that has ended stays where it is.
pub proof fn law_attempts_are_counted(max_attempts: u32, delay_ms: u64, events: Seq<ConnectEvent>)
    requires
        max_attempts > 0,
    ensures
        ({
            let start = Connector {
                retry: Retry { attempts: 0, max_attempts, delay_ms },
                phase: Phase::Connecting,
            };
            let reached = after_events(start, events);
            &&& reached.wf()
            &&& reached.retry.max_attempts == max_attempts
            &&& reached.phase == Phase::Connecting ==> failed_attempts(events)
                == reached.retry.attempts < max_attempts
            &&& forall|event: ConnectEvent|
                reached.phase == Phase::Connected || reached.phase == Phase::Failed
                    ==> #[trigger] reached.next(event) == reached
        }),
    decreases events.len(),
{
    if events.len() > 0 {
        law_attempts_are_counted(max_attempts, delay_ms, events.drop_last());
    }
}

/// Of what the server says, only that the session was created or updated is
/// agreement, and only an error is refusal; anything else is waited out. The
/// wait is over when the connection is lost or the time is up.
pub proof fn law_server_decides(event: ServerEvent, cause: String)
    ensures
        handshake_phase(HandshakeEvent::Message(Some(event))) == Phase::Reuniting <==> event
            is SessionCreated || event is SessionUpdated,
        handshake_phase(HandshakeEvent::Message(Some(event))) == Phase::Failed <==> event is Error,
        handshake_phase(HandshakeEvent::Message(Some(event))) == Phase::Waiting <==> !(event
            is SessionCreated || event is SessionUpdated || event is Error),
        handshake_phase(HandshakeEvent::Message(None)) == Phase::Waiting,
        handshake_phase(HandshakeEvent::ReceiveFailed(cause)) == Phase::Failed,
        handshake_phase(HandshakeEvent::Closed) == Phase::Failed,
        handshake_phase(HandshakeEvent::TimedOut) == Phase::Failed,
{
}

/// How the wait goes on is told by what came, and a wait that fails says why.
pub proof fn law_failed_waits_say_why(event: HandshakeEvent, step: HandshakeStep)
    requires
        handshake_follows(event, step),
    ensures
        step is Ready <==> handshake_phase(event) == Phase::Reuniting,
        step is Wait <==> handshake_phase(event) == Phase::Waiting,
        step is Failed <==> handshake_phase(event) == Phase::Failed,
        event is Message && event->Message_0 is Some && event->Message_0->0 is Error
            ==> step->Failed_0@ == "Session update failed: "@ + event->Message_0->0->kind@ + " ("@
            + event->Message_0->0->message@ + ")"@,
        event is ReceiveFailed ==> step->Failed_0@ == "Failed to receive message: "@
            + event->ReceiveFailed_0@,
        event is Closed ==> step->Failed_0@ == "No session created confirmation received"@,
        event is TimedOut ==> step->Failed_0@
            == "Timeout waiting for session creation confirmation"@,
{
}

/// Each event matters in one phase alone: elsewhere it changes nothing, and
/// nothing is done about it.
pub proof fn law_events_matter_once(c: Connector, event: ConnectEvent, action: ConnectAction)
    requires
        c.answers(event, action),
        match event {
            ConnectEvent::Attempted(_) => c.phase != Phase::Connecting,
            ConnectEvent::UpdateSent(_) => c.phase != Phase::Configuring,
            ConnectEvent::Received(_) => c.phase != Phase::Waiting,
            ConnectEvent::Reunited(_) => c.phase != Phase::Reuniting,
        },
    ensures
        c.next(event) == c,
        action == ConnectAction::Ignore,
{
}

/// What follows what: an attempt that worked, the configuration, then the wait,
/// then the connection. A setback ends the way and says why.
pub proof fn law_steps_follow_each_other(c: Connector, event: ConnectEvent, action: ConnectAction)
    requires
        c.answers(event, action),
    ensures
        c.phase == Phase::Connecting && event == ConnectEvent::Attempted(None) ==> c.next(
            event,
        ).phase == Phase::Configuring && action == ConnectAction::SendUpdate,
        c.phase == Phase::Configuring && event == ConnectEvent::UpdateSent(None) ==> c.next(
            event,
        ).phase == Phase::Waiting && action == ConnectAction::Receive,
        c.phase == Phase::Configuring && event is UpdateSent && event->UpdateSent_0 is Some
            ==> c.next(event).phase == Phase::Failed && action is Failed && action->Failed_0@
            == "Failed to send initial message: "@ + event->UpdateSent_0->0@,
        c.phase == Phase::Waiting && event is Received ==> {
            let phase = handshake_phase(event->Received_0);
            &&& c.next(event).phase == phase
            &&& phase == Phase::Reuniting ==> action == ConnectAction::Reunite
            &&& phase == Phase::Waiting ==> action == ConnectAction::Receive
            &&& phase == Phase::Failed ==> action is Failed
        },
        c.phase == Phase::Reuniting && event == ConnectEvent::Reunited(true) ==> c.next(event).phase
            == Phase::Connected && action == ConnectAction::Connected,
        c.phase == Phase::Reuniting && event == ConnectEvent::Reunited(false) ==> c.next(
            event,
        ).phase == Phase::Failed && action is Failed && action->Failed_0@
            == "Failed to reunite WebSocket stream"@,
        !(event is Attempted && event->Attempted_0 is Some) ==> c.next(event).retry == c.retry,
{
    if c.phase == Phase::Waiting && event is Received {
        let inner = event->Received_0;
        assert(handshake_phase(inner) == Phase::Reuniting || handshake_phase(inner)
            == Phase::Waiting || handshake_phase(inner) == Phase::Failed);
    }
}

proof fn lemma_events_append(start: Connector, first: Seq<ConnectEvent>, second: Seq<ConnectEvent>)
    ensures
        after_events(start, first + second) == after_events(after_events(start, first), second),
    decreases second.len(),
{
    if second.len() == 0 {
        assert(first + second =~= first);
    } else {
        lemma_events_append(start, first, second.drop_last());
        assert((first + second).drop_last() =~= first + second.drop_last());
        assert((first + second).last() == second.last());
    }
}

/// The messages that come while the server is waited for, as events.
pub open spec fn all_received(messages: Seq<HandshakeEvent>) -> Seq<ConnectEvent> {
    messages.map_values(|message: HandshakeEvent| ConnectEvent::Received(message))
}

proof fn lemma_waiting_goes_on(c: Connector, messages: Seq<HandshakeEvent>)
    requires
        c.phase == Phase::Waiting,
        forall|i: int|
            0 <= i < messages.len() ==> handshake_phase(#[trigger] messages[i]) == Phase::Waiting,
    ensures
        after_events(c, all_received(messages)) == c,
    decreases messages.len(),
{
    if messages.len() > 0 {
        let fewer = messages.drop_last();
        assert forall|i: int| 0 <= i < fewer.len() implies handshake_phase(#[trigger] fewer[i])
            == Phase::Waiting by {
            assert(fewer[i] == messages[i]);
        }
        lemma_waiting_goes_on(c, fewer);
        assert(all_received(messages).drop_last() =~= all_received(fewer));
        assert(messages[messages.len() - 1] == messages.last());
        assert(all_received(messages).last() == ConnectEvent::Received(messages.last()));
    }
}

/// The way does lead to a connection: however many attempts fail before one
/// works, as long as another is allowed, and however many messages come that
/// are beside the point, once the server says that the session was created or
/// updated there is one.
pub proof fn law_way_leads_to_a_connection(
    retry: Retry,
    failures: Seq<AttemptFailure>,
    messages: Seq<HandshakeEvent>,
    agreement: ServerEvent,
)
    requires
        retry.attempts == 0,
        failures.len() < retry.max_attempts,
        forall|i: int|
            0 <= i < messages.len() ==> {
                &&& #[trigger] messages[i] is Message
                &&& messages[i]->Message_0 is Some ==> !(messages[i]->Message_0->0
                    is SessionCreated) && !(messages[i]->Message_0->0 is SessionUpdated) && !(
                messages[i]->Message_0->0 is Error)
            },
        agreement is SessionCreated || agreement is SessionUpdated,
    ensures
        after_events(
            Connector { retry, phase: Phase::Connecting },
            all_failed(failures) + seq![
                ConnectEvent::Attempted(None),
                ConnectEvent::UpdateSent(None),
            ] + all_received(messages) + seq![
                ConnectEvent::Received(HandshakeEvent::Message(Some(agreement))),
                ConnectEvent::Reunited(true),
            ],
        ).phase == Phase::Connected,
{
    reveal_with_fuel(after_events, 4);
    let start = Connector { retry, phase: Phase::Connecting };
    let opening = seq![ConnectEvent::Attempted(None), ConnectEvent::UpdateSent(None)];
    let closing = seq![
        ConnectEvent::Received(HandshakeEvent::Message(Some(agreement))),
        ConnectEvent::Reunited(true),
    ];
    lemma_failing_attempts(start, failures);
    let tried = after_events(start, all_failed(failures));
    assert(opening.drop_last() =~= seq![ConnectEvent::Attempted(None)]);
    assert(opening.drop_last().drop_last() =~= Seq::<ConnectEvent>::empty());
    let waiting = after_events(tried, opening);
    assert(waiting.phase == Phase::Waiting);
    lemma_waiting_goes_on(waiting, messages);
    assert(closing.drop_last() =~= seq![
        ConnectEvent::Received(HandshakeEvent::Message(Some(agreement))),
    ]);
    assert(closing.drop_last().drop_last() =~= Seq::<ConnectEvent>::empty());
    assert(after_events(waiting, closing).phase == Phase::Connected);
    lemma_events_append(start, all_failed(failures), opening);
    lemma_events_append(start, all_failed(failures) + opening, all_received(messages));
    lemma_events_append(
        start,
        all_failed(failures) + opening + all_received(messages),
        closing,
    );
}

/// A way begins with an attempt where one is allowed, and ends at once where
/// none is.
pub proof fn law_beginning(retry: Retry, begun: (Connector, ConnectAction))
    requires
        retry.attempts == 0,
        call_ensures(Connector::begin, (retry,), begun),
    ensures
        begun.0.retry == retry,
        retry.max_attempts > 0 ==> begun.0.phase == Phase::Connecting && begun.1
            == ConnectAction::Attempt,
        retry.max_attempts == 0 ==> begun.0.phase == Phase::Failed && begun.1 is Failed
            && begun.1->Failed_0@ == "Failed to connect after "@ + decimal_text(0) + " attempts"@,
{
}

/// A step of the way: it fails for good on the last failed attempt, and has
/// another attempt made after the pause on any other; it waits for the server
/// as long as it neither agrees nor refuses.
pub proof fn law_stepping(way: &mut Connector, event: ConnectEvent, action: ConnectAction)
    requires
        old(way).wf(),
        call_ensures(Connector::step, (way, event), action),
    ensures
        old(way).phase == Phase::Connecting && event is Attempted && event->Attempted_0 is Some
            ==> {
            let last = old(way).retry.attempts + 1 == old(way).retry.max_attempts;
            &&& final(way).retry.attempts == old(way).retry.attempts + 1
            &&& last ==> final(way).phase == Phase::Failed && action is Failed
            &&& last && event->Attempted_0->0 is Socket ==> action->Failed_0@
                == "WebSocket connection error: "@ + event->Attempted_0->0->Socket_0@
            &&& last && event->Attempted_0->0 is TimedOut ==> action->Failed_0@
                == "Connection timeout: "@ + event->Attempted_0->0->TimedOut_0@
            &&& !last ==> final(way).phase == Phase::Connecting && action
                == ConnectAction::WaitAndAttempt(old(way).retry.delay_ms)
        },
        old(way).phase == Phase::Connecting && event == ConnectEvent::Attempted(None) ==> final(
            way).phase == Phase::Configuring && action == ConnectAction::SendUpdate,
        old(way).phase == Phase::Configuring && event == ConnectEvent::UpdateSent(None) ==> final(
            way).phase == Phase::Waiting && action == ConnectAction::Receive,
        old(way).phase == Phase::Waiting && event is Received && event->Received_0 is Message ==> {
            let message = event->Received_0->Message_0;
            let agreed = message is Some && (message->0 is SessionCreated || message->0
                is SessionUpdated);
            let refused = message is Some && message->0 is Error;
            &&& agreed <==> action == ConnectAction::Reunite
            &&& refused <==> action is Failed
            &&& !agreed && !refused <==> action == ConnectAction::Receive
            &&& refused ==> action->Failed_0@ == "Session update failed: "@ + message->0->kind@
                + " ("@ + message->0->message@ + ")"@
        },
        old(way).phase == Phase::Reuniting && event == ConnectEvent::Reunited(true) ==> final(
            way).phase == Phase::Connected && action == ConnectAction::Connected,
        final(way).retry.max_attempts == old(way).retry.max_attempts,
        final(way).retry.delay_ms == old(way).retry.delay_ms,
{
    if event is Received {
        let inner = event->Received_0;
        if inner is Message && inner->Message_0 is Some {
            law_server_decides(inner->Message_0->0, arbitrary());
        }
        if action is Failed {
            law_failed_waits_say_why(inner, HandshakeStep::Failed(action->Failed_0));
        }
    }
}

} // verus!
