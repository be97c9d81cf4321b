//! One turn of an output pad's task: a message is waited for and taken in, and
//! then the output is driven, whatever came.

use vstd::prelude::*;

use crate::realtime::server_event::ServerEvent;

verus! {

/// How far a turn has come.
#[derive(Debug, Clone, Copy, PartialEq, Eq, Structural)]
pub enum TurnPhase {
    /// A message is being waited for.
    Waiting,
    /// An event is being taken in.
    Handling,
    /// The output is being driven.
    Dequeuing,
    /// The turn is over.
    Over,
}

/// What came of the wait for a message.
#[derive(Debug)]
pub enum Arrival {
    /// No message came in time.
    Nothing,
    /// No more messages will come.
    Closed,
    /// A message that holds no event: it is no text, or cannot be read.
    Unreadable,
    /// A message that holds an event.
    Event(ServerEvent),
}

/// What happens in a turn.
#[derive(Debug)]
pub enum TurnEvent {
    /// The wait for a message ended.
    Came(Arrival),
    /// The event was taken in.
    Handled,
    /// The output was driven, and that worked or not.
    Dequeued { worked: bool },
}

/// What to do next in a turn.
#[derive(Debug)]
pub enum TurnAction {
    /// Take an event in.
    Handle(ServerEvent),
    /// Drive the output.
    Dequeue,
    /// Pause the task; the turn is over.
    Pause,
    /// Nothing; the turn is over, and the next one begins.
    Finish,
    /// Nothing: the event is not about what was being done.
    Ignore,
}

/// Whether a pad's task pauses after a turn: there are no more messages to
/// come, or the output could not be driven.
pub fn pauses(closed: bool, turn_worked: bool) -> (r: bool)
    ensures
        r == (closed || !turn_worked),
{
    closed || !turn_worked
}

/// A turn of a pad's task.
#[derive(Debug, Clone, Copy, PartialEq, Eq, Structural)]
pub struct TaskTurn {
    pub phase: TurnPhase,
    /// Whether no more messages will come.
    pub closed: bool,
}

impl TaskTurn {
    /// The start of a turn.
    pub open spec fn start() -> TaskTurn {
        TaskTurn { phase: TurnPhase::Waiting, closed: false }
    }

    /// How far the turn has come after an event.
    pub open spec fn next(self, event: TurnEvent) -> TaskTurn {
        match (self.phase, event) {
            (TurnPhase::Waiting, TurnEvent::Came(Arrival::Event(_))) => TaskTurn {
                phase: TurnPhase::Handling,
                ..self
            },
            (TurnPhase::Waiting, TurnEvent::Came(arrival)) => TaskTurn {
                phase: TurnPhase::Dequeuing,
                closed: arrival is Closed,
            },
            (TurnPhase::Handling, TurnEvent::Handled) => TaskTurn {
                phase: TurnPhase::Dequeuing,
                ..self
            },
            (TurnPhase::Dequeuing, TurnEvent::Dequeued { worked: _ }) => TaskTurn {
                phase: TurnPhase::Over,
                ..self
            },
            _ => self,
        }
    }

    /// What to do next after an event.
    pub open spec fn answer(self, event: TurnEvent) -> TurnAction {
        match (self.phase, event) {
            (TurnPhase::Waiting, TurnEvent::Came(Arrival::Event(event))) => TurnAction::Handle(
                event,
            ),
            (TurnPhase::Waiting, TurnEvent::Came(_)) => TurnAction::Dequeue,
            (TurnPhase::Handling, TurnEvent::Handled) => TurnAction::Dequeue,
            (TurnPhase::Dequeuing, TurnEvent::Dequeued { worked }) => if self.closed || !worked {
                TurnAction::Pause
            } else {
                TurnAction::Finish
            },
            _ => TurnAction::Ignore,
        }
    }

    /// Begins a turn: a message is waited for.
    pub fn begin() -> (r: TaskTurn)
        ensures
            r == TaskTurn::start(),
    {
        TaskTurn { phase: TurnPhase::Waiting, closed: false }
    }

    /// Goes on after an event: an event of the server is taken in, then the
    /// output is driven, and then the task pauses if no more messages come or
    /// the output could not be driven.
    pub fn step(&mut self, event: TurnEvent) -> (r: TurnAction)
        ensures
            *final(self) == old(self).next(event),
            r == old(self).answer(event),
    {
        match (self.phase, event) {
            (TurnPhase::Waiting, TurnEvent::Came(Arrival::Event(event))) => {
                self.phase = TurnPhase::Handling;
                TurnAction::Handle(event)
            },
            (TurnPhase::Waiting, TurnEvent::Came(arrival)) => {
                self.phase = TurnPhase::Dequeuing;
                self.closed = match arrival {
                    Arrival::Closed => true,
                    _ => false,
                };
                TurnAction::Dequeue
            },
            (TurnPhase::Handling, TurnEvent::Handled) => {
                self.phase = TurnPhase::Dequeuing;
                TurnAction::Dequeue
            },
            (TurnPhase::Dequeuing, TurnEvent::Dequeued { worked }) => {
                self.phase = TurnPhase::Over;
                if pauses(self.closed, worked) {
                    TurnAction::Pause
                } else {
                    TurnAction::Finish
                }
            },
            _ => TurnAction::Ignore,
        }
    }
}

/// How far a turn has come after all of the events.
pub open spec fn turn_after(events: Seq<TurnEvent>) -> TaskTurn
    decreases events.len(),
{
    if events.len() == 0 {
        TaskTurn::start()
    } else {
        turn_after(events.drop_last()).next(events.last())
    }
}

/// What a turn was told to do, event by event.
pub open spec fn turn_actions(events: Seq<TurnEvent>) -> Seq<TurnAction>
    decreases events.len(),
{
    if events.len() == 0 {
        Seq::empty()
    } else {
        turn_actions(events.drop_last()).push(
            turn_after(events.drop_last()).answer(events.last()),
        )
    }
}

/// How often a turn was told to drive the output.
pub open spec fn dequeues(actions: Seq<TurnAction>) -> nat
    decreases actions.len(),
{
    if actions.len() == 0 {
        0
    } else {
        dequeues(actions.drop_last()) + if actions.last() is Dequeue {
            1nat
        } else {
            0
        }
    }
}

/// The output is driven exactly once in a turn, whatever comes: never before
/// the wait is over and what came was taken in, and always before the turn is
/// over.
pub proof fn law_turn_dequeues_once(events: Seq<TurnEvent>)
    ensures
        dequeues(turn_actions(events)) == match turn_after(events).phase {
            TurnPhase::Waiting | TurnPhase::Handling => 0nat,
            TurnPhase::Dequeuing | TurnPhase::Over => 1nat,
        },
    decreases events.len(),
{
    if events.len() > 0 {
        let before = turn_actions(events.drop_last());
        law_turn_dequeues_once(events.drop_last());
        assert(turn_actions(events).drop_last() =~= before);
    }
}

/// Any turn ends after what came, the taking in of an event if one came, and
/// one drive of the output: with a pause exactly if no more messages come or
/// the output could not be driven.
pub proof fn law_turn_ends(arrival: Arrival, worked: bool)
    ensures
        ({
            let came = TaskTurn::start().next(TurnEvent::Came(arrival));
            let ready = if arrival is Event {
                came.next(TurnEvent::Handled)
            } else {
                came
            };
            &&& arrival is Event <==> came.phase == TurnPhase::Handling
            &&& arrival is Event ==> TaskTurn::start().answer(TurnEvent::Came(arrival))
                == TurnAction::Handle(arrival->Event_0)
            &&& ready.phase == TurnPhase::Dequeuing
            &&& ready.next(TurnEvent::Dequeued { worked }).phase == TurnPhase::Over
            &&& ready.answer(TurnEvent::Dequeued { worked }) == if arrival is Closed || !worked {
                TurnAction::Pause
            } else {
                TurnAction::Finish
            }
        }),
{
}

/// Only what is about the phase that a turn is in moves it on; it never goes
/// back, and a turn that is over stays over.
pub proof fn law_turn_moves_forward(turn: TaskTurn, event: TurnEvent)
    ensures
        match event {
            TurnEvent::Came(_) => turn.phase != TurnPhase::Waiting,
            TurnEvent::Handled => turn.phase != TurnPhase::Handling,
            TurnEvent::Dequeued { worked: _ } => turn.phase != TurnPhase::Dequeuing,
        } ==> turn.next(event) == turn && turn.answer(event) == TurnAction::Ignore,
        turn.phase == TurnPhase::Over ==> turn.next(event) == turn,
        turn.phase != TurnPhase::Waiting ==> turn.next(event).closed == turn.closed,
        TaskTurn::start().phase == TurnPhase::Waiting,
        !TaskTurn::start().closed,
{
}

/// A step of a turn: an event is taken in before anything else, the output is
/// driven whatever came, and the task pauses only after that.
pub proof fn law_stepping(turn: &mut TaskTurn, event: TurnEvent, action: TurnAction)
    requires
        call_ensures(TaskTurn::step, (turn, event), action),
    ensures
        action is Handle <==> old(turn).phase == TurnPhase::Waiting && event is Came
            && event->Came_0 is Event,
        action is Handle ==> action->Handle_0 == event->Came_0->Event_0,
        action is Dequeue <==> (old(turn).phase == TurnPhase::Waiting && event is Came
            && !(event->Came_0 is Event)) || (old(turn).phase == TurnPhase::Handling && event
            is Handled),
        action is Pause <==> old(turn).phase == TurnPhase::Dequeuing && event is Dequeued && (old(
            turn).closed || !event->worked),
        action is Finish <==> old(turn).phase == TurnPhase::Dequeuing && event is Dequeued && !old(
            turn).closed && event->worked,
        old(turn).phase == TurnPhase::Waiting && event is Came ==> (final(turn).closed <==> (
        event->Came_0 is Closed || (event->Came_0 is Event && old(turn).closed))),
{
}

} // verus!
