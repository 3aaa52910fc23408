//! The reconnection loop as a state machine.
//!
//! The machine decides; whoever runs it does the work of each state and
//! reports what came of it as an event. In `Locate` the devices are
//! enumerated and the first mouse is opened. In `Poll` a timer is awaited
//! and the battery queried. In `Idle` nothing is known of the mouse: the
//! hot-plug subscription is made there. In `Watch` hot-plug events and
//! the timer are raced. There is no final state.

use vstd::prelude::*;
use crate::hotplug::UdevEventError;
use crate::locate::OpenFirstMouseError;
use crate::mouse::{BatteryStatus, Driver};

verus! {

/// Where the loop stands.
#[derive(Debug, Clone, Copy, PartialEq, Eq, Structural)]
pub enum State {
    /// Looking for a mouse among the devices that are plugged in.
    Locate,
    /// Querying the battery of an opened mouse at each tick of the timer.
    Poll,
    /// The mouse was lost or never found; the watch is being set up.
    Idle,
    /// Waiting for a mouse of the table to be plugged in.
    Watch,
}

/// What came of the work of a state.
#[derive(Debug, Clone, Copy, PartialEq, Eq)]
pub enum Event {
    /// A mouse was found, opened and bound to its driver.
    Located,
    /// No mouse was found, or the one found could not be used.
    LocateFailed,
    /// The mouse answered the battery request, with a reading or without.
    Reading(Option<BatteryStatus>),
    /// Writing to the mouse or reading from it failed.
    ConnectionLost,
    /// The hot-plug subscription stands.
    Subscribed,
    /// A hot-plug event came in and was looked at.
    Hotplug(Result<bool, UdevEventError>),
    /// The subscription handed out an error in place of an event.
    MonitorError,
    /// The subscription has ended.
    MonitorClosed,
    /// The timer ran out before any hot-plug event came.
    Timeout,
}

/// What to write to standard output.
#[derive(Debug, Clone, Copy, PartialEq, Eq, Structural)]
pub enum Output {
    /// Nothing.
    Nothing,
    /// The status line of a reading.
    Status(BatteryStatus),
    /// An empty line: the state of the mouse is unknown.
    Blank,
}

/// The answer of the machine to an event.
#[derive(Debug, Clone, Copy, PartialEq, Eq, Structural)]
pub struct Transition {
    /// The state to go on in.
    pub next: State,
    /// What to print first.
    pub output: Output,
    /// Whether to set the timer to one interval from now.
    pub rearm: bool,
}

/// Whether an event can come of the work of a state.
pub open spec fn belongs(state: State, event: Event) -> bool {
    match state {
        State::Locate => event is Located || event is LocateFailed,
        State::Poll => event is Reading || event is ConnectionLost,
        State::Idle => event is Subscribed,
        State::Watch => event is Hotplug || event is MonitorError || event is MonitorClosed
            || event is Timeout,
    }
}

/// The transition table. An event that does not belong to the state
/// changes nothing.
pub open spec fn transition(state: State, event: Event) -> Transition {
    match (state, event) {
        (State::Locate, Event::Located) => Transition {
            next: State::Poll,
            output: Output::Nothing,
            rearm: false,
        },
        (State::Locate, Event::LocateFailed) => Transition {
            next: State::Idle,
            output: Output::Blank,
            rearm: false,
        },
        (State::Poll, Event::Reading(Some(status))) => Transition {
            next: State::Poll,
            output: Output::Status(status),
            rearm: true,
        },
        (State::Poll, Event::Reading(None)) => Transition {
            next: State::Poll,
            output: Output::Nothing,
            rearm: true,
        },
        (State::Poll, Event::ConnectionLost) => Transition {
            next: State::Idle,
            output: Output::Blank,
            rearm: false,
        },
        (State::Idle, Event::Subscribed) => Transition {
            next: State::Watch,
            output: Output::Nothing,
            rearm: true,
        },
        (State::Watch, Event::Hotplug(Ok(true))) => Transition {
            next: State::Locate,
            output: Output::Nothing,
            rearm: false,
        },
        (State::Watch, Event::MonitorClosed) => Transition {
            next: State::Locate,
            output: Output::Nothing,
            rearm: false,
        },
        (State::Watch, Event::Timeout) => Transition {
            next: State::Watch,
            output: Output::Nothing,
            rearm: true,
        },
        _ => Transition { next: state, output: Output::Nothing, rearm: false },
    }
}

/// The state in which the loop starts.
pub fn initial_state() -> (state: State)
    ensures
        state == State::Locate,
{
    State::Locate
}

/// Answers an event: the next state, what to print, and whether to set
/// the timer anew.
pub fn step(state: State, event: Event) -> (answer: Transition)
    ensures
        answer == transition(state, event),
        !belongs(state, event) ==> answer == (Transition {
            next: state,
            output: Output::Nothing,
            rearm: false,
        }),
        state == State::Poll && event is Reading ==> answer.next == State::Poll && answer.rearm,
        state == State::Poll && event is ConnectionLost ==> answer.next == State::Idle
            && answer.output == Output::Blank,
        state == State::Watch && answer.next != State::Watch ==> answer.next == State::Locate && (
        event == Event::Hotplug(Ok(true)) || event is MonitorClosed),
{
    match state {
        State::Locate => match event {
            Event::Located => Transition {
                next: State::Poll,
                output: Output::Nothing,
                rearm: false,
            },
            Event::LocateFailed => Transition {
                next: State::Idle,
                output: Output::Blank,
                rearm: false,
            },
            _ => Transition { next: state, output: Output::Nothing, rearm: false },
        },
        State::Poll => match event {
            Event::Reading(reading) => {
                let output = match reading {
                    Some(status) => Output::Status(status),
                    None => Output::Nothing,
                };
                Transition { next: State::Poll, output, rearm: true }
            },
            Event::ConnectionLost => Transition {
                next: State::Idle,
                output: Output::Blank,
                rearm: false,
            },
            _ => Transition { next: state, output: Output::Nothing, rearm: false },
        },
        State::Idle => match event {
            Event::Subscribed => Transition {
                next: State::Watch,
                output: Output::Nothing,
                rearm: true,
            },
            _ => Transition { next: state, output: Output::Nothing, rearm: false },
        },
        State::Watch => match event {
            Event::Hotplug(Ok(true)) | Event::MonitorClosed => Transition {
                next: State::Locate,
                output: Output::Nothing,
                rearm: false,
            },
            Event::Timeout => Transition {
                next: State::Watch,
                output: Output::Nothing,
                rearm: true,
            },
            _ => Transition { next: state, output: Output::Nothing, rearm: false },
        },
    }
}

/// What a search comes to: with a driver in hand the mouse is located,
/// and every failure, whatever its kind, is a failed search.
pub fn locate_event<D>(outcome: &Result<Driver<D>, OpenFirstMouseError>) -> (event: Event)
    ensures
        event == (if outcome is Ok {
            Event::Located
        } else {
            Event::LocateFailed
        }),
{
    match outcome {
        Ok(_) => Event::Located,
        Err(_) => Event::LocateFailed,
    }
}

/// What an exchange with the mouse comes to. An answer is a reading,
/// also where it decodes to none; only a failure of the exchange itself,
/// in writing the request or in reading the response, is a lost
/// connection.
pub fn poll_event<D, E>(mouse: &Driver<D>, answer: &Result<[u8; 2], E>) -> (event: Event)
    ensures
        event == (match *answer {
            Ok(response) => Event::Reading(mouse.reading(response@)),
            Err(_) => Event::ConnectionLost,
        }),
        belongs(State::Poll, event),
{
    match answer {
        Ok(response) => Event::Reading(mouse.battery(response)),
        Err(_) => Event::ConnectionLost,
    }
}

/// The edges of the cycle: from the search to the polling or, on
/// failure, to idling; from the polling to idling; from idling to the
/// watch; from the watch back to the search.
pub open spec fn follows(state: State, next: State) -> bool {
    match state {
        State::Locate => next == State::Poll || next == State::Idle,
        State::Poll => next == State::Idle,
        State::Idle => next == State::Watch,
        State::Watch => next == State::Locate,
    }
}

/// An event that belongs to a state.
pub open spec fn some_event_of(state: State) -> Event {
    match state {
        State::Locate => Event::LocateFailed,
        State::Poll => Event::ConnectionLost,
        State::Idle => Event::Subscribed,
        State::Watch => Event::Timeout,
    }
}

/// Every answer either stays in the state or moves along an edge of the
/// cycle, and only an event that belongs to the state can move at all.
pub proof fn lemma_moves_along_the_cycle(state: State, event: Event)
    ensures
        transition(state, event).next == state || follows(state, transition(state, event).next),
        transition(state, event).next != state ==> belongs(state, event),
{
}

/// The loop has no end: whatever state it is in, some event belongs to
/// that state, and every event is answered with a state.
pub proof fn lemma_no_final_state(state: State)
    ensures
        exists|event: Event| belongs(state, event),
{
    assert(belongs(state, some_event_of(state)));
}

/// A reading, present or absent, never ends the polling: whatever the
/// mouse answers, the loop polls on, prints the reading if there is one,
/// and sets the timer anew.
pub proof fn lemma_reading_keeps_polling(reading: Option<BatteryStatus>)
    ensures
        transition(State::Poll, Event::Reading(reading)).next == State::Poll,
        transition(State::Poll, Event::Reading(reading)).rearm,
        transition(State::Poll, Event::Reading(reading)).output == (match reading {
            Some(status) => Output::Status(status),
            None => Output::Nothing,
        }),
{
}

/// The polling ends on a lost connection and on nothing else, and it
/// ends in idling.
pub proof fn lemma_polling_ends_on_lost_connection(event: Event)
    ensures
        transition(State::Poll, event).next != State::Poll <==> event is ConnectionLost,
        event is ConnectionLost ==> transition(State::Poll, event).next == State::Idle,
{
}

/// Idling ends when the subscription stands and on nothing else, and it
/// ends in the watch.
pub proof fn lemma_idling_ends_on_subscription(event: Event)
    ensures
        transition(State::Idle, event).next != State::Idle <==> event is Subscribed,
        event is Subscribed ==> transition(State::Idle, event).next == State::Watch,
{
}

/// The watch ends only when a mouse of the table is plugged in or the
/// subscription ends, and then the search starts over. A timeout, an
/// event of no interest and an event that cannot be read all leave it
/// standing.
pub proof fn lemma_watch_ends_on_attach(event: Event)
    ensures
        transition(State::Watch, event).next != State::Watch <==> event == Event::Hotplug(
            Ok(true),
        ) || event is MonitorClosed,
        transition(State::Watch, event).next != State::Watch ==> transition(
            State::Watch,
            event,
        ).next == State::Locate,
{
}

/// An empty line is printed exactly when the loop comes to idle from
/// another state: when the search failed or the connection was lost.
pub proof fn lemma_blank_on_entering_idle(state: State, event: Event)
    ensures
        transition(state, event).output == Output::Blank <==> state != State::Idle && transition(
            state,
            event,
        ).next == State::Idle,
{
}

/// A status line is printed exactly when a poll gave a reading, and it
/// is the line of that reading.
pub proof fn lemma_status_only_of_a_reading(state: State, event: Event, status: BatteryStatus)
    ensures
        transition(state, event).output == Output::Status(status) <==> state == State::Poll
            && event == Event::Reading(Some(status)),
{
}

} // verus!
