//! The relay driver's decision core. Once a session has a duplex channel on
//! both sides, two copy directions run as a race: the first to end — by EOF
//! or by a mid-stream fault — ends the whole session, and whatever the losing
//! direction still carried is dropped, never delivered. The distinction
//! between a clean close and a fault is deliberately erased: either way the
//! session ends, and ending is success. The event loop that reads and writes
//! lives outside the library; it feeds every observation through `on_event`
//! and obeys the returned action.

use vstd::prelude::*;

verus! {

/// One observation made by a relay direction: bytes arrived, the source
/// reached EOF, or the source or sink faulted mid-stream.
#[derive(Clone, Copy, Debug, PartialEq, Eq, Structural)]
pub enum RelayEvent {
    Data { from_client: bool, len: u64 },
    Eof { from_client: bool },
    Fault { from_client: bool },
}

/// What the driver must do with the observation: deliver the bytes onward,
/// or drop them because the race is already over.
#[derive(Clone, Copy, Debug, PartialEq, Eq, Structural)]
pub enum RelayAction {
    Deliver,
    Discard,
}

/// The state of one relay session: whether the race has ended, and how many
/// bytes each direction delivered before it did.
#[derive(Clone, Copy, Debug, PartialEq, Eq, Structural)]
pub struct RelayState {
    pub done: bool,
    pub client_to_server: u64,
    pub server_to_client: u64,
}

/// Addition that stops at the counter's ceiling.
pub open spec fn sat_add(a: u64, b: u64) -> u64 {
    if a + b <= u64::MAX {
        (a + b) as u64
    } else {
        u64::MAX
    }
}

/// The relay transition function. A finished session absorbs every further
/// event without delivering anything; an unfinished one delivers data and
/// counts it, and ends — with nothing delivered — on EOF and fault alike.
pub open spec fn relay_step_spec(s: RelayState, e: RelayEvent) -> (RelayState, RelayAction) {
    if s.done {
        (s, RelayAction::Discard)
    } else {
        match e {
            RelayEvent::Data { from_client, len } => {
                if from_client {
                    (
                        RelayState { client_to_server: sat_add(s.client_to_server, len), ..s },
                        RelayAction::Deliver,
                    )
                } else {
                    (
                        RelayState { server_to_client: sat_add(s.server_to_client, len), ..s },
                        RelayAction::Deliver,
                    )
                }
            }
            RelayEvent::Eof { .. } => (RelayState { done: true, ..s }, RelayAction::Discard),
            RelayEvent::Fault { .. } => (RelayState { done: true, ..s }, RelayAction::Discard),
        }
    }
}

impl RelayState {
    /// A session with both directions still running and nothing delivered.
    pub fn new() -> (r: RelayState)
        ensures
            !r.done,
            r.client_to_server == 0,
            r.server_to_client == 0,
    {
        RelayState { done: false, client_to_server: 0, server_to_client: 0 }
    }

    /// Apply one observation and say what to do with it.
    pub fn on_event(&mut self, e: RelayEvent) -> (r: RelayAction)
        ensures
            *final(self) == relay_step_spec(*old(self), e).0,
            r == relay_step_spec(*old(self), e).1,
    {
        if self.done {
            return RelayAction::Discard;
        }
        match e {
            RelayEvent::Data { from_client, len } => {
                if from_client {
                    self.client_to_server = if len <= u64::MAX - self.client_to_server {
                        self.client_to_server + len
                    } else {
                        u64::MAX
                    };
                } else {
                    self.server_to_client = if len <= u64::MAX - self.server_to_client {
                        self.server_to_client + len
                    } else {
                        u64::MAX
                    };
                }
                RelayAction::Deliver
            }
            RelayEvent::Eof { .. } | RelayEvent::Fault { .. } => {
                self.done = true;
                RelayAction::Discard
            }
        }
    }

    /// Whether the race has ended; ending, however it came, is the success
    /// of the session.
    pub fn is_finished(&self) -> (r: bool)
        ensures
            r == self.done,
    {
        self.done
    }
}

/// The relay race: once either direction has ended the session, every event
/// the other direction still produces is discarded, delivering nothing and
/// changing nothing — no byte is delivered after the first EOF or fault.
pub proof fn lemma_relay_race(s: RelayState, e: RelayEvent)
    requires
        s.done,
    ensures
        relay_step_spec(s, e).0 == s,
        relay_step_spec(s, e).1 is Discard,
{
}

/// Ending a direction ends the session: after an EOF or fault event the
/// state is finished, whichever direction it came from.
pub proof fn lemma_end_finishes(s: RelayState, e: RelayEvent)
    requires
        e is Eof || e is Fault,
    ensures
        relay_step_spec(s, e).0.done,
        relay_step_spec(s, e).1 is Discard,
{
}

/// A mid-stream fault ends the relay exactly as a clean EOF from the same
/// direction does: the close-versus-reset distinction is erased.
pub proof fn lemma_fault_is_eof(s: RelayState, fc: bool)
    ensures
        relay_step_spec(s, RelayEvent::Fault { from_client: fc }) == relay_step_spec(
            s,
            RelayEvent::Eof { from_client: fc },
        ),
{
}

} // verus!
