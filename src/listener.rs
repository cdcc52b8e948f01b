//! The lifecycle of the trigger listener, as a state machine.
//!
//! The caller binds the socket, receives datagrams and sends triggers into
//! the channel; it reports each outcome here as an event, and learns the
//! next state and whether a trigger is to be forwarded. A stopped or faulted
//! listener stays so.
use vstd::prelude::*;
use crate::protocol::{parse_trigger, trigger_of};

verus! {

#[derive(PartialEq, Eq, Structural, Clone, Copy)]
pub enum ListenerState {
    Idle,
    Bound,
    Listening,
    Stopped,
    Faulted,
}

pub enum ListenerEvent {
    BindSucceeded,
    BindFailed,
    ReceiveStarted,
    Datagram(Vec<u8>),
    ReceiveFailed,
    StopRequested,
}

impl ListenerState {
    pub open spec fn is_terminal(self) -> bool {
        self == ListenerState::Stopped || self == ListenerState::Faulted
    }

    /// Whether the listener holds its port: bound, or receiving.
    pub fn is_running(self) -> (r: bool)
        ensures
            r == (self == ListenerState::Bound || self == ListenerState::Listening),
    {
        match self {
            ListenerState::Bound | ListenerState::Listening => true,
            _ => false,
        }
    }
}

/// The state that follows `s` on an event; events that do not apply to a
/// state leave it as it is.
pub open spec fn next_state(s: ListenerState, e: ListenerEvent) -> ListenerState {
    if s.is_terminal() {
        s
    } else {
        match e {
            ListenerEvent::StopRequested => ListenerState::Stopped,
            ListenerEvent::BindSucceeded => if s == ListenerState::Idle {
                ListenerState::Bound
            } else {
                s
            },
            ListenerEvent::BindFailed => if s == ListenerState::Idle {
                ListenerState::Faulted
            } else {
                s
            },
            ListenerEvent::ReceiveStarted => if s == ListenerState::Bound {
                ListenerState::Listening
            } else {
                s
            },
            ListenerEvent::ReceiveFailed => if s == ListenerState::Listening {
                ListenerState::Faulted
            } else {
                s
            },
            ListenerEvent::Datagram(_) => s,
        }
    }
}

/// The trigger forwarded on an event: the number a datagram carries, where
/// the listener is receiving; nothing otherwise.
pub open spec fn forwarded(s: ListenerState, e: ListenerEvent) -> Option<nat> {
    match e {
        ListenerEvent::Datagram(p) => if s == ListenerState::Listening {
            trigger_of(p@)
        } else {
            None
        },
        _ => None,
    }
}

/// Applies one event: the next state, and the trigger to send into the
/// channel, if any.
pub fn step(s: ListenerState, e: ListenerEvent) -> (r: (ListenerState, Option<usize>))
    ensures
        r.0 == next_state(s, e),
        r.1 matches Some(n) ==> forwarded(s, e) == Some(n as nat),
        r.1 is None ==> forwarded(s, e) is None,
{
    let terminal = match s {
        ListenerState::Stopped | ListenerState::Faulted => true,
        _ => false,
    };
    match e {
        ListenerEvent::Datagram(p) => {
            if s == ListenerState::Listening {
                (s, parse_trigger(p.as_slice()))
            } else {
                (s, None)
            }
        },
        ListenerEvent::StopRequested => {
            if terminal {
                (s, None)
            } else {
                (ListenerState::Stopped, None)
            }
        },
        ListenerEvent::BindSucceeded => {
            if s == ListenerState::Idle {
                (ListenerState::Bound, None)
            } else {
                (s, None)
            }
        },
        ListenerEvent::BindFailed => {
            if s == ListenerState::Idle {
                (ListenerState::Faulted, None)
            } else {
                (s, None)
            }
        },
        ListenerEvent::ReceiveStarted => {
            if s == ListenerState::Bound {
                (ListenerState::Listening, None)
            } else {
                (s, None)
            }
        },
        ListenerEvent::ReceiveFailed => {
            if s == ListenerState::Listening {
                (ListenerState::Faulted, None)
            } else {
                (s, None)
            }
        },
    }
}

/// A stopped or faulted listener stays stopped or faulted, whatever comes,
/// and forwards nothing.
pub proof fn law_terminal_states_are_final(s: ListenerState, e: ListenerEvent)
    requires
        s.is_terminal(),
    ensures
        next_state(s, e) == s,
        forwarded(s, e) is None,
{
}

/// A datagram never changes the state, and one whose payload carries no
/// trigger number forwards nothing.
pub proof fn law_malformed_datagram_is_not_forwarded(s: ListenerState, p: Vec<u8>)
    requires
        trigger_of(p@) is None,
    ensures
        next_state(s, ListenerEvent::Datagram(p)) == s,
        forwarded(s, ListenerEvent::Datagram(p)) is None,
{
}

} // verus!
