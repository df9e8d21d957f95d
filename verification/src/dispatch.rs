//! The dispatcher: the single consumer of the message channel. It
//! remembers the latest aggregate state and the latest button event,
//! decides when a button release must push a mute command to the
//! streams, and renders the LED after every processed message.

use vstd::prelude::*;
use crate::led::led_byte;
use crate::state::{next_target, spec_is_muted, Event, Message, State};

verus! {

/// What the caller must carry out after one message: optionally push
/// `mute = command` to every tracked stream, and write `led` to the
/// device (best-effort; a no-op while disconnected).
#[derive(Debug, Clone, Copy, PartialEq, Eq, Structural)]
pub struct DispatchOutcome {
    pub command: Option<bool>,
    pub led: u8,
}

/// The mute command a message provokes: only a button release flips
/// the target state, and only a concrete target (`Muted`/`Unmuted`)
/// yields a command. `Silent` stays `Silent`: a press with no streams
/// has no effect.
pub open spec fn spec_command(last_state: State, msg: Message) -> Option<bool> {
    match msg {
        Message::Event(Event::Release) => spec_is_muted(next_target(last_state)),
        _ => None,
    }
}

/// The dispatcher's local memory: the latest aggregate state and the
/// latest button event it has seen.
pub struct Dispatcher {
    pub last_state: State,
    pub last_button: Event,
}

impl Dispatcher {
    /// A fresh dispatcher: no streams heard from (`Silent`), button at
    /// rest (`Release`).
    pub fn new() -> (d: Dispatcher)
        ensures
            d.last_state == State::Silent,
            d.last_button == Event::Release,
    {
        Dispatcher { last_state: State::Silent, last_button: Event::Release }
    }

    /// Processes one message: stores what it carries, computes the
    /// mute command a release provokes, and renders the LED for the
    /// stored pair.
    pub fn handle(&mut self, msg: Message) -> (out: DispatchOutcome)
        ensures
            final(self).last_state == (match msg {
                Message::State(s) => s,
                Message::Event(_) => old(self).last_state,
            }),
            final(self).last_button == (match msg {
                Message::Event(e) => e,
                Message::State(_) => old(self).last_button,
            }),
            out.command == spec_command(old(self).last_state, msg),
            out.led == led_byte(final(self).last_state, final(self).last_button),
    {
        let mut command: Option<bool> = None;
        match msg {
            Message::State(s) => {
                self.last_state = s;
            },
            Message::Event(e) => {
                self.last_button = e;
                match e {
                    Event::Release => {
                        let target = match self.last_state {
                            State::Silent => State::Silent,
                            State::Muted => State::Unmuted,
                            _ => State::Muted,
                        };
                        command = target.is_muted();
                    },
                    _ => {},
                }
            },
        }
        let led = self.last_state.msg(&self.last_button);
        DispatchOutcome { command, led }
    }
}

} // verus!
