//! The device-link state machine: classifying raw input reports into
//! button events, and the hotplug-recovery decisions that keep the
//! connection resilient to removal and reinsertion. The blocking I/O
//! (opening, reading, waiting on hotplug notifications) stays outside
//! the library; this module decides what to do after each outcome.

use vstd::prelude::*;
use crate::state::Event;

verus! {

/// The transition code a press carries at byte offset 3 of the input
/// report.
pub const PRESS_CODE: u8 = 4;

/// Physical-presence state of the device link: waiting for the device
/// to appear, or connected and reading input reports.
#[derive(Debug, Clone, Copy, PartialEq, Eq, Structural)]
pub enum LinkState {
    Waiting,
    Reading,
}

/// What the outside world reported to the link supervisor: the outcome
/// of a device open, the outcome of a blocking read (carrying the
/// transition-code byte), or a hotplug notification (an "added" event
/// on the device's subsystem, or anything else — other event types,
/// and notifications that could not be read or parsed).
#[derive(Debug, Clone, Copy, PartialEq, Eq, Structural)]
pub enum LinkInput {
    OpenOk,
    OpenFailed,
    ReadOk(u8),
    ReadFailed,
    HotplugAdd,
    HotplugOther,
}

/// What the caller must carry out after a step: move to `next`, send
/// `emit` on the channel if any, drain already-queued hotplug
/// notifications (right after a successful open, so stale add events
/// are not replayed), and attempt to open the device now.
#[derive(Debug, Clone, Copy, PartialEq, Eq, Structural)]
pub struct LinkStep {
    pub next: LinkState,
    pub emit: Option<Event>,
    pub drain: bool,
    pub retry_open: bool,
}

/// How a transition-code byte reads as a button event: `PRESS_CODE` is
/// a press, the configured release code a release, and every other
/// code (repeat and duplicate codes among them) is ignored. The
/// release code differs across firmware revisions, so it is
/// configuration, not a constant.
pub open spec fn spec_classify(code: u8, release_code: u8) -> Option<Event> {
    if code == PRESS_CODE {
        Some(Event::Press)
    } else if code == release_code {
        Some(Event::Release)
    } else {
        None
    }
}

/// The transition table of the link supervisor.
///
/// A successful open always lands in `Reading`, emits `Hotplug`, and
/// drains stale notifications. A failed open falls back to waiting: an
/// absent device is expected and retried forever. While reading, a
/// report classifies into an event, and a read error (hardware
/// disconnection) leaves reading and immediately retries the open.
/// While waiting, an "added" notification retries the open and
/// anything else resumes the wait. Inputs that cannot arrive in a
/// state change nothing.
pub open spec fn spec_link_step(cur: LinkState, input: LinkInput, release_code: u8) -> LinkStep {
    match input {
        LinkInput::OpenOk => LinkStep {
            next: LinkState::Reading,
            emit: Some(Event::Hotplug),
            drain: true,
            retry_open: false,
        },
        LinkInput::OpenFailed => LinkStep {
            next: LinkState::Waiting,
            emit: None,
            drain: false,
            retry_open: false,
        },
        LinkInput::ReadOk(code) => {
            if cur is Reading {
                LinkStep {
                    next: LinkState::Reading,
                    emit: spec_classify(code, release_code),
                    drain: false,
                    retry_open: false,
                }
            } else {
                LinkStep { next: cur, emit: None, drain: false, retry_open: false }
            }
        },
        LinkInput::ReadFailed => {
            if cur is Reading {
                LinkStep {
                    next: LinkState::Waiting,
                    emit: None,
                    drain: false,
                    retry_open: true,
                }
            } else {
                LinkStep { next: cur, emit: None, drain: false, retry_open: false }
            }
        },
        LinkInput::HotplugAdd => {
            if cur is Waiting {
                LinkStep { next: LinkState::Waiting, emit: None, drain: false, retry_open: true }
            } else {
                LinkStep { next: cur, emit: None, drain: false, retry_open: false }
            }
        },
        LinkInput::HotplugOther => LinkStep {
            next: cur,
            emit: None,
            drain: false,
            retry_open: false,
        },
    }
}

/// Classifies one transition-code byte.
pub fn classify_code(code: u8, release_code: u8) -> (r: Option<Event>)
    ensures
        r == spec_classify(code, release_code),
{
    if code == PRESS_CODE {
        Some(Event::Press)
    } else if code == release_code {
        Some(Event::Release)
    } else {
        None
    }
}

/// Classifies a whole input report: the transition code sits at byte
/// offset 3 of the 8-byte report.
pub fn classify_report(report: &[u8], release_code: u8) -> (r: Option<Event>)
    requires
        report@.len() >= 4,
    ensures
        r == spec_classify(report@[3], release_code),
{
    classify_code(report[3], release_code)
}

/// Takes one step of the link supervisor.
pub fn link_step(cur: LinkState, input: LinkInput, release_code: u8) -> (step: LinkStep)
    ensures
        step == spec_link_step(cur, input, release_code),
{
    match input {
        LinkInput::OpenOk => LinkStep {
            next: LinkState::Reading,
            emit: Some(Event::Hotplug),
            drain: true,
            retry_open: false,
        },
        LinkInput::OpenFailed => LinkStep {
            next: LinkState::Waiting,
            emit: None,
            drain: false,
            retry_open: false,
        },
        LinkInput::ReadOk(code) => {
            if matches!(cur, LinkState::Reading) {
                LinkStep {
                    next: LinkState::Reading,
                    emit: classify_code(code, release_code),
                    drain: false,
                    retry_open: false,
                }
            } else {
                LinkStep { next: cur, emit: None, drain: false, retry_open: false }
            }
        },
        LinkInput::ReadFailed => {
            if matches!(cur, LinkState::Reading) {
                LinkStep { next: LinkState::Waiting, emit: None, drain: false, retry_open: true }
            } else {
                LinkStep { next: cur, emit: None, drain: false, retry_open: false }
            }
        },
        LinkInput::HotplugAdd => {
            if matches!(cur, LinkState::Waiting) {
                LinkStep { next: LinkState::Waiting, emit: None, drain: false, retry_open: true }
            } else {
                LinkStep { next: cur, emit: None, drain: false, retry_open: false }
            }
        },
        LinkInput::HotplugOther => LinkStep {
            next: cur,
            emit: None,
            drain: false,
            retry_open: false,
        },
    }
}

/// A hardware disconnection never kills the link: from `Reading`, a
/// read error falls back to `Waiting` and retries the open, and every
/// later successful open lands back in `Reading` with a fresh
/// `Hotplug` emitted — reading resumes.
pub proof fn lemma_disconnect_recovers(release_code: u8)
    ensures
        spec_link_step(LinkState::Reading, LinkInput::ReadFailed, release_code).next
            == LinkState::Waiting,
        spec_link_step(LinkState::Reading, LinkInput::ReadFailed, release_code).retry_open,
        forall|cur: LinkState| (#[trigger] spec_link_step(cur, LinkInput::OpenOk, release_code)).next
            == LinkState::Reading,
        forall|cur: LinkState| (#[trigger] spec_link_step(cur, LinkInput::OpenOk, release_code)).emit
            == Some(Event::Hotplug),
{
}

} // verus!
