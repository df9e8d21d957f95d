//! LED encoding: turning `(State, Event)` into the first byte of the
//! 3-byte output report the device expects.

use vstd::prelude::*;
use crate::state::{Event, State};

verus! {

pub const RED: u8 = 0x01;
pub const GREEN: u8 = 0x02;
pub const BLUE: u8 = 0x04;
pub const STRONG: u8 = 0x00;
pub const WEAK: u8 = 0x10;
pub const FAST_PULSE: u8 = 0x20;
pub const SLOW_PULSE: u8 = 0x30;

/// The LED table: color bits or'd with brightness/pattern bits, total
/// over every state and event. A `Press` gets its own rendering; every
/// other event renders alike.
pub open spec fn led_byte(state: State, event: Event) -> u8 {
    match (state, event) {
        (State::Silent, Event::Press) => BLUE | WEAK,
        (State::Silent, _) => 0,
        (State::Muted, Event::Press) => RED | STRONG,
        (State::Muted, _) => RED | SLOW_PULSE,
        (State::Unmuted, Event::Press) => GREEN | STRONG,
        (State::Unmuted, _) => GREEN | WEAK,
        (State::Confused, _) => RED | GREEN | FAST_PULSE,
    }
}

/// The LED table distinguishes only press from non-press: two events
/// in the same category render the same byte, for every state.
pub proof fn lemma_led_category(state: State, e1: Event, e2: Event)
    requires
        (e1 is Press) <==> (e2 is Press),
    ensures
        led_byte(state, e1) == led_byte(state, e2),
{
}

/// The table written out bit-exactly: every one of the four states
/// crossed with the two event categories yields the defined byte.
pub proof fn lemma_led_table()
    ensures
        led_byte(State::Silent, Event::Press) == 0x14,
        led_byte(State::Silent, Event::Release) == 0x00,
        led_byte(State::Muted, Event::Press) == 0x01,
        led_byte(State::Muted, Event::Release) == 0x31,
        led_byte(State::Unmuted, Event::Press) == 0x02,
        led_byte(State::Unmuted, Event::Release) == 0x12,
        led_byte(State::Confused, Event::Press) == 0x23,
        led_byte(State::Confused, Event::Release) == 0x23,
{
    assert(0x04u8 | 0x10u8 == 0x14u8) by (bit_vector);
    assert(0x01u8 | 0x00u8 == 0x01u8) by (bit_vector);
    assert(0x01u8 | 0x30u8 == 0x31u8) by (bit_vector);
    assert(0x02u8 | 0x00u8 == 0x02u8) by (bit_vector);
    assert(0x02u8 | 0x10u8 == 0x12u8) by (bit_vector);
    assert(0x01u8 | 0x02u8 | 0x20u8 == 0x23u8) by (bit_vector);
}

impl State {
    /// Encodes this state and the latest button event into the LED
    /// byte of the output report.
    pub fn msg(&self, event: &Event) -> (r: u8)
        ensures
            r == led_byte(*self, *event),
    {
        match (self, event) {
            (State::Silent, Event::Press) => BLUE | WEAK,
            (State::Silent, _) => 0,
            (State::Muted, Event::Press) => RED | STRONG,
            (State::Muted, _) => RED | SLOW_PULSE,
            (State::Unmuted, Event::Press) => GREEN | STRONG,
            (State::Unmuted, _) => GREEN | WEAK,
            (State::Confused, _) => RED | GREEN | FAST_PULSE,
        }
    }
}

} // verus!
