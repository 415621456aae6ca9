//! Seat records: identity, capability tokens, and key-repeat settings.

use vstd::prelude::*;

use crate::app::{apply_event, AppData, CollectorEvent};

verus! {

/// One seat: numeric id, display name, capability tokens, and the repeat
/// settings reported by the seat's keyboard (absent until the event comes).
pub struct SeatInfo {
    pub name: u32,
    pub seat_name: String,
    pub capabilities: Vec<String>,
    pub keyboard_repeat_rate: Option<i32>,
    pub keyboard_repeat_delay: Option<i32>,
}

/// Mathematical image of a `SeatInfo`.
#[verifier::ext_equal]
pub ghost struct SeatView {
    pub name: u32,
    pub seat_name: Seq<char>,
    pub capabilities: Seq<Seq<char>>,
    pub keyboard_repeat_rate: Option<i32>,
    pub keyboard_repeat_delay: Option<i32>,
}

impl View for SeatInfo {
    type V = SeatView;

    open spec fn view(&self) -> SeatView {
        SeatView {
            name: self.name,
            seat_name: self.seat_name@,
            capabilities: self.capabilities.deep_view(),
            keyboard_repeat_rate: self.keyboard_repeat_rate,
            keyboard_repeat_delay: self.keyboard_repeat_delay,
        }
    }
}

impl DeepView for SeatInfo {
    type V = SeatView;

    open spec fn deep_view(&self) -> SeatView {
        self.view()
    }
}

/// The capability tokens named by a seat-capability bit set, in the fixed
/// order pointer, keyboard, touch; unknown bits contribute nothing.
pub open spec fn capability_tokens_of(bits: u32) -> Seq<Seq<char>> {
    (if bits & 1 == 1 {
        seq!["pointer"@]
    } else {
        Seq::empty()
    }) + (if bits & 2 == 2 {
        seq!["keyboard"@]
    } else {
        Seq::empty()
    }) + (if bits & 4 == 4 {
        seq!["touch"@]
    } else {
        Seq::empty()
    })
}

/// Decodes a seat-capability bit set into its canonical lowercase tokens.
pub fn capability_tokens(bits: u32) -> (r: Vec<String>)
    ensures
        r.deep_view() == capability_tokens_of(bits),
{
    let mut r: Vec<String> = Vec::new();
    if bits & 1 == 1 {
        r.push("pointer".to_owned());
    }
    if bits & 2 == 2 {
        r.push("keyboard".to_owned());
    }
    if bits & 4 == 4 {
        r.push("touch".to_owned());
    }
    proof {
        assert(r.deep_view() =~= capability_tokens_of(bits));
    }
    r
}

impl AppData {
    /// Creates the seat record for a newly announced seat: no capabilities
    /// and no repeat settings yet.
    pub fn add_seat(&mut self, name: u32, seat_name: String)
        ensures
            final(self)@ == apply_event(
                old(self)@,
                CollectorEvent::AddSeat { name, seat_name: seat_name@ },
            ),
    {
        self.seats.push(SeatInfo {
            name,
            seat_name,
            capabilities: Vec::new(),
            keyboard_repeat_rate: None,
            keyboard_repeat_delay: None,
        });
        proof {
            assert(self@ =~~= apply_event(
                old(self)@,
                CollectorEvent::AddSeat { name, seat_name: seat_name@ },
            ));
        }
    }

    /// Replaces the capability tokens of the seat at `seat_index`; an index
    /// past the records discards the event.
    pub fn update_seat_capabilities(&mut self, seat_index: usize, capabilities: Vec<String>)
        ensures
            final(self)@ == apply_event(
                old(self)@,
                CollectorEvent::UpdateSeatCapabilities {
                    seat_index: seat_index as int,
                    capabilities: capabilities.deep_view(),
                },
            ),
    {
        if seat_index < self.seats.len() {
            self.seats[seat_index].capabilities = capabilities;
            proof {
                assert(self@ =~~= apply_event(
                    old(self)@,
                    CollectorEvent::UpdateSeatCapabilities {
                        seat_index: seat_index as int,
                        capabilities: capabilities.deep_view(),
                    },
                ));
            }
        }
    }

    /// Records the repeat rate and delay reported by the keyboard bound for
    /// the seat at `seat_index`; an index past the records discards the
    /// event.
    pub fn update_seat_keyboard_repeat(&mut self, seat_index: usize, rate: i32, delay: i32)
        ensures
            final(self)@ == apply_event(
                old(self)@,
                CollectorEvent::UpdateSeatKeyboardRepeat {
                    seat_index: seat_index as int,
                    rate,
                    delay,
                },
            ),
    {
        if seat_index < self.seats.len() {
            self.seats[seat_index].keyboard_repeat_rate = Some(rate);
            self.seats[seat_index].keyboard_repeat_delay = Some(delay);
            proof {
                assert(self@ =~~= apply_event(
                    old(self)@,
                    CollectorEvent::UpdateSeatKeyboardRepeat {
                        seat_index: seat_index as int,
                        rate,
                        delay,
                    },
                ));
            }
        }
    }

    /// Replaces the display name of the seat at `seat_index`; an index past
    /// the records discards the event.
    pub fn update_seat_name(&mut self, seat_index: usize, name: String)
        ensures
            final(self)@ == apply_event(
                old(self)@,
                CollectorEvent::UpdateSeatName { seat_index: seat_index as int, name: name@ },
            ),
    {
        if seat_index < self.seats.len() {
            self.seats[seat_index].seat_name = name;
            proof {
                assert(self@ =~~= apply_event(
                    old(self)@,
                    CollectorEvent::UpdateSeatName {
                        seat_index: seat_index as int,
                        name: name@,
                    },
                ));
            }
        }
    }
}

} // verus!
