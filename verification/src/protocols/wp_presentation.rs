//! Presentation-time records: the clock a presentation global reports.

use vstd::prelude::*;

use crate::app::{apply_event, AppData, CollectorEvent};

verus! {

/// One presentation global and the clock id it has reported, if any.
pub struct PresentationInfo {
    pub name: u32,
    pub clock_id: Option<u32>,
}

/// Mathematical image of a `PresentationInfo`.
#[verifier::ext_equal]
pub ghost struct PresentationView {
    pub name: u32,
    pub clock_id: Option<u32>,
}

impl View for PresentationInfo {
    type V = PresentationView;

    open spec fn view(&self) -> PresentationView {
        PresentationView { name: self.name, clock_id: self.clock_id }
    }
}

impl DeepView for PresentationInfo {
    type V = PresentationView;

    open spec fn deep_view(&self) -> PresentationView {
        self.view()
    }
}

impl AppData {
    /// Creates the record for a newly announced presentation global, with
    /// no clock id yet.
    pub fn add_presentation(&mut self, name: u32)
        ensures
            final(self)@ == apply_event(old(self)@, CollectorEvent::AddPresentation { name }),
    {
        self.presentation_info.push(PresentationInfo { name, clock_id: None });
        proof {
            assert(self@ =~~= apply_event(old(self)@, CollectorEvent::AddPresentation { name }));
        }
    }

    /// Records the clock id reported by the presentation global at
    /// `presentation_index`; an index past the records discards the event.
    pub fn update_presentation_clock_id(&mut self, presentation_index: usize, clock_id: u32)
        ensures
            final(self)@ == apply_event(
                old(self)@,
                CollectorEvent::UpdatePresentationClockId {
                    presentation_index: presentation_index as int,
                    clock_id,
                },
            ),
    {
        if presentation_index < self.presentation_info.len() {
            self.presentation_info[presentation_index].clock_id = Some(clock_id);
            proof {
                assert(self@ =~~= apply_event(
                    old(self)@,
                    CollectorEvent::UpdatePresentationClockId {
                        presentation_index: presentation_index as int,
                        clock_id,
                    },
                ));
            }
        }
    }
}

} // verus!
