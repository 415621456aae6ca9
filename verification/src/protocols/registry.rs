//! The registry listener's decision: which record a newly announced global
//! gets, and which bind, if any, must be issued for it.

use vstd::prelude::*;

use crate::app::{apply_event, AppData, CollectorEvent, SnapshotView, UserData};
use crate::textfmt::{dec_digits, string_eq_literal};

verus! {

/// The snapshot after one global announcement: the recognized interfaces
/// get their per-protocol record (seats and outputs with a generated
/// display name, "seat0", "output1", ... from the new record's index), and
/// every announcement, recognized or not, is appended to the global list.
pub open spec fn handle_global_spec(
    s: SnapshotView,
    name: u32,
    interface: Seq<char>,
    version: u32,
) -> SnapshotView {
    let s1 = if interface == "wl_seat"@ {
        apply_event(
            s,
            CollectorEvent::AddSeat { name, seat_name: "seat"@ + dec_digits(s.seats.len()) },
        )
    } else if interface == "wl_output"@ {
        apply_event(
            s,
            CollectorEvent::AddOutput {
                name,
                output_name: "output"@ + dec_digits(s.outputs.len()),
            },
        )
    } else if interface == "wl_shm"@ {
        apply_event(s, CollectorEvent::AddShm { name })
    } else if interface == "wp_drm_lease_device_v1"@ {
        apply_event(s, CollectorEvent::AddDrmLeaseDevice { name })
    } else if interface == "wp_presentation"@ {
        apply_event(s, CollectorEvent::AddPresentation { name })
    } else if interface == "treeland_output_manager_v1"@ {
        apply_event(s, CollectorEvent::AddTreelandOutputManager { name })
    } else if interface == "zxdg_output_manager_v1"@ {
        apply_event(s, CollectorEvent::AddXdgOutputManager { name })
    } else {
        s
    };
    apply_event(s1, CollectorEvent::AddGlobal { name, interface, version })
}

/// The bind an announcement must trigger: the tag for the new first-order
/// object, carrying the dense index of the record just created. A DRM lease
/// device gets a record but no bind; an unrecognized interface gets
/// neither.
pub open spec fn bind_action_of(s: SnapshotView, interface: Seq<char>) -> Option<UserData> {
    if interface == "wl_seat"@ {
        Some(UserData::Seat { seat_index: s.seats.len() as usize })
    } else if interface == "wl_output"@ {
        Some(UserData::Output { output_index: s.outputs.len() as usize })
    } else if interface == "wl_shm"@ {
        Some(UserData::Shm { shm_index: s.shm_info.len() as usize })
    } else if interface == "wp_drm_lease_device_v1"@ {
        None
    } else if interface == "wp_presentation"@ {
        Some(UserData::Presentation { presentation_index: s.presentation_info.len() as usize })
    } else if interface == "treeland_output_manager_v1"@ {
        Some(
            UserData::TreelandOutputManager {
                manager_index: s.treeland_output_managers.len() as usize,
            },
        )
    } else if interface == "zxdg_output_manager_v1"@ {
        Some(UserData::XdgOutputManager { manager_index: s.xdg_output_managers.len() as usize })
    } else {
        None
    }
}

impl AppData {
    /// Folds one "global announced" event into the snapshot and says which
    /// bind the caller must issue for it, tagged with the new record's
    /// dense index.
    pub fn handle_global(&mut self, name: u32, interface: String, version: u32) -> (bind: Option<
        UserData,
    >)
        ensures
            final(self)@ == handle_global_spec(old(self)@, name, interface@, version),
            bind == bind_action_of(old(self)@, interface@),
    {
        proof {
            reveal_strlit("wl_seat");
            reveal_strlit("wl_output");
            reveal_strlit("wl_shm");
            reveal_strlit("wp_drm_lease_device_v1");
            reveal_strlit("wp_presentation");
            reveal_strlit("treeland_output_manager_v1");
            reveal_strlit("zxdg_output_manager_v1");
        }
        let bind: Option<UserData> = if string_eq_literal(&interface, "wl_seat") {
            let seat_index = self.seats.len();
            let mut seat_name: String = "seat".to_owned();
            let digits = crate::textfmt::u64_to_string(seat_index as u64);
            seat_name.append(digits.as_str());
            self.add_seat(name, seat_name);
            Some(UserData::Seat { seat_index })
        } else if string_eq_literal(&interface, "wl_output") {
            let output_index = self.outputs.len();
            let mut output_name: String = "output".to_owned();
            let digits = crate::textfmt::u64_to_string(output_index as u64);
            output_name.append(digits.as_str());
            self.add_output(name, output_name);
            Some(UserData::Output { output_index })
        } else if string_eq_literal(&interface, "wl_shm") {
            let shm_index = self.shm_info.len();
            self.add_shm(name);
            Some(UserData::Shm { shm_index })
        } else if string_eq_literal(&interface, "wp_drm_lease_device_v1") {
            self.add_drm_lease_device(name);
            None
        } else if string_eq_literal(&interface, "wp_presentation") {
            let presentation_index = self.presentation_info.len();
            self.add_presentation(name);
            Some(UserData::Presentation { presentation_index })
        } else if string_eq_literal(&interface, "treeland_output_manager_v1") {
            let manager_index = self.treeland_output_managers.len();
            self.add_treeland_output_manager(name);
            Some(UserData::TreelandOutputManager { manager_index })
        } else if string_eq_literal(&interface, "zxdg_output_manager_v1") {
            let manager_index = self.xdg_output_managers.len();
            self.add_xdg_output_manager(name);
            proof {
                // The two names have the same length; the first character
                // tells them apart.
                assert(interface@ != "wp_drm_lease_device_v1"@) by {
                    assert(interface@[0] == 'z' && "wp_drm_lease_device_v1"@[0] == 'w');
                }
            }
            Some(UserData::XdgOutputManager { manager_index })
        } else {
            None
        };
        self.add_global(name, interface, version);
        bind
    }
}

} // verus!
