//! The snapshot state: every record collected during one run, the
//! mathematical view of that state, and the single spec-level transition
//! function that every collector is proved against.

use vstd::prelude::*;

use crate::protocols::treeland_output_manager::{TreelandOutputManagerInfo, TreelandOutputManagerView};
use crate::protocols::wl_output::{OutputGeometryView, OutputInfo, OutputModeView, OutputView};
use crate::protocols::wl_seat::{SeatInfo, SeatView};
use crate::protocols::wl_shm::{fourcc_of, ShmFormatView, ShmInfo, ShmView};
use crate::protocols::wl_output::{mode_flag_tokens_of, subpixel_token_of, transform_token_of};
use crate::protocols::wp_drm_lease_device::{DrmLeaseConnectorView, DrmLeaseDeviceInfo, DrmLeaseDeviceView};
use crate::protocols::wp_presentation::{PresentationInfo, PresentationView};
use crate::protocols::xdg_output::{XdgOutputManagerInfo, XdgOutputManagerView, XdgOutputView};

verus! {

/// One advertised global: server-assigned numeric id, interface name, and
/// version. Immutable once announced.
pub struct GlobalInfo {
    pub name: u32,
    pub interface: String,
    pub version: u32,
}

/// Mathematical image of a `GlobalInfo`.
#[verifier::ext_equal]
pub ghost struct GlobalView {
    pub name: u32,
    pub interface: Seq<char>,
    pub version: u32,
}

impl View for GlobalInfo {
    type V = GlobalView;

    open spec fn view(&self) -> GlobalView {
        GlobalView { name: self.name, interface: self.interface@, version: self.version }
    }
}

impl DeepView for GlobalInfo {
    type V = GlobalView;

    open spec fn deep_view(&self) -> GlobalView {
        self.view()
    }
}

/// Everything collected during one run. The records are append-only and
/// addressed by dense, zero-based local indices in discovery order.
pub struct AppData {
    pub globals: Vec<GlobalInfo>,
    pub seats: Vec<SeatInfo>,
    pub outputs: Vec<OutputInfo>,
    pub shm_info: Vec<ShmInfo>,
    pub drm_lease_devices: Vec<DrmLeaseDeviceInfo>,
    pub presentation_info: Vec<PresentationInfo>,
    pub treeland_output_managers: Vec<TreelandOutputManagerInfo>,
    pub xdg_output_managers: Vec<XdgOutputManagerInfo>,
}

/// Mathematical image of the whole snapshot.
#[verifier::ext_equal]
pub ghost struct SnapshotView {
    pub globals: Seq<GlobalView>,
    pub seats: Seq<SeatView>,
    pub outputs: Seq<OutputView>,
    pub shm_info: Seq<ShmView>,
    pub drm_lease_devices: Seq<DrmLeaseDeviceView>,
    pub presentation_info: Seq<PresentationView>,
    pub treeland_output_managers: Seq<TreelandOutputManagerView>,
    pub xdg_output_managers: Seq<XdgOutputManagerView>,
}

impl View for AppData {
    type V = SnapshotView;

    open spec fn view(&self) -> SnapshotView {
        SnapshotView {
            globals: self.globals.deep_view(),
            seats: self.seats.deep_view(),
            outputs: self.outputs.deep_view(),
            shm_info: self.shm_info.deep_view(),
            drm_lease_devices: self.drm_lease_devices.deep_view(),
            presentation_info: self.presentation_info.deep_view(),
            treeland_output_managers: self.treeland_output_managers.deep_view(),
            xdg_output_managers: self.xdg_output_managers.deep_view(),
        }
    }
}

/// The snapshot before anything was announced.
pub open spec fn empty_snapshot() -> SnapshotView {
    SnapshotView {
        globals: Seq::empty(),
        seats: Seq::empty(),
        outputs: Seq::empty(),
        shm_info: Seq::empty(),
        drm_lease_devices: Seq::empty(),
        presentation_info: Seq::empty(),
        treeland_output_managers: Seq::empty(),
        xdg_output_managers: Seq::empty(),
    }
}

/// The tag attached to a bound protocol object when it is created: which
/// record kind its later events belong to, and the dense local index (for
/// logical outputs, both the manager's and the owning output's).
#[derive(Clone, Copy, Debug, PartialEq, Eq, Structural)]
pub enum UserData {
    Seat { seat_index: usize },
    Output { output_index: usize },
    Shm { shm_index: usize },
    Presentation { presentation_index: usize },
    TreelandOutputManager { manager_index: usize },
    XdgOutputManager { manager_index: usize },
    XdgOutput { manager_index: usize, output_index: usize },
}

/// One collector step: everything that can change the snapshot while events
/// are being drained. Indices are the dense local indices the orchestrator
/// assigned at bind time.
#[allow(inconsistent_fields)]
pub ghost enum CollectorEvent {
    AddGlobal { name: u32, interface: Seq<char>, version: u32 },
    AddSeat { name: u32, seat_name: Seq<char> },
    UpdateSeatName { seat_index: int, name: Seq<char> },
    UpdateSeatCapabilities { seat_index: int, capabilities: Seq<Seq<char>> },
    UpdateSeatKeyboardRepeat { seat_index: int, rate: i32, delay: i32 },
    AddOutput { name: u32, output_name: Seq<char> },
    UpdateOutputGeometry { output_index: int, geometry: OutputGeometryView },
    UpdateOutputMode { output_index: int, flags: u32, width: i32, height: i32, refresh: i32 },
    UpdateOutputScale { output_index: int, factor: i32 },
    UpdateOutputName { output_index: int, name: Seq<char> },
    UpdateOutputDescription { output_index: int, description: Seq<char> },
    AddShm { name: u32 },
    AddShmFormat { shm_index: int, format: u32 },
    AddDrmLeaseDevice { name: u32 },
    UpdateDrmLeaseDevicePath { device_index: int, path: Seq<char> },
    AddDrmLeaseConnector { device_index: int, name: Seq<char>, description: Seq<char>, connector_id: u32 },
    AddPresentation { name: u32 },
    UpdatePresentationClockId { presentation_index: int, clock_id: u32 },
    AddTreelandOutputManager { name: u32 },
    UpdateTreelandPrimaryOutput { manager_index: int, output_name: Seq<char> },
    AddXdgOutputManager { name: u32 },
    AddXdgOutput { manager_index: int, output_id: u32 },
    UpdateXdgOutputName { manager_index: int, output_index: int, name: Seq<char> },
    UpdateXdgOutputDescription { manager_index: int, output_index: int, description: Seq<char> },
    UpdateXdgOutputLogicalPosition { manager_index: int, output_index: int, x: i32, y: i32 },
    UpdateXdgOutputLogicalSize { manager_index: int, output_index: int, width: i32, height: i32 },
}

/// What one collector event does to the snapshot. Additions append a fresh
/// record; updates rewrite one record in place, found by its dense index;
/// an event whose index names no record leaves the snapshot unchanged.
pub open spec fn apply_event(s: SnapshotView, e: CollectorEvent) -> SnapshotView {
    match e {
        CollectorEvent::AddGlobal { name, interface, version } => SnapshotView {
            globals: s.globals.push(GlobalView { name, interface, version }),
            ..s
        },
        CollectorEvent::AddSeat { name, seat_name } => SnapshotView {
            seats: s.seats.push(
                SeatView {
                    name,
                    seat_name,
                    capabilities: Seq::empty(),
                    keyboard_repeat_rate: None,
                    keyboard_repeat_delay: None,
                },
            ),
            ..s
        },
        CollectorEvent::UpdateSeatName { seat_index, name } => {
            if 0 <= seat_index < s.seats.len() {
                SnapshotView {
                    seats: s.seats.update(
                        seat_index,
                        SeatView { seat_name: name, ..s.seats[seat_index] },
                    ),
                    ..s
                }
            } else {
                s
            }
        },
        CollectorEvent::UpdateSeatCapabilities { seat_index, capabilities } => {
            if 0 <= seat_index < s.seats.len() {
                SnapshotView {
                    seats: s.seats.update(
                        seat_index,
                        SeatView { capabilities, ..s.seats[seat_index] },
                    ),
                    ..s
                }
            } else {
                s
            }
        },
        CollectorEvent::UpdateSeatKeyboardRepeat { seat_index, rate, delay } => {
            if 0 <= seat_index < s.seats.len() {
                SnapshotView {
                    seats: s.seats.update(
                        seat_index,
                        SeatView {
                            keyboard_repeat_rate: Some(rate),
                            keyboard_repeat_delay: Some(delay),
                            ..s.seats[seat_index]
                        },
                    ),
                    ..s
                }
            } else {
                s
            }
        },
        CollectorEvent::AddOutput { name, output_name } => SnapshotView {
            outputs: s.outputs.push(
                OutputView {
                    name,
                    output_name,
                    description: Seq::empty(),
                    x: 0,
                    y: 0,
                    scale: 1,
                    physical_width: 0,
                    physical_height: 0,
                    make: Seq::empty(),
                    model: Seq::empty(),
                    subpixel_orientation: Seq::empty(),
                    output_transform: Seq::empty(),
                    modes: Seq::empty(),
                },
            ),
            ..s
        },
        CollectorEvent::UpdateOutputGeometry { output_index, geometry } => {
            if 0 <= output_index < s.outputs.len() {
                SnapshotView {
                    outputs: s.outputs.update(
                        output_index,
                        OutputView {
                            x: geometry.x,
                            y: geometry.y,
                            physical_width: geometry.physical_width,
                            physical_height: geometry.physical_height,
                            make: geometry.make,
                            model: geometry.model,
                            subpixel_orientation: subpixel_token_of(geometry.subpixel),
                            output_transform: transform_token_of(geometry.transform),
                            ..s.outputs[output_index]
                        },
                    ),
                    ..s
                }
            } else {
                s
            }
        },
        CollectorEvent::UpdateOutputMode { output_index, flags, width, height, refresh } => {
            if 0 <= output_index < s.outputs.len() {
                SnapshotView {
                    outputs: s.outputs.update(
                        output_index,
                        OutputView {
                            modes: s.outputs[output_index].modes.push(
                                OutputModeView {
                                    width,
                                    height,
                                    refresh,
                                    flags: mode_flag_tokens_of(flags),
                                },
                            ),
                            ..s.outputs[output_index]
                        },
                    ),
                    ..s
                }
            } else {
                s
            }
        },
        CollectorEvent::UpdateOutputScale { output_index, factor } => {
            if 0 <= output_index < s.outputs.len() {
                SnapshotView {
                    outputs: s.outputs.update(
                        output_index,
                        OutputView { scale: factor, ..s.outputs[output_index] },
                    ),
                    ..s
                }
            } else {
                s
            }
        },
        CollectorEvent::UpdateOutputName { output_index, name } => {
            if 0 <= output_index < s.outputs.len() {
                SnapshotView {
                    outputs: s.outputs.update(
                        output_index,
                        OutputView { output_name: name, ..s.outputs[output_index] },
                    ),
                    ..s
                }
            } else {
                s
            }
        },
        CollectorEvent::UpdateOutputDescription { output_index, description } => {
            if 0 <= output_index < s.outputs.len() {
                SnapshotView {
                    outputs: s.outputs.update(
                        output_index,
                        OutputView { description, ..s.outputs[output_index] },
                    ),
                    ..s
                }
            } else {
                s
            }
        },
        CollectorEvent::AddShm { name } => SnapshotView {
            shm_info: s.shm_info.push(ShmView { name, formats: Seq::empty() }),
            ..s
        },
        CollectorEvent::AddShmFormat { shm_index, format } => {
            if 0 <= shm_index < s.shm_info.len() {
                SnapshotView {
                    shm_info: s.shm_info.update(
                        shm_index,
                        ShmView {
                            formats: s.shm_info[shm_index].formats.push(
                                ShmFormatView { format, fourcc: fourcc_of(format) },
                            ),
                            ..s.shm_info[shm_index]
                        },
                    ),
                    ..s
                }
            } else {
                s
            }
        },
        CollectorEvent::AddDrmLeaseDevice { name } => SnapshotView {
            drm_lease_devices: s.drm_lease_devices.push(
                DrmLeaseDeviceView { name, device_path: None, connectors: Seq::empty() },
            ),
            ..s
        },
        CollectorEvent::UpdateDrmLeaseDevicePath { device_index, path } => {
            if 0 <= device_index < s.drm_lease_devices.len() {
                SnapshotView {
                    drm_lease_devices: s.drm_lease_devices.update(
                        device_index,
                        DrmLeaseDeviceView {
                            device_path: Some(path),
                            ..s.drm_lease_devices[device_index]
                        },
                    ),
                    ..s
                }
            } else {
                s
            }
        },
        CollectorEvent::AddDrmLeaseConnector { device_index, name, description, connector_id } => {
            if 0 <= device_index < s.drm_lease_devices.len() {
                SnapshotView {
                    drm_lease_devices: s.drm_lease_devices.update(
                        device_index,
                        DrmLeaseDeviceView {
                            connectors: s.drm_lease_devices[device_index].connectors.push(
                                DrmLeaseConnectorView { name, description, connector_id },
                            ),
                            ..s.drm_lease_devices[device_index]
                        },
                    ),
                    ..s
                }
            } else {
                s
            }
        },
        CollectorEvent::AddPresentation { name } => SnapshotView {
            presentation_info: s.presentation_info.push(
                PresentationView { name, clock_id: None },
            ),
            ..s
        },
        CollectorEvent::UpdatePresentationClockId { presentation_index, clock_id } => {
            if 0 <= presentation_index < s.presentation_info.len() {
                SnapshotView {
                    presentation_info: s.presentation_info.update(
                        presentation_index,
                        PresentationView {
                            clock_id: Some(clock_id),
                            ..s.presentation_info[presentation_index]
                        },
                    ),
                    ..s
                }
            } else {
                s
            }
        },
        CollectorEvent::AddTreelandOutputManager { name } => SnapshotView {
            treeland_output_managers: s.treeland_output_managers.push(
                TreelandOutputManagerView { name, primary_output: None },
            ),
            ..s
        },
        CollectorEvent::UpdateTreelandPrimaryOutput { manager_index, output_name } => {
            if 0 <= manager_index < s.treeland_output_managers.len() {
                SnapshotView {
                    treeland_output_managers: s.treeland_output_managers.update(
                        manager_index,
                        TreelandOutputManagerView {
                            primary_output: Some(output_name),
                            ..s.treeland_output_managers[manager_index]
                        },
                    ),
                    ..s
                }
            } else {
                s
            }
        },
        CollectorEvent::AddXdgOutputManager { name } => SnapshotView {
            xdg_output_managers: s.xdg_output_managers.push(
                XdgOutputManagerView { name, outputs: Seq::empty() },
            ),
            ..s
        },
        CollectorEvent::AddXdgOutput { manager_index, output_id } => {
            if 0 <= manager_index < s.xdg_output_managers.len() {
                SnapshotView {
                    xdg_output_managers: s.xdg_output_managers.update(
                        manager_index,
                        XdgOutputManagerView {
                            outputs: s.xdg_output_managers[manager_index].outputs.push(
                                XdgOutputView {
                                    output_id,
                                    name: Seq::empty(),
                                    description: Seq::empty(),
                                    logical_x: 0,
                                    logical_y: 0,
                                    logical_width: 0,
                                    logical_height: 0,
                                },
                            ),
                            ..s.xdg_output_managers[manager_index]
                        },
                    ),
                    ..s
                }
            } else {
                s
            }
        },
        CollectorEvent::UpdateXdgOutputName { manager_index, output_index, name } => {
            update_xdg_output_view(
                s,
                manager_index,
                output_index,
                |o: XdgOutputView| XdgOutputView { name, ..o },
            )
        },
        CollectorEvent::UpdateXdgOutputDescription { manager_index, output_index, description } => {
            update_xdg_output_view(
                s,
                manager_index,
                output_index,
                |o: XdgOutputView| XdgOutputView { description, ..o },
            )
        },
        CollectorEvent::UpdateXdgOutputLogicalPosition { manager_index, output_index, x, y } => {
            update_xdg_output_view(
                s,
                manager_index,
                output_index,
                |o: XdgOutputView| XdgOutputView { logical_x: x, logical_y: y, ..o },
            )
        },
        CollectorEvent::UpdateXdgOutputLogicalSize { manager_index, output_index, width, height } => {
            update_xdg_output_view(
                s,
                manager_index,
                output_index,
                |o: XdgOutputView| XdgOutputView { logical_width: width, logical_height: height, ..o },
            )
        },
    }
}

/// Rewrites one logical-output record, found by manager and output index,
/// with `f`; an index past the records at either level changes nothing.
pub open spec fn update_xdg_output_view(
    s: SnapshotView,
    manager_index: int,
    output_index: int,
    f: spec_fn(XdgOutputView) -> XdgOutputView,
) -> SnapshotView {
    if 0 <= manager_index < s.xdg_output_managers.len() && 0 <= output_index
        < s.xdg_output_managers[manager_index].outputs.len() {
        SnapshotView {
            xdg_output_managers: s.xdg_output_managers.update(
                manager_index,
                XdgOutputManagerView {
                    outputs: s.xdg_output_managers[manager_index].outputs.update(
                        output_index,
                        f(s.xdg_output_managers[manager_index].outputs[output_index]),
                    ),
                    ..s.xdg_output_managers[manager_index]
                },
            ),
            ..s
        }
    } else {
        s
    }
}

/// A whole event history folded into the snapshot, oldest event first.
pub open spec fn apply_events(s: SnapshotView, es: Seq<CollectorEvent>) -> SnapshotView
    decreases es.len(),
{
    if es.len() == 0 {
        s
    } else {
        apply_event(apply_events(s, es.drop_last()), es.last())
    }
}

/// Whether an event is the repeat-info report for the seat at index `i`.
pub open spec fn is_repeat_event_for(e: CollectorEvent, i: int) -> bool {
    e matches CollectorEvent::UpdateSeatKeyboardRepeat { seat_index, .. } && seat_index == i
}

/// A seat's repeat fields stay absent until a repeat-info event for that
/// seat arrives: under any event history containing no such event for seat
/// `i`, a seat whose repeat fields are absent keeps them absent — events
/// for other seats are never attributed to it.
pub proof fn lemma_repeat_absent_until(s: SnapshotView, es: Seq<CollectorEvent>, i: int)
    requires
        0 <= i < s.seats.len(),
        s.seats[i].keyboard_repeat_rate is None,
        s.seats[i].keyboard_repeat_delay is None,
        forall|k: int| 0 <= k < es.len() ==> !is_repeat_event_for(#[trigger] es[k], i),
    ensures
        apply_events(s, es).seats.len() >= s.seats.len(),
        apply_events(s, es).seats[i].keyboard_repeat_rate is None,
        apply_events(s, es).seats[i].keyboard_repeat_delay is None,
    decreases es.len(),
{
    if es.len() > 0 {
        assert(forall|k: int| 0 <= k < es.drop_last().len() ==> !is_repeat_event_for(
            #[trigger] es.drop_last()[k],
            i,
        ));
        lemma_repeat_absent_until(s, es.drop_last(), i);
        assert(!is_repeat_event_for(es.last(), i));
    }
}

/// A repeat-info event changes exactly the seat it names: every other
/// seat's record, and every other part of the snapshot, is left as it was.
pub proof fn lemma_repeat_event_touches_one_seat(s: SnapshotView, i: int, rate: i32, delay: i32)
    ensures
        ({
            let post = apply_event(
                s,
                CollectorEvent::UpdateSeatKeyboardRepeat { seat_index: i, rate, delay },
            );
            &&& post.seats.len() == s.seats.len()
            &&& forall|j: int| 0 <= j < s.seats.len() && j != i ==> post.seats[j] == s.seats[j]
            &&& 0 <= i < s.seats.len() ==> post.seats[i] == (SeatView {
                keyboard_repeat_rate: Some(rate),
                keyboard_repeat_delay: Some(delay),
                ..s.seats[i]
            })
            &&& post == (SnapshotView { seats: post.seats, ..s })
        }),
{
}

impl AppData {
    /// The snapshot at the start of a run: every record list empty.
    pub fn new() -> (r: AppData)
        ensures
            r@ == empty_snapshot(),
    {
        let r = AppData {
            globals: Vec::new(),
            seats: Vec::new(),
            outputs: Vec::new(),
            shm_info: Vec::new(),
            drm_lease_devices: Vec::new(),
            presentation_info: Vec::new(),
            treeland_output_managers: Vec::new(),
            xdg_output_managers: Vec::new(),
        };
        proof {
            assert(r@ =~~= empty_snapshot());
        }
        r
    }

    /// Appends the record of a newly announced global.
    pub fn add_global(&mut self, name: u32, interface: String, version: u32)
        ensures
            final(self)@ == apply_event(
                old(self)@,
                CollectorEvent::AddGlobal { name, interface: interface@, version },
            ),
    {
        self.globals.push(GlobalInfo { name, interface, version });
        proof {
            assert(self@ =~~= apply_event(
                old(self)@,
                CollectorEvent::AddGlobal { name, interface: interface@, version },
            ));
        }
    }
}

} // verus!
