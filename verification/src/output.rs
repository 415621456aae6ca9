//! The JSON-shaped output: a timestamped value holding the displayed
//! globals and, per protocol, either the full record list or an empty one,
//! so the output shape is stable whatever the filter. Turning this value
//! into JSON text is the caller's concern; the selection logic here is
//! what is pinned down.

use vstd::prelude::*;

use crate::app::{AppData, GlobalInfo, GlobalView, SnapshotView};
use crate::protocols::treeland_output_manager::{TreelandOutputManagerInfo, TreelandOutputManagerView};
use crate::protocols::wl_output::{OutputInfo, OutputMode, OutputView};
use crate::protocols::wl_seat::{SeatInfo, SeatView};
use crate::protocols::wl_shm::{ShmFormat, ShmInfo, ShmView};
use crate::protocols::wp_drm_lease_device::{DrmLeaseConnectorInfo, DrmLeaseDeviceInfo, DrmLeaseDeviceView};
use crate::protocols::wp_presentation::{PresentationInfo, PresentationView};
use crate::protocols::xdg_output::{XdgOutputInfo, XdgOutputManagerInfo, XdgOutputManagerView};
use crate::render::{displayed_globals, filter_view, filtered_globals};
use crate::sorting::sort_globals;
use crate::textfmt::str_eq;

verus! {

/// The full JSON-shaped output.
pub struct JsonOutput {
    pub generation_timestamp: u64,
    pub globals: Vec<GlobalInfo>,
    pub seats: Vec<SeatInfo>,
    pub outputs: Vec<OutputInfo>,
    pub shm_info: Vec<ShmInfo>,
    pub drm_lease_devices: Vec<DrmLeaseDeviceInfo>,
    pub presentation_info: Vec<PresentationInfo>,
    pub treeland_output_managers: Vec<TreelandOutputManagerInfo>,
    pub xdg_output_managers: Vec<XdgOutputManagerInfo>,
}

/// One global reduced to interface and version: the basic output carries
/// no numeric ids.
pub struct GlobalSummary {
    pub interface: String,
    pub version: u32,
}

/// The basic JSON-shaped output: the timestamp and the summaries alone.
pub struct JsonOutputBasic {
    pub generation_timestamp: u64,
    pub globals: Vec<GlobalSummary>,
}

/// Mathematical image of a `JsonOutput`.
#[verifier::ext_equal]
pub ghost struct JsonOutputView {
    pub generation_timestamp: u64,
    pub globals: Seq<GlobalView>,
    pub seats: Seq<SeatView>,
    pub outputs: Seq<OutputView>,
    pub shm_info: Seq<ShmView>,
    pub drm_lease_devices: Seq<DrmLeaseDeviceView>,
    pub presentation_info: Seq<PresentationView>,
    pub treeland_output_managers: Seq<TreelandOutputManagerView>,
    pub xdg_output_managers: Seq<XdgOutputManagerView>,
}

/// Mathematical image of a `GlobalSummary`.
#[verifier::ext_equal]
pub ghost struct GlobalSummaryView {
    pub interface: Seq<char>,
    pub version: u32,
}

/// Mathematical image of a `JsonOutputBasic`.
#[verifier::ext_equal]
pub ghost struct JsonOutputBasicView {
    pub generation_timestamp: u64,
    pub globals: Seq<GlobalSummaryView>,
}

impl View for JsonOutput {
    type V = JsonOutputView;

    open spec fn view(&self) -> JsonOutputView {
        JsonOutputView {
            generation_timestamp: self.generation_timestamp,
            globals: self.globals.deep_view(),
            seats: self.seats.deep_view(),
            outputs: self.outputs.deep_view(),
            shm_info: self.shm_info.deep_view(),
            drm_lease_devices: self.drm_lease_devices.deep_view(),
            presentation_info: self.presentation_info.deep_view(),
            treeland_output_managers: self.treeland_output_managers.deep_view(),
            xdg_output_managers: self.xdg_output_managers.deep_view(),
        }
    }
}

impl View for GlobalSummary {
    type V = GlobalSummaryView;

    open spec fn view(&self) -> GlobalSummaryView {
        GlobalSummaryView { interface: self.interface@, version: self.version }
    }
}

impl DeepView for GlobalSummary {
    type V = GlobalSummaryView;

    open spec fn deep_view(&self) -> GlobalSummaryView {
        self.view()
    }
}

impl View for JsonOutputBasic {
    type V = JsonOutputBasicView;

    open spec fn view(&self) -> JsonOutputBasicView {
        JsonOutputBasicView {
            generation_timestamp: self.generation_timestamp,
            globals: self.globals.deep_view(),
        }
    }
}

/// The full JSON-shaped value for a snapshot: the displayed globals, and
/// per protocol its records — all of them without a filter, all or none
/// with one, so that the shape never depends on what matched.
pub open spec fn json_output_of(
    v: SnapshotView,
    sort: bool,
    filter: Option<Seq<char>>,
    ts: u64,
) -> JsonOutputView {
    JsonOutputView {
        generation_timestamp: ts,
        globals: displayed_globals(v, sort, filter),
        seats: match filter {
            None => v.seats,
            Some(p) => if p == "wl_seat"@ {
                v.seats
            } else {
                Seq::empty()
            },
        },
        outputs: match filter {
            None => v.outputs,
            Some(p) => if p == "wl_output"@ {
                v.outputs
            } else {
                Seq::empty()
            },
        },
        shm_info: match filter {
            None => v.shm_info,
            Some(p) => if p == "wl_shm"@ {
                v.shm_info
            } else {
                Seq::empty()
            },
        },
        drm_lease_devices: match filter {
            None => v.drm_lease_devices,
            Some(p) => if p == "wp_drm_lease_device_v1"@ {
                v.drm_lease_devices
            } else {
                Seq::empty()
            },
        },
        presentation_info: match filter {
            None => v.presentation_info,
            Some(p) => if p == "wp_presentation"@ {
                v.presentation_info
            } else {
                Seq::empty()
            },
        },
        treeland_output_managers: match filter {
            None => v.treeland_output_managers,
            Some(p) => if p == "treeland_output_manager_v1"@ {
                v.treeland_output_managers
            } else {
                Seq::empty()
            },
        },
        xdg_output_managers: match filter {
            None => v.xdg_output_managers,
            Some(p) => if p == "zxdg_output_manager_v1"@ {
                v.xdg_output_managers
            } else {
                Seq::empty()
            },
        },
    }
}

/// A displayed global reduced to its summary.
pub open spec fn summary_of(g: GlobalView) -> GlobalSummaryView {
    GlobalSummaryView { interface: g.interface, version: g.version }
}

/// The basic JSON-shaped value for a snapshot: the timestamp and every
/// displayed global's summary, in display order.
pub open spec fn json_basic_of(
    v: SnapshotView,
    sort: bool,
    filter: Option<Seq<char>>,
    ts: u64,
) -> JsonOutputBasicView {
    let shown = displayed_globals(v, sort, filter);
    JsonOutputBasicView {
        generation_timestamp: ts,
        globals: Seq::new(shown.len(), |i: int| summary_of(shown[i])),
    }
}

/// Rendering one frozen snapshot twice with identical options yields
/// identical JSON-shaped output except the timestamp.
pub proof fn lemma_json_output_timestamp_only(
    v: SnapshotView,
    sort: bool,
    filter: Option<Seq<char>>,
    t1: u64,
    t2: u64,
)
    ensures
        json_output_of(v, sort, filter, t1) == (JsonOutputView {
            generation_timestamp: t1,
            ..json_output_of(v, sort, filter, t2)
        }),
        json_basic_of(v, sort, filter, t1) == (JsonOutputBasicView {
            generation_timestamp: t1,
            ..json_basic_of(v, sort, filter, t2)
        }),
{
}

/// Relies on std's SystemTime::now and Duration::as_millis: the
/// best-effort wall-clock time as milliseconds since the Unix epoch, 0
/// when the clock reports a time before it. Nothing is promised of the
/// value.
#[verifier::external_body]
fn current_millis() -> u64 {
    std::time::SystemTime::now()
        .duration_since(std::time::UNIX_EPOCH)
        .map(|d| d.as_millis() as u64)
        .unwrap_or(0)
}

/// Duplicates a token list.
fn clone_strings(v: &Vec<String>) -> (r: Vec<String>)
    ensures
        r.deep_view() == v.deep_view(),
{
    let mut r: Vec<String> = Vec::new();
    let mut i: usize = 0;
    while i < v.len()
        invariant
            i <= v@.len(),
            v.deep_view().len() == v@.len(),
            r@.len() == i,
            r.deep_view() == v.deep_view().take(i as int),
        decreases v@.len() - i,
    {
        r.push(v[i].clone());
        proof {
            assert(r.deep_view() =~~= v.deep_view().take(i + 1));
        }
        i = i + 1;
    }
    proof {
        assert(v.deep_view().take(v@.len() as int) =~= v.deep_view());
    }
    r
}

/// Duplicates the global records.
fn clone_globals(v: &Vec<GlobalInfo>) -> (r: Vec<GlobalInfo>)
    ensures
        r.deep_view() == v.deep_view(),
{
    let mut r: Vec<GlobalInfo> = Vec::new();
    let mut i: usize = 0;
    while i < v.len()
        invariant
            i <= v@.len(),
            v.deep_view().len() == v@.len(),
            r@.len() == i,
            r.deep_view() == v.deep_view().take(i as int),
        decreases v@.len() - i,
    {
        let copy = GlobalInfo {
            name: v[i].name,
            interface: v[i].interface.clone(),
            version: v[i].version,
        };
        proof {
            assert(copy@ =~~= v.deep_view()[i as int]);
        }
        r.push(copy);
        proof {
            assert(r.deep_view() =~~= v.deep_view().take(i + 1));
        }
        i = i + 1;
    }
    proof {
        assert(v.deep_view().take(v@.len() as int) =~= v.deep_view());
    }
    r
}

/// Duplicates the seat records.
fn clone_seats(v: &Vec<SeatInfo>) -> (r: Vec<SeatInfo>)
    ensures
        r.deep_view() == v.deep_view(),
{
    let mut r: Vec<SeatInfo> = Vec::new();
    let mut i: usize = 0;
    while i < v.len()
        invariant
            i <= v@.len(),
            v.deep_view().len() == v@.len(),
            r@.len() == i,
            r.deep_view() == v.deep_view().take(i as int),
        decreases v@.len() - i,
    {
        let copy = SeatInfo {
            name: v[i].name,
            seat_name: v[i].seat_name.clone(),
            capabilities: clone_strings(&v[i].capabilities),
            keyboard_repeat_rate: v[i].keyboard_repeat_rate,
            keyboard_repeat_delay: v[i].keyboard_repeat_delay,
        };
        r.push(copy);
        proof {
            assert(r.deep_view() =~~= v.deep_view().take(i + 1));
        }
        i = i + 1;
    }
    proof {
        assert(v.deep_view().take(v@.len() as int) =~= v.deep_view());
    }
    r
}

/// Duplicates one output's mode list.
fn clone_modes(v: &Vec<OutputMode>) -> (r: Vec<OutputMode>)
    ensures
        r.deep_view() == v.deep_view(),
{
    let mut r: Vec<OutputMode> = Vec::new();
    let mut i: usize = 0;
    while i < v.len()
        invariant
            i <= v@.len(),
            v.deep_view().len() == v@.len(),
            r@.len() == i,
            r.deep_view() == v.deep_view().take(i as int),
        decreases v@.len() - i,
    {
        let copy = OutputMode {
            width: v[i].width,
            height: v[i].height,
            refresh: v[i].refresh,
            flags: clone_strings(&v[i].flags),
        };
        r.push(copy);
        proof {
            assert(r.deep_view() =~~= v.deep_view().take(i + 1));
        }
        i = i + 1;
    }
    proof {
        assert(v.deep_view().take(v@.len() as int) =~= v.deep_view());
    }
    r
}

/// Duplicates the output records.
fn clone_outputs(v: &Vec<OutputInfo>) -> (r: Vec<OutputInfo>)
    ensures
        r.deep_view() == v.deep_view(),
{
    let mut r: Vec<OutputInfo> = Vec::new();
    let mut i: usize = 0;
    while i < v.len()
        invariant
            i <= v@.len(),
            v.deep_view().len() == v@.len(),
            r@.len() == i,
            r.deep_view() == v.deep_view().take(i as int),
        decreases v@.len() - i,
    {
        let copy = OutputInfo {
            name: v[i].name,
            output_name: v[i].output_name.clone(),
            description: v[i].description.clone(),
            x: v[i].x,
            y: v[i].y,
            scale: v[i].scale,
            physical_width: v[i].physical_width,
            physical_height: v[i].physical_height,
            make: v[i].make.clone(),
            model: v[i].model.clone(),
            subpixel_orientation: v[i].subpixel_orientation.clone(),
            output_transform: v[i].output_transform.clone(),
            modes: clone_modes(&v[i].modes),
        };
        r.push(copy);
        proof {
            assert(r.deep_view() =~~= v.deep_view().take(i + 1));
        }
        i = i + 1;
    }
    proof {
        assert(v.deep_view().take(v@.len() as int) =~= v.deep_view());
    }
    r
}

/// Duplicates the shm records.
fn clone_shm(v: &Vec<ShmInfo>) -> (r: Vec<ShmInfo>)
    ensures
        r.deep_view() == v.deep_view(),
{
    let mut r: Vec<ShmInfo> = Vec::new();
    let mut i: usize = 0;
    while i < v.len()
        invariant
            i <= v@.len(),
            v.deep_view().len() == v@.len(),
            r@.len() == i,
            r.deep_view() == v.deep_view().take(i as int),
        decreases v@.len() - i,
    {
        let mut formats: Vec<ShmFormat> = Vec::new();
        let mut f: usize = 0;
        while f < v[i].formats.len()
            invariant
                i < v@.len(),
                f <= v@[i as int].formats@.len(),
                v@[i as int].formats.deep_view().len() == v@[i as int].formats@.len(),
                formats@.len() == f,
                formats.deep_view() == v@[i as int].formats.deep_view().take(f as int),
            decreases v@[i as int].formats@.len() - f,
        {
            formats.push(
                ShmFormat { format: v[i].formats[f].format, fourcc: v[i].formats[f].fourcc.clone() },
            );
            proof {
                assert(formats.deep_view() =~~= v@[i as int].formats.deep_view().take(f + 1));
            }
            f = f + 1;
        }
        proof {
            assert(v@[i as int].formats.deep_view().take(v@[i as int].formats@.len() as int)
                =~= v@[i as int].formats.deep_view());
        }
        r.push(ShmInfo { name: v[i].name, formats });
        proof {
            assert(r.deep_view() =~~= v.deep_view().take(i + 1));
        }
        i = i + 1;
    }
    proof {
        assert(v.deep_view().take(v@.len() as int) =~= v.deep_view());
    }
    r
}

/// Duplicates the DRM lease device records.
fn clone_drm(v: &Vec<DrmLeaseDeviceInfo>) -> (r: Vec<DrmLeaseDeviceInfo>)
    ensures
        r.deep_view() == v.deep_view(),
{
    let mut r: Vec<DrmLeaseDeviceInfo> = Vec::new();
    let mut i: usize = 0;
    while i < v.len()
        invariant
            i <= v@.len(),
            v.deep_view().len() == v@.len(),
            r@.len() == i,
            r.deep_view() == v.deep_view().take(i as int),
        decreases v@.len() - i,
    {
        let mut connectors: Vec<DrmLeaseConnectorInfo> = Vec::new();
        let mut c: usize = 0;
        while c < v[i].connectors.len()
            invariant
                i < v@.len(),
                c <= v@[i as int].connectors@.len(),
                v@[i as int].connectors.deep_view().len() == v@[i as int].connectors@.len(),
                connectors@.len() == c,
                connectors.deep_view() == v@[i as int].connectors.deep_view().take(c as int),
            decreases v@[i as int].connectors@.len() - c,
        {
            connectors.push(
                DrmLeaseConnectorInfo {
                    name: v[i].connectors[c].name.clone(),
                    description: v[i].connectors[c].description.clone(),
                    connector_id: v[i].connectors[c].connector_id,
                },
            );
            proof {
                assert(connectors.deep_view() =~~= v@[i as int].connectors.deep_view().take(c + 1));
            }
            c = c + 1;
        }
        proof {
            assert(v@[i as int].connectors.deep_view().take(v@[i as int].connectors@.len() as int)
                =~= v@[i as int].connectors.deep_view());
        }
        let device_path: Option<String> = match &v[i].device_path {
            Some(path) => Some(path.clone()),
            None => None,
        };
        r.push(DrmLeaseDeviceInfo { name: v[i].name, device_path, connectors });
        proof {
            assert(r.deep_view() =~~= v.deep_view().take(i + 1));
        }
        i = i + 1;
    }
    proof {
        assert(v.deep_view().take(v@.len() as int) =~= v.deep_view());
    }
    r
}

/// Duplicates the presentation records.
fn clone_presentations(v: &Vec<PresentationInfo>) -> (r: Vec<PresentationInfo>)
    ensures
        r.deep_view() == v.deep_view(),
{
    let mut r: Vec<PresentationInfo> = Vec::new();
    let mut i: usize = 0;
    while i < v.len()
        invariant
            i <= v@.len(),
            v.deep_view().len() == v@.len(),
            r@.len() == i,
            r.deep_view() == v.deep_view().take(i as int),
        decreases v@.len() - i,
    {
        r.push(PresentationInfo { name: v[i].name, clock_id: v[i].clock_id });
        proof {
            assert(r.deep_view() =~~= v.deep_view().take(i + 1));
        }
        i = i + 1;
    }
    proof {
        assert(v.deep_view().take(v@.len() as int) =~= v.deep_view());
    }
    r
}

/// Duplicates the treeland manager records.
fn clone_treeland(v: &Vec<TreelandOutputManagerInfo>) -> (r: Vec<TreelandOutputManagerInfo>)
    ensures
        r.deep_view() == v.deep_view(),
{
    let mut r: Vec<TreelandOutputManagerInfo> = Vec::new();
    let mut i: usize = 0;
    while i < v.len()
        invariant
            i <= v@.len(),
            v.deep_view().len() == v@.len(),
            r@.len() == i,
            r.deep_view() == v.deep_view().take(i as int),
        decreases v@.len() - i,
    {
        let primary_output: Option<String> = match &v[i].primary_output {
            Some(primary) => Some(primary.clone()),
            None => None,
        };
        r.push(TreelandOutputManagerInfo { name: v[i].name, primary_output });
        proof {
            assert(r.deep_view() =~~= v.deep_view().take(i + 1));
        }
        i = i + 1;
    }
    proof {
        assert(v.deep_view().take(v@.len() as int) =~= v.deep_view());
    }
    r
}

/// Duplicates the xdg manager records.
fn clone_xdg_managers(v: &Vec<XdgOutputManagerInfo>) -> (r: Vec<XdgOutputManagerInfo>)
    ensures
        r.deep_view() == v.deep_view(),
{
    let mut r: Vec<XdgOutputManagerInfo> = Vec::new();
    let mut i: usize = 0;
    while i < v.len()
        invariant
            i <= v@.len(),
            v.deep_view().len() == v@.len(),
            r@.len() == i,
            r.deep_view() == v.deep_view().take(i as int),
        decreases v@.len() - i,
    {
        let mut outputs: Vec<XdgOutputInfo> = Vec::new();
        let mut o: usize = 0;
        while o < v[i].outputs.len()
            invariant
                i < v@.len(),
                o <= v@[i as int].outputs@.len(),
                v@[i as int].outputs.deep_view().len() == v@[i as int].outputs@.len(),
                outputs@.len() == o,
                outputs.deep_view() == v@[i as int].outputs.deep_view().take(o as int),
            decreases v@[i as int].outputs@.len() - o,
        {
            outputs.push(
                XdgOutputInfo {
                    output_id: v[i].outputs[o].output_id,
                    name: v[i].outputs[o].name.clone(),
                    description: v[i].outputs[o].description.clone(),
                    logical_x: v[i].outputs[o].logical_x,
                    logical_y: v[i].outputs[o].logical_y,
                    logical_width: v[i].outputs[o].logical_width,
                    logical_height: v[i].outputs[o].logical_height,
                },
            );
            proof {
                assert(outputs.deep_view() =~~= v@[i as int].outputs.deep_view().take(o + 1));
            }
            o = o + 1;
        }
        proof {
            assert(v@[i as int].outputs.deep_view().take(v@[i as int].outputs@.len() as int)
                =~= v@[i as int].outputs.deep_view());
        }
        r.push(XdgOutputManagerInfo { name: v[i].name, outputs });
        proof {
            assert(r.deep_view() =~~= v.deep_view().take(i + 1));
        }
        i = i + 1;
    }
    proof {
        assert(v.deep_view().take(v@.len() as int) =~= v.deep_view());
    }
    r
}

/// Builds the full JSON-shaped output for a frozen snapshot: a best-effort
/// timestamp, the displayed globals, and per protocol all of its records
/// without a filter — all or none with one.
pub fn to_json_output(app_data: &AppData, sort_output: bool, protocol_filter: Option<&str>) -> (r:
    JsonOutput)
    ensures
        r@ == json_output_of(
            app_data@,
            sort_output,
            filter_view(protocol_filter),
            r@.generation_timestamp,
        ),
{
    let timestamp_ms = current_millis();
    let filtered = filtered_globals(&app_data.globals, protocol_filter);
    let globals: Vec<GlobalInfo> = if sort_output {
        sort_globals(&filtered)
    } else {
        filtered
    };
    let r = match protocol_filter {
        None => JsonOutput {
            generation_timestamp: timestamp_ms,
            globals,
            seats: clone_seats(&app_data.seats),
            outputs: clone_outputs(&app_data.outputs),
            shm_info: clone_shm(&app_data.shm_info),
            drm_lease_devices: clone_drm(&app_data.drm_lease_devices),
            presentation_info: clone_presentations(&app_data.presentation_info),
            treeland_output_managers: clone_treeland(&app_data.treeland_output_managers),
            xdg_output_managers: clone_xdg_managers(&app_data.xdg_output_managers),
        },
        Some(p) => JsonOutput {
            generation_timestamp: timestamp_ms,
            globals,
            seats: if str_eq(p, "wl_seat") {
                clone_seats(&app_data.seats)
            } else {
                Vec::new()
            },
            outputs: if str_eq(p, "wl_output") {
                clone_outputs(&app_data.outputs)
            } else {
                Vec::new()
            },
            shm_info: if str_eq(p, "wl_shm") {
                clone_shm(&app_data.shm_info)
            } else {
                Vec::new()
            },
            drm_lease_devices: if str_eq(p, "wp_drm_lease_device_v1") {
                clone_drm(&app_data.drm_lease_devices)
            } else {
                Vec::new()
            },
            presentation_info: if str_eq(p, "wp_presentation") {
                clone_presentations(&app_data.presentation_info)
            } else {
                Vec::new()
            },
            treeland_output_managers: if str_eq(p, "treeland_output_manager_v1") {
                clone_treeland(&app_data.treeland_output_managers)
            } else {
                Vec::new()
            },
            xdg_output_managers: if str_eq(p, "zxdg_output_manager_v1") {
                clone_xdg_managers(&app_data.xdg_output_managers)
            } else {
                Vec::new()
            },
        },
    };
    proof {
        assert(r@ =~~= json_output_of(
            app_data@,
            sort_output,
            filter_view(protocol_filter),
            r.generation_timestamp,
        ));
    }
    r
}

/// Builds the basic JSON-shaped output for a frozen snapshot: a
/// best-effort timestamp and every displayed global's interface and
/// version, nothing else.
pub fn to_json_basic(app_data: &AppData, sort_output: bool, protocol_filter: Option<&str>) -> (r:
    JsonOutputBasic)
    ensures
        r@ == json_basic_of(
            app_data@,
            sort_output,
            filter_view(protocol_filter),
            r@.generation_timestamp,
        ),
{
    let timestamp_ms = current_millis();
    let filtered = filtered_globals(&app_data.globals, protocol_filter);
    let shown: Vec<GlobalInfo> = if sort_output {
        sort_globals(&filtered)
    } else {
        filtered
    };
    let ghost shown_view = shown.deep_view();
    let mut globals: Vec<GlobalSummary> = Vec::new();
    let mut i: usize = 0;
    while i < shown.len()
        invariant
            i <= shown@.len(),
            shown_view == shown.deep_view(),
            shown_view.len() == shown@.len(),
            globals@.len() == i,
            forall|k: int| 0 <= k < i ==> globals.deep_view()[k] == summary_of(
                #[trigger] shown_view[k],
            ),
        decreases shown@.len() - i,
    {
        globals.push(
            GlobalSummary { interface: shown[i].interface.clone(), version: shown[i].version },
        );
        proof {
            assert(globals@[i as int]@ =~~= summary_of(shown_view[i as int]));
        }
        i = i + 1;
    }
    let r = JsonOutputBasic { generation_timestamp: timestamp_ms, globals };
    proof {
        assert(r@ =~~= json_basic_of(
            app_data@,
            sort_output,
            filter_view(protocol_filter),
            timestamp_ms,
        ));
    }
    r
}

} // verus!
