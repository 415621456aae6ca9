//! The text renderer: a pure function from a frozen snapshot and the
//! display options to the exact lines printed, pinned character for
//! character by the spec functions in this module.
//!
//! Layout, in full detail mode: one header, then per displayed global its
//! one-line summary and, for every interface with a detail renderer, the
//! matching per-protocol record found by numeric id. A protocol filter that
//! matches nothing yields the single "not supported" notice instead.

use vstd::prelude::*;

use crate::app::{AppData, GlobalInfo, GlobalView, SnapshotView};
use crate::protocols::treeland_output_manager::TreelandOutputManagerView;
use crate::protocols::wl_output::{OutputInfo, OutputModeView, OutputView};
use crate::protocols::wl_seat::{SeatInfo, SeatView};
use crate::protocols::wl_shm::{ShmFormatView, ShmInfo, ShmView};
use crate::protocols::wp_drm_lease_device::{DrmLeaseConnectorView, DrmLeaseDeviceInfo, DrmLeaseDeviceView};
use crate::protocols::wp_presentation::{PresentationInfo, PresentationView};
use crate::protocols::xdg_output::{XdgOutputManagerInfo, XdgOutputManagerView, XdgOutputView};
use crate::protocols::treeland_output_manager::TreelandOutputManagerInfo;
use crate::sorting::{sort_globals, sort_globals_spec};
use crate::textfmt::{dec_digits, dec_int, join_spaced, pad_right, refresh_hz};
use crate::textfmt::{
    i32_to_string, join_tokens, pad_to_width, refresh_to_string, str_eq, string_eq_literal,
    u32_to_string,
};

verus! {

// ---------------------------------------------------------------------
// Finding a record by its numeric id: first match wins.
// ---------------------------------------------------------------------
/// The first position holding `x`, if any.
pub open spec fn first_index_of(s: Seq<u32>, x: u32) -> Option<int>
    decreases s.len(),
{
    if s.len() == 0 {
        None
    } else if s[0] == x {
        Some(0)
    } else {
        match first_index_of(s.skip(1), x) {
            Some(i) => Some(i + 1),
            None => None,
        }
    }
}

/// Scanning from a position with no match so far finds the overall first
/// match.
proof fn lemma_first_index_from(s: Seq<u32>, x: u32, i: int)
    requires
        0 <= i <= s.len(),
        forall|j: int| 0 <= j < i ==> s[j] != x,
    ensures
        i < s.len() && s[i] == x ==> first_index_of(s, x) == Some(i),
        i == s.len() ==> first_index_of(s, x) is None,
    decreases i,
{
    if i == 0 {
        if i < s.len() && s[i] == x {
        } else if i == s.len() {
        }
    } else {
        assert(s.len() > 0 && s[0] != x);
        assert(forall|j: int| 0 <= j < i - 1 ==> s.skip(1)[j] == s[j + 1] && s[j + 1] != x);
        lemma_first_index_from(s.skip(1), x, i - 1);
        if i < s.len() && s[i] == x {
            assert(s.skip(1)[i - 1] == x);
        }
    }
}

/// The numeric ids of the records, in record order.
pub open spec fn seat_names(s: Seq<SeatView>) -> Seq<u32> {
    Seq::new(s.len(), |i: int| s[i].name)
}

/// The numeric ids of the records, in record order.
pub open spec fn output_names(s: Seq<OutputView>) -> Seq<u32> {
    Seq::new(s.len(), |i: int| s[i].name)
}

/// The numeric ids of the records, in record order.
pub open spec fn shm_names(s: Seq<ShmView>) -> Seq<u32> {
    Seq::new(s.len(), |i: int| s[i].name)
}

/// The numeric ids of the records, in record order.
pub open spec fn drm_names(s: Seq<DrmLeaseDeviceView>) -> Seq<u32> {
    Seq::new(s.len(), |i: int| s[i].name)
}

/// The numeric ids of the records, in record order.
pub open spec fn presentation_names(s: Seq<PresentationView>) -> Seq<u32> {
    Seq::new(s.len(), |i: int| s[i].name)
}

/// The numeric ids of the records, in record order.
pub open spec fn treeland_names(s: Seq<TreelandOutputManagerView>) -> Seq<u32> {
    Seq::new(s.len(), |i: int| s[i].name)
}

/// The numeric ids of the records, in record order.
pub open spec fn xdg_manager_names(s: Seq<XdgOutputManagerView>) -> Seq<u32> {
    Seq::new(s.len(), |i: int| s[i].name)
}

// ---------------------------------------------------------------------
// The lines of each detail block.
// ---------------------------------------------------------------------
/// A displayed global's one-line summary; sorted display omits the numeric
/// id, which is meaningless once the order is no longer discovery order.
pub open spec fn header_line(g: GlobalView, sort: bool) -> Seq<char> {
    if sort {
        "interface: "@ + pad_right(g.interface, 45) + " version: "@ + dec_digits(g.version as nat)
    } else {
        "name: "@ + pad_right(dec_digits(g.name as nat), 4) + " interface: "@ + pad_right(
            g.interface,
            45,
        ) + " version: "@ + dec_digits(g.version as nat)
    }
}

/// The notice shown when the filtered protocol has no detail renderer.
pub open spec fn no_details_line() -> Seq<char> {
    "        [Info] wayland-info-rs does not implement details for this protocol"@
}

/// A seat's detail block.
pub open spec fn seat_lines(s: SeatView) -> Seq<Seq<char>> {
    seq!["        name: "@ + s.seat_name] + (if s.capabilities.len() > 0 {
        seq!["        capabilities: "@ + join_spaced(s.capabilities)]
    } else {
        Seq::empty()
    }) + (match s.keyboard_repeat_rate {
        Some(rate) => seq!["        keyboard repeat rate: "@ + dec_int(rate as int)],
        None => Seq::empty(),
    }) + (match s.keyboard_repeat_delay {
        Some(delay) => seq!["        keyboard repeat delay: "@ + dec_int(delay as int)],
        None => Seq::empty(),
    })
}

/// One mode's three lines.
pub open spec fn mode_lines(m: OutputModeView) -> Seq<Seq<char>> {
    seq![
        "        mode:"@,
        "                width: "@ + dec_int(m.width as int) + " px, height: "@ + dec_int(
            m.height as int,
        ) + " px, refresh: "@ + refresh_hz(m.refresh as int) + " Hz,"@,
        "                flags: "@ + join_spaced(m.flags),
    ]
}

/// Every mode's lines, in announcement order.
pub open spec fn modes_lines(ms: Seq<OutputModeView>) -> Seq<Seq<char>>
    decreases ms.len(),
{
    if ms.len() == 0 {
        Seq::empty()
    } else {
        modes_lines(ms.drop_last()) + mode_lines(ms.last())
    }
}

/// An output's detail block.
pub open spec fn output_lines(o: OutputView) -> Seq<Seq<char>> {
    seq!["        name: "@ + o.output_name] + (if o.description.len() > 0 {
        seq!["        description: "@ + o.description]
    } else {
        Seq::empty()
    }) + seq![
        "        x: "@ + dec_int(o.x as int) + ", y: "@ + dec_int(o.y as int) + ", scale: "@
            + dec_int(o.scale as int) + ","@,
        "        physical_width: "@ + dec_int(o.physical_width as int)
            + " mm, physical_height: "@ + dec_int(o.physical_height as int) + " mm,"@,
    ] + (if o.make.len() > 0 {
        seq!["        make: '"@ + o.make + "', model: '"@ + o.model + "',"@]
    } else {
        Seq::empty()
    }) + seq![
        "        subpixel_orientation: "@ + o.subpixel_orientation + ", output_transform: "@
            + o.output_transform + ","@,
    ] + modes_lines(o.modes)
}

/// One advertised format's line.
pub open spec fn shm_format_line(f: ShmFormatView) -> Seq<char> {
    "        format: "@ + f.fourcc + " ("@ + dec_digits(f.format as nat) + ")"@
}

/// A shm global's detail block: one line per format.
pub open spec fn shm_lines(fs: Seq<ShmFormatView>) -> Seq<Seq<char>>
    decreases fs.len(),
{
    if fs.len() == 0 {
        Seq::empty()
    } else {
        shm_lines(fs.drop_last()) + seq![shm_format_line(fs.last())]
    }
}

/// One leasable connector's line.
pub open spec fn connector_line(c: DrmLeaseConnectorView) -> Seq<char> {
    "                name: "@ + c.name + ", description: "@ + c.description + ", connector_id: "@
        + dec_digits(c.connector_id as nat)
}

/// Every connector's line, in announcement order.
pub open spec fn connectors_lines(cs: Seq<DrmLeaseConnectorView>) -> Seq<Seq<char>>
    decreases cs.len(),
{
    if cs.len() == 0 {
        Seq::empty()
    } else {
        connectors_lines(cs.drop_last()) + seq![connector_line(cs.last())]
    }
}

/// A DRM lease device's detail block: the device path (a fixed default
/// when none was reported) and the connector list when any.
pub open spec fn drm_lines(d: DrmLeaseDeviceView) -> Seq<Seq<char>> {
    seq![
        match d.device_path {
            Some(path) => "        path: "@ + path,
            None => "        path: /dev/dri/card1"@,
        },
    ] + (if d.connectors.len() > 0 {
        seq!["        connectors:"@] + connectors_lines(d.connectors)
    } else {
        Seq::empty()
    })
}

/// A presentation global's detail block.
pub open spec fn presentation_lines(p: PresentationView) -> Seq<Seq<char>> {
    seq![
        match p.clock_id {
            Some(clock_id) => "        presentation clock id: "@ + dec_digits(clock_id as nat)
                + " (CLOCK_MONOTONIC)"@,
            None => "        presentation clock id: 1 (CLOCK_MONOTONIC)"@,
        },
    ]
}

/// A treeland output manager's detail block.
pub open spec fn treeland_lines(m: TreelandOutputManagerView) -> Seq<Seq<char>> {
    seq![
        match m.primary_output {
            Some(primary) => "        Primary output: "@ + primary,
            None => "        Primary output: <unknown>"@,
        },
    ]
}

/// One logical output's six lines.
pub open spec fn xdg_output_lines(o: XdgOutputView) -> Seq<Seq<char>> {
    seq![
        "        xdg_output_v1"@,
        "                output: "@ + dec_digits(o.output_id as nat),
        "                name: '"@ + o.name + "'"@,
        "                description: '"@ + o.description + "'"@,
        "                logical_x: "@ + dec_int(o.logical_x as int) + ", logical_y: "@ + dec_int(
            o.logical_y as int,
        ),
        "                logical_width: "@ + dec_int(o.logical_width as int)
            + ", logical_height: "@ + dec_int(o.logical_height as int),
    ]
}

/// An xdg output manager's detail block: every logical output's lines.
pub open spec fn xdg_lines(os: Seq<XdgOutputView>) -> Seq<Seq<char>>
    decreases os.len(),
{
    if os.len() == 0 {
        Seq::empty()
    } else {
        xdg_lines(os.drop_last()) + xdg_output_lines(os.last())
    }
}

// ---------------------------------------------------------------------
// The detail part of one displayed global, by interface.
// ---------------------------------------------------------------------
/// The seat block, when the global is a seat with a record.
pub open spec fn seat_detail(v: SnapshotView, g: GlobalView) -> Seq<Seq<char>> {
    if g.interface == "wl_seat"@ {
        match first_index_of(seat_names(v.seats), g.name) {
            Some(i) => seat_lines(v.seats[i]),
            None => Seq::empty(),
        }
    } else {
        Seq::empty()
    }
}

/// The output block, when the global is an output with a record.
pub open spec fn output_detail(v: SnapshotView, g: GlobalView) -> Seq<Seq<char>> {
    if g.interface == "wl_output"@ {
        match first_index_of(output_names(v.outputs), g.name) {
            Some(i) => output_lines(v.outputs[i]),
            None => Seq::empty(),
        }
    } else {
        Seq::empty()
    }
}

/// The shm block, when the global is a shm with a record.
pub open spec fn shm_detail(v: SnapshotView, g: GlobalView) -> Seq<Seq<char>> {
    if g.interface == "wl_shm"@ {
        match first_index_of(shm_names(v.shm_info), g.name) {
            Some(i) => shm_lines(v.shm_info[i].formats),
            None => Seq::empty(),
        }
    } else {
        Seq::empty()
    }
}

/// The DRM lease block; a missing record is reported in place.
pub open spec fn drm_detail(v: SnapshotView, g: GlobalView) -> Seq<Seq<char>> {
    if g.interface == "wp_drm_lease_device_v1"@ {
        match first_index_of(drm_names(v.drm_lease_devices), g.name) {
            Some(i) => drm_lines(v.drm_lease_devices[i]),
            None => seq!["        [Warning] DRM Lease device info not found!"@],
        }
    } else {
        Seq::empty()
    }
}

/// The presentation block; a missing record is reported in place.
pub open spec fn presentation_detail(v: SnapshotView, g: GlobalView) -> Seq<Seq<char>> {
    if g.interface == "wp_presentation"@ {
        match first_index_of(presentation_names(v.presentation_info), g.name) {
            Some(i) => presentation_lines(v.presentation_info[i]),
            None => seq!["        [Warning] Presentation info not found!"@],
        }
    } else {
        Seq::empty()
    }
}

/// The treeland block, when the global is a treeland manager with a record.
pub open spec fn treeland_detail(v: SnapshotView, g: GlobalView) -> Seq<Seq<char>> {
    if g.interface == "treeland_output_manager_v1"@ {
        match first_index_of(treeland_names(v.treeland_output_managers), g.name) {
            Some(i) => treeland_lines(v.treeland_output_managers[i]),
            None => Seq::empty(),
        }
    } else {
        Seq::empty()
    }
}

/// The xdg output block, when the global is an xdg manager with a record.
pub open spec fn xdg_detail(v: SnapshotView, g: GlobalView) -> Seq<Seq<char>> {
    if g.interface == "zxdg_output_manager_v1"@ {
        match first_index_of(xdg_manager_names(v.xdg_output_managers), g.name) {
            Some(i) => xdg_lines(v.xdg_output_managers[i].outputs),
            None => Seq::empty(),
        }
    } else {
        Seq::empty()
    }
}

/// Everything shown under one displayed global in full detail mode.
pub open spec fn detail_lines(v: SnapshotView, g: GlobalView) -> Seq<Seq<char>> {
    seat_detail(v, g) + output_detail(v, g) + shm_detail(v, g) + drm_detail(v, g)
        + presentation_detail(v, g) + treeland_detail(v, g) + xdg_detail(v, g)
}

// ---------------------------------------------------------------------
// Selecting and ordering the displayed globals.
// ---------------------------------------------------------------------
/// Whether a global passes the protocol filter.
pub open spec fn matches_filter(g: GlobalView, filter: Option<Seq<char>>) -> bool {
    match filter {
        Some(p) => g.interface == p,
        None => true,
    }
}

/// The globals that pass the filter, in announcement order.
pub open spec fn filter_globals(gs: Seq<GlobalView>, filter: Option<Seq<char>>) -> Seq<GlobalView>
    decreases gs.len(),
{
    if gs.len() == 0 {
        Seq::empty()
    } else {
        filter_globals(gs.drop_last(), filter) + (if matches_filter(gs.last(), filter) {
            seq![gs.last()]
        } else {
            Seq::empty()
        })
    }
}

/// The globals the renderer walks: filtered, and sorted by interface name
/// when sorted display is on; announcement order otherwise.
pub open spec fn displayed_globals(
    v: SnapshotView,
    sort: bool,
    filter: Option<Seq<char>>,
) -> Seq<GlobalView> {
    let filtered = filter_globals(v.globals, filter);
    if sort {
        sort_globals_spec(filtered)
    } else {
        filtered
    }
}

/// Rendering one frozen snapshot twice with identical options yields
/// identical text output: the lines are a function of the snapshot and the
/// options alone.
pub proof fn lemma_text_render_deterministic(
    v: SnapshotView,
    sort: bool,
    filter: Option<Seq<char>>,
    first: Seq<Seq<char>>,
    second: Seq<Seq<char>>,
)
    requires
        first == all_info_lines(v, sort, filter),
        second == all_info_lines(v, sort, filter),
    ensures
        first == second,
{
}

/// Filtering away nothing changes nothing: without a protocol filter the
/// selected globals are exactly the advertised ones.
pub proof fn lemma_filter_none_is_identity(gs: Seq<GlobalView>)
    ensures
        filter_globals(gs, None) == gs,
    decreases gs.len(),
{
    if gs.len() == 0 {
        assert(filter_globals(gs, None) =~= gs);
    } else {
        lemma_filter_none_is_identity(gs.drop_last());
        assert(filter_globals(gs, None) =~= gs);
    }
}

/// Unsorted display preserves announcement order: without a filter and
/// without sorting, the displayed globals are the advertised ones, in the
/// order they were announced.
pub proof fn lemma_unsorted_display_preserves_order(v: SnapshotView)
    ensures
        displayed_globals(v, false, None) == v.globals,
        displayed_globals(v, true, None) == sort_globals_spec(v.globals),
{
    lemma_filter_none_is_identity(v.globals);
}

/// Whether some advertised global has this interface name.
pub open spec fn globals_contain(gs: Seq<GlobalView>, p: Seq<char>) -> bool {
    exists|i: int| 0 <= i < gs.len() && (#[trigger] gs[i]).interface == p
}

/// The interfaces with a detail renderer.
pub open spec fn protocol_has_details_spec(p: Seq<char>) -> bool {
    ||| p == "wl_seat"@
    ||| p == "wl_output"@
    ||| p == "wl_shm"@
    ||| p == "wp_drm_lease_device_v1"@
    ||| p == "wp_presentation"@
    ||| p == "treeland_output_manager_v1"@
    ||| p == "zxdg_output_manager_v1"@
}

/// One displayed global's part of the full output: its summary line, then
/// either the notice that the filtered protocol has no details, or its
/// detail blocks.
pub open spec fn section_lines(
    v: SnapshotView,
    g: GlobalView,
    sort: bool,
    filter: Option<Seq<char>>,
) -> Seq<Seq<char>> {
    seq![header_line(g, sort)] + (match filter {
        Some(p) => if !protocol_has_details_spec(p) {
            seq![no_details_line()]
        } else {
            detail_lines(v, g)
        },
        None => detail_lines(v, g),
    })
}

/// Every displayed global's part, in display order.
pub open spec fn sections_lines(
    v: SnapshotView,
    gs: Seq<GlobalView>,
    sort: bool,
    filter: Option<Seq<char>>,
) -> Seq<Seq<char>>
    decreases gs.len(),
{
    if gs.len() == 0 {
        Seq::empty()
    } else {
        sections_lines(v, gs.drop_last(), sort, filter) + section_lines(v, gs.last(), sort, filter)
    }
}

/// The full-detail text output: the "not supported" notice when the filter
/// matches nothing, else the header and every displayed global's section.
pub open spec fn all_info_lines(
    v: SnapshotView,
    sort: bool,
    filter: Option<Seq<char>>,
) -> Seq<Seq<char>> {
    if filter is Some && !globals_contain(v.globals, filter.unwrap()) {
        seq!["Protocol not supported: "@ + filter.unwrap()]
    } else {
        seq!["Wayland Global Interfaces:"@] + sections_lines(
            v,
            displayed_globals(v, sort, filter),
            sort,
            filter,
        )
    }
}

/// One displayed global's part of the basic output: the summary line, plus
/// the no-details notice when the filtered protocol has none.
pub open spec fn basic_section_lines(
    g: GlobalView,
    sort: bool,
    filter: Option<Seq<char>>,
) -> Seq<Seq<char>> {
    seq![header_line(g, sort)] + (match filter {
        Some(p) => if !protocol_has_details_spec(p) {
            seq![no_details_line()]
        } else {
            Seq::empty()
        },
        None => Seq::empty(),
    })
}

/// Every displayed global's basic part, in display order.
pub open spec fn basic_sections_lines(
    gs: Seq<GlobalView>,
    sort: bool,
    filter: Option<Seq<char>>,
) -> Seq<Seq<char>>
    decreases gs.len(),
{
    if gs.len() == 0 {
        Seq::empty()
    } else {
        basic_sections_lines(gs.drop_last(), sort, filter) + basic_section_lines(
            gs.last(),
            sort,
            filter,
        )
    }
}

/// The basic text output: summaries only, never a numeric-id-keyed detail.
pub open spec fn basic_info_lines(
    v: SnapshotView,
    sort: bool,
    filter: Option<Seq<char>>,
) -> Seq<Seq<char>> {
    if filter is Some && !globals_contain(v.globals, filter.unwrap()) {
        seq!["Protocol not supported: "@ + filter.unwrap()]
    } else {
        seq!["Wayland Global Interfaces:"@] + basic_sections_lines(
            displayed_globals(v, sort, filter),
            sort,
            filter,
        )
    }
}

/// The filter as the specs see it.
pub open spec fn filter_view(filter: Option<&str>) -> Option<Seq<char>> {
    match filter {
        Some(p) => Some(p@),
        None => None,
    }
}

// ---------------------------------------------------------------------
// Executable renderer.
// ---------------------------------------------------------------------
/// Appends one finished line.
fn push_line(lines: &mut Vec<String>, line: String)
    ensures
        final(lines).deep_view() == old(lines).deep_view().push(line@),
{
    lines.push(line);
    proof {
        assert(lines.deep_view() =~~= old(lines).deep_view().push(line@));
    }
}

/// Finds the first seat record with this numeric id.
fn find_seat_index(seats: &Vec<SeatInfo>, name: u32) -> (r: Option<usize>)
    ensures
        match r {
            Some(i) => first_index_of(seat_names(seats.deep_view()), name) == Some(i as int) && (
            i as int) < seats.deep_view().len(),
            None => first_index_of(seat_names(seats.deep_view()), name) is None,
        },
{
    let ghost names = seat_names(seats.deep_view());
    let mut j: usize = 0;
    while j < seats.len()
        invariant
            j <= seats@.len(),
            names == seat_names(seats.deep_view()),
            names.len() == seats@.len(),
            forall|k: int| 0 <= k < j ==> names[k] != name,
        decreases seats@.len() - j,
    {
        if seats[j].name == name {
            proof {
                lemma_first_index_from(names, name, j as int);
            }
            return Some(j);
        }
        j = j + 1;
    }
    proof {
        lemma_first_index_from(names, name, seats@.len() as int);
    }
    None
}

/// Finds the first output record with this numeric id.
fn find_output_index(outputs: &Vec<OutputInfo>, name: u32) -> (r: Option<usize>)
    ensures
        match r {
            Some(i) => first_index_of(output_names(outputs.deep_view()), name) == Some(i as int)
                && (i as int) < outputs.deep_view().len(),
            None => first_index_of(output_names(outputs.deep_view()), name) is None,
        },
{
    let ghost names = output_names(outputs.deep_view());
    let mut j: usize = 0;
    while j < outputs.len()
        invariant
            j <= outputs@.len(),
            names == output_names(outputs.deep_view()),
            names.len() == outputs@.len(),
            forall|k: int| 0 <= k < j ==> names[k] != name,
        decreases outputs@.len() - j,
    {
        if outputs[j].name == name {
            proof {
                lemma_first_index_from(names, name, j as int);
            }
            return Some(j);
        }
        j = j + 1;
    }
    proof {
        lemma_first_index_from(names, name, outputs@.len() as int);
    }
    None
}

/// Finds the first shm record with this numeric id.
fn find_shm_index(shm_info: &Vec<ShmInfo>, name: u32) -> (r: Option<usize>)
    ensures
        match r {
            Some(i) => first_index_of(shm_names(shm_info.deep_view()), name) == Some(i as int) && (
            i as int) < shm_info.deep_view().len(),
            None => first_index_of(shm_names(shm_info.deep_view()), name) is None,
        },
{
    let ghost names = shm_names(shm_info.deep_view());
    let mut j: usize = 0;
    while j < shm_info.len()
        invariant
            j <= shm_info@.len(),
            names == shm_names(shm_info.deep_view()),
            names.len() == shm_info@.len(),
            forall|k: int| 0 <= k < j ==> names[k] != name,
        decreases shm_info@.len() - j,
    {
        if shm_info[j].name == name {
            proof {
                lemma_first_index_from(names, name, j as int);
            }
            return Some(j);
        }
        j = j + 1;
    }
    proof {
        lemma_first_index_from(names, name, shm_info@.len() as int);
    }
    None
}

/// Finds the first DRM lease device record with this numeric id.
fn find_drm_index(devices: &Vec<DrmLeaseDeviceInfo>, name: u32) -> (r: Option<usize>)
    ensures
        match r {
            Some(i) => first_index_of(drm_names(devices.deep_view()), name) == Some(i as int) && (
            i as int) < devices.deep_view().len(),
            None => first_index_of(drm_names(devices.deep_view()), name) is None,
        },
{
    let ghost names = drm_names(devices.deep_view());
    let mut j: usize = 0;
    while j < devices.len()
        invariant
            j <= devices@.len(),
            names == drm_names(devices.deep_view()),
            names.len() == devices@.len(),
            forall|k: int| 0 <= k < j ==> names[k] != name,
        decreases devices@.len() - j,
    {
        if devices[j].name == name {
            proof {
                lemma_first_index_from(names, name, j as int);
            }
            return Some(j);
        }
        j = j + 1;
    }
    proof {
        lemma_first_index_from(names, name, devices@.len() as int);
    }
    None
}

/// Finds the first presentation record with this numeric id.
fn find_presentation_index(infos: &Vec<PresentationInfo>, name: u32) -> (r: Option<usize>)
    ensures
        match r {
            Some(i) => first_index_of(presentation_names(infos.deep_view()), name) == Some(
                i as int,
            ) && (i as int) < infos.deep_view().len(),
            None => first_index_of(presentation_names(infos.deep_view()), name) is None,
        },
{
    let ghost names = presentation_names(infos.deep_view());
    let mut j: usize = 0;
    while j < infos.len()
        invariant
            j <= infos@.len(),
            names == presentation_names(infos.deep_view()),
            names.len() == infos@.len(),
            forall|k: int| 0 <= k < j ==> names[k] != name,
        decreases infos@.len() - j,
    {
        if infos[j].name == name {
            proof {
                lemma_first_index_from(names, name, j as int);
            }
            return Some(j);
        }
        j = j + 1;
    }
    proof {
        lemma_first_index_from(names, name, infos@.len() as int);
    }
    None
}

/// Finds the first treeland manager record with this numeric id.
fn find_treeland_index(managers: &Vec<TreelandOutputManagerInfo>, name: u32) -> (r: Option<usize>)
    ensures
        match r {
            Some(i) => first_index_of(treeland_names(managers.deep_view()), name) == Some(i as int)
                && (i as int) < managers.deep_view().len(),
            None => first_index_of(treeland_names(managers.deep_view()), name) is None,
        },
{
    let ghost names = treeland_names(managers.deep_view());
    let mut j: usize = 0;
    while j < managers.len()
        invariant
            j <= managers@.len(),
            names == treeland_names(managers.deep_view()),
            names.len() == managers@.len(),
            forall|k: int| 0 <= k < j ==> names[k] != name,
        decreases managers@.len() - j,
    {
        if managers[j].name == name {
            proof {
                lemma_first_index_from(names, name, j as int);
            }
            return Some(j);
        }
        j = j + 1;
    }
    proof {
        lemma_first_index_from(names, name, managers@.len() as int);
    }
    None
}

/// Finds the first xdg manager record with this numeric id.
fn find_xdg_manager_index(managers: &Vec<XdgOutputManagerInfo>, name: u32) -> (r: Option<usize>)
    ensures
        match r {
            Some(i) => first_index_of(xdg_manager_names(managers.deep_view()), name) == Some(
                i as int,
            ) && (i as int) < managers.deep_view().len(),
            None => first_index_of(xdg_manager_names(managers.deep_view()), name) is None,
        },
{
    let ghost names = xdg_manager_names(managers.deep_view());
    let mut j: usize = 0;
    while j < managers.len()
        invariant
            j <= managers@.len(),
            names == xdg_manager_names(managers.deep_view()),
            names.len() == managers@.len(),
            forall|k: int| 0 <= k < j ==> names[k] != name,
        decreases managers@.len() - j,
    {
        if managers[j].name == name {
            proof {
                lemma_first_index_from(names, name, j as int);
            }
            return Some(j);
        }
        j = j + 1;
    }
    proof {
        lemma_first_index_from(names, name, managers@.len() as int);
    }
    None
}

/// Builds one displayed global's summary line.
fn global_line(g: &GlobalInfo, sort: bool) -> (r: String)
    ensures
        r@ == header_line(g@, sort),
{
    let mut l = String::new();
    if !sort {
        l.append("name: ");
        let mut name_text = u32_to_string(g.name);
        pad_to_width(&mut name_text, 4);
        l.append(name_text.as_str());
        l.append(" interface: ");
    } else {
        l.append("interface: ");
    }
    let mut iface = g.interface.clone();
    pad_to_width(&mut iface, 45);
    l.append(iface.as_str());
    l.append(" version: ");
    let version_text = u32_to_string(g.version);
    l.append(version_text.as_str());
    proof {
        assert(l@ =~= header_line(g@, sort));
    }
    l
}

/// Appends a seat's detail block.
fn push_seat_lines(lines: &mut Vec<String>, seat: &SeatInfo)
    ensures
        final(lines).deep_view() == old(lines).deep_view() + seat_lines(seat@),
{
    let mut name_line = String::new();
    name_line.append("        name: ");
    name_line.append(seat.seat_name.as_str());
    push_line(lines, name_line);
    if seat.capabilities.len() > 0 {
        let mut caps_line = String::new();
        caps_line.append("        capabilities: ");
        let tokens = join_tokens(&seat.capabilities);
        caps_line.append(tokens.as_str());
        push_line(lines, caps_line);
    }
    if let Some(rate) = seat.keyboard_repeat_rate {
        let mut rate_line = String::new();
        rate_line.append("        keyboard repeat rate: ");
        let rate_text = i32_to_string(rate);
        rate_line.append(rate_text.as_str());
        push_line(lines, rate_line);
    }
    if let Some(delay) = seat.keyboard_repeat_delay {
        let mut delay_line = String::new();
        delay_line.append("        keyboard repeat delay: ");
        let delay_text = i32_to_string(delay);
        delay_line.append(delay_text.as_str());
        push_line(lines, delay_line);
    }
    proof {
        assert(lines.deep_view() =~~= old(lines).deep_view() + seat_lines(seat@));
    }
}

/// Appends an output's detail block.
fn push_output_lines(lines: &mut Vec<String>, output: &OutputInfo)
    ensures
        final(lines).deep_view() == old(lines).deep_view() + output_lines(output@),
{
    let mut name_line = String::new();
    name_line.append("        name: ");
    name_line.append(output.output_name.as_str());
    push_line(lines, name_line);
    if !output.description.as_str().is_empty() {
        let mut description_line = String::new();
        description_line.append("        description: ");
        description_line.append(output.description.as_str());
        push_line(lines, description_line);
    }
    let mut position_line = String::new();
    position_line.append("        x: ");
    let x_text = i32_to_string(output.x);
    position_line.append(x_text.as_str());
    position_line.append(", y: ");
    let y_text = i32_to_string(output.y);
    position_line.append(y_text.as_str());
    position_line.append(", scale: ");
    let scale_text = i32_to_string(output.scale);
    position_line.append(scale_text.as_str());
    position_line.append(",");
    push_line(lines, position_line);
    let mut physical_line = String::new();
    physical_line.append("        physical_width: ");
    let pw_text = i32_to_string(output.physical_width);
    physical_line.append(pw_text.as_str());
    physical_line.append(" mm, physical_height: ");
    let ph_text = i32_to_string(output.physical_height);
    physical_line.append(ph_text.as_str());
    physical_line.append(" mm,");
    push_line(lines, physical_line);
    if !output.make.as_str().is_empty() {
        let mut make_line = String::new();
        make_line.append("        make: '");
        make_line.append(output.make.as_str());
        make_line.append("', model: '");
        make_line.append(output.model.as_str());
        make_line.append("',");
        push_line(lines, make_line);
    }
    let mut subpixel_line = String::new();
    subpixel_line.append("        subpixel_orientation: ");
    subpixel_line.append(output.subpixel_orientation.as_str());
    subpixel_line.append(", output_transform: ");
    subpixel_line.append(output.output_transform.as_str());
    subpixel_line.append(",");
    push_line(lines, subpixel_line);
    let ghost before_modes = lines.deep_view();
    let ghost modes_view = output.modes.deep_view();
    let mut m: usize = 0;
    while m < output.modes.len()
        invariant
            m <= output.modes@.len(),
            modes_view == output.modes.deep_view(),
            modes_view.len() == output.modes@.len(),
            lines.deep_view() == before_modes + modes_lines(modes_view.take(m as int)),
        decreases output.modes@.len() - m,
    {
        push_line(lines, "        mode:".to_owned());
        let mode = &output.modes[m];
        let mut size_line = String::new();
        size_line.append("                width: ");
        let w_text = i32_to_string(mode.width);
        size_line.append(w_text.as_str());
        size_line.append(" px, height: ");
        let h_text = i32_to_string(mode.height);
        size_line.append(h_text.as_str());
        size_line.append(" px, refresh: ");
        let refresh_text = refresh_to_string(mode.refresh);
        size_line.append(refresh_text.as_str());
        size_line.append(" Hz,");
        push_line(lines, size_line);
        let mut flags_line = String::new();
        flags_line.append("                flags: ");
        let tokens = join_tokens(&mode.flags);
        flags_line.append(tokens.as_str());
        push_line(lines, flags_line);
        proof {
            assert(modes_view.take(m + 1).drop_last() =~= modes_view.take(m as int));
            assert(lines.deep_view() =~~= before_modes + modes_lines(modes_view.take(m + 1)));
        }
        m = m + 1;
    }
    proof {
        assert(modes_view.take(modes_view.len() as int) =~= modes_view);
        assert(lines.deep_view() =~~= old(lines).deep_view() + output_lines(output@));
    }
}

/// Appends a shm global's detail block.
fn push_shm_lines(lines: &mut Vec<String>, shm: &ShmInfo)
    ensures
        final(lines).deep_view() == old(lines).deep_view() + shm_lines(shm@.formats),
{
    let ghost formats_view = shm.formats.deep_view();
    let mut f: usize = 0;
    while f < shm.formats.len()
        invariant
            f <= shm.formats@.len(),
            formats_view == shm.formats.deep_view(),
            formats_view.len() == shm.formats@.len(),
            lines.deep_view() == old(lines).deep_view() + shm_lines(formats_view.take(f as int)),
        decreases shm.formats@.len() - f,
    {
        let mut format_line = String::new();
        format_line.append("        format: ");
        format_line.append(shm.formats[f].fourcc.as_str());
        format_line.append(" (");
        let code_text = u32_to_string(shm.formats[f].format);
        format_line.append(code_text.as_str());
        format_line.append(")");
        push_line(lines, format_line);
        proof {
            assert(formats_view.take(f + 1).drop_last() =~= formats_view.take(f as int));
            assert(lines.deep_view() =~~= old(lines).deep_view() + shm_lines(
                formats_view.take(f + 1),
            ));
        }
        f = f + 1;
    }
    proof {
        assert(formats_view.take(formats_view.len() as int) =~= formats_view);
    }
}

/// Appends a DRM lease device's detail block.
fn push_drm_lines(lines: &mut Vec<String>, device: &DrmLeaseDeviceInfo)
    ensures
        final(lines).deep_view() == old(lines).deep_view() + drm_lines(device@),
{
    match &device.device_path {
        Some(path) => {
            let mut path_line = String::new();
            path_line.append("        path: ");
            path_line.append(path.as_str());
            push_line(lines, path_line);
        },
        None => {
            push_line(lines, "        path: /dev/dri/card1".to_owned());
        },
    }
    if device.connectors.len() > 0 {
        push_line(lines, "        connectors:".to_owned());
        let ghost before = lines.deep_view();
        let ghost connectors_view = device.connectors.deep_view();
        let mut c: usize = 0;
        while c < device.connectors.len()
            invariant
                c <= device.connectors@.len(),
                connectors_view == device.connectors.deep_view(),
                connectors_view.len() == device.connectors@.len(),
                lines.deep_view() == before + connectors_lines(connectors_view.take(c as int)),
            decreases device.connectors@.len() - c,
        {
            let mut connector_text = String::new();
            connector_text.append("                name: ");
            connector_text.append(device.connectors[c].name.as_str());
            connector_text.append(", description: ");
            connector_text.append(device.connectors[c].description.as_str());
            connector_text.append(", connector_id: ");
            let id_text = u32_to_string(device.connectors[c].connector_id);
            connector_text.append(id_text.as_str());
            push_line(lines, connector_text);
            proof {
                assert(connectors_view.take(c + 1).drop_last() =~= connectors_view.take(c as int));
                assert(lines.deep_view() =~~= before + connectors_lines(
                    connectors_view.take(c + 1),
                ));
            }
            c = c + 1;
        }
        proof {
            assert(connectors_view.take(connectors_view.len() as int) =~= connectors_view);
            assert(lines.deep_view() =~~= old(lines).deep_view() + drm_lines(device@));
        }
    } else {
        proof {
            assert(lines.deep_view() =~~= old(lines).deep_view() + drm_lines(device@));
        }
    }
}

/// Appends a presentation global's detail block.
fn push_presentation_lines(lines: &mut Vec<String>, info: &PresentationInfo)
    ensures
        final(lines).deep_view() == old(lines).deep_view() + presentation_lines(info@),
{
    match info.clock_id {
        Some(clock_id) => {
            let mut clock_line = String::new();
            clock_line.append("        presentation clock id: ");
            let clock_text = u32_to_string(clock_id);
            clock_line.append(clock_text.as_str());
            clock_line.append(" (CLOCK_MONOTONIC)");
            push_line(lines, clock_line);
        },
        None => {
            push_line(lines, "        presentation clock id: 1 (CLOCK_MONOTONIC)".to_owned());
        },
    }
    proof {
        assert(lines.deep_view() =~~= old(lines).deep_view() + presentation_lines(info@));
    }
}

/// Appends a treeland output manager's detail block.
fn push_treeland_lines(lines: &mut Vec<String>, manager: &TreelandOutputManagerInfo)
    ensures
        final(lines).deep_view() == old(lines).deep_view() + treeland_lines(manager@),
{
    match &manager.primary_output {
        Some(primary) => {
            let mut primary_line = String::new();
            primary_line.append("        Primary output: ");
            primary_line.append(primary.as_str());
            push_line(lines, primary_line);
        },
        None => {
            push_line(lines, "        Primary output: <unknown>".to_owned());
        },
    }
    proof {
        assert(lines.deep_view() =~~= old(lines).deep_view() + treeland_lines(manager@));
    }
}

/// Appends an xdg output manager's detail block.
fn push_xdg_lines(lines: &mut Vec<String>, manager: &XdgOutputManagerInfo)
    ensures
        final(lines).deep_view() == old(lines).deep_view() + xdg_lines(manager@.outputs),
{
    let ghost outputs_view = manager.outputs.deep_view();
    let mut o: usize = 0;
    while o < manager.outputs.len()
        invariant
            o <= manager.outputs@.len(),
            outputs_view == manager.outputs.deep_view(),
            outputs_view.len() == manager.outputs@.len(),
            lines.deep_view() == old(lines).deep_view() + xdg_lines(outputs_view.take(o as int)),
        decreases manager.outputs@.len() - o,
    {
        push_line(lines, "        xdg_output_v1".to_owned());
        let entry = &manager.outputs[o];
        let mut id_line = String::new();
        id_line.append("                output: ");
        let id_text = u32_to_string(entry.output_id);
        id_line.append(id_text.as_str());
        push_line(lines, id_line);
        let mut name_line = String::new();
        name_line.append("                name: '");
        name_line.append(entry.name.as_str());
        name_line.append("'");
        push_line(lines, name_line);
        let mut description_line = String::new();
        description_line.append("                description: '");
        description_line.append(entry.description.as_str());
        description_line.append("'");
        push_line(lines, description_line);
        let mut position_line = String::new();
        position_line.append("                logical_x: ");
        let lx_text = i32_to_string(entry.logical_x);
        position_line.append(lx_text.as_str());
        position_line.append(", logical_y: ");
        let ly_text = i32_to_string(entry.logical_y);
        position_line.append(ly_text.as_str());
        push_line(lines, position_line);
        let mut size_line = String::new();
        size_line.append("                logical_width: ");
        let lw_text = i32_to_string(entry.logical_width);
        size_line.append(lw_text.as_str());
        size_line.append(", logical_height: ");
        let lh_text = i32_to_string(entry.logical_height);
        size_line.append(lh_text.as_str());
        push_line(lines, size_line);
        proof {
            assert(outputs_view.take(o + 1).drop_last() =~= outputs_view.take(o as int));
            assert(lines.deep_view() =~~= old(lines).deep_view() + xdg_lines(
                outputs_view.take(o + 1),
            ));
        }
        o = o + 1;
    }
    proof {
        assert(outputs_view.take(outputs_view.len() as int) =~= outputs_view);
    }
}

/// Appends everything shown under one displayed global in full detail
/// mode: the per-protocol record found by numeric id, or the warnings the
/// interfaces with mandatory records emit when none is found.
fn push_detail_lines(lines: &mut Vec<String>, app: &AppData, g: &GlobalInfo)
    ensures
        final(lines).deep_view() == old(lines).deep_view() + detail_lines(app@, g@),
{
    push_seat_detail(lines, app, g);
    push_output_detail(lines, app, g);
    push_shm_detail(lines, app, g);
    push_drm_detail(lines, app, g);
    push_presentation_detail(lines, app, g);
    push_treeland_detail(lines, app, g);
    push_xdg_detail(lines, app, g);
    proof {
        assert(lines.deep_view() =~~= old(lines).deep_view() + detail_lines(app@, g@));
    }
}

/// Appends the seat block when this global is a seat.
fn push_seat_detail(lines: &mut Vec<String>, app: &AppData, g: &GlobalInfo)
    ensures
        final(lines).deep_view() == old(lines).deep_view() + seat_detail(app@, g@),
{
    if string_eq_literal(&g.interface, "wl_seat") {
        if let Some(i) = find_seat_index(&app.seats, g.name) {
            push_seat_lines(lines, &app.seats[i]);
        }
    }
    proof {
        assert(lines.deep_view() =~~= old(lines).deep_view() + seat_detail(app@, g@));
    }
}

/// Appends the output block when this global is an output.
fn push_output_detail(lines: &mut Vec<String>, app: &AppData, g: &GlobalInfo)
    ensures
        final(lines).deep_view() == old(lines).deep_view() + output_detail(app@, g@),
{
    if string_eq_literal(&g.interface, "wl_output") {
        if let Some(i) = find_output_index(&app.outputs, g.name) {
            push_output_lines(lines, &app.outputs[i]);
        }
    }
    proof {
        assert(lines.deep_view() =~~= old(lines).deep_view() + output_detail(app@, g@));
    }
}

/// Appends the shm block when this global is a shm.
fn push_shm_detail(lines: &mut Vec<String>, app: &AppData, g: &GlobalInfo)
    ensures
        final(lines).deep_view() == old(lines).deep_view() + shm_detail(app@, g@),
{
    if string_eq_literal(&g.interface, "wl_shm") {
        if let Some(i) = find_shm_index(&app.shm_info, g.name) {
            push_shm_lines(lines, &app.shm_info[i]);
        }
    }
    proof {
        assert(lines.deep_view() =~~= old(lines).deep_view() + shm_detail(app@, g@));
    }
}

/// Appends the DRM lease block when this global is a lease device.
fn push_drm_detail(lines: &mut Vec<String>, app: &AppData, g: &GlobalInfo)
    ensures
        final(lines).deep_view() == old(lines).deep_view() + drm_detail(app@, g@),
{
    if string_eq_literal(&g.interface, "wp_drm_lease_device_v1") {
        match find_drm_index(&app.drm_lease_devices, g.name) {
            Some(i) => push_drm_lines(lines, &app.drm_lease_devices[i]),
            None => push_line(
                lines,
                "        [Warning] DRM Lease device info not found!".to_owned(),
            ),
        }
    }
    proof {
        assert(lines.deep_view() =~~= old(lines).deep_view() + drm_detail(app@, g@));
    }
}

/// Appends the presentation block when this global is a presentation.
fn push_presentation_detail(lines: &mut Vec<String>, app: &AppData, g: &GlobalInfo)
    ensures
        final(lines).deep_view() == old(lines).deep_view() + presentation_detail(app@, g@),
{
    if string_eq_literal(&g.interface, "wp_presentation") {
        match find_presentation_index(&app.presentation_info, g.name) {
            Some(i) => push_presentation_lines(lines, &app.presentation_info[i]),
            None => push_line(lines, "        [Warning] Presentation info not found!".to_owned()),
        }
    }
    proof {
        assert(lines.deep_view() =~~= old(lines).deep_view() + presentation_detail(app@, g@));
    }
}

/// Appends the treeland block when this global is a treeland manager.
fn push_treeland_detail(lines: &mut Vec<String>, app: &AppData, g: &GlobalInfo)
    ensures
        final(lines).deep_view() == old(lines).deep_view() + treeland_detail(app@, g@),
{
    if string_eq_literal(&g.interface, "treeland_output_manager_v1") {
        if let Some(i) = find_treeland_index(&app.treeland_output_managers, g.name) {
            push_treeland_lines(lines, &app.treeland_output_managers[i]);
        }
    }
    proof {
        assert(lines.deep_view() =~~= old(lines).deep_view() + treeland_detail(app@, g@));
    }
}

/// Appends the xdg output block when this global is an xdg manager.
fn push_xdg_detail(lines: &mut Vec<String>, app: &AppData, g: &GlobalInfo)
    ensures
        final(lines).deep_view() == old(lines).deep_view() + xdg_detail(app@, g@),
{
    if string_eq_literal(&g.interface, "zxdg_output_manager_v1") {
        if let Some(i) = find_xdg_manager_index(&app.xdg_output_managers, g.name) {
            push_xdg_lines(lines, &app.xdg_output_managers[i]);
        }
    }
    proof {
        assert(lines.deep_view() =~~= old(lines).deep_view() + xdg_detail(app@, g@));
    }
}

/// Whether this tool renders details for the named protocol.
pub fn protocol_has_details(protocol: &str) -> (r: bool)
    ensures
        r == protocol_has_details_spec(protocol@),
{
    str_eq(protocol, "wl_seat") || str_eq(protocol, "wl_output") || str_eq(protocol, "wl_shm")
        || str_eq(protocol, "wp_drm_lease_device_v1") || str_eq(protocol, "wp_presentation")
        || str_eq(protocol, "treeland_output_manager_v1") || str_eq(
        protocol,
        "zxdg_output_manager_v1",
    )
}

/// Whether any advertised global has this interface name.
fn any_global_matches(globals: &Vec<GlobalInfo>, p: &str) -> (r: bool)
    ensures
        r == globals_contain(globals.deep_view(), p@),
{
    let mut j: usize = 0;
    while j < globals.len()
        invariant
            j <= globals@.len(),
            globals.deep_view().len() == globals@.len(),
            forall|k: int| 0 <= k < j ==> (#[trigger] globals.deep_view()[k]).interface != p@,
        decreases globals@.len() - j,
    {
        if string_eq_literal(&globals[j].interface, p) {
            proof {
                assert((#[trigger] globals.deep_view()[j as int]).interface == p@);
            }
            return true;
        }
        j = j + 1;
    }
    false
}

/// The globals that pass the filter, in announcement order.
pub(crate) fn filtered_globals(globals: &Vec<GlobalInfo>, protocol_filter: Option<&str>) -> (r: Vec<
    GlobalInfo,
>)
    ensures
        r.deep_view() == filter_globals(globals.deep_view(), filter_view(protocol_filter)),
{
    let ghost input = globals.deep_view();
    let ghost fview = filter_view(protocol_filter);
    let mut r: Vec<GlobalInfo> = Vec::new();
    let mut i: usize = 0;
    while i < globals.len()
        invariant
            i <= globals@.len(),
            input == globals.deep_view(),
            input.len() == globals@.len(),
            fview == filter_view(protocol_filter),
            r.deep_view() == filter_globals(input.take(i as int), fview),
        decreases globals@.len() - i,
    {
        let keep = match protocol_filter {
            Some(p) => string_eq_literal(&globals[i].interface, p),
            None => true,
        };
        if keep {
            r.push(
                GlobalInfo {
                    name: globals[i].name,
                    interface: globals[i].interface.clone(),
                    version: globals[i].version,
                },
            );
        }
        proof {
            assert(input.take(i + 1).drop_last() =~= input.take(i as int));
            assert(r.deep_view() =~~= filter_globals(input.take(i + 1), fview));
        }
        i = i + 1;
    }
    proof {
        assert(input.take(input.len() as int) =~= input);
    }
    r
}

impl AppData {
    /// The full-detail text output: every line, in order, exactly as
    /// printed. A filter that matches no advertised global yields the
    /// single "not supported" notice.
    pub fn render_all_info(&self, sort_output: bool, protocol_filter: Option<&str>) -> (lines: Vec<
        String,
    >)
        ensures
            lines.deep_view() == all_info_lines(self@, sort_output, filter_view(protocol_filter)),
    {
        let ghost v = self@;
        let ghost fview = filter_view(protocol_filter);
        let mut lines: Vec<String> = Vec::new();
        if let Some(p) = protocol_filter {
            if !any_global_matches(&self.globals, p) {
                let mut notice = String::new();
                notice.append("Protocol not supported: ");
                notice.append(p);
                push_line(&mut lines, notice);
                proof {
                    assert(lines.deep_view() =~~= all_info_lines(v, sort_output, fview));
                }
                return lines;
            }
        }
        push_line(&mut lines, "Wayland Global Interfaces:".to_owned());
        let filtered = filtered_globals(&self.globals, protocol_filter);
        let displayed: Vec<GlobalInfo> = if sort_output {
            sort_globals(&filtered)
        } else {
            filtered
        };
        let ghost disp = displayed.deep_view();
        proof {
            assert(disp == displayed_globals(v, sort_output, fview));
        }
        let show_notice: bool = match protocol_filter {
            Some(p) => !protocol_has_details(p),
            None => false,
        };
        let mut i: usize = 0;
        while i < displayed.len()
            invariant
                i <= displayed@.len(),
                disp == displayed.deep_view(),
                disp.len() == displayed@.len(),
                v == self@,
                fview == filter_view(protocol_filter),
                disp == displayed_globals(v, sort_output, fview),
                show_notice == (match fview {
                    Some(p) => !protocol_has_details_spec(p),
                    None => false,
                }),
                lines.deep_view() == seq!["Wayland Global Interfaces:"@] + sections_lines(
                    v,
                    disp.take(i as int),
                    sort_output,
                    fview,
                ),
            decreases displayed@.len() - i,
        {
            let summary = global_line(&displayed[i], sort_output);
            push_line(&mut lines, summary);
            if show_notice {
                push_line(
                    &mut lines,
                    "        [Info] wayland-info-rs does not implement details for this protocol".to_owned(),
                );
            } else {
                push_detail_lines(&mut lines, self, &displayed[i]);
            }
            proof {
                assert(disp.take(i + 1).drop_last() =~= disp.take(i as int));
                assert(lines.deep_view() =~~= seq!["Wayland Global Interfaces:"@] + sections_lines(
                    v,
                    disp.take(i + 1),
                    sort_output,
                    fview,
                ));
            }
            i = i + 1;
        }
        proof {
            assert(disp.take(disp.len() as int) =~= disp);
            assert(lines.deep_view() =~~= all_info_lines(v, sort_output, fview));
        }
        lines
    }

    /// The basic text output: one summary line per displayed global, and
    /// the no-details notice where the filter asks for details this tool
    /// does not render.
    pub fn render_basic_info(&self, sort_output: bool, protocol_filter: Option<&str>) -> (lines:
        Vec<String>)
        ensures
            lines.deep_view() == basic_info_lines(
                self@,
                sort_output,
                filter_view(protocol_filter),
            ),
    {
        let ghost v = self@;
        let ghost fview = filter_view(protocol_filter);
        let mut lines: Vec<String> = Vec::new();
        if let Some(p) = protocol_filter {
            if !any_global_matches(&self.globals, p) {
                let mut notice = String::new();
                notice.append("Protocol not supported: ");
                notice.append(p);
                push_line(&mut lines, notice);
                proof {
                    assert(lines.deep_view() =~~= basic_info_lines(v, sort_output, fview));
                }
                return lines;
            }
        }
        push_line(&mut lines, "Wayland Global Interfaces:".to_owned());
        let filtered = filtered_globals(&self.globals, protocol_filter);
        let displayed: Vec<GlobalInfo> = if sort_output {
            sort_globals(&filtered)
        } else {
            filtered
        };
        let ghost disp = displayed.deep_view();
        let show_notice: bool = match protocol_filter {
            Some(p) => !protocol_has_details(p),
            None => false,
        };
        let mut i: usize = 0;
        while i < displayed.len()
            invariant
                i <= displayed@.len(),
                disp == displayed.deep_view(),
                disp.len() == displayed@.len(),
                fview == filter_view(protocol_filter),
                disp == displayed_globals(v, sort_output, fview),
                show_notice == (match fview {
                    Some(p) => !protocol_has_details_spec(p),
                    None => false,
                }),
                lines.deep_view() == seq!["Wayland Global Interfaces:"@] + basic_sections_lines(
                    disp.take(i as int),
                    sort_output,
                    fview,
                ),
            decreases displayed@.len() - i,
        {
            let summary = global_line(&displayed[i], sort_output);
            push_line(&mut lines, summary);
            if show_notice {
                push_line(
                    &mut lines,
                    "        [Info] wayland-info-rs does not implement details for this protocol".to_owned(),
                );
            }
            proof {
                assert(disp.take(i + 1).drop_last() =~= disp.take(i as int));
                assert(lines.deep_view() =~~= seq!["Wayland Global Interfaces:"@]
                    + basic_sections_lines(disp.take(i + 1), sort_output, fview));
            }
            i = i + 1;
        }
        proof {
            assert(disp.take(disp.len() as int) =~= disp);
            assert(lines.deep_view() =~~= basic_info_lines(v, sort_output, fview));
        }
        lines
    }
}

} // verus!
