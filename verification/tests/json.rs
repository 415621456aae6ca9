//! The JSON-shaped outputs: basic shape, filter behavior, stable sort, and
//! idempotence up to the timestamp.

use wayland_info::app::AppData;
use wayland_info::output::{to_json_basic, to_json_output};

fn announce(app: &mut AppData, name: u32, interface: &str, version: u32) {
    app.handle_global(name, interface.to_string(), version);
}

#[test]
fn basic_output_holds_summaries_only() {
    let mut app = AppData::new();
    announce(&mut app, 5, "wl_output", 4);
    announce(&mut app, 6, "wl_shm", 1);
    let basic = to_json_basic(&app, false, None);
    assert_eq!(basic.globals.len(), 2);
    assert_eq!(basic.globals[0].interface, "wl_output");
    assert_eq!(basic.globals[0].version, 4);
    assert_eq!(basic.globals[1].interface, "wl_shm");
    assert_eq!(basic.globals[1].version, 1);
}

#[test]
fn full_output_without_filter_carries_every_record_list() {
    let mut app = AppData::new();
    announce(&mut app, 1, "wl_seat", 7);
    announce(&mut app, 2, "wl_output", 4);
    announce(&mut app, 3, "wl_shm", 1);
    let full = to_json_output(&app, false, None);
    assert_eq!(full.globals.len(), 3);
    assert_eq!(full.seats.len(), 1);
    assert_eq!(full.outputs.len(), 1);
    assert_eq!(full.shm_info.len(), 1);
    assert_eq!(full.seats[0].seat_name, "seat0");
    assert_eq!(full.outputs[0].output_name, "output0");
}

#[test]
fn filtered_output_keeps_its_shape_with_empty_arrays() {
    let mut app = AppData::new();
    announce(&mut app, 1, "wl_seat", 7);
    announce(&mut app, 2, "wl_output", 4);
    announce(&mut app, 3, "wl_shm", 1);
    let filtered = to_json_output(&app, false, Some("wl_seat"));
    assert_eq!(filtered.globals.len(), 1);
    assert_eq!(filtered.globals[0].interface, "wl_seat");
    assert_eq!(filtered.seats.len(), 1);
    // Every non-matching per-protocol array is present but empty.
    assert!(filtered.outputs.is_empty());
    assert!(filtered.shm_info.is_empty());
    assert!(filtered.drm_lease_devices.is_empty());
    assert!(filtered.presentation_info.is_empty());
    assert!(filtered.treeland_output_managers.is_empty());
    assert!(filtered.xdg_output_managers.is_empty());
}

#[test]
fn sorted_globals_are_ordered_and_stable() {
    let mut app = AppData::new();
    announce(&mut app, 1, "wl_output", 4);
    announce(&mut app, 2, "wl_compositor", 6);
    announce(&mut app, 3, "wl_output", 4);
    let sorted = to_json_output(&app, true, None);
    let ids: Vec<u32> = sorted.globals.iter().map(|g| g.name).collect();
    // Lexicographic by interface; the two equal names keep discovery order.
    assert_eq!(ids, vec![2, 1, 3]);
    let unsorted = to_json_output(&app, false, None);
    let ids: Vec<u32> = unsorted.globals.iter().map(|g| g.name).collect();
    assert_eq!(ids, vec![1, 2, 3]);
}

#[test]
fn json_outputs_differ_only_in_timestamp() {
    let mut app = AppData::new();
    announce(&mut app, 1, "wl_seat", 7);
    announce(&mut app, 2, "wl_output", 4);
    app.update_seat_keyboard_repeat(0, 25, 600);
    app.update_output_mode(0, 1, 1920, 1080, 60000);

    let first = to_json_output(&app, true, None);
    let second = to_json_output(&app, true, None);
    let first_globals: Vec<(u32, String, u32)> = first
        .globals
        .iter()
        .map(|g| (g.name, g.interface.clone(), g.version))
        .collect();
    let second_globals: Vec<(u32, String, u32)> = second
        .globals
        .iter()
        .map(|g| (g.name, g.interface.clone(), g.version))
        .collect();
    assert_eq!(first_globals, second_globals);
    assert_eq!(first.seats.len(), second.seats.len());
    assert_eq!(first.seats[0].keyboard_repeat_rate, second.seats[0].keyboard_repeat_rate);
    assert_eq!(first.outputs[0].modes.len(), second.outputs[0].modes.len());

    let first_basic = to_json_basic(&app, false, None);
    let second_basic = to_json_basic(&app, false, None);
    let firsts: Vec<(String, u32)> = first_basic
        .globals
        .iter()
        .map(|g| (g.interface.clone(), g.version))
        .collect();
    let seconds: Vec<(String, u32)> = second_basic
        .globals
        .iter()
        .map(|g| (g.interface.clone(), g.version))
        .collect();
    assert_eq!(firsts, seconds);
}

#[test]
fn basic_output_respects_filter_and_sort() {
    let mut app = AppData::new();
    announce(&mut app, 1, "wl_output", 4);
    announce(&mut app, 2, "wl_compositor", 6);
    let filtered = to_json_basic(&app, false, Some("wl_output"));
    assert_eq!(filtered.globals.len(), 1);
    assert_eq!(filtered.globals[0].interface, "wl_output");
    let sorted = to_json_basic(&app, true, None);
    assert_eq!(sorted.globals[0].interface, "wl_compositor");
    assert_eq!(sorted.globals[1].interface, "wl_output");
    let none = to_json_basic(&app, false, Some("wl_shm"));
    assert!(none.globals.is_empty());
}
