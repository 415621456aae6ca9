//! Collectors, the registry decision, and the staged collection plan.

use wayland_info::app::{AppData, UserData};
use wayland_info::cli::{parse_args, Cli};
use wayland_info::orchestrator::{post_discovery_plan, PlanStep, DRAIN_BARRIERS};
use wayland_info::protocols::wl_output::OutputGeometry;
use wayland_info::protocols::wl_seat::capability_tokens;

fn announce(app: &mut AppData, name: u32, interface: &str, version: u32) -> Option<UserData> {
    app.handle_global(name, interface.to_string(), version)
}

#[test]
fn registry_creates_records_and_bind_tags() {
    let mut app = AppData::new();
    let seat_bind = announce(&mut app, 10, "wl_seat", 7);
    let output_bind = announce(&mut app, 11, "wl_output", 4);
    let shm_bind = announce(&mut app, 12, "wl_shm", 1);
    let drm_bind = announce(&mut app, 13, "wp_drm_lease_device_v1", 1);
    let presentation_bind = announce(&mut app, 14, "wp_presentation", 1);
    let treeland_bind = announce(&mut app, 15, "treeland_output_manager_v1", 1);
    let xdg_bind = announce(&mut app, 16, "zxdg_output_manager_v1", 3);
    let unknown_bind = announce(&mut app, 17, "wl_compositor", 6);

    assert_eq!(seat_bind, Some(UserData::Seat { seat_index: 0 }));
    assert_eq!(output_bind, Some(UserData::Output { output_index: 0 }));
    assert_eq!(shm_bind, Some(UserData::Shm { shm_index: 0 }));
    // A DRM lease device gets a record but no secondary bind.
    assert_eq!(drm_bind, None);
    assert_eq!(presentation_bind, Some(UserData::Presentation { presentation_index: 0 }));
    assert_eq!(treeland_bind, Some(UserData::TreelandOutputManager { manager_index: 0 }));
    assert_eq!(xdg_bind, Some(UserData::XdgOutputManager { manager_index: 0 }));
    assert_eq!(unknown_bind, None);

    // Every announcement lands in the global list, in announcement order.
    assert_eq!(app.globals.len(), 8);
    assert_eq!(app.globals[0].name, 10);
    assert_eq!(app.globals[0].interface, "wl_seat");
    assert_eq!(app.globals[0].version, 7);
    assert_eq!(app.globals[7].interface, "wl_compositor");

    // Generated display names carry the dense index.
    assert_eq!(app.seats[0].seat_name, "seat0");
    assert_eq!(app.outputs[0].output_name, "output0");
    assert_eq!(app.drm_lease_devices[0].name, 13);
    assert_eq!(app.drm_lease_devices[0].device_path, None);
    assert!(app.drm_lease_devices[0].connectors.is_empty());
}

#[test]
fn generated_seat_names_count_up() {
    let mut app = AppData::new();
    announce(&mut app, 1, "wl_seat", 7);
    announce(&mut app, 2, "wl_seat", 7);
    announce(&mut app, 3, "wl_seat", 7);
    assert_eq!(app.seats[0].seat_name, "seat0");
    assert_eq!(app.seats[1].seat_name, "seat1");
    assert_eq!(app.seats[2].seat_name, "seat2");
}

#[test]
fn repeat_info_is_never_attributed_to_another_seat() {
    let mut app = AppData::new();
    announce(&mut app, 1, "wl_seat", 7);
    announce(&mut app, 2, "wl_seat", 7);
    // Both seats start with the repeat fields absent.
    assert_eq!(app.seats[0].keyboard_repeat_rate, None);
    assert_eq!(app.seats[1].keyboard_repeat_rate, None);
    // A repeat-info event for seat 1 leaves seat 0 untouched.
    app.update_seat_keyboard_repeat(1, 25, 600);
    assert_eq!(app.seats[0].keyboard_repeat_rate, None);
    assert_eq!(app.seats[0].keyboard_repeat_delay, None);
    assert_eq!(app.seats[1].keyboard_repeat_rate, Some(25));
    assert_eq!(app.seats[1].keyboard_repeat_delay, Some(600));
    // Other seat events also keep the repeat fields absent.
    app.update_seat_capabilities(0, capability_tokens(3));
    app.update_seat_name(0, "primary".to_string());
    assert_eq!(app.seats[0].keyboard_repeat_rate, None);
    assert_eq!(app.seats[0].keyboard_repeat_delay, None);
}

#[test]
fn events_with_unknown_indices_are_discarded() {
    let mut app = AppData::new();
    announce(&mut app, 1, "wl_seat", 7);
    app.update_seat_keyboard_repeat(5, 25, 600);
    app.update_seat_capabilities(5, capability_tokens(1));
    app.update_output_scale(0, 2);
    app.add_shm_format(0, 0);
    app.update_presentation_clock_id(0, 1);
    app.update_treeland_primary_output(0, "eDP-1".to_string());
    app.add_xdg_output(0, 0);
    app.update_xdg_output_name(0, 0, "x".to_string());
    assert_eq!(app.seats[0].keyboard_repeat_rate, None);
    assert!(app.outputs.is_empty());
    assert!(app.shm_info.is_empty());
    assert!(app.presentation_info.is_empty());
    assert!(app.treeland_output_managers.is_empty());
    assert!(app.xdg_output_managers.is_empty());
}

#[test]
fn geometry_event_maps_wire_enums_to_tokens() {
    let mut app = AppData::new();
    announce(&mut app, 1, "wl_output", 4);
    app.update_output_geometry(
        0,
        OutputGeometry {
            x: 100,
            y: -50,
            physical_width: 344,
            physical_height: 194,
            subpixel: 2,
            transform: 4,
            make: "ACME".to_string(),
            model: "Panel 15".to_string(),
        },
    );
    let output = &app.outputs[0];
    assert_eq!(output.x, 100);
    assert_eq!(output.y, -50);
    assert_eq!(output.physical_width, 344);
    assert_eq!(output.physical_height, 194);
    assert_eq!(output.make, "ACME");
    assert_eq!(output.model, "Panel 15");
    assert_eq!(output.subpixel_orientation, "horizontal_rgb");
    assert_eq!(output.output_transform, "flipped");
}

#[test]
fn modes_accumulate_without_deduplication() {
    let mut app = AppData::new();
    announce(&mut app, 1, "wl_output", 4);
    app.update_output_mode(0, 3, 1920, 1080, 60000);
    app.update_output_mode(0, 3, 1920, 1080, 60000);
    app.update_output_mode(0, 0, 1280, 720, 59940);
    assert_eq!(app.outputs[0].modes.len(), 3);
    assert_eq!(app.outputs[0].modes[0].flags, vec!["current".to_string(), "preferred".to_string()]);
    assert_eq!(app.outputs[0].modes[2].width, 1280);
    assert!(app.outputs[0].modes[2].flags.is_empty());
}

#[test]
fn shm_formats_record_code_and_rendering() {
    let mut app = AppData::new();
    announce(&mut app, 1, "wl_shm", 1);
    app.add_shm_format(0, 0);
    app.add_shm_format(0, 0x34325258);
    assert_eq!(app.shm_info[0].formats.len(), 2);
    assert_eq!(app.shm_info[0].formats[0].format, 0);
    assert_eq!(app.shm_info[0].formats[0].fourcc, "00000000");
    assert_eq!(app.shm_info[0].formats[1].fourcc, "XR24");
}

#[test]
fn logical_output_pass_registers_one_record_per_pair() {
    let mut app = AppData::new();
    announce(&mut app, 1, "wl_output", 4);
    announce(&mut app, 2, "zxdg_output_manager_v1", 3);
    announce(&mut app, 3, "wl_output", 4);
    announce(&mut app, 4, "zxdg_output_manager_v1", 3);
    let pairs = app.register_logical_output_pairs();
    assert_eq!(pairs, vec![(0, 0), (0, 1), (1, 0), (1, 1)]);
    assert_eq!(app.xdg_output_managers.len(), 2);
    for manager in &app.xdg_output_managers {
        assert_eq!(manager.outputs.len(), 2);
        assert_eq!(manager.outputs[0].output_id, 0);
        assert_eq!(manager.outputs[1].output_id, 1);
        assert_eq!(manager.outputs[0].name, "");
        assert_eq!(manager.outputs[0].logical_width, 0);
    }
}

#[test]
fn logical_output_events_land_at_their_pair() {
    let mut app = AppData::new();
    announce(&mut app, 1, "wl_output", 4);
    announce(&mut app, 2, "wl_output", 4);
    announce(&mut app, 3, "zxdg_output_manager_v1", 3);
    app.register_logical_output_pairs();
    app.update_xdg_output_name(0, 1, "HDMI-A-1".to_string());
    app.update_xdg_output_description(0, 1, "external".to_string());
    app.update_xdg_output_logical_position(0, 1, 1920, 0);
    app.update_xdg_output_logical_size(0, 1, 2560, 1440);
    let first = &app.xdg_output_managers[0].outputs[0];
    let second = &app.xdg_output_managers[0].outputs[1];
    assert_eq!(first.name, "");
    assert_eq!(second.name, "HDMI-A-1");
    assert_eq!(second.description, "external");
    assert_eq!(second.logical_x, 1920);
    assert_eq!(second.logical_y, 0);
    assert_eq!(second.logical_width, 2560);
    assert_eq!(second.logical_height, 1440);
}

#[test]
fn plan_orders_binds_and_barriers() {
    assert_eq!(DRAIN_BARRIERS, 5);
    let plan = post_discovery_plan(2);
    assert_eq!(
        plan,
        vec![
            PlanStep::BindLogicalOutputs,
            PlanStep::BindSeatKeyboard { seat_index: 0 },
            PlanStep::Roundtrip,
            PlanStep::BindSeatKeyboard { seat_index: 1 },
            PlanStep::Roundtrip,
            PlanStep::Roundtrip,
            PlanStep::Roundtrip,
            PlanStep::Roundtrip,
            PlanStep::Roundtrip,
            PlanStep::Roundtrip,
            PlanStep::Freeze,
        ]
    );
    let no_seats = post_discovery_plan(0);
    assert_eq!(no_seats.len(), 2 + DRAIN_BARRIERS);
    assert_eq!(no_seats[0], PlanStep::BindLogicalOutputs);
    assert_eq!(no_seats[no_seats.len() - 1], PlanStep::Freeze);
}

#[test]
fn cli_detail_defaults_to_full() {
    let opts = parse_args(Cli { json: false, full: false, simple: false, sort: false, protocol: None });
    assert!(opts.full_output);
    assert!(!opts.json_output);
    assert!(!opts.sort_output);
    assert_eq!(opts.protocol_filter, None);

    let opts = parse_args(Cli {
        json: true,
        full: false,
        simple: true,
        sort: true,
        protocol: Some("wl_shm".to_string()),
    });
    assert!(!opts.full_output);
    assert!(opts.json_output);
    assert!(opts.sort_output);
    assert_eq!(opts.protocol_filter, Some("wl_shm".to_string()));
}

#[test]
fn presentation_and_treeland_collectors_fill_their_records() {
    let mut app = AppData::new();
    announce(&mut app, 1, "wp_presentation", 1);
    announce(&mut app, 2, "treeland_output_manager_v1", 1);
    assert_eq!(app.presentation_info[0].clock_id, None);
    assert_eq!(app.treeland_output_managers[0].primary_output, None);
    app.update_presentation_clock_id(0, 1);
    app.update_treeland_primary_output(0, "eDP-1".to_string());
    assert_eq!(app.presentation_info[0].clock_id, Some(1));
    assert_eq!(app.treeland_output_managers[0].primary_output, Some("eDP-1".to_string()));
}

#[test]
fn drm_lease_collectors_fill_their_records() {
    let mut app = AppData::new();
    announce(&mut app, 1, "wp_drm_lease_device_v1", 1);
    app.update_drm_lease_device_path(0, "/dev/dri/card0".to_string());
    app.add_drm_lease_connector(0, "HDMI-A-1".to_string(), "external".to_string(), 42);
    assert_eq!(app.drm_lease_devices[0].device_path, Some("/dev/dri/card0".to_string()));
    assert_eq!(app.drm_lease_devices[0].connectors.len(), 1);
    assert_eq!(app.drm_lease_devices[0].connectors[0].connector_id, 42);
}
