//! The text renderer: exact lines, filtering, sorting, and the empty
//! snapshot.

use wayland_info::app::AppData;
use wayland_info::protocols::wl_seat::capability_tokens;
use wayland_info::render::protocol_has_details;

fn announce(app: &mut AppData, name: u32, interface: &str, version: u32) {
    app.handle_global(name, interface.to_string(), version);
}

#[test]
fn empty_snapshot_renders_in_every_combination() {
    let app = AppData::new();
    for &sort in &[false, true] {
        let full = app.render_all_info(sort, None);
        assert_eq!(full, vec!["Wayland Global Interfaces:".to_string()]);
        let basic = app.render_basic_info(sort, None);
        assert_eq!(basic, vec!["Wayland Global Interfaces:".to_string()]);
        let json_full = wayland_info::output::to_json_output(&app, sort, None);
        assert!(json_full.globals.is_empty());
        assert!(json_full.seats.is_empty());
        let json_basic = wayland_info::output::to_json_basic(&app, sort, None);
        assert!(json_basic.globals.is_empty());
    }
}

#[test]
fn missing_protocol_yields_exactly_the_notice() {
    let app = AppData::new();
    let lines = app.render_all_info(false, Some("wl_shm"));
    assert_eq!(lines, vec!["Protocol not supported: wl_shm".to_string()]);
    let basic = app.render_basic_info(true, Some("wl_shm"));
    assert_eq!(basic, vec!["Protocol not supported: wl_shm".to_string()]);
}

#[test]
fn one_seat_one_output_full_text() {
    let mut app = AppData::new();
    announce(&mut app, 1, "wl_seat", 7);
    announce(&mut app, 2, "wl_output", 4);
    app.update_seat_capabilities(0, capability_tokens(3));
    app.update_seat_keyboard_repeat(0, 25, 600);
    app.update_output_name(0, "eDP-1".to_string());
    app.update_output_mode(0, 3, 1920, 1080, 60000);

    let lines = app.render_all_info(false, None);
    let expected = vec![
        "Wayland Global Interfaces:".to_string(),
        "name: 1    interface: wl_seat                                       version: 7"
            .to_string(),
        "        name: seat0".to_string(),
        "        capabilities: pointer keyboard".to_string(),
        "        keyboard repeat rate: 25".to_string(),
        "        keyboard repeat delay: 600".to_string(),
        "name: 2    interface: wl_output                                     version: 4"
            .to_string(),
        "        name: eDP-1".to_string(),
        "        x: 0, y: 0, scale: 1,".to_string(),
        "        physical_width: 0 mm, physical_height: 0 mm,".to_string(),
        "        subpixel_orientation: , output_transform: ,".to_string(),
        "        mode:".to_string(),
        "                width: 1920 px, height: 1080 px, refresh: 60.000 Hz,".to_string(),
        "                flags: current preferred".to_string(),
    ];
    assert_eq!(lines, expected);
}

#[test]
fn sorted_display_omits_numeric_ids_and_orders_stably() {
    let mut app = AppData::new();
    announce(&mut app, 7, "wl_output", 4);
    announce(&mut app, 8, "wl_compositor", 6);
    announce(&mut app, 9, "wl_output", 4);

    let lines = app.render_basic_info(true, None);
    let expected = vec![
        "Wayland Global Interfaces:".to_string(),
        "interface: wl_compositor                                 version: 6".to_string(),
        "interface: wl_output                                     version: 4".to_string(),
        "interface: wl_output                                     version: 4".to_string(),
    ];
    assert_eq!(lines, expected);

    // Unsorted display keeps announcement order and shows the ids.
    let unsorted = app.render_basic_info(false, None);
    assert_eq!(
        unsorted[1],
        "name: 7    interface: wl_output                                     version: 4"
    );
    assert_eq!(
        unsorted[2],
        "name: 8    interface: wl_compositor                                 version: 6"
    );
}

#[test]
fn filter_without_detail_renderer_notes_it() {
    let mut app = AppData::new();
    announce(&mut app, 1, "wl_compositor", 6);
    let lines = app.render_all_info(false, Some("wl_compositor"));
    assert_eq!(lines.len(), 3);
    assert_eq!(lines[0], "Wayland Global Interfaces:");
    assert_eq!(
        lines[2],
        "        [Info] wayland-info-rs does not implement details for this protocol"
    );
    assert!(protocol_has_details("wl_seat"));
    assert!(protocol_has_details("zxdg_output_manager_v1"));
    assert!(!protocol_has_details("wl_compositor"));
}

#[test]
fn filter_selects_only_matching_globals() {
    let mut app = AppData::new();
    announce(&mut app, 1, "wl_shm", 1);
    announce(&mut app, 2, "wl_output", 4);
    app.add_shm_format(0, 0x34325258);
    let lines = app.render_all_info(false, Some("wl_shm"));
    let expected = vec![
        "Wayland Global Interfaces:".to_string(),
        "name: 1    interface: wl_shm                                        version: 1"
            .to_string(),
        "        format: XR24 (875713112)".to_string(),
    ];
    assert_eq!(lines, expected);
}

#[test]
fn drm_and_presentation_details_use_fixed_defaults() {
    let mut app = AppData::new();
    announce(&mut app, 1, "wp_drm_lease_device_v1", 1);
    announce(&mut app, 2, "wp_presentation", 1);
    let lines = app.render_all_info(false, None);
    assert!(lines.contains(&"        path: /dev/dri/card1".to_string()));
    assert!(lines.contains(&"        presentation clock id: 1 (CLOCK_MONOTONIC)".to_string()));
    app.update_presentation_clock_id(0, 1);
    app.update_drm_lease_device_path(0, "/dev/dri/card0".to_string());
    app.add_drm_lease_connector(0, "HDMI-A-1".to_string(), "external".to_string(), 42);
    let lines = app.render_all_info(false, None);
    assert!(lines.contains(&"        path: /dev/dri/card0".to_string()));
    assert!(lines.contains(&"        connectors:".to_string()));
    assert!(lines.contains(
        &"                name: HDMI-A-1, description: external, connector_id: 42".to_string()
    ));
    assert!(lines.contains(&"        presentation clock id: 1 (CLOCK_MONOTONIC)".to_string()));
}

#[test]
fn treeland_and_logical_output_details_render() {
    let mut app = AppData::new();
    announce(&mut app, 1, "treeland_output_manager_v1", 1);
    announce(&mut app, 2, "zxdg_output_manager_v1", 3);
    announce(&mut app, 3, "wl_output", 4);
    app.register_logical_output_pairs();
    app.update_treeland_primary_output(0, "eDP-1".to_string());
    app.update_xdg_output_name(0, 0, "eDP-1".to_string());
    app.update_xdg_output_description(0, 0, "built-in".to_string());
    app.update_xdg_output_logical_position(0, 0, 0, 0);
    app.update_xdg_output_logical_size(0, 0, 1920, 1080);
    let lines = app.render_all_info(false, None);
    assert!(lines.contains(&"        Primary output: eDP-1".to_string()));
    assert!(lines.contains(&"        xdg_output_v1".to_string()));
    assert!(lines.contains(&"                output: 0".to_string()));
    assert!(lines.contains(&"                name: 'eDP-1'".to_string()));
    assert!(lines.contains(&"                description: 'built-in'".to_string()));
    assert!(lines.contains(&"                logical_x: 0, logical_y: 0".to_string()));
    assert!(lines.contains(&"                logical_width: 1920, logical_height: 1080".to_string()));
}

#[test]
fn treeland_without_primary_output_shows_unknown() {
    let mut app = AppData::new();
    announce(&mut app, 1, "treeland_output_manager_v1", 1);
    let lines = app.render_all_info(false, None);
    assert!(lines.contains(&"        Primary output: <unknown>".to_string()));
}

#[test]
fn rendering_twice_is_identical() {
    let mut app = AppData::new();
    announce(&mut app, 1, "wl_seat", 7);
    announce(&mut app, 2, "wl_output", 4);
    app.update_seat_keyboard_repeat(0, 25, 600);
    let first = app.render_all_info(true, None);
    let second = app.render_all_info(true, None);
    assert_eq!(first, second);
    let first_basic = app.render_basic_info(false, Some("wl_seat"));
    let second_basic = app.render_basic_info(false, Some("wl_seat"));
    assert_eq!(first_basic, second_basic);
}
