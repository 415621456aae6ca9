//! Formatting helpers: numbers, format codes, and wire-enum tokens.

use wayland_info::protocols::wl_output::{mode_flag_tokens, subpixel_token, transform_token};
use wayland_info::protocols::wl_seat::capability_tokens;
use wayland_info::protocols::wl_shm::format_to_fourcc;
use wayland_info::textfmt::{i32_to_string, refresh_to_string, u32_to_string, u64_to_string};

#[test]
fn decimal_rendering_small_and_large() {
    assert_eq!(u32_to_string(0), "0");
    assert_eq!(u32_to_string(7), "7");
    assert_eq!(u32_to_string(45), "45");
    assert_eq!(u32_to_string(4294967295), "4294967295");
    assert_eq!(u64_to_string(18446744073709551615), "18446744073709551615");
}

#[test]
fn signed_rendering_covers_extremes() {
    assert_eq!(i32_to_string(0), "0");
    assert_eq!(i32_to_string(600), "600");
    assert_eq!(i32_to_string(-25), "-25");
    assert_eq!(i32_to_string(i32::MIN), "-2147483648");
    assert_eq!(i32_to_string(i32::MAX), "2147483647");
}

#[test]
fn refresh_millihertz_rendering() {
    assert_eq!(refresh_to_string(60000), "60.000");
    assert_eq!(refresh_to_string(59940), "59.940");
    assert_eq!(refresh_to_string(75), "0.075");
    assert_eq!(refresh_to_string(0), "0.000");
    assert_eq!(refresh_to_string(-1500), "-1.500");
}

#[test]
fn fourcc_printable_codes_spell_their_bytes() {
    // 'X' 'R' '2' '4' packed little-endian.
    assert_eq!(format_to_fourcc(0x34325258), "XR24");
    assert_eq!(format_to_fourcc(0x34324241), "AB24");
}

#[test]
fn fourcc_unprintable_codes_fall_back_to_hex() {
    assert_eq!(format_to_fourcc(0), "00000000");
    assert_eq!(format_to_fourcc(1), "00000001");
    // A space (0x20) is not graphic.
    assert_eq!(format_to_fourcc(0x20202020), "20202020");
    assert_eq!(format_to_fourcc(0xdeadbeef), "deadbeef");
}

#[test]
fn capability_bits_decode_in_fixed_order() {
    assert_eq!(capability_tokens(0), Vec::<String>::new());
    assert_eq!(capability_tokens(1), vec!["pointer".to_string()]);
    assert_eq!(capability_tokens(2), vec!["keyboard".to_string()]);
    assert_eq!(capability_tokens(3), vec!["pointer".to_string(), "keyboard".to_string()]);
    assert_eq!(
        capability_tokens(7),
        vec!["pointer".to_string(), "keyboard".to_string(), "touch".to_string()]
    );
    // Unknown bits contribute nothing.
    assert_eq!(capability_tokens(8), Vec::<String>::new());
}

#[test]
fn mode_flag_bits_decode_in_fixed_order() {
    assert_eq!(mode_flag_tokens(0), Vec::<String>::new());
    assert_eq!(mode_flag_tokens(1), vec!["current".to_string()]);
    assert_eq!(mode_flag_tokens(2), vec!["preferred".to_string()]);
    assert_eq!(mode_flag_tokens(3), vec!["current".to_string(), "preferred".to_string()]);
}

#[test]
fn subpixel_tokens_with_unknown_fallback() {
    assert_eq!(subpixel_token(0), "unknown");
    assert_eq!(subpixel_token(1), "none");
    assert_eq!(subpixel_token(2), "horizontal_rgb");
    assert_eq!(subpixel_token(3), "horizontal_bgr");
    assert_eq!(subpixel_token(4), "vertical_rgb");
    assert_eq!(subpixel_token(5), "vertical_bgr");
    assert_eq!(subpixel_token(99), "unknown");
}

#[test]
fn transform_tokens_with_normal_fallback() {
    assert_eq!(transform_token(0), "normal");
    assert_eq!(transform_token(1), "90");
    assert_eq!(transform_token(2), "180");
    assert_eq!(transform_token(3), "270");
    assert_eq!(transform_token(4), "flipped");
    assert_eq!(transform_token(5), "flipped-90");
    assert_eq!(transform_token(6), "flipped-180");
    assert_eq!(transform_token(7), "flipped-270");
    assert_eq!(transform_token(99), "normal");
}
